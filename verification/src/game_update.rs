//! What a game update depends on once the post and the game rows are
//! written (the launcher it ends with and the v86 request), and the demo URL
//! it stores.
use vstd::prelude::*;
use crate::demos::validate_demo_url;
use crate::errors::GameError;
use crate::text::{blank, chars_of, is_blank, str_eq, trimmed};

verus! {

/// What the tail of an update depends on.
pub struct GameUpdateFlags {
    pub keeps_jsdos: bool,
    pub keeps_v86: bool,
    pub v86_upload: bool,
    pub v86_switch: Option<i64>,
    pub has_demo_zip: bool,
    pub has_og_image_seconds: bool,
}

/// The flags of an update: the launcher it ends with keeps a js-dos bundle
/// only when it is `jsdos`, a v86 artifact only when it is `v86`.
pub fn game_update_flags(
    effective_launcher_type: &str,
    v86_upload: bool,
    v86_switch: Option<i64>,
    has_demo_zip: bool,
    has_og_image_seconds: bool,
) -> (r: GameUpdateFlags)
    ensures
        r.keeps_jsdos == (effective_launcher_type@ == "jsdos"@),
        r.keeps_v86 == (effective_launcher_type@ == "v86"@),
        r.v86_upload == v86_upload,
        r.v86_switch == v86_switch,
        r.has_demo_zip == has_demo_zip,
        r.has_og_image_seconds == has_og_image_seconds,
{
    GameUpdateFlags {
        keeps_jsdos: str_eq(effective_launcher_type, "jsdos"),
        keeps_v86: str_eq(effective_launcher_type, "v86"),
        v86_upload,
        v86_switch,
        has_demo_zip,
        has_og_image_seconds,
    }
}

/// Why the tail refuses the update right after the game row is written, if
/// it does: a package upload and a system switch exclude each other, and a
/// package only fits a game that stays v86.
pub open spec fn tail_refusal(f: GameUpdateFlags) -> Option<Seq<char>> {
    if f.v86_upload && f.v86_switch is Some {
        Some("Send either a v86 package upload or a system switch, not both."@)
    } else if f.v86_upload && !f.keeps_v86 {
        Some("A v86 package cannot be attached to a non-v86 game."@)
    } else {
        None
    }
}

/// The demo URL a game update stores: the validated URL when not blank, and
/// the extracted demo's own page when a demo zip came along.
pub fn updated_demo_url(demo_url: Option<String>, has_demo_zip: bool, local_demo_url: String) -> (r: Result<
    Option<String>,
    GameError,
>)
    ensures
        has_demo_zip && !(demo_url is Some && !blank(demo_url->Some_0@) && !crate::urls::is_http_url(
            trimmed(demo_url->Some_0@),
        )) ==> (r matches Ok(Some(v)) && v@ == local_demo_url@),
        !has_demo_zip && (demo_url is None || blank(demo_url->Some_0@)) ==> r == Ok::<
            Option<String>,
            GameError,
        >(None),
        !has_demo_zip && demo_url is Some && !blank(demo_url->Some_0@) && crate::urls::is_http_url(
            trimmed(demo_url->Some_0@),
        ) ==> (r matches Ok(Some(v)) && v@ == trimmed(demo_url->Some_0@)),
        demo_url is Some && !blank(demo_url->Some_0@) && !crate::urls::is_http_url(
            trimmed(demo_url->Some_0@),
        ) ==> (r matches Err(GameError::InvalidDemo(m)) && m@ == "Demo URL"@
            + " must be an http:// or https:// URL."@),
{
    let validated = match validate_demo_url(demo_url) {
        Ok(v) => v,
        Err(e) => {
            return Err(e);
        },
    };
    if has_demo_zip {
        return Ok(Some(local_demo_url));
    }
    match validated {
        Some(v) => {
            let cs = chars_of(v.as_str());
            proof {
                if crate::urls::is_http_url(v@) {
                    crate::urls::lemma_http_url_not_blank(v@);
                }
                if demo_url is Some && !blank(demo_url->Some_0@) {
                    crate::text::law_trim_idempotent(demo_url->Some_0@);
                }
            }
            if is_blank(cs.as_slice()) {
                Ok(None)
            } else {
                Ok(Some(v))
            }
        },
        None => Ok(None),
    }
}

/// The v86 part of an update: a package upload and a system switch exclude
/// each other; a package needs a game that stays v86; a switch alone, or no
/// v86 request, never refuses the update.
pub proof fn law_v86_updates(f: GameUpdateFlags)
    ensures
        f.v86_upload && f.v86_switch is Some ==> tail_refusal(f) is Some,
        f.v86_upload && !f.keeps_v86 ==> tail_refusal(f) is Some,
        !f.v86_upload ==> tail_refusal(f) is None,
        f.v86_upload && f.v86_switch is None && f.keeps_v86 ==> tail_refusal(f) is None,
{
}

} // verus!
