//! Pulling a site's data into another environment: the sync keys that grant
//! it and the demo files it may read.
use vstd::prelude::*;
use crate::errors::{SyncError, msg, msg2};
use crate::numbers::{format_i64, signed_decimal};
use crate::paths::{is_safe_relative_path, join, path_join, safe_relative};
use crate::serving::{chars_for_bytes, count_chars_for_bytes, utf8_bytes};
use crate::text::{chars_of, str_eq, string_from, trim, trimmed};

verus! {

/// The longest validity of a sync key: one week.
pub const MAX_SYNC_KEY_TTL_HOURS: u64 = 168;

/// A sync key's validity in hours: the requested one, 24 when absent, kept
/// within `1..=MAX_SYNC_KEY_TTL_HOURS`.
pub fn sync_key_ttl(ttl_hours: Option<u64>) -> (r: u64)
    ensures
        r == ({
            let t = match ttl_hours {
                Some(t) => t,
                None => 24,
            };
            if t < 1 {
                1
            } else if t > MAX_SYNC_KEY_TTL_HOURS {
                MAX_SYNC_KEY_TTL_HOURS
            } else {
                t
            }
        }),
        1 <= r <= MAX_SYNC_KEY_TTL_HOURS,
        r == key_ttl(ttl_hours),
{
    let t = match ttl_hours {
        Some(t) => t,
        None => 24,
    };
    if t < 1 {
        1
    } else if t > MAX_SYNC_KEY_TTL_HOURS {
        MAX_SYNC_KEY_TTL_HOURS
    } else {
        t
    }
}

/// The label a sync key is stored with: trimmed, and cut to its first 100
/// bytes when longer (the cut must fall on a character boundary).
pub open spec fn key_label(label: Option<String>) -> Seq<char> {
    let t = match label {
        Some(l) => trimmed(l@),
        None => Seq::empty(),
    };
    match chars_for_bytes(t, 100) {
        Some(k) => t.take(k as int),
        None => t,
    }
}

pub fn sync_key_label(label: Option<String>) -> (r: String)
    requires
        ({
            let t = match label {
                Some(l) => trimmed(l@),
                None => Seq::empty(),
            };
            utf8_bytes(t) > 100 ==> chars_for_bytes(t, 100) is Some
        }),
    ensures
        r@ == key_label(label),
        utf8_bytes(r@) <= 100,
{
    let t: Vec<char> = match &label {
        Some(l) => {
            let cs = chars_of(l.as_str());
            trim(cs.as_slice())
        },
        None => Vec::new(),
    };
    match count_chars_for_bytes(t.as_slice(), 100) {
        Some(k) => {
            proof {
                crate::serving::lemma_chars_for_bytes_bound(t@, 100);
                crate::serving::lemma_chars_for_bytes_take(t@, 100);
            }
            let cut = crate::text::slice_chars(t.as_slice(), 0, k);
            assert(cut@ == t@.take(k as int));
            string_from(cut.as_slice())
        },
        None => string_from(t.as_slice()),
    }
}

/// The file of an extracted demo a pull asks for: `<demo_dir>/<id>/<relative>`
/// for a project, `<demo_dir>/game-<id>/<relative>` for a game. `known` is
/// whether the store holds the project or game; an unknown item or an unsafe
/// relative path is not found.
pub open spec fn demo_file(
    demo_dir: Seq<char>,
    kind: Seq<char>,
    id: i64,
    known: bool,
    relative: Seq<char>,
) -> Result<Seq<char>, Option<Seq<char>>> {
    if kind != "project"@ && kind != "game"@ {
        Err(Some("kind must be project or game"@))
    } else if !known || !safe_relative(relative) {
        Err(None)
    } else {
        let dir = if kind == "project"@ {
            signed_decimal(id as int)
        } else {
            "game-"@ + signed_decimal(id as int)
        };
        Ok(join(join(demo_dir, dir), relative))
    }
}

pub fn demo_file_path(demo_dir: &str, kind: &str, id: i64, known: bool, relative: &str) -> (r: Result<
    String,
    SyncError,
>)
    ensures
        match demo_file(demo_dir@, kind@, id, known, relative@) {
            Ok(p) => r matches Ok(x) && x@ == p,
            Err(Some(m)) => r matches Err(SyncError::InvalidData(e)) && e@ == m,
            Err(None) => r matches Err(SyncError::NotFound),
        },
{
    proof {
        reveal_strlit("project");
        reveal_strlit("game");
    }
    let id_text = format_i64(id);
    let is_project = str_eq(kind, "project");
    let is_game = str_eq(kind, "game");
    if !is_project && !is_game {
        return Err(SyncError::InvalidData(msg("kind must be project or game")));
    }
    let dir: Vec<char> = if is_project {
        id_text
    } else {
        let ids = string_from(id_text.as_slice());
        let d = msg2("game-", ids.as_str());
        chars_of(d.as_str())
    };
    assert(kind@ == "project"@ || kind@ == "game"@);
    if !known {
        return Err(SyncError::NotFound);
    }
    let rel = chars_of(relative);
    if !is_safe_relative_path(rel.as_slice()) {
        return Err(SyncError::NotFound);
    }
    let base = chars_of(demo_dir);
    let a = path_join(base.as_slice(), dir.as_slice());
    let b = path_join(a.as_slice(), rel.as_slice());
    Ok(string_from(b.as_slice()))
}

/// Doubles every single quote, so that the text can stand inside a quoted
/// SQL string literal (as the database snapshot's target path does).
pub open spec fn sql_quoted(s: Seq<char>) -> Seq<char>
    decreases s.len(),
{
    if s.len() == 0 {
        Seq::empty()
    } else {
        sql_quoted(s.drop_last()) + (if s.last() == '\'' {
            seq!['\'', '\'']
        } else {
            seq![s.last()]
        })
    }
}

pub fn escape_sql_literal(s: &str) -> (r: String)
    ensures
        r@ == sql_quoted(s@),
{
    let cs = chars_of(s);
    let mut out: Vec<char> = Vec::new();
    let mut i: usize = 0;
    while i < cs.len()
        invariant
            i <= cs@.len(),
            cs@ == s@,
            out@ == sql_quoted(cs@.take(i as int)),
        decreases cs@.len() - i,
    {
        assert(cs@.take(i + 1).drop_last() == cs@.take(i as int));
        assert(cs@.take(i + 1).last() == cs@[i as int]);
        if cs[i] == '\'' {
            out.push('\'');
            out.push('\'');
        } else {
            out.push(cs[i]);
        }
        i = i + 1;
    }
    assert(cs@.take(cs@.len() as int) == cs@);
    string_from(out.as_slice())
}

/// Quotes in an escaped text come in pairs: reading the escaped text back as
/// the body of a SQL literal, each `''` one quote, gives the text back.
pub open spec fn sql_unquoted(s: Seq<char>) -> Seq<char>
    decreases s.len(),
{
    if s.len() == 0 {
        Seq::empty()
    } else if s.len() >= 2 && s[0] == '\'' && s[1] == '\'' {
        seq!['\''] + sql_unquoted(s.skip(2))
    } else {
        seq![s[0]] + sql_unquoted(s.drop_first())
    }
}

proof fn lemma_unquote_prefix(a: Seq<char>, c: char)
    ensures
        sql_unquoted(sql_quoted(seq![c]) + a) == seq![c] + sql_unquoted(a),
{
    reveal_with_fuel(sql_quoted, 2);
    assert(seq![c].drop_last() == Seq::<char>::empty());
    assert(seq![c].last() == c);
    let q = sql_quoted(seq![c]);
    let s = q + a;
    if c == '\'' {
        assert(q == Seq::<char>::empty() + seq!['\'', '\'']);
        assert(s.skip(2) == a);
    } else {
        assert(q == Seq::<char>::empty() + seq![c]);
        assert(s[0] == c);
        assert(s.drop_first() == a);
    }
}

/// Escaping then reading back gives the same text: escaping loses nothing
/// and lets no quote end the literal early.
pub proof fn law_sql_escape_roundtrip(s: Seq<char>)
    ensures
        sql_unquoted(sql_quoted(s)) == s,
    decreases s.len(),
{
    if s.len() > 0 {
        let t = s.drop_first();
        law_sql_escape_roundtrip(t);
        lemma_quoted_prepend(s[0], t);
        lemma_unquote_prefix(sql_quoted(t), s[0]);
        assert(s == seq![s[0]] + t);
    }
}

proof fn lemma_quoted_prepend(c: char, t: Seq<char>)
    ensures
        sql_quoted(seq![c] + t) == sql_quoted(seq![c]) + sql_quoted(t),
    decreases t.len(),
{
    if t.len() == 0 {
        assert(seq![c] + t == seq![c]);
    } else {
        lemma_quoted_prepend(c, t.drop_last());
        assert((seq![c] + t).drop_last() == seq![c] + t.drop_last());
        assert((seq![c] + t).last() == t.last());
    }
}

/// The RFC 3339 text chrono writes for the UTC instant `secs` seconds and
/// `nanos` nanoseconds after the Unix epoch, or `None` where chrono has no
/// such instant.
pub uninterp spec fn utc_rfc3339(secs: i64, nanos: u32) -> Option<Seq<char>>;

/// `chrono::DateTime::<Utc>::from_timestamp(secs, nanos)`, written with
/// `DateTime::to_rfc3339`. Claimed: the result is the named text, `None`
/// exactly where `from_timestamp` gives none (an instant out of chrono's
/// range or an invalid nanosecond count).
#[verifier::external_body]
fn rfc3339_at(secs: i64, nanos: u32) -> (r: Option<String>)
    ensures
        match r {
            Some(s) => utc_rfc3339(secs, nanos) == Some(s@),
            None => utc_rfc3339(secs, nanos) is None,
        },
{
    match chrono::DateTime::from_timestamp(secs, nanos) {
        Some(t) => Some(t.to_rfc3339()),
        None => None,
    }
}

/// The validity of a new sync key in hours, as `sync_key_ttl` gives it.
pub open spec fn key_ttl(ttl_hours: Option<u64>) -> int {
    let t = match ttl_hours {
        Some(t) => t,
        None => 24,
    };
    if t < 1 {
        1
    } else if t > MAX_SYNC_KEY_TTL_HOURS {
        MAX_SYNC_KEY_TTL_HOURS as int
    } else {
        t as int
    }
}

/// When a sync key issued at the instant `now_secs`/`now_nanos` (UTC, after
/// the Unix epoch) expires: that many hours later, as RFC 3339 text.
pub fn sync_key_expiry(now_secs: i64, now_nanos: u32, ttl_hours: Option<u64>) -> (r: Option<String>)
    requires
        now_secs + MAX_SYNC_KEY_TTL_HOURS * 3600 <= i64::MAX,
    ensures
        match r {
            Some(s) => utc_rfc3339((now_secs + key_ttl(ttl_hours) * 3600) as i64, now_nanos) == Some(
                s@,
            ),
            None => utc_rfc3339((now_secs + key_ttl(ttl_hours) * 3600) as i64, now_nanos) is None,
        },
{
    let hours = sync_key_ttl(ttl_hours);
    let seconds: i64 = (hours * 3600) as i64;
    rfc3339_at(now_secs + seconds, now_nanos)
}

/// A sync key lives between one hour and a week: a requested validity in
/// that window is kept, a shorter one becomes an hour, a longer one a week,
/// and none gives a day.
pub proof fn law_sync_key_validity(ttl_hours: Option<u64>)
    ensures
        1 <= key_ttl(ttl_hours) <= 168,
        ttl_hours is None ==> key_ttl(ttl_hours) == 24,
        ttl_hours is Some && 1 <= ttl_hours->Some_0 <= 168 ==> key_ttl(ttl_hours) == ttl_hours->Some_0,
        ttl_hours matches Some(t) && t > 168 ==> key_ttl(ttl_hours) == 168,
        ttl_hours == Some(0u64) ==> key_ttl(ttl_hours) == 1,
{
}

/// A demo file is looked up below the item's own directory: `<id>` for a
/// project, `game-<id>` for a game; an unknown item or an unsafe relative
/// path is not found, and any other kind is refused.
pub proof fn law_demo_files(demo_dir: Seq<char>, kind: Seq<char>, id: i64, known: bool, relative: Seq<char>)
    ensures
        known && safe_relative(relative) ==> demo_file(demo_dir, "project"@, id, known, relative) == Ok::<
            Seq<char>,
            Option<Seq<char>>,
        >(join(join(demo_dir, signed_decimal(id as int)), relative)),
        known && safe_relative(relative) ==> demo_file(demo_dir, "game"@, id, known, relative) == Ok::<
            Seq<char>,
            Option<Seq<char>>,
        >(join(join(demo_dir, "game-"@ + signed_decimal(id as int)), relative)),
        (kind == "project"@ || kind == "game"@) && (!known || !safe_relative(relative)) ==> demo_file(
            demo_dir,
            kind,
            id,
            known,
            relative,
        ) == Err::<Seq<char>, Option<Seq<char>>>(None),
        kind != "project"@ && kind != "game"@ ==> demo_file(demo_dir, kind, id, known, relative) is Err,
{
    reveal_strlit("project");
    reveal_strlit("game");
    assert("project"@[0] != "game"@[0]);
}

/// A sync key's label is its text trimmed, kept whole when it fits in 100
/// bytes of UTF-8; a longer one is cut to exactly its first 100 bytes, where
/// that falls on a character boundary. The label is always a prefix of the
/// trimmed text.
pub proof fn law_sync_key_labels(label: Option<String>)
    ensures
        ({
            let t = match label {
                Some(l) => trimmed(l@),
                None => Seq::<char>::empty(),
            };
            &&& t.take(key_label(label).len() as int) == key_label(label)
            &&& key_label(label).len() <= t.len()
            &&& utf8_bytes(t) < 100 ==> key_label(label) == t
            &&& chars_for_bytes(t, 100) is Some ==> utf8_bytes(key_label(label)) == 100
        }),
{
    let t = match label {
        Some(l) => trimmed(l@),
        None => Seq::<char>::empty(),
    };
    if utf8_bytes(t) < 100 {
        crate::serving::lemma_short_texts_have_no_cut(t, 100);
    }
    if chars_for_bytes(t, 100) is Some {
        crate::serving::lemma_chars_for_bytes_take(t, 100);
    } else {
        assert(t.take(t.len() as int) =~= t);
    }
}

} // verus!
