//! Chunked js-dos bundle uploads: who may send which chunk, when an upload is
//! complete, and what a finished bundle must contain.
use vstd::prelude::*;
use crate::errors::{GameError, msg, msg3};
use crate::numbers::decimal;
use crate::text::{ascii_lower, chars_of, eq_ignore_ascii_case, ends_with_ignore_ascii_case, str_eq};

verus! {

/// An upload session as the session table stores it.
pub struct UploadSession {
    pub game_id: i64,
    pub uploader_id: i64,
    pub expected_size_bytes: i64,
    pub received_size_bytes: i64,
    pub next_chunk_index: i64,
    pub status: String,
}

impl UploadSession {
    /// Sizes and the chunk counter are never negative and never more has
    /// arrived than was announced.
    pub open spec fn wf(&self) -> bool {
        &&& 0 <= self.received_size_bytes <= self.expected_size_bytes
        &&& 0 <= self.next_chunk_index < i64::MAX
    }

    pub open spec fn active(&self) -> bool {
        self.status@ == "active"@
    }
}

pub open spec fn jsdos_suffix() -> Seq<char> {
    seq!['.', 'j', 's', 'd', 'o', 's']
}

/// Why a new upload is refused, if it is: the file must end in `.jsdos` (any
/// case) and announce between 1 and `max_size` bytes.
pub open spec fn start_error(file_name: Seq<char>, size: u64, max_size: u64) -> Option<Seq<char>> {
    if !(6 <= file_name.len() && eq_ignore_ascii_case(
        file_name.subrange(file_name.len() - 6, file_name.len() as int),
        jsdos_suffix(),
    )) {
        Some("Only .jsdos bundles are accepted."@)
    } else if size == 0 || size > max_size {
        Some("js-dos bundles must be between 1 byte and "@ + decimal(max_size as nat) + " bytes."@)
    } else {
        None
    }
}

pub fn check_start_upload(file_name: &str, size_bytes: u64, max_size: u64) -> (r: Result<(), GameError>)
    ensures
        match start_error(file_name@, size_bytes, max_size) {
            None => r is Ok,
            Some(m) => r matches Err(GameError::InvalidDemo(e)) && e@ == m,
        },
{
    let name = chars_of(file_name);
    let suffix = chars_of(".jsdos");
    proof {
        reveal_strlit(".jsdos");
    }
    assert(suffix@ =~= jsdos_suffix());
    if !ends_with_ignore_ascii_case(name.as_slice(), suffix.as_slice()) {
        return Err(GameError::InvalidDemo(msg("Only .jsdos bundles are accepted.")));
    }
    if size_bytes == 0 || size_bytes > max_size {
        let m = crate::numbers::format_u64(max_size);
        let ms = crate::text::string_from(m.as_slice());
        return Err(
            GameError::InvalidDemo(
                msg3("js-dos bundles must be between 1 byte and ", ms.as_str(), " bytes."),
            ),
        );
    }
    Ok(())
}

/// The fresh session a started upload opens.
pub fn new_session(game_id: i64, uploader_id: i64, size_bytes: u64) -> (r: UploadSession)
    requires
        1 <= size_bytes <= i64::MAX,
    ensures
        r.wf(),
        r.active(),
        r.game_id == game_id,
        r.uploader_id == uploader_id,
        r.expected_size_bytes == size_bytes,
        r.received_size_bytes == 0,
        r.next_chunk_index == 0,
{
    UploadSession {
        game_id,
        uploader_id,
        expected_size_bytes: size_bytes as i64,
        received_size_bytes: 0,
        next_chunk_index: 0,
        status: msg("active"),
    }
}

/// The outcome of a chunk: who may send it, whether it is the next one of an
/// active upload, and whether its size fits.
pub open spec fn chunk_outcome(
    s: UploadSession,
    user_id: i64,
    game_id: i64,
    chunk_index: u64,
    len: nat,
    chunk_size: u64,
) -> Result<(u64, u64), Seq<char>> {
    if s.uploader_id != user_id || s.game_id != game_id {
        Err(Seq::empty())
    } else if !s.active() || chunk_index != s.next_chunk_index {
        Err("Invalid or out-of-order js-dos upload chunk."@)
    } else if len == 0 || len > chunk_size || s.received_size_bytes + len > s.expected_size_bytes {
        Err("Invalid js-dos upload chunk size."@)
    } else {
        Ok(((s.received_size_bytes + len) as u64, (chunk_index + 1) as u64))
    }
}

/// Accepts or refuses one chunk of `chunk_len` bytes. On success gives the
/// received size and the next chunk index the session moves to.
pub fn accept_chunk(
    session: &UploadSession,
    user_id: i64,
    game_id: i64,
    chunk_index: u64,
    chunk_len: usize,
    chunk_size: u64,
) -> (r: Result<(u64, u64), GameError>)
    requires
        session.wf(),
    ensures
        match chunk_outcome(*session, user_id, game_id, chunk_index, chunk_len as nat, chunk_size) {
            Ok(v) => r == Ok::<(u64, u64), GameError>(v),
            Err(m) => if m.len() == 0 {
                r matches Err(GameError::Forbidden)
            } else {
                r matches Err(GameError::InvalidDemo(e)) && e@ == m
            },
        },
{
    if session.uploader_id != user_id || session.game_id != game_id {
        return Err(GameError::Forbidden);
    }
    proof {
        reveal_strlit("Invalid or out-of-order js-dos upload chunk.");
        reveal_strlit("Invalid js-dos upload chunk size.");
    }
    if !str_eq(session.status.as_str(), "active") || chunk_index != session.next_chunk_index as u64 {
        return Err(GameError::InvalidDemo(msg("Invalid or out-of-order js-dos upload chunk.")));
    }
    let room: u64 = (session.expected_size_bytes - session.received_size_bytes) as u64;
    if chunk_len == 0 || chunk_len as u64 > chunk_size || chunk_len as u64 > room {
        return Err(GameError::InvalidDemo(msg("Invalid js-dos upload chunk size.")));
    }
    let received = session.received_size_bytes as u64 + chunk_len as u64;
    Ok((received, chunk_index + 1))
}

/// The session after an accepted chunk.
pub fn record_chunk(session: &mut UploadSession, received: u64, next: u64)
    requires
        old(session).wf(),
        old(session).received_size_bytes <= received <= old(session).expected_size_bytes,
        next == old(session).next_chunk_index + 1,
        next < i64::MAX,
    ensures
        final(session).wf(),
        final(session).received_size_bytes == received,
        final(session).next_chunk_index == next,
        final(session).game_id == old(session).game_id,
        final(session).uploader_id == old(session).uploader_id,
        final(session).expected_size_bytes == old(session).expected_size_bytes,
        final(session).status == old(session).status,
{
    session.received_size_bytes = received as i64;
    session.next_chunk_index = next as i64;
}

/// An upload is complete when it is active and every announced byte arrived.
pub fn check_complete(session: &UploadSession) -> (r: Result<(), GameError>)
    ensures
        session.active() && session.expected_size_bytes == session.received_size_bytes ==> r is Ok,
        !(session.active() && session.expected_size_bytes == session.received_size_bytes) ==> (r matches Err(
            GameError::InvalidDemo(e),
        ) && e@ == "js-dos upload is incomplete."@),
{
    if !str_eq(session.status.as_str(), "active")
        || session.expected_size_bytes != session.received_size_bytes {
        return Err(GameError::InvalidDemo(msg("js-dos upload is incomplete.")));
    }
    Ok(())
}

/// Marks a session finished (`completed` or `aborted`); it takes no more chunks.
pub fn close_session(session: &mut UploadSession, completed: bool)
    ensures
        final(session).status@ == (if completed { "completed"@ } else { "aborted"@ }),
        final(session).game_id == old(session).game_id,
        final(session).uploader_id == old(session).uploader_id,
        final(session).expected_size_bytes == old(session).expected_size_bytes,
        final(session).received_size_bytes == old(session).received_size_bytes,
        final(session).next_chunk_index == old(session).next_chunk_index,
{
    session.status = if completed { msg("completed") } else { msg("aborted") };
}

/// Every chunk a session accepts keeps it well formed, moves the counter on
/// by one and adds exactly the chunk's bytes, never past the announced size.
pub proof fn law_chunk_keeps_session_valid(
    s: UploadSession,
    user_id: i64,
    game_id: i64,
    chunk_index: u64,
    len: nat,
    chunk_size: u64,
)
    requires
        s.wf(),
        chunk_outcome(s, user_id, game_id, chunk_index, len, chunk_size) is Ok,
    ensures
        ({
            let (received, next) = chunk_outcome(s, user_id, game_id, chunk_index, len, chunk_size)->Ok_0;
            &&& received == s.received_size_bytes + len
            &&& received <= s.expected_size_bytes
            &&& next == s.next_chunk_index + 1
        }),
{
}

/// A closed session (completed or aborted) refuses every further chunk.
pub proof fn law_closed_session_refuses_chunks(
    s: UploadSession,
    user_id: i64,
    game_id: i64,
    chunk_index: u64,
    len: nat,
    chunk_size: u64,
)
    requires
        s.status@ == "completed"@ || s.status@ == "aborted"@,
    ensures
        chunk_outcome(s, user_id, game_id, chunk_index, len, chunk_size) is Err,
{
    reveal_strlit("completed");
    reveal_strlit("aborted");
    reveal_strlit("active");
    assert(!s.active()) by {
        assert(s.status@.len() != "active"@.len());
    }
}

/// What a js-dos bundle's archive says about one entry.
pub struct BundleEntry {
    pub name: String,
    /// The entry's name stays inside the archive (the zip reader gives an
    /// enclosed name for it).
    pub enclosed: bool,
    pub is_symlink: bool,
}

pub open spec fn manifest_name() -> Seq<char> {
    ".jsdos/jsdos.json"@
}

/// The first complaint about a bundle's entries, scanning them in order.
pub open spec fn entries_error(es: Seq<BundleEntry>) -> Option<Seq<char>>
    decreases es.len(),
{
    if es.len() == 0 {
        None
    } else if !es[0].enclosed {
        Some("js-dos bundle contains an unsafe path."@)
    } else if es[0].is_symlink {
        Some("js-dos bundle cannot contain symlinks."@)
    } else {
        entries_error(es.drop_first())
    }
}

/// Why a finished bundle is refused, if it is: between 1 and `max_files`
/// entries, none escaping the archive or a symlink, and the js-dos manifest
/// among them.
pub open spec fn bundle_error(es: Seq<BundleEntry>, max_files: usize) -> Option<Seq<char>> {
    if es.len() == 0 || es.len() > max_files {
        Some("Invalid js-dos bundle file count."@)
    } else if entries_error(es) is Some {
        entries_error(es)
    } else if !(exists|i: int| 0 <= i < es.len() && (#[trigger] es[i]).name@ == manifest_name()) {
        Some("js-dos bundle must contain .jsdos/jsdos.json."@)
    } else {
        None
    }
}

pub fn check_bundle_entries(entries: &[BundleEntry], max_files: usize) -> (r: Result<(), GameError>)
    ensures
        match bundle_error(entries@, max_files) {
            None => r is Ok,
            Some(m) => r matches Err(GameError::InvalidDemo(e)) && e@ == m,
        },
{
    if entries.len() == 0 || entries.len() > max_files {
        return Err(GameError::InvalidDemo(msg("Invalid js-dos bundle file count.")));
    }
    let mut has_manifest = false;
    let mut i: usize = 0;
    assert(entries@.skip(0) == entries@);
    while i < entries.len()
        invariant
            i <= entries@.len(),
            0 < entries@.len() <= max_files,
            entries_error(entries@) == entries_error(entries@.skip(i as int)),
            has_manifest == exists|j: int|
                0 <= j < i && (#[trigger] entries@[j]).name@ == manifest_name(),
        decreases entries@.len() - i,
    {
        let e = &entries[i];
        assert(entries@.skip(i as int)[0] == entries@[i as int]);
        assert(entries@.skip(i as int).drop_first() == entries@.skip(i + 1));
        if str_eq(e.name.as_str(), ".jsdos/jsdos.json") {
            has_manifest = true;
        }
        if !e.enclosed {
            return Err(GameError::InvalidDemo(msg("js-dos bundle contains an unsafe path.")));
        }
        if e.is_symlink {
            return Err(GameError::InvalidDemo(msg("js-dos bundle cannot contain symlinks.")));
        }
        i = i + 1;
    }
    assert(entries@.skip(i as int).len() == 0);
    if !has_manifest {
        return Err(GameError::InvalidDemo(msg("js-dos bundle must contain .jsdos/jsdos.json.")));
    }
    Ok(())
}

/// Every chunk that fits is taken: for an active upload, sent by its
/// uploader for its game at the index it expects, a chunk of 1 up to
/// `chunk_size` bytes (a chunk of exactly `chunk_size` bytes included) that
/// does not overfill the announced size moves the upload to `received + len`
/// bytes and the next index; an empty chunk, one larger than `chunk_size`, or
/// one that overfills is refused.
pub proof fn law_fitting_chunks_are_taken(
    s: UploadSession,
    user_id: i64,
    game_id: i64,
    chunk_index: u64,
    len: nat,
    chunk_size: u64,
)
    requires
        s.wf(),
        s.active(),
        s.uploader_id == user_id,
        s.game_id == game_id,
        chunk_index == s.next_chunk_index,
    ensures
        1 <= len <= chunk_size && s.received_size_bytes + len <= s.expected_size_bytes ==> chunk_outcome(
            s,
            user_id,
            game_id,
            chunk_index,
            len,
            chunk_size,
        ) == Ok::<(u64, u64), Seq<char>>(
            ((s.received_size_bytes + len) as u64, (chunk_index + 1) as u64),
        ),
        len == chunk_size && chunk_size >= 1 && s.received_size_bytes + len <= s.expected_size_bytes
            ==> chunk_outcome(s, user_id, game_id, chunk_index, len, chunk_size) is Ok,
        (len == 0 || len > chunk_size || s.received_size_bytes + len > s.expected_size_bytes)
            ==> chunk_outcome(s, user_id, game_id, chunk_index, len, chunk_size) is Err,
{
}

/// Only the uploader may send chunks, and only for its own game; an active
/// upload takes the chunks in order: any index other than the expected one is
/// refused, and so is any chunk once the upload is no longer active.
pub proof fn law_chunks_come_from_the_uploader_in_order(
    s: UploadSession,
    user_id: i64,
    game_id: i64,
    chunk_index: u64,
    len: nat,
    chunk_size: u64,
)
    ensures
        s.uploader_id != user_id || s.game_id != game_id ==> chunk_outcome(
            s,
            user_id,
            game_id,
            chunk_index,
            len,
            chunk_size,
        ) == Err::<(u64, u64), Seq<char>>(Seq::empty()),
        s.uploader_id == user_id && s.game_id == game_id && chunk_index != s.next_chunk_index
            ==> chunk_outcome(s, user_id, game_id, chunk_index, len, chunk_size) == Err::<
            (u64, u64),
            Seq<char>,
        >("Invalid or out-of-order js-dos upload chunk."@),
        s.uploader_id == user_id && s.game_id == game_id && !s.active() ==> chunk_outcome(
            s,
            user_id,
            game_id,
            chunk_index,
            len,
            chunk_size,
        ) == Err::<(u64, u64), Seq<char>>("Invalid or out-of-order js-dos upload chunk."@),
        chunk_outcome(s, user_id, game_id, chunk_index, len, chunk_size) is Ok ==> s.uploader_id
            == user_id && s.game_id == game_id && s.active() && chunk_index == s.next_chunk_index && 1
            <= len <= chunk_size && s.received_size_bytes + len <= s.expected_size_bytes,
{
}

/// A bundle upload starts for a name ending in `.jsdos`, in any case, and a
/// size between 1 byte and the limit, both included; any other size is
/// refused with the limit, and a name without the suffix is refused.
pub proof fn law_bundle_uploads_start_by_name_and_size(stem: Seq<char>, size: u64, max_size: u64)
    ensures
        1 <= size <= max_size ==> start_error(stem + ".jsdos"@, size, max_size) is None,
        1 <= size <= max_size ==> start_error(stem + ".JSDOS"@, size, max_size) is None,
        size == 0 || size > max_size ==> start_error(stem + ".jsdos"@, size, max_size) == Some(
            "js-dos bundles must be between 1 byte and "@ + decimal(max_size as nat) + " bytes."@,
        ),
        start_error(stem + ".zip"@, size, max_size) == Some("Only .jsdos bundles are accepted."@),
{
    reveal_strlit(".jsdos");
    reveal_strlit(".JSDOS");
    reveal_strlit(".zip");
    let a = stem + ".jsdos"@;
    let b = stem + ".JSDOS"@;
    let c = stem + ".zip"@;
    assert(a.subrange(a.len() - 6, a.len() as int) =~= jsdos_suffix());
    assert(b.subrange(b.len() - 6, b.len() as int) =~= ".JSDOS"@);
    assert(eq_ignore_ascii_case(".JSDOS"@, jsdos_suffix())) by {
        assert forall|i: int| 0 <= i < 6 implies ascii_lower(#[trigger] ".JSDOS"@[i]) == ascii_lower(
            jsdos_suffix()[i],
        ) by {}
    }
    if c.len() >= 6 {
        let t = c.subrange(c.len() - 6, c.len() as int);
        assert(t[5] == 'p');
        assert(ascii_lower(t[5]) != ascii_lower(jsdos_suffix()[5]));
    }
}

proof fn lemma_entries_error_iff(es: Seq<BundleEntry>)
    ensures
        entries_error(es) is None <==> forall|i: int|
            0 <= i < es.len() ==> (#[trigger] es[i]).enclosed && !es[i].is_symlink,
    decreases es.len(),
{
    if es.len() > 0 {
        lemma_entries_error_iff(es.drop_first());
        assert forall|i: int| 0 < i < es.len() implies #[trigger] es[i] == es.drop_first()[i - 1] by {}
        if entries_error(es.drop_first()) is None && es[0].enclosed && !es[0].is_symlink {
            assert forall|i: int| 0 <= i < es.len() implies (#[trigger] es[i]).enclosed && !es[i].is_symlink by {
                if i > 0 {
                    assert(es[i] == es.drop_first()[i - 1]);
                }
            }
        }
        if forall|i: int| 0 <= i < es.len() ==> (#[trigger] es[i]).enclosed && !es[i].is_symlink {
            assert forall|i: int| 0 <= i < es.drop_first().len() implies (#[trigger] es.drop_first()[i]).enclosed
                && !es.drop_first()[i].is_symlink by {
                assert(es.drop_first()[i] == es[i + 1]);
            }
        }
    }
}

/// A finished js-dos bundle is accepted exactly when it has between one and
/// `max_files` entries, none of them leaves the archive or is a symbolic
/// link (wherever it stands), and one of them is the js-dos manifest.
pub proof fn law_bundles_need_safe_entries_and_a_manifest(es: Seq<BundleEntry>, max_files: usize)
    ensures
        bundle_error(es, max_files) is None <==> 1 <= es.len() <= max_files && (forall|i: int|
            0 <= i < es.len() ==> (#[trigger] es[i]).enclosed && !es[i].is_symlink) && (exists|i: int|
            0 <= i < es.len() && (#[trigger] es[i]).name@ == manifest_name()),
{
    lemma_entries_error_iff(es);
}

} // verus!
