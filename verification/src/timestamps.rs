//! Timestamps in responses. The store writes `CURRENT_TIMESTAMP` values,
//! `YYYY-MM-DD HH:MM:SS` in UTC without a zone; responses carry them as
//! RFC 3339 UTC (`YYYY-MM-DDTHH:MM:SSZ`) so that clients read them as UTC.
//! Any other text is passed on unchanged.
use vstd::prelude::*;
use crate::numbers::is_digit;
use crate::text::{chars_of, string_from};

verus! {

/// The character a store timestamp has at position `i`: a digit, or the
/// separator `-`, ` ` or `:`.
pub open spec fn stamp_char_ok(c: char, i: int) -> bool {
    if i == 4 || i == 7 {
        c == '-'
    } else if i == 10 {
        c == ' '
    } else if i == 13 || i == 16 {
        c == ':'
    } else {
        is_digit(c)
    }
}

/// `s` has the shape `YYYY-MM-DD HH:MM:SS`.
pub open spec fn store_timestamp(s: Seq<char>) -> bool {
    s.len() == 19 && forall|i: int| 0 <= i < 19 ==> stamp_char_ok(#[trigger] s[i], i)
}

/// A timestamp as responses carry it.
pub open spec fn utc_timestamp(s: Seq<char>) -> Seq<char> {
    if store_timestamp(s) {
        s.update(10, 'T').push('Z')
    } else {
        s
    }
}

pub open spec fn utc_timestamp_opt(s: Option<String>) -> Option<Seq<char>> {
    match s {
        Some(v) => Some(utc_timestamp(v@)),
        None => None,
    }
}

pub open spec fn opt_text(s: Option<String>) -> Option<Seq<char>> {
    match s {
        Some(v) => Some(v@),
        None => None,
    }
}

/// A stored timestamp as RFC 3339 UTC.
pub fn normalize_utc_timestamp(value: String) -> (r: String)
    ensures
        r@ == utc_timestamp(value@),
{
    let cs = chars_of(value.as_str());
    if cs.len() != 19 {
        return value;
    }
    let mut i: usize = 0;
    while i < 19
        invariant
            cs@ == value@,
            cs@.len() == 19,
            i <= 19,
            forall|j: int| 0 <= j < i ==> stamp_char_ok(#[trigger] cs@[j], j),
        decreases 19 - i,
    {
        let c = cs[i];
        let ok = if i == 4 || i == 7 {
            c == '-'
        } else if i == 10 {
            c == ' '
        } else if i == 13 || i == 16 {
            c == ':'
        } else {
            '0' <= c && c <= '9'
        };
        if !ok {
            assert(!stamp_char_ok(cs@[i as int], i as int));
            return value;
        }
        i = i + 1;
    }
    let mut out = cs;
    out.set(10, 'T');
    out.push('Z');
    string_from(out.as_slice())
}

/// An optional stored timestamp as RFC 3339 UTC.
pub fn normalize_optional_utc_timestamp(value: Option<String>) -> (r: Option<String>)
    ensures
        opt_text(r) == utc_timestamp_opt(value),
{
    match value {
        Some(v) => Some(normalize_utc_timestamp(v)),
        None => None,
    }
}

/// A stored `YYYY-MM-DD HH:MM:SS` becomes `YYYY-MM-DDTHH:MM:SSZ`: the same
/// date and time, the space turned into `T` and `Z` added; any other text is
/// left alone; and normalizing twice is normalizing once.
pub proof fn law_utc_timestamps(s: Seq<char>)
    ensures
        store_timestamp(s) ==> utc_timestamp(s) == s.take(10) + seq!['T'] + s.subrange(11, 19) + seq![
            'Z',
        ],
        !store_timestamp(s) ==> utc_timestamp(s) == s,
        utc_timestamp(utc_timestamp(s)) == utc_timestamp(s),
{
    if store_timestamp(s) {
        assert(utc_timestamp(s) =~= s.take(10) + seq!['T'] + s.subrange(11, 19) + seq!['Z']);
        assert(utc_timestamp(s).len() == 20);
        assert(!store_timestamp(utc_timestamp(s)));
    }
}

} // verus!
