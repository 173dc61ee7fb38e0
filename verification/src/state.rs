//! The persisted status flag: one character, `"0"` for maintenance,
//! `"1"` for live.
//!
//! The file itself is read and written by the surrounding binary; the
//! library decodes its contents and encodes the marker to store, and the
//! round trip between the two is proved.

use vstd::prelude::*;
use vstd::string::{StringExecFns, StrSliceExecFns};
use crate::text::{is_space, trimmed, trim_text};

verus! {

/// The marker written to the state file for a status.
pub open spec fn status_marker(maintenance: bool) -> Seq<char> {
    if maintenance {
        "0"@
    } else {
        "1"@
    }
}

/// Whether file contents record maintenance: the trimmed text is `"0"`.
/// Anything else, the empty file included, reads as live.
pub open spec fn contents_show_maintenance(contents: Seq<char>) -> bool {
    trimmed(contents) == "0"@
}

/// The status a store read yields: `None` stands for a file that could not
/// be read, which counts as live.
pub open spec fn stored_status(contents: Option<Seq<char>>) -> bool {
    match contents {
        Some(text) => contents_show_maintenance(text),
        None => false,
    }
}

/// Decodes readable file contents.
pub fn parse_status(contents: &str) -> (r: bool)
    ensures
        r == contents_show_maintenance(contents@),
{
    let t = trim_text(contents);
    let len: usize = t.unicode_len();
    let r = len == 1 && t.get_char(0) == '0';
    proof {
        reveal_strlit("0");
        if r {
            assert(t@ =~= "0"@);
        }
    }
    r
}

/// Decodes the outcome of a store read, a missing file included.
pub fn decode_stored(contents: &Option<String>) -> (r: bool)
    ensures
        r == stored_status(contents.deep_view()),
{
    match contents {
        Some(text) => parse_status(text.as_str()),
        None => false,
    }
}

/// Encodes the marker to store for a status.
pub fn encode_status(maintenance: bool) -> (r: String)
    ensures
        r@ == status_marker(maintenance),
{
    if maintenance {
        String::from_str("0")
    } else {
        String::from_str("1")
    }
}

/// Law: the store round-trips the flag. A freshly encoded marker decodes
/// to the status it encodes, and an unreadable file decodes to live.
pub proof fn lemma_status_round_trip(maintenance: bool)
    ensures
        stored_status(Some(status_marker(maintenance))) == maintenance,
        !stored_status(None),
{
    reveal_strlit("0");
    reveal_strlit("1");
    assert(!is_space('0'));
    assert(!is_space('1'));
    assert(trimmed("0"@) =~= "0"@);
    assert(trimmed("1"@) =~= "1"@);
    assert("1"@[0] != "0"@[0]);
}

} // verus!
