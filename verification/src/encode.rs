//! Serialization of the produced path list for the response body.
//!
//! The encoding itself is done by an outside crate; its result is pinned down
//! exactly for strings of plain characters, which covers every path this
//! library produces: a JSON array of quoted strings, emitted verbatim.

use vstd::prelude::*;

use crate::coordinator::paths_view;

verus! {

/// A character the JSON encoder emits verbatim inside a quoted string:
/// neither a quote nor a backslash nor a control character.
pub open spec fn json_plain_char(c: char) -> bool {
    c != '"' && c != '\\' && (c as int) >= 0x20 && (c as int) != 0x7f
}

pub open spec fn json_plain(s: Seq<char>) -> bool {
    forall|i: int| 0 <= i < s.len() ==> json_plain_char(#[trigger] s[i])
}

pub open spec fn json_plain_all(elems: Seq<Seq<char>>) -> bool {
    forall|i: int| 0 <= i < elems.len() ==> json_plain(#[trigger] elems[i])
}

/// A plain string between quotes.
pub open spec fn json_string(s: Seq<char>) -> Seq<char> {
    seq!['"'] + s + seq!['"']
}

/// The comma-separated quoted elements.
pub open spec fn json_array_body(elems: Seq<Seq<char>>) -> Seq<char>
    decreases elems.len(),
{
    if elems.len() == 0 {
        Seq::empty()
    } else if elems.len() == 1 {
        json_string(elems[0])
    } else {
        json_array_body(elems.drop_last()) + seq![','] + json_string(elems.last())
    }
}

/// The JSON array of the given strings, in the encoder's compact format.
pub open spec fn json_array(elems: Seq<Seq<char>>) -> Seq<char> {
    seq!['['] + json_array_body(elems) + seq![']']
}

/// Relies on rustc_serialize::json::encode: a vector of strings encodes as a
/// compact JSON array of its elements in order, each between quotes, with a
/// comma between elements; characters other than the quote, the backslash and
/// control characters are emitted verbatim. Encoding writes into a `String`,
/// which cannot fail, and a sequence never hits the encoder's only other
/// error (a map key emitted twice), so the call returns `Ok`.
#[verifier::external_body]
fn encode_string_vec(v: &Vec<String>) -> (r: Option<String>)
    ensures
        r is Some,
        r matches Some(enc) ==> (json_plain_all(paths_view(v@)) ==> enc@ == json_array(
            paths_view(v@),
        )),
{
    match rustc_serialize::json::encode(v) {
        Ok(s) => Some(s),
        Err(_) => None,
    }
}

/// Encodes the ordered list of produced output paths for the response body.
/// For paths of plain characters — every path this library allocates — the
/// result is exactly the JSON array of the paths, in order.
pub fn encode_output_list(v: &Vec<String>) -> (r: Option<String>)
    ensures
        r is Some,
        r matches Some(enc) ==> (json_plain_all(paths_view(v@)) ==> enc@ == json_array(
            paths_view(v@),
        )),
{
    encode_string_vec(v)
}

} // verus!
