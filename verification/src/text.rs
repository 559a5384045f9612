//! Small operations on text that the feeds share.

use vstd::prelude::*;
use vstd::string::{StringExecFns, StringSliceAdditionalSpecFns};
use vstd::utf8::{
    decode_utf8, encode_utf8, encode_utf8_decode_utf8, is_char_boundary, valid_utf8,
};

verus! {

/// What is shown of a text when `length` bytes of it are asked for. Where
/// the text has that many bytes and they end between two characters, it is
/// those bytes followed by three dots; else it is the text as it stands.
pub open spec fn spec_shorten(text: Seq<char>, length: nat) -> Seq<char> {
    let bytes = encode_utf8(text);
    if length <= bytes.len() && is_char_boundary(bytes, length as int) {
        decode_utf8(bytes.subrange(0, length as int)) + "..."@
    } else {
        text
    }
}

/// Whether two byte strings hold the same bytes.
pub fn same_bytes(first: &[u8], second: &[u8]) -> (same: bool)
    ensures
        same == (first@ == second@),
{
    if first.len() != second.len() {
        return false;
    }
    let mut index: usize = 0;
    while index < first.len()
        invariant
            first@.len() == second@.len(),
            index <= first@.len(),
            forall|i: int| 0 <= i < index ==> first@[i] == second@[i],
        decreases first.len() - index,
    {
        if first[index] != second[index] {
            return false;
        }
        index += 1;
    }
    assert(first@ =~= second@);
    true
}

/// Whether two texts hold the same characters.
pub fn same_text(first: &str, second: &str) -> (same: bool)
    ensures
        same == (first@ == second@),
{
    proof {
        encode_utf8_decode_utf8(first@);
        encode_utf8_decode_utf8(second@);
    }
    same_bytes(first.as_bytes(), second.as_bytes())
}

/// Cuts a text down to its first `length` bytes and marks the cut with three
/// dots. A text that is shorter, or that would be cut inside a character, is
/// given back whole.
pub fn shorten(text: &str, length: u32) -> (shown: String)
    ensures
        shown@ == spec_shorten(text@, length as nat),
{
    let wanted: usize = length as usize;
    let bytes = text.as_bytes();
    if wanted <= bytes.len() && text.is_char_boundary(wanted) {
        let (head, _) = text.split_at(wanted);
        proof {
            encode_utf8_decode_utf8(head@);
            assert(head@ == decode_utf8(encode_utf8(text@).subrange(0, wanted as int)));
        }
        head.to_owned().concat("...")
    } else {
        text.to_owned()
    }
}

/// Calls `String::from_utf8`. Trusted: the call succeeds exactly on valid
/// UTF-8 and then gives the text that the bytes encode.
#[verifier::external_body]
pub(crate) fn text_from_bytes(bytes: Vec<u8>) -> (text: Option<String>)
    ensures
        match text {
            Some(text) => valid_utf8(bytes@) && text@ == decode_utf8(bytes@),
            None => !valid_utf8(bytes@),
        },
{
    String::from_utf8(bytes).ok()
}

} // verus!
