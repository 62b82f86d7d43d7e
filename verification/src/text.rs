//! Text utilities: decoding bytes back into strings, and the ASCII
//! uppercase transform that the testing collaborator answers with.

use vstd::prelude::*;
use vstd::string::*;
use vstd::utf8::{
    decode_utf8, encode_utf8, encode_utf8_decode_utf8, encode_utf8_valid_utf8, is_ascii_chars,
    is_ascii_chars_encode_utf8, valid_utf8,
};

verus! {

/// Relies on String::from_utf8: returns the string whose UTF-8 encoding
/// is the given bytes, or an error when the bytes are not valid UTF-8.
#[verifier::external_body]
pub fn bytes_to_string(bytes: Vec<u8>) -> (r: Option<String>)
    ensures
        r is Some <==> valid_utf8(bytes@),
        r matches Some(s) ==> s@ == decode_utf8(bytes@),
{
    match String::from_utf8(bytes) {
        Ok(s) => Some(s),
        Err(_) => None,
    }
}

/// Bytes below 128 are valid UTF-8 and decode to one character each.
pub proof fn lemma_ascii_bytes_decode(bytes: Seq<u8>)
    requires
        forall|i: int| 0 <= i < bytes.len() ==> bytes[i] < 128,
    ensures
        valid_utf8(bytes),
        decode_utf8(bytes) == bytes.map_values(|b: u8| b as char),
{
    let chars = bytes.map_values(|b: u8| b as char);
    assert forall|i: int| 0 <= i < chars.len() implies '\0' <= #[trigger] chars[i]
        <= '\u{7f}' by {
        assert(chars[i] == bytes[i] as char);
        assert(bytes[i] < 128);
    }
    assert(is_ascii_chars(chars));
    is_ascii_chars_encode_utf8(chars);
    assert(encode_utf8(chars) =~= bytes);
    encode_utf8_valid_utf8(chars);
    encode_utf8_decode_utf8(chars);
}

/// The uppercase form of one character: ASCII lower-case letters are
/// shifted into the upper-case range, everything else is unchanged.
pub open spec fn upper_char(c: char) -> char {
    if 'a' <= c && c <= 'z' {
        (((c as u8) - 32) as u8) as char
    } else {
        c
    }
}

pub open spec fn upper_chars(s: Seq<char>) -> Seq<char> {
    s.map_values(|c: char| upper_char(c))
}

/// The uppercase transform on ASCII text.
pub fn to_uppercase_ascii(text: &str) -> (r: String)
    requires
        is_ascii(text),
    ensures
        r@ == upper_chars(text@),
{
    broadcast use is_ascii_spec_bytes;

    let bytes = text.as_bytes_vec();
    let mut out: Vec<u8> = Vec::new();
    let mut i: usize = 0;
    while i < bytes.len()
        invariant
            is_ascii(text),
            bytes@ == text.spec_bytes(),
            bytes@.len() == text@.len(),
            forall|j: int| 0 <= j < text@.len() ==> bytes@[j] == #[trigger] text@[j] as u8,
            i <= bytes.len(),
            out@.len() == i,
            forall|j: int| 0 <= j < i ==> out@[j] < 128,
            forall|j: int| 0 <= j < i ==> #[trigger] (out@[j] as char) == upper_char(text@[j]),
        decreases bytes.len() - i,
    {
        let b = bytes[i];
        proof {
            assert(text@[i as int] as u8 == b);
            assert('\0' <= text@[i as int] <= '\u{7f}');
        }
        if 97 <= b && b <= 122 {
            out.push(b - 32);
        } else {
            out.push(b);
        }
        i += 1;
    }
    proof {
        lemma_ascii_bytes_decode(out@);
        assert(decode_utf8(out@) =~= upper_chars(text@));
    }
    match bytes_to_string(out) {
        Some(s) => s,
        None => {
            proof {
                assert(false);
            }
            String::new()
        },
    }
}

} // verus!
