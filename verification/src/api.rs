//! The address collaborator: converts between the display form and the
//! fixed-length canonical form of an identity. Valid display addresses
//! are 3 to `canonical_length` characters of non-zero ASCII; their
//! canonical form is the byte rendering, zero-padded to the fixed
//! length.

use vstd::prelude::*;
use vstd::string::*;
use vstd::utf8::{
    decode_utf8, encode_utf8, encode_utf8_decode_utf8, encode_utf8_valid_utf8, is_ascii_chars,
    is_ascii_chars_encode_utf8, valid_utf8,
};
use crate::errors::StdError;
use crate::text::bytes_to_string;
use crate::types::{CanonicalAddr, HumanAddr};

verus! {

/// Whether one character may appear in a display address: ASCII, and
/// distinct from the padding byte.
pub open spec fn addr_char_ok(c: char) -> bool {
    '\u{1}' <= c <= '\u{7f}'
}

/// Whether the codec accepts a display address.
pub open spec fn addr_valid(canon_len: nat, s: Seq<char>) -> bool {
    &&& 3 <= s.len()
    &&& s.len() <= canon_len
    &&& forall|i: int| 0 <= i < s.len() ==> addr_char_ok(#[trigger] s[i])
}

/// The canonical form of a valid display address: its byte rendering,
/// zero-padded to the canonical length.
pub open spec fn canon_of(canon_len: nat, s: Seq<char>) -> Seq<u8> {
    encode_utf8(s) + Seq::new((canon_len - s.len()) as nat, |i: int| 0u8)
}

/// The padding bytes removed again.
pub open spec fn strip_zeros(b: Seq<u8>) -> Seq<u8>
    decreases b.len(),
{
    if b.len() == 0 {
        Seq::empty()
    } else {
        strip_zeros(b.drop_last()) + (if b.last() == 0 {
            Seq::<u8>::empty()
        } else {
            seq![b.last()]
        })
    }
}

/// The diagnostic attached when a display address is rejected.
pub open spec fn canonical_err_msg(canon_len: nat, s: Seq<char>) -> Seq<char> {
    if s.len() < 3 {
        "Invalid input: human address too short"@
    } else if s.len() > canon_len {
        "Invalid input: human address too long"@
    } else {
        "Invalid input: human address contains invalid characters"@
    }
}

/// Exactly what canonicalization returns: the canonical form for a
/// valid address, a generic error naming the defect otherwise.
pub open spec fn canonical_post(
    canon_len: nat,
    human: HumanAddr,
    r: Result<CanonicalAddr, StdError>,
) -> bool {
    if addr_valid(canon_len, human@) {
        r matches Ok(c) && c@ == canon_of(canon_len, human@)
    } else {
        r matches Err(e) && e matches StdError::GenericErr { msg } && msg@ == canonical_err_msg(
            canon_len,
            human@,
        )
    }
}

/// Exactly what display conversion returns: the stored bytes with the
/// padding removed and decoded, or a generic error for corrupt state.
pub open spec fn human_post(
    canon_len: nat,
    canonical: CanonicalAddr,
    r: Result<HumanAddr, StdError>,
) -> bool {
    if canonical@.len() != canon_len {
        r matches Err(e) && e matches StdError::GenericErr { msg } && msg@
            == "Invalid input: canonical address length not correct"@
    } else if valid_utf8(strip_zeros(canonical@)) {
        r matches Ok(h) && h@ == decode_utf8(strip_zeros(canonical@))
    } else {
        r matches Err(e) && e matches StdError::GenericErr { msg } && msg@
            == "Invalid input: canonical address is not valid UTF-8"@
    }
}

/// The address collaborator with its fixed canonical length.
#[derive(Clone, Copy, Debug, PartialEq, Eq)]
pub struct Api {
    pub canonical_length: usize,
}

impl Api {
    /// Validates a display address and returns its canonical form.
    pub fn canonical_address(&self, human: &HumanAddr) -> (r: Result<CanonicalAddr, StdError>)
        ensures
            canonical_post(self.canonical_length as nat, *human, r),
    {
        let s = human.0.as_str();
        let n = s.unicode_len();
        if n < 3 {
            return Err(StdError::generic_err("Invalid input: human address too short"));
        }
        if n > self.canonical_length {
            return Err(StdError::generic_err("Invalid input: human address too long"));
        }
        let mut out: Vec<u8> = Vec::new();
        let mut i: usize = 0;
        while i < n
            invariant
                n == s@.len(),
                s@ == human@,
                3 <= n <= self.canonical_length,
                i <= n,
                out@.len() == i,
                forall|j: int| 0 <= j < i ==> addr_char_ok(#[trigger] s@[j]),
                forall|j: int| 0 <= j < i ==> out@[j] == #[trigger] s@[j] as u8,
            decreases n - i,
        {
            let c = s.get_char(i);
            let u = c as u32;
            if u < 1 || u > 127 {
                proof {
                    assert(!addr_char_ok(s@[i as int]));
                    assert(!addr_valid(self.canonical_length as nat, human@));
                }
                return Err(
                    StdError::generic_err("Invalid input: human address contains invalid characters"),
                );
            }
            proof {
                assert(addr_char_ok(c));
            }
            out.push(u as u8);
            i += 1;
        }
        proof {
            assert(is_ascii_chars(human@));
            is_ascii_chars_encode_utf8(human@);
            assert(out@ =~= encode_utf8(human@));
        }
        let ghost base = out@;
        while out.len() < self.canonical_length
            invariant
                base == encode_utf8(human@),
                base.len() <= out@.len() <= self.canonical_length,
                out@ =~= base + Seq::new((out@.len() - base.len()) as nat, |k: int| 0u8),
            decreases self.canonical_length - out.len(),
        {
            out.push(0);
        }
        proof {
            assert(out@ =~= canon_of(self.canonical_length as nat, human@));
        }
        Ok(CanonicalAddr(out))
    }

    /// Converts a stored canonical identity back to its display form.
    pub fn human_address(&self, canonical: &CanonicalAddr) -> (r: Result<HumanAddr, StdError>)
        ensures
            human_post(self.canonical_length as nat, *canonical, r),
    {
        if canonical.0.len() != self.canonical_length {
            return Err(StdError::generic_err("Invalid input: canonical address length not correct"));
        }
        let mut trimmed: Vec<u8> = Vec::new();
        let mut i: usize = 0;
        proof {
            assert(canonical@.subrange(0, 0) =~= Seq::<u8>::empty());
        }
        while i < canonical.0.len()
            invariant
                i <= canonical@.len(),
                trimmed@ == strip_zeros(canonical@.subrange(0, i as int)),
            decreases canonical@.len() - i,
        {
            proof {
                assert(canonical@.subrange(0, i as int + 1).drop_last() =~= canonical@.subrange(
                    0,
                    i as int,
                ));
                assert(canonical@.subrange(0, i as int + 1).last() == canonical@[i as int]);
            }
            let b = canonical.0[i];
            if b != 0 {
                trimmed.push(b);
                proof {
                    assert(trimmed@ =~= strip_zeros(canonical@.subrange(0, i as int + 1)));
                }
            } else {
                proof {
                    assert(trimmed@ =~= strip_zeros(canonical@.subrange(0, i as int + 1)));
                }
            }
            i += 1;
        }
        proof {
            assert(canonical@.subrange(0, canonical@.len() as int) =~= canonical@);
        }
        match bytes_to_string(trimmed) {
            Some(s) => Ok(HumanAddr(s)),
            None => Err(
                StdError::generic_err("Invalid input: canonical address is not valid UTF-8"),
            ),
        }
    }
}

/// No character of a valid address encodes to the padding byte.
proof fn lemma_valid_encoding_nonzero(canon_len: nat, s: Seq<char>)
    requires
        addr_valid(canon_len, s),
    ensures
        encode_utf8(s).len() == s.len(),
        forall|i: int| 0 <= i < s.len() ==> encode_utf8(s)[i] != 0,
{
    assert(is_ascii_chars(s));
    is_ascii_chars_encode_utf8(s);
    assert forall|i: int| 0 <= i < s.len() implies encode_utf8(s)[i] != 0 by {
        assert(addr_char_ok(s[i]));
        assert(encode_utf8(s)[i] == s[i] as u8);
    }
}

/// Stripping a sequence of padding bytes leaves nothing.
proof fn lemma_strip_zeros_all_zero(b: Seq<u8>)
    requires
        forall|i: int| 0 <= i < b.len() ==> b[i] == 0,
    ensures
        strip_zeros(b) == Seq::<u8>::empty(),
    decreases b.len(),
{
    if b.len() > 0 {
        lemma_strip_zeros_all_zero(b.drop_last());
        assert(strip_zeros(b) =~= Seq::<u8>::empty());
    }
}

/// Stripping distributes over concatenation.
proof fn lemma_strip_zeros_concat(a: Seq<u8>, b: Seq<u8>)
    ensures
        strip_zeros(a + b) == strip_zeros(a) + strip_zeros(b),
    decreases b.len(),
{
    if b.len() == 0 {
        assert(a + b =~= a);
        assert(strip_zeros(a) + strip_zeros(b) =~= strip_zeros(a));
    } else {
        lemma_strip_zeros_concat(a, b.drop_last());
        assert((a + b).drop_last() =~= a + b.drop_last());
        assert((a + b).last() == b.last());
        assert(strip_zeros(a + b) =~= strip_zeros(a) + strip_zeros(b));
    }
}

/// Stripping leaves a sequence without padding bytes unchanged.
proof fn lemma_strip_zeros_no_zero(b: Seq<u8>)
    requires
        forall|i: int| 0 <= i < b.len() ==> b[i] != 0,
    ensures
        strip_zeros(b) == b,
    decreases b.len(),
{
    if b.len() > 0 {
        lemma_strip_zeros_no_zero(b.drop_last());
        assert(strip_zeros(b) =~= b);
    }
}

/// Canonicalizing a valid display address and converting the result
/// back yields the original address: storing an owner and asking for
/// it again shows the identity that was stored.
pub proof fn lemma_canonical_round_trip(canon_len: nat, s: Seq<char>)
    requires
        addr_valid(canon_len, s),
    ensures
        canon_of(canon_len, s).len() == canon_len,
        valid_utf8(strip_zeros(canon_of(canon_len, s))),
        decode_utf8(strip_zeros(canon_of(canon_len, s))) == s,
{
    let enc = encode_utf8(s);
    let pad = Seq::new((canon_len - s.len()) as nat, |i: int| 0u8);
    lemma_valid_encoding_nonzero(canon_len, s);
    lemma_strip_zeros_concat(enc, pad);
    lemma_strip_zeros_all_zero(pad);
    lemma_strip_zeros_no_zero(enc);
    assert(strip_zeros(canon_of(canon_len, s)) =~= enc);
    encode_utf8_valid_utf8(s);
    encode_utf8_decode_utf8(s);
}

/// Distinct valid display addresses have distinct canonical forms, so
/// a new owner never collides with the old one.
pub proof fn lemma_canon_injective(canon_len: nat, a: Seq<char>, b: Seq<char>)
    requires
        addr_valid(canon_len, a),
        addr_valid(canon_len, b),
        a != b,
    ensures
        canon_of(canon_len, a) != canon_of(canon_len, b),
{
    if canon_of(canon_len, a) == canon_of(canon_len, b) {
        lemma_canonical_round_trip(canon_len, a);
        lemma_canonical_round_trip(canon_len, b);
    }
}

} // verus!
