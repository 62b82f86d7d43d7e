//! The byte framing of the initialization acknowledgement payload: two
//! length-prefixed UTF-8 fields, the correlation id and this unit's own
//! address. The decoder inverts the encoder exactly.

use vstd::prelude::*;
use vstd::arithmetic::div_mod::lemma_fundamental_div_mod;
use vstd::string::*;
use vstd::utf8::{
    decode_utf8, encode_utf8, encode_utf8_decode_utf8, encode_utf8_valid_utf8, valid_utf8,
};
use crate::msg::CallbackMsg;
use crate::text::bytes_to_string;
use crate::types::{Binary, HumanAddr};

verus! {

/// 256 to the power k.
pub open spec fn pow256(k: nat) -> int
    decreases k,
{
    if k == 0 {
        1
    } else {
        256 * pow256((k - 1) as nat)
    }
}

/// The k little-endian base-256 digits of n.
pub open spec fn le_bytes(n: int, k: nat) -> Seq<u8>
    decreases k,
{
    if k == 0 {
        Seq::empty()
    } else {
        seq![(n % 256) as u8] + le_bytes(n / 256, (k - 1) as nat)
    }
}

/// The number named by little-endian base-256 digits.
pub open spec fn le_val(b: Seq<u8>) -> int
    decreases b.len(),
{
    if b.len() == 0 {
        0
    } else {
        b[0] + 256 * le_val(b.drop_first())
    }
}

/// Reading the digits of n back gives n.
pub proof fn lemma_le_round(n: int, k: nat)
    requires
        0 <= n < pow256(k),
    ensures
        le_bytes(n, k).len() == k,
        le_val(le_bytes(n, k)) == n,
    decreases k,
{
    if k == 0 {
    } else {
        lemma_fundamental_div_mod(n, 256);
        assert(n / 256 < pow256((k - 1) as nat));
        lemma_le_round(n / 256, (k - 1) as nat);
        assert(le_bytes(n, k).drop_first() =~= le_bytes(n / 256, (k - 1) as nat));
        assert(le_bytes(n, k)[0] == (n % 256) as u8);
    }
}

/// Every u64 value has eight digits.
pub proof fn lemma_pow256_8()
    ensures
        pow256(8) == 0x1_0000_0000_0000_0000,
{
    assert(pow256(0) == 1);
    assert(pow256(1) == 256);
    assert(pow256(2) == 0x1_0000);
    assert(pow256(3) == 0x100_0000);
    assert(pow256(4) == 0x1_0000_0000);
    assert(pow256(5) == 0x100_0000_0000);
    assert(pow256(6) == 0x1_0000_0000_0000);
    assert(pow256(7) == 0x100_0000_0000_0000);
    assert(pow256(8) == 0x1_0000_0000_0000_0000);
}

/// The framed form of the acknowledgement payload.
pub open spec fn encoded_callback(id: Seq<char>, addr: Seq<char>) -> Seq<u8> {
    le_bytes(encode_utf8(id).len() as int, 8) + encode_utf8(id) + le_bytes(
        encode_utf8(addr).len() as int,
        8,
    ) + encode_utf8(addr)
}

/// The exact parse of a framed payload: the two fields when the frame
/// is well-formed, nothing otherwise.
pub open spec fn spec_decode_callback(b: Seq<u8>) -> Option<(Seq<char>, Seq<char>)> {
    if b.len() < 8 {
        None
    } else {
        let n1 = le_val(b.subrange(0, 8));
        if b.len() < 16 + n1 {
            None
        } else {
            let id_bytes = b.subrange(8, 8 + n1);
            let n2 = le_val(b.subrange(8 + n1, 16 + n1));
            if b.len() != 16 + n1 + n2 {
                None
            } else {
                let addr_bytes = b.subrange(16 + n1, 16 + n1 + n2);
                if valid_utf8(id_bytes) && valid_utf8(addr_bytes) {
                    Some((decode_utf8(id_bytes), decode_utf8(addr_bytes)))
                } else {
                    None
                }
            }
        }
    }
}

/// Appends the eight little-endian digits of n.
fn push_le8(out: &mut Vec<u8>, n: u64)
    ensures
        final(out)@ == old(out)@ + le_bytes(n as int, 8),
{
    let b0 = (n % 256) as u8;
    let n1 = n / 256;
    let b1 = (n1 % 256) as u8;
    let n2 = n1 / 256;
    let b2 = (n2 % 256) as u8;
    let n3 = n2 / 256;
    let b3 = (n3 % 256) as u8;
    let n4 = n3 / 256;
    let b4 = (n4 % 256) as u8;
    let n5 = n4 / 256;
    let b5 = (n5 % 256) as u8;
    let n6 = n5 / 256;
    let b6 = (n6 % 256) as u8;
    let n7 = n6 / 256;
    let b7 = (n7 % 256) as u8;
    proof {
        assert(n7 / 256 == 0);
        reveal_with_fuel(le_bytes, 10);
        assert(le_bytes(n as int, 8) =~= seq![b0, b1, b2, b3, b4, b5, b6, b7]);
    }
    out.push(b0);
    out.push(b1);
    out.push(b2);
    out.push(b3);
    out.push(b4);
    out.push(b5);
    out.push(b6);
    out.push(b7);
    proof {
        assert(final(out)@ =~= old(out)@ + le_bytes(n as int, 8));
    }
}

/// Reads eight little-endian digits.
fn read_le8(b: &Vec<u8>, start: usize) -> (n: u64)
    requires
        start + 8 <= b@.len(),
    ensures
        n as int == le_val(b@.subrange(start as int, start as int + 8)),
{
    let len = b.len();
    proof {
        assert(start + 8 <= len);
    }
    let x7 = b[start + 7] as u64;
    let x6 = x7 * 256 + b[start + 6] as u64;
    let x5 = x6 * 256 + b[start + 5] as u64;
    let x4 = x5 * 256 + b[start + 4] as u64;
    let x3 = x4 * 256 + b[start + 3] as u64;
    let x2 = x3 * 256 + b[start + 2] as u64;
    let x1 = x2 * 256 + b[start + 1] as u64;
    let x0 = x1 * 256 + b[start] as u64;
    proof {
        let s = start as int;
        let w = b@.subrange(s, s + 8);
        reveal_with_fuel(le_val, 10);
        assert(w.drop_first() =~= b@.subrange(s + 1, s + 8));
        assert(b@.subrange(s + 1, s + 8).drop_first() =~= b@.subrange(s + 2, s + 8));
        assert(b@.subrange(s + 2, s + 8).drop_first() =~= b@.subrange(s + 3, s + 8));
        assert(b@.subrange(s + 3, s + 8).drop_first() =~= b@.subrange(s + 4, s + 8));
        assert(b@.subrange(s + 4, s + 8).drop_first() =~= b@.subrange(s + 5, s + 8));
        assert(b@.subrange(s + 5, s + 8).drop_first() =~= b@.subrange(s + 6, s + 8));
        assert(b@.subrange(s + 6, s + 8).drop_first() =~= b@.subrange(s + 7, s + 8));
        assert(b@.subrange(s + 7, s + 8).drop_first() =~= Seq::<u8>::empty());
        assert(le_val(w) == x0 as int);
    }
    x0
}

/// Appends a whole byte vector.
fn append_bytes(out: &mut Vec<u8>, bytes: &Vec<u8>)
    ensures
        final(out)@ == old(out)@ + bytes@,
{
    let mut i: usize = 0;
    while i < bytes.len()
        invariant
            i <= bytes@.len(),
            out@ =~= old(out)@ + bytes@.subrange(0, i as int),
        decreases bytes@.len() - i,
    {
        out.push(bytes[i]);
        i += 1;
    }
    proof {
        assert(out@ =~= old(out)@ + bytes@);
    }
}

/// Copies a range of a byte vector.
fn vec_subrange(v: &Vec<u8>, start: usize, end: usize) -> (r: Vec<u8>)
    requires
        start <= end <= v@.len(),
    ensures
        r@ == v@.subrange(start as int, end as int),
{
    let mut r: Vec<u8> = Vec::new();
    let mut i: usize = start;
    while i < end
        invariant
            start <= i <= end <= v@.len(),
            r@ =~= v@.subrange(start as int, i as int),
        decreases end - i,
    {
        r.push(v[i]);
        i += 1;
    }
    proof {
        assert(r@ =~= v@.subrange(start as int, end as int));
    }
    r
}

/// Frames the acknowledgement payload as bytes.
pub fn encode_callback(msg: &CallbackMsg) -> (r: Binary)
    ensures
        msg matches CallbackMsg::InitCallback { id, contract_addr } ==> r@ == encoded_callback(
            id@,
            contract_addr@,
        ),
{
    match msg {
        CallbackMsg::InitCallback { id, contract_addr } => {
            let id_bytes = id.as_str().as_bytes_vec();
            let addr_bytes = contract_addr.0.as_str().as_bytes_vec();
            let mut out: Vec<u8> = Vec::new();
            push_le8(&mut out, id_bytes.len() as u64);
            append_bytes(&mut out, &id_bytes);
            push_le8(&mut out, addr_bytes.len() as u64);
            append_bytes(&mut out, &addr_bytes);
            proof {
                assert(out@ =~= encoded_callback(id@, contract_addr@));
            }
            Binary(out)
        },
    }
}

/// Parses a framed acknowledgement payload; rejects any malformed
/// frame.
pub fn decode_callback(b: &Binary) -> (r: Option<CallbackMsg>)
    ensures
        match spec_decode_callback(b@) {
            Some(fields) => r matches Some(m) && m matches CallbackMsg::InitCallback {
                id,
                contract_addr,
            } && id@ == fields.0 && contract_addr@ == fields.1,
            None => r is None,
        },
{
    let total: u64 = b.0.len() as u64;
    if total < 8 {
        return None;
    }
    let n1 = read_le8(&b.0, 0);
    proof {
        assert(b@.subrange(0, 8) == b.0@.subrange(0, 8));
    }
    if n1 > total - 8 || total - 8 - n1 < 8 {
        return None;
    }
    let n2 = read_le8(&b.0, (8 + n1) as usize);
    if n2 != total - 16 - n1 {
        return None;
    }
    let id_bytes = vec_subrange(&b.0, 8, (8 + n1) as usize);
    let addr_bytes = vec_subrange(&b.0, (16 + n1) as usize, (16 + n1 + n2) as usize);
    match (bytes_to_string(id_bytes), bytes_to_string(addr_bytes)) {
        (Some(id), Some(addr)) => Some(
            CallbackMsg::InitCallback { id, contract_addr: HumanAddr(addr) },
        ),
        _ => None,
    }
}

/// Law: decoding an encoded acknowledgement payload yields the payload
/// again, whenever its fields fit the eight-digit length prefix.
pub proof fn lemma_callback_round_trip(id: Seq<char>, addr: Seq<char>)
    requires
        encode_utf8(id).len() < 0x1_0000_0000_0000_0000,
        encode_utf8(addr).len() < 0x1_0000_0000_0000_0000,
    ensures
        spec_decode_callback(encoded_callback(id, addr)) == Some((id, addr)),
{
    let ei = encode_utf8(id);
    let ea = encode_utf8(addr);
    let n1 = ei.len() as int;
    let n2 = ea.len() as int;
    let whole = encoded_callback(id, addr);
    lemma_pow256_8();
    lemma_le_round(n1, 8);
    lemma_le_round(n2, 8);
    assert(whole.len() == 16 + n1 + n2);
    assert(whole.subrange(0, 8) =~= le_bytes(n1, 8));
    assert(whole.subrange(8, 8 + n1) =~= ei);
    assert(whole.subrange(8 + n1, 16 + n1) =~= le_bytes(n2, 8));
    assert(whole.subrange(16 + n1, 16 + n1 + n2) =~= ea);
    encode_utf8_valid_utf8(id);
    encode_utf8_valid_utf8(addr);
    encode_utf8_decode_utf8(id);
    encode_utf8_decode_utf8(addr);
}

} // verus!
