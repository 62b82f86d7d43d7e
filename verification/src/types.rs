//! Plain data carried through the contract: binary blobs, display and
//! canonical identities, and coins.

use vstd::prelude::*;

verus! {

/// An opaque binary payload.
#[derive(Clone, Debug, PartialEq, Eq)]
pub struct Binary(pub Vec<u8>);

impl View for Binary {
    type V = Seq<u8>;

    open spec fn view(&self) -> Seq<u8> {
        self.0@
    }
}

impl Binary {
    /// The empty payload.
    pub fn empty() -> (r: Binary)
        ensures
            r@ == Seq::<u8>::empty(),
    {
        Binary(Vec::new())
    }

    pub fn from_vec(bytes: Vec<u8>) -> (r: Binary)
        ensures
            r@ == bytes@,
    {
        Binary(bytes)
    }

    pub fn len(&self) -> (n: usize)
        ensures
            n == self@.len(),
    {
        self.0.len()
    }

    pub fn is_empty(&self) -> (r: bool)
        ensures
            r == (self@.len() == 0),
    {
        self.0.len() == 0
    }
}

/// The human-readable display form of an identity.
#[derive(Clone, Debug, PartialEq, Eq)]
pub struct HumanAddr(pub String);

impl View for HumanAddr {
    type V = Seq<char>;

    open spec fn view(&self) -> Seq<char> {
        self.0@
    }
}

impl HumanAddr {
    pub fn from(s: &str) -> (r: HumanAddr)
        ensures
            r@ == s@,
    {
        HumanAddr(s.to_owned())
    }

    pub fn as_str(&self) -> (r: &str)
        ensures
            r@ == self@,
    {
        self.0.as_str()
    }
}

/// The fixed-length binary form of an identity.
#[derive(Clone, Debug, PartialEq, Eq)]
pub struct CanonicalAddr(pub Vec<u8>);

impl View for CanonicalAddr {
    type V = Seq<u8>;

    open spec fn view(&self) -> Seq<u8> {
        self.0@
    }
}

/// A single denomination amount.
#[derive(Clone, Debug, PartialEq, Eq)]
pub struct Coin {
    pub denom: String,
    pub amount: u128,
}

/// Builds one coin.
pub fn coin(amount: u128, denom: &str) -> (c: Coin)
    ensures
        c.amount == amount,
        c.denom@ == denom@,
{
    Coin { denom: denom.to_owned(), amount }
}

/// Builds a one-coin vector, the common case for sent funds.
pub fn coins(amount: u128, denom: &str) -> (v: Vec<Coin>)
    ensures
        v@.len() == 1,
        v@[0].amount == amount,
        v@[0].denom@ == denom@,
{
    let mut v: Vec<Coin> = Vec::new();
    v.push(coin(amount, denom));
    v
}

/// Element-wise comparison of two byte vectors.
pub fn bytes_eq(a: &Vec<u8>, b: &Vec<u8>) -> (r: bool)
    ensures
        r == (a@ == b@),
{
    if a.len() != b.len() {
        proof {
            assert(a@.len() != b@.len());
        }
        return false;
    }
    let mut i: usize = 0;
    while i < a.len()
        invariant
            i <= a.len(),
            a@.len() == b@.len(),
            forall|j: int| 0 <= j < i ==> a@[j] == b@[j],
        decreases a.len() - i,
    {
        if a[i] != b[i] {
            return false;
        }
        i += 1;
    }
    proof {
        assert(a@ =~= b@);
    }
    true
}

} // verus!
