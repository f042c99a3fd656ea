//! The nonce value type and its checked and trusted constructors.

use vstd::prelude::*;

use crate::error::Unspecified;

verus! {

/// All the AEADs supported use 96-bit nonces.
pub const NONCE_LEN: usize = 96 / 8;

/// A nonce for a single AEAD opening or sealing operation.
///
/// The user must ensure, for a particular key, that each nonce is unique.
///
/// `Nonce` intentionally implements neither `Clone` nor `Copy`, so that each
/// one is consumed at most once.
pub struct Nonce(pub(crate) [u8; NONCE_LEN]);

impl View for Nonce {
    type V = Seq<u8>;

    /// The twelve bytes of the nonce.
    closed spec fn view(&self) -> Seq<u8> {
        self.0@
    }
}

/// What a checked constructor yields on `bytes`: the same bytes when there
/// are exactly `NONCE_LEN` of them, and nothing otherwise.
pub open spec fn checked_nonce_bytes(bytes: Seq<u8>) -> Option<Seq<u8>> {
    if bytes.len() == NONCE_LEN {
        Some(bytes)
    } else {
        None
    }
}

/// Whether `r` is the outcome that a checked constructor owes for `bytes`.
pub open spec fn is_checked_outcome(bytes: Seq<u8>, r: Result<Nonce, Unspecified>) -> bool {
    match checked_nonce_bytes(bytes) {
        Some(b) => r matches Ok(n) && n@ == b,
        None => r == Err::<Nonce, Unspecified>(Unspecified),
    }
}

/// The nonce whose bytes are `bytes`, when `bytes` has length `NONCE_LEN`.
pub closed spec fn nonce_of(bytes: Seq<u8>) -> Nonce {
    choose|n: Nonce| n@ == bytes
}

/// A nonce is determined by its bytes, so `nonce_of` picks out exactly the
/// nonce that has them.
pub proof fn lemma_nonce_of_bytes(n: Nonce)
    ensures
        nonce_of(n@) == n,
{
    let c = nonce_of(n@);
    assert(c@ == n@);
    assert(c.0 =~= n.0);
}

/// Copies `value` into a fresh array when it holds exactly `NONCE_LEN` bytes.
fn copy_exact(value: &[u8]) -> (r: Option<[u8; NONCE_LEN]>)
    ensures
        value@.len() == NONCE_LEN <==> r is Some,
        r matches Some(a) ==> a@ == value@,
{
    if value.len() != NONCE_LEN {
        return None;
    }
    let mut a: [u8; NONCE_LEN] = [0u8; NONCE_LEN];
    let mut i: usize = 0;
    while i < NONCE_LEN
        invariant
            value@.len() == NONCE_LEN,
            i <= NONCE_LEN,
            forall|j: int| 0 <= j < i ==> a@[j] == value@[j],
        decreases NONCE_LEN - i,
    {
        a[i] = value[i];
        i = i + 1;
    }
    assert(a@ =~= value@);
    Some(a)
}

impl Nonce {
    /// Constructs a `Nonce` with the given value, assuming that the value is
    /// unique for the lifetime of the key it is being used with.
    ///
    /// Fails if `value` isn't `NONCE_LEN` bytes long.
    pub fn try_assume_unique_for_key(value: &[u8]) -> (r: Result<Self, Unspecified>)
        ensures
            is_checked_outcome(value@, r),
    {
        match copy_exact(value) {
            Some(a) => Ok(Self::assume_unique_for_key(a)),
            None => Err(Unspecified),
        }
    }

    /// Constructs a `Nonce` with the given value, assuming that the value is
    /// unique for the lifetime of the key it is being used with.
    pub fn assume_unique_for_key(value: [u8; NONCE_LEN]) -> (r: Self)
        ensures
            r@ == value@,
    {
        Self(value)
    }

    /// A read-only view of the nonce's bytes, for handing to the AEAD
    /// primitive.
    pub fn as_bytes(&self) -> (r: &[u8; NONCE_LEN])
        ensures
            r@ == self@,
    {
        &self.0
    }
}

/// Every checked constructor fails with `Unspecified` on a slice whose length
/// is not `NONCE_LEN`, and on one of length `NONCE_LEN` succeeds with a nonce
/// whose exposed bytes are exactly the input.
pub proof fn lemma_checked_constructors(
    value: &[u8],
    r1: Result<Nonce, Unspecified>,
    r2: Result<Nonce, Unspecified>,
)
    requires
        call_ensures(Nonce::try_assume_unique_for_key, (value,), r1),
        call_ensures(<Nonce as TryFrom<&[u8]>>::try_from, (value,), r2),
    ensures
        value@.len() != NONCE_LEN ==> r1 == Err::<Nonce, Unspecified>(Unspecified) && r2 == Err::<
            Nonce,
            Unspecified,
        >(Unspecified),
        value@.len() == NONCE_LEN ==> (r1 matches Ok(n1) && n1@ == value@) && (r2 matches Ok(n2)
            && n2@ == value@),
        forall|n: Nonce, b: &[u8; NONCE_LEN]|
            (r1 == Ok::<Nonce, Unspecified>(n) || r2 == Ok::<Nonce, Unspecified>(n)) && call_ensures(
                Nonce::as_bytes,
                (&n,),
                b,
            ) ==> b@ == value@,
{
}

/// Building a nonce from an array and then exposing its bytes gives back the
/// array exactly.
pub proof fn lemma_array_round_trip(value: [u8; NONCE_LEN], n: Nonce, b: &[u8; NONCE_LEN])
    requires
        call_ensures(Nonce::assume_unique_for_key, (value,), n),
        call_ensures(Nonce::as_bytes, (&n,), b),
    ensures
        b@ == value@,
{
}

impl AsRef<[u8; NONCE_LEN]> for Nonce {
    /// The nonce's own bytes, read-only.
    fn as_ref(&self) -> (r: &[u8; NONCE_LEN])
        ensures
            r@ == self@,
    {
        self.as_bytes()
    }
}

impl From<&[u8; NONCE_LEN]> for Nonce {
    /// Copies the referenced bytes into a new nonce.
    fn from(bytes: &[u8; NONCE_LEN]) -> (r: Self)
        ensures
            r@ == bytes@,
    {
        let r = Nonce(*bytes);
        proof {
            lemma_nonce_of_bytes(r);
        }
        r
    }
}

/// A nonce copied from a referenced array holds the array's bytes as they
/// were at the copy: writing a different byte into the source afterwards
/// leaves the nonce's bytes apart from the source's.
pub proof fn lemma_reference_copy(source: [u8; NONCE_LEN], n: Nonce, i: int, x: u8)
    requires
        call_ensures(<Nonce as From<&[u8; NONCE_LEN]>>::from, (&source,), n),
        0 <= i < NONCE_LEN,
        x != source@[i],
    ensures
        n@ == source@,
        n@ != source@.update(i, x),
{
    assert(source@.update(i, x)[i] != n@[i]);
}

impl vstd::std_specs::convert::FromSpecImpl<&[u8; NONCE_LEN]> for Nonce {
    open spec fn obeys_from_spec() -> bool {
        true
    }

    open spec fn from_spec(bytes: &[u8; NONCE_LEN]) -> Nonce {
        nonce_of(bytes@)
    }
}

impl TryFrom<&[u8]> for Nonce {
    type Error = Unspecified;

    /// Copies `value` into a new nonce; fails if it isn't `NONCE_LEN` bytes
    /// long.
    fn try_from(value: &[u8]) -> (r: Result<Self, Unspecified>)
        ensures
            is_checked_outcome(value@, r),
    {
        match copy_exact(value) {
            Some(a) => {
                let n = Nonce(a);
                proof {
                    lemma_nonce_of_bytes(n);
                }
                Ok(n)
            },
            None => Err(Unspecified),
        }
    }
}

impl vstd::std_specs::convert::TryFromSpecImpl<&[u8]> for Nonce {
    open spec fn obeys_try_from_spec() -> bool {
        true
    }

    open spec fn try_from_spec(value: &[u8]) -> Result<Nonce, Unspecified> {
        match checked_nonce_bytes(value@) {
            Some(b) => Ok(nonce_of(b)),
            None => Err(Unspecified),
        }
    }
}

} // verus!
