use crate::error::Error;
use vstd::prelude::*;

verus! {

/// A finite field as both role evaluators consume it.
///
/// Authenticated tags live in the full field; clear values live in the
/// embedded prime subfield, singled out by `in_prime`.  Each operation is
/// pinned to a specification-level counterpart, and `from_le` / `to_le`
/// fix a canonical little-endian byte encoding of `sbyte_len` bytes.
pub trait FiniteField: Sized + Copy {
    /// The representation is a canonical field element.
    spec fn inv(self) -> bool;

    /// The element lies in the embedded prime subfield.
    spec fn in_prime(self) -> bool;

    /// The additive identity.
    spec fn szero() -> Self;

    /// The multiplicative identity.
    spec fn sone() -> Self;

    /// Field addition.
    spec fn sadd(self, o: Self) -> Self;

    /// Field multiplication.
    spec fn smul(self, o: Self) -> Self;

    /// Additive inverse.
    spec fn sneg(self) -> Self;

    /// Canonical encoded length in bytes.
    spec fn sbyte_len() -> usize;

    /// The canonical little-endian encoding.
    spec fn sto_le(self) -> Seq<u8>;

    /// Whether a buffer of canonical length decodes to a field element.
    spec fn sdecodes(s: Seq<u8>) -> bool;

    /// The element a decoding buffer denotes.
    spec fn sfrom_le(s: Seq<u8>) -> Self;

    /// Deterministic derivation of an element from two machine words.
    spec fn sfrom_u64s(a: u64, b: u64) -> Self;

    proof fn lemma_consts()
        ensures
            Self::szero().inv(),
            Self::szero().in_prime(),
            Self::sone().inv(),
            Self::sone().in_prime(),
            Self::szero() != Self::sone(),
            1 <= Self::sbyte_len() <= 64;

    proof fn lemma_ops_closed(a: Self, b: Self)
        requires
            a.inv(),
            b.inv(),
        ensures
            a.sadd(b).inv(),
            a.smul(b).inv(),
            a.sneg().inv(),
            a.in_prime() && b.in_prime() ==> a.sadd(b).in_prime(),
            a.in_prime() && b.in_prime() ==> a.smul(b).in_prime(),
            a.in_prime() ==> a.sneg().in_prime();

    proof fn lemma_bytes_roundtrip(a: Self)
        requires
            a.inv(),
        ensures
            a.sto_le().len() == Self::sbyte_len(),
            Self::sdecodes(a.sto_le()),
            Self::sfrom_le(a.sto_le()) == a;

    fn zero() -> (r: Self)
        ensures
            r == Self::szero(),
    ;

    fn one() -> (r: Self)
        ensures
            r == Self::sone(),
    ;

    fn add(self, o: Self) -> (r: Self)
        requires
            self.inv(),
            o.inv(),
        ensures
            r == self.sadd(o),
    ;

    fn mul(self, o: Self) -> (r: Self)
        requires
            self.inv(),
            o.inv(),
        ensures
            r == self.smul(o),
    ;

    fn neg(self) -> (r: Self)
        requires
            self.inv(),
        ensures
            r == self.sneg(),
    ;

    fn eq_el(self, o: Self) -> (r: bool)
        requires
            self.inv(),
            o.inv(),
        ensures
            r == (self == o),
    ;

    fn byte_len() -> (r: usize)
        ensures
            r == Self::sbyte_len(),
    ;

    fn to_le(self) -> (r: Vec<u8>)
        requires
            self.inv(),
        ensures
            r@ == self.sto_le(),
    ;

    fn from_le(s: &[u8]) -> (r: Result<Self, Error>)
        requires
            s@.len() == Self::sbyte_len(),
        ensures
            Self::sdecodes(s@) ==> r == Ok::<Self, Error>(Self::sfrom_le(s@))
                && Self::sfrom_le(s@).inv(),
            !Self::sdecodes(s@) ==> r == Err::<Self, Error>(Error::EncodingError),
    ;

    fn from_u64s(a: u64, b: u64) -> (r: Self)
        ensures
            r == Self::sfrom_u64s(a, b),
            r.inv(),
    ;
}

} // verus!
