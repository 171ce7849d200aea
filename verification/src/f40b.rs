use crate::error::Error;
use crate::field::FiniteField;
use crate::gf128::{lemma_clmul_one_one, lemma_clmul_zero, mul_wide, spec_clmul_wide};
use vstd::prelude::*;

verus! {

/// The 40 low bits.
pub const MASK40: u64 = 0xFFFFFFFFFF;

/// The low reduction terms of `x^40 + x^5 + x^4 + x^3 + 1`.
pub const FOLD40: u64 = 0x39;

/// An element of the finite field GF(2^40), reduced over
/// `x^40 + x^5 + x^4 + x^3 + 1`; its prime subfield is GF(2).
#[derive(Clone, Copy, PartialEq, Eq, Structural, Debug, Hash)]
pub struct F40b(pub u64);

/// Fold everything above bit 40 through the low reduction terms, twice,
/// which brings any carry-less product of two 40-bit values back into the
/// field; the final mask keeps the value 40 bits wide.
pub open spec fn spec_f40_reduce(p: u128) -> u64 {
    let f1 = (p & (MASK40 as u128)) ^ spec_clmul_wide(p >> 40, FOLD40 as u128).1;
    let f2 = (f1 & (MASK40 as u128)) ^ spec_clmul_wide(f1 >> 40, FOLD40 as u128).1;
    (f2 & (MASK40 as u128)) as u64
}

/// Multiplication in GF(2^40): the carry-less product reduced over the
/// field polynomial.
pub open spec fn spec_f40_mul(a: u64, b: u64) -> u64 {
    spec_f40_reduce(spec_clmul_wide(a as u128, b as u128).1)
}

fn f40_reduce(p: u128) -> (r: u64)
    ensures
        r == spec_f40_reduce(p),
        r <= MASK40,
{
    let (_h1, c1) = mul_wide(p >> 40, FOLD40 as u128);
    let f1 = (p & (MASK40 as u128)) ^ c1;
    let (_h2, c2) = mul_wide(f1 >> 40, FOLD40 as u128);
    let f2 = (f1 & (MASK40 as u128)) ^ c2;
    proof {
        let m = MASK40 as u128;
        assert(forall|x: u128| (x & m) <= m && (x & m) <= x + x) by (bit_vector);
    }
    (f2 & (MASK40 as u128)) as u64
}

proof fn lemma_f40_reduce_small()
    ensures
        spec_f40_reduce(0) == 0,
        spec_f40_reduce(1) == 1,
{
    lemma_clmul_zero(FOLD40 as u128, 0);
    assert((0u128 >> 40) == 0 && (1u128 >> 40) == 0) by (bit_vector);
    let m = MASK40 as u128;
    assert((0u128 & m) ^ 0u128 == 0u128) by (bit_vector)
        requires
            m == 0xFFFFFFFFFFu128,
    ;
    assert((1u128 & m) ^ 0u128 == 1u128) by (bit_vector)
        requires
            m == 0xFFFFFFFFFFu128,
    ;
    assert((0u128 & m) as u64 == 0u64 && (1u128 & m) as u64 == 1u64) by (bit_vector)
        requires
            m == 0xFFFFFFFFFFu128,
    ;
}

impl FiniteField for F40b {
    open spec fn inv(self) -> bool {
        self.0 <= MASK40
    }

    open spec fn in_prime(self) -> bool {
        self.0 == 0 || self.0 == 1
    }

    open spec fn szero() -> Self {
        F40b(0)
    }

    open spec fn sone() -> Self {
        F40b(1)
    }

    open spec fn sadd(self, o: Self) -> Self {
        F40b(self.0 ^ o.0)
    }

    open spec fn smul(self, o: Self) -> Self {
        F40b(spec_f40_mul(self.0, o.0))
    }

    open spec fn sneg(self) -> Self {
        self
    }

    open spec fn sbyte_len() -> usize {
        5
    }

    open spec fn sto_le(self) -> Seq<u8> {
        seq![
            (self.0 & 0xff) as u8,
            ((self.0 >> 8) & 0xff) as u8,
            ((self.0 >> 16) & 0xff) as u8,
            ((self.0 >> 24) & 0xff) as u8,
            ((self.0 >> 32) & 0xff) as u8,
        ]
    }

    open spec fn sdecodes(s: Seq<u8>) -> bool {
        true
    }

    open spec fn sfrom_le(s: Seq<u8>) -> Self {
        F40b(
            (s[0] as u64) | ((s[1] as u64) << 8) | ((s[2] as u64) << 16) | ((s[3] as u64) << 24) | (
            (s[4] as u64) << 32),
        )
    }

    open spec fn sfrom_u64s(a: u64, b: u64) -> Self {
        F40b(a & MASK40)
    }

    proof fn lemma_consts() {
    }

    proof fn lemma_ops_closed(a: Self, b: Self) {
        let m = MASK40;
        assert(forall|x: u64, y: u64| x <= m && y <= m ==> (x ^ y) <= m) by (bit_vector)
            requires
                m == 0xFFFFFFFFFFu64,
        ;
        let p = MASK40 as u128;
        assert(forall|x: u128| ((x & p) as u64) <= 0xFFFFFFFFFFu64) by (bit_vector)
            requires
                p == 0xFFFFFFFFFFu128,
        ;
        if a.in_prime() && b.in_prime() {
            assert(0u64 ^ 0u64 == 0u64 && 0u64 ^ 1u64 == 1u64 && 1u64 ^ 0u64 == 1u64 && 1u64
                ^ 1u64 == 0u64) by (bit_vector);
            lemma_f40_reduce_small();
            if a.0 == 0 {
                lemma_clmul_zero(b.0 as u128, 0);
            } else if b.0 == 0 {
                assert(forall|j: u128| 0 <= j < 128 ==> ((0u128 >> j) & 1) != 1) by (bit_vector);
                crate::gf128::lemma_clp_tail_zero(a.0 as u128, 0u128, 0);
            }
            if a.0 == 1 && b.0 == 1 {
                lemma_clmul_one_one();
            }
        }
    }

    proof fn lemma_bytes_roundtrip(a: Self) {
        let x = a.0;
        assert((x & 0xff) < 256 && ((x >> 8) & 0xff) < 256 && ((x >> 16) & 0xff) < 256 && ((x >> 24)
            & 0xff) < 256 && ((x >> 32) & 0xff) < 256) by (bit_vector);
        assert(x <= 0xFFFFFFFFFFu64 ==> x == (x & 0xff) | (((x >> 8) & 0xff) << 8) | (((x >> 16)
            & 0xff) << 16) | (((x >> 24) & 0xff) << 24) | (((x >> 32) & 0xff) << 32)) by (bit_vector);
    }

    fn zero() -> (r: Self) {
        F40b(0)
    }

    fn one() -> (r: Self) {
        F40b(1)
    }

    fn add(self, o: Self) -> (r: Self) {
        F40b(self.0 ^ o.0)
    }

    fn mul(self, o: Self) -> (r: Self) {
        let (_hi, lo) = mul_wide(self.0 as u128, o.0 as u128);
        F40b(f40_reduce(lo))
    }

    fn neg(self) -> (r: Self) {
        self
    }

    fn eq_el(self, o: Self) -> (r: bool) {
        self.0 == o.0
    }

    fn byte_len() -> (r: usize) {
        5
    }

    fn to_le(self) -> (r: Vec<u8>)
    {
        let mut out: Vec<u8> = Vec::new();
        out.push((self.0 & 0xff) as u8);
        out.push(((self.0 >> 8) & 0xff) as u8);
        out.push(((self.0 >> 16) & 0xff) as u8);
        out.push(((self.0 >> 24) & 0xff) as u8);
        out.push(((self.0 >> 32) & 0xff) as u8);
        proof {
            assert(out@ =~= self.sto_le());
        }
        out
    }

    fn from_le(s: &[u8]) -> (r: Result<Self, Error>) {
        let b0 = *vstd::slice::slice_index_get(s, 0);
        let b1 = *vstd::slice::slice_index_get(s, 1);
        let b2 = *vstd::slice::slice_index_get(s, 2);
        let b3 = *vstd::slice::slice_index_get(s, 3);
        let b4 = *vstd::slice::slice_index_get(s, 4);
        let x = (b0 as u64) | ((b1 as u64) << 8) | ((b2 as u64) << 16) | ((b3 as u64) << 24) | ((
        b4 as u64) << 32);
        proof {
            assert((b0 as u64) | ((b1 as u64) << 8) | ((b2 as u64) << 16) | ((b3 as u64) << 24) | (
            (b4 as u64) << 32) <= 0xFFFFFFFFFFu64) by (bit_vector)
                requires
                    b0 < 256 && b1 < 256 && b2 < 256 && b3 < 256 && b4 < 256,
            ;
        }
        Ok(F40b(x))
    }

    fn from_u64s(a: u64, b: u64) -> (r: Self) {
        proof {
            assert(forall|x: u64| (x & 0xFFFFFFFFFFu64) <= 0xFFFFFFFFFFu64) by (bit_vector);
        }
        F40b(a & MASK40)
    }
}

} // verus!
