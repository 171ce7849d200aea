use crate::error::Error;
use crate::field::FiniteField;
use vstd::bytes::*;
use vstd::prelude::*;

verus! {

/// Upper half of the 256-bit term `a << i` (carry-less): the bits of `a`
/// that shift beyond the low 128 bits.
pub open spec fn clterm_hi(a: u128, i: nat) -> u128 {
    if i == 0 {
        0u128
    } else {
        a >> ((128 - i) as u128)
    }
}

/// Carry-less multiplication, defined bit by bit: the terms of `a * b`
/// (polynomial multiplication over GF(2)) for the bits of `b` at positions
/// `i` and above, as a 256-bit value split into upper and lower halves.
pub open spec fn clp128(a: u128, b: u128, i: nat) -> (u128, u128)
    decreases 128 - i,
{
    if i >= 128 {
        (0u128, 0u128)
    } else {
        let r = clp128(a, b, i + 1);
        if ((b >> (i as u128)) & 1) == 1 {
            (r.0 ^ clterm_hi(a, i), r.1 ^ (a << (i as u128)))
        } else {
            r
        }
    }
}

/// The full 256-bit carry-less product, split into (upper, lower).
pub open spec fn spec_clmul_wide(a: u128, b: u128) -> (u128, u128) {
    clp128(a, b, 0)
}

/// Carry-less multiplication of two 128-bit values: the 256-bit product of
/// the polynomials over GF(2) they represent, as (upper, lower) halves.
pub fn mul_wide(a: u128, b: u128) -> (r: (u128, u128))
    ensures
        r == spec_clmul_wide(a, b),
{
    let mut hi: u128 = 0;
    let mut lo: u128 = 0;
    let mut i: u32 = 0;
    proof {
        assert(forall|x: u128| x ^ 0u128 == x && 0u128 ^ x == x) by (bit_vector);
    }
    while i < 128
        invariant
            i <= 128,
            spec_clmul_wide(a, b).0 == hi ^ clp128(a, b, i as nat).0,
            spec_clmul_wide(a, b).1 == lo ^ clp128(a, b, i as nat).1,
        decreases 128 - i,
    {
        let ghost ph = hi;
        let ghost pl = lo;
        if ((b >> i) & 1) == 1 {
            lo = lo ^ (a << i);
            if i > 0 {
                hi = hi ^ (a >> (128 - i));
            }
        }
        proof {
            assert(forall|x: u128, y: u128, z: u128| x ^ (y ^ z) == (x ^ y) ^ z) by (bit_vector);
            assert(forall|x: u128, y: u128| x ^ y == y ^ x) by (bit_vector);
            assert(forall|x: u128| x ^ 0u128 == x && 0u128 ^ x == x) by (bit_vector);
            let cn = clp128(a, b, (i + 1) as nat);
            let c = clp128(a, b, i as nat);
            if ((b >> (i as u128)) & 1) == 1 {
                assert(c == (cn.0 ^ clterm_hi(a, i as nat), cn.1 ^ (a << (i as u128))));
                assert(hi == ph ^ clterm_hi(a, i as nat));
                assert(lo == pl ^ (a << (i as u128)));
            }
        }
        i = i + 1;
    }
    proof {
        assert(forall|x: u128| x ^ 0u128 == x && 0u128 ^ x == x) by (bit_vector);
    }
    (hi, lo)
}

/// The low reduction terms of `x^128 + x^7 + x^2 + x + 1`.
pub const FOLD: u128 = 0x87;

/// Bits that spill over when the upper half is folded through the low
/// reduction terms.
pub open spec fn fold_spill(u: u128) -> u128 {
    (u >> 121) ^ (u >> 126) ^ (u >> 127)
}

/// One fold of a 128-bit value through the low reduction terms.
pub open spec fn fold_mix(u: u128) -> u128 {
    u ^ (u << 1) ^ (u << 2) ^ (u << 7)
}

pub proof fn lemma_clp_tail_zero(a: u128, b: u128, i: nat)
    requires
        i <= 128,
        forall|j: u128| i <= j < 128 ==> ((b >> j) & 1) != 1,
    ensures
        clp128(a, b, i) == (0u128, 0u128),
    decreases 128 - i,
{
    if i < 128 {
        lemma_clp_tail_zero(a, b, i + 1);
    }
}

/// Carry-less multiplication by the low reduction terms, in closed form.
proof fn lemma_clmul_fold(u: u128)
    ensures
        spec_clmul_wide(u, FOLD) == (fold_spill(u), fold_mix(u)),
{
    assert(forall|j: u128| 8 <= j < 128 ==> ((FOLD >> j) & 1) != 1) by (bit_vector);
    lemma_clp_tail_zero(u, FOLD, 8);
    assert(((FOLD >> 0u128) & 1) == 1) by (bit_vector);
    assert(((FOLD >> 1u128) & 1) == 1) by (bit_vector);
    assert(((FOLD >> 2u128) & 1) == 1) by (bit_vector);
    assert(((FOLD >> 3u128) & 1) != 1) by (bit_vector);
    assert(((FOLD >> 4u128) & 1) != 1) by (bit_vector);
    assert(((FOLD >> 5u128) & 1) != 1) by (bit_vector);
    assert(((FOLD >> 6u128) & 1) != 1) by (bit_vector);
    assert(((FOLD >> 7u128) & 1) == 1) by (bit_vector);
    let c8 = clp128(u, FOLD, 8);
    let c7 = clp128(u, FOLD, 7);
    let c3 = clp128(u, FOLD, 3);
    let c2 = clp128(u, FOLD, 2);
    let c1 = clp128(u, FOLD, 1);
    let c0 = clp128(u, FOLD, 0);
    assert(c8 == (0u128, 0u128));
    assert(c7 == (0u128 ^ (u >> 121), 0u128 ^ (u << 7)));
    assert(clp128(u, FOLD, 6) == c7);
    assert(clp128(u, FOLD, 5) == c7);
    assert(clp128(u, FOLD, 4) == c7);
    assert(c3 == c7);
    assert(c2 == (c3.0 ^ (u >> 126), c3.1 ^ (u << 2)));
    assert(c1 == (c2.0 ^ (u >> 127), c2.1 ^ (u << 1)));
    assert(forall|x: u128| x ^ 0u128 == x) by (bit_vector);
    assert(c0 == (c1.0, c1.1 ^ (u << 0)));
    assert(((0u128 ^ (u >> 121)) ^ (u >> 126)) ^ (u >> 127) == (u >> 121) ^ (u >> 126) ^ (u
        >> 127)) by (bit_vector);
    assert((((0u128 ^ (u << 7)) ^ (u << 2)) ^ (u << 1)) ^ (u << 0) == u ^ (u << 1) ^ (u << 2) ^ (u
        << 7)) by (bit_vector);
}

/// What `reduce` computes: the lower half, with the upper half folded
/// through the low terms of `x^128 + x^7 + x^2 + x + 1`, and the fold's
/// own spill folded once more.
pub open spec fn spec_reduce(upper: u128, lower: u128) -> u128 {
    let first = spec_clmul_wide(upper, FOLD);
    lower ^ first.1 ^ spec_clmul_wide(first.0, FOLD).1
}

/// Reduce a 256-bit carry-less product over `x^128 + x^7 + x^2 + x + 1`.
pub fn reduce(upper: u128, lower: u128) -> (r: u128)
    ensures
        r == spec_reduce(upper, lower),
{
    let spill = (upper >> 121) ^ (upper >> 126) ^ (upper >> 127);
    let folded = upper ^ spill;
    proof {
        lemma_clmul_fold(upper);
        lemma_clmul_fold(spill);
        let u = upper;
        let s = spill;
        let l = lower;
        assert(l ^ (u ^ (u << 1) ^ (u << 2) ^ (u << 7)) ^ (s ^ (s << 1) ^ (s << 2) ^ (s << 7)) == l
            ^ (u ^ s) ^ ((u ^ s) << 1) ^ ((u ^ s) << 2) ^ ((u ^ s) << 7)) by (bit_vector);
    }
    lower ^ folded ^ (folded << 1) ^ (folded << 2) ^ (folded << 7)
}

/// Multiplication in GF(2^128): the carry-less product reduced over the
/// field polynomial.
pub open spec fn spec_gf128_mul(a: u128, b: u128) -> u128 {
    let w = spec_clmul_wide(a, b);
    spec_reduce(w.0, w.1)
}

/// An element of the finite field GF(2^128), reduced over
/// `x^128 + x^7 + x^2 + x + 1`.
#[derive(Clone, Copy, PartialEq, Eq, Structural, Debug, Hash)]
pub struct Gf128(pub u128);

/// The error type of GF(2^128) deserialization, which cannot fail: no
/// function ever constructs a value of it.  (An uninhabited datatype is
/// not expressible here, so it carries one never-used variant.)
#[derive(Clone, Copy, Debug)]
pub enum Gf128BytesDeserializationCannotFail {
    Never,
}

/// Carry-less multiplication by zero is zero.
pub proof fn lemma_clmul_zero(b: u128, i: nat)
    requires
        i <= 128,
    ensures
        clp128(0, b, i) == (0u128, 0u128),
    decreases 128 - i,
{
    if i < 128 {
        lemma_clmul_zero(b, i + 1);
        assert(forall|s: u128| (0u128 >> s) == 0 && (0u128 << s) == 0) by (bit_vector);
        assert(0u128 ^ 0u128 == 0u128) by (bit_vector);
    }
}

/// The carry-less product of one with one.
pub proof fn lemma_clmul_one_one()
    ensures
        spec_clmul_wide(1, 1) == (0u128, 1u128),
{
    assert(forall|j: u128| 1 <= j < 128 ==> ((1u128 >> j) & 1) != 1) by (bit_vector);
    lemma_clp_tail_zero(1, 1, 1);
    assert(((1u128 >> 0u128) & 1) == 1) by (bit_vector);
    assert(clp128(1, 1, 0) == (0u128 ^ clterm_hi(1, 0), 0u128 ^ (1u128 << 0u128)));
    assert(0u128 ^ (1u128 << 0u128) == 1u128) by (bit_vector);
    assert(0u128 ^ 0u128 == 0u128) by (bit_vector);
}

proof fn lemma_one_mul_one()
    ensures
        spec_gf128_mul(1, 1) == 1,
{
    assert(forall|j: u128| 1 <= j < 128 ==> ((1u128 >> j) & 1) != 1) by (bit_vector);
    lemma_clp_tail_zero(1, 1, 1);
    assert(((1u128 >> 0u128) & 1) == 1) by (bit_vector);
    assert(clp128(1, 1, 0) == (0u128 ^ clterm_hi(1, 0), 0u128 ^ (1u128 << 0u128)));
    assert(0u128 ^ (1u128 << 0u128) == 1u128) by (bit_vector);
    assert(0u128 ^ 0u128 == 0u128) by (bit_vector);
    assert(spec_clmul_wide(1, 1) == (0u128, 1u128));
    lemma_clmul_fold(0);
    assert(fold_spill(0) == 0 && fold_mix(0) == 0) by (bit_vector);
    assert(spec_reduce(0, 1) == 1u128 ^ 0u128 ^ 0u128);
    assert(1u128 ^ 0u128 ^ 0u128 == 1u128) by (bit_vector);
}

proof fn lemma_zero_mul(b: u128)
    ensures
        spec_gf128_mul(0, b) == 0,
        spec_gf128_mul(b, 0) == 0,
{
    lemma_clmul_zero(b, 0);
    assert(forall|j: u128| 0 <= j < 128 ==> ((0u128 >> j) & 1) != 1) by (bit_vector);
    lemma_clp_tail_zero(b, 0, 0);
    lemma_clmul_fold(0);
    assert(fold_spill(0) == 0 && fold_mix(0) == 0) by (bit_vector);
    assert(0u128 ^ 0u128 ^ 0u128 == 0u128) by (bit_vector);
}

impl FiniteField for Gf128 {
    open spec fn inv(self) -> bool {
        true
    }

    open spec fn in_prime(self) -> bool {
        self.0 == 0 || self.0 == 1
    }

    open spec fn szero() -> Self {
        Gf128(0)
    }

    open spec fn sone() -> Self {
        Gf128(1)
    }

    open spec fn sadd(self, o: Self) -> Self {
        Gf128(self.0 ^ o.0)
    }

    open spec fn smul(self, o: Self) -> Self {
        Gf128(spec_gf128_mul(self.0, o.0))
    }

    open spec fn sneg(self) -> Self {
        self
    }

    open spec fn sbyte_len() -> usize {
        16
    }

    open spec fn sto_le(self) -> Seq<u8> {
        spec_u128_to_le_bytes(self.0)
    }

    open spec fn sdecodes(s: Seq<u8>) -> bool {
        true
    }

    open spec fn sfrom_le(s: Seq<u8>) -> Self {
        Gf128(spec_u128_from_le_bytes(s))
    }

    open spec fn sfrom_u64s(a: u64, b: u64) -> Self {
        Gf128((a as u128) | ((b as u128) << 64))
    }

    proof fn lemma_consts() {
    }

    proof fn lemma_ops_closed(a: Self, b: Self) {
        if a.in_prime() && b.in_prime() {
            assert(0u128 ^ 0u128 == 0u128) by (bit_vector);
            assert(0u128 ^ 1u128 == 1u128) by (bit_vector);
            assert(1u128 ^ 0u128 == 1u128) by (bit_vector);
            assert(1u128 ^ 1u128 == 0u128) by (bit_vector);
            lemma_zero_mul(a.0);
            lemma_zero_mul(b.0);
            if a.0 == 1 && b.0 == 1 {
                lemma_one_mul_one();
            }
        }
    }

    proof fn lemma_bytes_roundtrip(a: Self) {
        lemma_auto_spec_u128_to_from_le_bytes();
    }

    fn zero() -> (r: Self) {
        Gf128(0)
    }

    fn one() -> (r: Self) {
        Gf128(1)
    }

    fn add(self, o: Self) -> (r: Self) {
        Gf128(self.0 ^ o.0)
    }

    fn mul(self, o: Self) -> (r: Self) {
        let (hi, lo) = mul_wide(self.0, o.0);
        Gf128(reduce(hi, lo))
    }

    fn neg(self) -> (r: Self) {
        self
    }

    fn eq_el(self, o: Self) -> (r: bool) {
        self.0 == o.0
    }

    fn byte_len() -> (r: usize) {
        16
    }

    fn to_le(self) -> (r: Vec<u8>) {
        u128_to_le_bytes(self.0)
    }

    fn from_le(s: &[u8]) -> (r: Result<Self, Error>) {
        Ok(Gf128(u128_from_le_bytes(s)))
    }

    fn from_u64s(a: u64, b: u64) -> (r: Self) {
        Gf128((a as u128) | ((b as u128) << 64))
    }
}

impl Gf128 {
    /// Deserialize from 16 little-endian bytes; this cannot fail.
    pub fn from_bytes(bytes: &[u8]) -> (r: Result<Gf128, Gf128BytesDeserializationCannotFail>)
        requires
            bytes@.len() == 16,
        ensures
            r matches Ok(g) && (r matches Ok(g) ==> g.0 == spec_u128_from_le_bytes(bytes@)),
    {
        Ok(Gf128(u128_from_le_bytes(bytes)))
    }

    /// Serialize to 16 little-endian bytes.
    pub fn to_bytes(&self) -> (r: Vec<u8>)
        ensures
            r@ == spec_u128_to_le_bytes(self.0),
    {
        u128_to_le_bytes(self.0)
    }

    /// The multiplicative generator `x` of the field.
    pub fn generator() -> (r: Gf128)
        ensures
            r == Gf128(2),
    {
        Gf128(2)
    }

    /// The order of the multiplicative group, `2^128 - 1`.
    pub fn multiplicative_group_order() -> (r: u128)
        ensures
            r == u128::MAX,
    {
        u128::MAX
    }

    /// Scale by an element of the prime subfield GF(2): the identity for
    /// one, zero for zero.
    pub fn multiply_by_prime_subfield(&self, pf: Gf128) -> (r: Gf128)
        requires
            pf.in_prime(),
        ensures
            r == (if pf == Gf128(1) {
                *self
            } else {
                Gf128(0)
            }),
    {
        if pf.0 == 1 {
            *self
        } else {
            Gf128(0)
        }
    }

    /// Exponentiation by squaring, pinned to the same square-and-multiply
    /// recursion at the specification level.
    pub open spec fn spec_pow(self, n: nat) -> Gf128
        decreases n,
    {
        if n == 0 {
            Gf128(1)
        } else {
            let h = self.spec_pow(n / 2);
            let s = h.smul(h);
            if n % 2 == 1 {
                s.smul(self)
            } else {
                s
            }
        }
    }

    /// Raise to the power `n`.
    pub fn pow(self, n: u128) -> (r: Gf128)
        ensures
            r == self.spec_pow(n as nat),
        decreases n,
    {
        if n == 0 {
            Gf128(1)
        } else {
            let h = self.pow(n / 2);
            let s = h.mul(h);
            if n % 2 == 1 {
                s.mul(self)
            } else {
                s
            }
        }
    }
}

} // verus!
