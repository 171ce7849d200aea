use crate::error::Error;
use crate::field::FiniteField;
use vstd::arithmetic::div_mod::*;
use vstd::arithmetic::mul::*;
use vstd::bytes::*;
use vstd::prelude::*;

verus! {

/// The Mersenne prime `2^61 - 1`.
pub const P: u64 = 2305843009213693951;

/// The prime field of order `2^61 - 1`.  It is its own prime subfield, so
/// clear values and tags share the representation: a `u64` below `P`.
#[derive(Clone, Copy, PartialEq, Eq, Structural, Debug)]
pub struct F61p(pub u64);

/// Reduction of an integer into the field, as the contracts state it.
pub open spec fn md(x: int) -> int {
    x % (P as int)
}

/// The authentication relation between the two roles: the Prover's tag for
/// clear value `x` and the Verifier's key `k` satisfy `t = k + x * delta`.
pub open spec fn mac_rel(delta: F61p, x: F61p, t: F61p, k: F61p) -> bool {
    t == k.sadd(x.smul(delta))
}

/// Two integers denote the same field element.
pub open spec fn cong(a: int, b: int) -> bool {
    md(a) == md(b)
}

proof fn lemma_md_bound(x: int)
    ensures
        0 <= md(x) < P,
{
    lemma_mod_bound(x, P as int);
}

proof fn lemma_cong_md(a: int)
    ensures
        cong(md(a), a),
{
    lemma_mod_twice(a, P as int);
}

proof fn lemma_cong_add(a: int, a2: int, b: int, b2: int)
    requires
        cong(a, a2),
        cong(b, b2),
    ensures
        cong(a + b, a2 + b2),
{
    lemma_add_mod_noop(a, b, P as int);
    lemma_add_mod_noop(a2, b2, P as int);
}

proof fn lemma_cong_mul(a: int, a2: int, b: int, b2: int)
    requires
        cong(a, a2),
        cong(b, b2),
    ensures
        cong(a * b, a2 * b2),
{
    lemma_mul_mod_noop(a, b, P as int);
    lemma_mul_mod_noop(a2, b2, P as int);
}

proof fn lemma_cong_neg(a: int, a2: int)
    requires
        cong(a, a2),
    ensures
        cong(-a, -a2),
{
    lemma_sub_mod_noop(0, a, P as int);
    lemma_sub_mod_noop(0, a2, P as int);
}

/// `sadd` denotes addition of the integer representatives.
proof fn lemma_sadd_val(a: F61p, b: F61p)
    ensures
        (a.sadd(b)).0 == md(a.0 + b.0),
        cong((a.sadd(b)).0 as int, a.0 + b.0),
{
    lemma_md_bound(a.0 + b.0);
    lemma_cong_md(a.0 + b.0);
}

/// `smul` denotes multiplication of the integer representatives.
proof fn lemma_smul_val(a: F61p, b: F61p)
    ensures
        (a.smul(b)).0 == md(a.0 * b.0),
        cong((a.smul(b)).0 as int, a.0 * b.0),
{
    lemma_md_bound(a.0 * b.0);
    lemma_cong_md(a.0 * b.0);
}

/// `sneg` denotes negation of the integer representative.
proof fn lemma_sneg_val(a: F61p)
    ensures
        (a.sneg()).0 == md(-(a.0 as int)),
        cong((a.sneg()).0 as int, -(a.0 as int)),
{
    lemma_md_bound(-(a.0 as int));
    lemma_cong_md(-(a.0 as int));
}

/// Elements with congruent representatives are equal.
proof fn lemma_el_eq(a: F61p, b: F61p)
    requires
        a.0 < P,
        b.0 < P,
        cong(a.0 as int, b.0 as int),
    ensures
        a == b,
{
    lemma_small_mod(a.0 as nat, P as nat);
    lemma_small_mod(b.0 as nat, P as nat);
}

impl FiniteField for F61p {
    open spec fn inv(self) -> bool {
        self.0 < P
    }

    open spec fn in_prime(self) -> bool {
        true
    }

    open spec fn szero() -> Self {
        F61p(0)
    }

    open spec fn sone() -> Self {
        F61p(1)
    }

    open spec fn sadd(self, o: Self) -> Self {
        F61p(md(self.0 + o.0) as u64)
    }

    open spec fn smul(self, o: Self) -> Self {
        F61p(md(self.0 * o.0) as u64)
    }

    open spec fn sneg(self) -> Self {
        F61p(md(-(self.0 as int)) as u64)
    }

    open spec fn sbyte_len() -> usize {
        8
    }

    open spec fn sto_le(self) -> Seq<u8> {
        spec_u64_to_le_bytes(self.0)
    }

    open spec fn sdecodes(s: Seq<u8>) -> bool {
        spec_u64_from_le_bytes(s) < P
    }

    open spec fn sfrom_le(s: Seq<u8>) -> Self {
        F61p(spec_u64_from_le_bytes(s))
    }

    open spec fn sfrom_u64s(a: u64, b: u64) -> Self {
        F61p(md(a as int) as u64)
    }

    proof fn lemma_consts() {
        lemma_small_mod(0, P as nat);
        lemma_small_mod(1, P as nat);
    }

    proof fn lemma_ops_closed(a: Self, b: Self) {
        lemma_md_bound(a.0 + b.0);
        lemma_md_bound(a.0 * b.0);
        lemma_md_bound(-(a.0 as int));
    }

    proof fn lemma_bytes_roundtrip(a: Self) {
        lemma_auto_spec_u64_to_from_le_bytes();
    }

    fn zero() -> (r: Self) {
        F61p(0)
    }

    fn one() -> (r: Self) {
        F61p(1)
    }

    fn add(self, o: Self) -> (r: Self) {
        let s = self.0 + o.0;
        let r = if s >= P {
            s - P
        } else {
            s
        };
        proof {
            if s >= P {
                lemma_mod_add_multiples_vanish((s - P) as int, P as int);
                lemma_small_mod((s - P) as nat, P as nat);
            } else {
                lemma_small_mod(s as nat, P as nat);
            }
        }
        F61p(r)
    }

    fn mul(self, o: Self) -> (r: Self) {
        proof {
            lemma_mul_upper_bound(self.0 as int, (P - 1) as int, o.0 as int, (P - 1) as int);
            lemma_mul_nonnegative(self.0 as int, o.0 as int);
            assert(((P - 1) as int) * ((P - 1) as int) <= u128::MAX as int) by (nonlinear_arith);
        }
        let w = (self.0 as u128) * (o.0 as u128);
        let m = w % (P as u128);
        proof {
            lemma_mod_bound(w as int, P as int);
        }
        F61p(m as u64)
    }

    fn neg(self) -> (r: Self) {
        if self.0 == 0 {
            proof {
                lemma_small_mod(0, P as nat);
            }
            F61p(0)
        } else {
            proof {
                lemma_mod_add_multiples_vanish(-(self.0 as int), P as int);
                lemma_small_mod((P - self.0) as nat, P as nat);
            }
            F61p(P - self.0)
        }
    }

    fn eq_el(self, o: Self) -> (r: bool) {
        self.0 == o.0
    }

    fn byte_len() -> (r: usize) {
        8
    }

    fn to_le(self) -> (r: Vec<u8>) {
        u64_to_le_bytes(self.0)
    }

    fn from_le(s: &[u8]) -> (r: Result<Self, Error>) {
        let x = u64_from_le_bytes(s);
        if x < P {
            Ok(F61p(x))
        } else {
            Err(Error::EncodingError)
        }
    }

    fn from_u64s(a: u64, b: u64) -> (r: Self) {
        proof {
            lemma_mod_bound(a as int, P as int);
        }
        F61p(a % P)
    }
}

/// Addition gate: summing tags and keys authenticates the sum of the values.
pub proof fn lemma_mac_add(d: F61p, xa: F61p, ta: F61p, ka: F61p, xb: F61p, tb: F61p, kb: F61p)
    requires
        mac_rel(d, xa, ta, ka),
        mac_rel(d, xb, tb, kb),
    ensures
        mac_rel(d, xa.sadd(xb), ta.sadd(tb), ka.sadd(kb)),
{
    let (dv, xav, tav, kav, xbv, tbv, kbv) = (
        d.0 as int,
        xa.0 as int,
        ta.0 as int,
        ka.0 as int,
        xb.0 as int,
        tb.0 as int,
        kb.0 as int,
    );
    lemma_smul_val(xa, d);
    lemma_smul_val(xb, d);
    lemma_sadd_val(ka, xa.smul(d));
    lemma_sadd_val(kb, xb.smul(d));
    lemma_sadd_val(ta, tb);
    lemma_sadd_val(ka, kb);
    lemma_sadd_val(xa, xb);
    lemma_smul_val(xa.sadd(xb), d);
    lemma_sadd_val(ka.sadd(kb), (xa.sadd(xb)).smul(d));
    // tags: cong(ta + tb, (ka + xa d) + (kb + xb d))
    lemma_cong_md((xa.smul(d)).0 as int);
    lemma_cong_add(kav, kav, (xa.smul(d)).0 as int, xav * dv);
    lemma_cong_md(kav + (xa.smul(d)).0);
    lemma_cong_add(kbv, kbv, (xb.smul(d)).0 as int, xbv * dv);
    lemma_cong_md(kbv + (xb.smul(d)).0);
    assert(cong(tav, kav + xav * dv));
    assert(cong(tbv, kbv + xbv * dv));
    lemma_cong_add(tav, kav + xav * dv, tbv, kbv + xbv * dv);
    // keys: cong(ka + kb + (xa + xb) d, same right-hand side)
    lemma_cong_md((xa.sadd(xb)).0 as int);
    lemma_cong_mul((xa.sadd(xb)).0 as int, xav + xbv, dv, dv);
    lemma_cong_add((ka.sadd(kb)).0 as int, kav + kbv, ((xa.sadd(xb)).smul(d)).0 as int, (xav
        + xbv) * dv);
    assert((xav + xbv) * dv == xav * dv + xbv * dv) by (nonlinear_arith);
    lemma_md_bound(tav + tbv);
    lemma_el_eq(ta.sadd(tb), (ka.sadd(kb)).sadd((xa.sadd(xb)).smul(d)));
}

/// Constant-addition gate: the Prover's tag is unchanged while the Verifier
/// shifts its key by `-c * delta`.
pub proof fn lemma_mac_addc(d: F61p, x: F61p, t: F61p, k: F61p, c: F61p)
    requires
        mac_rel(d, x, t, k),
    ensures
        mac_rel(d, x.sadd(c), t, k.sadd((c.smul(d)).sneg())),
{
    let (dv, xv, kv, cv) = (d.0 as int, x.0 as int, k.0 as int, c.0 as int);
    lemma_smul_val(x, d);
    lemma_sadd_val(k, x.smul(d));
    lemma_smul_val(c, d);
    lemma_sneg_val(c.smul(d));
    lemma_sadd_val(k, (c.smul(d)).sneg());
    lemma_sadd_val(x, c);
    lemma_smul_val(x.sadd(c), d);
    lemma_sadd_val(k.sadd((c.smul(d)).sneg()), (x.sadd(c)).smul(d));
    // left: t cong k + x d
    lemma_cong_md((x.smul(d)).0 as int);
    lemma_cong_add(kv, kv, (x.smul(d)).0 as int, xv * dv);
    lemma_cong_md(kv + (x.smul(d)).0);
    assert(cong(t.0 as int, kv + xv * dv));
    // right: (k - c d) + (x + c) d cong k + x d
    lemma_cong_md((c.smul(d)).0 as int);
    lemma_cong_neg((c.smul(d)).0 as int, cv * dv);
    lemma_cong_add(kv, kv, ((c.smul(d)).sneg()).0 as int, -(cv * dv));
    lemma_cong_md((x.sadd(c)).0 as int);
    lemma_cong_mul((x.sadd(c)).0 as int, xv + cv, dv, dv);
    lemma_cong_add((k.sadd((c.smul(d)).sneg())).0 as int, kv + -(cv * dv), ((x.sadd(
        c,
    )).smul(d)).0 as int, (xv + cv) * dv);
    assert(kv + -(cv * dv) + (xv + cv) * dv == kv + xv * dv) by (nonlinear_arith);
    lemma_md_bound(t.0 as int);
    lemma_el_eq(t, (k.sadd((c.smul(d)).sneg())).sadd((x.sadd(c)).smul(d)));
}

/// Constant-multiplication gate: scaling tag and key by `c` authenticates
/// the scaled value.
pub proof fn lemma_mac_mulc(d: F61p, x: F61p, t: F61p, k: F61p, c: F61p)
    requires
        mac_rel(d, x, t, k),
    ensures
        mac_rel(d, x.smul(c), t.smul(c), k.smul(c)),
{
    let (dv, xv, kv, cv) = (d.0 as int, x.0 as int, k.0 as int, c.0 as int);
    lemma_smul_val(x, d);
    lemma_sadd_val(k, x.smul(d));
    lemma_smul_val(t, c);
    lemma_smul_val(k, c);
    lemma_smul_val(x, c);
    lemma_smul_val(x.smul(c), d);
    lemma_sadd_val(k.smul(c), (x.smul(c)).smul(d));
    lemma_cong_md((x.smul(d)).0 as int);
    lemma_cong_add(kv, kv, (x.smul(d)).0 as int, xv * dv);
    lemma_cong_md(kv + (x.smul(d)).0);
    assert(cong(t.0 as int, kv + xv * dv));
    lemma_cong_mul(t.0 as int, kv + xv * dv, cv, cv);
    lemma_cong_md((x.smul(c)).0 as int);
    lemma_cong_mul((x.smul(c)).0 as int, xv * cv, dv, dv);
    lemma_cong_add(kv * cv, kv * cv, ((x.smul(c)).smul(d)).0 as int, (xv * cv) * dv);
    lemma_cong_mul(kv, kv, cv, cv);
    lemma_cong_add((k.smul(c)).0 as int, kv * cv, ((x.smul(c)).smul(d)).0 as int, (xv * cv) * dv);
    assert((kv + xv * dv) * cv == kv * cv + (xv * cv) * dv) by (nonlinear_arith);
    lemma_md_bound(t.0 * cv);
    lemma_el_eq(t.smul(c), (k.smul(c)).sadd((x.smul(c)).smul(d)));
}

/// Public input: the Prover's zero tag and the Verifier's `-v * delta` key
/// authenticate the public value `v` with no communication.
pub proof fn lemma_mac_public(d: F61p, v: F61p)
    ensures
        mac_rel(d, v, F61p::szero(), (v.smul(d)).sneg()),
{
    let (dv, vv) = (d.0 as int, v.0 as int);
    lemma_smul_val(v, d);
    lemma_sneg_val(v.smul(d));
    lemma_sadd_val((v.smul(d)).sneg(), v.smul(d));
    lemma_cong_md((v.smul(d)).0 as int);
    lemma_cong_neg((v.smul(d)).0 as int, vv * dv);
    lemma_cong_add(((v.smul(d)).sneg()).0 as int, -(vv * dv), (v.smul(d)).0 as int, vv * dv);
    lemma_small_mod(0, P as nat);
    lemma_el_eq(F61p::szero(), ((v.smul(d)).sneg()).sadd(v.smul(d)));
}

/// Any element authenticates the clear value zero against itself: with a
/// zero value, tag and key coincide.
pub proof fn lemma_mac_zero_value(d: F61p, e: F61p)
    requires
        e.inv(),
    ensures
        mac_rel(d, F61p::szero(), e, e),
{
    lemma_smul_val(F61p::szero(), d);
    lemma_mul_by_zero_is_zero(d.0 as int);
    lemma_small_mod(0, P as nat);
    lemma_sadd_val(e, F61p::szero().smul(d));
    lemma_small_mod(e.0 as nat, P as nat);
    lemma_el_eq(e, e.sadd(F61p::szero().smul(d)));
}

/// An authenticated zero has equal tag and key: the batched zero-check
/// accepts exactly the honestly asserted zeros.
pub proof fn lemma_zero_tag(d: F61p, x: F61p, t: F61p, k: F61p)
    requires
        mac_rel(d, x, t, k),
        x == F61p::szero(),
        k.inv(),
    ensures
        t == k,
{
    lemma_smul_val(x, d);
    lemma_sadd_val(k, x.smul(d));
    lemma_small_mod(0, P as nat);
    lemma_mul_by_zero_is_zero(d.0 as int);
    assert(x.0 * d.0 == 0);
    lemma_small_mod(k.0 as nat, P as nat);
}

/// A value whose product with `delta` is nonzero cannot have matching tag
/// and key, so the Verifier's zero-check rejects it.
pub proof fn lemma_nonzero_tag(d: F61p, x: F61p, t: F61p, k: F61p)
    requires
        mac_rel(d, x, t, k),
        x.smul(d) != F61p::szero(),
        k.inv(),
    ensures
        t != k,
{
    let w = (x.smul(d)).0;
    lemma_smul_val(x, d);
    lemma_md_bound(x.0 * d.0);
    lemma_sadd_val(k, x.smul(d));
    lemma_small_mod(0, P as nat);
    assert(w != 0);
    if k.0 + w < P {
        lemma_small_mod((k.0 + w) as nat, P as nat);
    } else {
        lemma_mod_add_multiples_vanish(k.0 + w - P, P as int);
        lemma_small_mod((k.0 + w - P) as nat, P as nat);
    }
}

/// The empty multiplication accumulator satisfies the check equation.
pub proof fn lemma_qs_empty(d: F61p)
    ensures
        F61p::szero() == F61p::szero().sadd((F61p::szero().smul(d)).sneg()),
{
    lemma_smul_val(F61p::szero(), d);
    lemma_small_mod(0, P as nat);
    lemma_sneg_val(F61p::szero().smul(d));
    lemma_sadd_val(F61p::szero(), (F61p::szero().smul(d)).sneg());
    lemma_mul_by_zero_is_zero(d.0 as int);
    assert(F61p::szero().0 * d.0 == 0);
    lemma_el_eq(F61p::szero(), F61p::szero().sadd((F61p::szero().smul(d)).sneg()));
}

/// One accumulated multiplication triple with a correct product keeps the
/// accumulator equation `W = U - V * delta` true.
pub proof fn lemma_qs_push(
    d: F61p,
    xa: F61p,
    ta: F61p,
    ka: F61p,
    xb: F61p,
    tb: F61p,
    kb: F61p,
    xc: F61p,
    tc: F61p,
    kc: F61p,
)
    requires
        mac_rel(d, xa, ta, ka),
        mac_rel(d, xb, tb, kb),
        mac_rel(d, xc, tc, kc),
        xc == xa.smul(xb),
    ensures
        (ka.smul(kb)).sadd(kc.smul(d)) == (ta.smul(tb)).sadd(
            ((((xa.smul(tb)).sadd(xb.smul(ta))).sadd(tc.sneg())).smul(d)).sneg(),
        ),
{
    let (dv, xav, kav, xbv, kbv, kcv) = (
        d.0 as int,
        xa.0 as int,
        ka.0 as int,
        xb.0 as int,
        kb.0 as int,
        kc.0 as int,
    );
    let al = kav + xav * dv;
    let be = kbv + xbv * dv;
    let ga = kcv + (xav * xbv) * dv;
    // tags are congruent to their defining expressions
    lemma_smul_val(xa, d);
    lemma_sadd_val(ka, xa.smul(d));
    lemma_cong_md((xa.smul(d)).0 as int);
    lemma_cong_add(kav, kav, (xa.smul(d)).0 as int, xav * dv);
    lemma_cong_md(kav + (xa.smul(d)).0);
    assert(cong(ta.0 as int, al));
    lemma_smul_val(xb, d);
    lemma_sadd_val(kb, xb.smul(d));
    lemma_cong_md((xb.smul(d)).0 as int);
    lemma_cong_add(kbv, kbv, (xb.smul(d)).0 as int, xbv * dv);
    lemma_cong_md(kbv + (xb.smul(d)).0);
    assert(cong(tb.0 as int, be));
    lemma_smul_val(xa, xb);
    lemma_smul_val(xc, d);
    lemma_sadd_val(kc, xc.smul(d));
    lemma_cong_md((xa.smul(xb)).0 as int);
    lemma_cong_mul(xc.0 as int, xav * xbv, dv, dv);
    lemma_cong_add(kcv, kcv, (xc.smul(d)).0 as int, (xav * xbv) * dv);
    lemma_cong_md(kcv + (xc.smul(d)).0);
    lemma_cong_md((xc.smul(d)).0 as int);
    assert(cong(tc.0 as int, ga));
    // left side: cong(ka kb + kc d, al be - theta d) will follow from the ring identity
    lemma_smul_val(ka, kb);
    lemma_smul_val(kc, d);
    lemma_sadd_val(ka.smul(kb), kc.smul(d));
    lemma_cong_md((ka.smul(kb)).0 as int);
    lemma_cong_md((kc.smul(d)).0 as int);
    lemma_cong_add((ka.smul(kb)).0 as int, kav * kbv, (kc.smul(d)).0 as int, kcv * dv);
    // right side: collapse to cong with al * be - theta * dv
    let theta = xav * be + xbv * al - ga;
    lemma_smul_val(ta, tb);
    lemma_cong_mul(ta.0 as int, al, tb.0 as int, be);
    lemma_cong_md((ta.smul(tb)).0 as int);
    lemma_smul_val(xa, tb);
    lemma_cong_mul(xav, xav, tb.0 as int, be);
    lemma_cong_md((xa.smul(tb)).0 as int);
    lemma_smul_val(xb, ta);
    lemma_cong_mul(xbv, xbv, ta.0 as int, al);
    lemma_cong_md((xb.smul(ta)).0 as int);
    lemma_sneg_val(tc);
    lemma_cong_neg(tc.0 as int, ga);
    lemma_cong_md((tc.sneg()).0 as int);
    lemma_sadd_val(xa.smul(tb), xb.smul(ta));
    lemma_cong_add((xa.smul(tb)).0 as int, xav * be, (xb.smul(ta)).0 as int, xbv * al);
    lemma_cong_md(((xa.smul(tb)).sadd(xb.smul(ta))).0 as int);
    let s2 = (xa.smul(tb)).sadd(xb.smul(ta));
    lemma_sadd_val(s2, tc.sneg());
    lemma_cong_add(s2.0 as int, xav * be + xbv * al, (tc.sneg()).0 as int, -ga);
    let s3 = s2.sadd(tc.sneg());
    lemma_cong_md(s3.0 as int);
    lemma_smul_val(s3, d);
    lemma_cong_mul(s3.0 as int, theta, dv, dv);
    lemma_sneg_val(s3.smul(d));
    lemma_cong_neg((s3.smul(d)).0 as int, theta * dv);
    lemma_cong_md((s3.smul(d)).0 as int);
    lemma_sadd_val(ta.smul(tb), (s3.smul(d)).sneg());
    lemma_cong_add((ta.smul(tb)).0 as int, al * be, ((s3.smul(d)).sneg()).0 as int, -(theta * dv));
    // the ring identity that makes the two sides agree
    lemma_qs_ring(kav, kbv, kcv, xav, xbv, dv);
    lemma_md_bound((ka.smul(kb)).0 + (kc.smul(d)).0);
    lemma_md_bound((ta.smul(tb)).0 + ((s3.smul(d)).sneg()).0);
    lemma_el_eq(
        (ka.smul(kb)).sadd(kc.smul(d)),
        (ta.smul(tb)).sadd((((s2.sadd(tc.sneg())).smul(d)).sneg())),
    );
}

/// The ring identity behind the multiplication check: when the accumulated
/// product is correct, the Verifier's aggregate matches the Prover's.
#[verifier::rlimit(100)]
proof fn lemma_qs_ring(kav: int, kbv: int, kcv: int, xav: int, xbv: int, dv: int)
    ensures
        kav * kbv + kcv * dv == (kav + xav * dv) * (kbv + xbv * dv) + -((xav * (kbv + xbv * dv)
            + xbv * (kav + xav * dv) - (kcv + (xav * xbv) * dv)) * dv),
{
    assert((kav + xav * dv) * (kbv + xbv * dv) == kav * kbv + kav * (xbv * dv) + (xav * dv) * kbv
        + (xav * dv) * (xbv * dv)) by (nonlinear_arith);
    assert((xav * (kbv + xbv * dv) + xbv * (kav + xav * dv) - (kcv + (xav * xbv) * dv)) * dv == (
    xav * kbv) * dv + (xav * (xbv * dv)) * dv + (xbv * kav) * dv + (xbv * (xav * dv)) * dv - kcv
        * dv - ((xav * xbv) * dv) * dv) by (nonlinear_arith);
    assert((xav * dv) * kbv == (xav * kbv) * dv) by (nonlinear_arith);
    assert(kav * (xbv * dv) == (xbv * kav) * dv) by (nonlinear_arith);
    assert((xav * dv) * (xbv * dv) == (xav * (xbv * dv)) * dv) by (nonlinear_arith);
    assert((xbv * (xav * dv)) * dv == ((xav * xbv) * dv) * dv) by (nonlinear_arith);
}

/// Accumulating one checked triple preserves linearity of the accumulator:
/// the three running sums stay related by `W = U - V * delta`.
pub proof fn lemma_qs_accumulate(
    d: F61p,
    w: F61p,
    u: F61p,
    v: F61p,
    pw: F61p,
    b0: F61p,
    a0: F61p,
    a1: F61p,
)
    requires
        w == u.sadd((v.smul(d)).sneg()),
        b0 == a0.sadd((a1.smul(d)).sneg()),
    ensures
        w.sadd(pw.smul(b0)) == (u.sadd(pw.smul(a0))).sadd(
            ((v.sadd(pw.smul(a1))).smul(d)).sneg(),
        ),
{
    let (dv, uv, vv, pv, a0v, a1v) = (
        d.0 as int,
        u.0 as int,
        v.0 as int,
        pw.0 as int,
        a0.0 as int,
        a1.0 as int,
    );
    // w cong u - v d
    lemma_smul_val(v, d);
    lemma_cong_md((v.smul(d)).0 as int);
    lemma_sneg_val(v.smul(d));
    lemma_cong_neg((v.smul(d)).0 as int, vv * dv);
    lemma_sadd_val(u, (v.smul(d)).sneg());
    lemma_cong_add(uv, uv, ((v.smul(d)).sneg()).0 as int, -(vv * dv));
    lemma_cong_md(w.0 as int);
    assert(cong(w.0 as int, uv + -(vv * dv)));
    // b0 cong a0 - a1 d
    lemma_smul_val(a1, d);
    lemma_cong_md((a1.smul(d)).0 as int);
    lemma_sneg_val(a1.smul(d));
    lemma_cong_neg((a1.smul(d)).0 as int, a1v * dv);
    lemma_sadd_val(a0, (a1.smul(d)).sneg());
    lemma_cong_add(a0v, a0v, ((a1.smul(d)).sneg()).0 as int, -(a1v * dv));
    lemma_cong_md(b0.0 as int);
    assert(cong(b0.0 as int, a0v + -(a1v * dv)));
    // left: w + pw b0
    lemma_smul_val(pw, b0);
    lemma_cong_mul(pv, pv, b0.0 as int, a0v + -(a1v * dv));
    lemma_cong_md((pw.smul(b0)).0 as int);
    lemma_sadd_val(w, pw.smul(b0));
    lemma_cong_add(w.0 as int, uv + -(vv * dv), (pw.smul(b0)).0 as int, pv * (a0v + -(a1v * dv)));
    // right: (u + pw a0) - (v + pw a1) d
    lemma_smul_val(pw, a0);
    lemma_cong_md((pw.smul(a0)).0 as int);
    lemma_sadd_val(u, pw.smul(a0));
    lemma_cong_add(uv, uv, (pw.smul(a0)).0 as int, pv * a0v);
    lemma_cong_md((u.sadd(pw.smul(a0))).0 as int);
    lemma_smul_val(pw, a1);
    lemma_cong_md((pw.smul(a1)).0 as int);
    lemma_sadd_val(v, pw.smul(a1));
    lemma_cong_add(vv, vv, (pw.smul(a1)).0 as int, pv * a1v);
    lemma_cong_md((v.sadd(pw.smul(a1))).0 as int);
    lemma_smul_val(v.sadd(pw.smul(a1)), d);
    lemma_cong_mul((v.sadd(pw.smul(a1))).0 as int, vv + pv * a1v, dv, dv);
    lemma_sneg_val((v.sadd(pw.smul(a1))).smul(d));
    lemma_cong_neg(((v.sadd(pw.smul(a1))).smul(d)).0 as int, (vv + pv * a1v) * dv);
    lemma_cong_md(((v.sadd(pw.smul(a1))).smul(d)).0 as int);
    lemma_sadd_val(u.sadd(pw.smul(a0)), (((v.sadd(pw.smul(a1))).smul(d)).sneg()));
    lemma_cong_add(
        (u.sadd(pw.smul(a0))).0 as int,
        uv + pv * a0v,
        (((v.sadd(pw.smul(a1))).smul(d)).sneg()).0 as int,
        -((vv + pv * a1v) * dv),
    );
    assert(uv + -(vv * dv) + pv * (a0v + -(a1v * dv)) == uv + pv * a0v + -((vv + pv * a1v)
        * dv)) by (nonlinear_arith);
    lemma_md_bound(w.0 + (pw.smul(b0)).0);
    lemma_md_bound((u.sadd(pw.smul(a0))).0 + (((v.sadd(pw.smul(a1))).smul(d)).sneg()).0);
    lemma_el_eq(
        w.sadd(pw.smul(b0)),
        (u.sadd(pw.smul(a0))).sadd((((v.sadd(pw.smul(a1))).smul(d)).sneg())),
    );
}

} // verus!
