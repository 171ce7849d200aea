use crate::backend::{
    encode_tags, lemma_encode_tags_index, lemma_encode_tags_len, mult_accept, significant_len,
    spec_from_bytes_le, zeros_accept, DietMacAndCheeseProver, DietMacAndCheeseVerifier,
    MacProver, MacVerifier,
};
use crate::error::Error;
use crate::f61p::{
    lemma_mac_add, lemma_mac_addc, lemma_mac_mulc, lemma_mac_public, lemma_nonzero_tag,
    lemma_qs_accumulate, lemma_qs_empty, lemma_qs_push, lemma_zero_tag, mac_rel, F61p,
};
use crate::field::FiniteField;
use crate::prg::Prg;
use vstd::arithmetic::mul::lemma_mul_inequality;
use vstd::prelude::*;

verus! {

// ---------------------------------------------------------------------
// Padded decoding
// ---------------------------------------------------------------------
/// Appending one trailing zero byte never changes what a buffer decodes
/// to.
pub proof fn lemma_decode_push_zero<FE: FiniteField>(s: Seq<u8>)
    ensures
        spec_from_bytes_le::<FE>(s.push(0u8)) == spec_from_bytes_le::<FE>(s),
{
    assert(s.push(0u8).drop_last() =~= s);
    assert(significant_len(s.push(0u8)) == significant_len(s));
    crate::backend::lemma_significant_len_le::<FE>(s);
    let sg = significant_len(s);
    assert(s.push(0u8).take(sg) =~= s.take(sg));
}

/// Padded decode idempotence: a buffer followed by any number of trailing
/// zero bytes decodes exactly as the buffer itself; in particular a buffer
/// whose significant length exceeds the field's canonical byte length
/// fails with an encoding error, padded or not.
pub proof fn lemma_padded_decode_idempotent<FE: FiniteField>(s: Seq<u8>, n: nat)
    ensures
        spec_from_bytes_le::<FE>(s + Seq::<u8>::new(n, |i: int| 0u8)) == spec_from_bytes_le::<
            FE,
        >(s),
        significant_len(s) > FE::sbyte_len() ==> spec_from_bytes_le::<FE>(s) == Err::<FE, Error>(
            Error::EncodingError,
        ),
    decreases n,
{
    if n == 0 {
        assert(s + Seq::<u8>::new(0, |i: int| 0u8) =~= s);
    } else {
        lemma_padded_decode_idempotent::<FE>(s, (n - 1) as nat);
        assert(s + Seq::<u8>::new(n, |i: int| 0u8) =~= (s + Seq::<u8>::new(
            (n - 1) as nat,
            |i: int| 0u8,
        )).push(0u8));
        lemma_decode_push_zero::<FE>(s + Seq::<u8>::new((n - 1) as nat, |i: int| 0u8));
    }
}

/// Decoding a buffer equals decoding its minimal (zero-stripped) prefix.
pub proof fn lemma_decode_minimal_prefix<FE: FiniteField>(s: Seq<u8>)
    ensures
        spec_from_bytes_le::<FE>(s.take(significant_len(s))) == spec_from_bytes_le::<FE>(s),
    decreases s.len(),
{
    crate::backend::lemma_significant_len_le::<FE>(s);
    if s.len() == 0 {
        assert(s.take(0) =~= s);
    } else if s.last() == 0 {
        lemma_decode_minimal_prefix::<FE>(s.drop_last());
        lemma_decode_push_zero::<FE>(s.drop_last());
        assert(s =~= s.drop_last().push(0u8));
        crate::backend::lemma_significant_len_le::<FE>(s.drop_last());
        assert(s.take(significant_len(s)) =~= s.drop_last().take(significant_len(s.drop_last())));
    } else {
        assert(s.take(significant_len(s)) =~= s);
    }
}

// ---------------------------------------------------------------------
// Batching policy
// ---------------------------------------------------------------------
/// Whether every queued clear value is zero: the condition under which a
/// Prover-side batch flush succeeds.
pub open spec fn all_zero<FE: FiniteField>(s: Seq<MacProver<FE>>) -> bool {
    forall|i: int| 0 <= i < s.len() ==> (#[trigger] s[i]).value == FE::szero()
}

/// Batching equivalence: flushing a queue in two batches accepts exactly
/// when flushing it as one batch does, so immediate mode and batched mode
/// agree on success and failure.
pub proof fn lemma_batch_split<FE: FiniteField>(s1: Seq<MacProver<FE>>, s2: Seq<MacProver<FE>>)
    ensures
        all_zero(s1 + s2) <==> (all_zero(s1) && all_zero(s2)),
{
    if all_zero(s1 + s2) {
        assert forall|i: int| 0 <= i < s1.len() implies (#[trigger] s1[i]).value
            == FE::szero() by {
            assert((s1 + s2)[i] == s1[i]);
        }
        assert forall|i: int| 0 <= i < s2.len() implies (#[trigger] s2[i]).value
            == FE::szero() by {
            assert((s1 + s2)[s1.len() + i] == s2[i]);
        }
    }
    if all_zero(s1) && all_zero(s2) {
        assert forall|i: int| 0 <= i < (s1 + s2).len() implies (#[trigger] (s1 + s2)[i]).value
            == FE::szero() by {
            if i < s1.len() {
                assert((s1 + s2)[i] == s1[i]);
            } else {
                assert((s1 + s2)[i] == s2[i - s1.len()]);
            }
        }
    }
}

// ---------------------------------------------------------------------
// Cross-role synchronization
// ---------------------------------------------------------------------
/// One authenticated value held consistently by the two roles.
pub open spec fn mac_synced(delta: F61p, p: MacProver<F61p>, v: MacVerifier<F61p>) -> bool {
    &&& p.wf()
    &&& v.wf()
    &&& mac_rel(delta, p.value, p.tag, v.key)
}

/// The two evaluators as an honest run keeps them: one shared context,
/// queues of authenticated zeros related entry by entry, and accumulators
/// satisfying the multiplication-check equation `W = U - V * delta`.
pub open spec fn evaluators_synced(
    p: DietMacAndCheeseProver<F61p>,
    v: DietMacAndCheeseVerifier<F61p>,
) -> bool {
    &&& p.wf()
    &&& v.wf()
    &&& p.is_ok
    &&& v.is_ok
    &&& p.no_batching == v.no_batching
    &&& p.prover.delta == v.verifier.delta
    &&& p.prover.keys == v.verifier.keys
    &&& p.state_mult_check.chi == v.state_mult_check.chi
    &&& p.state_mult_check.power == v.state_mult_check.power
    &&& p.state_mult_check.count == v.state_mult_check.count
    &&& v.state_mult_check.sum_w == p.state_mult_check.sum_u.sadd(
        (p.state_mult_check.sum_v.smul(p.prover.delta)).sneg(),
    )
    &&& p.check_zero_list@.len() == v.check_zero_list@.len()
    &&& forall|i: int|
        0 <= i < p.check_zero_list@.len() ==> mac_synced(
            p.prover.delta,
            #[trigger] p.check_zero_list@[i],
            v.check_zero_list@[i],
        ) && p.check_zero_list@[i].value == F61p::szero()
}

/// Freshly initialized evaluators over one seed context are synchronized.
pub proof fn lemma_init_synced(p: DietMacAndCheeseProver<F61p>, v: DietMacAndCheeseVerifier<F61p>)
    requires
        p.wf(),
        v.wf(),
        p.is_ok,
        v.is_ok,
        p.no_batching == v.no_batching,
        p.prover.delta == v.verifier.delta,
        p.prover.keys == v.verifier.keys,
        p.check_zero_list@.len() == 0,
        v.check_zero_list@.len() == 0,
        p.state_mult_check == crate::backend::StateMultCheckProver::spec_reset(
            p.state_mult_check.chi,
        ),
        v.state_mult_check == crate::backend::StateMultCheckVerifier::spec_reset(
            p.state_mult_check.chi,
        ),
    ensures
        evaluators_synced(p, v),
{
    lemma_qs_empty(p.prover.delta);
}

/// A public input is authenticated consistently by both roles: the
/// Prover's zero tag and the Verifier's `-v * delta` key agree on the
/// value.
pub proof fn lemma_public_synced(delta: F61p, val: F61p, pm: MacProver<F61p>, vm: MacVerifier<F61p>)
    requires
        val.inv(),
        delta.inv(),
        pm.value == val,
        pm.tag == F61p::szero(),
        vm.key == (val.smul(delta)).sneg(),
    ensures
        mac_synced(delta, pm, vm),
{
    lemma_mac_public(delta, val);
    F61p::lemma_consts();
    F61p::lemma_ops_closed(val, delta);
    F61p::lemma_ops_closed(val.smul(delta), val);
}

/// The addition gate preserves synchronization of its operands.
pub proof fn lemma_add_synced(
    delta: F61p,
    pa: MacProver<F61p>,
    pb: MacProver<F61p>,
    pr: MacProver<F61p>,
    va: MacVerifier<F61p>,
    vb: MacVerifier<F61p>,
    vr: MacVerifier<F61p>,
)
    requires
        mac_synced(delta, pa, va),
        mac_synced(delta, pb, vb),
        pr.value == pa.value.sadd(pb.value),
        pr.tag == pa.tag.sadd(pb.tag),
        pr.wf(),
        vr.key == va.key.sadd(vb.key),
        vr.wf(),
    ensures
        mac_synced(delta, pr, vr),
{
    lemma_mac_add(delta, pa.value, pa.tag, va.key, pb.value, pb.tag, vb.key);
}

/// The constant-addition gate preserves synchronization.
pub proof fn lemma_addc_synced(
    delta: F61p,
    c: F61p,
    pa: MacProver<F61p>,
    pr: MacProver<F61p>,
    va: MacVerifier<F61p>,
    vr: MacVerifier<F61p>,
)
    requires
        mac_synced(delta, pa, va),
        c.inv(),
        pr.value == pa.value.sadd(c),
        pr.tag == pa.tag,
        pr.wf(),
        vr.key == va.key.sadd((c.smul(delta)).sneg()),
        vr.wf(),
    ensures
        mac_synced(delta, pr, vr),
{
    lemma_mac_addc(delta, pa.value, pa.tag, va.key, c);
}

/// The constant-multiplication gate preserves synchronization.
pub proof fn lemma_mulc_synced(
    delta: F61p,
    c: F61p,
    pa: MacProver<F61p>,
    pr: MacProver<F61p>,
    va: MacVerifier<F61p>,
    vr: MacVerifier<F61p>,
)
    requires
        mac_synced(delta, pa, va),
        c.inv(),
        pr.value == pa.value.smul(c),
        pr.tag == pa.tag.smul(c),
        pr.wf(),
        vr.key == va.key.smul(c),
        vr.wf(),
    ensures
        mac_synced(delta, pr, vr),
{
    lemma_mac_mulc(delta, pa.value, pa.tag, va.key, c);
}

/// A fresh authentication over the shared key stream is synchronized: the
/// Prover's tag is `k + x * delta` for exactly the key `k` the Verifier
/// drew.
pub proof fn lemma_input_synced(delta: F61p, k: F61p, x: F61p, pm: MacProver<F61p>, vm: MacVerifier<
    F61p,
>)
    requires
        pm.value == x,
        pm.tag == k.sadd(x.smul(delta)),
        pm.wf(),
        vm.key == k,
        vm.wf(),
    ensures
        mac_synced(delta, pm, vm),
{
}

/// The multiplication gate keeps the accumulators related: when the
/// Prover's product is correct, the Verifier's per-triple aggregate equals
/// `A0 - A1 * delta`, so the running sums stay on the check equation.
pub proof fn lemma_mul_accumulators_synced(
    delta: F61p,
    pa: MacProver<F61p>,
    pb: MacProver<F61p>,
    pout: MacProver<F61p>,
    va: MacVerifier<F61p>,
    vb: MacVerifier<F61p>,
    vout: MacVerifier<F61p>,
    power: F61p,
    sum_u: F61p,
    sum_v: F61p,
    sum_w: F61p,
)
    requires
        mac_synced(delta, pa, va),
        mac_synced(delta, pb, vb),
        mac_synced(delta, pout, vout),
        pout.value == pa.value.smul(pb.value),
        sum_w == sum_u.sadd((sum_v.smul(delta)).sneg()),
    ensures
        ({
            let a0 = pa.tag.smul(pb.tag);
            let a1 = ((pa.value.smul(pb.tag)).sadd(pb.value.smul(pa.tag))).sadd(pout.tag.sneg());
            let b0 = (va.key.smul(vb.key)).sadd(vout.key.smul(delta));
            sum_w.sadd(power.smul(b0)) == (sum_u.sadd(power.smul(a0))).sadd(
                ((sum_v.sadd(power.smul(a1))).smul(delta)).sneg(),
            )
        }),
{
    let a0 = pa.tag.smul(pb.tag);
    let a1 = ((pa.value.smul(pb.tag)).sadd(pb.value.smul(pa.tag))).sadd(pout.tag.sneg());
    let b0 = (va.key.smul(vb.key)).sadd(vout.key.smul(delta));
    lemma_qs_push(
        delta,
        pa.value,
        pa.tag,
        va.key,
        pb.value,
        pb.tag,
        vb.key,
        pout.value,
        pout.tag,
        vout.key,
    );
    lemma_qs_accumulate(delta, sum_w, sum_u, sum_v, power, b0, a0, a1);
}

/// Challenge agreement: both roles derive the challenge from the same
/// stream position, so the tags are bit-identical, and the value zero it
/// authenticates keeps the pair synchronized.
pub proof fn lemma_challenge_synced(delta: F61p, e: F61p, pm: MacProver<F61p>, vm: MacVerifier<
    F61p,
>)
    requires
        e.inv(),
        delta.inv(),
        pm.value == F61p::szero(),
        pm.tag == e,
        vm.key == e,
    ensures
        pm.tag == vm.key,
        mac_synced(delta, pm, vm),
{
    F61p::lemma_consts();
    lemma_zero_tag(delta, F61p::szero(), e, e);
    crate::f61p::lemma_mac_zero_value(delta, e);
}

/// The multiplication gate, taken at the evaluator level: from
/// synchronized evaluators and synchronized operands, the two transitions
/// that `mul` pins down yield a synchronized product and synchronized
/// evaluators again.
pub proof fn lemma_mul_synced(
    p: DietMacAndCheeseProver<F61p>,
    v: DietMacAndCheeseVerifier<F61p>,
    p2: DietMacAndCheeseProver<F61p>,
    v2: DietMacAndCheeseVerifier<F61p>,
    pa: MacProver<F61p>,
    pb: MacProver<F61p>,
    pm: MacProver<F61p>,
    va: MacVerifier<F61p>,
    vb: MacVerifier<F61p>,
    vm: MacVerifier<F61p>,
)
    requires
        evaluators_synced(p, v),
        mac_synced(p.prover.delta, pa, va),
        mac_synced(p.prover.delta, pb, vb),
        p2.wf(),
        v2.wf(),
        p2.is_ok,
        v2.is_ok,
        p2.no_batching == p.no_batching,
        v2.no_batching == v.no_batching,
        p2.check_zero_list@ == p.check_zero_list@,
        v2.check_zero_list@ == v.check_zero_list@,
        // what the Prover's transition pins down
        pm.value == pa.value.smul(pb.value),
        pm.tag == crate::backend::derive_el::<F61p>(p.prover.keys).0.sadd(
            pm.value.smul(p.prover.delta),
        ),
        pm.wf(),
        p2.prover.keys == crate::backend::derive_el::<F61p>(p.prover.keys).1,
        p2.prover.delta == p.prover.delta,
        ({
            let a0 = pa.tag.smul(pb.tag);
            let a1 = ((pa.value.smul(pb.tag)).sadd(pb.value.smul(pa.tag))).sadd(pm.tag.sneg());
            &&& p2.state_mult_check.sum_u == p.state_mult_check.sum_u.sadd(
                p.state_mult_check.power.smul(a0),
            )
            &&& p2.state_mult_check.sum_v == p.state_mult_check.sum_v.sadd(
                p.state_mult_check.power.smul(a1),
            )
        }),
        p2.state_mult_check.power == p.state_mult_check.power.smul(p.state_mult_check.chi),
        p2.state_mult_check.chi == p.state_mult_check.chi,
        p2.state_mult_check.count == crate::backend::bump(p.state_mult_check.count),
        // what the Verifier's transition pins down
        vm.key == crate::backend::derive_el::<F61p>(v.verifier.keys).0,
        vm.wf(),
        v2.verifier.keys == crate::backend::derive_el::<F61p>(v.verifier.keys).1,
        v2.verifier.delta == v.verifier.delta,
        ({
            let b0 = (va.key.smul(vb.key)).sadd(vm.key.smul(v.verifier.delta));
            v2.state_mult_check.sum_w == v.state_mult_check.sum_w.sadd(
                v.state_mult_check.power.smul(b0),
            )
        }),
        v2.state_mult_check.power == v.state_mult_check.power.smul(v.state_mult_check.chi),
        v2.state_mult_check.chi == v.state_mult_check.chi,
        v2.state_mult_check.count == crate::backend::bump(v.state_mult_check.count),
    ensures
        mac_synced(p2.prover.delta, pm, vm),
        evaluators_synced(p2, v2),
{
    lemma_mul_accumulators_synced(
        p.prover.delta,
        pa,
        pb,
        pm,
        va,
        vb,
        vm,
        p.state_mult_check.power,
        p.state_mult_check.sum_u,
        p.state_mult_check.sum_v,
        v.state_mult_check.sum_w,
    );
}

/// Enqueuing one honestly asserted zero keeps the evaluators
/// synchronized: the deferred-mode half of `assert_zero`.
pub proof fn lemma_queue_push_synced(
    p: DietMacAndCheeseProver<F61p>,
    v: DietMacAndCheeseVerifier<F61p>,
    p2: DietMacAndCheeseProver<F61p>,
    v2: DietMacAndCheeseVerifier<F61p>,
    pm: MacProver<F61p>,
    vm: MacVerifier<F61p>,
)
    requires
        evaluators_synced(p, v),
        mac_synced(p.prover.delta, pm, vm),
        pm.value == F61p::szero(),
        p2.check_zero_list@ == p.check_zero_list@.push(pm),
        p2 == (DietMacAndCheeseProver { check_zero_list: p2.check_zero_list, ..p }),
        p2.wf(),
        v2.check_zero_list@ == v.check_zero_list@.push(vm),
        v2 == (DietMacAndCheeseVerifier { check_zero_list: v2.check_zero_list, ..v }),
        v2.wf(),
    ensures
        evaluators_synced(p2, v2),
{
    let n = p.check_zero_list@.len() as int;
    assert forall|i: int| 0 <= i < p2.check_zero_list@.len() implies mac_synced(
        p2.prover.delta,
        #[trigger] p2.check_zero_list@[i],
        v2.check_zero_list@[i],
    ) && p2.check_zero_list@[i].value == F61p::szero() by {
        if i < n {
            assert(p2.check_zero_list@[i] == p.check_zero_list@[i]);
            assert(v2.check_zero_list@[i] == v.check_zero_list@[i]);
        } else {
            assert(p2.check_zero_list@[i] == pm);
            assert(v2.check_zero_list@[i] == vm);
        }
    }
}

/// Validity round trip, acceptance half: on synchronized evaluators the
/// bytes the Prover's finalize emits are exactly what the Verifier's
/// finalize accepts — every queued zero passes the batched zero check and
/// the aggregates satisfy the multiplication-check equation.
pub proof fn lemma_finalize_accepts(
    p: DietMacAndCheeseProver<F61p>,
    v: DietMacAndCheeseVerifier<F61p>,
    avail: Seq<u8>,
)
    requires
        evaluators_synced(p, v),
        avail == encode_tags(p.check_zero_list@) + p.state_mult_check.sum_u.sto_le()
            + p.state_mult_check.sum_v.sto_le(),
    ensures
        all_zero(p.check_zero_list@),
        zeros_accept(v.check_zero_list@, avail),
        mult_accept(
            v.state_mult_check.sum_w,
            v.verifier.delta,
            avail.skip(v.check_zero_list@.len() * F61p::sbyte_len()),
        ),
{
    let delta = p.prover.delta;
    let pl = p.check_zero_list@;
    let vl = v.check_zero_list@;
    let n = pl.len() as int;
    let ll = F61p::sbyte_len() as int;
    F61p::lemma_consts();
    lemma_encode_tags_len(pl);
    F61p::lemma_bytes_roundtrip(p.state_mult_check.sum_u);
    F61p::lemma_bytes_roundtrip(p.state_mult_check.sum_v);
    assert(avail.len() >= n * ll);
    assert forall|i: int| 0 <= i < vl.len() implies {
        let chunk = #[trigger] avail.subrange(i * ll, i * ll + ll);
        F61p::sdecodes(chunk) && F61p::sfrom_le(chunk) == vl[i].key
    } by {
        lemma_encode_tags_index(pl, i);
        lemma_mul_inequality(i + 1, n, ll);
        assert((i + 1) * ll == i * ll + ll) by (nonlinear_arith);
        vstd::arithmetic::mul::lemma_mul_nonnegative(i, ll);
        assert(avail.subrange(i * ll, i * ll + ll) =~= encode_tags(pl).subrange(
            i * ll,
            i * ll + ll,
        ));
        F61p::lemma_bytes_roundtrip(pl[i].tag);
        lemma_zero_tag(delta, pl[i].value, pl[i].tag, vl[i].key);
    }
    let rest = avail.skip(n * ll);
    assert(rest.len() >= 2 * ll);
    assert(rest.subrange(0, ll) =~= p.state_mult_check.sum_u.sto_le());
    assert(rest.subrange(ll, 2 * ll) =~= p.state_mult_check.sum_v.sto_le());
}

/// Multiplication-count sanity, in general: along any run whose steps
/// advance the accumulator count as one successful `mul` does (and that
/// contains no finalize or reset, which wind the count back to zero), the
/// count after `n` steps from a fresh accumulator is exactly `n` — so the
/// count that `do_mult_check` reports equals the number of multiplication
/// steps since the last finalize or reset.
pub proof fn lemma_mult_count_tracks(counts: Seq<usize>)
    requires
        counts.len() >= 1,
        counts[0] == 0,
        counts.len() - 1 < usize::MAX,
        forall|i: int|
            0 <= i < counts.len() - 1 ==> counts[i + 1] == crate::backend::bump(#[trigger] counts[i]),
    ensures
        counts.last() == counts.len() - 1,
    decreases counts.len(),
{
    if counts.len() > 1 {
        lemma_mult_count_tracks(counts.drop_last());
        assert(counts.drop_last().last() == counts[counts.len() - 2]);
        assert(counts.last() == crate::backend::bump(counts[counts.len() - 2]));
    }
}

/// Soundness rejection, completion half: a failing Prover finalize leaves
/// exactly the queued tags on the wire and no aggregates, so the matching
/// Verifier finalize cannot accept — its multiplication check finds no
/// bytes to read, whatever the tags say.
pub proof fn lemma_prover_failure_rejected(
    w: F61p,
    delta: F61p,
    pl: Seq<MacProver<F61p>>,
    vl: Seq<MacVerifier<F61p>>,
    avail: Seq<u8>,
)
    requires
        pl.len() == vl.len(),
        forall|i: int| 0 <= i < pl.len() ==> (#[trigger] pl[i]).wf(),
        avail == encode_tags(pl),
    ensures
        !mult_accept(w, delta, avail.skip(vl.len() * F61p::sbyte_len())),
{
    F61p::lemma_consts();
    lemma_encode_tags_len(pl);
    assert(avail.skip(vl.len() * F61p::sbyte_len()).len() == 0);
}

/// Challenge agreement, field-generic half: both roles draw the challenge
/// from the same position of the shared stream, so the Prover's tag and
/// the Verifier's key are bit-identical, over any field.
pub proof fn lemma_challenge_agreement<FE: FiniteField>(
    p_keys: Prg,
    v_keys: Prg,
    pm: MacProver<FE>,
    vm: MacVerifier<FE>,
)
    requires
        p_keys == v_keys,
        pm.tag == crate::backend::derive_el::<FE>(p_keys).0,
        vm.key == crate::backend::derive_el::<FE>(v_keys).0,
    ensures
        pm.tag == vm.key,
{
}

/// Soundness rejection, Verifier half: if the Prover asserted zero on a
/// value that is not zero (and whose product with `delta` is nonzero),
/// then the bytes it sends cannot pass the Verifier's batched zero check.
pub proof fn lemma_nonzero_rejected(
    delta: F61p,
    pl: Seq<MacProver<F61p>>,
    vl: Seq<MacVerifier<F61p>>,
    avail: Seq<u8>,
    j: int,
)
    requires
        pl.len() == vl.len(),
        forall|i: int|
            0 <= i < pl.len() ==> mac_synced(delta, #[trigger] pl[i], vl[i]),
        0 <= j < pl.len(),
        pl[j].value.smul(delta) != F61p::szero(),
        avail.len() >= encode_tags(pl).len() && avail.subrange(0, encode_tags(pl).len() as int)
            == encode_tags(pl),
    ensures
        !zeros_accept(vl, avail),
{
    let ll = F61p::sbyte_len() as int;
    let n = pl.len() as int;
    F61p::lemma_consts();
    lemma_encode_tags_len(pl);
    lemma_encode_tags_index(pl, j);
    lemma_mul_inequality(j + 1, n, ll);
    assert((j + 1) * ll == j * ll + ll) by (nonlinear_arith);
    vstd::arithmetic::mul::lemma_mul_nonnegative(j, ll);
    assert(avail.subrange(j * ll, j * ll + ll) =~= encode_tags(pl).subrange(j * ll, j * ll + ll));
    F61p::lemma_bytes_roundtrip(pl[j].tag);
    lemma_nonzero_tag(delta, pl[j].value, pl[j].tag, vl[j].key);
    assert(F61p::sfrom_le(avail.subrange(j * ll, j * ll + ll)) != vl[j].key);
}

} // verus!
