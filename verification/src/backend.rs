use crate::channel::Channel;
use crate::error::Error;
use crate::field::FiniteField;
use crate::prg::{xorshift_step, Prg};
use vstd::arithmetic::mul::lemma_mul_upper_bound;
use vstd::prelude::*;
use vstd::slice::{slice_index_get, slice_subrange};

verus! {

/// Pending zero-assertions are flushed when the queue reaches this bound.
pub const QUEUE_CAPACITY: usize = 3000000;

/// Gate-operation cadence at which a progress summary becomes due.
pub const TICK_TIMER: usize = 5000000;

/// A counter advance that sticks at the top instead of wrapping.
pub open spec fn bump(c: usize) -> usize {
    if c == usize::MAX {
        c
    } else {
        (c + 1) as usize
    }
}

/// A counter advance by `n` that sticks at the top instead of wrapping.
pub open spec fn bump_by(c: usize, n: usize) -> usize {
    if c + n > usize::MAX {
        usize::MAX
    } else {
        (c + n) as usize
    }
}

/// Progress counters of one evaluator: how many gates of each kind ran and
/// how many values the two interactive checks covered.
pub struct Monitor {
    pub tick: usize,
    pub summaries_due: usize,
    pub monitor_instance: usize,
    pub monitor_witness: usize,
    pub monitor_mul: usize,
    pub monitor_mulc: usize,
    pub monitor_add: usize,
    pub monitor_addc: usize,
    pub monitor_check_zero: usize,
    pub monitor_zk_check_zero: usize,
    pub monitor_zk_mult_check: usize,
}

/// The tick counter after one more operation: it wraps at the cadence.
pub open spec fn tick_step(t: usize) -> usize {
    if t >= TICK_TIMER - 1 {
        0usize
    } else {
        (t + 1) as usize
    }
}

/// The number of collectable progress summaries after one more operation:
/// one more becomes due exactly when the tick wraps.
pub open spec fn due_step(t: usize, d: usize) -> usize {
    if t >= TICK_TIMER - 1 {
        bump(d)
    } else {
        d
    }
}

/// The rendered one-line progress summary.  Named result of the `format!`
/// rendering in `log_monitor`; it depends on the four counters alone.
pub uninterp spec fn progress_text(n_inst: usize, n_witn: usize, n_mul: usize, n_czero: usize) -> Seq<char>;

/// The rendered multiplication-count mismatch warning.  Named result of
/// the `format!` rendering in `fmt_count_mismatch`.
pub uninterp spec fn warn_text(n_mul: usize, n_checked: usize) -> Seq<char>;

/// The rendered final counter block behind a given prefix.  Named result
/// of the `format!` rendering in `fmt_counts`.
pub uninterp spec fn counts_text(
    prefix: Seq<char>,
    n_inst: usize,
    n_witn: usize,
    n_addc: usize,
    n_add: usize,
    n_mulc: usize,
    n_mul: usize,
    n_czero: usize,
) -> Seq<char>;

impl Default for Monitor {
    fn default() -> (r: Monitor)
        ensures
            r == monitor_zero(),
    {
        Monitor {
            tick: 0,
            summaries_due: 0,
            monitor_instance: 0,
            monitor_witness: 0,
            monitor_mul: 0,
            monitor_mulc: 0,
            monitor_add: 0,
            monitor_addc: 0,
            monitor_check_zero: 0,
            monitor_zk_check_zero: 0,
            monitor_zk_mult_check: 0,
        }
    }
}

impl Monitor {
    /// Advance the periodic tick; it wraps at the summary cadence, and the
    /// wrap makes one more progress summary due (collectable through
    /// `take_summary`), which is how "emit counters periodically" is made
    /// observable without a hard-wired logging destination.
    pub fn tick(&mut self)
        ensures
            final(self).tick == tick_step(old(self).tick),
            final(self).summaries_due == due_step(old(self).tick, old(self).summaries_due),
            *final(self) == (Monitor {
                tick: final(self).tick,
                summaries_due: final(self).summaries_due,
                ..*old(self)
            }),
    {
        if self.tick >= TICK_TIMER - 1 {
            self.tick = 0;
            if self.summaries_due != usize::MAX {
                self.summaries_due = self.summaries_due + 1;
            }
        } else {
            self.tick = self.tick + 1;
        }
    }

    pub fn incr_monitor_instance(&mut self)
        ensures
            final(self).monitor_instance == bump(old(self).monitor_instance),
            final(self).tick == tick_step(old(self).tick),
            final(self).summaries_due == due_step(old(self).tick, old(self).summaries_due),
            *final(self) == (Monitor {
                tick: final(self).tick,
                summaries_due: final(self).summaries_due,
                monitor_instance: final(self).monitor_instance,
                ..*old(self)
            }),
    {
        self.tick();
        if self.monitor_instance != usize::MAX {
            self.monitor_instance = self.monitor_instance + 1;
        }
    }

    pub fn incr_monitor_mul(&mut self)
        ensures
            final(self).monitor_mul == bump(old(self).monitor_mul),
            final(self).tick == tick_step(old(self).tick),
            final(self).summaries_due == due_step(old(self).tick, old(self).summaries_due),
            *final(self) == (Monitor {
                tick: final(self).tick,
                summaries_due: final(self).summaries_due,
                monitor_mul: final(self).monitor_mul,
                ..*old(self)
            }),
    {
        self.tick();
        if self.monitor_mul != usize::MAX {
            self.monitor_mul = self.monitor_mul + 1;
        }
    }

    pub fn incr_monitor_mulc(&mut self)
        ensures
            final(self).monitor_mulc == bump(old(self).monitor_mulc),
            final(self).tick == tick_step(old(self).tick),
            final(self).summaries_due == due_step(old(self).tick, old(self).summaries_due),
            *final(self) == (Monitor {
                tick: final(self).tick,
                summaries_due: final(self).summaries_due,
                monitor_mulc: final(self).monitor_mulc,
                ..*old(self)
            }),
    {
        self.tick();
        if self.monitor_mulc != usize::MAX {
            self.monitor_mulc = self.monitor_mulc + 1;
        }
    }

    pub fn incr_monitor_add(&mut self)
        ensures
            final(self).monitor_add == bump(old(self).monitor_add),
            final(self).tick == tick_step(old(self).tick),
            final(self).summaries_due == due_step(old(self).tick, old(self).summaries_due),
            *final(self) == (Monitor {
                tick: final(self).tick,
                summaries_due: final(self).summaries_due,
                monitor_add: final(self).monitor_add,
                ..*old(self)
            }),
    {
        self.tick();
        if self.monitor_add != usize::MAX {
            self.monitor_add = self.monitor_add + 1;
        }
    }

    pub fn incr_monitor_addc(&mut self)
        ensures
            final(self).monitor_addc == bump(old(self).monitor_addc),
            final(self).tick == tick_step(old(self).tick),
            final(self).summaries_due == due_step(old(self).tick, old(self).summaries_due),
            *final(self) == (Monitor {
                tick: final(self).tick,
                summaries_due: final(self).summaries_due,
                monitor_addc: final(self).monitor_addc,
                ..*old(self)
            }),
    {
        self.tick();
        if self.monitor_addc != usize::MAX {
            self.monitor_addc = self.monitor_addc + 1;
        }
    }

    pub fn incr_monitor_check_zero(&mut self)
        ensures
            final(self).monitor_check_zero == bump(old(self).monitor_check_zero),
            final(self).tick == tick_step(old(self).tick),
            final(self).summaries_due == due_step(old(self).tick, old(self).summaries_due),
            *final(self) == (Monitor {
                tick: final(self).tick,
                summaries_due: final(self).summaries_due,
                monitor_check_zero: final(self).monitor_check_zero,
                ..*old(self)
            }),
    {
        self.tick();
        if self.monitor_check_zero != usize::MAX {
            self.monitor_check_zero = self.monitor_check_zero + 1;
        }
    }

    pub fn incr_monitor_witness(&mut self)
        ensures
            final(self).monitor_witness == bump(old(self).monitor_witness),
            final(self).tick == tick_step(old(self).tick),
            final(self).summaries_due == due_step(old(self).tick, old(self).summaries_due),
            *final(self) == (Monitor {
                tick: final(self).tick,
                summaries_due: final(self).summaries_due,
                monitor_witness: final(self).monitor_witness,
                ..*old(self)
            }),
    {
        self.tick();
        if self.monitor_witness != usize::MAX {
            self.monitor_witness = self.monitor_witness + 1;
        }
    }

    /// Record how many triples one multiplication check covered.
    pub fn incr_zk_mult_check(&mut self, n: usize)
        ensures
            final(self).monitor_zk_mult_check == bump_by(old(self).monitor_zk_mult_check, n),
            *final(self) == (Monitor {
                monitor_zk_mult_check: final(self).monitor_zk_mult_check,
                ..*old(self)
            }),
    {
        if self.monitor_zk_mult_check > usize::MAX - n {
            self.monitor_zk_mult_check = usize::MAX;
        } else {
            self.monitor_zk_mult_check = self.monitor_zk_mult_check + n;
        }
    }

    /// Record how many values one batched zero check covered.
    pub fn incr_zk_check_zero(&mut self, n: usize)
        ensures
            final(self).monitor_zk_check_zero == bump_by(old(self).monitor_zk_check_zero, n),
            *final(self) == (Monitor {
                monitor_zk_check_zero: final(self).monitor_zk_check_zero,
                ..*old(self)
            }),
    {
        if self.monitor_zk_check_zero > usize::MAX - n {
            self.monitor_zk_check_zero = usize::MAX;
        } else {
            self.monitor_zk_check_zero = self.monitor_zk_check_zero + n;
        }
    }

    /// One-line progress summary.  Relies on std's `format!` macro for the
    /// rendering; the text is a pure function of the four counters, named
    /// `progress_text`.
    #[verifier::external_body]
    pub fn log_monitor(&self) -> (r: String)
        ensures
            r@ == progress_text(
                self.monitor_instance,
                self.monitor_witness,
                self.monitor_mul,
                self.monitor_check_zero,
            ),
    {
        format!(
            "inp:{:<11} witn:{:<11} mul:{:<11} czero:{:<11}",
            self.monitor_instance, self.monitor_witness, self.monitor_mul, self.monitor_check_zero,
        )
    }

    /// Collect one progress summary if the operation cadence has made one
    /// due; the cadence itself is pinned by `tick`.
    pub fn take_summary(&mut self) -> (r: Option<String>)
        ensures
            old(self).summaries_due == 0 ==> (r matches None && *final(self) == *old(self)),
            old(self).summaries_due > 0 ==> (r matches Some(s) && s@ == progress_text(
                old(self).monitor_instance,
                old(self).monitor_witness,
                old(self).monitor_mul,
                old(self).monitor_check_zero,
            ) && *final(self) == (Monitor {
                summaries_due: (old(self).summaries_due - 1) as usize,
                ..*old(self)
            })),
    {
        if self.summaries_due == 0 {
            None
        } else {
            self.summaries_due = self.summaries_due - 1;
            Some(self.log_monitor())
        }
    }

    /// Renders the mismatch warning line.  Relies on std's `format!`
    /// macro; the text is a pure function of the two counts, named
    /// `warn_text`.
    #[verifier::external_body]
    fn fmt_count_mismatch(mult_gates: usize, mult_checked: usize) -> (r: String)
        ensures
            r@ == warn_text(mult_gates, mult_checked),
    {
        format!(
            "warning: diff numb of mult gates {} and mult_check {}\n",
            mult_gates, mult_checked
        )
    }

    /// Renders the counter lines behind the given prefix.  Relies on std's
    /// `format!` macro; the text is a pure function of the prefix and the
    /// seven counters, named `counts_text`.
    #[verifier::external_body]
    fn fmt_counts(&self, warning: String) -> (r: String)
        ensures
            r@ == counts_text(
                warning@,
                self.monitor_instance,
                self.monitor_witness,
                self.monitor_addc,
                self.monitor_add,
                self.monitor_mulc,
                self.monitor_mul,
                self.monitor_check_zero,
            ),
    {
        format!(
            "{}nb inst: {}\nnb witn: {}\nnb addc: {}\nnb add: {}\nnb multc: {}\nnb mult: {}\nnb czero: {}",
            warning, self.monitor_instance, self.monitor_witness, self.monitor_addc,
            self.monitor_add, self.monitor_mulc, self.monitor_mul, self.monitor_check_zero,
        )
    }

    /// Final counter summary: the rendered counter block, prefixed by the
    /// mismatch warning exactly when the number of multiplication gates
    /// differs from the number of checked triples — a sanity diagnostic,
    /// not a protocol failure.
    pub fn log_final_monitor(&self) -> (r: String)
        ensures
            self.monitor_mul != self.monitor_zk_mult_check ==> r@ == counts_text(
                warn_text(self.monitor_mul, self.monitor_zk_mult_check),
                self.monitor_instance,
                self.monitor_witness,
                self.monitor_addc,
                self.monitor_add,
                self.monitor_mulc,
                self.monitor_mul,
                self.monitor_check_zero,
            ),
            self.monitor_mul == self.monitor_zk_mult_check ==> r@ == counts_text(
                Seq::<char>::empty(),
                self.monitor_instance,
                self.monitor_witness,
                self.monitor_addc,
                self.monitor_add,
                self.monitor_mulc,
                self.monitor_mul,
                self.monitor_check_zero,
            ),
    {
        let warning = if self.monitor_mul != self.monitor_zk_mult_check {
            Monitor::fmt_count_mismatch(self.monitor_mul, self.monitor_zk_mult_check)
        } else {
            String::new()
        };
        self.fmt_counts(warning)
    }
}


/// Two fresh words of operating-system randomness for the Verifier's seed.
/// Relies on `rand::random`, which draws from the thread-local generator;
/// nothing is promised about the outcome.
#[verifier::external_body]
fn sample_seed() -> (u64, u64) {
    (rand::random::<u64>(), rand::random::<u64>())
}

/// Two pseudorandom words drawn in lockstep by both roles.
pub open spec fn draw2(p: Prg) -> (u64, u64, Prg) {
    let w1 = xorshift_step(p.state);
    let w2 = xorshift_step(w1);
    (w1, w2, Prg { state: w2 })
}

/// A field element derived from the next two shared pseudorandom words.
pub open spec fn derive_el<FE: FiniteField>(p: Prg) -> (FE, Prg) {
    let (w1, w2, p2) = draw2(p);
    (FE::sfrom_u64s(w1, w2), p2)
}

fn draw_el<FE: FiniteField>(prg: &mut Prg) -> (r: FE)
    ensures
        r == derive_el::<FE>(*old(prg)).0,
        *final(prg) == derive_el::<FE>(*old(prg)).1,
        r.inv(),
{
    let w1 = prg.next();
    let w2 = prg.next();
    FE::from_u64s(w1, w2)
}

/// Authenticated value held by the Prover: the clear value (in the prime
/// subfield) together with its tag.
#[derive(Clone, Copy, PartialEq, Eq, Debug)]
pub struct MacProver<FE: FiniteField> {
    pub value: FE,
    pub tag: FE,
}

impl<FE: FiniteField> MacProver<FE> {
    pub open spec fn wf(self) -> bool {
        self.value.inv() && self.value.in_prime() && self.tag.inv()
    }

    pub fn new(value: FE, tag: FE) -> (r: Self)
        ensures
            r.value == value,
            r.tag == tag,
    {
        MacProver { value, tag }
    }

    /// The clear value.
    pub fn value(&self) -> (r: FE)
        ensures
            r == self.value,
    {
        self.value
    }

    /// The authentication tag.
    pub fn mac(&self) -> (r: FE)
        ensures
            r == self.tag,
    {
        self.tag
    }
}

/// Authenticated value held by the Verifier: only the key, never the clear
/// value.
#[derive(Clone, Copy, PartialEq, Eq, Debug)]
pub struct MacVerifier<FE: FiniteField> {
    pub key: FE,
}

impl<FE: FiniteField> MacVerifier<FE> {
    pub open spec fn wf(self) -> bool {
        self.key.inv()
    }

    pub fn new(key: FE) -> (r: Self)
        ensures
            r.key == key,
    {
        MacVerifier { key }
    }

    /// The authentication key.
    pub fn mac(&self) -> (r: FE)
        ensures
            r == self.key,
    {
        self.key
    }
}

/// The little-endian encoding of a sequence of tags, as the Prover sends
/// them during a batched zero check.
pub open spec fn encode_tags<FE: FiniteField>(s: Seq<MacProver<FE>>) -> Seq<u8>
    decreases s.len(),
{
    if s.len() == 0 {
        Seq::<u8>::empty()
    } else {
        encode_tags(s.drop_last()) + s.last().tag.sto_le()
    }
}

/// Every well-formed tag sequence encodes to `len * sbyte_len` bytes.
pub proof fn lemma_encode_tags_len<FE: FiniteField>(s: Seq<MacProver<FE>>)
    requires
        forall|i: int| 0 <= i < s.len() ==> (#[trigger] s[i]).wf(),
    ensures
        encode_tags(s).len() == s.len() * FE::sbyte_len(),
    decreases s.len(),
{
    if s.len() == 0 {
    } else {
        lemma_encode_tags_len(s.drop_last());
        FE::lemma_bytes_roundtrip(s.last().tag);
        assert((s.len() - 1) * FE::sbyte_len() + FE::sbyte_len() == s.len()
            * FE::sbyte_len()) by (nonlinear_arith);
    }
}

/// The `i`-th encoded tag sits at offset `i * sbyte_len`.
pub proof fn lemma_encode_tags_index<FE: FiniteField>(s: Seq<MacProver<FE>>, i: int)
    requires
        forall|j: int| 0 <= j < s.len() ==> (#[trigger] s[j]).wf(),
        0 <= i < s.len(),
    ensures
        encode_tags(s).subrange(
            i * FE::sbyte_len(),
            i * FE::sbyte_len() + FE::sbyte_len(),
        ) == s[i].tag.sto_le(),
    decreases s.len(),
{
    let ll = FE::sbyte_len() as int;
    FE::lemma_consts();
    lemma_encode_tags_len(s);
    lemma_encode_tags_len(s.drop_last());
    FE::lemma_bytes_roundtrip(s.last().tag);
    if i == s.len() - 1 {
        assert(encode_tags(s).subrange(i * ll, i * ll + ll) == s.last().tag.sto_le()) by {
            assert(i * ll == (s.len() - 1) * ll);
            assert(encode_tags(s) == encode_tags(s.drop_last()) + s.last().tag.sto_le());
            assert(encode_tags(s).subrange(i * ll, i * ll + ll) =~= s.last().tag.sto_le());
        }
    } else {
        lemma_encode_tags_index(s.drop_last(), i);
        assert(i * ll + ll <= (s.len() - 1) * ll) by (nonlinear_arith)
            requires
                0 <= i < s.len() - 1,
                ll >= 1,
        ;
        assert(encode_tags(s).subrange(i * ll, i * ll + ll) =~= encode_tags(
            s.drop_last(),
        ).subrange(i * ll, i * ll + ll));
        assert(s[i] == s.drop_last()[i]);
    }
}

/// Whether the bytes the Prover sent convince the Verifier that every
/// queued value is an authenticated zero: each chunk must decode to exactly
/// the corresponding key.
pub open spec fn zeros_accept<FE: FiniteField>(list: Seq<MacVerifier<FE>>, avail: Seq<u8>) -> bool {
    let ll = FE::sbyte_len() as int;
    &&& avail.len() >= list.len() * ll
    &&& forall|i: int|
        0 <= i < list.len() ==> {
            let chunk = #[trigger] avail.subrange(i * ll, i * ll + ll);
            FE::sdecodes(chunk) && FE::sfrom_le(chunk) == list[i].key
        }
}

/// Whether the aggregate the Prover sent satisfies the multiplication-check
/// equation `W = U - V * delta` against the Verifier's accumulated `W`.
pub open spec fn mult_accept<FE: FiniteField>(w: FE, delta: FE, avail: Seq<u8>) -> bool {
    let ll = FE::sbyte_len() as int;
    let cu = avail.subrange(0, ll);
    let cv = avail.subrange(ll, 2 * ll);
    &&& avail.len() >= 2 * ll
    &&& FE::sdecodes(cu)
    &&& FE::sdecodes(cv)
    &&& w == FE::sfrom_le(cu).sadd(((FE::sfrom_le(cv)).smul(delta)).sneg())
}

/// Prover half of the shared authentication context.
///
/// The context is a transparent dealer: both roles derive `delta` and the
/// per-input key stream from one seed exchanged at initialization, so every
/// authentication is local.  The hiding property of the real correlation
/// generator that this stands in for is outside the crate; what the
/// contracts state, and what the checks verify, is the authentication
/// algebra over those shared keys.
pub struct FComProver<FE: FiniteField> {
    pub delta: FE,
    pub keys: Prg,
}

/// Running state of the Prover's multiplication-consistency accumulator:
/// the challenge `chi`, its current power, the two aggregated sums, and the
/// number of triples accumulated since the last finalize or reset.
pub struct StateMultCheckProver<FE: FiniteField> {
    pub chi: FE,
    pub power: FE,
    pub sum_u: FE,
    pub sum_v: FE,
    pub count: usize,
}

impl<FE: FiniteField> StateMultCheckProver<FE> {
    pub open spec fn wf(self) -> bool {
        self.chi.inv() && self.power.inv() && self.sum_u.inv() && self.sum_v.inv()
    }

    /// The state right after initialization or a reset: empty sums, and the
    /// challenge power wound back to `chi` itself.
    pub open spec fn spec_reset(chi: FE) -> Self {
        StateMultCheckProver {
            chi,
            power: chi,
            sum_u: FE::szero(),
            sum_v: FE::szero(),
            count: 0,
        }
    }

    /// Draw the accumulator challenge from the shared generator.
    pub fn init(prg: &mut Prg) -> (r: Self)
        ensures
            r == Self::spec_reset(derive_el::<FE>(*old(prg)).0),
            *final(prg) == derive_el::<FE>(*old(prg)).1,
            r.wf(),
    {
        let chi: FE = draw_el(prg);
        proof {
            FE::lemma_consts();
        }
        StateMultCheckProver { chi, power: chi, sum_u: FE::zero(), sum_v: FE::zero(), count: 0 }
    }
}

/// Verifier half of the shared authentication context; see `FComProver`.
pub struct FComVerifier<FE: FiniteField> {
    pub delta: FE,
    pub keys: Prg,
}

/// Running state of the Verifier's multiplication-consistency accumulator.
pub struct StateMultCheckVerifier<FE: FiniteField> {
    pub chi: FE,
    pub power: FE,
    pub sum_w: FE,
    pub count: usize,
}

impl<FE: FiniteField> StateMultCheckVerifier<FE> {
    pub open spec fn wf(self) -> bool {
        self.chi.inv() && self.power.inv() && self.sum_w.inv()
    }

    /// The state right after initialization or a reset.
    pub open spec fn spec_reset(chi: FE) -> Self {
        StateMultCheckVerifier { chi, power: chi, sum_w: FE::szero(), count: 0 }
    }

    /// Draw the accumulator challenge from the shared generator.
    pub fn init(prg: &mut Prg) -> (r: Self)
        ensures
            r == Self::spec_reset(derive_el::<FE>(*old(prg)).0),
            *final(prg) == derive_el::<FE>(*old(prg)).1,
            r.wf(),
    {
        let chi: FE = draw_el(prg);
        proof {
            FE::lemma_consts();
        }
        StateMultCheckVerifier { chi, power: chi, sum_w: FE::zero(), count: 0 }
    }
}

impl<FE: FiniteField> FComProver<FE> {
    pub open spec fn wf(self) -> bool {
        self.delta.inv()
    }

    /// Authenticate one new clear value: draw the peer's key from the
    /// shared stream and tag the value with `k + x * delta`.
    pub fn input1(&mut self, x: FE) -> (t: FE)
        requires
            old(self).wf(),
            x.inv(),
        ensures
            final(self).delta == old(self).delta,
            *final(self) == (FComProver { keys: final(self).keys, ..*old(self) }),
            final(self).keys == derive_el::<FE>(old(self).keys).1,
            t == derive_el::<FE>(old(self).keys).0.sadd(x.smul(old(self).delta)),
            t.inv(),
    {
        let k: FE = draw_el(&mut self.keys);
        proof {
            FE::lemma_ops_closed(x, self.delta);
            FE::lemma_ops_closed(k, x.smul(self.delta));
        }
        k.add(x.mul(self.delta))
    }

    /// Local linear gate: add two authenticated values.
    pub fn add(&self, a: MacProver<FE>, b: MacProver<FE>) -> (r: MacProver<FE>)
        requires
            a.wf(),
            b.wf(),
        ensures
            r.value == a.value.sadd(b.value),
            r.tag == a.tag.sadd(b.tag),
            r.wf(),
    {
        proof {
            FE::lemma_ops_closed(a.value, b.value);
            FE::lemma_ops_closed(a.tag, b.tag);
        }
        MacProver { value: a.value.add(b.value), tag: a.tag.add(b.tag) }
    }

    /// Local affine gate: add a public constant; the tag is unchanged.
    pub fn affine_add_cst(&self, cst: FE, a: MacProver<FE>) -> (r: MacProver<FE>)
        requires
            a.wf(),
            cst.inv(),
            cst.in_prime(),
        ensures
            r.value == a.value.sadd(cst),
            r.tag == a.tag,
            r.wf(),
    {
        proof {
            FE::lemma_ops_closed(a.value, cst);
        }
        MacProver { value: a.value.add(cst), tag: a.tag }
    }

    /// Local affine gate: multiply by a public constant; value and tag are
    /// both scaled.
    pub fn affine_mult_cst(&self, cst: FE, a: MacProver<FE>) -> (r: MacProver<FE>)
        requires
            a.wf(),
            cst.inv(),
            cst.in_prime(),
        ensures
            r.value == a.value.smul(cst),
            r.tag == a.tag.smul(cst),
            r.wf(),
    {
        proof {
            FE::lemma_ops_closed(a.value, cst);
            FE::lemma_ops_closed(a.tag, cst);
        }
        MacProver { value: a.value.mul(cst), tag: a.tag.mul(cst) }
    }

    /// Batched zero proof, Prover side: send every queued tag, then check
    /// locally that every queued value really is zero.  Succeeds exactly on
    /// all-zero queues.
    pub fn check_zero(&self, ch: &mut Channel, list: &Vec<MacProver<FE>>) -> (r: Result<
        (),
        Error,
    >)
        requires
            old(ch).wf(),
            forall|i: int| 0 <= i < list@.len() ==> (#[trigger] list@[i]).wf(),
        ensures
            final(ch).wf(),
            final(ch).v2p == old(ch).v2p,
            final(ch).p2v.data@ == old(ch).p2v.data@ + encode_tags(list@),
            final(ch).p2v.flushed == final(ch).p2v.data@.len(),
            final(ch).p2v.consumed == old(ch).p2v.consumed,
            r matches Ok(()) <==> (forall|i: int|
                0 <= i < list@.len() ==> (#[trigger] list@[i]).value == FE::szero()),
            r matches Err(e) ==> e == Error::ProtocolError,
    {
        let ghost s = list@;
        let n = list.len();
        let mut all_zero = true;
        let mut i: usize = 0;
        while i < n
            invariant
                i <= n,
                n == s.len(),
                list@ == s,
                forall|j: int| 0 <= j < s.len() ==> (#[trigger] s[j]).wf(),
                ch.wf(),
                ch.v2p == old(ch).v2p,
                ch.p2v.data@ == old(ch).p2v.data@ + encode_tags(s.take(i as int)),
                ch.p2v.flushed == old(ch).p2v.flushed,
                ch.p2v.consumed == old(ch).p2v.consumed,
                all_zero == (forall|j: int| 0 <= j < i ==> (#[trigger] s[j]).value == FE::szero()),
            decreases n - i,
        {
            proof {
                FE::lemma_consts();
            }
            let e = list[i];
            let bytes = e.tag.to_le();
            ch.p2v.write(&bytes);
            if !e.value.eq_el(FE::zero()) {
                all_zero = false;
            }
            proof {
                assert(s.take(i + 1 as int).drop_last() =~= s.take(i as int));
                assert(s.take(i + 1 as int).last() == s[i as int]);
                assert(encode_tags(s.take(i + 1 as int)) == encode_tags(s.take(i as int))
                    + s[i as int].tag.sto_le());
            }
            i = i + 1;
        }
        proof {
            assert(s.take(n as int) == s);
        }
        ch.p2v.flush();
        if all_zero {
            Ok(())
        } else {
            Err(Error::ProtocolError)
        }
    }

    /// Append one multiplication triple to the running accumulator.
    pub fn quicksilver_push(
        &self,
        state: &mut StateMultCheckProver<FE>,
        triple: &(MacProver<FE>, MacProver<FE>, MacProver<FE>),
    ) -> (r: Result<(), Error>)
        requires
            old(state).wf(),
            triple.0.wf(),
            triple.1.wf(),
            triple.2.wf(),
        ensures
            ({
                let a0 = triple.0.tag.smul(triple.1.tag);
                let a1 = ((triple.0.value.smul(triple.1.tag)).sadd(
                    triple.1.value.smul(triple.0.tag),
                )).sadd(triple.2.tag.sneg());
                &&& final(state).sum_u == old(state).sum_u.sadd(old(state).power.smul(a0))
                &&& final(state).sum_v == old(state).sum_v.sadd(old(state).power.smul(a1))
                &&& final(state).power == old(state).power.smul(old(state).chi)
                &&& final(state).chi == old(state).chi
                &&& final(state).count == bump(old(state).count)
                &&& final(state).wf()
                &&& r matches Ok(())
            }),
    {
        let (a, b, c) = triple;
        proof {
            FE::lemma_ops_closed(a.tag, b.tag);
            FE::lemma_ops_closed(a.value, b.tag);
            FE::lemma_ops_closed(b.value, a.tag);
            FE::lemma_ops_closed(c.tag, c.tag);
            FE::lemma_ops_closed(a.value.smul(b.tag), b.value.smul(a.tag));
            FE::lemma_ops_closed((a.value.smul(b.tag)).sadd(b.value.smul(a.tag)), c.tag.sneg());
        }
        let a0 = a.tag.mul(b.tag);
        let a1 = (a.value.mul(b.tag)).add(b.value.mul(a.tag)).add(c.tag.neg());
        proof {
            FE::lemma_ops_closed(state.power, a0);
            FE::lemma_ops_closed(state.power, a1);
            FE::lemma_ops_closed(state.sum_u, state.power.smul(a0));
            FE::lemma_ops_closed(state.sum_v, state.power.smul(a1));
            FE::lemma_ops_closed(state.power, state.chi);
        }
        state.sum_u = state.sum_u.add(state.power.mul(a0));
        state.sum_v = state.sum_v.add(state.power.mul(a1));
        state.power = state.power.mul(state.chi);
        if state.count != usize::MAX {
            state.count = state.count + 1;
        }
        Ok(())
    }

    /// Close the accumulator: send the two aggregates, reset the state, and
    /// report how many triples the check covered.
    pub fn quicksilver_finalize(&self, ch: &mut Channel, state: &mut StateMultCheckProver<
        FE,
    >) -> (r: usize)
        requires
            old(ch).wf(),
            old(state).wf(),
        ensures
            final(ch).wf(),
            final(ch).v2p == old(ch).v2p,
            final(ch).p2v.data@ == old(ch).p2v.data@ + old(state).sum_u.sto_le() + old(state).sum_v.sto_le(),
            final(ch).p2v.flushed == final(ch).p2v.data@.len(),
            final(ch).p2v.consumed == old(ch).p2v.consumed,
            *final(state) == StateMultCheckProver::spec_reset(old(state).chi),
            r == old(state).count,
    {
        let bu = state.sum_u.to_le();
        let bv = state.sum_v.to_le();
        ch.p2v.write(&bu);
        ch.p2v.write(&bv);
        ch.p2v.flush();
        let cnt = state.count;
        state.sum_u = FE::zero();
        state.sum_v = FE::zero();
        state.power = state.chi;
        state.count = 0;
        cnt
    }

    /// Reinitialize the accumulator for a fresh epoch.
    pub fn reset(&self, state: &mut StateMultCheckProver<FE>)
        ensures
            *final(state) == StateMultCheckProver::spec_reset(old(state).chi),
    {
        state.sum_u = FE::zero();
        state.sum_v = FE::zero();
        state.power = state.chi;
        state.count = 0;
    }
}

impl<FE: FiniteField> FComVerifier<FE> {
    pub open spec fn wf(self) -> bool {
        self.delta.inv()
    }

    /// The Verifier's long-lived key component.
    pub fn get_delta(&self) -> (r: FE)
        ensures
            r == self.delta,
    {
        self.delta
    }

    /// Authenticate one new value: the key is the next element of the
    /// shared stream.
    pub fn input1(&mut self) -> (r: MacVerifier<FE>)
        requires
            old(self).wf(),
        ensures
            final(self).delta == old(self).delta,
            final(self).keys == derive_el::<FE>(old(self).keys).1,
            r.key == derive_el::<FE>(old(self).keys).0,
            r.wf(),
    {
        let k: FE = draw_el(&mut self.keys);
        MacVerifier { key: k }
    }

    /// Local linear gate: add two authenticated values.
    pub fn add(&self, a: MacVerifier<FE>, b: MacVerifier<FE>) -> (r: MacVerifier<FE>)
        requires
            a.wf(),
            b.wf(),
        ensures
            r.key == a.key.sadd(b.key),
            r.wf(),
    {
        proof {
            FE::lemma_ops_closed(a.key, b.key);
        }
        MacVerifier { key: a.key.add(b.key) }
    }

    /// Local affine gate: add a public constant; the key shifts by
    /// `-cst * delta`.
    pub fn affine_add_cst(&self, cst: FE, a: MacVerifier<FE>) -> (r: MacVerifier<FE>)
        requires
            self.wf(),
            a.wf(),
            cst.inv(),
        ensures
            r.key == a.key.sadd((cst.smul(self.delta)).sneg()),
            r.wf(),
    {
        proof {
            FE::lemma_ops_closed(cst, self.delta);
            FE::lemma_ops_closed(cst.smul(self.delta), cst);
            FE::lemma_ops_closed(a.key, (cst.smul(self.delta)).sneg());
        }
        MacVerifier { key: a.key.add((cst.mul(self.delta)).neg()) }
    }

    /// Local affine gate: multiply by a public constant; the key is scaled.
    pub fn affine_mult_cst(&self, cst: FE, a: MacVerifier<FE>) -> (r: MacVerifier<FE>)
        requires
            a.wf(),
            cst.inv(),
        ensures
            r.key == a.key.smul(cst),
            r.wf(),
    {
        proof {
            FE::lemma_ops_closed(a.key, cst);
        }
        MacVerifier { key: a.key.mul(cst) }
    }

    /// Batched zero proof, Verifier side: read one tag per queued value and
    /// accept exactly when every tag equals the corresponding key.
    pub fn check_zero(&self, ch: &mut Channel, list: &Vec<MacVerifier<FE>>) -> (r: Result<
        (),
        Error,
    >)
        requires
            old(ch).wf(),
            list@.len() <= QUEUE_CAPACITY,
            forall|i: int| 0 <= i < list@.len() ==> (#[trigger] list@[i]).wf(),
        ensures
            final(ch).wf(),
            final(ch).v2p == old(ch).v2p,
            final(ch).p2v.data@ == old(ch).p2v.data@,
            final(ch).p2v.flushed == old(ch).p2v.flushed,
            r matches Ok(()) <==> zeros_accept(list@, old(ch).p2v.available()),
            r matches Err(e) ==> e == Error::ProtocolError,
            old(ch).p2v.available().len() >= list@.len() * FE::sbyte_len() ==> final(ch).p2v.consumed == old(ch).p2v.consumed + list@.len() * FE::sbyte_len(),
            old(ch).p2v.available().len() < list@.len() * FE::sbyte_len() ==> final(ch).p2v.consumed == old(ch).p2v.consumed,
    {
        let ghost s = list@;
        let ghost avail = old(ch).p2v.available();
        let n = list.len();
        let ll = FE::byte_len();
        proof {
            FE::lemma_consts();
            lemma_mul_upper_bound(n as int, QUEUE_CAPACITY as int, ll as int, 64);
        }
        let total = n * ll;
        match ch.p2v.read_exact(total) {
            None => Err(Error::ProtocolError),
            Some(buf) => {
                let ghost bufs = buf@;
                proof {
                    assert(bufs == avail.take(total as int));
                }
                let mut ok = true;
                let mut i: usize = 0;
                while i < n
                    invariant
                        i <= n,
                        n == s.len(),
                        list@ == s,
                        forall|j: int| 0 <= j < s.len() ==> (#[trigger] s[j]).wf(),
                        ll == FE::sbyte_len(),
                        1 <= ll <= 64,
                        total == n * ll,
                        buf@ == bufs,
                        bufs.len() == total,
                        avail.len() >= total,
                        bufs == avail.take(total as int),
                        ok == (forall|j: int|
                            0 <= j < i ==> {
                                let chunk = #[trigger] avail.subrange(
                                    j * ll as int,
                                    j * ll + ll as int,
                                );
                                FE::sdecodes(chunk) && FE::sfrom_le(chunk) == s[j].key
                            }),
                    decreases n - i,
                {
                    proof {
                        assert((i + 1) * ll <= n * ll && i * ll >= 0 && i * ll + ll == (i + 1)
                            * ll) by (nonlinear_arith)
                            requires
                                0 <= i < n,
                                ll >= 1,
                        ;
                        assert(bufs.subrange(i * ll as int, i * ll + ll as int) =~= avail.subrange(
                            i * ll as int,
                            i * ll + ll as int,
                        ));
                    }
                    let chunk = slice_subrange(buf.as_slice(), i * ll, i * ll + ll);
                    let good = match FE::from_le(chunk) {
                        Ok(t) => t.eq_el(list[i].key),
                        Err(_) => false,
                    };
                    if !good {
                        ok = false;
                    }
                    i = i + 1;
                }
                if ok {
                    Ok(())
                } else {
                    Err(Error::ProtocolError)
                }
            },
        }
    }

    /// Append one multiplication triple to the running accumulator.
    pub fn quicksilver_push(
        &self,
        state: &mut StateMultCheckVerifier<FE>,
        triple: &(MacVerifier<FE>, MacVerifier<FE>, MacVerifier<FE>),
    ) -> (r: Result<(), Error>)
        requires
            self.wf(),
            old(state).wf(),
            triple.0.wf(),
            triple.1.wf(),
            triple.2.wf(),
        ensures
            ({
                let b0 = (triple.0.key.smul(triple.1.key)).sadd(triple.2.key.smul(self.delta));
                &&& final(state).sum_w == old(state).sum_w.sadd(old(state).power.smul(b0))
                &&& final(state).power == old(state).power.smul(old(state).chi)
                &&& final(state).chi == old(state).chi
                &&& final(state).count == bump(old(state).count)
                &&& final(state).wf()
                &&& r matches Ok(())
            }),
    {
        let (a, b, c) = triple;
        proof {
            FE::lemma_ops_closed(a.key, b.key);
            FE::lemma_ops_closed(c.key, self.delta);
            FE::lemma_ops_closed(a.key.smul(b.key), c.key.smul(self.delta));
        }
        let b0 = (a.key.mul(b.key)).add(c.key.mul(self.delta));
        proof {
            FE::lemma_ops_closed(state.power, b0);
            FE::lemma_ops_closed(state.sum_w, state.power.smul(b0));
            FE::lemma_ops_closed(state.power, state.chi);
        }
        state.sum_w = state.sum_w.add(state.power.mul(b0));
        state.power = state.power.mul(state.chi);
        if state.count != usize::MAX {
            state.count = state.count + 1;
        }
        Ok(())
    }

    /// Close the accumulator: read the Prover's aggregates and accept
    /// exactly when they satisfy `W = U - V * delta`; the state resets
    /// either way.
    pub fn quicksilver_finalize(&self, ch: &mut Channel, state: &mut StateMultCheckVerifier<
        FE,
    >) -> (r: Result<usize, Error>)
        requires
            self.wf(),
            old(ch).wf(),
            old(state).wf(),
        ensures
            final(ch).wf(),
            final(ch).v2p == old(ch).v2p,
            final(ch).p2v.data@ == old(ch).p2v.data@,
            final(ch).p2v.flushed == old(ch).p2v.flushed,
            r matches Ok(c) ==> c == old(state).count && mult_accept(
                old(state).sum_w,
                self.delta,
                old(ch).p2v.available(),
            ),
            r matches Err(e) ==> e == Error::ProtocolError && !mult_accept(
                old(state).sum_w,
                self.delta,
                old(ch).p2v.available(),
            ),
            *final(state) == StateMultCheckVerifier::spec_reset(old(state).chi),
            old(ch).p2v.available().len() >= 2 * FE::sbyte_len() ==> final(ch).p2v.consumed == old(ch).p2v.consumed + 2 * FE::sbyte_len(),
            old(ch).p2v.available().len() < 2 * FE::sbyte_len() ==> final(ch).p2v.consumed == old(ch).p2v.consumed,
    {
        let ghost avail = old(ch).p2v.available();
        let ll = FE::byte_len();
        proof {
            FE::lemma_consts();
        }
        let cnt = state.count;
        let w = state.sum_w;
        state.sum_w = FE::zero();
        state.power = state.chi;
        state.count = 0;
        match ch.p2v.read_exact(2 * ll) {
            None => Err(Error::ProtocolError),
            Some(buf) => {
                proof {
                    assert(buf@.subrange(0, ll as int) =~= avail.subrange(0, ll as int));
                    assert(buf@.subrange(ll as int, 2 * ll as int) =~= avail.subrange(
                        ll as int,
                        2 * ll as int,
                    ));
                }
                let cu = slice_subrange(buf.as_slice(), 0, ll);
                let cv = slice_subrange(buf.as_slice(), ll, 2 * ll);
                let u = match FE::from_le(cu) {
                    Ok(u) => u,
                    Err(_) => {
                        return Err(Error::ProtocolError);
                    },
                };
                let v = match FE::from_le(cv) {
                    Ok(v) => v,
                    Err(_) => {
                        return Err(Error::ProtocolError);
                    },
                };
                proof {
                    FE::lemma_ops_closed(v, self.delta);
                    FE::lemma_ops_closed(v.smul(self.delta), v);
                    FE::lemma_ops_closed(u, (v.smul(self.delta)).sneg());
                }
                if w.eq_el(u.add((v.mul(self.delta)).neg())) {
                    Ok(cnt)
                } else {
                    Err(Error::ProtocolError)
                }
            },
        }
    }

    /// Reinitialize the accumulator for a fresh epoch.
    pub fn reset(&self, state: &mut StateMultCheckVerifier<FE>)
        ensures
            *final(state) == StateMultCheckVerifier::spec_reset(old(state).chi),
    {
        state.sum_w = FE::zero();
        state.power = state.chi;
        state.count = 0;
    }
}

/// The significant length of a little-endian buffer: its length with
/// trailing zero bytes stripped.
pub open spec fn significant_len(s: Seq<u8>) -> int
    decreases s.len(),
{
    if s.len() == 0 {
        0
    } else if s.last() == 0 {
        significant_len(s.drop_last())
    } else {
        s.len() as int
    }
}

pub proof fn lemma_significant_len_le<FE>(s: Seq<u8>)
    ensures
        0 <= significant_len(s) <= s.len(),
    decreases s.len(),
{
    if s.len() > 0 {
        lemma_significant_len_le::<FE>(s.drop_last());
    }
}

/// The significant prefix zero-extended to the field's canonical length.
pub open spec fn zero_padded<FE: FiniteField>(s: Seq<u8>) -> Seq<u8> {
    s.take(significant_len(s)) + Seq::<u8>::new(
        (FE::sbyte_len() - significant_len(s)) as nat,
        |i: int| 0u8,
    )
}

/// What decoding a little-endian buffer yields: an encoding error when the
/// significant length exceeds the canonical length or when the padded
/// buffer is not a canonical element, and the decoded element otherwise.
pub open spec fn spec_from_bytes_le<FE: FiniteField>(s: Seq<u8>) -> Result<FE, Error> {
    if significant_len(s) > FE::sbyte_len() {
        Err(Error::EncodingError)
    } else if !FE::sdecodes(zero_padded::<FE>(s)) {
        Err(Error::EncodingError)
    } else {
        Ok(FE::sfrom_le(zero_padded::<FE>(s)))
    }
}

/// Strip trailing zero bytes, zero-extend the significant prefix to the
/// canonical length, and decode it.
fn padded_read<FE: FiniteField>(val: &[u8]) -> (r: Result<FE, Error>)
    ensures
        r == spec_from_bytes_le::<FE>(val@),
        r matches Ok(e) ==> e.inv(),
{
    proof {
        FE::lemma_consts();
        lemma_significant_len_le::<FE>(val@);
        assert(val@.take(val@.len() as int) == val@);
    }
    let mut end: usize = val.len();
    while end > 0 && *slice_index_get(val, end - 1) == 0
        invariant
            end <= val@.len(),
            significant_len(val@.take(end as int)) == significant_len(val@),
        decreases end,
    {
        proof {
            assert(val@.take(end as int).drop_last() =~= val@.take(end - 1 as int));
        }
        end = end - 1;
    }
    proof {
        assert(significant_len(val@.take(end as int)) == end) by {
            if end > 0 {
                assert(val@.take(end as int).last() == val@[end - 1]);
            }
        }
        lemma_significant_len_le::<FE>(val@);
    }
    let ll = FE::byte_len();
    if end > ll {
        return Err(Error::EncodingError);
    }
    let mut out: Vec<u8> = Vec::new();
    let mut i: usize = 0;
    while i < end
        invariant
            i <= end,
            end <= val@.len(),
            out@ == val@.take(end as int).take(i as int),
        decreases end - i,
    {
        let b = *slice_index_get(val, i);
        out.push(b);
        proof {
            let pre = val@.take(end as int);
            assert(pre.take(i + 1 as int) == pre.take(i as int).push(pre[i as int]));
        }
        i = i + 1;
    }
    proof {
        assert(val@.take(end as int).take(end as int) == val@.take(end as int));
    }
    while out.len() < ll
        invariant
            out@.len() <= ll,
            ll == FE::sbyte_len(),
            end as int == significant_len(val@),
            end <= out@.len(),
            out@ == val@.take(end as int) + Seq::<u8>::new((out@.len() - end) as nat, |j: int| 0u8),
        decreases ll - out@.len(),
    {
        out.push(0u8);
        proof {
            assert(val@.take(end as int) + Seq::<u8>::new((out@.len() - end) as nat, |j: int| 0u8)
                =~= (val@.take(end as int) + Seq::<u8>::new(
                (out@.len() - 1 - end) as nat,
                |j: int| 0u8,
            )).push(0u8));
        }
    }
    proof {
        assert(out@ =~= zero_padded::<FE>(val@));
    }
    FE::from_le(out.as_slice())
}

/// Converts a little-endian byte slice to a field element.  The byte slice
/// may be zero padded: any run of trailing zero bytes is ignored, and the
/// significant prefix must fit the field's canonical encoded length.
pub fn from_bytes_le<FE: FiniteField>(val: &[u8]) -> (r: Result<FE, Error>)
    ensures
        r == spec_from_bytes_le::<FE>(val@),
        r matches Ok(e) ==> e.inv(),
{
    padded_read(val)
}


/// The shared context both roles derive from one 16-byte seed: `delta`
/// (forced away from zero), the accumulator challenge, and the key-stream
/// generator positioned after both draws.
pub open spec fn seed_ctx<FE: FiniteField>(w1: u64, w2: u64) -> (FE, FE, Prg) {
    let p0 = Prg::spec_seeded(w1, w2);
    let (d0, p1) = derive_el::<FE>(p0);
    let delta = if d0 == FE::szero() {
        FE::sone()
    } else {
        d0
    };
    let (chi, p2) = derive_el::<FE>(p1);
    (delta, chi, p2)
}

/// A monitor with every counter at zero.
pub open spec fn monitor_zero() -> Monitor {
    Monitor {
        tick: 0,
        summaries_due: 0,
        monitor_instance: 0,
        monitor_witness: 0,
        monitor_mul: 0,
        monitor_mulc: 0,
        monitor_add: 0,
        monitor_addc: 0,
        monitor_check_zero: 0,
        monitor_zk_check_zero: 0,
        monitor_zk_mult_check: 0,
    }
}

fn derive_context<FE: FiniteField>(w1: u64, w2: u64) -> (r: (FE, Prg))
    ensures
        ({
            let (delta, chi, keys) = seed_ctx::<FE>(w1, w2);
            &&& r.0 == delta
            &&& r.0.inv()
            &&& r.0 != FE::szero()
        }),
        r.1 == derive_el::<FE>(Prg::spec_seeded(w1, w2)).1,
{
    let mut prg = Prg::seeded(w1, w2);
    let d0: FE = draw_el(&mut prg);
    proof {
        FE::lemma_consts();
    }
    let delta = if d0.eq_el(FE::zero()) {
        FE::one()
    } else {
        d0
    };
    (delta, prg)
}

/// Prover role of the circuit-evaluation engine.
pub struct DietMacAndCheeseProver<FE: FiniteField> {
    pub is_ok: bool,
    pub prover: FComProver<FE>,
    pub check_zero_list: Vec<MacProver<FE>>,
    pub monitor: Monitor,
    pub state_mult_check: StateMultCheckProver<FE>,
    pub no_batching: bool,
}

impl<FE: FiniteField> DietMacAndCheeseProver<FE> {
    /// Well-formedness up to a full queue, as it may stand right before a
    /// forced flush.
    pub open spec fn wf_full(self) -> bool {
        &&& self.prover.wf()
        &&& self.prover.delta != FE::szero()
        &&& self.state_mult_check.wf()
        &&& self.check_zero_list@.len() <= QUEUE_CAPACITY
        &&& forall|i: int|
            0 <= i < self.check_zero_list@.len() ==> (#[trigger] self.check_zero_list@[i]).wf()
    }

    pub open spec fn wf(self) -> bool {
        &&& self.wf_full()
        &&& self.check_zero_list@.len() < QUEUE_CAPACITY
    }

    /// Initialize by reading the Verifier's seed from the channel; fails
    /// with a protocol error when the seed has not arrived.
    pub fn init(channel: &mut Channel, no_batching: bool) -> (r: Result<Self, Error>)
        requires
            old(channel).wf(),
        ensures
            final(channel).wf(),
            final(channel).p2v == old(channel).p2v,
            final(channel).v2p.data@ == old(channel).v2p.data@,
            final(channel).v2p.flushed == old(channel).v2p.flushed,
            old(channel).v2p.available().len() < 16 ==> (r matches Err(e) && e
                == Error::ProtocolError && final(channel).v2p.consumed == old(channel).v2p.consumed),
            old(channel).v2p.available().len() >= 16 ==> (final(channel).v2p.consumed == old(channel).v2p.consumed + 16 && (r matches Ok(p) && {
                let seed = old(channel).v2p.available().take(16);
                let w1 = vstd::bytes::spec_u64_from_le_bytes(seed.subrange(0, 8));
                let w2 = vstd::bytes::spec_u64_from_le_bytes(seed.subrange(8, 16));
                let (delta, chi, keys) = seed_ctx::<FE>(w1, w2);
                &&& p.is_ok == true
                &&& p.no_batching == no_batching
                &&& p.prover.delta == delta
                &&& p.prover.keys == keys
                &&& p.check_zero_list@.len() == 0
                &&& p.monitor == monitor_zero()
                &&& p.state_mult_check == StateMultCheckProver::spec_reset(chi)
                &&& p.wf()
            })),
    {
        let buf = match channel.v2p.read_exact(16) {
            None => {
                return Err(Error::ProtocolError);
            },
            Some(b) => b,
        };
        proof {
            let seed = old(channel).v2p.available().take(16);
            assert(buf@.subrange(0, 8) =~= seed.subrange(0, 8));
            assert(buf@.subrange(8, 16) =~= seed.subrange(8, 16));
        }
        let w1 = vstd::bytes::u64_from_le_bytes(slice_subrange(buf.as_slice(), 0, 8));
        let w2 = vstd::bytes::u64_from_le_bytes(slice_subrange(buf.as_slice(), 8, 16));
        let (delta, mut prg) = derive_context::<FE>(w1, w2);
        let state_mult_check = StateMultCheckProver::init(&mut prg);
        Ok(DietMacAndCheeseProver {
            is_ok: true,
            prover: FComProver { delta, keys: prg },
            check_zero_list: Vec::new(),
            monitor: Monitor::default(),
            state_mult_check,
            no_batching,
        })
    }

    /// Initialize against an existing authentication context, so that
    /// several proof segments can share one key stream and `delta`.  The
    /// context is moved in, not handed out as a refcounted handle: segments
    /// reuse it one after another, never interleaved.
    pub fn init_with_fcom(fcom: FComProver<FE>, no_batching: bool) -> (r: Self)
        requires
            fcom.wf(),
            fcom.delta != FE::szero(),
        ensures
            r.is_ok == true,
            r.no_batching == no_batching,
            r.prover.delta == fcom.delta,
            r.prover.keys == derive_el::<FE>(fcom.keys).1,
            r.check_zero_list@.len() == 0,
            r.monitor == monitor_zero(),
            r.state_mult_check == StateMultCheckProver::spec_reset(
                derive_el::<FE>(fcom.keys).0,
            ),
            r.wf(),
    {
        let mut fcom = fcom;
        let state_mult_check = StateMultCheckProver::init(&mut fcom.keys);
        DietMacAndCheeseProver {
            is_ok: true,
            prover: fcom,
            check_zero_list: Vec::new(),
            monitor: Monitor::default(),
            state_mult_check,
            no_batching,
        }
    }

    /// The shared authentication context this evaluator runs over.
    pub fn get_party(&self) -> (r: &FComProver<FE>)
        ensures
            r == &self.prover,
    {
        &self.prover
    }

    /// Every public operation starts here: a poisoned evaluator refuses to
    /// do anything until it is reset.
    pub fn check_is_ok(&self) -> (r: Result<(), Error>)
        ensures
            r matches Ok(()) <==> self.is_ok,
            r matches Err(e) ==> e == Error::StateError,
    {
        if !self.is_ok {
            return Err(Error::StateError);
        }
        Ok(())
    }

    /// Authenticate one clear value through the shared context.
    fn input(&mut self, v: FE) -> (r: Result<MacProver<FE>, Error>)
        requires
            old(self).wf(),
            v.inv(),
            v.in_prime(),
        ensures
            final(self).wf(),
            *final(self) == (DietMacAndCheeseProver {
                prover: final(self).prover,
                ..*old(self)
            }),
            final(self).prover.delta == old(self).prover.delta,
            final(self).prover.keys == derive_el::<FE>(old(self).prover.keys).1,
            r matches Ok(m) && (m.value == v && m.tag == derive_el::<FE>(
                old(self).prover.keys,
            ).0.sadd(v.smul(old(self).prover.delta)) && m.wf()),
    {
        let tag = self.prover.input1(v);
        Ok(MacProver::new(v, tag))
    }

    /// Run the multiplication check: send the aggregates and report how
    /// many triples were covered.
    pub fn do_mult_check(&mut self, ch: &mut Channel) -> (r: Result<usize, Error>)
        requires
            old(self).wf(),
            old(ch).wf(),
        ensures
            final(self).wf(),
            final(ch).wf(),
            final(ch).v2p == old(ch).v2p,
            final(ch).p2v.data@ == old(ch).p2v.data@ + old(self).state_mult_check.sum_u.sto_le()
                + old(self).state_mult_check.sum_v.sto_le(),
            final(ch).p2v.flushed == final(ch).p2v.data@.len(),
            final(ch).p2v.consumed == old(ch).p2v.consumed,
            r matches Ok(c) && c == old(self).state_mult_check.count,
            final(self).state_mult_check == StateMultCheckProver::spec_reset(
                old(self).state_mult_check.chi,
            ),
            final(self).monitor == (Monitor {
                monitor_zk_mult_check: bump_by(
                    old(self).monitor.monitor_zk_mult_check,
                    old(self).state_mult_check.count,
                ),
                ..old(self).monitor
            }),
            *final(self) == (DietMacAndCheeseProver {
                state_mult_check: final(self).state_mult_check,
                monitor: final(self).monitor,
                ..*old(self)
            }),
    {
        proof {
            FE::lemma_consts();
        }
        ch.p2v.flush();
        let cnt = self.prover.quicksilver_finalize(ch, &mut self.state_mult_check);
        self.monitor.incr_zk_mult_check(cnt);
        Ok(cnt)
    }

    /// Flush the pending zero-assertions in one batch.  The queue is
    /// cleared whatever the outcome; failure poisons the evaluator.
    pub fn do_check_zero(&mut self, ch: &mut Channel) -> (r: Result<(), Error>)
        requires
            old(self).wf_full(),
            old(ch).wf(),
        ensures
            final(self).wf(),
            final(ch).wf(),
            final(ch).v2p == old(ch).v2p,
            final(ch).p2v.data@ == old(ch).p2v.data@ + encode_tags(old(self).check_zero_list@),
            final(ch).p2v.flushed == final(ch).p2v.data@.len(),
            final(ch).p2v.consumed == old(ch).p2v.consumed,
            r matches Ok(()) <==> (forall|i: int|
                0 <= i < old(self).check_zero_list@.len() ==> (#[trigger] old(self).check_zero_list@[i]).value == FE::szero()),
            r matches Err(e) ==> e == Error::ProtocolError,
            final(self).is_ok == (old(self).is_ok && (r matches Ok(()))),
            final(self).check_zero_list@.len() == 0,
            final(self).monitor == (Monitor {
                monitor_zk_check_zero: bump_by(
                    old(self).monitor.monitor_zk_check_zero,
                    old(self).check_zero_list@.len() as usize,
                ),
                ..old(self).monitor
            }),
            *final(self) == (DietMacAndCheeseProver {
                is_ok: final(self).is_ok,
                check_zero_list: final(self).check_zero_list,
                monitor: final(self).monitor,
                ..*old(self)
            }),
    {
        proof {
            FE::lemma_consts();
        }
        ch.p2v.flush();
        let r = self.prover.check_zero(ch, &self.check_zero_list);
        if r.is_err() {
            self.is_ok = false;
        }
        let n = self.check_zero_list.len();
        self.monitor.incr_zk_check_zero(n);
        self.check_zero_list.clear();
        r
    }

    /// Enqueue one zero-assertion; flush when the queue is full or the
    /// evaluator runs in immediate mode.
    fn push_check_zero_list(&mut self, ch: &mut Channel, e: MacProver<FE>) -> (r: Result<
        (),
        Error,
    >)
        requires
            old(self).wf(),
            old(ch).wf(),
            e.wf(),
        ensures
            final(self).wf(),
            final(ch).wf(),
            final(ch).v2p == old(ch).v2p,
            !(old(self).check_zero_list@.len() + 1 == QUEUE_CAPACITY || old(self).no_batching)
                ==> (*final(ch) == *old(ch) && (r matches Ok(())) && final(self).is_ok == old(self).is_ok && final(self).check_zero_list@ == old(self).check_zero_list@.push(e)
                && *final(self) == (DietMacAndCheeseProver {
                check_zero_list: final(self).check_zero_list,
                ..*old(self)
            })),
            (old(self).check_zero_list@.len() + 1 == QUEUE_CAPACITY || old(self).no_batching)
                ==> ((r matches Ok(()) <==> (forall|i: int|
                0 <= i < old(self).check_zero_list@.push(e).len() ==> (#[trigger] old(self).check_zero_list@.push(e)[i]).value == FE::szero())) && final(self).is_ok == (
            old(self).is_ok && (r matches Ok(()))) && final(self).check_zero_list@.len() == 0
                && final(ch).p2v.data@ == old(ch).p2v.data@ + encode_tags(
                old(self).check_zero_list@.push(e),
            ) && final(ch).p2v.flushed == final(ch).p2v.data@.len() && final(ch).p2v.consumed
                == old(ch).p2v.consumed && final(self).state_mult_check == old(self).state_mult_check && final(self).prover == old(self).prover && final(self).no_batching == old(self).no_batching && final(self).monitor == (Monitor {
                monitor_zk_check_zero: bump_by(
                    old(self).monitor.monitor_zk_check_zero,
                    (old(self).check_zero_list@.len() + 1) as usize,
                ),
                ..old(self).monitor
            })),
            r matches Err(er) ==> er == Error::ProtocolError,
    {
        self.check_zero_list.push(e);
        if self.check_zero_list.len() == QUEUE_CAPACITY || self.no_batching {
            self.do_check_zero(ch)
        } else {
            Ok(())
        }
    }

    /// Assert that an authenticated value is zero; the proof itself is
    /// deferred to the next batch flush.
    pub fn assert_zero(&mut self, ch: &mut Channel, value: &MacProver<FE>) -> (r: Result<
        (),
        Error,
    >)
        requires
            old(self).wf(),
            old(ch).wf(),
            value.wf(),
        ensures
            final(self).wf(),
            final(ch).wf(),
            !old(self).is_ok ==> (r matches Err(e) && e == Error::StateError && *final(self)
                == *old(self) && *final(ch) == *old(ch)),
            old(self).is_ok ==> final(self).monitor == (Monitor {
                tick: final(self).monitor.tick,
                summaries_due: final(self).monitor.summaries_due,
                monitor_check_zero: bump(old(self).monitor.monitor_check_zero),
                monitor_zk_check_zero: final(self).monitor.monitor_zk_check_zero,
                ..old(self).monitor
            }),
            old(self).is_ok && !(old(self).check_zero_list@.len() + 1 == QUEUE_CAPACITY || old(self).no_batching) ==> (*final(ch) == *old(ch) && (r matches Ok(())) && final(self).is_ok
                && final(self).check_zero_list@ == old(self).check_zero_list@.push(*value)
                && final(self).prover == old(self).prover && final(self).state_mult_check == old(self).state_mult_check),
            old(self).is_ok && (old(self).check_zero_list@.len() + 1 == QUEUE_CAPACITY || old(self).no_batching) ==> ((r matches Ok(()) <==> (forall|i: int|
                0 <= i < old(self).check_zero_list@.push(*value).len() ==> (#[trigger] old(self).check_zero_list@.push(*value)[i]).value == FE::szero())) && final(self).is_ok
                == (r matches Ok(())) && final(self).check_zero_list@.len() == 0 && final(ch).p2v.data@ == old(ch).p2v.data@ + encode_tags(old(self).check_zero_list@.push(*value))
                && final(ch).p2v.flushed == final(ch).p2v.data@.len() && final(ch).p2v.consumed
                == old(ch).p2v.consumed && final(ch).v2p == old(ch).v2p && final(self).state_mult_check == old(self).state_mult_check && final(self).prover == old(self).prover),
            old(self).is_ok ==> (r matches Err(e) ==> e == Error::ProtocolError),
            r matches Err(e) ==> (e == Error::StateError || e == Error::ProtocolError),
    {
        if let Err(e) = self.check_is_ok() {
            return Err(e);
        }
        self.monitor.incr_monitor_check_zero();
        self.push_check_zero_list(ch, *value)
    }

    /// Addition gate: purely local.
    pub fn add(&mut self, a: &MacProver<FE>, b: &MacProver<FE>) -> (r: Result<MacProver<FE>, Error>)
        requires
            old(self).wf(),
            a.wf(),
            b.wf(),
        ensures
            final(self).wf(),
            !old(self).is_ok ==> (r matches Err(e) && e == Error::StateError && *final(self)
                == *old(self)),
            old(self).is_ok ==> (r matches Ok(m) && (m.value == a.value.sadd(b.value) && m.tag == a.tag.sadd(b.tag) && m.wf()) && final(self).monitor == (Monitor {
                tick: final(self).monitor.tick,
                summaries_due: final(self).monitor.summaries_due,
                monitor_add: bump(old(self).monitor.monitor_add),
                ..old(self).monitor
            }) && *final(self) == (DietMacAndCheeseProver {
                monitor: final(self).monitor,
                ..*old(self)
            })),
    {
        if let Err(e) = self.check_is_ok() {
            return Err(e);
        }
        self.monitor.incr_monitor_add();
        Ok(self.prover.add(*a, *b))
    }

    /// Multiplication gate: the Prover computes the clear product, has it
    /// freshly authenticated, and records the triple for the batched
    /// multiplication check.
    pub fn mul(&mut self, a: &MacProver<FE>, b: &MacProver<FE>) -> (r: Result<MacProver<FE>, Error>)
        requires
            old(self).wf(),
            a.wf(),
            b.wf(),
        ensures
            final(self).wf(),
            !old(self).is_ok ==> (r matches Err(e) && e == Error::StateError && *final(self)
                == *old(self)),
            old(self).is_ok ==> (r matches Ok(m) && {
                let prod = a.value.smul(b.value);
                let k = derive_el::<FE>(old(self).prover.keys).0;
                let a0 = a.tag.smul(b.tag);
                let a1 = ((a.value.smul(b.tag)).sadd(b.value.smul(a.tag))).sadd(m.tag.sneg());
                &&& m.value == prod
                &&& m.tag == k.sadd(prod.smul(old(self).prover.delta))
                &&& m.wf()
                &&& final(self).prover.keys == derive_el::<FE>(old(self).prover.keys).1
                &&& final(self).prover.delta == old(self).prover.delta
                &&& final(self).state_mult_check.sum_u == old(self).state_mult_check.sum_u.sadd(
                    old(self).state_mult_check.power.smul(a0),
                )
                &&& final(self).state_mult_check.sum_v == old(self).state_mult_check.sum_v.sadd(
                    old(self).state_mult_check.power.smul(a1),
                )
                &&& final(self).state_mult_check.power == old(self).state_mult_check.power.smul(
                    old(self).state_mult_check.chi,
                )
                &&& final(self).state_mult_check.chi == old(self).state_mult_check.chi
                &&& final(self).state_mult_check.count == bump(old(self).state_mult_check.count)
                &&& final(self).is_ok
                &&& final(self).check_zero_list == old(self).check_zero_list
                &&& final(self).no_batching == old(self).no_batching
                &&& final(self).monitor == (Monitor {
                    tick: final(self).monitor.tick,
                summaries_due: final(self).monitor.summaries_due,
                    monitor_mul: bump(old(self).monitor.monitor_mul),
                    ..old(self).monitor
                })
            }),
    {
        if let Err(e) = self.check_is_ok() {
            return Err(e);
        }
        self.monitor.incr_monitor_mul();
        let a_clr = a.value();
        let b_clr = b.value();
        proof {
            FE::lemma_ops_closed(a_clr, b_clr);
        }
        let product = a_clr.mul(b_clr);
        let out = match self.input(product) {
            Ok(m) => m,
            Err(e) => {
                return Err(e);
            },
        };
        match self.prover.quicksilver_push(&mut self.state_mult_check, &(*a, *b, out)) {
            Ok(()) => Ok(out),
            Err(e) => Err(e),
        }
    }

    /// Constant-addition gate: purely local; the tag is unchanged.
    pub fn addc(&mut self, a: &MacProver<FE>, b: FE) -> (r: Result<MacProver<FE>, Error>)
        requires
            old(self).wf(),
            a.wf(),
            b.inv(),
            b.in_prime(),
        ensures
            final(self).wf(),
            !old(self).is_ok ==> (r matches Err(e) && e == Error::StateError && *final(self)
                == *old(self)),
            old(self).is_ok ==> (r matches Ok(m) && (m.value == a.value.sadd(b) && m.tag == a.tag && m.wf()) && final(self).monitor == (Monitor {
                tick: final(self).monitor.tick,
                summaries_due: final(self).monitor.summaries_due,
                monitor_addc: bump(old(self).monitor.monitor_addc),
                ..old(self).monitor
            }) && *final(self) == (DietMacAndCheeseProver {
                monitor: final(self).monitor,
                ..*old(self)
            })),
    {
        if let Err(e) = self.check_is_ok() {
            return Err(e);
        }
        self.monitor.incr_monitor_addc();
        Ok(self.prover.affine_add_cst(b, *a))
    }

    /// Constant-multiplication gate: purely local; value and tag scale.
    pub fn mulc(&mut self, value: &MacProver<FE>, constant: FE) -> (r: Result<MacProver<FE>, Error>)
        requires
            old(self).wf(),
            value.wf(),
            constant.inv(),
            constant.in_prime(),
        ensures
            final(self).wf(),
            !old(self).is_ok ==> (r matches Err(e) && e == Error::StateError && *final(self)
                == *old(self)),
            old(self).is_ok ==> (r matches Ok(m) && (m.value == value.value.smul(constant) && m.tag == value.tag.smul(constant) && m.wf()) && final(self).monitor == (Monitor {
                tick: final(self).monitor.tick,
                summaries_due: final(self).monitor.summaries_due,
                monitor_mulc: bump(old(self).monitor.monitor_mulc),
                ..old(self).monitor
            }) && *final(self) == (DietMacAndCheeseProver {
                monitor: final(self).monitor,
                ..*old(self)
            })),
    {
        if let Err(e) = self.check_is_ok() {
            return Err(e);
        }
        self.monitor.incr_monitor_mulc();
        Ok(self.prover.affine_mult_cst(constant, *value))
    }

    /// Input a public value: its tag is zero on the Prover side, with no
    /// communication.  Never fails, even on a poisoned evaluator.
    pub fn input_public(&mut self, value: FE) -> (r: MacProver<FE>)
        requires
            old(self).wf(),
            value.inv(),
            value.in_prime(),
        ensures
            final(self).wf(),
            r.value == value,
            r.tag == FE::szero(),
            r.wf(),
            final(self).monitor == (Monitor {
                tick: final(self).monitor.tick,
                summaries_due: final(self).monitor.summaries_due,
                monitor_instance: bump(old(self).monitor.monitor_instance),
                ..old(self).monitor
            }),
            *final(self) == (DietMacAndCheeseProver {
                monitor: final(self).monitor,
                ..*old(self)
            }),
    {
        self.monitor.incr_monitor_instance();
        proof {
            FE::lemma_consts();
        }
        MacProver::new(value, FE::zero())
    }

    /// Input a private witness value: one fresh authentication.
    pub fn input_private(&mut self, value: FE) -> (r: Result<MacProver<FE>, Error>)
        requires
            old(self).wf(),
            value.inv(),
            value.in_prime(),
        ensures
            final(self).wf(),
            !old(self).is_ok ==> (r matches Err(e) && e == Error::StateError && *final(self)
                == *old(self)),
            old(self).is_ok ==> (r matches Ok(m) && {
                &&& m.value == value
                &&& m.tag == derive_el::<FE>(old(self).prover.keys).0.sadd(
                    value.smul(old(self).prover.delta),
                )
                &&& m.wf()
                &&& final(self).prover.keys == derive_el::<FE>(old(self).prover.keys).1
                &&& final(self).prover.delta == old(self).prover.delta
                &&& final(self).is_ok
                &&& final(self).check_zero_list == old(self).check_zero_list
                &&& final(self).state_mult_check == old(self).state_mult_check
                &&& final(self).no_batching == old(self).no_batching
                &&& final(self).monitor == (Monitor {
                    tick: final(self).monitor.tick,
                summaries_due: final(self).monitor.summaries_due,
                    monitor_witness: bump(old(self).monitor.monitor_witness),
                    ..old(self).monitor
                })
            }),
    {
        if let Err(e) = self.check_is_ok() {
            return Err(e);
        }
        self.monitor.incr_monitor_witness();
        self.input(value)
    }

    /// Sample a fresh challenge from the shared stream; both roles compute
    /// the same tag for it, and its clear value is zero.
    pub fn challenge(&mut self) -> (r: Result<MacProver<FE>, Error>)
        requires
            old(self).wf(),
        ensures
            final(self).wf(),
            !old(self).is_ok ==> (r matches Err(e) && e == Error::StateError && *final(self)
                == *old(self)),
            old(self).is_ok ==> (r matches Ok(m) && {
                &&& m.value == FE::szero()
                &&& m.tag == derive_el::<FE>(old(self).prover.keys).0
                &&& m.wf()
                &&& final(self).prover.keys == derive_el::<FE>(old(self).prover.keys).1
                &&& final(self).prover.delta == old(self).prover.delta
                &&& *final(self) == (DietMacAndCheeseProver {
                    prover: final(self).prover,
                    ..*old(self)
                })
            }),
    {
        if let Err(e) = self.check_is_ok() {
            return Err(e);
        }
        let e: FE = draw_el(&mut self.prover.keys);
        proof {
            FE::lemma_consts();
        }
        Ok(MacProver::new(FE::zero(), e))
    }

    /// Execute the queued zero checks and the multiplication check.  It can
    /// be called at any time; with empty queues it succeeds trivially.  It
    /// renders no summary itself: callers collect one from
    /// `log_final_monitor`.
    pub fn finalize(&mut self, ch: &mut Channel) -> (r: Result<(), Error>)
        requires
            old(self).wf(),
            old(ch).wf(),
        ensures
            final(self).wf(),
            final(ch).wf(),
            !old(self).is_ok ==> (r matches Err(e) && e == Error::StateError && *final(self)
                == *old(self) && *final(ch) == *old(ch)),
            old(self).is_ok ==> ((r matches Ok(()) <==> (forall|i: int|
                0 <= i < old(self).check_zero_list@.len() ==> (#[trigger] old(self).check_zero_list@[i]).value == FE::szero())) && final(self).is_ok == (r matches Ok(
                (),
            )) && final(self).check_zero_list@.len() == 0 && final(ch).v2p == old(ch).v2p && final(ch).p2v.consumed == old(ch).p2v.consumed),
            old(self).is_ok && (r matches Ok(())) ==> (final(ch).p2v.data@ == old(ch).p2v.data@
                + encode_tags(old(self).check_zero_list@) + old(self).state_mult_check.sum_u.sto_le() + old(self).state_mult_check.sum_v.sto_le() && final(ch).p2v.flushed == final(ch).p2v.data@.len() && final(self).state_mult_check
                == StateMultCheckProver::spec_reset(old(self).state_mult_check.chi) && final(self).prover == old(self).prover),
            old(self).is_ok && (r matches Err(_)) ==> (final(ch).p2v.data@ == old(ch).p2v.data@
                + encode_tags(old(self).check_zero_list@) && final(ch).p2v.flushed == final(ch).p2v.data@.len() && final(self).state_mult_check == old(self).state_mult_check && final(self).prover == old(self).prover),
            old(self).is_ok ==> (r matches Err(e) ==> e == Error::ProtocolError),
            r matches Err(e) ==> (e == Error::StateError || e == Error::ProtocolError),
    {
        if let Err(e) = self.check_is_ok() {
            return Err(e);
        }
        ch.p2v.flush();
        match self.do_check_zero(ch) {
            Ok(()) => {},
            Err(e) => {
                return Err(e);
            },
        }
        match self.do_mult_check(ch) {
            Ok(_) => {},
            Err(e) => {
                return Err(e);
            },
        }
        Ok(())
    }

    /// Clear the poison flag and reinitialize the multiplication
    /// accumulator; the zero-check queue is deliberately left untouched.
    pub fn reset(&mut self)
        requires
            old(self).wf(),
        ensures
            final(self).wf(),
            final(self).is_ok == true,
            final(self).state_mult_check == StateMultCheckProver::spec_reset(
                old(self).state_mult_check.chi,
            ),
            *final(self) == (DietMacAndCheeseProver {
                is_ok: true,
                state_mult_check: final(self).state_mult_check,
                ..*old(self)
            }),
    {
        proof {
            FE::lemma_consts();
        }
        self.prover.reset(&mut self.state_mult_check);
        self.is_ok = true;
    }

    /// Render the final counter summary; the warning-iff-mismatch content
    /// is pinned by `Monitor::log_final_monitor`.
    pub fn log_final_monitor(&self) -> (r: String)
        ensures
            self.monitor.monitor_mul != self.monitor.monitor_zk_mult_check ==> r@ == counts_text(
                warn_text(self.monitor.monitor_mul, self.monitor.monitor_zk_mult_check),
                self.monitor.monitor_instance,
                self.monitor.monitor_witness,
                self.monitor.monitor_addc,
                self.monitor.monitor_add,
                self.monitor.monitor_mulc,
                self.monitor.monitor_mul,
                self.monitor.monitor_check_zero,
            ),
            self.monitor.monitor_mul == self.monitor.monitor_zk_mult_check ==> r@ == counts_text(
                Seq::<char>::empty(),
                self.monitor.monitor_instance,
                self.monitor.monitor_witness,
                self.monitor.monitor_addc,
                self.monitor.monitor_add,
                self.monitor.monitor_mulc,
                self.monitor.monitor_mul,
                self.monitor.monitor_check_zero,
            ),
    {
        self.monitor.log_final_monitor()
    }
}

/// Verifier role of the circuit-evaluation engine.
pub struct DietMacAndCheeseVerifier<FE: FiniteField> {
    pub verifier: FComVerifier<FE>,
    pub check_zero_list: Vec<MacVerifier<FE>>,
    pub monitor: Monitor,
    pub state_mult_check: StateMultCheckVerifier<FE>,
    pub is_ok: bool,
    pub no_batching: bool,
}

impl<FE: FiniteField> DietMacAndCheeseVerifier<FE> {
    /// Well-formedness up to a full queue, as it may stand right before a
    /// forced flush.
    pub open spec fn wf_full(self) -> bool {
        &&& self.verifier.wf()
        &&& self.verifier.delta != FE::szero()
        &&& self.state_mult_check.wf()
        &&& self.check_zero_list@.len() <= QUEUE_CAPACITY
        &&& forall|i: int|
            0 <= i < self.check_zero_list@.len() ==> (#[trigger] self.check_zero_list@[i]).wf()
    }

    pub open spec fn wf(self) -> bool {
        &&& self.wf_full()
        &&& self.check_zero_list@.len() < QUEUE_CAPACITY
    }

    /// Initialize by sampling a fresh seed and sending it to the Prover.
    pub fn init(channel: &mut Channel, no_batching: bool) -> (r: Result<Self, Error>)
        requires
            old(channel).wf(),
        ensures
            final(channel).wf(),
            final(channel).p2v == old(channel).p2v,
            final(channel).v2p.consumed == old(channel).v2p.consumed,
            r matches Ok(v) && ({
                let wrote = final(channel).v2p.data@.skip(old(channel).v2p.data@.len() as int);
                let w1 = vstd::bytes::spec_u64_from_le_bytes(wrote.subrange(0, 8));
                let w2 = vstd::bytes::spec_u64_from_le_bytes(wrote.subrange(8, 16));
                let (delta, chi, keys) = seed_ctx::<FE>(w1, w2);
                &&& wrote.len() == 16
                &&& final(channel).v2p.data@ == old(channel).v2p.data@ + wrote
                &&& final(channel).v2p.flushed == final(channel).v2p.data@.len()
                &&& v.is_ok == true
                &&& v.no_batching == no_batching
                &&& v.verifier.delta == delta
                &&& v.verifier.keys == keys
                &&& v.check_zero_list@.len() == 0
                &&& v.monitor == monitor_zero()
                &&& v.state_mult_check == StateMultCheckVerifier::spec_reset(chi)
                &&& v.wf()
            }),
    {
        let (w1, w2) = sample_seed();
        let b1 = vstd::bytes::u64_to_le_bytes(w1);
        let b2 = vstd::bytes::u64_to_le_bytes(w2);
        proof {
            vstd::bytes::lemma_auto_spec_u64_to_from_le_bytes();
        }
        channel.v2p.write(&b1);
        channel.v2p.write(&b2);
        channel.v2p.flush();
        proof {
            let wrote = b1@ + b2@;
            assert(channel.v2p.data@.skip(old(channel).v2p.data@.len() as int) =~= wrote);
            assert(wrote.subrange(0, 8) =~= b1@);
            assert(wrote.subrange(8, 16) =~= b2@);
        }
        let (delta, mut prg) = derive_context::<FE>(w1, w2);
        let state_mult_check = StateMultCheckVerifier::init(&mut prg);
        Ok(DietMacAndCheeseVerifier {
            verifier: FComVerifier { delta, keys: prg },
            check_zero_list: Vec::new(),
            monitor: Monitor::default(),
            state_mult_check,
            is_ok: true,
            no_batching,
        })
    }

    /// Initialize against an existing authentication context; as on the
    /// Prover side, the context is moved in, so segments reuse it one
    /// after another, never interleaved.
    pub fn init_with_fcom(fcom: FComVerifier<FE>, no_batching: bool) -> (r: Self)
        requires
            fcom.wf(),
            fcom.delta != FE::szero(),
        ensures
            r.is_ok == true,
            r.no_batching == no_batching,
            r.verifier.delta == fcom.delta,
            r.verifier.keys == derive_el::<FE>(fcom.keys).1,
            r.check_zero_list@.len() == 0,
            r.monitor == monitor_zero(),
            r.state_mult_check == StateMultCheckVerifier::spec_reset(
                derive_el::<FE>(fcom.keys).0,
            ),
            r.wf(),
    {
        let mut fcom = fcom;
        let state_mult_check = StateMultCheckVerifier::init(&mut fcom.keys);
        DietMacAndCheeseVerifier {
            verifier: fcom,
            check_zero_list: Vec::new(),
            monitor: Monitor::default(),
            state_mult_check,
            is_ok: true,
            no_batching,
        }
    }

    /// The shared authentication context this evaluator runs over.
    pub fn get_party(&self) -> (r: &FComVerifier<FE>)
        ensures
            r == &self.verifier,
    {
        &self.verifier
    }

    /// Every public operation starts here; see the Prover counterpart.
    pub fn check_is_ok(&self) -> (r: Result<(), Error>)
        ensures
            r matches Ok(()) <==> self.is_ok,
            r matches Err(e) ==> e == Error::StateError,
    {
        if !self.is_ok {
            return Err(Error::StateError);
        }
        Ok(())
    }

    /// Receive the key for one freshly authenticated value.
    fn input(&mut self) -> (r: Result<MacVerifier<FE>, Error>)
        requires
            old(self).wf(),
        ensures
            final(self).wf(),
            *final(self) == (DietMacAndCheeseVerifier {
                verifier: final(self).verifier,
                ..*old(self)
            }),
            final(self).verifier.delta == old(self).verifier.delta,
            final(self).verifier.keys == derive_el::<FE>(old(self).verifier.keys).1,
            r matches Ok(m) && (m.key == derive_el::<FE>(
                old(self).verifier.keys,
            ).0 && m.wf()),
    {
        Ok(self.verifier.input1())
    }

    /// Run the multiplication check against the Prover's aggregates.
    pub fn do_mult_check(&mut self, ch: &mut Channel) -> (r: Result<usize, Error>)
        requires
            old(self).wf(),
            old(ch).wf(),
        ensures
            final(self).wf(),
            final(ch).wf(),
            final(ch).v2p.data@ == old(ch).v2p.data@,
            final(ch).v2p.consumed == old(ch).v2p.consumed,
            final(ch).p2v.data@ == old(ch).p2v.data@,
            final(ch).p2v.flushed == old(ch).p2v.flushed,
            r matches Ok(c) ==> c == old(self).state_mult_check.count && mult_accept(
                old(self).state_mult_check.sum_w,
                old(self).verifier.delta,
                old(ch).p2v.available(),
            ),
            r matches Err(e) ==> e == Error::ProtocolError && !mult_accept(
                old(self).state_mult_check.sum_w,
                old(self).verifier.delta,
                old(ch).p2v.available(),
            ),
            final(self).is_ok == (old(self).is_ok && (r matches Ok(_))),
            final(self).state_mult_check == StateMultCheckVerifier::spec_reset(
                old(self).state_mult_check.chi,
            ),
            final(self).monitor == (Monitor {
                monitor_zk_mult_check: bump_by(
                    old(self).monitor.monitor_zk_mult_check,
                    (if r matches Ok(_) {
                        old(self).state_mult_check.count
                    } else {
                        0
                    }),
                ),
                ..old(self).monitor
            }),
            *final(self) == (DietMacAndCheeseVerifier {
                state_mult_check: final(self).state_mult_check,
                monitor: final(self).monitor,
                is_ok: final(self).is_ok,
                ..*old(self)
            }),
            old(ch).p2v.available().len() >= 2 * FE::sbyte_len() ==> final(ch).p2v.consumed == old(ch).p2v.consumed + 2 * FE::sbyte_len(),
            old(ch).p2v.available().len() < 2 * FE::sbyte_len() ==> final(ch).p2v.consumed == old(ch).p2v.consumed,
    {
        proof {
            FE::lemma_consts();
        }
        ch.v2p.flush();
        match self.verifier.quicksilver_finalize(ch, &mut self.state_mult_check) {
            Ok(cnt) => {
                self.monitor.incr_zk_mult_check(cnt);
                Ok(cnt)
            },
            Err(e) => {
                self.is_ok = false;
                Err(e)
            },
        }
    }

    /// Flush the pending zero-assertions in one batch; see the Prover
    /// counterpart.
    pub fn do_check_zero(&mut self, ch: &mut Channel) -> (r: Result<(), Error>)
        requires
            old(self).wf_full(),
            old(ch).wf(),
        ensures
            final(self).wf(),
            final(ch).wf(),
            final(ch).v2p.data@ == old(ch).v2p.data@,
            final(ch).v2p.consumed == old(ch).v2p.consumed,
            final(ch).p2v.data@ == old(ch).p2v.data@,
            final(ch).p2v.flushed == old(ch).p2v.flushed,
            r matches Ok(()) <==> zeros_accept(
                old(self).check_zero_list@,
                old(ch).p2v.available(),
            ),
            r matches Err(e) ==> e == Error::ProtocolError,
            final(self).is_ok == (old(self).is_ok && (r matches Ok(()))),
            final(self).check_zero_list@.len() == 0,
            final(self).monitor == (Monitor {
                monitor_zk_check_zero: bump_by(
                    old(self).monitor.monitor_zk_check_zero,
                    old(self).check_zero_list@.len() as usize,
                ),
                ..old(self).monitor
            }),
            *final(self) == (DietMacAndCheeseVerifier {
                is_ok: final(self).is_ok,
                check_zero_list: final(self).check_zero_list,
                monitor: final(self).monitor,
                ..*old(self)
            }),
            old(ch).p2v.available().len() >= old(self).check_zero_list@.len() * FE::sbyte_len()
                ==> final(ch).p2v.consumed == old(ch).p2v.consumed + old(self).check_zero_list@.len() * FE::sbyte_len(),
            old(ch).p2v.available().len() < old(self).check_zero_list@.len() * FE::sbyte_len()
                ==> final(ch).p2v.consumed == old(ch).p2v.consumed,
    {
        proof {
            FE::lemma_consts();
        }
        ch.v2p.flush();
        let r = self.verifier.check_zero(ch, &self.check_zero_list);
        if r.is_err() {
            self.is_ok = false;
        }
        let n = self.check_zero_list.len();
        self.monitor.incr_zk_check_zero(n);
        self.check_zero_list.clear();
        r
    }

    /// Enqueue one zero-assertion; flush when the queue is full or the
    /// evaluator runs in immediate mode.
    fn push_check_zero_list(&mut self, ch: &mut Channel, e: MacVerifier<FE>) -> (r: Result<
        (),
        Error,
    >)
        requires
            old(self).wf(),
            old(ch).wf(),
            e.wf(),
        ensures
            final(self).wf(),
            final(ch).wf(),
            final(ch).v2p.data@ == old(ch).v2p.data@,
            final(ch).v2p.consumed == old(ch).v2p.consumed,
            final(ch).p2v.data@ == old(ch).p2v.data@,
            final(ch).p2v.flushed == old(ch).p2v.flushed,
            !(old(self).check_zero_list@.len() + 1 == QUEUE_CAPACITY || old(self).no_batching)
                ==> (*final(ch) == *old(ch) && (r matches Ok(())) && final(self).is_ok == old(self).is_ok && final(self).check_zero_list@ == old(self).check_zero_list@.push(e)
                && *final(self) == (DietMacAndCheeseVerifier {
                check_zero_list: final(self).check_zero_list,
                ..*old(self)
            })),
            (old(self).check_zero_list@.len() + 1 == QUEUE_CAPACITY || old(self).no_batching)
                ==> ((r matches Ok(()) <==> zeros_accept(
                old(self).check_zero_list@.push(e),
                old(ch).p2v.available(),
            )) && final(self).is_ok == (old(self).is_ok && (r matches Ok(()))) && final(self).check_zero_list@.len() == 0 && final(self).state_mult_check == old(self).state_mult_check && final(self).verifier == old(self).verifier && final(self).no_batching == old(self).no_batching && final(self).monitor == (Monitor {
                monitor_zk_check_zero: bump_by(
                    old(self).monitor.monitor_zk_check_zero,
                    (old(self).check_zero_list@.len() + 1) as usize,
                ),
                ..old(self).monitor
            })),
            r matches Err(er) ==> er == Error::ProtocolError,
    {
        self.check_zero_list.push(e);
        if self.check_zero_list.len() == QUEUE_CAPACITY || self.no_batching {
            self.do_check_zero(ch)
        } else {
            Ok(())
        }
    }

    /// Assert that an authenticated value is zero; deferred to the next
    /// batch flush.
    pub fn assert_zero(&mut self, ch: &mut Channel, value: &MacVerifier<FE>) -> (r: Result<
        (),
        Error,
    >)
        requires
            old(self).wf(),
            old(ch).wf(),
            value.wf(),
        ensures
            final(self).wf(),
            final(ch).wf(),
            final(ch).v2p.data@ == old(ch).v2p.data@,
            final(ch).v2p.consumed == old(ch).v2p.consumed,
            final(ch).p2v.data@ == old(ch).p2v.data@,
            final(ch).p2v.flushed == old(ch).p2v.flushed,
            !old(self).is_ok ==> (r matches Err(e) && e == Error::StateError && *final(self)
                == *old(self) && *final(ch) == *old(ch)),
            old(self).is_ok ==> final(self).monitor == (Monitor {
                tick: final(self).monitor.tick,
                summaries_due: final(self).monitor.summaries_due,
                monitor_check_zero: bump(old(self).monitor.monitor_check_zero),
                monitor_zk_check_zero: final(self).monitor.monitor_zk_check_zero,
                ..old(self).monitor
            }),
            old(self).is_ok && !(old(self).check_zero_list@.len() + 1 == QUEUE_CAPACITY || old(self).no_batching) ==> (*final(ch) == *old(ch) && (r matches Ok(())) && final(self).is_ok
                && final(self).check_zero_list@ == old(self).check_zero_list@.push(*value)
                && final(self).verifier == old(self).verifier && final(self).state_mult_check
                == old(self).state_mult_check),
            old(self).is_ok && (old(self).check_zero_list@.len() + 1 == QUEUE_CAPACITY || old(self).no_batching) ==> ((r matches Ok(()) <==> zeros_accept(
                old(self).check_zero_list@.push(*value),
                old(ch).p2v.available(),
            )) && final(self).is_ok == (r matches Ok(())) && final(self).check_zero_list@.len()
                == 0 && final(self).state_mult_check == old(self).state_mult_check && final(self).verifier == old(self).verifier),
            old(self).is_ok ==> (r matches Err(e) ==> e == Error::ProtocolError),
            r matches Err(e) ==> (e == Error::StateError || e == Error::ProtocolError),
    {
        if let Err(e) = self.check_is_ok() {
            return Err(e);
        }
        self.monitor.incr_monitor_check_zero();
        self.push_check_zero_list(ch, *value)
    }

    /// Addition gate: purely local.
    pub fn add(&mut self, a: &MacVerifier<FE>, b: &MacVerifier<FE>) -> (r: Result<
        MacVerifier<FE>,
        Error,
    >)
        requires
            old(self).wf(),
            a.wf(),
            b.wf(),
        ensures
            final(self).wf(),
            !old(self).is_ok ==> (r matches Err(e) && e == Error::StateError && *final(self)
                == *old(self)),
            old(self).is_ok ==> (r matches Ok(m) && (m.key == a.key.sadd(b.key) && m.wf()) && final(self).monitor == (Monitor {
                tick: final(self).monitor.tick,
                summaries_due: final(self).monitor.summaries_due,
                monitor_add: bump(old(self).monitor.monitor_add),
                ..old(self).monitor
            }) && *final(self) == (DietMacAndCheeseVerifier {
                monitor: final(self).monitor,
                ..*old(self)
            })),
    {
        if let Err(e) = self.check_is_ok() {
            return Err(e);
        }
        self.monitor.incr_monitor_add();
        Ok(self.verifier.add(*a, *b))
    }

    /// Multiplication gate: receive the product's key and record the
    /// triple for the batched multiplication check.
    pub fn mul(&mut self, a: &MacVerifier<FE>, b: &MacVerifier<FE>) -> (r: Result<
        MacVerifier<FE>,
        Error,
    >)
        requires
            old(self).wf(),
            a.wf(),
            b.wf(),
        ensures
            final(self).wf(),
            !old(self).is_ok ==> (r matches Err(e) && e == Error::StateError && *final(self)
                == *old(self)),
            old(self).is_ok ==> (r matches Ok(m) && {
                let k = derive_el::<FE>(old(self).verifier.keys).0;
                let b0 = (a.key.smul(b.key)).sadd(m.key.smul(old(self).verifier.delta));
                &&& m.key == k
                &&& m.wf()
                &&& final(self).verifier.keys == derive_el::<FE>(old(self).verifier.keys).1
                &&& final(self).verifier.delta == old(self).verifier.delta
                &&& final(self).state_mult_check.sum_w == old(self).state_mult_check.sum_w.sadd(
                    old(self).state_mult_check.power.smul(b0),
                )
                &&& final(self).state_mult_check.power == old(self).state_mult_check.power.smul(
                    old(self).state_mult_check.chi,
                )
                &&& final(self).state_mult_check.chi == old(self).state_mult_check.chi
                &&& final(self).state_mult_check.count == bump(old(self).state_mult_check.count)
                &&& final(self).is_ok
                &&& final(self).check_zero_list == old(self).check_zero_list
                &&& final(self).no_batching == old(self).no_batching
                &&& final(self).monitor == (Monitor {
                    tick: final(self).monitor.tick,
                summaries_due: final(self).monitor.summaries_due,
                    monitor_mul: bump(old(self).monitor.monitor_mul),
                    ..old(self).monitor
                })
            }),
    {
        if let Err(e) = self.check_is_ok() {
            return Err(e);
        }
        self.monitor.incr_monitor_mul();
        let tag = match self.input() {
            Ok(m) => m,
            Err(e) => {
                return Err(e);
            },
        };
        match self.verifier.quicksilver_push(&mut self.state_mult_check, &(*a, *b, tag)) {
            Ok(()) => Ok(tag),
            Err(e) => Err(e),
        }
    }

    /// Constant-addition gate: purely local; the key shifts.
    pub fn addc(&mut self, a: &MacVerifier<FE>, b: FE) -> (r: Result<MacVerifier<FE>, Error>)
        requires
            old(self).wf(),
            a.wf(),
            b.inv(),
            b.in_prime(),
        ensures
            final(self).wf(),
            !old(self).is_ok ==> (r matches Err(e) && e == Error::StateError && *final(self)
                == *old(self)),
            old(self).is_ok ==> (r matches Ok(m) && (m.key == a.key.sadd((b.smul(old(self).verifier.delta)).sneg()) && m.wf()) && final(self).monitor == (Monitor {
                tick: final(self).monitor.tick,
                summaries_due: final(self).monitor.summaries_due,
                monitor_addc: bump(old(self).monitor.monitor_addc),
                ..old(self).monitor
            }) && *final(self) == (DietMacAndCheeseVerifier {
                monitor: final(self).monitor,
                ..*old(self)
            })),
    {
        if let Err(e) = self.check_is_ok() {
            return Err(e);
        }
        self.monitor.incr_monitor_addc();
        Ok(self.verifier.affine_add_cst(b, *a))
    }

    /// Constant-multiplication gate: purely local; the key scales.
    pub fn mulc(&mut self, a: &MacVerifier<FE>, b: FE) -> (r: Result<MacVerifier<FE>, Error>)
        requires
            old(self).wf(),
            a.wf(),
            b.inv(),
            b.in_prime(),
        ensures
            final(self).wf(),
            !old(self).is_ok ==> (r matches Err(e) && e == Error::StateError && *final(self)
                == *old(self)),
            old(self).is_ok ==> (r matches Ok(m) && (m.key == a.key.smul(b) && m.wf()) && final(self).monitor == (Monitor {
                tick: final(self).monitor.tick,
                summaries_due: final(self).monitor.summaries_due,
                monitor_mulc: bump(old(self).monitor.monitor_mulc),
                ..old(self).monitor
            }) && *final(self) == (DietMacAndCheeseVerifier {
                monitor: final(self).monitor,
                ..*old(self)
            })),
    {
        if let Err(e) = self.check_is_ok() {
            return Err(e);
        }
        self.monitor.incr_monitor_mulc();
        Ok(self.verifier.affine_mult_cst(b, *a))
    }

    /// Input a public value: the key `-v * delta` is derived locally, with
    /// no communication.  Never fails, even on a poisoned evaluator.
    pub fn input_public(&mut self, val: FE) -> (r: MacVerifier<FE>)
        requires
            old(self).wf(),
            val.inv(),
            val.in_prime(),
        ensures
            final(self).wf(),
            r.key == (val.smul(old(self).verifier.delta)).sneg(),
            r.wf(),
            final(self).monitor == (Monitor {
                tick: final(self).monitor.tick,
                summaries_due: final(self).monitor.summaries_due,
                monitor_instance: bump(old(self).monitor.monitor_instance),
                ..old(self).monitor
            }),
            *final(self) == (DietMacAndCheeseVerifier {
                monitor: final(self).monitor,
                ..*old(self)
            }),
    {
        self.monitor.incr_monitor_instance();
        proof {
            FE::lemma_ops_closed(val, self.verifier.delta);
            FE::lemma_ops_closed(val.smul(self.verifier.delta), val);
        }
        MacVerifier::new((val.mul(self.verifier.get_delta())).neg())
    }

    /// Input a private witness value: one fresh authentication.
    pub fn input_private(&mut self) -> (r: Result<MacVerifier<FE>, Error>)
        requires
            old(self).wf(),
        ensures
            final(self).wf(),
            !old(self).is_ok ==> (r matches Err(e) && e == Error::StateError && *final(self)
                == *old(self)),
            old(self).is_ok ==> (r matches Ok(m) && {
                &&& m.key == derive_el::<FE>(old(self).verifier.keys).0
                &&& m.wf()
                &&& final(self).verifier.keys == derive_el::<FE>(old(self).verifier.keys).1
                &&& final(self).verifier.delta == old(self).verifier.delta
                &&& final(self).is_ok
                &&& final(self).check_zero_list == old(self).check_zero_list
                &&& final(self).state_mult_check == old(self).state_mult_check
                &&& final(self).no_batching == old(self).no_batching
                &&& final(self).monitor == (Monitor {
                    tick: final(self).monitor.tick,
                summaries_due: final(self).monitor.summaries_due,
                    monitor_witness: bump(old(self).monitor.monitor_witness),
                    ..old(self).monitor
                })
            }),
    {
        if let Err(e) = self.check_is_ok() {
            return Err(e);
        }
        self.monitor.incr_monitor_witness();
        self.input()
    }

    /// Sample a fresh challenge from the shared stream; both roles compute
    /// the same tag for it.
    pub fn challenge(&mut self) -> (r: Result<MacVerifier<FE>, Error>)
        requires
            old(self).wf(),
        ensures
            final(self).wf(),
            !old(self).is_ok ==> (r matches Err(e) && e == Error::StateError && *final(self)
                == *old(self)),
            old(self).is_ok ==> (r matches Ok(m) && {
                &&& m.key == derive_el::<FE>(old(self).verifier.keys).0
                &&& m.wf()
                &&& final(self).verifier.keys == derive_el::<FE>(old(self).verifier.keys).1
                &&& final(self).verifier.delta == old(self).verifier.delta
                &&& *final(self) == (DietMacAndCheeseVerifier {
                    verifier: final(self).verifier,
                    ..*old(self)
                })
            }),
    {
        if let Err(e) = self.check_is_ok() {
            return Err(e);
        }
        let e: FE = draw_el(&mut self.verifier.keys);
        Ok(MacVerifier::new(e))
    }

    /// Execute the queued zero checks and the multiplication check against
    /// what the Prover sent.  It renders no summary itself: callers
    /// collect one from `log_final_monitor`.
    pub fn finalize(&mut self, ch: &mut Channel) -> (r: Result<(), Error>)
        requires
            old(self).wf(),
            old(ch).wf(),
        ensures
            final(self).wf(),
            final(ch).wf(),
            !old(self).is_ok ==> (r matches Err(e) && e == Error::StateError && *final(self)
                == *old(self) && *final(ch) == *old(ch)),
            old(self).is_ok ==> ((r matches Ok(()) <==> (zeros_accept(
                old(self).check_zero_list@,
                old(ch).p2v.available(),
            ) && mult_accept(
                old(self).state_mult_check.sum_w,
                old(self).verifier.delta,
                old(ch).p2v.available().skip(
                    old(self).check_zero_list@.len() * FE::sbyte_len(),
                ),
            ))) && final(self).is_ok == (r matches Ok(())) && final(self).check_zero_list@.len()
                == 0 && final(ch).p2v.data@ == old(ch).p2v.data@ && final(ch).v2p.data@ == old(ch).v2p.data@ && final(ch).v2p.consumed == old(ch).v2p.consumed),
            old(self).is_ok && (r matches Ok(())) ==> (final(self).state_mult_check
                == StateMultCheckVerifier::spec_reset(old(self).state_mult_check.chi) && final(self).verifier == old(self).verifier && final(ch).p2v.consumed == old(ch).p2v.consumed
                + old(self).check_zero_list@.len() * FE::sbyte_len() + 2 * FE::sbyte_len()),
            old(self).is_ok ==> (r matches Err(e) ==> e == Error::ProtocolError),
            r matches Err(e) ==> (e == Error::StateError || e == Error::ProtocolError),
    {
        if let Err(e) = self.check_is_ok() {
            return Err(e);
        }
        ch.v2p.flush();
        let ghost mid_avail = old(ch).p2v.available().skip(
            old(self).check_zero_list@.len() * FE::sbyte_len() as int,
        );
        match self.do_check_zero(ch) {
            Ok(()) => {},
            Err(e) => {
                return Err(e);
            },
        }
        proof {
            assert(ch.p2v.available() =~= mid_avail);
        }
        match self.do_mult_check(ch) {
            Ok(_) => {},
            Err(e) => {
                return Err(e);
            },
        }
        Ok(())
    }

    /// Clear the poison flag and reinitialize the multiplication
    /// accumulator; the zero-check queue is deliberately left untouched.
    pub fn reset(&mut self)
        requires
            old(self).wf(),
        ensures
            final(self).wf(),
            final(self).is_ok == true,
            final(self).state_mult_check == StateMultCheckVerifier::spec_reset(
                old(self).state_mult_check.chi,
            ),
            *final(self) == (DietMacAndCheeseVerifier {
                is_ok: true,
                state_mult_check: final(self).state_mult_check,
                ..*old(self)
            }),
    {
        proof {
            FE::lemma_consts();
        }
        self.verifier.reset(&mut self.state_mult_check);
        self.is_ok = true;
    }

    /// Render the final counter summary; the warning-iff-mismatch content
    /// is pinned by `Monitor::log_final_monitor`.
    pub fn log_final_monitor(&self) -> (r: String)
        ensures
            self.monitor.monitor_mul != self.monitor.monitor_zk_mult_check ==> r@ == counts_text(
                warn_text(self.monitor.monitor_mul, self.monitor.monitor_zk_mult_check),
                self.monitor.monitor_instance,
                self.monitor.monitor_witness,
                self.monitor.monitor_addc,
                self.monitor.monitor_add,
                self.monitor.monitor_mulc,
                self.monitor.monitor_mul,
                self.monitor.monitor_check_zero,
            ),
            self.monitor.monitor_mul == self.monitor.monitor_zk_mult_check ==> r@ == counts_text(
                Seq::<char>::empty(),
                self.monitor.monitor_instance,
                self.monitor.monitor_witness,
                self.monitor.monitor_addc,
                self.monitor.monitor_add,
                self.monitor.monitor_mulc,
                self.monitor.monitor_mul,
                self.monitor.monitor_check_zero,
            ),
    {
        self.monitor.log_final_monitor()
    }
}

} // verus!
