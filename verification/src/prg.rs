use vstd::prelude::*;

verus! {

/// One step of a 64-bit xorshift generator.
pub open spec fn xorshift_step(x: u64) -> u64 {
    let a = x ^ (x << 13);
    let b = a ^ (a >> 7);
    b ^ (b << 17)
}

/// Deterministic pseudorandom word generator shared by the two roles.
///
/// Both parties seed one from the same words at initialization and then draw
/// from it in lockstep, so every derived value (authentication keys, the
/// accumulator challenge, sampled challenges) agrees between them.  Its
/// quality only affects the soundness error of the proof, which is outside
/// this crate's contracts; its determinism is what the contracts rely on.
#[derive(Clone, Copy, PartialEq, Eq, Structural, Debug)]
pub struct Prg {
    pub state: u64,
}

impl Prg {
    /// A xorshift generator never leaves state zero, so seeding maps the
    /// all-zero seed to a fixed nonzero word.
    pub open spec fn spec_seeded(a: u64, b: u64) -> Prg {
        let s = a ^ (b << 31);
        if s == 0 {
            Prg { state: 0x9e3779b97f4a7c15 }
        } else {
            Prg { state: s }
        }
    }

    pub fn seeded(a: u64, b: u64) -> (r: Prg)
        ensures
            r == Prg::spec_seeded(a, b),
            r.state != 0,
    {
        let s = a ^ (b << 31);
        if s == 0 {
            Prg { state: 0x9e3779b97f4a7c15 }
        } else {
            Prg { state: s }
        }
    }

    /// Draw the next word; the state advances by one xorshift step.
    pub fn next(&mut self) -> (r: u64)
        ensures
            final(self).state == xorshift_step(old(self).state),
            r == final(self).state,
    {
        let mut x = self.state;
        x = x ^ (x << 13);
        x = x ^ (x >> 7);
        x = x ^ (x << 17);
        self.state = x;
        x
    }
}

} // verus!
