//! The single consumer of activity signals: it drives the animation, counts
//! the signal, and hands the new count on for display and storage.
use vstd::prelude::*;
use crate::animation::{flip, AnimationStep, Animator, Side};
use crate::decimal::{decimal_of, decimal_text};

verus! {

/// The lifetime keystroke counter, owned by the consumer.
pub struct BongoCatApp {
    counter: u128,
}

/// What the consumer does for one signal: the animation step to perform, the
/// new count, and the label text that shows it. The new count also goes to
/// the storage writer.
pub struct ActivityOutcome {
    pub step: AnimationStep,
    pub count: u128,
    pub label: String,
}

/// `counts[i]` and `sides[i]` are the counter and the next side after `i`
/// signals, each signal taken as `BongoCatApp::on_activity` takes it.
pub open spec fn consumed_in_order(counts: Seq<nat>, sides: Seq<Side>) -> bool {
    &&& counts.len() == sides.len()
    &&& forall|i: int|
        0 <= i < counts.len() - 1 ==> #[trigger] counts[i + 1] == counts[i] + 1 && sides[i + 1]
            == flip(sides[i])
}

pub open spec fn parity_side(n: int) -> Side {
    if n % 2 == 0 {
        Side::Left
    } else {
        Side::Right
    }
}

impl BongoCatApp {
    pub closed spec fn count(&self) -> nat {
        self.counter as nat
    }

    pub fn new() -> (r: BongoCatApp)
        ensures
            r.count() == 0,
    {
        BongoCatApp { counter: 0 }
    }

    /// Takes the counter read at start-up; with nothing stored it starts at
    /// zero. Returns the starting count.
    pub fn initialize(&mut self, stored: Option<u128>) -> (r: u128)
        ensures
            r == (match stored {
                Some(n) => n,
                None => 0,
            }),
            final(self).count() == r,
    {
        let initial = match stored {
            Some(n) => n,
            None => 0,
        };
        self.counter = initial;
        initial
    }

    pub fn current(&self) -> (r: u128)
        ensures
            r == self.count(),
    {
        self.counter
    }

    /// Counts one signal and returns the new count.
    pub fn increment(&mut self) -> (r: u128)
        requires
            old(self).count() < u128::MAX,
        ensures
            r == old(self).count() + 1,
            final(self).count() == r,
    {
        self.counter = self.counter + 1;
        self.counter
    }

    /// Consumes one activity signal: animate, then count.
    pub fn on_activity(&mut self, animator: &mut Animator) -> (r: ActivityOutcome)
        requires
            old(self).count() < u128::MAX,
        ensures
            r.count == old(self).count() + 1,
            final(self).count() == r.count,
            r.label@ == decimal_of(r.count as nat),
            r.step.side == old(animator).next_side_spec(),
            r.step.show@ == old(animator).assets_spec().hit_path(r.step.side),
            r.step.revert_to@ == old(animator).assets_spec().idle@,
            final(animator).next_side_spec() == flip(old(animator).next_side_spec()),
            final(animator).assets_spec() == old(animator).assets_spec(),
    {
        let step = animator.animate();
        let count = self.increment();
        let label = decimal_text(count);
        ActivityOutcome { step, count, label }
    }
}

/// After N signals consumed one at a time, the counter is its starting value
/// plus N.
pub proof fn lemma_counter_counts_signals(counts: Seq<nat>, sides: Seq<Side>)
    requires
        consumed_in_order(counts, sides),
    ensures
        forall|k: int| 0 <= k < counts.len() ==> #[trigger] counts[k] == counts[0] + k,
{
    assert forall|k: int| 0 <= k < counts.len() implies #[trigger] counts[k] == counts[0] + k by {
        lemma_count_prefix(counts, sides, k);
    }
}

proof fn lemma_count_prefix(counts: Seq<nat>, sides: Seq<Side>, k: int)
    requires
        consumed_in_order(counts, sides),
        0 <= k < counts.len(),
    ensures
        counts[k] == counts[0] + k,
        sides[0] == Side::Left ==> sides[k] == parity_side(k),
    decreases k,
{
    if k > 0 {
        lemma_count_prefix(counts, sides, k - 1);
        assert(counts[(k - 1) + 1] == counts[k - 1] + 1);
    }
}

/// Starting from `Left`, the side that the next signal shows after N signals
/// is `Left` when N is even and `Right` when N is odd.
pub proof fn lemma_side_alternates(counts: Seq<nat>, sides: Seq<Side>)
    requires
        consumed_in_order(counts, sides),
        sides.len() > 0,
        sides[0] == Side::Left,
    ensures
        forall|k: int| 0 <= k < sides.len() ==> #[trigger] sides[k] == parity_side(k),
{
    assert forall|k: int| 0 <= k < sides.len() implies #[trigger] sides[k] == parity_side(k) by {
        lemma_count_prefix(counts, sides, k);
    }
}

} // verus!
