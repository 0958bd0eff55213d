//! Per-runway arrival timers.
use vstd::prelude::*;

verus! {

/// Time left until the next arrival on each of the four runways, in
/// microseconds.
#[derive(Clone, Copy, Debug, PartialEq, Eq, Structural)]
pub struct SpawnTimers {
    pub runway0: u64,
    pub runway1: u64,
    pub runway2: u64,
    pub runway3: u64,
}

impl View for SpawnTimers {
    type V = Seq<u64>;

    open spec fn view(&self) -> Seq<u64> {
        seq![self.runway0, self.runway1, self.runway2, self.runway3]
    }
}

impl SpawnTimers {
    /// The timers with runway `i`'s set to `t`.
    pub open spec fn with(self, i: int, t: u64) -> SpawnTimers {
        SpawnTimers {
            runway0: if i == 0 { t } else { self.runway0 },
            runway1: if i == 1 { t } else { self.runway1 },
            runway2: if i == 2 { t } else { self.runway2 },
            runway3: if i == 3 { t } else { self.runway3 },
        }
    }

    /// Setting a timer changes that timer alone.
    pub proof fn lemma_with(self, i: int, t: u64)
        requires
            0 <= i < 4,
        ensures
            #[trigger] self.with(i, t)@ == self@.update(i, t),
    {
        assert(self.with(i, t)@ =~= self@.update(i, t));
    }

    /// Arrival timers at the start of a round: the first runway gets a plane
    /// at once, the second after seven seconds, the others when they open.
    pub fn initial() -> (t: SpawnTimers)
        ensures
            t@ == seq![0u64, 7_000_000u64, 0u64, 0u64],
    {
        let t = SpawnTimers { runway0: 0, runway1: 7_000_000, runway2: 0, runway3: 0 };
        assert(t@ =~= seq![0u64, 7_000_000u64, 0u64, 0u64]);
        t
    }

    /// Time left on runway `i`'s timer.
    pub fn get(&self, i: usize) -> (t: u64)
        requires
            i < 4,
        ensures
            t == self@[i as int],
    {
        match i {
            0 => self.runway0,
            1 => self.runway1,
            2 => self.runway2,
            _ => self.runway3,
        }
    }

    /// Sets runway `i`'s timer to `t`.
    pub fn set(&mut self, i: usize, t: u64)
        requires
            i < 4,
        ensures
            *final(self) == old(self).with(i as int, t),
            final(self)@ == old(self)@.update(i as int, t),
    {
        proof {
            old(self).lemma_with(i as int, t);
        }
        match i {
            0 => self.runway0 = t,
            1 => self.runway1 = t,
            2 => self.runway2 = t,
            _ => self.runway3 = t,
        }
    }
}

} // verus!
