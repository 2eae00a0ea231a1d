use vstd::prelude::*;

verus! {

/// A source of durations, measured in ticks.
///
/// The queue draws a fresh service time through this capability whenever a
/// customer enters service, and the simulation draws an inter-arrival time
/// whenever an arrival occurs. A draw must always yield a strictly positive
/// duration, so that a busy server always has time left until completion and
/// the next arrival is never already due.
pub trait Sampler {
    /// Draw the next duration.
    fn sample(&mut self) -> (r: u64)
        ensures
            r > 0,
    ;
}

/// A deterministic sampler that cycles through a fixed list of positive
/// durations, for driving the engine through hand-computed schedules.
pub struct FixedSampler {
    values: Vec<u64>,
    index: usize,
}

impl FixedSampler {
    #[verifier::type_invariant]
    spec fn inv(self) -> bool {
        &&& self.values@.len() > 0
        &&& self.index < self.values@.len()
        &&& forall|i: int| 0 <= i < self.values@.len() ==> self.values@[i] > 0
    }

    /// Build a sampler that yields `values[0]`, `values[1]`, ... in order,
    /// starting over from the front once the list is exhausted.
    pub fn new(values: Vec<u64>) -> FixedSampler
        requires
            values@.len() > 0,
            forall|i: int| 0 <= i < values@.len() ==> values@[i] > 0,
    {
        FixedSampler { values, index: 0 }
    }
}

impl Sampler for FixedSampler {
    fn sample(&mut self) -> (r: u64) {
        proof {
            use_type_invariant(&*self);
        }
        let i: usize = self.index;
        let v: u64 = self.values[i];
        self.index = if i < self.values.len() - 1 {
            i + 1
        } else {
            0
        };
        v
    }
}

} // verus!
