use vstd::prelude::*;

use crate::queue::Queue;
use crate::queue::Status;
use crate::sampler::Sampler;

verus! {

/// The next-event driver for a single-server queue.
///
/// The simulation owns the simulated clock, the count of customers that have
/// completed service, the queue itself, and the time remaining until the next
/// external arrival. Each [`Simulation::step`] advances the clock directly to
/// the next event — the next arrival or the in-progress service completion,
/// whichever is sooner — and lets the queue react to it.
pub struct Simulation<I: Sampler, S: Sampler> {
    inter_arrival_time: I,
    clock: u64,
    count: u32,
    queue: Queue<S>,
    time_until_arrival: u64,
    ties: Ghost<nat>,
}

impl<I: Sampler, S: Sampler> Simulation<I, S> {
    /// The simulated clock, in ticks since the start.
    pub closed spec fn spec_clock(self) -> u64 {
        self.clock
    }

    /// How many customers have completed service and been counted.
    pub closed spec fn spec_count(self) -> u32 {
        self.count
    }

    /// The queue being driven.
    pub closed spec fn spec_queue(self) -> Queue<S> {
        self.queue
    }

    /// Time remaining until the next external arrival.
    pub closed spec fn spec_time_until_arrival(self) -> u64 {
        self.time_until_arrival
    }

    /// How many steps so far resolved an exact tie between an arrival and a
    /// completion. Such a step completes a customer without counting it, so
    /// this ghost counter is exactly what the completion count misses.
    pub closed spec fn spec_ties(self) -> nat {
        self.ties@
    }

    /// The queue's occupancy.
    pub open spec fn queue_status(self) -> Status {
        self.spec_queue().spec_status()
    }

    /// The next arrival is always strictly in the future, and the queue is
    /// well formed.
    pub open spec fn wf(self) -> bool {
        &&& self.spec_time_until_arrival() > 0
        &&& self.spec_queue().wf()
    }

    /// The duration the next step will jump over: the time until the next
    /// arrival, or until the in-progress completion if that is sooner.
    pub open spec fn next_event_time(self) -> u64 {
        match self.queue_status() {
            Status::Idle => self.spec_time_until_arrival(),
            Status::Busy(t, _) => if t < self.spec_time_until_arrival() {
                t
            } else {
                self.spec_time_until_arrival()
            },
        }
    }

    /// Whether the next step resolves an arrival: the server is idle, or the
    /// next arrival is due no later than the in-progress completion. On an
    /// exact tie the arrival wins — a deliberate, observable tie-break.
    pub open spec fn arrival_is_next(self) -> bool {
        match self.queue_status() {
            Status::Idle => true,
            Status::Busy(t, _) => self.spec_time_until_arrival() <= t,
        }
    }

    /// Whether the next step completes the customer in service.
    pub open spec fn completion_is_next(self) -> bool {
        self.queue_status() matches Status::Busy(t, _) && t <= self.spec_time_until_arrival()
    }

    /// An exact tie: the next arrival is due at the very instant the customer
    /// in service completes.
    pub open spec fn tied(self) -> bool {
        self.queue_status() matches Status::Busy(t, _) && t == self.spec_time_until_arrival()
    }

    /// Conservation of customers against the completion count: everyone who
    /// ever arrived has either been counted as completed or is still present.
    /// A tied step breaks this: its completion goes uncounted.
    pub open spec fn conserved(self) -> bool {
        self.spec_queue().arrivals() == self.spec_count() + self.spec_queue().resident()
    }

    /// Conservation of customers with tied completions accounted for:
    /// everyone who ever arrived has been counted as completed, or slipped
    /// out uncounted in a tied step, or is still present. Unlike
    /// [`Self::conserved`], this holds of every reachable simulation.
    pub open spec fn accounted(self) -> bool {
        self.spec_queue().arrivals() == self.spec_count() + self.spec_ties()
            + self.spec_queue().resident()
    }

    /// A fresh simulation: clock and count at zero, an idle queue drawing
    /// service times from `job_size`, and the first arrival already
    /// scheduled by one draw from `inter_arrival_time`.
    pub fn new(inter_arrival_time: I, job_size: S) -> (r: Simulation<I, S>)
        ensures
            r.spec_clock() == 0,
            r.spec_count() == 0,
            r.queue_status() == Status::Idle,
            r.spec_queue().arrivals() == 0,
            r.spec_queue().departures() == 0,
            r.spec_ties() == 0,
            r.wf(),
            r.conserved(),
            r.accounted(),
    {
        let mut inter_arrival_time = inter_arrival_time;
        let time_until_arrival: u64 = inter_arrival_time.sample();
        Simulation {
            inter_arrival_time,
            clock: 0,
            count: 0,
            queue: Queue::new(job_size),
            time_until_arrival,
            ties: Ghost(0),
        }
    }

    /// The simulated clock, readable by callers.
    pub fn clock(&self) -> (r: u64)
        ensures
            r == self.spec_clock(),
    {
        self.clock
    }

    /// The completion count, readable by callers.
    pub fn count(&self) -> (r: u32)
        ensures
            r == self.spec_count(),
    {
        self.count
    }

    /// Time remaining until the next external arrival, readable by callers.
    pub fn time_until_arrival(&self) -> (r: u64)
        ensures
            r == self.spec_time_until_arrival(),
    {
        self.time_until_arrival
    }

    /// The queue being driven, readable by callers.
    pub fn queue(&self) -> (r: &Queue<S>)
        ensures
            *r == self.spec_queue(),
    {
        &self.queue
    }

    /// Advance the simulation by exactly one event.
    ///
    /// The clock jumps by [`Self::next_event_time`]. If the arrival is due
    /// first (ties included), the queue takes the new customer and the next
    /// arrival is rescheduled by a fresh draw; otherwise the completion that
    /// the jump lands on is resolved, the completion count goes up by one,
    /// and the arrival moves that much closer.
    ///
    /// The preconditions beyond well-formedness only keep the machine
    /// counters in range: the clock must have room for the jump and the two
    /// counts must not be at their maximum.
    pub fn step(&mut self)
        requires
            old(self).wf(),
            old(self).spec_clock() + old(self).spec_time_until_arrival() <= u64::MAX,
            old(self).spec_count() < u32::MAX,
            old(self).queue_status() matches Status::Busy(_, n) ==> n < u32::MAX,
        ensures
            final(self).wf(),
            final(self).spec_clock() == old(self).spec_clock() + old(self).next_event_time(),
            old(self).spec_clock() <= final(self).spec_clock(),
            final(self).spec_queue().arrivals() == old(self).spec_queue().arrivals() + (
                if old(self).arrival_is_next() { 1nat } else { 0nat }
            ),
            final(self).spec_queue().departures() == old(self).spec_queue().departures() + (
                if old(self).completion_is_next() { 1nat } else { 0nat }
            ),
            old(self).arrival_is_next() ==> {
                &&& final(self).spec_count() == old(self).spec_count()
                &&& final(self).spec_time_until_arrival() > 0
                &&& match old(self).queue_status() {
                    Status::Idle => {
                        &&& final(self).queue_status() matches Status::Busy(s, n)
                        &&& s > 0
                        &&& n == 0
                    },
                    Status::Busy(t, n) => if old(self).spec_time_until_arrival() < t {
                        final(self).queue_status() == Status::Busy(
                            (t - old(self).spec_time_until_arrival()) as u64,
                            (n + 1) as u32,
                        )
                    } else {
                        &&& final(self).queue_status() matches Status::Busy(s, m)
                        &&& s > 0
                        &&& m == n
                    },
                }
            },
            !old(self).arrival_is_next() ==> {
                &&& final(self).spec_count() == old(self).spec_count() + 1
                &&& final(self).spec_time_until_arrival() == old(self).spec_time_until_arrival()
                    - old(self).next_event_time()
                &&& match old(self).queue_status() {
                    Status::Idle => false,
                    Status::Busy(t, n) => if n == 0 {
                        final(self).queue_status() == Status::Idle
                    } else {
                        &&& final(self).queue_status() matches Status::Busy(s, m)
                        &&& s > 0
                        &&& m == (n - 1) as u32
                    },
                }
            },
            final(self).spec_ties() == old(self).spec_ties() + (
                if old(self).tied() { 1nat } else { 0nat }
            ),
            old(self).conserved() && !old(self).tied() ==> final(self).conserved(),
            old(self).accounted() ==> final(self).accounted(),
    {
        let completion = self.queue.time_until_completion();
        let time: u64 = match completion {
            None => self.time_until_arrival,
            Some(time_until_completion) => if time_until_completion < self.time_until_arrival {
                time_until_completion
            } else {
                self.time_until_arrival
            },
        };
        self.clock = self.clock + time;
        self.queue.elapse(time);
        if self.time_until_arrival == time {
            if let Some(time_until_completion) = completion {
                if time_until_completion == time {
                    self.ties = Ghost(self.ties@ + 1);
                }
            }
            self.queue.increment();
            self.time_until_arrival = self.inter_arrival_time.sample();
        } else {
            self.count = self.count + 1;
            self.time_until_arrival = self.time_until_arrival - time;
        }
    }
}

} // verus!
