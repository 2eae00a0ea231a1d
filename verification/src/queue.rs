use vstd::prelude::*;

use crate::sampler::Sampler;

verus! {

/// Occupancy of the single server.
///
/// `Busy(t, n)` holds the remaining service time `t` of the customer in
/// service (always strictly positive) and the number `n` of customers
/// waiting behind it. `Idle` carries no data: with no customer present
/// there is no remaining service time and nobody can be waiting.
#[derive(Clone, Copy, Debug, PartialEq, Eq, Structural)]
pub enum Status {
    Idle,
    Busy(u64, u32),
}

/// One server with unbounded waiting room.
///
/// The queue reacts to exactly two events: a new arrival ([`Queue::increment`])
/// and the passage of time ([`Queue::elapse`]). It draws a fresh service time
/// from its sampler whenever a customer enters service. The ghost counters
/// `arrivals` and `departures` record how many customers have ever entered
/// and left, so that conservation of customers can be stated and proved.
pub struct Queue<S: Sampler> {
    job_size: S,
    status: Status,
    arrivals: Ghost<nat>,
    departures: Ghost<nat>,
}

impl<S: Sampler> Queue<S> {
    /// The server's occupancy.
    pub closed spec fn spec_status(self) -> Status {
        self.status
    }

    /// How many customers have ever arrived at this queue.
    pub closed spec fn arrivals(self) -> nat {
        self.arrivals@
    }

    /// How many customers have completed service and left this queue.
    pub closed spec fn departures(self) -> nat {
        self.departures@
    }

    /// A busy server always has strictly positive time left until completion.
    pub open spec fn wf(self) -> bool {
        self.spec_status() matches Status::Busy(t, _) ==> t > 0
    }

    /// How many customers are present: the one in service plus those waiting.
    pub open spec fn resident(self) -> nat {
        match self.spec_status() {
            Status::Idle => 0,
            Status::Busy(_, n) => (n + 1) as nat,
        }
    }

    /// Conservation of customers: everyone who ever arrived has either left
    /// or is still present.
    pub open spec fn balanced(self) -> bool {
        self.arrivals() == self.departures() + self.resident()
    }

    /// The remaining service time of the customer in service, if any.
    pub open spec fn spec_time_until_completion(self) -> Option<u64> {
        match self.spec_status() {
            Status::Idle => None,
            Status::Busy(t, _) => Some(t),
        }
    }

    /// The number of customers waiting behind the one in service, if any.
    pub open spec fn spec_num_waiting(self) -> Option<u32> {
        match self.spec_status() {
            Status::Idle => None,
            Status::Busy(_, n) => Some(n),
        }
    }

    /// A fresh, idle queue that will draw service times from `job_size`.
    pub fn new(job_size: S) -> (q: Queue<S>)
        ensures
            q.spec_status() == Status::Idle,
            q.arrivals() == 0,
            q.departures() == 0,
            q.wf(),
            q.balanced(),
    {
        Queue {
            job_size,
            status: Status::Idle,
            arrivals: Ghost(0),
            departures: Ghost(0),
        }
    }

    /// The server's occupancy, readable by callers.
    pub fn status(&self) -> (r: Status)
        ensures
            r == self.spec_status(),
    {
        self.status
    }

    /// The remaining service time if the server is busy, absent if idle.
    /// A pure read: the result is a function of the current status alone.
    pub fn time_until_completion(&self) -> (r: Option<u64>)
        ensures
            r == self.spec_time_until_completion(),
    {
        match self.status {
            Status::Idle => None,
            Status::Busy(t, _) => Some(t),
        }
    }

    /// The number waiting if the server is busy, absent if idle.
    /// A pure read: the result is a function of the current status alone.
    pub fn num_waiting(&self) -> (r: Option<u32>)
        ensures
            r == self.spec_num_waiting(),
    {
        match self.status {
            Status::Idle => None,
            Status::Busy(_, n) => Some(n),
        }
    }

    /// Record one arrival. An arrival at an idle server enters service at
    /// once, with a freshly sampled service time; an arrival at a busy
    /// server joins the waiting line, leaving the one in service untouched.
    pub fn increment(&mut self)
        requires
            old(self).wf(),
            old(self).spec_status() matches Status::Busy(_, n) ==> n < u32::MAX,
        ensures
            final(self).wf(),
            final(self).arrivals() == old(self).arrivals() + 1,
            final(self).departures() == old(self).departures(),
            match old(self).spec_status() {
                Status::Idle => {
                    &&& final(self).spec_status() matches Status::Busy(s, n)
                    &&& s > 0
                    &&& n == 0
                },
                Status::Busy(t, n) => final(self).spec_status() == Status::Busy(t, (n + 1) as u32),
            },
            old(self).balanced() ==> final(self).balanced(),
    {
        self.arrivals = Ghost(self.arrivals@ + 1);
        match self.status {
            Status::Idle => {
                let s: u64 = self.job_size.sample();
                self.status = Status::Busy(s, 0);
            },
            Status::Busy(t, n) => {
                self.status = Status::Busy(t, n + 1);
            },
        }
    }

    /// Let `time` ticks pass. The caller must never let time pass beyond the
    /// in-service customer's completion: `time` must not exceed the remaining
    /// service time while busy, and must be strictly positive.
    ///
    /// Passing time at an idle server changes nothing. At a busy server,
    /// strictly less than the remaining service time just shortens it; time
    /// exactly equal to it completes the customer in service, and the server
    /// either goes idle (nobody waiting) or takes the next customer into
    /// service with a freshly sampled service time.
    pub fn elapse(&mut self, time: u64)
        requires
            old(self).wf(),
            time > 0,
            old(self).spec_status() matches Status::Busy(t, _) ==> time <= t,
        ensures
            final(self).wf(),
            final(self).arrivals() == old(self).arrivals(),
            match old(self).spec_status() {
                Status::Idle => {
                    &&& final(self).spec_status() == Status::Idle
                    &&& final(self).departures() == old(self).departures()
                },
                Status::Busy(t, n) => if time < t {
                    &&& final(self).spec_status() == Status::Busy((t - time) as u64, n)
                    &&& final(self).departures() == old(self).departures()
                } else if n == 0 {
                    &&& final(self).spec_status() == Status::Idle
                    &&& final(self).departures() == old(self).departures() + 1
                } else {
                    &&& final(self).spec_status() matches Status::Busy(s, m)
                    &&& s > 0
                    &&& m == (n - 1) as u32
                    &&& final(self).departures() == old(self).departures() + 1
                },
            },
            old(self).balanced() ==> final(self).balanced(),
    {
        match self.status {
            Status::Idle => {},
            Status::Busy(t, n) => {
                if time < t {
                    self.status = Status::Busy(t - time, n);
                } else {
                    self.departures = Ghost(self.departures@ + 1);
                    if n == 0 {
                        self.status = Status::Idle;
                    } else {
                        let s: u64 = self.job_size.sample();
                        self.status = Status::Busy(s, n - 1);
                    }
                }
            },
        }
    }
}

} // verus!
