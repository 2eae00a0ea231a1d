use queue_sim::queue::Queue;
use queue_sim::queue::Status;
use queue_sim::sampler::FixedSampler;
use queue_sim::sampler::Sampler;

#[test]
fn fixed_sampler_cycles_through_its_values() {
    let mut s = FixedSampler::new(vec![5, 3]);
    assert_eq!(s.sample(), 5);
    assert_eq!(s.sample(), 3);
    assert_eq!(s.sample(), 5);
    assert_eq!(s.sample(), 3);
}

#[test]
fn fresh_queue_is_idle() {
    let q = Queue::new(FixedSampler::new(vec![7]));
    assert_eq!(q.status(), Status::Idle);
    assert_eq!(q.time_until_completion(), None);
    assert_eq!(q.num_waiting(), None);
}

#[test]
fn arrival_at_idle_server_enters_service() {
    // Fresh queue, one arrival: the customer enters service at once with a
    // sampled service time, and nobody is waiting.
    let mut q = Queue::new(FixedSampler::new(vec![7]));
    q.increment();
    assert_eq!(q.status(), Status::Busy(7, 0));
    assert_eq!(q.time_until_completion(), Some(7));
    assert_eq!(q.num_waiting(), Some(0));
}

#[test]
fn arrival_at_busy_server_joins_the_line() {
    let mut q = Queue::new(FixedSampler::new(vec![7]));
    q.increment();
    q.increment();
    q.increment();
    // The remaining service time is untouched; only the line grows.
    assert_eq!(q.status(), Status::Busy(7, 2));
}

#[test]
fn elapse_short_of_completion_shortens_service() {
    // Busy(5, 0), elapse 3 ticks: Busy(2, 0).
    let mut q = Queue::new(FixedSampler::new(vec![5]));
    q.increment();
    q.elapse(3);
    assert_eq!(q.status(), Status::Busy(2, 0));
}

#[test]
fn elapse_to_completion_with_nobody_waiting_goes_idle() {
    // Busy(2, 0), elapse 2 ticks: Idle.
    let mut q = Queue::new(FixedSampler::new(vec![2]));
    q.increment();
    q.elapse(2);
    assert_eq!(q.status(), Status::Idle);
    assert_eq!(q.time_until_completion(), None);
    assert_eq!(q.num_waiting(), None);
}

#[test]
fn elapse_to_completion_takes_next_customer_into_service() {
    // Busy(2, 2), elapse 2 ticks: the next customer enters service with a
    // freshly sampled service time, one customer keeps waiting.
    let mut q = Queue::new(FixedSampler::new(vec![2, 9]));
    q.increment();
    q.increment();
    q.increment();
    assert_eq!(q.status(), Status::Busy(2, 2));
    q.elapse(2);
    assert_eq!(q.status(), Status::Busy(9, 1));
    assert!(q.time_until_completion().unwrap() > 0);
}

#[test]
fn elapse_at_idle_server_changes_nothing() {
    let mut q = Queue::new(FixedSampler::new(vec![4]));
    q.elapse(10);
    assert_eq!(q.status(), Status::Idle);
}

#[test]
fn busy_states_always_show_positive_remaining_service() {
    // Drive the queue through every kind of transition and watch the
    // invariant: whenever the server is busy, its remaining time is > 0.
    let mut q = Queue::new(FixedSampler::new(vec![3, 1, 4]));
    q.increment();
    q.increment();
    q.elapse(2);
    q.elapse(1);
    q.increment();
    q.elapse(1);
    let mut seen_busy: u32 = 0;
    for _ in 0..6 {
        if let Some(t) = q.time_until_completion() {
            assert!(t > 0);
            seen_busy += 1;
            q.elapse(t);
        } else {
            q.increment();
        }
    }
    assert!(seen_busy > 0);
}

#[test]
fn reads_are_idempotent() {
    let mut q = Queue::new(FixedSampler::new(vec![6]));
    assert_eq!(q.time_until_completion(), q.time_until_completion());
    assert_eq!(q.num_waiting(), q.num_waiting());
    q.increment();
    q.increment();
    assert_eq!(q.time_until_completion(), q.time_until_completion());
    assert_eq!(q.num_waiting(), q.num_waiting());
    assert_eq!(q.time_until_completion(), Some(6));
    assert_eq!(q.num_waiting(), Some(1));
}
