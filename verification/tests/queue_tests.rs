use blocking_queue::interrupt::InterruptCheck;
use blocking_queue::interrupt::Interrupted;
use blocking_queue::interrupt::NeverInterrupted;
use blocking_queue::queue::wait_budget;
use blocking_queue::queue::Queue;
use blocking_queue::queue::WaitStep;
use blocking_queue::queue::NO_DEADLINE_NANOS;
use blocking_queue::queue::POLL_INTERVAL_NANOS;
use blocking_queue::QueueError;

/// An interrupt poll that reports a pending interrupt once `calls_left`
/// earlier polls have passed.
struct InterruptAfter {
    calls_left: u32,
    polls_seen: u32,
}

impl InterruptAfter {
    fn new(calls_left: u32) -> InterruptAfter {
        InterruptAfter { calls_left, polls_seen: 0 }
    }
}

impl InterruptCheck for InterruptAfter {
    fn check_interrupt(&mut self) -> Result<(), Interrupted> {
        self.polls_seen += 1;
        if self.calls_left == 0 {
            Err(Interrupted)
        } else {
            self.calls_left -= 1;
            Ok(())
        }
    }
}

#[test]
fn fifo_order_unbounded() {
    let mut q = Queue::new(0);
    let sent: Vec<u64> = vec![11, 22, 33, 44, 55];
    for &v in &sent {
        assert_eq!(q.put_nowait(v), Ok(()));
    }
    let mut got: Vec<u64> = Vec::new();
    while let Ok(v) = q.get_nowait() {
        got.push(v);
    }
    assert_eq!(got, sent);
}

#[test]
fn fifo_order_interleaved() {
    let mut q = Queue::new(0);
    assert_eq!(q.put_nowait(1), Ok(()));
    assert_eq!(q.put_nowait(2), Ok(()));
    assert_eq!(q.get_nowait(), Ok(1));
    assert_eq!(q.put_nowait(3), Ok(()));
    assert_eq!(q.get_nowait(), Ok(2));
    assert_eq!(q.get_nowait(), Ok(3));
    assert_eq!(q.get_nowait(), Err(QueueError::Empty));
}

#[test]
fn bounded_fill_full_drain_empty() {
    let n: usize = 3;
    let mut q = Queue::new(n);
    for v in 0..n as u64 {
        assert_eq!(q.put_nowait(v), Ok(()));
    }
    assert_eq!(q.put_nowait(99), Err(QueueError::Full));
    assert_eq!(q.qsize(), n);
    for v in 0..n as u64 {
        assert_eq!(q.get_nowait(), Ok(v));
    }
    assert_eq!(q.get_nowait(), Err(QueueError::Empty));
    assert!(q.empty());
}

#[test]
fn put_nonblocking_equals_put_nowait() {
    let mut nop = NeverInterrupted;
    let mut a = Queue::new(1);
    let mut b = Queue::new(1);
    assert_eq!(a.put(7, false, None, &mut nop), b.put_nowait(7));
    assert_eq!(a.put(8, false, Some(-3), &mut nop), b.put_nowait(8));
    assert_eq!(a.qsize(), b.qsize());
    assert_eq!(a.get_nowait(), b.get_nowait());
}

#[test]
fn get_nonblocking_equals_get_nowait() {
    let mut nop = NeverInterrupted;
    let mut a = Queue::new(0);
    let mut b = Queue::new(0);
    assert_eq!(a.get(false, None, &mut nop), b.get_nowait());
    a.put_nowait(5).unwrap();
    b.put_nowait(5).unwrap();
    assert_eq!(a.get(false, Some(-1), &mut nop), b.get_nowait());
    assert_eq!(a.get(false, None, &mut nop), b.get_nowait());
}

#[test]
fn negative_timeout_rejected_regardless_of_state() {
    let mut nop = NeverInterrupted;
    let neg: i64 = -1_000_000_000;

    let mut empty_q = Queue::new(2);
    assert_eq!(empty_q.put(1, true, Some(neg), &mut nop), Err(QueueError::InvalidArgument));
    assert_eq!(empty_q.get(true, Some(neg), &mut nop), Err(QueueError::InvalidArgument));
    assert_eq!(empty_q.qsize(), 0);

    let mut full_q = Queue::new(1);
    full_q.put_nowait(42).unwrap();
    assert_eq!(full_q.put(2, true, Some(neg), &mut nop), Err(QueueError::InvalidArgument));
    assert_eq!(full_q.get(true, Some(neg), &mut nop), Err(QueueError::InvalidArgument));
    assert_eq!(full_q.qsize(), 1);
    assert_eq!(full_q.get_nowait(), Ok(42));
}

#[test]
fn negative_timeout_ignored_when_not_blocking() {
    let mut nop = NeverInterrupted;
    let mut q = Queue::new(1);
    assert_eq!(q.put(1, false, Some(-1), &mut nop), Ok(()));
    assert_eq!(q.put(2, false, Some(-1), &mut nop), Err(QueueError::Full));
    assert_eq!(q.get(false, Some(-1), &mut nop), Ok(1));
    assert_eq!(q.get(false, Some(-1), &mut nop), Err(QueueError::Empty));
}

#[test]
fn get_timeout_elapses_then_empty() {
    let mut nop = NeverInterrupted;
    let mut q = Queue::new(0);
    let timeout_nanos: i64 = 50_000_000;
    let start = std::time::Instant::now();
    let r = q.get(true, Some(timeout_nanos), &mut nop);
    let elapsed = start.elapsed();
    assert_eq!(r, Err(QueueError::Empty));
    assert!(elapsed >= std::time::Duration::from_millis(45), "returned too early: {:?}", elapsed);
    assert!(elapsed < std::time::Duration::from_secs(2), "returned far too late: {:?}", elapsed);
}

#[test]
fn put_timeout_elapses_then_full() {
    let mut nop = NeverInterrupted;
    let mut q = Queue::new(1);
    q.put_nowait(1).unwrap();
    let start = std::time::Instant::now();
    let r = q.put(2, true, Some(50_000_000), &mut nop);
    let elapsed = start.elapsed();
    assert_eq!(r, Err(QueueError::Full));
    assert!(elapsed >= std::time::Duration::from_millis(45), "returned too early: {:?}", elapsed);
    assert!(elapsed < std::time::Duration::from_secs(2), "returned far too late: {:?}", elapsed);
    assert_eq!(q.qsize(), 1);
}

#[test]
fn zero_timeout_degenerates_to_single_attempt() {
    let mut nop = NeverInterrupted;
    let mut full_q = Queue::new(1);
    full_q.put_nowait(1).unwrap();
    let start = std::time::Instant::now();
    assert_eq!(full_q.put(2, true, Some(0), &mut nop), Err(QueueError::Full));
    let mut empty_q = Queue::new(0);
    assert_eq!(empty_q.get(true, Some(0), &mut nop), Err(QueueError::Empty));
    assert!(start.elapsed() < std::time::Duration::from_secs(1));
}

#[test]
fn put_succeeds_once_room_frees_up() {
    let mut nop = NeverInterrupted;
    let mut q = Queue::new(2);
    q.put_nowait(1).unwrap();
    q.put_nowait(2).unwrap();
    assert_eq!(q.put_nowait(3), Err(QueueError::Full));
    assert_eq!(q.get_nowait(), Ok(1));
    assert_eq!(q.put(3, true, None, &mut nop), Ok(()));
    assert_eq!(q.get_nowait(), Ok(2));
    assert_eq!(q.get_nowait(), Ok(3));
}

#[test]
fn interrupt_ends_blocking_get_within_one_poll_interval() {
    let mut poller = InterruptAfter::new(0);
    let mut q = Queue::new(0);
    let start = std::time::Instant::now();
    let r = q.get(true, None, &mut poller);
    let elapsed = start.elapsed();
    assert_eq!(r, Err(QueueError::Interrupted));
    assert!(elapsed >= std::time::Duration::from_millis(150), "wait slice skipped: {:?}", elapsed);
    assert!(elapsed < std::time::Duration::from_secs(2), "interrupt seen too late: {:?}", elapsed);
    assert_eq!(poller.polls_seen, 1);
}

#[test]
fn interrupt_ends_blocking_put_and_leaves_buffer_alone() {
    let mut poller = InterruptAfter::new(1);
    let mut q = Queue::new(1);
    q.put_nowait(5).unwrap();
    let r = q.put(6, true, None, &mut poller);
    assert_eq!(r, Err(QueueError::Interrupted));
    assert_eq!(poller.polls_seen, 2);
    assert_eq!(q.qsize(), 1);
    assert_eq!(q.get_nowait(), Ok(5));
}

#[test]
fn short_timeout_beats_pending_interrupt() {
    let mut eager = InterruptAfter::new(0);
    let mut empty_q = Queue::new(0);
    assert_eq!(empty_q.get(true, Some(50_000_000), &mut eager), Err(QueueError::Empty));
    assert_eq!(eager.polls_seen, 0);

    let mut full_q = Queue::new(1);
    full_q.put_nowait(4).unwrap();
    assert_eq!(full_q.put(5, true, Some(50_000_000), &mut eager), Err(QueueError::Full));
    assert_eq!(eager.polls_seen, 0);
    assert_eq!(full_q.get_nowait(), Ok(4));
}

#[test]
fn wait_budget_validates_and_converts() {
    assert_eq!(wait_budget(Some(-1)), Err(QueueError::InvalidArgument));
    assert_eq!(wait_budget(Some(0)), Ok(0));
    assert_eq!(wait_budget(Some(50_000_000)), Ok(50_000_000));
    assert_eq!(wait_budget(None), Ok(NO_DEADLINE_NANOS));
}

#[test]
fn put_slice_spends_budget_then_reports_full() {
    let mut q = Queue::new(1);
    q.put_nowait(1).unwrap();
    let budget = POLL_INTERVAL_NANOS / 4;
    assert_eq!(
        q.put_slice(2, POLL_INTERVAL_NANOS + budget),
        WaitStep::Again(budget)
    );
    assert_eq!(q.put_slice(2, budget), WaitStep::Done(Err(QueueError::Full)));
    assert_eq!(q.qsize(), 1);
}

#[test]
fn get_slice_spends_budget_then_reports_empty() {
    let mut q = Queue::new(0);
    let budget = POLL_INTERVAL_NANOS / 4;
    assert_eq!(
        q.get_slice(POLL_INTERVAL_NANOS + budget),
        WaitStep::Again(budget)
    );
    assert_eq!(q.get_slice(budget), WaitStep::Done(Err(QueueError::Empty)));
    assert!(q.empty());
}

#[test]
fn slices_deliver_at_once_when_ready() {
    let mut q = Queue::new(1);
    assert_eq!(q.put_slice(7, 1), WaitStep::Done(Ok(())));
    assert_eq!(q.get_slice(1), WaitStep::Done(Ok(7)));
}

#[test]
fn waiter_rescued_between_slices() {
    // a parked put holds no borrow of the queue between two slices, so a
    // consumer can free room there and the next slice delivers the item
    let mut q = Queue::new(1);
    q.put_nowait(1).unwrap();
    let step = q.put_slice(2, NO_DEADLINE_NANOS);
    assert!(matches!(step, WaitStep::Again(_)));
    assert_eq!(q.get_nowait(), Ok(1));
    let rest = match step {
        WaitStep::Again(rest) => rest,
        WaitStep::Done(_) => unreachable!(),
    };
    assert_eq!(q.put_slice(2, rest), WaitStep::Done(Ok(())));
    assert_eq!(q.get_nowait(), Ok(2));
}

#[test]
fn qsize_and_empty_report_counts() {
    let mut q = Queue::new(0);
    assert_eq!(q.qsize(), 0);
    assert!(q.empty());
    let n: u64 = 6;
    let m: u64 = 4;
    for v in 0..n {
        q.put_nowait(v).unwrap();
    }
    for _ in 0..m {
        q.get_nowait().unwrap();
    }
    assert_eq!(q.qsize(), (n - m) as usize);
    assert_eq!(q.empty(), n == m);
    for _ in 0..(n - m) {
        q.get_nowait().unwrap();
    }
    assert_eq!(q.qsize(), 0);
    assert!(q.empty());
}

#[test]
fn unbounded_queue_takes_many_items() {
    let mut q = Queue::new(0);
    for v in 0..10_000u64 {
        assert_eq!(q.put_nowait(v), Ok(()));
    }
    assert_eq!(q.qsize(), 10_000);
    assert_eq!(q.get_nowait(), Ok(0));
}

#[test]
fn blocking_get_returns_buffered_item_at_once() {
    let mut nop = NeverInterrupted;
    let mut q = Queue::new(0);
    q.put_nowait(9).unwrap();
    let start = std::time::Instant::now();
    assert_eq!(q.get(true, None, &mut nop), Ok(9));
    assert!(start.elapsed() < std::time::Duration::from_millis(100));
}

#[test]
fn blocking_put_with_room_succeeds_at_once() {
    let mut nop = NeverInterrupted;
    let mut q = Queue::new(1);
    let start = std::time::Instant::now();
    assert_eq!(q.put(3, true, None, &mut nop), Ok(()));
    assert!(start.elapsed() < std::time::Duration::from_millis(100));
    assert_eq!(q.get_nowait(), Ok(3));
}
