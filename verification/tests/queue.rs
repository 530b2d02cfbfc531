use core::task::Waker;

use mcutie::queue::LossyQueueData;

#[test]
fn queue_pops_in_push_order() {
    let mut q: LossyQueueData<u32, 3> = LossyQueueData::new();
    q.push(1);
    q.push(2);
    assert_eq!(q.len(), 2);
    assert_eq!(q.poll_pop(Waker::noop()), Some(1));
    assert_eq!(q.poll_pop(Waker::noop()), Some(2));
    assert_eq!(q.poll_pop(Waker::noop()), None);
    assert_eq!(q.len(), 0);
}

#[test]
fn full_queue_drops_oldest() {
    let mut q: LossyQueueData<u32, 3> = LossyQueueData::new();
    for i in 1..=5 {
        q.push(i);
        assert!(q.len() <= 3);
    }
    assert_eq!(q.len(), 3);
    assert_eq!(q.poll_pop(Waker::noop()), Some(3));
    assert_eq!(q.poll_pop(Waker::noop()), Some(4));
    assert_eq!(q.poll_pop(Waker::noop()), Some(5));
    assert_eq!(q.poll_pop(Waker::noop()), None);
}

#[test]
fn zero_capacity_queue_holds_nothing() {
    let mut q: LossyQueueData<u32, 0> = LossyQueueData::new();
    q.push(7);
    assert_eq!(q.len(), 0);
    assert_eq!(q.poll_pop(Waker::noop()), None);
}
