use core::task::Waker;

use mcutie::pipe::{swap_wakers, waker_choice, PipeData, WakerChoice};

/// Pushes `value`, polling until the push is done or it has to wait.
fn push(pipe: &mut PipeData<usize, 5>, value: usize) -> (bool, Option<usize>) {
    let mut data = Some(value);
    let done = pipe.poll_push(&mut data, Waker::noop());
    (done, data)
}

#[test]
fn test_send_receive() {
    let mut pipe: PipeData<usize, 5> = PipeData::new();
    pipe.connect();

    // The receiver starts first and has to wait.
    assert_eq!(pipe.poll_receive(Waker::noop()), None);

    for expected in [23, 56, 67] {
        let (done, left) = push(&mut pipe, expected);
        assert!(done);
        assert_eq!(left, None);
        assert_eq!(pipe.poll_receive(Waker::noop()), Some(expected));
    }
}

#[test]
fn test_send_drop() {
    let mut pipe: PipeData<usize, 5> = PipeData::new();

    // Without a reader every push is done at once and the data is dropped.
    for value in [23, 56, 67] {
        let (done, left) = push(&mut pipe, value);
        assert!(done);
        assert_eq!(left, Some(value));
    }

    // Create a reader after sending: there should be nothing to receive.
    pipe.connect();
    assert_eq!(pipe.poll_receive(Waker::noop()), None);
}

#[test]
fn test_bulk_send_publish() {
    let mut pipe: PipeData<usize, 5> = PipeData::new();
    pipe.connect();

    // Two senders take turns; each retries a push that had to wait.
    let mut first = 0usize..1000;
    let mut second = 1000usize..2000;
    let mut waiting: [Option<usize>; 2] = [None, None];
    let mut received = 0;
    let mut last_of_each = [None, None];

    while received < 800 {
        for sender in 0..2 {
            let next = match waiting[sender].take() {
                Some(v) => Some(v),
                None => {
                    if sender == 0 {
                        first.next()
                    } else {
                        second.next()
                    }
                }
            };
            if let Some(v) = next {
                let (done, left) = push(&mut pipe, v);
                if !done {
                    waiting[sender] = left;
                }
            }
        }
        if let Some(v) = pipe.poll_receive(Waker::noop()) {
            // Each sender's items come out in the order they were sent.
            let who = if v < 1000 { 0 } else { 1 };
            if let Some(prev) = last_of_each[who] {
                assert!(v > prev);
            }
            last_of_each[who] = Some(v);
            received += 1;
        }
    }
    assert_eq!(received, 800);
}

#[test]
fn push_into_taken_slot_waits_and_keeps_item() {
    let mut pipe: PipeData<u8, 1> = PipeData::new();
    pipe.connect();
    let mut a = Some(1u8);
    assert!(pipe.poll_push(&mut a, Waker::noop()));
    let mut b = Some(2u8);
    assert!(!pipe.poll_push(&mut b, Waker::noop()));
    assert_eq!(b, Some(2));
    assert_eq!(pipe.poll_receive(Waker::noop()), Some(1));
    assert!(pipe.poll_push(&mut b, Waker::noop()));
    assert_eq!(b, None);
    assert_eq!(pipe.poll_receive(Waker::noop()), Some(2));
}

#[test]
fn last_reader_leaving_drops_pending_item() {
    let mut pipe: PipeData<u8, 1> = PipeData::new();
    pipe.connect();
    let mut a = Some(9u8);
    assert!(pipe.poll_push(&mut a, Waker::noop()));
    pipe.disconnect();
    pipe.connect();
    assert_eq!(pipe.poll_receive(Waker::noop()), None);
}

#[test]
fn pushing_nothing_is_done_at_once() {
    let mut pipe: PipeData<u8, 1> = PipeData::new();
    pipe.connect();
    let mut none: Option<u8> = None;
    assert!(pipe.poll_push(&mut none, Waker::noop()));
    assert_eq!(pipe.poll_receive(Waker::noop()), None);
}

#[test]
fn swap_wakers_fills_an_empty_slot() {
    let mut slot: Option<Waker> = None;
    swap_wakers(&mut slot, Waker::noop());
    assert!(slot.is_some());
    swap_wakers(&mut slot, Waker::noop());
    assert!(slot.is_some());
}

#[test]
fn waker_choices() {
    assert_eq!(waker_choice(false, false, false), WakerChoice::Replace);
    assert_eq!(waker_choice(false, true, true), WakerChoice::Replace);
    assert_eq!(waker_choice(true, true, false), WakerChoice::Keep);
    assert_eq!(waker_choice(true, true, true), WakerChoice::Keep);
    assert_eq!(waker_choice(true, false, true), WakerChoice::Replace);
    assert_eq!(waker_choice(true, false, false), WakerChoice::WakeOldAndReplace);
}
