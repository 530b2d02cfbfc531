//! A FIFO queue holding a fixed number of items. Older items are dropped if
//! the queue is full when a new item is pushed. This is the state that the
//! queue's futures share and the steps they take on it.
use core::task::Waker;
use std::collections::VecDeque;
use vstd::prelude::*;
use crate::pipe::{opt_seq, waker_clone, waker_wake};

verus! {

/// The queue's contents after pushing `item` onto a queue of capacity `n`:
/// at the back, dropping the oldest item when full; nothing fits in a queue
/// of capacity zero.
pub open spec fn push_spec<T>(items: Seq<T>, item: T, n: nat) -> Seq<T> {
    if n == 0 {
        items
    } else if items.len() >= n {
        items.drop_first().push(item)
    } else {
        items.push(item)
    }
}

/// The items of a lossy queue, oldest first, and a receiver waiting for one.
pub struct LossyQueueData<T, const N: usize> {
    receiver_waker: Option<Waker>,
    queue: VecDeque<T>,
    woken: Ghost<Seq<Waker>>,
}

impl<T, const N: usize> LossyQueueData<T, N> {
    #[verifier::type_invariant]
    spec fn inv(&self) -> bool {
        self.queue@.len() <= N
    }

    /// The items, oldest first.
    pub closed spec fn items(&self) -> Seq<T> {
        self.queue@
    }

    /// Whether a receiver waits to be woken.
    pub closed spec fn receiver_waiting(&self) -> bool {
        self.receiver_waker is Some
    }

    /// The waker of a receiver waiting for an item.
    pub closed spec fn receiver_waker(&self) -> Option<Waker> {
        self.receiver_waker
    }

    /// The wakers woken so far, in order.
    pub closed spec fn woken(&self) -> Seq<Waker> {
        self.woken@
    }

    /// An empty queue.
    pub fn new() -> (r: Self)
        ensures
            r.items() == Seq::<T>::empty(),
            !r.receiver_waiting(),
            r.woken() == Seq::<Waker>::empty(),
    {
        LossyQueueData { receiver_waker: None, queue: VecDeque::new(), woken: Ghost(Seq::empty()) }
    }

    /// How many items the queue holds, never more than `N`.
    pub fn len(&self) -> (r: usize)
        ensures
            r == self.items().len(),
            r <= N,
    {
        proof {
            use_type_invariant(self);
        }
        self.queue.len()
    }

    /// One poll of a pop: the oldest item, or `None` when the receiver has to
    /// wait to be woken through `waker`. A receiver that waited is woken first.
    pub fn poll_pop(&mut self, waker: &Waker) -> (r: Option<T>)
        ensures
            final(self).woken() == old(self).woken() + opt_seq(old(self).receiver_waker()),
            r is Some ==> final(self).receiver_waker() is None,
            old(self).items().len() > 0 ==> r == Some(old(self).items()[0]) && final(self).items()
                == old(self).items().drop_first() && !final(self).receiver_waiting(),
            old(self).items().len() == 0 ==> r is None && final(self).items() == old(self).items()
                && final(self).receiver_waiting(),
    {
        proof {
            use_type_invariant(&*self);
        }
        let mut queue = VecDeque::new();
        core::mem::swap(&mut queue, &mut self.queue);
        let mut slot: Option<Waker> = None;
        core::mem::swap(&mut slot, &mut self.receiver_waker);
        if let Some(old_waker) = slot {
            self.woken = Ghost(self.woken@.push(old_waker));
            waker_wake(old_waker);
        }
        assert(self.woken@ =~= old(self).woken() + opt_seq(old(self).receiver_waker()));
        let r = queue.pop_front();
        match r {
            Some(_) => {
                self.queue = queue;
            },
            None => {
                self.queue = queue;
                self.receiver_waker = Some(waker_clone(waker));
            },
        }
        r
    }

    /// Pushes an item into the queue. If the queue is already full the oldest
    /// item is dropped to make space. A waiting receiver is woken.
    pub fn push(&mut self, data: T)
        ensures
            final(self).items() == push_spec(old(self).items(), data, N as nat),
            !final(self).receiver_waiting(),
            final(self).receiver_waker() is None,
            final(self).woken() == old(self).woken() + opt_seq(old(self).receiver_waker()),
    {
        proof {
            use_type_invariant(&*self);
        }
        let mut queue = VecDeque::new();
        core::mem::swap(&mut queue, &mut self.queue);
        if queue.len() >= N {
            let _ = queue.pop_front();
        }
        if queue.len() < N {
            queue.push_back(data);
        }
        self.queue = queue;
        let mut slot: Option<Waker> = None;
        core::mem::swap(&mut slot, &mut self.receiver_waker);
        if let Some(old_waker) = slot {
            self.woken = Ghost(self.woken@.push(old_waker));
            waker_wake(old_waker);
        }
        assert(self.woken@ =~= old(self).woken() + opt_seq(old(self).receiver_waker()));
    }
}

/// The queue never holds more than its capacity, and a push onto a queue that
/// is not full keeps every item and adds the new one last.
pub proof fn lemma_push_bounded<T>(items: Seq<T>, item: T, n: nat)
    requires
        items.len() <= n,
    ensures
        push_spec(items, item, n).len() <= n,
        items.len() < n ==> push_spec(items, item, n) == items.push(item),
        n > 0 && items.len() == n ==> push_spec(items, item, n) == items.drop_first().push(item),
{
}

} // verus!
