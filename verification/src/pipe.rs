//! A single slot pipe that knows whether a receiver is connected. While one
//! is, pushing waits until the slot is free; otherwise the data is dropped.
//! This is the state that the pipe's futures share and the steps they take
//! on it; waiting and waking are done through the wakers it keeps.
use core::task::Waker;
use vstd::prelude::*;

verus! {

#[verifier::external_type_specification]
#[verifier::external_body]
pub struct ExWaker(Waker);

/// `Waker::will_wake`. Nothing is claimed of the answer.
#[verifier::external_body]
fn waker_will_wake(waker: &Waker, other: &Waker) -> (r: bool) {
    waker.will_wake(other)
}

/// `Waker::wake`. Nothing is claimed of its effect on the task.
#[verifier::external_body]
pub(crate) fn waker_wake(waker: Waker) {
    waker.wake()
}

/// `Waker::clone`. Nothing is claimed of the copy.
#[verifier::external_body]
pub(crate) fn waker_clone(waker: &Waker) -> (r: Waker) {
    waker.clone()
}

/// The waker an optional slot holds, as a list of none or one.
pub open spec fn opt_seq(w: Option<Waker>) -> Seq<Waker> {
    match w {
        Some(w) => seq![w],
        None => Seq::empty(),
    }
}

/// Wakes the waker held in `slot`, if any, and empties the slot; the waker
/// woken is added to the record `woken`.
fn wake_slot(slot: &mut Option<Waker>, woken: &mut Ghost<Seq<Waker>>)
    ensures
        *final(slot) is None,
        final(woken)@ == old(woken)@ + opt_seq(*old(slot)),
{
    match slot.take() {
        Some(waker) => {
            *woken = Ghost(woken@.push(waker));
            assert(woken@ =~= old(woken)@ + opt_seq(*old(slot)));
            waker_wake(waker);
        },
        None => {
            assert(woken@ + opt_seq(None) =~= woken@);
        },
    }
}

/// What becomes of a waker slot when a new waker is offered.
#[derive(Clone, Copy, PartialEq, Eq, Structural, Debug)]
pub enum WakerChoice {
    /// The waker in the slot stays.
    Keep,
    /// A copy of the new waker takes its place, and the old one is dropped.
    Replace,
    /// The old waker is woken, and a copy of the new waker takes its place.
    WakeOldAndReplace,
}

/// The choice for a slot, given whether it holds a waker, whether that waker
/// would wake the new one's task (`old_wakes_new`), and whether the new one
/// would wake the old one's (`new_wakes_old`): an empty slot takes the new
/// waker; an old waker that stands in for the new one is kept; otherwise the
/// new waker goes in, and the old one is woken unless the new one stands in
/// for it.
pub open spec fn waker_choice_spec(has_old: bool, old_wakes_new: bool, new_wakes_old: bool) -> WakerChoice {
    if !has_old {
        WakerChoice::Replace
    } else if old_wakes_new {
        WakerChoice::Keep
    } else if new_wakes_old {
        WakerChoice::Replace
    } else {
        WakerChoice::WakeOldAndReplace
    }
}

/// The choice for a slot; see [`waker_choice_spec`].
pub fn waker_choice(has_old: bool, old_wakes_new: bool, new_wakes_old: bool) -> (r: WakerChoice)
    ensures
        r == waker_choice_spec(has_old, old_wakes_new, new_wakes_old),
{
    if !has_old {
        WakerChoice::Replace
    } else if old_wakes_new {
        WakerChoice::Keep
    } else if new_wakes_old {
        WakerChoice::Replace
    } else {
        WakerChoice::WakeOldAndReplace
    }
}

/// What a swap did to a slot, given the two `will_wake` answers it got and
/// the waker it woke: a kept waker leaves the slot as it was; otherwise the
/// slot holds a copy of the new waker (a waker that wakes the same task; its
/// identity is not stated); the old waker is woken exactly when the choice
/// says so.
pub open spec fn swap_outcome(
    old_slot: Option<Waker>,
    new_slot: Option<Waker>,
    old_wakes_new: bool,
    new_wakes_old: bool,
    woken: Option<Waker>,
) -> bool {
    let c = waker_choice_spec(old_slot is Some, old_wakes_new, new_wakes_old);
    &&& (c == WakerChoice::Keep ==> new_slot == old_slot)
    &&& (c != WakerChoice::Keep ==> new_slot is Some)
    &&& woken == (if c == WakerChoice::WakeOldAndReplace {
        old_slot
    } else {
        None
    })
}

/// What any swap leaves, whatever the `will_wake` answers: the slot holds a
/// waker, and at most the old waker was woken.
pub open spec fn swapped(old_slot: Option<Waker>, new_slot: Option<Waker>, woken: Seq<Waker>) -> bool {
    &&& new_slot is Some
    &&& (woken == Seq::<Waker>::empty() || (old_slot is Some && woken == opt_seq(old_slot)))
}

/// Puts `new_waker` in the slot. A different waker that was there is woken,
/// unless waking `new_waker` would wake it too; one that `new_waker` stands in
/// for is kept. Returns, as a record, the two `will_wake` answers the choice
/// was made on and the waker it woke.
pub fn swap_wakers(waker: &mut Option<Waker>, new_waker: &Waker) -> (r: Ghost<(bool, bool, Option<Waker>)>)
    ensures
        swap_outcome(*old(waker), *final(waker), r@.0, r@.1, r@.2),
        swapped(*old(waker), *final(waker), opt_seq(r@.2)),
{
    match waker.take() {
        None => {
            *waker = Some(waker_clone(new_waker));
            Ghost((false, false, None))
        },
        Some(old_waker) => {
            let old_wakes_new = waker_will_wake(&old_waker, new_waker);
            let new_wakes_old = if old_wakes_new {
                false
            } else {
                waker_will_wake(new_waker, &old_waker)
            };
            match waker_choice(true, old_wakes_new, new_wakes_old) {
                WakerChoice::Keep => {
                    *waker = Some(old_waker);
                    Ghost((old_wakes_new, new_wakes_old, None))
                },
                WakerChoice::Replace => {
                    *waker = Some(waker_clone(new_waker));
                    Ghost((old_wakes_new, new_wakes_old, None))
                },
                WakerChoice::WakeOldAndReplace => {
                    let record = Ghost((old_wakes_new, new_wakes_old, Some(old_waker)));
                    waker_wake(old_waker);
                    *waker = Some(waker_clone(new_waker));
                    record
                },
            }
        },
    }
}

/// The state of a pipe as plain values.
pub struct PipeView<T> {
    /// How many readers are connected.
    pub connect_count: nat,
    /// The item waiting in the slot.
    pub pending: Option<T>,
    /// Whether a receiver waits to be woken.
    pub receiver_waiting: bool,
    /// Whether a sender waits to be woken.
    pub sender_waiting: bool,
}

/// The state shared by the ends of a pipe.
pub struct PipeData<T, const N: usize> {
    connect_count: usize,
    receiver_waker: Option<Waker>,
    sender_waker: Option<Waker>,
    pending: Option<T>,
    woken: Ghost<Seq<Waker>>,
}

impl<T, const N: usize> View for PipeData<T, N> {
    type V = PipeView<T>;

    closed spec fn view(&self) -> PipeView<T> {
        PipeView {
            connect_count: self.connect_count as nat,
            pending: self.pending,
            receiver_waiting: self.receiver_waker is Some,
            sender_waiting: self.sender_waker is Some,
        }
    }
}

/// A receive step: a sender is woken; an item in the slot is taken (and a
/// waiting receiver woken), otherwise the receiver waits.
pub open spec fn receive_step<T>(s: PipeView<T>) -> (PipeView<T>, Option<T>) {
    match s.pending {
        Some(item) => (
            PipeView {
                pending: None,
                receiver_waiting: false,
                sender_waiting: false,
                ..s
            },
            Some(item),
        ),
        None => (PipeView { receiver_waiting: true, sender_waiting: false, ..s }, None),
    }
}

/// A push step, given the data that the push still holds: a receiver is woken;
/// with no data or no reader the push is done (the data is dropped); with the
/// slot taken the sender waits; otherwise the data moves into the slot.
/// Returns the new state, whether the push is done, and the data it still holds.
pub open spec fn push_step<T>(s: PipeView<T>, data: Option<T>) -> (PipeView<T>, bool, Option<T>) {
    let s1 = PipeView { receiver_waiting: false, ..s };
    if data is None || s.connect_count == 0 {
        (s1, true, data)
    } else if s.pending is Some {
        (PipeView { sender_waiting: true, ..s1 }, false, data)
    } else {
        (PipeView { pending: data, ..s1 }, true, None)
    }
}

/// A reader leaves: when it was the last, what waits in the slot is dropped;
/// a sender is woken.
pub open spec fn disconnect_step<T>(s: PipeView<T>) -> PipeView<T> {
    let count = (s.connect_count - 1) as nat;
    PipeView {
        connect_count: count,
        pending: if count == 0 {
            None
        } else {
            s.pending
        },
        sender_waiting: false,
        ..s
    }
}

impl<T, const N: usize> PipeData<T, N> {
    /// The waker of a receiver waiting for an item.
    pub closed spec fn receiver_waker(&self) -> Option<Waker> {
        self.receiver_waker
    }

    /// The waker of a sender waiting for the slot.
    pub closed spec fn sender_waker(&self) -> Option<Waker> {
        self.sender_waker
    }

    /// The wakers woken so far, in order.
    pub closed spec fn woken(&self) -> Seq<Waker> {
        self.woken@
    }

    /// A pipe with no reader and nothing in its slot.
    pub fn new() -> (r: Self)
        ensures
            r@ == (PipeView::<T> {
                connect_count: 0,
                pending: None,
                receiver_waiting: false,
                sender_waiting: false,
            }),
            r.receiver_waker() is None,
            r.sender_waker() is None,
            r.woken() == Seq::<Waker>::empty(),
    {
        PipeData {
            connect_count: 0,
            receiver_waker: None,
            sender_waker: None,
            pending: None,
            woken: Ghost(Seq::empty()),
        }
    }

    /// How many readers are connected.
    pub fn readers(&self) -> (r: usize)
        ensures
            r == self@.connect_count,
    {
        self.connect_count
    }

    /// A reader connects.
    pub fn connect(&mut self)
        requires
            old(self)@.connect_count < usize::MAX,
        ensures
            final(self)@ == (PipeView { connect_count: old(self)@.connect_count + 1, ..old(self)@ }),
            final(self).receiver_waker() == old(self).receiver_waker(),
            final(self).sender_waker() == old(self).sender_waker(),
            final(self).woken() == old(self).woken(),
    {
        self.connect_count = self.connect_count + 1;
    }

    /// A reader leaves; a waiting sender is woken.
    pub fn disconnect(&mut self)
        requires
            old(self)@.connect_count > 0,
        ensures
            final(self)@ == disconnect_step(old(self)@),
            final(self).sender_waker() is None,
            final(self).receiver_waker() == old(self).receiver_waker(),
            final(self).woken() == old(self).woken() + opt_seq(old(self).sender_waker()),
    {
        self.connect_count = self.connect_count - 1;
        if self.connect_count == 0 {
            self.pending = None;
        }
        wake_slot(&mut self.sender_waker, &mut self.woken);
    }

    /// One poll of a receive: the item in the slot, or `None` when the
    /// receiver has to wait to be woken through `waker`. A waiting sender is
    /// woken first; taking the item also wakes a receiver that waited.
    pub fn poll_receive(&mut self, waker: &Waker) -> (r: Option<T>)
        ensures
            (final(self)@, r) == receive_step(old(self)@),
            final(self).sender_waker() is None,
            ({
                let w1 = old(self).woken() + opt_seq(old(self).sender_waker());
                &&& old(self)@.pending is Some ==> final(self).receiver_waker() is None
                    && final(self).woken() == w1 + opt_seq(old(self).receiver_waker())
                &&& old(self)@.pending is None ==> final(self).woken().take(w1.len() as int) == w1
                    && swapped(
                    old(self).receiver_waker(),
                    final(self).receiver_waker(),
                    final(self).woken().skip(w1.len() as int),
                )
            }),
    {
        wake_slot(&mut self.sender_waker, &mut self.woken);
        let ghost w1 = self.woken@;
        if let Some(item) = self.pending.take() {
            wake_slot(&mut self.receiver_waker, &mut self.woken);
            Some(item)
        } else {
            let record = swap_wakers(&mut self.receiver_waker, waker);
            self.woken = Ghost(self.woken@ + opt_seq(record@.2));
            assert(self.woken@.take(w1.len() as int) =~= w1);
            assert(self.woken@.skip(w1.len() as int) =~= opt_seq(record@.2));
            None
        }
    }

    /// One poll of a push of `data`: whether the push is done. A waiting
    /// receiver is woken first. When the slot is taken the sender waits to be
    /// woken through `waker`.
    pub fn poll_push(&mut self, data: &mut Option<T>, waker: &Waker) -> (r: bool)
        ensures
            (final(self)@, r, *final(data)) == push_step(old(self)@, *old(data)),
            final(self).receiver_waker() is None,
            ({
                let w1 = old(self).woken() + opt_seq(old(self).receiver_waker());
                let waits = *old(data) is Some && old(self)@.connect_count > 0 && old(self)@.pending is Some;
                &&& !waits ==> final(self).woken() == w1 && final(self).sender_waker() == old(self).sender_waker()
                &&& waits ==> final(self).woken().take(w1.len() as int) == w1 && swapped(
                    old(self).sender_waker(),
                    final(self).sender_waker(),
                    final(self).woken().skip(w1.len() as int),
                )
            }),
    {
        wake_slot(&mut self.receiver_waker, &mut self.woken);
        let ghost w1 = self.woken@;
        if data.is_none() || self.connect_count == 0 {
            true
        } else if self.pending.is_some() {
            let record = swap_wakers(&mut self.sender_waker, waker);
            self.woken = Ghost(self.woken@ + opt_seq(record@.2));
            assert(self.woken@.take(w1.len() as int) =~= w1);
            assert(self.woken@.skip(w1.len() as int) =~= opt_seq(record@.2));
            false
        } else {
            self.pending = data.take();
            true
        }
    }
}

/// What a push into a pipe with a reader and a free slot puts there, the next
/// receive gives back.
pub proof fn lemma_push_then_receive<T>(s: PipeView<T>, item: T)
    requires
        s.connect_count > 0,
        s.pending is None,
    ensures
        push_step(s, Some(item)).1,
        push_step(s, Some(item)).2 is None,
        receive_step(push_step(s, Some(item)).0).1 == Some(item),
        receive_step(push_step(s, Some(item)).0).0.pending is None,
{
}

/// Without a reader, a push is done at once and leaves the slot as it was.
pub proof fn lemma_push_without_reader<T>(s: PipeView<T>, item: T)
    requires
        s.connect_count == 0,
    ensures
        push_step(s, Some(item)).1,
        push_step(s, Some(item)).0.pending == s.pending,
{
}

/// A push into a taken slot waits, and leaves the item there in place.
pub proof fn lemma_push_waits_when_full<T>(s: PipeView<T>, item: T)
    requires
        s.connect_count > 0,
        s.pending is Some,
    ensures
        !push_step(s, Some(item)).1,
        push_step(s, Some(item)).0.pending == s.pending,
        push_step(s, Some(item)).2 == Some(item),
{
}

/// Once the last reader leaves, nothing waits in the slot.
pub proof fn lemma_last_reader_clears<T>(s: PipeView<T>)
    requires
        s.connect_count == 1,
    ensures
        disconnect_step(s).pending is None,
        disconnect_step(s).connect_count == 0,
{
}

} // verus!
