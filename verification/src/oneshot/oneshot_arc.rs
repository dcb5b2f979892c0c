//! The single-use channel whose slot lives as long as either endpoint.
//!
//! The slot counts its holders. It is gone once both endpoints have let go
//! of it, and a value still inside is then dropped with it.

use std::marker::PhantomData;
use vstd::prelude::*;

verus! {

/// The slot that one sender and one receiver share.
pub struct OneShot<T> {
    message: Option<T>,
    ready: bool,
    written: bool,
    parked: bool,
    unpark: bool,
    holders: usize,
}

/// The capability to write the slot, used up by `send`.
pub struct Sender<T> {
    _marker: PhantomData<T>,
}

/// The capability to read the slot, used up by `recv`.
pub struct Receiver<T> {
    _marker: PhantomData<T>,
}

impl<T> OneShot<T> {
    /// The value in the slot, if it holds one.
    pub closed spec fn value(&self) -> Option<T> {
        self.message
    }

    /// The readiness flag.
    pub closed spec fn is_set(&self) -> bool {
        self.ready
    }

    /// Whether a value was ever written.
    pub closed spec fn was_written(&self) -> bool {
        self.written
    }

    /// Whether the receiving thread is parked in a receive.
    pub closed spec fn is_parked(&self) -> bool {
        self.parked
    }

    /// Whether an unpark is pending: one made while the receiving thread was
    /// not parked, which makes its next park return at once.
    pub closed spec fn unpark_pending(&self) -> bool {
        self.unpark
    }

    /// The receiving thread may park: it has looked at the flag since the
    /// flag was last set, or an unpark is pending.
    pub open spec fn may_park(&self) -> bool {
        self.wf() && (self.is_set() ==> self.unpark_pending())
    }

    /// How many endpoints still hold the slot.
    pub closed spec fn holders(&self) -> nat {
        self.holders as nat
    }

    /// The flag is set exactly while a value is inside, only after a write,
    /// and never on a slot that nobody holds.
    pub open spec fn wf(&self) -> bool {
        &&& self.is_set() == self.value().is_some()
        &&& self.is_set() ==> self.was_written()
        &&& self.is_parked() ==> !self.is_set() && !self.unpark_pending()
        &&& self.is_set() ==> self.holders() > 0
        &&& self.holders() <= 2
    }

    /// A send is admitted: the slot is held and was never written.
    pub open spec fn can_send(&self) -> bool {
        self.wf() && !self.was_written() && self.holders() > 0
    }

    /// A receive returns at once: the flag is set.
    pub open spec fn can_recv(&self) -> bool {
        self.wf() && self.is_set()
    }

    /// An empty slot that no endpoint holds yet.
    pub fn new() -> (slot: Self)
        ensures
            slot.wf(),
            slot.value().is_none(),
            !slot.is_set(),
            !slot.was_written(),
            !slot.is_parked(),
            !slot.unpark_pending(),
            slot.holders() == 0,
    {
        OneShot {
            message: None,
            ready: false,
            written: false,
            parked: false,
            unpark: false,
            holders: 0,
        }
    }

    /// Whether a send is admitted.
    pub fn admits_send(&self) -> (admitted: bool)
        requires
            self.wf(),
        ensures
            admitted == self.can_send(),
    {
        self.holders > 0 && !self.written
    }

    /// How many endpoints still hold the slot.
    pub fn holder_count(&self) -> (count: usize)
        ensures
            count == self.holders(),
    {
        self.holders
    }

    /// One endpoint lets go. The last one to do so takes the slot down, and
    /// with it a value that was written and never read.
    fn let_go(&mut self)
        requires
            old(self).wf(),
            old(self).holders() > 0,
        ensures
            final(self).wf(),
            final(self).holders() == old(self).holders() - 1,
            final(self).was_written() == old(self).was_written(),
            final(self).is_parked() == old(self).is_parked(),
            final(self).unpark_pending() == old(self).unpark_pending(),
            old(self).holders() > 1 ==> final(self).value() == old(self).value()
                && final(self).is_set() == old(self).is_set(),
            old(self).holders() == 1 ==> final(self).value().is_none() && !final(self).is_set(),
    {
        self.holders = self.holders - 1;
        if self.holders == 0 {
            if self.ready {
                self.message = None;
                self.ready = false;
            }
        }
    }
}

impl<T> Sender<T> {
    /// Writes `message` into the slot, sets the flag and unparks the
    /// receiving thread: a parked thread runs again, and for one that is
    /// not parked the unpark is kept pending. The sender is used up and lets go of the slot:
    /// where the receiver had let go before, the slot goes down with the
    /// value in it. A slot is written once: one that was written before is
    /// left out.
    pub fn send(self, slot: &mut OneShot<T>, message: T)
        requires
            old(slot).can_send(),
        ensures
            final(slot).wf(),
            final(slot).was_written(),
            !final(slot).can_send(),
            !final(slot).is_parked(),
            final(slot).unpark_pending() == (old(slot).unpark_pending() || !old(
                slot,
            ).is_parked()),
            final(slot).holders() == old(slot).holders() - 1,
            old(slot).holders() > 1 ==> final(slot).value() == Some(message)
                && final(slot).is_set(),
            old(slot).holders() == 1 ==> final(slot).value().is_none() && !final(slot).is_set(),
    {
        slot.message = Some(message);
        slot.written = true;
        slot.ready = true;
        if slot.parked {
            slot.parked = false;
        } else {
            slot.unpark = true;
        }
        slot.let_go();
    }

    /// Lets go of the slot without sending. A receiver that waits for the
    /// value will then wait for ever.
    pub fn release(self, slot: &mut OneShot<T>)
        requires
            old(slot).wf(),
            old(slot).holders() > 0,
        ensures
            final(slot).wf(),
            final(slot).holders() == old(slot).holders() - 1,
            final(slot).was_written() == old(slot).was_written(),
            final(slot).unpark_pending() == old(slot).unpark_pending(),
            final(slot).is_parked() == old(slot).is_parked(),
            old(slot).holders() > 1 ==> final(slot).value() == old(slot).value()
                && final(slot).is_set() == old(slot).is_set(),
            old(slot).holders() == 1 ==> final(slot).value().is_none() && !final(slot).is_set(),
    {
        slot.let_go();
    }
}

impl<T> Receiver<T> {
    /// Whether the receiving thread is parked.
    pub fn is_parked(&self, slot: &OneShot<T>) -> (parked: bool)
        ensures
            parked == slot.is_parked(),
    {
        slot.parked
    }

    /// Reads the flag. This is a hint for polling: only `recv` and `poll`
    /// hand the value out.
    pub fn is_ready(&self, slot: &OneShot<T>) -> (ready: bool)
        ensures
            ready == slot.is_set(),
    {
        slot.ready
    }

    /// The first half of a turn of a blocking receive: clears the flag and,
    /// where it was set, moves the value out. The receiving thread runs, so
    /// it is not parked; a pending unpark stays pending.
    pub fn swap(&self, slot: &mut OneShot<T>) -> (taken: Option<T>)
        requires
            old(slot).wf(),
        ensures
            final(slot).wf(),
            final(slot).may_park(),
            taken == old(slot).value(),
            final(slot).value().is_none(),
            !final(slot).is_set(),
            !final(slot).is_parked(),
            final(slot).unpark_pending() == old(slot).unpark_pending(),
            final(slot).was_written() == old(slot).was_written(),
            final(slot).holders() == old(slot).holders(),
    {
        let was_ready = slot.ready;
        slot.ready = false;
        slot.parked = false;
        if was_ready {
            slot.message.take()
        } else {
            None
        }
    }

    /// The second half: parks the receiving thread after a swap that found
    /// nothing. A pending unpark is used up and the park returns at once;
    /// otherwise the thread is parked until a send unparks it. The result
    /// says whether it is parked. Value and flag are untouched, so a send
    /// that came between the swap and the park is not lost.
    pub fn park(&self, slot: &mut OneShot<T>) -> (parked: bool)
        requires
            old(slot).may_park(),
        ensures
            final(slot).wf(),
            parked == !old(slot).unpark_pending(),
            final(slot).is_parked() == parked,
            !final(slot).unpark_pending(),
            final(slot).value() == old(slot).value(),
            final(slot).is_set() == old(slot).is_set(),
            final(slot).was_written() == old(slot).was_written(),
            final(slot).holders() == old(slot).holders(),
    {
        if slot.unpark {
            slot.unpark = false;
            slot.parked = false;
        } else {
            slot.parked = true;
        }
        slot.parked
    }

    /// One turn of a blocking receive: a swap and, where it found nothing,
    /// a park.
    pub fn poll(&self, slot: &mut OneShot<T>) -> (taken: Option<T>)
        requires
            old(slot).wf(),
        ensures
            final(slot).wf(),
            taken == old(slot).value(),
            final(slot).value().is_none(),
            !final(slot).is_set(),
            final(slot).is_parked() == (old(slot).value().is_none() && !old(
                slot,
            ).unpark_pending()),
            final(slot).unpark_pending() == (old(slot).value().is_some() && old(
                slot,
            ).unpark_pending()),
            final(slot).was_written() == old(slot).was_written(),
            final(slot).holders() == old(slot).holders(),
    {
        let taken = self.swap(slot);
        if taken.is_none() {
            self.park(slot);
        }
        taken
    }

    /// Takes the value out of a slot whose flag is set. The receiver is used
    /// up and lets go of the slot. On a slot whose flag is not set a receive
    /// parks; that state is left out.
    pub fn recv(self, slot: &mut OneShot<T>) -> (message: T)
        requires
            old(slot).can_recv(),
        ensures
            final(slot).wf(),
            !final(slot).can_recv(),
            Some(message) == old(slot).value(),
            final(slot).value().is_none(),
            !final(slot).is_set(),
            !final(slot).is_parked(),
            final(slot).unpark_pending() == old(slot).unpark_pending(),
            final(slot).was_written(),
            final(slot).holders() == old(slot).holders() - 1,
    {
        let taken = self.swap(slot);
        slot.let_go();
        taken.unwrap()
    }

    /// Lets go of the slot without receiving.
    pub fn release(self, slot: &mut OneShot<T>)
        requires
            old(slot).wf(),
            old(slot).holders() > 0,
        ensures
            final(slot).wf(),
            final(slot).holders() == old(slot).holders() - 1,
            final(slot).was_written() == old(slot).was_written(),
            final(slot).unpark_pending() == old(slot).unpark_pending(),
            !final(slot).is_parked(),
            old(slot).holders() > 1 ==> final(slot).value() == old(slot).value()
                && final(slot).is_set() == old(slot).is_set(),
            old(slot).holders() == 1 ==> final(slot).value().is_none() && !final(slot).is_set(),
    {
        slot.parked = false;
        slot.let_go();
    }
}

/// A fresh slot with its sender and its receiver, both holding it.
pub fn channel<T>() -> (linked: (OneShot<T>, Sender<T>, Receiver<T>))
    ensures
        linked.0.wf(),
        linked.0.value().is_none(),
        !linked.0.is_set(),
        !linked.0.was_written(),
        !linked.0.is_parked(),
        !linked.0.unpark_pending(),
        linked.0.holders() == 2,
{
    let mut slot = OneShot::<T>::new();
    slot.holders = 2;
    (slot, Sender { _marker: PhantomData }, Receiver { _marker: PhantomData })
}

/// No wake is lost: the receiving thread is never parked over a set flag,
/// whether the send came before its swap, between its swap and its park, or
/// while it was parked.
pub proof fn lemma_no_lost_wake<T>(slot: OneShot<T>)
    requires
        slot.wf(),
        slot.is_set(),
    ensures
        !slot.is_parked(),
{
}

} // verus!
