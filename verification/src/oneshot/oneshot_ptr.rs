//! The single-use channel whose slot the receiver alone gives back.
//!
//! The slot is handed to both endpoints without a holder count. The receiver
//! releases it when it is done, so a sender must act while the receiver is
//! still there: a send into a released slot is left out of `send`.

use std::marker::PhantomData;
use vstd::prelude::*;

verus! {

/// The slot that one sender and one receiver share.
pub struct OneShot<T> {
    message: Option<T>,
    ready: bool,
    written: bool,
    parked: bool,
    unpark: bool,
    released: bool,
}

/// The capability to write the slot, used up by `send`.
pub struct Sender<T> {
    _marker: PhantomData<T>,
}

/// The capability to read the slot, used up by `recv`, and the one that
/// releases it.
pub struct Receiver<T> {
    _marker: PhantomData<T>,
}

impl<T> OneShot<T> {
    /// The value in the slot, if it holds one.
    pub closed spec fn value(&self) -> Option<T> {
        self.message
    }

    /// The readiness flag.
    pub closed spec fn is_set(&self) -> bool {
        self.ready
    }

    /// Whether a value was ever written.
    pub closed spec fn was_written(&self) -> bool {
        self.written
    }

    /// Whether the receiving thread is parked in a receive.
    pub closed spec fn is_parked(&self) -> bool {
        self.parked
    }

    /// Whether an unpark is pending: one made while the receiving thread was
    /// not parked, which makes its next park return at once.
    pub closed spec fn unpark_pending(&self) -> bool {
        self.unpark
    }

    /// The receiving thread may park: it has looked at the flag since the
    /// flag was last set, or an unpark is pending.
    pub open spec fn may_park(&self) -> bool {
        self.wf() && (self.is_set() ==> self.unpark_pending())
    }

    /// Whether the receiver has given the slot back.
    pub closed spec fn is_released(&self) -> bool {
        self.released
    }

    /// The flag is set exactly while a value is inside, only after a write,
    /// and never on a released slot.
    pub open spec fn wf(&self) -> bool {
        &&& self.is_set() == self.value().is_some()
        &&& self.is_set() ==> self.was_written()
        &&& self.is_parked() ==> !self.is_set() && !self.unpark_pending()
        &&& self.is_set() ==> !self.is_released()
    }

    /// A send is admitted: the slot is still there and was never written.
    pub open spec fn can_send(&self) -> bool {
        self.wf() && !self.was_written() && !self.is_released()
    }

    /// A receive returns at once: the flag is set.
    pub open spec fn can_recv(&self) -> bool {
        self.wf() && self.is_set()
    }

    /// An empty slot.
    pub fn new() -> (slot: Self)
        ensures
            slot.wf(),
            slot.value().is_none(),
            !slot.is_set(),
            !slot.was_written(),
            !slot.is_parked(),
            !slot.unpark_pending(),
            !slot.is_released(),
    {
        OneShot {
            message: None,
            ready: false,
            written: false,
            parked: false,
            unpark: false,
            released: false,
        }
    }

    /// Whether a send is admitted.
    pub fn admits_send(&self) -> (admitted: bool)
        requires
            self.wf(),
        ensures
            admitted == self.can_send(),
    {
        !self.released && !self.written
    }

    /// Whether the receiver has given the slot back.
    pub fn released(&self) -> (released: bool)
        ensures
            released == self.is_released(),
    {
        self.released
    }

    /// Hands the slot out together with its sender and its receiver. The
    /// slot itself is unchanged.
    pub fn split(self) -> (linked: (OneShot<T>, Sender<T>, Receiver<T>))
        ensures
            linked.0 == self,
    {
        (self, Sender { _marker: PhantomData }, Receiver { _marker: PhantomData })
    }

    /// Gives the slot back. A value that was written and never read goes
    /// with it.
    fn give_back(&mut self)
        requires
            old(self).wf(),
        ensures
            final(self).wf(),
            final(self).is_released(),
            final(self).value().is_none(),
            !final(self).is_set(),
            !final(self).is_parked(),
            final(self).was_written() == old(self).was_written(),
            final(self).unpark_pending() == old(self).unpark_pending(),
    {
        self.parked = false;
        if self.ready {
            self.message = None;
            self.ready = false;
        }
        self.released = true;
    }
}

impl<T> Sender<T> {
    /// Writes `message` into the slot, sets the flag and unparks the
    /// receiving thread: a parked thread runs again, and for one that is
    /// not parked the unpark is kept pending. The sender is used up. A slot is
    /// written once and only while the receiver has not released it: other
    /// slots are left out.
    pub fn send(self, slot: &mut OneShot<T>, message: T)
        requires
            old(slot).can_send(),
        ensures
            final(slot).wf(),
            !final(slot).can_send(),
            final(slot).value() == Some(message),
            final(slot).is_set(),
            final(slot).was_written(),
            !final(slot).is_released(),
            !final(slot).is_parked(),
            final(slot).unpark_pending() == (old(slot).unpark_pending() || !old(
                slot,
            ).is_parked()),
    {
        slot.message = Some(message);
        slot.written = true;
        slot.ready = true;
        if slot.parked {
            slot.parked = false;
        } else {
            slot.unpark = true;
        }
    }
}

impl<T> Receiver<T> {
    /// Whether the receiving thread is parked.
    pub fn is_parked(&self, slot: &OneShot<T>) -> (parked: bool)
        ensures
            parked == slot.is_parked(),
    {
        slot.parked
    }

    /// Reads the flag. This is a hint for polling: only `recv` and `poll`
    /// hand the value out.
    pub fn is_ready(&self, slot: &OneShot<T>) -> (ready: bool)
        ensures
            ready == slot.is_set(),
    {
        slot.ready
    }

    /// The first half of a turn of a blocking receive: clears the flag and,
    /// where it was set, moves the value out. The receiving thread runs, so
    /// it is not parked; a pending unpark stays pending.
    pub fn swap(&self, slot: &mut OneShot<T>) -> (taken: Option<T>)
        requires
            old(slot).wf(),
        ensures
            final(slot).wf(),
            final(slot).may_park(),
            taken == old(slot).value(),
            final(slot).value().is_none(),
            !final(slot).is_set(),
            !final(slot).is_parked(),
            final(slot).unpark_pending() == old(slot).unpark_pending(),
            final(slot).was_written() == old(slot).was_written(),
            final(slot).is_released() == old(slot).is_released(),
    {
        let was_ready = slot.ready;
        slot.ready = false;
        slot.parked = false;
        if was_ready {
            slot.message.take()
        } else {
            None
        }
    }

    /// The second half: parks the receiving thread after a swap that found
    /// nothing. A pending unpark is used up and the park returns at once;
    /// otherwise the thread is parked until a send unparks it. The result
    /// says whether it is parked. Value and flag are untouched, so a send
    /// that came between the swap and the park is not lost.
    pub fn park(&self, slot: &mut OneShot<T>) -> (parked: bool)
        requires
            old(slot).may_park(),
        ensures
            final(slot).wf(),
            parked == !old(slot).unpark_pending(),
            final(slot).is_parked() == parked,
            !final(slot).unpark_pending(),
            final(slot).value() == old(slot).value(),
            final(slot).is_set() == old(slot).is_set(),
            final(slot).was_written() == old(slot).was_written(),
            final(slot).is_released() == old(slot).is_released(),
    {
        if slot.unpark {
            slot.unpark = false;
            slot.parked = false;
        } else {
            slot.parked = true;
        }
        slot.parked
    }

    /// One turn of a blocking receive: a swap and, where it found nothing,
    /// a park.
    pub fn poll(&self, slot: &mut OneShot<T>) -> (taken: Option<T>)
        requires
            old(slot).wf(),
        ensures
            final(slot).wf(),
            taken == old(slot).value(),
            final(slot).value().is_none(),
            !final(slot).is_set(),
            final(slot).is_parked() == (old(slot).value().is_none() && !old(
                slot,
            ).unpark_pending()),
            final(slot).unpark_pending() == (old(slot).value().is_some() && old(
                slot,
            ).unpark_pending()),
            final(slot).was_written() == old(slot).was_written(),
            final(slot).is_released() == old(slot).is_released(),
    {
        let taken = self.swap(slot);
        if taken.is_none() {
            self.park(slot);
        }
        taken
    }

    /// Takes the value out of a slot whose flag is set. The receiver is used
    /// up, and with it the slot is released. On a slot whose flag is not set
    /// a receive parks; that state is left out.
    pub fn recv(self, slot: &mut OneShot<T>) -> (message: T)
        requires
            old(slot).can_recv(),
        ensures
            final(slot).wf(),
            !final(slot).can_recv(),
            !final(slot).can_send(),
            Some(message) == old(slot).value(),
            final(slot).value().is_none(),
            !final(slot).is_set(),
            !final(slot).is_parked(),
            final(slot).unpark_pending() == old(slot).unpark_pending(),
            final(slot).was_written(),
            final(slot).is_released(),
    {
        let taken = self.swap(slot);
        slot.give_back();
        taken.unwrap()
    }

    /// Releases the slot without receiving. No sender may use it afterwards.
    pub fn release(self, slot: &mut OneShot<T>)
        requires
            old(slot).wf(),
        ensures
            final(slot).wf(),
            !final(slot).can_send(),
            !final(slot).can_recv(),
            final(slot).is_released(),
            final(slot).value().is_none(),
            !final(slot).is_set(),
            !final(slot).is_parked(),
            final(slot).was_written() == old(slot).was_written(),
            final(slot).unpark_pending() == old(slot).unpark_pending(),
    {
        slot.give_back();
    }
}

/// A fresh slot with its sender and its receiver.
pub fn channel<T>() -> (linked: (OneShot<T>, Sender<T>, Receiver<T>))
    ensures
        linked.0.wf(),
        linked.0.can_send(),
        linked.0.value().is_none(),
        !linked.0.is_set(),
        !linked.0.was_written(),
        !linked.0.is_parked(),
        !linked.0.unpark_pending(),
        !linked.0.is_released(),
{
    OneShot::<T>::new().split()
}

/// No wake is lost: the receiving thread is never parked over a set flag,
/// whether the send came before its swap, between its swap and its park, or
/// while it was parked.
pub proof fn lemma_no_lost_wake<T>(slot: OneShot<T>)
    requires
        slot.wf(),
        slot.is_set(),
    ensures
        !slot.is_parked(),
{
}

} // verus!
