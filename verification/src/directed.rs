//! The thread-directed channel: one readiness flag, one fixed consumer thread.
//!
//! Producers raise a single flag instead of counting, and wake the thread
//! that their sender was made for instead of whoever sleeps on a word. The
//! flag folds any number of sends into one signal: how many values are
//! buffered is known to the queue alone. Threads are named by plain numbers
//! that the caller assigns.

use crate::utils::queue::{head, tail, Queue};
use crossbeam_epoch::pin;
use std::marker::PhantomData;
use vstd::prelude::*;

verus! {

/// The state that the endpoints of one thread-directed channel share.
pub struct Channel<T> {
    queue: Queue<T>,
    ready: bool,
    parked: Option<u64>,
}

/// The capability to send, bound to the thread it wakes.
pub struct Sender<T> {
    target: u64,
    _marker: PhantomData<T>,
}

/// The capability to receive. There is one per channel.
pub struct Receiver<T> {
    _marker: PhantomData<T>,
}

/// What one turn of a blocking receive came to.
#[derive(Debug, PartialEq, Eq)]
pub enum Polled<T> {
    /// The flag was set and the queue gave its oldest value.
    Value(T),
    /// The flag was set but the queue was empty.
    Empty,
    /// The flag was not set: the calling thread is now parked.
    Parked,
}

impl<T> Channel<T> {
    /// The buffered values, oldest first.
    pub closed spec fn queued(&self) -> Seq<T> {
        self.queue@
    }

    /// The readiness flag.
    pub closed spec fn is_set(&self) -> bool {
        self.ready
    }

    /// The thread that is parked in a receive, if one is.
    pub closed spec fn parked(&self) -> Option<u64> {
        self.parked
    }

    /// A channel with nothing buffered, the flag down and nobody parked.
    pub fn new() -> (channel: Self)
        ensures
            channel.queued() == Seq::<T>::empty(),
            !channel.is_set(),
            channel.parked().is_none(),
    {
        Channel { queue: Queue::new(), ready: false, parked: None }
    }
}

impl<T> Sender<T> {
    /// The thread that this sender wakes.
    pub closed spec fn target(&self) -> u64 {
        self.target
    }

    /// The thread that this sender wakes.
    pub fn target_thread(&self) -> (thread: u64)
        ensures
            thread == self.target(),
    {
        self.target
    }

    /// Pushes `data`, raises the flag and unparks the target thread. The
    /// result says whether that thread was parked here. A parked thread
    /// other than the target stays parked: the wake went elsewhere.
    pub fn send(&self, channel: &mut Channel<T>, data: T) -> (woken: bool)
        ensures
            final(channel).queued() == old(channel).queued().push(data),
            final(channel).is_set(),
            woken == (old(channel).parked() == Some(self.target())),
            final(channel).parked() == if woken {
                None
            } else {
                old(channel).parked()
            },
    {
        let guard = pin();
        channel.queue.push(data, &guard);
        channel.ready = true;
        let woken = match channel.parked {
            Some(thread) => thread == self.target,
            None => false,
        };
        if woken {
            channel.parked = None;
        }
        woken
    }

    /// One more sender for the same target thread. The target is fixed here
    /// and is not looked up again.
    pub fn clone(&self) -> (sender: Sender<T>)
        ensures
            sender.target() == self.target(),
    {
        Sender { target: self.target, _marker: PhantomData }
    }
}

impl<T> Receiver<T> {
    /// One turn of a blocking receive by thread `thread`: lowers the flag
    /// and, where it was up, pops once; where it was down, parks the thread
    /// and leaves the queue alone.
    pub fn poll(&self, channel: &mut Channel<T>, thread: u64) -> (polled: Polled<T>)
        ensures
            !final(channel).is_set(),
            old(channel).is_set() ==> final(channel).queued() == tail(old(channel).queued())
                && final(channel).parked().is_none() && polled == match head(
                old(channel).queued(),
            ) {
                Some(value) => Polled::Value(value),
                None => Polled::Empty,
            },
            !old(channel).is_set() ==> final(channel).queued() == old(channel).queued()
                && final(channel).parked() == Some(thread) && polled == Polled::<T>::Parked,
    {
        let was_ready = channel.ready;
        channel.ready = false;
        if was_ready {
            channel.parked = None;
            let guard = pin();
            match channel.queue.try_pop(&guard) {
                Some(value) => Polled::Value(value),
                None => Polled::Empty,
            }
        } else {
            channel.parked = Some(thread);
            Polled::Parked
        }
    }

    /// Takes the oldest value from a channel whose flag is up and whose
    /// queue holds one. In every other state a receive parks; those are
    /// left out.
    pub fn recv(&self, channel: &mut Channel<T>) -> (value: T)
        requires
            old(channel).is_set(),
            old(channel).queued().len() > 0,
        ensures
            value == old(channel).queued()[0],
            final(channel).queued() == old(channel).queued().drop_first(),
            !final(channel).is_set(),
            final(channel).parked().is_none(),
    {
        channel.ready = false;
        channel.parked = None;
        let guard = pin();
        channel.queue.try_pop(&guard).unwrap()
    }

    /// Pops once without looking at the flag, and never parks.
    pub fn try_recv(&self, channel: &mut Channel<T>) -> (popped: Option<T>)
        ensures
            popped == head(old(channel).queued()),
            final(channel).queued() == tail(old(channel).queued()),
            final(channel).is_set() == old(channel).is_set(),
            final(channel).parked() == old(channel).parked(),
    {
        let guard = pin();
        channel.queue.try_pop(&guard)
    }

    /// Whether the flag is up.
    pub fn ready(&self, channel: &Channel<T>) -> (ready: bool)
        ensures
            ready == channel.is_set(),
    {
        channel.ready
    }
}

/// A fresh channel whose sender wakes thread `consumer`, the thread that the
/// receiver is to stay on.
pub fn channel<T>(consumer: u64) -> (linked: (Channel<T>, Sender<T>, Receiver<T>))
    ensures
        linked.0.queued() == Seq::<T>::empty(),
        !linked.0.is_set(),
        linked.0.parked().is_none(),
        linked.1.target() == consumer,
{
    (
        Channel::new(),
        Sender { target: consumer, _marker: PhantomData },
        Receiver { _marker: PhantomData },
    )
}

} // verus!
