//! The multi-producer, single-consumer channel with a message counter.
//!
//! A [`Channel`] holds the queue, the counter that producers raise after each
//! push, and the number of live senders. [`Sender`] and [`Receiver`] are the
//! two capabilities over it: each operation names the channel it acts on and
//! states the channel it leaves behind.

use crate::utils::queue::{head, tail, Queue};
use crate::utils::wait::{wait, wake_one, WaitOutcome, wait_outcome};
use crossbeam_epoch::pin;
use std::marker::PhantomData;
use vstd::prelude::*;

verus! {

/// The queue after each value of `values` was pushed onto `queue`, in order.
pub open spec fn sent<T>(queue: Seq<T>, values: Seq<T>) -> Seq<T>
    decreases values.len(),
{
    if values.len() == 0 {
        queue
    } else {
        sent(queue.push(values[0]), values.drop_first())
    }
}

/// The values that `count` successive pops take from `queue`, in the order
/// in which they come out. Popping stops early at an empty queue.
pub open spec fn received<T>(queue: Seq<T>, count: nat) -> Seq<T>
    decreases count,
{
    if count == 0 {
        Seq::empty()
    } else {
        match head(queue) {
            Some(value) => seq![value] + received(tail(queue), (count - 1) as nat),
            None => Seq::empty(),
        }
    }
}

/// The state that the endpoints of one channel share.
pub struct Channel<T> {
    queue: Queue<T>,
    messages: usize,
    senders: usize,
    parked: bool,
    parked_on: usize,
}

/// The capability to send into a channel. There may be many.
pub struct Sender<T> {
    _marker: PhantomData<T>,
}

/// The capability to receive from a channel. There is one per channel.
pub struct Receiver<T> {
    _marker: PhantomData<T>,
}

/// No sender is left and nothing is buffered.
#[derive(Clone, Copy, Debug, PartialEq, Eq, Structural)]
pub struct RecvError;

/// What a receiver does after looking at the channel.
#[derive(Clone, Copy, Debug, PartialEq, Eq, Structural)]
pub enum RecvAction {
    /// Nothing is buffered and no sender is left: fail.
    Disconnected,
    /// Something is buffered: move the counter from `current` to `next` and
    /// pop.
    Claim { current: usize, next: usize },
    /// Nothing is buffered but a sender lives: sleep until the counter no
    /// longer holds `expected`, then look again.
    Wait { expected: usize },
}

/// The action that a receiver owes to a channel whose counter holds
/// `messages`, whose queue holds `buffered` values and which has `senders`
/// live senders. The queue decides; the counter is the word to sleep on, and
/// it may run ahead of the queue.
pub open spec fn recv_action_of(messages: usize, buffered: usize, senders: usize) -> RecvAction {
    if buffered > 0 {
        RecvAction::Claim {
            current: messages,
            next: if messages > 0 {
                (messages - 1) as usize
            } else {
                0
            },
        }
    } else if senders == 0 {
        RecvAction::Disconnected
    } else {
        RecvAction::Wait { expected: messages }
    }
}

/// Decides what a receiver does next. A threaded receiver calls this once
/// per look at the channel, and again after every wait.
pub fn recv_action(messages: usize, buffered: usize, senders: usize) -> (action: RecvAction)
    ensures
        action == recv_action_of(messages, buffered, senders),
{
    if buffered > 0 {
        let next: usize = if messages > 0 {
            messages - 1
        } else {
            0
        };
        RecvAction::Claim { current: messages, next }
    } else if senders == 0 {
        RecvAction::Disconnected
    } else {
        RecvAction::Wait { expected: messages }
    }
}

impl<T> Channel<T> {
    /// The buffered values, oldest first.
    pub closed spec fn queued(&self) -> Seq<T> {
        self.queue@
    }

    /// The message counter.
    pub closed spec fn counter(&self) -> nat {
        self.messages as nat
    }

    /// The number of live senders.
    pub closed spec fn live_senders(&self) -> nat {
        self.senders as nat
    }

    /// Whether the receiver is suspended in a wait on the counter.
    pub closed spec fn is_parked(&self) -> bool {
        self.parked
    }

    /// The counter value that the receiver last entered a wait with.
    pub closed spec fn parked_on(&self) -> nat {
        self.parked_on as nat
    }

    /// The counter never runs behind the queue: every buffered value has been
    /// counted. And the receiver sleeps only where a receive has to wait:
    /// with nothing buffered, a sender alive to wake it, and the counter
    /// still at the value it went to sleep on.
    pub open spec fn wf(&self) -> bool {
        &&& self.queued().len() <= self.counter() <= usize::MAX
        &&& self.live_senders() <= usize::MAX
        &&& self.is_parked() ==> self.would_block() && self.counter() == self.parked_on()
    }

    /// The counter is exactly the number of buffered values. This holds as
    /// long as values leave through `recv` only.
    pub open spec fn in_step(&self) -> bool {
        self.queued().len() == self.counter()
    }

    /// A blocking receive would sleep: nothing is buffered, and a sender is
    /// left that may still send.
    pub open spec fn would_block(&self) -> bool {
        self.queued().len() == 0 && self.live_senders() > 0
    }

    /// A channel with nothing buffered and no sender.
    pub fn new() -> (channel: Self)
        ensures
            channel.wf(),
            channel.in_step(),
            channel.queued() == Seq::<T>::empty(),
            channel.counter() == 0,
            channel.live_senders() == 0,
            !channel.is_parked(),
    {
        Channel { queue: Queue::new(), messages: 0, senders: 0, parked: false, parked_on: 0 }
    }

    /// The message counter.
    pub fn messages(&self) -> (messages: usize)
        ensures
            messages == self.counter(),
    {
        self.messages
    }

    /// The number of live senders.
    pub fn senders(&self) -> (senders: usize)
        ensures
            senders == self.live_senders(),
    {
        self.senders
    }

    /// The number of buffered values.
    pub fn buffered(&self) -> (buffered: usize)
        ensures
            buffered == self.queued().len(),
    {
        self.queue.len()
    }

    /// The receiver runs: whatever it slept on, it sleeps no longer. A wait
    /// may end without any change of the counter.
    fn awake(&mut self)
        requires
            old(self).wf(),
        ensures
            final(self).wf(),
            !final(self).is_parked(),
            final(self).queued() == old(self).queued(),
            final(self).counter() == old(self).counter(),
            final(self).live_senders() == old(self).live_senders(),
    {
        self.parked = false;
    }
}

impl<T> Default for Channel<T> {
    fn default() -> (channel: Self)
        ensures
            channel.wf(),
            channel.in_step(),
            channel.queued() == Seq::<T>::empty(),
            channel.counter() == 0,
            channel.live_senders() == 0,
            !channel.is_parked(),
    {
        Channel::new()
    }
}

impl<T> Sender<T> {
    /// Pushes `data`, raises the counter by one and wakes the receiver if it
    /// is suspended: after a send the receiver is never asleep. Whoever
    /// holds a sender is counted, so a channel without a live sender is left
    /// out.
    pub fn send(&self, channel: &mut Channel<T>, data: T)
        requires
            old(channel).wf(),
            old(channel).live_senders() > 0,
            old(channel).counter() < usize::MAX,
        ensures
            final(channel).wf(),
            final(channel).queued() == old(channel).queued().push(data),
            final(channel).counter() == old(channel).counter() + 1,
            final(channel).live_senders() == old(channel).live_senders(),
            old(channel).in_step() ==> final(channel).in_step(),
            !final(channel).is_parked(),
    {
        let guard = pin();
        channel.queue.push(data, &guard);
        channel.messages = channel.messages + 1;
        let blocked: usize = if channel.parked {
            1
        } else {
            0
        };
        if wake_one(blocked) > 0 {
            channel.parked = false;
        }
    }

    /// Makes one more sender for `channel`: the count of live senders grows
    /// by exactly one and nothing else changes.
    pub fn clone(&self, channel: &mut Channel<T>) -> (sender: Sender<T>)
        requires
            old(channel).wf(),
            0 < old(channel).live_senders() < usize::MAX,
        ensures
            final(channel).wf(),
            final(channel).live_senders() == old(channel).live_senders() + 1,
            final(channel).queued() == old(channel).queued(),
            final(channel).counter() == old(channel).counter(),
            final(channel).is_parked() == old(channel).is_parked(),
            final(channel).parked_on() == old(channel).parked_on(),
    {
        channel.senders = channel.senders + 1;
        Sender { _marker: PhantomData }
    }

    /// Gives this sender up: the count of live senders falls by exactly one.
    /// Where that was the last sender, a suspended receiver is woken, so
    /// that it finds the channel disconnected instead of sleeping for ever.
    /// The result says whether it was woken: the caller then owes it the
    /// wake.
    pub fn disconnect(self, channel: &mut Channel<T>) -> (woken: bool)
        requires
            old(channel).wf(),
            old(channel).live_senders() > 0,
        ensures
            final(channel).wf(),
            final(channel).live_senders() == old(channel).live_senders() - 1,
            final(channel).queued() == old(channel).queued(),
            final(channel).counter() == old(channel).counter(),
            woken == (old(channel).is_parked() && old(channel).live_senders() == 1),
            final(channel).is_parked() == (old(channel).is_parked() && !woken),
            final(channel).parked_on() == old(channel).parked_on(),
    {
        channel.senders = channel.senders - 1;
        let blocked: usize = if channel.parked && channel.senders == 0 {
            1
        } else {
            0
        };
        let woken = wake_one(blocked) > 0;
        if woken {
            channel.parked = false;
        }
        woken
    }
}

impl<T> Receiver<T> {
    /// The number of live senders of `channel`.
    pub fn senders_remaining(&self, channel: &Channel<T>) -> (senders: usize)
        ensures
            senders == channel.live_senders(),
    {
        channel.senders()
    }

    /// The message counter of `channel`.
    pub fn messages_remaining(&self, channel: &Channel<T>) -> (messages: usize)
        ensures
            messages == channel.counter(),
    {
        channel.messages()
    }

    /// Whether the counter is above zero.
    pub fn ready(&self, channel: &Channel<T>) -> (ready: bool)
        ensures
            ready == (channel.counter() > 0),
    {
        self.messages_remaining(channel) > 0
    }

    /// Enters a wait on the counter with the value last seen. The receiver
    /// is suspended exactly if the counter still holds `expected` and a
    /// receive still has to wait; a send or the last disconnect since the
    /// look makes the wait return at once. Nothing else changes.
    pub fn park(&self, channel: &mut Channel<T>, expected: usize) -> (outcome: WaitOutcome)
        requires
            old(channel).wf(),
        ensures
            final(channel).wf(),
            outcome == if old(channel).would_block() {
                wait_outcome(old(channel).counter() as usize, expected)
            } else {
                WaitOutcome::Changed
            },
            final(channel).is_parked() == (outcome == WaitOutcome::Suspend),
            final(channel).is_parked() ==> final(channel).parked_on() == expected,
            final(channel).queued() == old(channel).queued(),
            final(channel).counter() == old(channel).counter(),
            final(channel).live_senders() == old(channel).live_senders(),
    {
        let waits = channel.queue.len() == 0 && channel.senders > 0;
        let outcome = if waits {
            wait(channel.messages, expected)
        } else {
            WaitOutcome::Changed
        };
        match outcome {
            WaitOutcome::Suspend => {
                channel.parked = true;
                channel.parked_on = expected;
            },
            WaitOutcome::Changed => {
                channel.parked = false;
            },
        }
        outcome
    }

    /// Whether the receiver is suspended.
    pub fn is_parked(&self, channel: &Channel<T>) -> (parked: bool)
        ensures
            parked == channel.is_parked(),
    {
        channel.parked
    }

    /// Takes the oldest value and lowers the counter by one. It fails
    /// exactly when nothing is buffered and no sender is left, and then
    /// changes nothing. The one state left out is the one in which a receive
    /// sleeps: nothing buffered with a sender alive.
    pub fn recv(&self, channel: &mut Channel<T>) -> (received: Result<T, RecvError>)
        requires
            old(channel).wf(),
            !old(channel).would_block(),
        ensures
            final(channel).wf(),
            final(channel).live_senders() == old(channel).live_senders(),
            received.is_err() <==> old(channel).queued().len() == 0 && old(
                channel,
            ).live_senders() == 0,
            received == match head(old(channel).queued()) {
                Some(value) => Ok::<T, RecvError>(value),
                None => Err::<T, RecvError>(RecvError),
            },
            final(channel).queued() == tail(old(channel).queued()),
            final(channel).counter() == if old(channel).queued().len() > 0 {
                old(channel).counter() - 1
            } else {
                old(channel).counter() as int
            },
            old(channel).in_step() ==> final(channel).in_step(),
            !final(channel).is_parked(),
    {
        channel.awake();
        match recv_action(channel.messages, channel.queue.len(), channel.senders) {
            RecvAction::Claim { current: _, next } => {
                channel.messages = next;
                let guard = pin();
                match channel.queue.try_pop(&guard) {
                    Some(value) => Ok(value),
                    None => Err(RecvError),
                }
            },
            _ => Err(RecvError),
        }
    }

    /// Pops once without touching the counter, and never sleeps: the oldest
    /// value if one is buffered, `None` otherwise, whether or not a sender
    /// is left.
    pub fn try_recv(&self, channel: &mut Channel<T>) -> (popped: Option<T>)
        requires
            old(channel).wf(),
        ensures
            final(channel).wf(),
            popped == head(old(channel).queued()),
            final(channel).queued() == tail(old(channel).queued()),
            final(channel).counter() == old(channel).counter(),
            final(channel).live_senders() == old(channel).live_senders(),
            !final(channel).is_parked(),
    {
        channel.awake();
        if self.senders_remaining(channel) < 1 && self.messages_remaining(channel) < 1 {
            return None;
        }
        let guard = pin();
        channel.queue.try_pop(&guard)
    }

    /// Receives until a receive fails, and returns what came out, oldest
    /// first. With no sender left this never sleeps: it returns every
    /// buffered value, leaves the queue empty and lowers the counter by one
    /// for each value.
    pub fn drain(&self, channel: &mut Channel<T>) -> (values: Vec<T>)
        requires
            old(channel).wf(),
            old(channel).live_senders() == 0,
        ensures
            final(channel).wf(),
            values@ == old(channel).queued(),
            final(channel).queued() == Seq::<T>::empty(),
            final(channel).live_senders() == 0,
            final(channel).counter() == old(channel).counter() - old(channel).queued().len(),
            !final(channel).is_parked(),
    {
        let mut values: Vec<T> = Vec::new();
        let mut open: bool = true;
        while open
            invariant
                channel.wf(),
                channel.live_senders() == 0,
                values@ + channel.queued() == old(channel).queued(),
                channel.counter() - channel.queued().len() == old(channel).counter() - old(
                    channel,
                ).queued().len(),
                !open ==> channel.queued().len() == 0,
                !open ==> !channel.is_parked(),
            decreases channel.queued().len() + if open { 1nat } else { 0nat },
        {
            let ghost before = channel.queued();
            match self.recv(channel) {
                Ok(value) => {
                    values.push(value);
                    assert(values@ + channel.queued() =~= old(channel).queued()) by {
                        assert(before =~= seq![before[0]] + before.drop_first());
                    }
                },
                Err(_) => {
                    open = false;
                },
            }
        }
        assert(values@ =~= old(channel).queued());
        assert(channel.queued() =~= Seq::<T>::empty());
        values
    }

    /// Turns the receiver into the adaptor that receives one value per call.
    pub fn into_iter(self) -> (iter: IntoIter<T>)
        ensures
            iter.receiver() == self,
    {
        IntoIter { rx: self }
    }

    /// The adaptor that receives one value per call, over a borrowed
    /// receiver.
    pub fn iter(&self) -> (iter: Iter<'_, T>)
        ensures
            iter.receiver() == *self,
    {
        Iter { rx: self }
    }
}

/// Receives one value per call, and owns the receiver.
pub struct IntoIter<T> {
    rx: Receiver<T>,
}

impl<T> IntoIter<T> {
    /// The receiver that this adaptor owns and receives through.
    pub closed spec fn receiver(&self) -> Receiver<T> {
        self.rx
    }

    /// The receiver that this adaptor owns and receives through.
    pub fn as_receiver(&self) -> (rx: &Receiver<T>)
        ensures
            *rx == self.receiver(),
    {
        &self.rx
    }

    /// The next value, or `None` exactly where a receive fails: with nothing
    /// buffered and no sender left. The channel changes as it does under
    /// `recv`.
    pub fn next(&mut self, channel: &mut Channel<T>) -> (item: Option<T>)
        requires
            old(channel).wf(),
            !old(channel).would_block(),
        ensures
            final(self).receiver() == old(self).receiver(),
            final(channel).wf(),
            final(channel).live_senders() == old(channel).live_senders(),
            item == head(old(channel).queued()),
            item.is_none() <==> old(channel).queued().len() == 0 && old(
                channel,
            ).live_senders() == 0,
            final(channel).queued() == tail(old(channel).queued()),
            final(channel).counter() == if old(channel).queued().len() > 0 {
                old(channel).counter() - 1
            } else {
                old(channel).counter() as int
            },
            !final(channel).is_parked(),
    {
        channel.awake();
        if self.rx.senders_remaining(channel) < 1 && self.rx.messages_remaining(channel) < 1 {
            return None;
        }
        match self.rx.recv(channel) {
            Ok(value) => Some(value),
            Err(_) => None,
        }
    }
}

/// Receives one value per call, over a borrowed receiver.
pub struct Iter<'a, T> {
    rx: &'a Receiver<T>,
}

impl<'a, T> Iter<'a, T> {
    /// The receiver that this adaptor borrows and receives through.
    pub closed spec fn receiver(&self) -> Receiver<T> {
        *self.rx
    }

    /// The receiver that this adaptor borrows and receives through.
    pub fn as_receiver(&self) -> (rx: &Receiver<T>)
        ensures
            *rx == self.receiver(),
    {
        self.rx
    }

    /// The next value, or `None` exactly where a receive fails: with nothing
    /// buffered and no sender left. The channel changes as it does under
    /// `recv`.
    pub fn next(&mut self, channel: &mut Channel<T>) -> (item: Option<T>)
        requires
            old(channel).wf(),
            !old(channel).would_block(),
        ensures
            final(self).receiver() == old(self).receiver(),
            final(channel).wf(),
            final(channel).live_senders() == old(channel).live_senders(),
            item == head(old(channel).queued()),
            item.is_none() <==> old(channel).queued().len() == 0 && old(
                channel,
            ).live_senders() == 0,
            final(channel).queued() == tail(old(channel).queued()),
            final(channel).counter() == if old(channel).queued().len() > 0 {
                old(channel).counter() - 1
            } else {
                old(channel).counter() as int
            },
            !final(channel).is_parked(),
    {
        channel.awake();
        if self.rx.senders_remaining(channel) < 1 && self.rx.messages_remaining(channel) < 1 {
            return None;
        }
        match self.rx.recv(channel) {
            Ok(value) => Some(value),
            Err(_) => None,
        }
    }
}

/// A fresh channel with its one sender and its receiver.
pub fn channel<T>() -> (linked: (Channel<T>, Sender<T>, Receiver<T>))
    ensures
        linked.0.wf(),
        linked.0.in_step(),
        linked.0.queued() == Seq::<T>::empty(),
        linked.0.counter() == 0,
        linked.0.live_senders() == 1,
        !linked.0.is_parked(),
{
    let mut channel = Channel::<T>::default();
    channel.senders = 1;
    (channel, Sender { _marker: PhantomData }, Receiver { _marker: PhantomData })
}

/// Pushing `values` onto `queue` one by one appends them in order.
pub proof fn lemma_sent_appends<T>(queue: Seq<T>, values: Seq<T>)
    ensures
        sent(queue, values) == queue + values,
    decreases values.len(),
{
    if values.len() == 0 {
        assert(queue + values =~= queue);
    } else {
        lemma_sent_appends(queue.push(values[0]), values.drop_first());
        assert(queue.push(values[0]) + values.drop_first() =~= queue + values);
    }
}

/// As many pops as a queue has values return the whole queue, oldest first.
pub proof fn lemma_received_all<T>(queue: Seq<T>)
    ensures
        received(queue, queue.len()) == queue,
    decreases queue.len(),
{
    if queue.len() == 0 {
        assert(received(queue, 0) =~= queue);
    } else {
        lemma_received_all(queue.drop_first());
        assert(seq![queue[0]] + queue.drop_first() =~= queue);
    }
}

/// First in, first out: the values sent into an empty channel, however many,
/// are exactly what as many receives return, in the order in which they were
/// pushed, none twice and none lost.
pub proof fn lemma_fifo<T>(values: Seq<T>)
    ensures
        received(sent(Seq::<T>::empty(), values), values.len()) == values,
{
    lemma_sent_appends(Seq::<T>::empty(), values);
    assert(Seq::<T>::empty() + values =~= values);
    lemma_received_all(values);
}

/// No wake is missed and no receiver is left behind: while the receiver
/// sleeps, nothing is buffered, a sender is alive to wake it, and the counter
/// is still the one it went to sleep on.
pub proof fn lemma_no_missed_wakeup<T>(channel: Channel<T>)
    requires
        channel.wf(),
        channel.is_parked(),
    ensures
        channel.queued().len() == 0,
        channel.live_senders() > 0,
        channel.counter() == channel.parked_on(),
{
}

/// A receiver that finds nothing buffered fails exactly when no sender is
/// left, and sleeps exactly when one is; with something buffered it does
/// neither.
pub proof fn lemma_disconnected_iff(messages: usize, buffered: usize, senders: usize)
    ensures
        recv_action_of(messages, buffered, senders) == RecvAction::Disconnected <==> buffered
            == 0 && senders == 0,
        recv_action_of(messages, buffered, senders) == (RecvAction::Wait {
            expected: messages,
        }) <==> buffered == 0 && senders > 0,
        recv_action_of(messages, buffered, senders) is Claim <==> buffered > 0,
{
}

} // verus!
