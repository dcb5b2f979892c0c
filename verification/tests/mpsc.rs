use parkchan::mpsc::{channel, recv_action, Channel, RecvAction, RecvError};
use parkchan::utils::wait::WaitOutcome;

#[test]
fn it_works() {
    let (mut ch, tx, rx) = channel();
    tx.send(&mut ch, 1);
    assert!(rx.ready(&ch));
    assert_eq!(rx.recv(&mut ch).unwrap(), 1);
    assert!(rx.try_recv(&mut ch).is_none());
    tx.send(&mut ch, 1);
    assert!(rx.try_recv(&mut ch).is_some());
    assert!(rx.try_recv(&mut ch).is_none());
    let tx1 = tx;
    tx1.send(&mut ch, 1);
}

#[test]
fn recv_iter() {
    let (mut ch, tx, rx) = channel();
    let mut counter: usize = 0;
    for i in 0..100 {
        tx.send(&mut ch, i);
    }
    tx.disconnect(&mut ch);
    let mut iter = rx.into_iter();
    while let Some(i) = iter.next(&mut ch) {
        println!("{i}");
        counter += 1;
    }
    assert_eq!(counter, 100);
}

#[test]
fn recv_ready() {
    let (mut ch, tx, rx) = channel();
    assert!(!rx.ready(&ch));
    tx.send(&mut ch, 1);
    assert!(rx.ready(&ch));
    assert_eq!(rx.messages_remaining(&ch), 1);
    tx.send(&mut ch, 1);
    assert_eq!(rx.messages_remaining(&ch), 2);
    let _ = rx.recv(&mut ch);
    let _ = rx.recv(&mut ch);
    assert!(!rx.ready(&ch));
    assert!(rx.try_recv(&mut ch).is_none());
}

#[test]
fn senders_count() {
    let (mut ch, tx, rx) = channel::<i32>();
    assert_eq!(rx.senders_remaining(&ch), 1);
    let _tx1 = tx.clone(&mut ch);
    assert_eq!(rx.senders_remaining(&ch), 2);
    _tx1.disconnect(&mut ch);
    assert_eq!(rx.senders_remaining(&ch), 1);
    tx.disconnect(&mut ch);
    assert_eq!(rx.senders_remaining(&ch), 0);
}

#[test]
fn new_channel_is_empty_and_unowned() {
    let ch = Channel::<u8>::new();
    let (_, _, rx) = channel::<u8>();
    assert_eq!(rx.messages_remaining(&ch), 0);
    assert_eq!(rx.senders_remaining(&ch), 0);
    assert!(!rx.ready(&ch));
    let d = Channel::<u8>::default();
    assert_eq!(rx.messages_remaining(&d), 0);
    assert_eq!(rx.senders_remaining(&d), 0);
}

#[test]
fn two_sends_come_out_in_order() {
    let (mut ch, tx, rx) = channel();
    tx.send(&mut ch, 1);
    tx.send(&mut ch, 2);
    assert_eq!(rx.recv(&mut ch), Ok(1));
    assert_eq!(rx.recv(&mut ch), Ok(2));
    assert!(!rx.ready(&ch));
}

#[test]
fn fifo_over_interleaved_senders() {
    let (mut ch, tx, rx) = channel();
    let tx2 = tx.clone(&mut ch);
    let tx3 = tx2.clone(&mut ch);
    let pushed = vec![10, 30, 20, 20, 5, 99, 0];
    for (i, v) in pushed.iter().enumerate() {
        match i % 3 {
            0 => tx.send(&mut ch, *v),
            1 => tx2.send(&mut ch, *v),
            _ => tx3.send(&mut ch, *v),
        }
    }
    assert_eq!(rx.messages_remaining(&ch), 7);
    let mut got = Vec::new();
    for _ in 0..pushed.len() {
        got.push(rx.recv(&mut ch).unwrap());
    }
    assert_eq!(got, pushed);
    assert_eq!(rx.messages_remaining(&ch), 0);
    assert!(rx.try_recv(&mut ch).is_none());
}

#[test]
fn ready_follows_the_counter() {
    let (mut ch, tx, rx) = channel();
    assert_eq!(rx.ready(&ch), rx.messages_remaining(&ch) > 0);
    tx.send(&mut ch, 'a');
    assert_eq!(rx.messages_remaining(&ch), 1);
    assert!(rx.ready(&ch));
    assert_eq!(rx.recv(&mut ch), Ok('a'));
    assert_eq!(rx.messages_remaining(&ch), 0);
    assert!(!rx.ready(&ch));
}

#[test]
fn all_senders_gone_disconnects() {
    let (mut ch, tx, rx) = channel::<u32>();
    let tx2 = tx.clone(&mut ch);
    let tx3 = tx.clone(&mut ch);
    assert_eq!(rx.senders_remaining(&ch), 3);
    tx.disconnect(&mut ch);
    tx2.disconnect(&mut ch);
    tx3.disconnect(&mut ch);
    assert_eq!(rx.senders_remaining(&ch), 0);
    assert_eq!(rx.recv(&mut ch), Err(RecvError));
    assert_eq!(rx.messages_remaining(&ch), 0);
}

#[test]
fn disconnect_reports_the_wake_it_owes() {
    let (mut ch, tx, rx) = channel::<u32>();
    let tx2 = tx.clone(&mut ch);
    assert!(!tx2.disconnect(&mut ch));
    assert_eq!(rx.park(&mut ch, 0), WaitOutcome::Suspend);
    assert!(tx.disconnect(&mut ch));
    assert!(!rx.is_parked(&ch));
    assert_eq!(rx.senders_remaining(&ch), 0);
    assert_eq!(rx.recv(&mut ch), Err(RecvError));
}

#[test]
fn buffered_values_survive_the_last_sender() {
    let (mut ch, tx, rx) = channel();
    tx.send(&mut ch, 7);
    tx.disconnect(&mut ch);
    assert_eq!(rx.recv(&mut ch), Ok(7));
    assert_eq!(rx.recv(&mut ch), Err(RecvError));
}

#[test]
fn try_recv_on_fresh_channel_is_empty() {
    let (mut ch, _tx, rx) = channel::<String>();
    assert_eq!(rx.try_recv(&mut ch), None);
    assert_eq!(rx.messages_remaining(&ch), 0);
    assert_eq!(rx.senders_remaining(&ch), 1);
}

#[test]
fn try_recv_leaves_the_counter() {
    let (mut ch, tx, rx) = channel();
    tx.send(&mut ch, 4);
    tx.send(&mut ch, 5);
    assert_eq!(rx.try_recv(&mut ch), Some(4));
    assert_eq!(rx.messages_remaining(&ch), 2);
    assert_eq!(ch.buffered(), 1);
    assert_eq!(rx.recv(&mut ch), Ok(5));
    assert_eq!(rx.messages_remaining(&ch), 1);
    assert!(rx.ready(&ch));
    assert_eq!(ch.buffered(), 0);
}

#[test]
fn a_stale_count_with_a_live_sender_waits() {
    let (mut ch, tx, rx) = channel();
    tx.send(&mut ch, 1);
    assert_eq!(rx.try_recv(&mut ch), Some(1));
    assert_eq!(
        recv_action(ch.messages(), ch.buffered(), ch.senders()),
        RecvAction::Wait { expected: 1 }
    );
    assert_eq!(rx.park(&mut ch, 1), WaitOutcome::Suspend);
    tx.send(&mut ch, 2);
    assert!(!rx.is_parked(&ch));
    assert_eq!(rx.recv(&mut ch), Ok(2));
    assert_eq!(rx.messages_remaining(&ch), 1);
}

#[test]
fn a_stale_count_with_no_sender_disconnects() {
    let (mut ch, tx, rx) = channel();
    tx.send(&mut ch, 1);
    assert_eq!(rx.try_recv(&mut ch), Some(1));
    tx.disconnect(&mut ch);
    assert_eq!(
        recv_action(ch.messages(), ch.buffered(), ch.senders()),
        RecvAction::Disconnected
    );
    assert_eq!(rx.recv(&mut ch), Err(RecvError));
    assert_eq!(rx.messages_remaining(&ch), 1);
}

#[test]
fn try_recv_with_no_sender_and_nothing_counted() {
    let (mut ch, tx, rx) = channel::<u8>();
    tx.disconnect(&mut ch);
    assert_eq!(rx.try_recv(&mut ch), None);
}

#[test]
fn recv_action_values() {
    assert_eq!(recv_action(0, 0, 0), RecvAction::Disconnected);
    assert_eq!(recv_action(3, 0, 0), RecvAction::Disconnected);
    assert_eq!(recv_action(0, 0, 1), RecvAction::Wait { expected: 0 });
    assert_eq!(recv_action(2, 0, 9), RecvAction::Wait { expected: 2 });
    assert_eq!(recv_action(1, 1, 0), RecvAction::Claim { current: 1, next: 0 });
    assert_eq!(recv_action(5, 3, 2), RecvAction::Claim { current: 5, next: 4 });
    assert_eq!(recv_action(0, 1, 1), RecvAction::Claim { current: 0, next: 0 });
    assert_eq!(
        recv_action(usize::MAX, 1, 0),
        RecvAction::Claim { current: usize::MAX, next: usize::MAX - 1 }
    );
}

#[test]
fn drain_returns_everything_in_order() {
    let (mut ch, tx, rx) = channel();
    for i in 0..5u32 {
        tx.send(&mut ch, i * i);
    }
    tx.disconnect(&mut ch);
    assert_eq!(rx.drain(&mut ch), vec![0, 1, 4, 9, 16]);
    assert_eq!(rx.messages_remaining(&ch), 0);
    assert_eq!(rx.drain(&mut ch), Vec::<u32>::new());
}

#[test]
fn drain_after_try_recv_keeps_the_stale_counts() {
    let (mut ch, tx, rx) = channel();
    tx.send(&mut ch, 1);
    tx.send(&mut ch, 2);
    tx.send(&mut ch, 3);
    assert_eq!(rx.try_recv(&mut ch), Some(1));
    assert_eq!(rx.try_recv(&mut ch), Some(2));
    tx.disconnect(&mut ch);
    assert_eq!(rx.drain(&mut ch), vec![3]);
    assert_eq!(rx.messages_remaining(&ch), 2);
}

#[test]
fn borrowed_iter_stops_when_disconnected() {
    let (mut ch, tx, rx) = channel();
    tx.send(&mut ch, "a");
    tx.send(&mut ch, "b");
    tx.disconnect(&mut ch);
    let mut iter = rx.iter();
    assert_eq!(iter.next(&mut ch), Some("a"));
    assert_eq!(iter.next(&mut ch), Some("b"));
    assert_eq!(iter.next(&mut ch), None);
    assert_eq!(iter.next(&mut ch), None);
    assert_eq!(rx.messages_remaining(&ch), 0);
}

#[test]
fn park_suspends_only_on_an_unchanged_counter() {
    let (mut ch, tx, rx) = channel();
    assert!(!rx.is_parked(&ch));
    assert_eq!(rx.park(&mut ch, 0), WaitOutcome::Suspend);
    assert!(rx.is_parked(&ch));
    tx.send(&mut ch, 1);
    assert!(!rx.is_parked(&ch));
    assert_eq!(rx.park(&mut ch, 0), WaitOutcome::Changed);
    assert!(!rx.is_parked(&ch));
    assert_eq!(rx.recv(&mut ch), Ok(1));
}

#[test]
fn only_the_last_disconnect_wakes_a_parked_receiver() {
    let (mut ch, tx, rx) = channel::<u8>();
    let tx2 = tx.clone(&mut ch);
    assert_eq!(rx.park(&mut ch, 0), WaitOutcome::Suspend);
    assert!(!tx2.disconnect(&mut ch));
    assert!(rx.is_parked(&ch));
    assert!(tx.disconnect(&mut ch));
    assert!(!rx.is_parked(&ch));
    let mut iter = rx.iter();
    assert_eq!(iter.next(&mut ch), None);
}

#[test]
fn park_returns_at_once_where_no_receive_waits() {
    let (mut ch, tx, rx) = channel::<u8>();
    assert_eq!(rx.park(&mut ch, 5), WaitOutcome::Changed);
    assert!(!rx.is_parked(&ch));
    tx.disconnect(&mut ch);
    assert_eq!(rx.park(&mut ch, 0), WaitOutcome::Changed);
    assert!(!rx.is_parked(&ch));
}

#[test]
fn receiving_ends_a_wait() {
    let (mut ch, tx, rx) = channel::<u8>();
    assert_eq!(rx.park(&mut ch, 0), WaitOutcome::Suspend);
    assert_eq!(rx.try_recv(&mut ch), None);
    assert!(!rx.is_parked(&ch));
    tx.disconnect(&mut ch);
}

#[test]
fn channel_accessors_follow_the_state() {
    let (mut ch, tx, _rx) = channel();
    assert_eq!(ch.messages(), 0);
    assert_eq!(ch.senders(), 1);
    assert_eq!(ch.buffered(), 0);
    tx.send(&mut ch, 1);
    assert_eq!(ch.buffered(), 1);
    let tx2 = tx.clone(&mut ch);
    assert_eq!(ch.messages(), 1);
    assert_eq!(ch.senders(), 2);
    tx2.disconnect(&mut ch);
    assert_eq!(ch.senders(), 1);
}
