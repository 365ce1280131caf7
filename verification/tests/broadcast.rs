use std::sync::atomic::{AtomicUsize, Ordering};
use std::sync::Arc;
use std::task::{Wake, Waker};

use exercises::broadcast::{channel, Inner, Receiver, SendError};
use exercises::poll::Polled;

struct Wakes(AtomicUsize);

impl Wake for Wakes {
    fn wake(self: Arc<Self>) {
        self.0.fetch_add(1, Ordering::SeqCst);
    }
}

fn wakes() -> (Arc<Wakes>, Waker) {
    let count = Arc::new(Wakes(AtomicUsize::new(0)));
    (count.clone(), Waker::from(count))
}

fn quiet() -> Waker {
    Waker::noop().clone()
}

fn drain(rx: &mut Receiver<i32>) -> Vec<i32> {
    let mut got = Vec::new();
    while let Polled::Ready(v) = rx.poll_next(quiet()) {
        got.push(v);
    }
    got
}

#[test]
fn broadcast_test_send_recv() {
    let (tx, mut rx) = channel();
    for i in 0..3 {
        println!("send #{i}");
        tx.send(i).unwrap();
    }
    for i in 0..3 {
        println!("receive #{i}");
        assert_eq!(rx.poll_next(quiet()).into_option().unwrap(), i);
    }
}

#[test]
fn broadcast_test_drop() {
    let (tx, mut rx) = channel::<()>();
    tx.close();
    assert!(rx.poll_next(quiet()).into_option().is_none());
    assert_eq!(rx.poll_next(quiet()), Polled::Closed);

    let (tx, rx) = channel::<()>();
    rx.close();
    assert!(matches!(tx.send(()), Err(SendError::ReceiverDropped(()))));
}

#[test]
fn test_multiple_tx_rx() {
    let (tx, rx) = channel();

    let mut senders = Vec::new();
    for _ in 1..=3 {
        senders.push(tx.try_clone().unwrap());
    }
    tx.close();

    let mut receivers = Vec::new();
    for _ in 0..2 {
        receivers.push(rx.try_clone().unwrap());
    }
    rx.close();

    let mut sent = Vec::new();
    for j in 0..=1 {
        for (i, tx) in senders.iter().enumerate() {
            let x = 10 * (i as i32 + 1) + j;
            println!("tx[#{}]: {x}", i + 1);
            tx.send(x).unwrap();
            sent.push(x);
        }
    }
    for tx in senders {
        tx.close();
    }
    assert_eq!(sent, vec![10, 20, 30, 11, 21, 31]);

    for (i, mut rx) in receivers.into_iter().enumerate() {
        let got = drain(&mut rx);
        for msg in &got {
            println!("rx[#{i}]: {}", msg);
        }
        assert_eq!(got, sent);
        assert_eq!(rx.poll_next(quiet()), Polled::Closed);
        rx.close();
    }
}

#[test]
fn broadcast_rejected_value_comes_back() {
    let (tx, rx) = channel::<String>();
    let rx2 = rx.try_clone().unwrap();
    rx.close();
    tx.send("heard".to_owned()).unwrap();
    rx2.close();
    match tx.send("lost".to_owned()) {
        Err(SendError::ReceiverDropped(v)) => assert_eq!(v, "lost"),
        Ok(()) => panic!("a send without consumers was accepted"),
    }
}

#[test]
fn broadcast_late_clone_starts_at_the_cloners_cursor() {
    let (tx, mut rx) = channel();
    tx.send(1).unwrap();
    tx.send(2).unwrap();
    assert_eq!(rx.poll_next(quiet()), Polled::Ready(1));
    assert_eq!(rx.poll_next(quiet()), Polled::Ready(2));
    let mut late = rx.try_clone().unwrap();
    tx.send(3).unwrap();
    tx.close();
    assert_eq!(drain(&mut late), vec![3]);
    assert_eq!(late.poll_next(quiet()), Polled::Closed);
    assert_eq!(drain(&mut rx), vec![3]);
    assert_eq!(rx.poll_next(quiet()), Polled::Closed);
}

#[test]
fn broadcast_clone_of_a_lagging_consumer_lags_too() {
    let (tx, mut rx) = channel();
    tx.send(1).unwrap();
    tx.send(2).unwrap();
    assert_eq!(rx.poll_next(quiet()), Polled::Ready(1));
    let mut copy = rx.try_clone().unwrap();
    tx.send(3).unwrap();
    assert_eq!(drain(&mut copy), vec![2, 3]);
    assert_eq!(drain(&mut rx), vec![2, 3]);
    assert_eq!(rx.poll_next(quiet()), Polled::Pending);
}

#[test]
fn broadcast_send_wakes_every_waiting_consumer() {
    let (tx, mut a) = channel::<i32>();
    let mut b = a.try_clone().unwrap();
    let c = a.try_clone().unwrap();
    let (wa, waker_a) = wakes();
    let (wb, waker_b) = wakes();
    assert_eq!(a.poll_next(waker_a), Polled::Pending);
    assert_eq!(b.poll_next(waker_b), Polled::Pending);
    tx.send(4).unwrap();
    assert_eq!(wa.0.load(Ordering::SeqCst), 1);
    assert_eq!(wb.0.load(Ordering::SeqCst), 1);
    assert_eq!(a.poll_next(quiet()), Polled::Ready(4));
    assert_eq!(b.poll_next(quiet()), Polled::Ready(4));
    c.close();
}

#[test]
fn broadcast_last_producer_wakes_consumers() {
    let (tx, mut rx) = channel::<i32>();
    let tx2 = tx.try_clone().unwrap();
    let (count, waker) = wakes();
    assert_eq!(rx.poll_next(waker), Polled::Pending);
    tx2.close();
    assert_eq!(count.0.load(Ordering::SeqCst), 0);
    tx.close();
    assert_eq!(count.0.load(Ordering::SeqCst), 1);
    assert_eq!(rx.poll_next(quiet()), Polled::Closed);
}

#[test]
fn broadcast_send_resumes_after_a_consumer_returns() {
    let (tx, rx) = channel::<i32>();
    let rx2 = rx.try_clone().unwrap();
    rx.close();
    assert!(tx.send(1).is_ok());
    rx2.close();
    assert!(tx.send(2).is_err());
}

#[test]
fn broadcast_state_steps() {
    let mut inner = Inner::new();
    assert_eq!(inner.get_msg(0), None::<i32>);
    inner.send(8).unwrap();
    inner.send(9).unwrap();
    assert_eq!(inner.get_msg(0), Some(8));
    assert_eq!(inner.get_msg(1), Some(9));
    assert_eq!(inner.get_msg(2), None);
    assert_eq!(inner.new_rx(), Some(1));
    assert_eq!(inner.new_rx(), Some(2));
    inner.delete_rx(1);
    assert_eq!(inner.new_rx(), Some(3));
    assert_eq!(inner.poll_next(0, 1, quiet()), Polled::Ready(9));
    assert_eq!(inner.poll_next(0, 2, quiet()), Polled::Pending);
    assert_eq!(inner.poll_next(1, 2, quiet()), Polled::Closed);
    assert!(inner.add_tx());
    inner.drop_tx();
    assert_eq!(inner.poll_next(2, 2, quiet()), Polled::Pending);
    inner.drop_tx();
    assert_eq!(inner.poll_next(2, 2, quiet()), Polled::Closed);
    assert_eq!(inner.poll_next(2, 0, quiet()), Polled::Ready(8));
    inner.delete_rx(0);
    inner.delete_rx(2);
    assert!(inner.send(10).is_ok());
    inner.delete_rx(3);
    assert!(matches!(inner.send(11), Err(SendError::ReceiverDropped(11))));
}

#[test]
fn broadcast_stored_token_is_used_only_for_registered_consumers() {
    let mut inner = Inner::<i32>::new();
    let (count, waker) = wakes();
    inner.set_waker(5, waker.clone());
    assert_eq!(inner.wake_rxs(), 0);
    assert_eq!(count.0.load(Ordering::SeqCst), 0);
    inner.set_waker(0, waker.clone());
    assert_eq!(inner.wake_rxs(), 1);
    assert_eq!(count.0.load(Ordering::SeqCst), 1);
    assert_eq!(inner.new_rx(), Some(1));
    assert_eq!(inner.new_rx(), Some(2));
    inner.set_waker(2, waker);
    assert_eq!(inner.wake_rxs(), 2);
    assert_eq!(count.0.load(Ordering::SeqCst), 3);
    inner.delete_rx(0);
    assert_eq!(inner.wake_rxs(), 1);
    assert_eq!(count.0.load(Ordering::SeqCst), 4);
}

fn crosses_threads<H: Send + Sync>(_: &H) {}

#[test]
fn broadcast_handles_cross_threads() {
    let (tx, rx) = channel::<i32>();
    crosses_threads(&tx);
    crosses_threads(&rx);
    tx.close();
    rx.close();
}

#[test]
fn broadcast_stored_token_is_kept_after_a_send() {
    let (tx, mut rx) = channel::<u8>();
    let (count, waker) = wakes();
    assert_eq!(rx.poll_next(waker), Polled::Pending);
    tx.send(1).unwrap();
    tx.send(2).unwrap();
    assert_eq!(count.0.load(Ordering::SeqCst), 2);
}

#[test]
fn broadcast_token_is_stored_only_when_suspending() {
    let (tx, mut rx) = channel::<u8>();
    tx.send(1).unwrap();
    let (count, waker) = wakes();
    assert_eq!(rx.poll_next(waker), Polled::Ready(1));
    tx.send(2).unwrap();
    assert_eq!(count.0.load(Ordering::SeqCst), 0);
}

#[test]
fn broadcast_consumers_read_independently() {
    let (tx, mut a) = channel::<u8>();
    let mut b = a.try_clone().unwrap();
    tx.send(1).unwrap();
    tx.send(2).unwrap();
    assert_eq!(a.poll_next(quiet()), Polled::Ready(1));
    assert_eq!(a.poll_next(quiet()), Polled::Ready(2));
    assert_eq!(a.poll_next(quiet()), Polled::Pending);
    assert_eq!(b.poll_next(quiet()), Polled::Ready(1));
    a.close();
    tx.send(3).unwrap();
    assert_eq!(b.poll_next(quiet()), Polled::Ready(2));
    assert_eq!(b.poll_next(quiet()), Polled::Ready(3));
    tx.close();
    assert_eq!(b.poll_next(quiet()), Polled::Closed);
}
