//! A channel from many producers to one consumer.
//!
//! Messages are queued in send order and handed to the single consumer one
//! by one; each message is delivered once. The shared state sits behind a
//! lock; every operation of a handle is one step of the state machine
//! [`State`], taken while the lock is held.

use vstd::prelude::*;
use vstd::rwlock::RwLock;
use vstd::rwlock::RwLockPredicate;
use std::collections::VecDeque;
use std::sync::Arc;
use std::task::Waker;
use crate::poll::Polled;

verus! {

/// Why a send was refused.
#[derive(Debug)]
pub enum SendError<T> {
    /// The consumer is gone; the rejected value is handed back.
    ReceiverDropped(T),
}

/// The channel as a mathematical value.
pub struct State<T> {
    /// Messages sent and not yet delivered, oldest first.
    pub messages: Seq<T>,
    /// Number of producer handles that have not been released.
    pub producers: nat,
    /// Whether the consumer handle is still held.
    pub consumer_present: bool,
    /// The resume token stored by the latest poll.
    pub waker: Option<Waker>,
}

impl<T> State<T> {
    /// A new channel: nothing queued, one producer, one consumer.
    pub open spec fn fresh() -> Self {
        State { messages: Seq::empty(), producers: 1, consumer_present: true, waker: None }
    }

    /// Whether a send is accepted in this state.
    pub open spec fn accepts(self) -> bool {
        self.consumer_present
    }

    /// The state after `send(value)`.
    pub open spec fn send(self, value: T) -> Self {
        if self.accepts() {
            State { messages: self.messages.push(value), ..self }
        } else {
            self
        }
    }

    /// What `send(value)` returns.
    pub open spec fn send_result(self, value: T) -> Result<(), SendError<T>> {
        if self.accepts() {
            Ok(())
        } else {
            Err(SendError::ReceiverDropped(value))
        }
    }

    /// The state after a poll that hands in `waker`.
    pub open spec fn poll(self, waker: Waker) -> Self {
        State {
            messages: if self.messages.len() > 0 {
                self.messages.drop_first()
            } else {
                self.messages
            },
            waker: Some(waker),
            ..self
        }
    }

    /// What a poll returns.
    pub open spec fn poll_result(self) -> Polled<T> {
        if self.messages.len() > 0 {
            Polled::Ready(self.messages.first())
        } else if self.producers == 0 {
            Polled::Closed
        } else {
            Polled::Pending
        }
    }

    /// The state after one more producer handle was made.
    pub open spec fn add_producer(self) -> Self {
        State { producers: self.producers + 1, ..self }
    }

    /// The state after a producer handle was released.
    pub open spec fn drop_producer(self) -> Self {
        State { producers: if self.producers > 0 { (self.producers - 1) as nat } else { 0 }, ..self }
    }

    /// The state after the consumer handle was released.
    pub open spec fn drop_consumer(self) -> Self {
        State { consumer_present: false, ..self }
    }

    /// The state after `values` were sent one after the other.
    pub open spec fn send_all(self, values: Seq<T>) -> Self
        decreases values.len(),
    {
        if values.len() == 0 {
            self
        } else {
            self.send_all(values.drop_last()).send(values.last())
        }
    }

    /// The outcomes of `n` polls in a row, each handing in `waker`.
    pub open spec fn poll_results(self, n: nat, waker: Waker) -> Seq<Polled<T>>
        decreases n,
    {
        if n == 0 {
            Seq::empty()
        } else {
            seq![self.poll_result()] + self.poll(waker).poll_results((n - 1) as nat, waker)
        }
    }

    /// The state after `n` polls in a row, each handing in `waker`.
    pub open spec fn poll_n(self, n: nat, waker: Waker) -> Self
        decreases n,
    {
        if n == 0 {
            self
        } else {
            self.poll(waker).poll_n((n - 1) as nat, waker)
        }
    }
}

/// The shared state of one channel.
pub struct Inner<T> {
    /// The buffer containing the messages
    buffer: VecDeque<T>,
    /// The resume token of the consumer
    waker: Option<Waker>,
    /// Indicates whether the `Receiver` was released
    rx_dropped: bool,
    /// The number of created `Sender`s that are not yet released
    txs_left: u32,
}

impl<T> View for Inner<T> {
    type V = State<T>;

    closed spec fn view(&self) -> State<T> {
        State {
            messages: self.buffer@,
            producers: self.txs_left as nat,
            consumer_present: !self.rx_dropped,
            waker: self.waker,
        }
    }
}

impl<T> Inner<T> {
    /// The largest producer count that the state can hold.
    pub open spec fn max_producers() -> nat {
        u32::MAX as nat
    }

    /// The state of a new channel.
    pub fn new() -> (inner: Self)
        ensures
            inner@ == State::<T>::fresh(),
    {
        Inner { buffer: VecDeque::new(), waker: None, rx_dropped: false, txs_left: 1 }
    }

    /// Queues `value` and wakes the consumer, or hands `value` back when the
    /// consumer is gone.
    pub fn send(&mut self, value: T) -> (r: Result<(), SendError<T>>)
        ensures
            final(self)@ == old(self)@.send(value),
            r == old(self)@.send_result(value),
    {
        if self.rx_dropped {
            return Err(SendError::ReceiverDropped(value));
        }
        self.buffer.push_back(value);
        self.wake_rx();
        Ok(())
    }

    /// One poll of the consumer: stores `waker`, then hands over the oldest
    /// message if there is one.
    pub fn poll_next(&mut self, waker: Waker) -> (r: Polled<T>)
        ensures
            final(self)@ == old(self)@.poll(waker),
            r == old(self)@.poll_result(),
    {
        self.waker = Some(waker);
        match self.buffer.pop_front() {
            Some(item) => Polled::Ready(item),
            None => {
                if self.txs_left == 0 {
                    Polled::Closed
                } else {
                    Polled::Pending
                }
            },
        }
    }

    /// Counts one more producer. Returns `false`, and changes nothing, when
    /// the count is at its limit.
    pub fn add_tx(&mut self) -> (added: bool)
        ensures
            added == (old(self)@.producers < Self::max_producers()),
            final(self)@ == (if added { old(self)@.add_producer() } else { old(self)@ }),
    {
        if self.txs_left == u32::MAX {
            return false;
        }
        self.txs_left = self.txs_left + 1;
        true
    }

    /// Counts one producer less; when none is left, wakes the consumer so
    /// that it sees the end of the stream.
    pub fn drop_tx(&mut self)
        ensures
            final(self)@ == old(self)@.drop_producer(),
    {
        if self.txs_left > 0 {
            self.txs_left = self.txs_left - 1;
        }
        if self.txs_left > 0 {
            return;
        }
        self.wake_rx();
    }

    /// Marks the consumer as released.
    pub fn drop_rx(&mut self)
        ensures
            final(self)@ == old(self)@.drop_consumer(),
    {
        self.rx_dropped = true;
    }

    /// Invokes the stored resume token, if there is one. Returns whether
    /// there was one.
    pub fn wake_rx(&self) -> (woken: bool)
        ensures
            woken == self@.waker.is_some(),
    {
        match self.waker.as_ref() {
            Some(waker) => {
                waker.wake_by_ref();
                true
            },
            None => false,
        }
    }
}

/// What the lock around an [`Inner`] admits: every state.
pub struct AnyState;

impl<T> RwLockPredicate<Inner<T>> for AnyState {
    open spec fn inv(self, v: Inner<T>) -> bool {
        true
    }
}

/// The producer handle. Make further ones with [`Sender::try_clone`];
/// release each with [`Sender::close`].
#[verifier::reject_recursive_types(T)]
pub struct Sender<T> {
    inner: Arc<RwLock<Inner<T>, AnyState>>,
}

/// The consumer handle. Release it with [`Receiver::close`].
#[verifier::reject_recursive_types(T)]
pub struct Receiver<T> {
    inner: Arc<RwLock<Inner<T>, AnyState>>,
}

impl<T> Sender<T> {
    /// The lock that this handle shares with the other handles of its
    /// channel.
    pub closed spec fn shared(self) -> RwLock<Inner<T>, AnyState> {
        *self.inner
    }

    /// Takes the lock and does [`Inner::send`]. The outcome depends on the
    /// state that the lock held; whatever it was, a rejected value comes
    /// back unchanged.
    pub fn send(&self, value: T) -> (r: Result<(), SendError<T>>)
        ensures
            r matches Err(e) ==> e == SendError::ReceiverDropped(value),
    {
        let (mut inner, handle) = self.inner.acquire_write();
        let r = inner.send(value);
        handle.release_write(inner);
        r
    }

    /// Takes the lock and does [`Inner::add_tx`]. Returns a second handle
    /// to the same channel, or `None` when the producer count is at its
    /// limit.
    pub fn try_clone(&self) -> (r: Option<Sender<T>>)
        ensures
            r matches Some(tx) ==> tx.shared() == self.shared(),
    {
        let (mut inner, handle) = self.inner.acquire_write();
        let added = inner.add_tx();
        handle.release_write(inner);
        if added {
            Some(Sender { inner: self.inner.clone() })
        } else {
            None
        }
    }

    /// Releases the handle: takes the lock and does [`Inner::drop_tx`].
    pub fn close(self) {
        let (mut inner, handle) = self.inner.acquire_write();
        inner.drop_tx();
        handle.release_write(inner);
    }
}

impl<T> Receiver<T> {
    /// The lock that this handle shares with the other handles of its
    /// channel.
    pub closed spec fn shared(self) -> RwLock<Inner<T>, AnyState> {
        *self.inner
    }

    /// Takes the lock and does [`Inner::poll_next`]. After
    /// [`Polled::Pending`] the handle is due again once `waker` has fired.
    pub fn poll_next(&mut self, waker: Waker) -> (r: Polled<T>)
        ensures
            final(self).shared() == old(self).shared(),
    {
        let (mut inner, handle) = self.inner.acquire_write();
        let r = inner.poll_next(waker);
        handle.release_write(inner);
        r
    }

    /// Releases the handle: takes the lock and does [`Inner::drop_rx`].
    /// Later sends are refused.
    pub fn close(self) {
        let (mut inner, handle) = self.inner.acquire_write();
        inner.drop_rx();
        handle.release_write(inner);
    }
}

/// Create a new mpsc channel
pub fn channel<T>() -> (r: (Sender<T>, Receiver<T>))
    ensures
        r.0.shared() == r.1.shared(),
{
    let inner = Arc::new(RwLock::new(Inner::new(), Ghost(AnyState)));
    let tx = Sender { inner: inner.clone() };
    let rx = Receiver { inner };
    (tx, rx)
}

/// Sending `values` to a channel that accepts them queues them behind what
/// was queued, in the order sent, and changes nothing else.
pub proof fn lemma_send_all<T>(s: State<T>, values: Seq<T>)
    requires
        s.accepts(),
    ensures
        s.send_all(values) == (State { messages: s.messages + values, ..s }),
    decreases values.len(),
{
    if values.len() == 0 {
        assert(s.messages + values =~= s.messages);
    } else {
        lemma_send_all(s, values.drop_last());
        assert((s.messages + values.drop_last()).push(values.last()) =~= s.messages + values);
    }
}

/// `n` polls in a row hand over the `n` oldest messages, oldest first, and
/// leave the rest queued: no message is delivered twice and none is skipped.
pub proof fn law_polls_deliver_each_once<T>(s: State<T>, n: nat, waker: Waker)
    requires
        n <= s.messages.len(),
    ensures
        s.poll_results(n, waker) == s.messages.take(n as int).map_values(|m: T| Polled::Ready(m)),
        s.poll_n(n, waker).messages == s.messages.skip(n as int),
    decreases n,
{
    let ready = |m: T| Polled::Ready(m);
    if n == 0 {
        assert(s.poll_results(n, waker) =~= s.messages.take(0).map_values(ready));
        assert(s.messages.skip(0) =~= s.messages);
    } else {
        let t = s.poll(waker);
        law_polls_deliver_each_once(t, (n - 1) as nat, waker);
        assert(t.messages == s.messages.skip(1));
        assert(t.messages.skip(n - 1) =~= s.messages.skip(n as int));
        assert(s.poll_results(n, waker) =~= s.messages.take(n as int).map_values(ready)) by {
            let got = s.poll_results(n, waker);
            let want = s.messages.take(n as int).map_values(ready);
            let rest = t.poll_results((n - 1) as nat, waker);
            assert(rest == t.messages.take(n - 1).map_values(ready));
            assert(got.len() == want.len());
            assert forall|i: int| 0 <= i < got.len() implies got[i] == want[i] by {
                if i > 0 {
                    assert(got[i] == rest[i - 1]);
                    assert(t.messages.take(n - 1)[i - 1] == s.messages[i]);
                }
            }
        }
    }
}

/// Order preservation: what is sent to a new channel before any poll comes
/// out of the polls that follow in the order in which it was sent.
pub proof fn law_order_preserved<T>(values: Seq<T>, waker: Waker)
    ensures
        State::<T>::fresh().send_all(values).poll_results(values.len(), waker)
            == values.map_values(|m: T| Polled::Ready(m)),
{
    let s = State::<T>::fresh();
    lemma_send_all(s, values);
    let t = s.send_all(values);
    assert(t.messages =~= values);
    law_polls_deliver_each_once(t, values.len(), waker);
    assert(values.take(values.len() as int) =~= values);
}

/// The producer count goes up by one with every handle that is made and
/// down by one with every handle that is released, and it reaches zero only
/// when the last one goes.
pub proof fn law_producers_counted<T>(s: State<T>)
    ensures
        s.add_producer().producers == s.producers + 1,
        s.add_producer().drop_producer() == s,
        s.producers > 0 ==> s.drop_producer().producers == s.producers - 1,
        s.producers > 1 ==> s.drop_producer().producers > 0,
{
}

/// A channel whose producers are all gone and whose queue is empty answers
/// every poll with [`Polled::Closed`], and stays that way.
pub proof fn law_closed_is_final<T>(s: State<T>, waker: Waker)
    requires
        s.producers == 0,
        s.messages.len() == 0,
    ensures
        s.poll_result() == Polled::<T>::Closed,
        s.poll(waker).producers == 0,
        s.poll(waker).messages.len() == 0,
{
}

/// Closure without data: a new channel whose producer is released at once
/// answers the first poll of its consumer with [`Polled::Closed`].
pub proof fn law_closed_without_data<T>()
    ensures
        State::<T>::fresh().drop_producer().poll_result() == Polled::<T>::Closed,
{
}

/// Once the consumer is released every send is refused: the value comes
/// back in the error and the state stays as it was.
pub proof fn law_send_after_consumer_loss<T>(s: State<T>, value: T)
    ensures
        s.drop_consumer().send_result(value) == Err::<(), SendError<T>>(
            SendError::ReceiverDropped(value),
        ),
        s.drop_consumer().send(value) == s.drop_consumer(),
{
}

} // verus!
