//! A channel from many producers to many consumers.
//!
//! Messages are appended to a shared log. Each consumer reads the log
//! through a cursor of its own, so every consumer sees every message from
//! its cursor on, once and in send order. The shared state sits behind a
//! lock; every operation of a handle is one step of the state machine
//! [`State`], taken while the lock is held.

use vstd::prelude::*;
use vstd::rwlock::RwLock;
use vstd::rwlock::RwLockPredicate;
use std::collections::HashMap;
use std::collections::VecDeque;
use std::sync::Arc;
use std::task::Waker;
use vstd::std_specs::iter::IteratorSpec;
use crate::poll::Polled;

verus! {

/// Why a send was refused.
#[derive(Debug)]
pub enum SendError<T> {
    /// No consumer is registered; the rejected value is handed back.
    ReceiverDropped(T),
}

/// The channel as a mathematical value.
pub struct State<T> {
    /// The messages that are kept, oldest first.
    pub log: Seq<T>,
    /// Number of messages that were removed from the head of the log.
    pub evicted: nat,
    /// Number of producer handles that have not been released.
    pub producers: nat,
    /// The id that the next consumer gets.
    pub next_id: nat,
    /// The registered consumers, each with the resume token it stored last.
    pub consumers: Map<usize, Option<Waker>>,
}

impl<T> State<T> {
    /// A new channel: empty log, one producer, consumer 0 registered.
    pub open spec fn fresh() -> Self {
        State {
            log: Seq::empty(),
            evicted: 0,
            producers: 1,
            next_id: 1,
            consumers: Map::empty().insert(0usize, None),
        }
    }

    /// Finitely many consumers, each with an id below the next one.
    pub open spec fn wf(self) -> bool {
        &&& self.consumers.dom().finite()
        &&& forall|id: usize| self.consumers.contains_key(id) ==> id < self.next_id
    }

    /// The position behind the last message.
    pub open spec fn end(self) -> nat {
        self.evicted + self.log.len()
    }

    /// Whether the log holds a message at position `cursor`.
    pub open spec fn has_message(self, cursor: nat) -> bool {
        self.evicted <= cursor < self.end()
    }

    /// The message at position `cursor`.
    pub open spec fn message(self, cursor: nat) -> T
        recommends
            self.has_message(cursor),
    {
        self.log[cursor - self.evicted]
    }

    /// Whether a send is accepted: some consumer is registered.
    pub open spec fn accepts(self) -> bool {
        self.consumers.len() > 0
    }

    /// The state after `send(value)`.
    pub open spec fn send(self, value: T) -> Self {
        if self.accepts() {
            State { log: self.log.push(value), ..self }
        } else {
            self
        }
    }

    /// What `send(value)` returns.
    pub open spec fn send_result(self, value: T) -> Result<(), SendError<T>> {
        if self.accepts() {
            Ok(())
        } else {
            Err(SendError::ReceiverDropped(value))
        }
    }

    /// Whether a poll by consumer `id` at `cursor` suspends.
    pub open spec fn suspends(self, id: usize, cursor: nat) -> bool {
        !self.has_message(cursor) && self.producers > 0 && self.consumers.contains_key(id)
    }

    /// What a poll by consumer `id` at `cursor` returns. A consumer that is
    /// not registered has nothing to wait for.
    pub open spec fn poll_result(self, id: usize, cursor: nat) -> Polled<T> {
        if self.has_message(cursor) {
            Polled::Ready(self.message(cursor))
        } else if self.suspends(id, cursor) {
            Polled::Pending
        } else {
            Polled::Closed
        }
    }

    /// The state after that poll: a suspending consumer has stored `waker`.
    pub open spec fn poll(self, id: usize, cursor: nat, waker: Waker) -> Self {
        if self.suspends(id, cursor) {
            self.store_waker(id, waker)
        } else {
            self
        }
    }

    /// The state after consumer `id`, if registered, stored `waker`.
    pub open spec fn store_waker(self, id: usize, waker: Waker) -> Self {
        if self.consumers.contains_key(id) {
            State { consumers: self.consumers.insert(id, Some(waker)), ..self }
        } else {
            self
        }
    }

    /// The state after a new consumer was registered under `next_id`.
    pub open spec fn subscribe(self) -> Self {
        State {
            consumers: self.consumers.insert(self.next_id as usize, None),
            next_id: self.next_id + 1,
            ..self
        }
    }

    /// The state after consumer `id` was released.
    pub open spec fn unsubscribe(self, id: usize) -> Self {
        State { consumers: self.consumers.remove(id), ..self }
    }

    /// The state after one more producer handle was made.
    pub open spec fn add_producer(self) -> Self {
        State { producers: self.producers + 1, ..self }
    }

    /// The state after a producer handle was released.
    pub open spec fn drop_producer(self) -> Self {
        State { producers: if self.producers > 0 { (self.producers - 1) as nat } else { 0 }, ..self }
    }

    /// The consumers that have a resume token stored.
    pub open spec fn waiting(self) -> Set<usize> {
        Set::new(|id: usize| self.consumers.contains_key(id) && self.consumers[id].is_some())
    }

    /// The state after `values` were sent one after the other.
    pub open spec fn send_all(self, values: Seq<T>) -> Self
        decreases values.len(),
    {
        if values.len() == 0 {
            self
        } else {
            self.send_all(values.drop_last()).send(values.last())
        }
    }

    /// The cursor of a consumer after a poll at `cursor`: one further if a
    /// message was handed over.
    pub open spec fn next_cursor(self, cursor: nat) -> nat {
        if self.has_message(cursor) {
            cursor + 1
        } else {
            cursor
        }
    }

    /// The outcomes of `n` polls in a row by consumer `id`, which starts at
    /// `cursor` and hands in `waker` each time.
    pub open spec fn poll_results(self, id: usize, cursor: nat, n: nat, waker: Waker) -> Seq<
        Polled<T>,
    >
        decreases n,
    {
        if n == 0 {
            Seq::empty()
        } else {
            seq![self.poll_result(id, cursor)] + self.poll(id, cursor, waker).poll_results(
                id,
                self.next_cursor(cursor),
                (n - 1) as nat,
                waker,
            )
        }
    }
}

/// How many of the first `n` entries hold a resume token.
pub open spec fn tokens_among(entries: Seq<(&usize, &Option<Waker>)>, n: nat) -> nat
    decreases n,
{
    if n == 0 {
        0
    } else {
        tokens_among(entries, (n - 1) as nat) + (if entries[n - 1].1.is_some() {
            1nat
        } else {
            0nat
        })
    }
}

/// The ids among the first `n` entries that hold a resume token.
pub open spec fn keys_with_token(entries: Seq<(&usize, &Option<Waker>)>, n: nat) -> Set<usize> {
    Set::new(
        |k: usize|
            exists|i: int| 0 <= i < n && *(#[trigger] entries[i]).0 == k && entries[i].1.is_some(),
    )
}

/// Where each entry is an entry of `consumers` and none comes twice, the
/// entries that hold a token are as many as the ids that they stand for.
pub proof fn lemma_tokens_among(
    consumers: Map<usize, Option<Waker>>,
    entries: Seq<(&usize, &Option<Waker>)>,
    n: nat,
)
    requires
        n <= entries.len(),
        entries.no_duplicates(),
        forall|i: int|
            0 <= i < entries.len() ==> consumers.contains_key(*(#[trigger] entries[i]).0)
                && consumers[*entries[i].0] == *entries[i].1,
    ensures
        keys_with_token(entries, n).finite(),
        keys_with_token(entries, n).len() == tokens_among(entries, n),
    decreases n,
{
    if n == 0 {
        assert(keys_with_token(entries, n) =~= Set::<usize>::empty());
    } else {
        let m = (n - 1) as nat;
        lemma_tokens_among(consumers, entries, m);
        let last = entries[n - 1];
        if last.1.is_some() {
            assert(!keys_with_token(entries, m).contains(*last.0)) by {
                if keys_with_token(entries, m).contains(*last.0) {
                    let i = choose|i: int|
                        0 <= i < m && *(#[trigger] entries[i]).0 == *last.0 && entries[i].1.is_some();
                    assert(entries[i] == last);
                }
            }
            assert(keys_with_token(entries, n) =~= keys_with_token(entries, m).insert(*last.0));
        } else {
            assert(keys_with_token(entries, n) =~= keys_with_token(entries, m));
        }
    }
}

/// The shared state of one channel.
pub struct Inner<T> {
    buffer: VecDeque<T>,
    deleted_msg_count: usize,
    txs_left: usize,
    next_rx_id: usize,
    rxs: HashMap<usize, Option<Waker>>,
}

impl<T> View for Inner<T> {
    type V = State<T>;

    closed spec fn view(&self) -> State<T> {
        State {
            log: self.buffer@,
            evicted: self.deleted_msg_count as nat,
            producers: self.txs_left as nat,
            next_id: self.next_rx_id as nat,
            consumers: self.rxs@,
        }
    }
}

impl<T> Inner<T> {
    /// The limit of the producer count and of the consumer ids.
    pub open spec fn limit() -> nat {
        usize::MAX as nat
    }

    /// The state is well formed, and nothing has been removed from the log.
    pub closed spec fn wf(self) -> bool {
        &&& self@.wf()
        &&& self.deleted_msg_count == 0
    }

    /// A well-formed state has a well-formed view, and its log ends within
    /// the range of a cursor.
    pub proof fn lemma_wf(self)
        requires
            self.wf(),
        ensures
            self@.wf(),
            self@.evicted == 0,
            self@.end() <= Self::limit(),
            self@.next_id <= Self::limit(),
    {
        assert(self.buffer.len() == self.buffer@.len());
    }

    /// The state of a new channel.
    pub fn new() -> (inner: Self)
        ensures
            inner.wf(),
            inner@ == State::<T>::fresh(),
    {
        let mut rxs: HashMap<usize, Option<Waker>> = HashMap::new();
        rxs.insert(0, None);
        let inner = Inner {
            buffer: VecDeque::new(),
            deleted_msg_count: 0,
            next_rx_id: 1,
            txs_left: 1,
            rxs,
        };
        assert(inner@.consumers =~= State::<T>::fresh().consumers);
        inner
    }

    /// Stores `waker` for consumer `rx_id`, if that consumer is registered.
    pub fn set_waker(&mut self, rx_id: usize, waker: Waker)
        requires
            old(self).wf(),
        ensures
            final(self).wf(),
            final(self)@ == old(self)@.store_waker(rx_id, waker),
    {
        if self.rxs.contains_key(&rx_id) {
            self.rxs.insert(rx_id, Some(waker));
        }
    }

    /// Registers a new consumer and returns its id, or returns `None`, and
    /// changes nothing, when the ids are used up.
    pub fn new_rx(&mut self) -> (r: Option<usize>)
        requires
            old(self).wf(),
        ensures
            final(self).wf(),
            r is Some <==> old(self)@.next_id < Self::limit(),
            r matches Some(id) ==> id == old(self)@.next_id && final(self)@ == old(self)@.subscribe(),
            r is None ==> final(self)@ == old(self)@,
    {
        if self.next_rx_id == usize::MAX {
            return None;
        }
        let rx_id = self.next_rx_id;
        self.next_rx_id = rx_id + 1;
        self.rxs.insert(rx_id, None);
        Some(rx_id)
    }

    /// Removes consumer `rx_id` from the registered ones.
    pub fn delete_rx(&mut self, rx_id: usize)
        requires
            old(self).wf(),
        ensures
            final(self).wf(),
            final(self)@ == old(self)@.unsubscribe(rx_id),
    {
        self.rxs.remove(&rx_id);
    }

    /// Invokes every stored resume token, and returns how many there were.
    pub fn wake_rxs(&self) -> (woken: usize)
        ensures
            woken == self@.waiting().len(),
    {
        let total = self.rxs.len();
        let mut woken: usize = 0;
        let it = self.rxs.iter();
        let ghost entries = it.remaining();
        for (_, waker) in iter: it
            invariant
                iter.seq() == entries,
                entries.len() == total,
                woken <= iter.index(),
                woken == tokens_among(entries, iter.index() as nat),
        {
            match waker {
                Some(waker) => {
                    waker.wake_by_ref();
                    woken = woken + 1;
                },
                None => {},
            }
        }
        proof {
            lemma_tokens_among(self.rxs@, entries, entries.len());
            assert(self@.waiting() =~= keys_with_token(entries, entries.len())) by {
                assert forall|k: usize| self@.waiting().contains(k) implies keys_with_token(
                    entries,
                    entries.len(),
                ).contains(k) by {
                    let i = entries.index_of((&k, &self.rxs@[k]));
                    assert(*entries[i].0 == k && entries[i].1.is_some());
                }
            }
        }
        woken
    }

    /// Appends `value` to the log and wakes the consumers, or hands `value`
    /// back when no consumer is registered.
    pub fn send(&mut self, value: T) -> (r: Result<(), SendError<T>>)
        requires
            old(self).wf(),
        ensures
            final(self).wf(),
            final(self)@ == old(self)@.send(value),
            r == old(self)@.send_result(value),
    {
        if self.rxs.len() == 0 {
            return Err(SendError::ReceiverDropped(value));
        }
        self.buffer.push_back(value);
        let _ = self.wake_rxs();
        Ok(())
    }

    /// Counts one more producer. Returns `false`, and changes nothing, when
    /// the count is at its limit.
    pub fn add_tx(&mut self) -> (added: bool)
        requires
            old(self).wf(),
        ensures
            final(self).wf(),
            added == (old(self)@.producers < Self::limit()),
            final(self)@ == (if added { old(self)@.add_producer() } else { old(self)@ }),
    {
        if self.txs_left == usize::MAX {
            return false;
        }
        self.txs_left = self.txs_left + 1;
        true
    }

    /// Counts one producer less; when none is left, wakes every consumer so
    /// that it sees the end of the stream.
    pub fn drop_tx(&mut self)
        requires
            old(self).wf(),
        ensures
            final(self).wf(),
            final(self)@ == old(self)@.drop_producer(),
    {
        if self.txs_left > 0 {
            self.txs_left = self.txs_left - 1;
        }
        if self.txs_left > 0 {
            return;
        }
        let _ = self.wake_rxs();
    }
}

impl<T: Clone> Inner<T> {
    /// A clone of the message at position `msg_idx`, if the log holds one
    /// there.
    pub fn get_msg(&self, msg_idx: usize) -> (r: Option<T>)
        ensures
            r is Some <==> self@.has_message(msg_idx as nat),
            r matches Some(v) ==> cloned(self@.message(msg_idx as nat), v),
    {
        if msg_idx < self.deleted_msg_count {
            return None;
        }
        if msg_idx - self.deleted_msg_count >= self.buffer.len() {
            return None;
        }
        Some(self.buffer[msg_idx - self.deleted_msg_count].clone())
    }

    /// One poll of consumer `rx_id`, whose cursor is at `msg_idx`: hands
    /// over a clone of the message there, or says that the stream has ended,
    /// or stores `waker` and suspends.
    pub fn poll_next(&mut self, rx_id: usize, msg_idx: usize, waker: Waker) -> (r: Polled<T>)
        requires
            old(self).wf(),
        ensures
            final(self).wf(),
            final(self)@ == old(self)@.poll(rx_id, msg_idx as nat, waker),
            old(self)@.poll_result(rx_id, msg_idx as nat).cloned_as(r),
            r is Ready ==> msg_idx < Self::limit(),
    {
        proof {
            self.lemma_wf();
        }
        match self.get_msg(msg_idx) {
            Some(v) => Polled::Ready(v),
            None => {
                if self.txs_left == 0 || !self.rxs.contains_key(&rx_id) {
                    Polled::Closed
                } else {
                    self.set_waker(rx_id, waker);
                    Polled::Pending
                }
            },
        }
    }
}

/// What the lock around an [`Inner`] admits: the well-formed states.
pub struct WellFormed;

impl<T> RwLockPredicate<Inner<T>> for WellFormed {
    open spec fn inv(self, v: Inner<T>) -> bool {
        v.wf()
    }
}

/// The producer handle. Make further ones with [`Sender::try_clone`];
/// release each with [`Sender::close`].
#[verifier::reject_recursive_types(T)]
pub struct Sender<T> {
    inner: Arc<RwLock<Inner<T>, WellFormed>>,
}

/// A consumer handle. Make further ones with [`Receiver::try_clone`];
/// release each with [`Receiver::close`].
#[verifier::reject_recursive_types(T)]
pub struct Receiver<T> {
    rx_id: usize,
    next_msg_idx: usize,  // position in the log
    inner: Arc<RwLock<Inner<T>, WellFormed>>,
}

impl<T> Sender<T> {
    /// The lock that this handle shares with the other handles of its
    /// channel.
    pub closed spec fn shared(self) -> RwLock<Inner<T>, WellFormed> {
        *self.inner
    }

    /// Takes the lock and does [`Inner::send`]. The outcome depends on the
    /// state that the lock held; whatever it was, a rejected value comes
    /// back unchanged.
    pub fn send(&self, value: T) -> (r: Result<(), SendError<T>>)
        ensures
            r matches Err(e) ==> e == SendError::ReceiverDropped(value),
    {
        let (mut inner, handle) = self.inner.acquire_write();
        let r = inner.send(value);
        handle.release_write(inner);
        r
    }

    /// Takes the lock and does [`Inner::add_tx`]. Returns a second handle
    /// to the same channel, or `None` when the producer count is at its
    /// limit.
    pub fn try_clone(&self) -> (r: Option<Sender<T>>)
        ensures
            r matches Some(tx) ==> tx.shared() == self.shared(),
    {
        let (mut inner, handle) = self.inner.acquire_write();
        let added = inner.add_tx();
        handle.release_write(inner);
        if added {
            Some(Sender { inner: self.inner.clone() })
        } else {
            None
        }
    }

    /// Releases the handle: takes the lock and does [`Inner::drop_tx`].
    pub fn close(self) {
        let (mut inner, handle) = self.inner.acquire_write();
        inner.drop_tx();
        handle.release_write(inner);
    }
}

impl<T> Receiver<T> {
    /// The lock that this handle shares with the other handles of its
    /// channel.
    pub closed spec fn shared(self) -> RwLock<Inner<T>, WellFormed> {
        *self.inner
    }

    /// The id under which this consumer is registered.
    pub closed spec fn id(self) -> usize {
        self.rx_id
    }

    /// The position in the log of the message that this consumer reads
    /// next.
    pub closed spec fn cursor(self) -> nat {
        self.next_msg_idx as nat
    }

    /// Takes the lock and does [`Inner::new_rx`]. Returns a new consumer
    /// that starts at this consumer's cursor, or `None` when the ids are
    /// used up.
    pub fn try_clone(&self) -> (r: Option<Receiver<T>>)
        ensures
            r matches Some(rx) ==> rx.shared() == self.shared() && rx.cursor() == self.cursor(),
    {
        let (mut inner, handle) = self.inner.acquire_write();
        let new_id = inner.new_rx();
        handle.release_write(inner);
        match new_id {
            Some(rx_id) => Some(
                Receiver { rx_id, next_msg_idx: self.next_msg_idx, inner: self.inner.clone() },
            ),
            None => None,
        }
    }

    /// Releases the handle: takes the lock and does [`Inner::delete_rx`].
    pub fn close(self) {
        let (mut inner, handle) = self.inner.acquire_write();
        inner.delete_rx(self.rx_id);
        handle.release_write(inner);
    }
}

impl<T: Clone> Receiver<T> {
    /// Takes the lock and does [`Inner::poll_next`] at this consumer's
    /// cursor. The cursor moves on by one exactly when a message is handed
    /// over. After [`Polled::Pending`] the handle is due again once `waker`
    /// has fired.
    pub fn poll_next(&mut self, waker: Waker) -> (r: Polled<T>)
        ensures
            final(self).shared() == old(self).shared(),
            final(self).id() == old(self).id(),
            final(self).cursor() == old(self).cursor() + (if r is Ready { 1nat } else { 0nat }),
    {
        let (mut inner, handle) = self.inner.acquire_write();
        let r = inner.poll_next(self.rx_id, self.next_msg_idx, waker);
        handle.release_write(inner);
        match r {
            Polled::Ready(v) => {
                self.next_msg_idx = self.next_msg_idx + 1;
                Polled::Ready(v)
            },
            other => other,
        }
    }
}

/// Create a new broadcast channel
pub fn channel<T>() -> (r: (Sender<T>, Receiver<T>))
    ensures
        r.0.shared() == r.1.shared(),
        r.1.id() == 0,
        r.1.cursor() == 0,
{
    let inner = Arc::new(RwLock::new(Inner::new(), Ghost(WellFormed)));
    let tx = Sender { inner: inner.clone() };
    let rx = Receiver { rx_id: 0, next_msg_idx: 0, inner };
    (tx, rx)
}

/// Sending `values` to a channel that accepts them appends them to the log
/// in the order sent, and changes nothing else.
pub proof fn lemma_send_all<T>(s: State<T>, values: Seq<T>)
    requires
        s.accepts(),
    ensures
        s.send_all(values) == (State { log: s.log + values, ..s }),
    decreases values.len(),
{
    if values.len() == 0 {
        assert(s.log + values =~= s.log);
    } else {
        lemma_send_all(s, values.drop_last());
        assert((s.log + values.drop_last()).push(values.last()) =~= s.log + values);
    }
}

/// Order preservation: a consumer whose cursor stands at the end of the log
/// reads what is sent from then on in the order in which it was sent: the
/// polls that follow the sends hand over the values one by one, in send
/// order.
pub proof fn law_order_preserved<T>(s: State<T>, values: Seq<T>, id: usize, waker: Waker)
    requires
        s.accepts(),
    ensures
        s.send_all(values).poll_results(id, s.end(), values.len(), waker) == values.map_values(
            |m: T| Polled::Ready(m),
        ),
        forall|i: int|
            0 <= i < values.len() ==> #[trigger] s.send_all(values).poll_result(
                id,
                (s.end() + i) as nat,
            ) == Polled::Ready(values[i]),
{
    lemma_send_all(s, values);
    let t = s.send_all(values);
    law_consumer_reads_log(t, id, s.end(), values.len(), waker);
    assert(t.log.subrange(s.log.len() as int, (s.log.len() + values.len()) as int) =~= values);
}

/// Fan-out: where the log holds a message at a position, every consumer
/// that polls there gets that message, whoever it is and whatever token it
/// hands in, and the poll leaves the channel as it was. So every consumer
/// reads the same messages in the same order, none twice and none skipped.
pub proof fn law_fan_out<T>(s: State<T>, a: usize, b: usize, cursor: nat, wa: Waker, wb: Waker)
    requires
        s.has_message(cursor),
    ensures
        s.poll_result(a, cursor) == Polled::Ready(s.message(cursor)),
        s.poll_result(b, cursor) == s.poll_result(a, cursor),
        s.poll(a, cursor, wa) == s,
        s.poll(b, cursor, wb) == s,
{
}

/// A consumer that polls `n` times where the log holds `n` messages from
/// its cursor on gets exactly those messages, in log order, each once.
pub proof fn law_consumer_reads_log<T>(s: State<T>, id: usize, cursor: nat, n: nat, waker: Waker)
    requires
        s.evicted <= cursor,
        cursor + n <= s.end(),
    ensures
        s.poll_results(id, cursor, n, waker) == s.log.subrange(
            cursor - s.evicted,
            cursor - s.evicted + n,
        ).map_values(|m: T| Polled::Ready(m)),
    decreases n,
{
    let ready = |m: T| Polled::Ready(m);
    let from = cursor - s.evicted;
    let want = s.log.subrange(from, from + n).map_values(ready);
    let got = s.poll_results(id, cursor, n, waker);
    if n == 0 {
        assert(got =~= want);
    } else {
        law_consumer_reads_log(s, id, cursor + 1, (n - 1) as nat, waker);
        let rest = s.poll_results(id, cursor + 1, (n - 1) as nat, waker);
        assert(s.poll(id, cursor, waker) == s);
        assert(got == seq![s.poll_result(id, cursor)] + rest);
        assert(got.len() == want.len());
        assert forall|i: int| 0 <= i < got.len() implies got[i] == want[i] by {
            if i > 0 {
                assert(got[i] == rest[i - 1]);
            }
        }
        assert(got =~= want);
    }
}

/// A send leaves every message that the log already held in its place: a
/// consumer that joins later reads from its own cursor on, and what a send
/// adds lies behind everything sent before.
pub proof fn law_send_keeps_positions<T>(s: State<T>, value: T, cursor: nat)
    requires
        s.has_message(cursor),
    ensures
        s.send(value).has_message(cursor),
        s.send(value).message(cursor) == s.message(cursor),
        s.accepts() ==> s.send(value).has_message(s.end()) && s.send(value).message(s.end())
            == value,
{
}

/// Registering a consumer changes neither the log nor the producers, and a
/// consumer that was registered stays so.
pub proof fn law_subscribe_keeps_log<T>(s: State<T>)
    requires
        s.wf(),
        s.next_id < Inner::<T>::limit(),
    ensures
        s.subscribe().wf(),
        s.subscribe().log == s.log,
        s.subscribe().evicted == s.evicted,
        s.subscribe().producers == s.producers,
        !s.consumers.contains_key(s.next_id as usize),
        s.subscribe().consumers.contains_key(s.next_id as usize),
        forall|id: usize| s.consumers.contains_key(id) ==> s.subscribe().consumers.contains_key(id),
        s.subscribe().accepts(),
{
    let t = s.subscribe();
    assert(t.consumers.dom().contains(s.next_id as usize));
    vstd::set_lib::lemma_set_empty_equivalency_len(t.consumers.dom());
}

/// Late clone: a consumer that is registered when its cloner has read the
/// whole log starts at the cloner's cursor, which is the end of the log. Of
/// what is sent next, both read exactly that value there, and nothing that
/// was sent before.
pub proof fn law_late_clone<T>(s: State<T>, cloner: usize, cursor: nat, value: T)
    requires
        s.wf(),
        s.consumers.contains_key(cloner),
        s.next_id < Inner::<T>::limit(),
        cursor == s.end(),
    ensures
        ({
            let clone = s.next_id as usize;
            let t = s.subscribe().send(value);
            &&& clone != cloner
            &&& t.poll_result(clone, cursor) == Polled::Ready(value)
            &&& t.poll_result(cloner, cursor) == Polled::Ready(value)
            &&& !t.has_message(cursor + 1)
        }),
{
    law_subscribe_keeps_log(s);
}

/// The producer count goes up by one with every handle that is made and
/// down by one with every handle that is released, and it reaches zero only
/// when the last one goes.
pub proof fn law_producers_counted<T>(s: State<T>)
    ensures
        s.add_producer().producers == s.producers + 1,
        s.add_producer().drop_producer() == s,
        s.producers > 0 ==> s.drop_producer().producers == s.producers - 1,
        s.producers > 1 ==> s.drop_producer().producers > 0,
{
}

/// A new channel is well formed, counts one producer, and has one
/// consumer, with id 0 and nothing to read yet; so it accepts sends.
pub proof fn law_new_channel<T>()
    ensures
        State::<T>::fresh().wf(),
        State::<T>::fresh().accepts(),
        State::<T>::fresh().producers == 1,
        State::<T>::fresh().consumers.contains_key(0),
        State::<T>::fresh().end() == 0,
{
    let f = State::<T>::fresh();
    assert(f.consumers.dom().contains(0usize));
    vstd::set_lib::lemma_set_empty_equivalency_len(f.consumers.dom());
}

/// A channel without producers answers a poll where its log holds no
/// message with [`Polled::Closed`], and the poll leaves it as it was: the
/// end of the stream is final.
pub proof fn law_closed_is_final<T>(s: State<T>, id: usize, cursor: nat, waker: Waker)
    requires
        s.producers == 0,
        !s.has_message(cursor),
    ensures
        s.poll_result(id, cursor) == Polled::<T>::Closed,
        s.poll(id, cursor, waker) == s,
{
}

/// Closure without data: a new channel whose producer is released at once
/// answers the first poll of its consumer with [`Polled::Closed`].
pub proof fn law_closed_without_data<T>()
    ensures
        State::<T>::fresh().drop_producer().poll_result(0, 0) == Polled::<T>::Closed,
{
}

/// With no consumer registered every send is refused: the value comes back
/// in the error and the state stays as it was.
pub proof fn law_send_without_consumers<T>(s: State<T>, value: T)
    requires
        !s.accepts(),
    ensures
        s.send_result(value) == Err::<(), SendError<T>>(SendError::ReceiverDropped(value)),
        s.send(value) == s,
{
}

/// A new channel whose consumer is released refuses every send and hands
/// the value back.
pub proof fn law_send_after_consumer_loss<T>(value: T)
    ensures
        State::<T>::fresh().unsubscribe(0).send_result(value) == Err::<(), SendError<T>>(
            SendError::ReceiverDropped(value),
        ),
        State::<T>::fresh().unsubscribe(0).send(value) == State::<T>::fresh().unsubscribe(0),
{
    let f = State::<T>::fresh();
    assert(f.unsubscribe(0).consumers =~= Map::<usize, Option<Waker>>::empty());
}

/// Releasing a consumer leaves the others registered: as long as one of
/// them is, sends are accepted.
pub proof fn law_other_consumers_stay<T>(s: State<T>, gone: usize, other: usize)
    requires
        s.wf(),
        s.consumers.contains_key(other),
        other != gone,
    ensures
        s.unsubscribe(gone).wf(),
        s.unsubscribe(gone).consumers.contains_key(other),
        s.unsubscribe(gone).accepts(),
{
    let t = s.unsubscribe(gone);
    assert(t.consumers.dom().contains(other));
    vstd::set_lib::lemma_set_empty_equivalency_len(t.consumers.dom());
}

} // verus!
