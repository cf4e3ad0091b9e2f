//! A notifier: a first-in first-out queue of suspended observers.
//!
//! An observer is created by [`Notify::wait`], joins the queue the first time
//! it is polled, and completes on the poll that follows its notification. An
//! observer that is given up after it was notified hands its notification to
//! the next observer in the queue, so that `notify(n)` lets `n` observers
//! complete whenever that many are waiting.
//!
//! Wake handles are values of a type `W` chosen by the caller. The notifier
//! never calls them: every operation that takes an observer off the queue
//! returns the handle it held, and the caller wakes it.

use vstd::prelude::*;
use std::collections::VecDeque;
use crate::keys::{
    distinct,
    first_index,
    is_first,
    lemma_first_index,
    lemma_first_index_none,
    lemma_without_first,
    position,
    without_first,
};

verus! {

/// The state of an observer.
#[derive(Debug, PartialEq, Eq, Clone, Copy, Structural)]
pub enum State {
    /// Never polled: not in the queue.
    Unregistered,
    /// In the queue, waiting for a notification.
    Linked,
    /// Notified, and not polled since.
    Fired,
    /// The notification was observed.
    Completed,
}

/// The result of polling an observer.
#[derive(Debug, PartialEq, Eq, Clone, Copy, Structural)]
pub enum Poll {
    /// The observer was notified: it is complete.
    Ready,
    /// The observer is in the queue.
    Pending,
}

/// A queued observer: its key and the handle that wakes it.
pub struct Entry<W> {
    key: u64,
    waker: W,
}

impl<W> View for Entry<W> {
    type V = (u64, W);

    closed spec fn view(&self) -> (u64, W) {
        (self.key, self.waker)
    }
}

impl<W> Entry<W> {
    /// A queued observer with the given key and wake handle.
    pub fn new(key: u64, waker: W) -> (e: Self)
        ensures
            e@ == (key, waker),
    {
        Entry { key, waker }
    }

    /// The key of the observer.
    pub fn key(&self) -> (k: u64)
        ensures
            k == self@.0,
    {
        self.key
    }

    /// Fires the entry: it leaves the queue for good, and its wake handle is
    /// handed out together with its key.
    pub fn fire(self) -> (r: (u64, W))
        ensures
            r == self@,
    {
        (self.key, self.waker)
    }
}

/// The mathematical model of a notifier.
pub struct NotifyView<W> {
    /// The observers in the queue, oldest first, each with its wake handle.
    pub waiters: Seq<(u64, W)>,
    /// The keys of the observers that were notified and have not been polled
    /// since, in the order of their notification.
    pub fired: Seq<u64>,
    /// The number of observers created so far; also the next key.
    pub issued: nat,
}

impl<W> NotifyView<W> {
    /// The keys of the observers in the queue, oldest first.
    pub open spec fn waiter_keys(self) -> Seq<u64> {
        self.waiters.map_values(|e: (u64, W)| e.0)
    }

    /// The wake handles of the observers in the queue, oldest first.
    pub open spec fn waiter_wakers(self) -> Seq<W> {
        self.waiters.map_values(|e: (u64, W)| e.1)
    }

    /// The state of the observer with the given key. `registered` says
    /// whether it has joined the queue before.
    pub open spec fn state_of(self, key: u64, registered: bool) -> State {
        if !registered {
            State::Unregistered
        } else if self.waiter_keys().contains(key) {
            State::Linked
        } else if self.fired.contains(key) {
            State::Fired
        } else {
            State::Completed
        }
    }

    /// The number of observers that `notify(n)` fires.
    pub open spec fn fire_count(self, n: nat) -> nat {
        if n <= self.waiters.len() {
            n
        } else {
            self.waiters.len()
        }
    }

    /// A new observer is created.
    pub open spec fn wait(self) -> NotifyView<W> {
        NotifyView { issued: self.issued + 1, ..self }
    }

    /// The observer `key` joins the end of the queue.
    pub open spec fn register(self, key: u64, waker: W) -> NotifyView<W> {
        NotifyView { waiters: self.waiters.push((key, waker)), ..self }
    }

    /// The queued observer `key` gets a new wake handle.
    pub open spec fn refresh(self, key: u64, waker: W) -> NotifyView<W> {
        match first_index(self.waiter_keys(), key) {
            Some(i) => NotifyView { waiters: self.waiters.update(i, (key, waker)), ..self },
            None => self,
        }
    }

    /// The notified observer `key` observes its notification.
    pub open spec fn complete(self, key: u64) -> NotifyView<W> {
        NotifyView { fired: without_first(self.fired, key), ..self }
    }

    /// The queued observer `key` leaves the queue without being notified.
    pub open spec fn cancel(self, key: u64) -> NotifyView<W> {
        match first_index(self.waiter_keys(), key) {
            Some(i) => NotifyView { waiters: self.waiters.remove(i), ..self },
            None => self,
        }
    }

    /// The first `n` observers of the queue, or all of them if there are
    /// fewer, are notified.
    pub open spec fn notify(self, n: nat) -> NotifyView<W> {
        let m = self.fire_count(n) as int;
        NotifyView {
            waiters: self.waiters.skip(m),
            fired: self.fired + self.waiter_keys().take(m),
            ..self
        }
    }

    /// The wake handles that `notify(n)` hands out, oldest observer first.
    pub open spec fn notified_wakers(self, n: nat) -> Seq<W> {
        self.waiter_wakers().take(self.fire_count(n) as int)
    }

    /// The observer `key` is given up.
    pub open spec fn release(self, key: u64, registered: bool) -> NotifyView<W> {
        match self.state_of(key, registered) {
            State::Linked => self.cancel(key),
            State::Fired => self.complete(key).notify(1),
            _ => self,
        }
    }

    /// The wake handle that giving up the observer `key` hands out: that of
    /// the observer which inherits the notification, if there is one.
    pub open spec fn release_waker(self, key: u64, registered: bool) -> Option<W> {
        if self.state_of(key, registered) == State::Fired && self.waiters.len() > 0 {
            Some(self.waiters[0].1)
        } else {
            None
        }
    }

    /// The invariant of a notifier: every key in use was issued, and no
    /// observer is in the queue twice, notified twice, or both queued and
    /// notified.
    pub open spec fn wf(self) -> bool {
        &&& distinct(self.waiter_keys() + self.fired)
        &&& forall|i: int|
            0 <= i < self.waiters.len() ==> (#[trigger] self.waiters[i]).0 < self.issued
        &&& forall|i: int| 0 <= i < self.fired.len() ==> (#[trigger] self.fired[i]) < self.issued
    }
}

/// Giving up the observers `dropped`, one after the other.
pub open spec fn release_all<W>(v: NotifyView<W>, dropped: Seq<u64>) -> NotifyView<W>
    decreases dropped.len(),
{
    if dropped.len() == 0 {
        v
    } else {
        release_all(v.release(dropped[0], true), dropped.skip(1))
    }
}

/// Creating an observer keeps the invariant.
pub proof fn lemma_wait_wf<W>(v: NotifyView<W>)
    requires
        v.wf(),
    ensures
        v.wait().wf(),
        v.wait().state_of(v.issued as u64, false) == State::Unregistered,
{
    assert(v.wait().waiter_keys() == v.waiter_keys());
}

/// An observer that joins the queue for the first time keeps the invariant,
/// and is then linked.
pub proof fn lemma_register_wf<W>(v: NotifyView<W>, key: u64, waker: W)
    requires
        v.wf(),
        key < v.issued,
        !v.waiter_keys().contains(key),
        !v.fired.contains(key),
    ensures
        v.register(key, waker).wf(),
        v.register(key, waker).state_of(key, true) == State::Linked,
{
    let w = v.register(key, waker);
    let s = v.waiter_keys() + v.fired;
    let t = w.waiter_keys() + w.fired;
    let n = v.waiters.len() as int;
    assert(w.waiter_keys() =~= v.waiter_keys().push(key));
    assert(w.waiter_keys()[n] == key);
    assert forall|i: int, j: int| 0 <= i < j < t.len() implies t[i] != t[j] by {
        if i < n {
            assert(t[i] == s[i]);
            assert(v.waiter_keys().contains(t[i]));
        }
        if i > n {
            assert(t[i] == s[i - 1]);
        }
        if j < n {
            assert(t[j] == s[j]);
        }
        if j > n {
            assert(t[j] == s[j - 1]);
            assert(v.fired.contains(t[j]));
        }
    }
    assert forall|i: int| 0 <= i < w.waiters.len() implies (#[trigger] w.waiters[i]).0
        < w.issued by {
        if i < n {
            assert(w.waiters[i] == v.waiters[i]);
        }
    }
}

/// Notifying keeps the invariant: each of the observers taken off the queue
/// is then fired, and the others stay linked in their order.
pub proof fn lemma_notify_wf<W>(v: NotifyView<W>, n: nat)
    requires
        v.wf(),
    ensures
        v.notify(n).wf(),
        v.notify(n).waiters.len() == v.waiters.len() - v.fire_count(n),
        v.notify(n).fired.len() == v.fired.len() + v.fire_count(n),
        forall|i: int|
            0 <= i < v.fire_count(n) ==> v.notify(n).state_of(
                #[trigger] v.waiters[i].0,
                true,
            ) == State::Fired,
{
    let w = v.notify(n);
    let m = v.fire_count(n) as int;
    let wk = v.waiter_keys();
    let s = wk + v.fired;
    let t = w.waiter_keys() + w.fired;
    let a = wk.len() - m;
    assert(w.waiter_keys() =~= wk.skip(m));
    assert forall|i: int| 0 <= i < t.len() implies t[i] == s[if i < a + v.fired.len() {
        i + m
    } else {
        i - a - v.fired.len()
    }] by {
        if i < a {
            assert(t[i] == wk.skip(m)[i]);
        } else if i < a + v.fired.len() {
            assert(t[i] == w.fired[i - a]);
        } else {
            assert(t[i] == w.fired[i - a]);
            assert(w.fired[i - a] == wk.take(m)[i - a - v.fired.len()]);
        }
    }
    assert forall|i: int, j: int| 0 <= i < j < t.len() implies t[i] != t[j] by {
        let fi = if i < a + v.fired.len() {
            i + m
        } else {
            i - a - v.fired.len()
        };
        let fj = if j < a + v.fired.len() {
            j + m
        } else {
            j - a - v.fired.len()
        };
        assert(t[i] == s[fi]);
        assert(t[j] == s[fj]);
        assert(fi != fj);
        if fi < fj {
            assert(s[fi] != s[fj]);
        } else {
            assert(s[fj] != s[fi]);
        }
    }
    assert forall|i: int| 0 <= i < w.waiters.len() implies (#[trigger] w.waiters[i]).0
        < w.issued by {
        assert(w.waiters[i] == v.waiters[i + m]);
    }
    assert forall|i: int| 0 <= i < w.fired.len() implies (#[trigger] w.fired[i]) < w.issued by {
        if i >= v.fired.len() {
            assert(w.fired[i] == wk[i - v.fired.len()]);
            assert(wk[i - v.fired.len()] == v.waiters[i - v.fired.len()].0);
        } else {
            assert(w.fired[i] == v.fired[i]);
        }
    }
    assert forall|i: int| 0 <= i < m implies w.state_of(#[trigger] v.waiters[i].0, true)
        == State::Fired by {
        let key = v.waiters[i].0;
        assert(wk[i] == key);
        assert(w.fired[v.fired.len() + i] == key);
        assert(w.fired.contains(key));
        if w.waiter_keys().contains(key) {
            let k = choose|k: int| 0 <= k < w.waiter_keys().len() && w.waiter_keys()[k] == key;
            assert(wk[k + m] == key);
            assert(s[i] == key);
            assert(s[k + m] == key);
        }
    }
}

/// Taking a key out of a list without repetitions leaves no repetition.
proof fn lemma_remove_distinct(keys: Seq<u64>, i: int)
    requires
        distinct(keys),
        0 <= i < keys.len(),
    ensures
        distinct(keys.remove(i)),
{
    let r = keys.remove(i);
    assert forall|a: int, b: int| 0 <= a < b < r.len() implies r[a] != r[b] by {
        let fa = if a < i {
            a
        } else {
            a + 1
        };
        let fb = if b < i {
            b
        } else {
            b + 1
        };
        assert(r[a] == keys[fa]);
        assert(r[b] == keys[fb]);
    }
}

/// Every operation of the notifier keeps its invariant. An observer that
/// joins the queue is one that is neither queued nor notified.
pub proof fn law_notify_invariant<W>(v: NotifyView<W>, key: u64, waker: W, n: nat)
    requires
        v.wf(),
    ensures
        v.wait().wf(),
        v.notify(n).wf(),
        v.refresh(key, waker).wf(),
        v.complete(key).wf(),
        v.cancel(key).wf(),
        v.release(key, true).wf(),
        v.release(key, false) == v,
        key < v.issued && v.state_of(key, true) == State::Completed ==> v.register(
            key,
            waker,
        ).wf(),
{
    lemma_wait_wf(v);
    lemma_notify_wf(v, n);
    let wk = v.waiter_keys();
    let all = wk + v.fired;
    lemma_first_index_none(wk, key);
    lemma_first_index_none(v.fired, key);
    // refresh
    match first_index(wk, key) {
        Some(i) => {
            let w = v.refresh(key, waker);
            assert(w.waiter_keys() =~= wk);
            assert forall|k: int| 0 <= k < w.waiters.len() implies (#[trigger] w.waiters[k]).0
                < w.issued by {
                if k != i {
                    assert(w.waiters[k] == v.waiters[k]);
                } else {
                    assert(wk[i] == v.waiters[i].0);
                }
            }
            // cancel
            let c = v.cancel(key);
            assert(c.waiter_keys() =~= wk.remove(i));
            assert(c.waiter_keys() + c.fired =~= all.remove(i));
            lemma_remove_distinct(all, i);
            assert forall|k: int| 0 <= k < c.waiters.len() implies (#[trigger] c.waiters[k]).0
                < c.issued by {
                if k < i {
                    assert(c.waiters[k] == v.waiters[k]);
                } else {
                    assert(c.waiters[k] == v.waiters[k + 1]);
                }
            }
        },
        None => {},
    }
    // complete
    match first_index(v.fired, key) {
        Some(j) => {
            let c = v.complete(key);
            assert(c.waiter_keys() == wk);
            assert(c.waiter_keys() + c.fired =~= all.remove(wk.len() + j));
            lemma_remove_distinct(all, wk.len() + j);
            assert forall|k: int| 0 <= k < c.fired.len() implies (#[trigger] c.fired[k])
                < c.issued by {
                if k < j {
                    assert(c.fired[k] == v.fired[k]);
                } else {
                    assert(c.fired[k] == v.fired[k + 1]);
                }
            }
        },
        None => {
            assert(v.complete(key).waiter_keys() == wk);
        },
    }
    assert(v.complete(key).wf());
    lemma_notify_wf(v.complete(key), 1);
    if key < v.issued && v.state_of(key, true) == State::Completed {
        lemma_register_wf(v, key, waker);
    }
}

/// The notification of an observer that is given up is not lost: where the
/// queue is not empty, the oldest observer in it is notified instead, so the
/// number of notified observers stays what it was.
pub proof fn law_drop_forwards<W>(v: NotifyView<W>, key: u64)
    requires
        v.state_of(key, true) == State::Fired,
        v.waiters.len() > 0,
    ensures
        v.release(key, true).fired.len() == v.fired.len(),
        v.release(key, true).waiters == v.waiters.skip(1),
        v.release(key, true).fired.last() == v.waiters[0].0,
        v.release_waker(key, true) == Some(v.waiters[0].1),
{
    lemma_without_first(v.fired, key);
    let c = v.complete(key);
    assert(c.waiters == v.waiters);
    assert(c.fire_count(1) == 1);
    assert(c.waiter_keys().take(1)[0] == v.waiters[0].0);
}

/// `notify(n)` lets `n` observers complete even if some of the notified
/// observers are given up before they are polled: as long as the queue holds
/// an observer for each one given up, the number of observers that are
/// notified and can still complete is what it was after `notify(n)`.
pub proof fn law_released_notifications_are_kept<W>(v: NotifyView<W>, dropped: Seq<u64>)
    requires
        distinct(dropped),
        dropped.len() <= v.waiters.len(),
        forall|j: int|
            0 <= j < dropped.len() ==> v.fired.contains(#[trigger] dropped[j])
                && !v.waiter_keys().contains(dropped[j]),
    ensures
        release_all(v, dropped).fired.len() == v.fired.len(),
        release_all(v, dropped).waiters == v.waiters.skip(dropped.len() as int),
    decreases dropped.len(),
{
    if dropped.len() == 0 {
        assert(v.waiters.skip(0) =~= v.waiters);
    } else {
        let key = dropped[0];
        let rest = dropped.skip(1);
        let w = v.release(key, true);
        assert(v.state_of(key, true) == State::Fired);
        law_drop_forwards(v, key);
        lemma_without_first(v.fired, key);
        assert(w.waiter_keys() =~= v.waiter_keys().skip(1));
        assert forall|j: int| 0 <= j < rest.len() implies w.fired.contains(#[trigger] rest[j])
            && !w.waiter_keys().contains(rest[j]) by {
            let d = rest[j];
            assert(d == dropped[j + 1]);
            assert(d != key);
            assert(v.fired.contains(d));
            assert(without_first(v.fired, key).contains(d));
            let k = choose|k: int|
                0 <= k < without_first(v.fired, key).len() && without_first(v.fired, key)[k] == d;
            assert(w.fired[k] == d);
            if w.waiter_keys().contains(d) {
                let q = choose|q: int| 0 <= q < w.waiter_keys().len() && w.waiter_keys()[q] == d;
                assert(v.waiter_keys()[q + 1] == d);
            }
        }
        assert forall|i: int, j: int| 0 <= i < j < rest.len() implies rest[i] != rest[j] by {
            assert(rest[i] == dropped[i + 1]);
            assert(rest[j] == dropped[j + 1]);
        }
        law_released_notifications_are_kept(w, rest);
        assert(v.waiters.skip(1).skip(rest.len() as int) =~= v.waiters.skip(
            dropped.len() as int,
        ));
    }
}

/// After `notify(n)` on a queue of at least `n` observers, `n` more
/// observers are notified; giving up any of them, in any order, leaves that
/// number unchanged as long as the queue holds an observer for each.
pub proof fn law_notify_completes<W>(v: NotifyView<W>, n: nat, dropped: Seq<u64>)
    requires
        v.wf(),
        n + dropped.len() <= v.waiters.len(),
        distinct(dropped),
        forall|j: int| 0 <= j < dropped.len() ==> v.notify(n).fired.contains(#[trigger] dropped[j]),
    ensures
        v.notify(n).fired.len() == v.fired.len() + n,
        release_all(v.notify(n), dropped).fired.len() == v.fired.len() + n,
        release_all(v.notify(n), dropped).waiters == v.waiters.skip((n + dropped.len()) as int),
{
    let w = v.notify(n);
    lemma_notify_wf(v, n);
    let wk = w.waiter_keys();
    let s = wk + w.fired;
    assert forall|j: int| 0 <= j < dropped.len() implies !wk.contains(#[trigger] dropped[j]) by {
        let d = dropped[j];
        if wk.contains(d) {
            let q = choose|q: int| 0 <= q < wk.len() && wk[q] == d;
            let k = choose|k: int| 0 <= k < w.fired.len() && w.fired[k] == d;
            assert(s[q] == d);
            assert(s[wk.len() + k] == d);
        }
    }
    law_released_notifications_are_kept(w, dropped);
    assert(v.waiters.skip(n as int).skip(dropped.len() as int) =~= v.waiters.skip((n + dropped.len()) as int));
}

/// An observer that is polled after it was notified is complete, and takes
/// exactly one notification with it.
pub proof fn law_poll_consumes_one<W>(v: NotifyView<W>, key: u64)
    requires
        v.state_of(key, true) == State::Fired,
    ensures
        v.complete(key).fired.len() == v.fired.len() - 1,
        v.complete(key).waiters == v.waiters,
{
    lemma_without_first(v.fired, key);
}

/// An observer of a [`Notify`]. It is created by [`Notify::wait`], polled with
/// [`Notify::poll`] and given up with [`Notify::release`].
#[derive(Debug)]
pub struct Notified {
    key: u64,
    registered: bool,
}

impl Notified {
    /// The key of the observer.
    pub closed spec fn spec_key(&self) -> u64 {
        self.key
    }

    /// Whether the observer has joined the queue before.
    pub closed spec fn spec_registered(&self) -> bool {
        self.registered
    }

    /// The key of the observer.
    #[verifier::when_used_as_spec(spec_key)]
    pub fn key(&self) -> (k: u64)
        ensures
            k == self.key(),
    {
        self.key
    }

    /// Whether the observer has joined the queue before.
    #[verifier::when_used_as_spec(spec_registered)]
    pub fn registered(&self) -> (r: bool)
        ensures
            r == self.registered(),
    {
        self.registered
    }
}

/// A notification mechanism for suspended computations.
pub struct Notify<W> {
    waiters: VecDeque<Entry<W>>,
    fired: Vec<u64>,
    issued: u64,
}

impl<W> View for Notify<W> {
    type V = NotifyView<W>;

    closed spec fn view(&self) -> NotifyView<W> {
        NotifyView {
            waiters: self.waiters@.map_values(|e: Entry<W>| e@),
            fired: self.fired@,
            issued: self.issued as nat,
        }
    }
}

impl<W> Notify<W> {
    /// A notifier without observers.
    pub fn new() -> (s: Self)
        ensures
            s@.waiters.len() == 0,
            s@.fired.len() == 0,
            s@.issued == 0,
            s@.wf(),
    {
        let s = Notify { waiters: VecDeque::new(), fired: Vec::new(), issued: 0 };
        proof {
            assert(s@.waiter_keys() + s@.fired =~= Seq::<u64>::empty());
        }
        s
    }

    /// Returns a new observer, which can be used to wait on this notifier.
    /// It joins the queue when it is first polled.
    pub fn wait(&mut self) -> (n: Notified)
        requires
            old(self)@.issued < u64::MAX,
        ensures
            final(self)@ == old(self)@.wait(),
            n.key() == old(self)@.issued,
            !n.registered(),
    {
        let key: u64 = self.issued;
        self.issued = self.issued + 1;
        Notified { key, registered: false }
    }

    /// The number of observers created so far.
    pub fn issued(&self) -> (n: u64)
        ensures
            n == self@.issued,
    {
        self.issued
    }

    /// Returns the number of observers in the queue.
    pub fn waiters(&self) -> (n: usize)
        ensures
            n == self@.waiters.len(),
    {
        self.waiters.len()
    }

    /// The number of observers that were notified and have not been polled
    /// since.
    pub fn pending_notifications(&self) -> (n: usize)
        ensures
            n == self@.fired.len(),
    {
        self.fired.len()
    }

    fn waiter_position(&self, key: u64) -> (r: Option<usize>)
        ensures
            match r {
                Some(i) => first_index(self@.waiter_keys(), key) == Some(i as int),
                None => first_index(self@.waiter_keys(), key) is None,
            },
    {
        let ghost keys = self@.waiter_keys();
        let mut i: usize = 0;
        while i < self.waiters.len()
            invariant
                i <= self.waiters.len(),
                keys == self@.waiter_keys(),
                keys.len() == self.waiters.len(),
                forall|j: int| 0 <= j < i ==> keys[j] != key,
            decreases self.waiters.len() - i,
        {
            if self.waiters[i].key == key {
                proof {
                    assert(keys[i as int] == self.waiters@[i as int]@.0);
                    assert(is_first(keys, key, i as int));
                    lemma_first_index(keys, key, i as int);
                }
                return Some(i);
            }
            assert(keys[i as int] == self.waiters@[i as int]@.0);
            i = i + 1;
        }
        proof {
            if exists|k: int| is_first(keys, key, k) {
                let k = choose|k: int| is_first(keys, key, k);
                assert(keys[k] == key);
            }
        }
        None
    }

    fn fired_position(&self, key: u64) -> (r: Option<usize>)
        ensures
            match r {
                Some(i) => first_index(self@.fired, key) == Some(i as int),
                None => first_index(self@.fired, key) is None,
            },
    {
        position(&self.fired, key)
    }

    /// The state of an observer.
    pub fn state(&self, notified: &Notified) -> (s: State)
        ensures
            s == self@.state_of(notified.key(), notified.registered()),
    {
        proof {
            lemma_first_index_none(self@.waiter_keys(), notified.key());
            lemma_first_index_none(self@.fired, notified.key());
        }
        if !notified.registered {
            State::Unregistered
        } else if self.waiter_position(notified.key).is_some() {
            State::Linked
        } else if self.fired_position(notified.key).is_some() {
            State::Fired
        } else {
            State::Completed
        }
    }

    /// Notifies the next `n` observers of the queue, or all of them if there
    /// are fewer, and returns their wake handles, oldest observer first. The
    /// number of observers notified is the length of the result.
    pub fn notify(&mut self, n: usize) -> (woken: Vec<W>)
        ensures
            final(self)@ == old(self)@.notify(n as nat),
            woken@ == old(self)@.notified_wakers(n as nat),
            woken@.len() == old(self)@.fire_count(n as nat),
    {
        let ghost before = self@;
        let ghost m = before.fire_count(n as nat) as int;
        let mut woken: Vec<W> = Vec::new();
        let mut removed: usize = 0;
        while removed != n && self.waiters.len() > 0
            invariant
                removed <= n,
                removed <= before.waiters.len(),
                removed + self.waiters.len() == before.waiters.len(),
                self@.waiters == before.waiters.skip(removed as int),
                self@.fired == before.fired + before.waiter_keys().take(removed as int),
                self@.issued == before.issued,
                woken@ == before.waiter_wakers().take(removed as int),
            decreases self.waiters.len(),
        {
            let ghost queue = self.waiters@;
            let entry = self.waiters.pop_front().unwrap();
            let (key, waker) = entry.fire();
            self.fired.push(key);
            woken.push(waker);
            proof {
                let r = removed as int;
                assert(queue.map_values(|e: Entry<W>| e@) == before.waiters.skip(r));
                assert(queue[0]@ == before.waiters.skip(r)[0]);
                assert(before.waiters.skip(r)[0] == before.waiters[r]);
                assert(self.waiters@ == queue.subrange(1, queue.len() as int));
                assert forall|k: int| 0 <= k < self.waiters@.len() implies self.waiters@[k]@
                    == before.waiters[r + 1 + k] by {
                    assert(queue.map_values(|e: Entry<W>| e@)[k + 1] == before.waiters.skip(r)[k
                        + 1]);
                }
                assert(self@.waiters =~= before.waiters.skip(r + 1));
                assert(before.waiter_keys().take(r).push(key) =~= before.waiter_keys().take(r + 1));
                assert(self@.fired =~= before.fired + before.waiter_keys().take(r + 1));
                assert(woken@ =~= before.waiter_wakers().take(r + 1));
            }
            removed = removed + 1;
        }
        proof {
            assert(removed as int == m);
        }
        woken
    }

    /// The observer joins the end of the queue with the given wake handle.
    /// This is what the first poll of an observer does.
    pub fn register(&mut self, notified: &mut Notified, waker: W)
        ensures
            final(self)@ == old(self)@.register(old(notified).key(), waker),
            final(notified).key() == old(notified).key(),
            final(notified).registered(),
    {
        let ghost before = self@;
        self.waiters.push_back(Entry::new(notified.key, waker));
        notified.registered = true;
        proof {
            assert(self@.waiters =~= before.waiters.push((notified.key, waker)));
        }
    }

    /// The queued observer gets a new wake handle; the handle it held is
    /// returned. Where the observer is not in the queue, nothing changes and
    /// the new handle comes back.
    pub fn refresh(&mut self, notified: &Notified, waker: W) -> (previous: W)
        ensures
            final(self)@ == old(self)@.refresh(notified.key(), waker),
            match first_index(old(self)@.waiter_keys(), notified.key()) {
                Some(i) => previous == old(self)@.waiters[i].1,
                None => previous == waker,
            },
    {
        let ghost before = self@;
        match self.waiter_position(notified.key) {
            Some(i) => {
                let ghost queue = self.waiters@;
                let old_entry = self.waiters.remove(i).unwrap();
                self.waiters.insert(i, Entry::new(notified.key, waker));
                proof {
                    assert(self.waiters@ =~= queue.update(i as int, self.waiters@[i as int]));
                    assert(self@.waiters =~= before.waiters.update(
                        i as int,
                        (notified.key, waker),
                    ));
                    assert(old_entry@ == before.waiters[i as int]);
                }
                let (_, previous) = old_entry.fire();
                previous
            },
            None => waker,
        }
    }

    /// The notified observer observes its notification and is complete.
    pub fn complete(&mut self, notified: &Notified)
        ensures
            final(self)@ == old(self)@.complete(notified.key()),
    {
        match self.fired_position(notified.key) {
            Some(i) => {
                self.fired.remove(i);
            },
            None => {},
        }
    }

    /// Takes a queued observer out of the queue and returns the wake handle
    /// it held.
    fn cancel(&mut self, key: u64) -> (waker: Option<W>)
        ensures
            final(self)@ == old(self)@.cancel(key),
            match first_index(old(self)@.waiter_keys(), key) {
                Some(i) => waker == Some(old(self)@.waiters[i].1),
                None => waker is None,
            },
    {
        let ghost before = self@;
        match self.waiter_position(key) {
            Some(i) => {
                let entry = self.waiters.remove(i).unwrap();
                proof {
                    assert(self@.waiters =~= before.waiters.remove(i as int));
                    assert(entry@ == before.waiters[i as int]);
                }
                let (_, waker) = entry.fire();
                Some(waker)
            },
            None => None,
        }
    }

    /// Polls an observer.
    ///
    /// An observer that was never polled joins the end of the queue; one
    /// that is in the queue gets the new wake handle; both stay pending. An
    /// observer that was notified is complete and returns ready.
    pub fn poll(&mut self, notified: &mut Notified, waker: W) -> (r: Poll)
        requires
            old(self)@.state_of(old(notified).key(), old(notified).registered())
                != State::Completed,
        ensures
            final(notified).key() == old(notified).key(),
            match old(self)@.state_of(old(notified).key(), old(notified).registered()) {
                State::Unregistered => {
                    &&& r == Poll::Pending
                    &&& final(self)@ == old(self)@.register(old(notified).key(), waker)
                    &&& final(notified).registered()
                },
                State::Linked => {
                    &&& r == Poll::Pending
                    &&& final(self)@ == old(self)@.refresh(old(notified).key(), waker)
                    &&& final(notified).registered()
                },
                _ => {
                    &&& r == Poll::Ready
                    &&& final(self)@ == old(self)@.complete(old(notified).key())
                    &&& final(notified).registered()
                },
            },
    {
        match self.state(notified) {
            State::Unregistered => {
                self.register(notified, waker);
                Poll::Pending
            },
            State::Linked => {
                let _ = self.refresh(notified, waker);
                Poll::Pending
            },
            _ => {
                self.complete(notified);
                Poll::Ready
            },
        }
    }

    /// Gives an observer up.
    ///
    /// An observer that is in the queue leaves it. An observer that was
    /// notified and has not observed it passes the notification on: the next
    /// observer of the queue is notified in its place, and its wake handle is
    /// returned. In every other case nothing changes.
    pub fn release(&mut self, notified: Notified) -> (forwarded: Option<W>)
        ensures
            final(self)@ == old(self)@.release(notified.key(), notified.registered()),
            forwarded == old(self)@.release_waker(notified.key(), notified.registered()),
    {
        let ghost before = self@;
        match self.state(&notified) {
            State::Linked => {
                let _ = self.cancel(notified.key);
                None
            },
            State::Fired => {
                self.complete(&notified);
                let ghost mid = self@;
                let mut woken = self.notify(1);
                proof {
                    assert(mid.waiters == before.waiters);
                    if before.waiters.len() > 0 {
                        assert(woken@[0] == before.waiters[0].1);
                    }
                }
                woken.pop()
            },
            _ => None,
        }
    }
}

} // verus!
