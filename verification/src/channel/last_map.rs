//! The keyed latest-value channel: one shared mapping from key to at most
//! one pending value per key. Sends overwrite per key; a receive drains
//! every pending entry at once.
//!
//! Keys are never removed from the backing mapping, only their value part
//! is cleared, so the mapping's key set grows for the lifetime of the
//! channel: a channel fed an unbounded stream of distinct keys grows
//! without bound. That is an accepted trade-off of this design, not a
//! defect; callers needing eviction must layer it externally.
//!
//! The verified [`KeyedSlot`] operations are the bodies of the critical
//! sections; the trusted wrappers around them take the lock and make that
//! one call — see the note above the wrappers for why, unlike the
//! single-value family, the call itself must stand inside the trusted
//! body. [`KeyedChannelModel`] states what each operation does to the
//! whole shared state, and the keyed laws — per-key coalescing, the
//! independence of distinct keys, closure on either drop, and the
//! key-retention of a drain — are proved over those transitions and the
//! entry-level effects they are built from.

use vstd::prelude::*;
use std::sync::{Arc, Mutex, TryLockError};
use std::hash::Hash;
use crate::channel::{arc_clone, WeakRef};
use vstd::laws_eq::obeys_concrete_eq;
use vstd::pervasive::cloned;

verus! {

/// The key type's `==` agrees with structural equality (and is a proper
/// equivalence). Contracts about key lookup are stated under this
/// hypothesis; for a key type whose `PartialEq` lies about equality nothing
/// useful could be promised.
pub open spec fn keys_obey_eq<K: PartialEq>() -> bool {
    obeys_concrete_eq::<K>()
}

/// The key type's `clone` hands back the very value it was given. The
/// drained pairs carry cloned keys, so their description needs this.
pub open spec fn keys_clone_to_self<K: Clone>() -> bool {
    forall|a: K, b: K| #[trigger] cloned(a, b) ==> b == a
}

/// One key's entry holds `k`, according to structural equality.
pub open spec fn has_key<K, V>(s: Seq<(K, Option<V>)>, k: K) -> bool {
    exists|i: int| 0 <= i < s.len() && s[i].0 == k
}

/// The index of `k`'s entry; meaningful when `has_key` holds and the keys
/// are distinct.
pub open spec fn key_index<K, V>(s: Seq<(K, Option<V>)>, k: K) -> int {
    choose|i: int| 0 <= i < s.len() && s[i].0 == k
}

/// No two entries share a key.
pub open spec fn distinct_keys<K, V>(s: Seq<(K, Option<V>)>) -> bool {
    forall|i: int, j: int| 0 <= i < j < s.len() ==> s[i].0 != s[j].0
}

/// The effect of a send on the mapping: the key's entry is overwritten
/// with the new pending value, or appended if the key is new. Other keys
/// are untouched.
pub open spec fn put_effect<K, V>(s: Seq<(K, Option<V>)>, k: K, v: V) -> Seq<(K, Option<V>)> {
    if has_key(s, k) {
        s.update(key_index(s, k), (k, Some(v)))
    } else {
        s.push((k, Some(v)))
    }
}

/// The pairs a drain returns: every entry currently holding a pending
/// value, as a (key, value) pair, in the mapping's own entry order.
pub open spec fn drained_pairs<K, V>(s: Seq<(K, Option<V>)>) -> Seq<(K, V)>
    decreases s.len(),
{
    if s.len() == 0 {
        Seq::empty()
    } else {
        let rest = drained_pairs(s.drop_last());
        match s.last().1 {
            Some(v) => rest.push((s.last().0, v)),
            None => rest,
        }
    }
}

/// The mapping after a drain: every key kept, every value part cleared.
pub open spec fn cleared<K, V>(s: Seq<(K, Option<V>)>) -> Seq<(K, Option<V>)> {
    Seq::new(s.len(), |i: int| (s[i].0, None))
}

/// The keyed shared slot's contents: for every key ever sent, an entry
/// that is either empty (consumed, or never filled) or holds exactly one
/// not-yet-consumed value. Entries are never removed. This is the data the
/// channel's lock guards; `put` and `drain` are the only mutations and
/// each runs inside a critical section.
pub struct KeyedSlot<K, V> {
    entries: Vec<(K, Option<V>)>,
}

impl<K, V> View for KeyedSlot<K, V> {
    type V = Seq<(K, Option<V>)>;

    closed spec fn view(&self) -> Seq<(K, Option<V>)> {
        self.entries@
    }
}

impl<K, V> KeyedSlot<K, V> {
    /// A mapping with no entries at all.
    pub fn empty() -> (s: KeyedSlot<K, V>)
        ensures
            s@ == Seq::<(K, Option<V>)>::empty(),
    {
        KeyedSlot { entries: Vec::new() }
    }
}

impl<K: PartialEq, V> KeyedSlot<K, V> {
    /// Well-formedness: as far as `==` can tell keys apart at all, no two
    /// entries share a key. `empty` establishes it and every operation
    /// preserves it; no operation requires it — the contracts below simply
    /// promise their exact effects under it.
    pub open spec fn wf(self) -> bool {
        keys_obey_eq::<K>() ==> distinct_keys(self@)
    }

    /// Insert or overwrite the pending value for `key`: the coalescing
    /// step, per key.
    pub fn put(&mut self, key: K, value: V)
        ensures
            old(self).wf() ==> final(self).wf(),
            old(self).wf() && keys_obey_eq::<K>() ==> final(self)@ == put_effect(
                old(self)@,
                key,
                value,
            ),
    {
        proof {
            reveal(vstd::laws_eq::obeys_concrete_eq);
        }
        let n = self.entries.len();
        let mut i: usize = 0;
        while i < n
            invariant
                i <= n,
                n == self.entries@.len(),
                self.entries@ == old(self).entries@,
                keys_obey_eq::<K>() ==> forall|j: int| 0 <= j < i ==> self.entries@[j].0 != key,
            decreases n - i,
        {
            proof {
                reveal(vstd::laws_eq::obeys_concrete_eq);
            }
            if self.entries[i].0 == key {
                proof {
                    if old(self).wf() && keys_obey_eq::<K>() {
                        let s = old(self)@;
                        assert(distinct_keys(s));
                        assert(s[i as int].0 == key);
                        assert(has_key(s, key));
                        let j = key_index(s, key);
                        assert(0 <= j < s.len() && s[j].0 == key);
                        if j < i as int {
                            assert(s[j].0 != s[i as int].0);
                        } else if j > i as int {
                            assert(s[i as int].0 != s[j].0);
                        }
                        assert(j == i as int);
                        let after = s.update(j, (key, Some(value)));
                        assert forall|m: int, l: int| 0 <= m < l < after.len() implies after[m].0
                            != after[l].0 by {
                            assert(s[m].0 != s[l].0);
                        }
                    }
                }
                self.entries[i] = (key, Some(value));
                return;
            }
            i += 1;
        }
        self.entries.push((key, Some(value)));
    }
}

impl<K: PartialEq + Clone, V> KeyedSlot<K, V> {
    /// Drain every pending value: each entry holding one is cleared to
    /// empty and contributes a (key, value) pair to the result, in entry
    /// order; entries without a pending value contribute nothing. No entry
    /// is removed.
    pub fn drain(&mut self) -> (r: Vec<(K, V)>)
        ensures
            old(self).wf() ==> final(self).wf(),
            final(self)@ == cleared(old(self)@),
            keys_clone_to_self::<K>() ==> r@ == drained_pairs(old(self)@),
    {
        let ghost s0 = self.entries@;
        let mut out: Vec<(K, V)> = Vec::new();
        let n = self.entries.len();
        let mut i: usize = 0;
        while i < n
            invariant
                i <= n,
                n == s0.len(),
                self.entries@.len() == s0.len(),
                forall|j: int| i <= j < n ==> self.entries@[j] == s0[j],
                forall|j: int| 0 <= j < i ==> self.entries@[j] == (s0[j].0, None::<V>),
                keys_clone_to_self::<K>() ==> out@ == drained_pairs(s0.subrange(0, i as int)),
            decreases n - i,
        {
            let ghost prefix = s0.subrange(0, i as int);
            let ghost prefix1 = s0.subrange(0, i as int + 1);
            proof {
                assert(prefix1.drop_last() =~= prefix);
                assert(prefix1.last() == s0[i as int]);
            }
            if self.entries[i].1.is_some() {
                let ghost before = self.entries@;
                let (k0, v0) = self.entries.remove(i);
                let k1 = k0.clone();
                proof {
                    assert(cloned(k0, k1));
                }
                self.entries.insert(i, (k0, None));
                proof {
                    assert(self.entries@ =~= before.update(i as int, (before[i as int].0, None)));
                }
                match v0 {
                    Some(value) => out.push((k1, value)),
                    None => (),
                }
            }
            i += 1;
            proof {
                if keys_clone_to_self::<K>() {
                    assert(out@ == drained_pairs(prefix1));
                }
            }
        }
        proof {
            assert(s0.subrange(0, n as int) =~= s0);
            assert(self.entries@ =~= cleared(s0));
        }
        out
    }
}


/// The error returned by a failed `send`: the `Receiver` was dropped (or
/// the lock was poisoned) and the channel is closed. Ownership of the
/// rejected key and value is handed back to the caller.
#[derive(Debug)]
pub struct SendError<K, V>(pub K, pub V);

/// The ways `try_send` can fail.
#[derive(Debug)]
pub enum TrySendError<K, V> {
    /// The `Receiver` was dropped (or the lock was poisoned) and the
    /// channel is closed; the key and value are handed back.
    ChannelClosed(K, V),
    /// The lock is currently held elsewhere; no write occurred and the key
    /// and value are handed back.
    WouldBlock(K, V),
}

/// The error returned by a failed `recv`: every `Sender` was dropped and
/// the channel is closed.
#[derive(Debug, PartialEq, Eq)]
pub struct RecvError;

/// The ways `try_recv` can fail.
#[derive(Debug, PartialEq, Eq)]
pub enum TryRecvError {
    /// Every `Sender` was dropped and the channel is closed.
    ChannelClosed,
    /// The lock is currently held elsewhere; nothing was consumed.
    WouldBlock,
}

/// Outcome of a non-blocking attempt to store into the locked mapping.
enum PutAttempt<K, V> {
    Stored,
    Busy(K, V),
    Poisoned(K, V),
}

/// Outcome of a non-blocking attempt to drain the locked mapping.
enum DrainAttempt<K, V> {
    Drained(Vec<(K, V)>),
    Busy,
    Poisoned,
}

// The four wrappers below each run one verified mapping operation inside
// the trusted critical section. Unlike the single-value family, no pure
// exchange can stand in for that call: swapping the guarded mapping for an
// empty one would evict every key, which the growth policy above forbids,
// and an exchange-and-reinstall pair would be two critical sections, not
// one atomic drain. The operations called carry no preconditions, so the
// trusted bodies discharge nothing; what is taken on trust is only that
// each critical section performs exactly the one named operation and
// converts its arguments and result.
/// Relies on `std::sync::Mutex::lock`: mutual exclusion for the guarded
/// mapping, blocking while another holder has the lock. On success the
/// verified `KeyedSlot::put` (which has no precondition) runs inside the
/// critical section; a poisoned lock performs no write and hands the pair
/// back.
#[verifier::external_body]
fn lock_put<K: PartialEq, V>(m: &Arc<Mutex<KeyedSlot<K, V>>>, k: K, v: V) -> (r: Result<
    (),
    (K, V),
>)
    ensures
        r matches Err(p) ==> p == (k, v),
{
    match m.lock() {
        Ok(mut guard) => {
            guard.put(k, v);
            Ok(())
        },
        Err(_) => Err((k, v)),
    }
}

/// Relies on `std::sync::Mutex::try_lock`: as `lock_put`, but never
/// blocks; a held lock reports `Busy` with the pair handed back and no
/// write done.
#[verifier::external_body]
fn try_lock_put<K: PartialEq, V>(m: &Arc<Mutex<KeyedSlot<K, V>>>, k: K, v: V) -> (r: PutAttempt<
    K,
    V,
>)
    ensures
        r matches PutAttempt::Busy(k2, v2) ==> k2 == k && v2 == v,
        r matches PutAttempt::Poisoned(k2, v2) ==> k2 == k && v2 == v,
{
    match m.try_lock() {
        Ok(mut guard) => {
            guard.put(k, v);
            PutAttempt::Stored
        },
        Err(TryLockError::WouldBlock) => PutAttempt::Busy(k, v),
        Err(TryLockError::Poisoned(_)) => PutAttempt::Poisoned(k, v),
    }
}

/// Relies on `std::sync::Mutex::lock`: blocks while contended, then runs
/// the verified `KeyedSlot::drain` inside the critical section. `Err`
/// reports a poisoned lock; nothing can be promised about the pairs
/// drained, which depend on what other handles stored before this call.
#[verifier::external_body]
fn lock_drain<K: PartialEq + Clone, V>(m: &Arc<Mutex<KeyedSlot<K, V>>>) -> (r: Result<
    Vec<(K, V)>,
    (),
>) {
    match m.lock() {
        Ok(mut guard) => Ok(guard.drain()),
        Err(_) => Err(()),
    }
}

/// Relies on `std::sync::Mutex::try_lock`: as `lock_drain`, but never
/// blocks; a held lock reports `Busy` and nothing is consumed.
#[verifier::external_body]
fn try_lock_drain<K: PartialEq + Clone, V>(m: &Arc<Mutex<KeyedSlot<K, V>>>) -> (r: DrainAttempt<
    K,
    V,
>) {
    match m.try_lock() {
        Ok(mut guard) => DrainAttempt::Drained(guard.drain()),
        Err(TryLockError::WouldBlock) => DrainAttempt::Busy,
        Err(TryLockError::Poisoned(_)) => DrainAttempt::Poisoned,
    }
}

/// A clonable sender of key and value pairs; every clone writes into the
/// same shared mapping.
#[verifier::reject_recursive_types(K)]
#[verifier::reject_recursive_types(V)]
pub struct Sender<K: Send, V: Send> {
    slot: WeakRef<Mutex<KeyedSlot<K, V>>>,
    alive: Arc<()>,
}

impl<K: Send + Hash + Eq, V: Send> Sender<K, V> {
    /// Update the shared mapping with the given key, value pair,
    /// overwriting any unconsumed value under that key; other keys are
    /// untouched. May block briefly while another sender is sending or the
    /// receiver is draining. On failure — receiver gone, or lock poisoned
    /// — ownership of the pair returns to the caller inside the error.
    pub fn send(&self, key: K, value: V) -> (r: Result<(), SendError<K, V>>)
        ensures
            r matches Err(e) ==> e.0 == key && e.1 == value,
    {
        match self.slot.upgrade() {
            None => Err(SendError(key, value)),
            Some(m) => match lock_put(&m, key, value) {
                Ok(()) => Ok(()),
                Err((k, v)) => Err(SendError(k, v)),
            },
        }
    }

    /// Update the shared mapping with the given key, value pair. If the
    /// lock is currently held elsewhere this returns `WouldBlock` at once,
    /// with the pair handed back and no write done; this method never
    /// blocks.
    pub fn try_send(&self, key: K, value: V) -> (r: Result<(), TrySendError<K, V>>)
        ensures
            r matches Err(TrySendError::ChannelClosed(k, v)) ==> k == key && v == value,
            r matches Err(TrySendError::WouldBlock(k, v)) ==> k == key && v == value,
    {
        match self.slot.upgrade() {
            None => Err(TrySendError::ChannelClosed(key, value)),
            Some(m) => match try_lock_put(&m, key, value) {
                PutAttempt::Stored => Ok(()),
                PutAttempt::Busy(k, v) => Err(TrySendError::WouldBlock(k, v)),
                PutAttempt::Poisoned(k, v) => Err(TrySendError::ChannelClosed(k, v)),
            },
        }
    }

    /// Produce an additional producer handle referencing the same shared
    /// mapping: the clone equals this very handle, weak mapping reference
    /// and liveness token alike, so the two are fungible. Cloning never
    /// blocks and never fails, and does not touch the data lock.
    pub fn clone(&self) -> (r: Sender<K, V>)
        ensures
            r == *self,
    {
        Sender { slot: self.slot.clone(), alive: arc_clone(&self.alive) }
    }
}

/// The receiver of the mapping's pending pairs. Exactly one receiver
/// exists per channel; it is not clonable.
#[verifier::reject_recursive_types(K)]
#[verifier::reject_recursive_types(V)]
pub struct Receiver<K: Send, V: Send> {
    slot: Arc<Mutex<KeyedSlot<K, V>>>,
    senders: WeakRef<()>,
}

/// What a keyed receive answers once the critical section drained `pairs`
/// and the liveness probe answered `senders_alive`: the drained pairs —
/// an empty drain included, since the keyed family has no `NoNewValue` —
/// unless nothing was pending and no sender remains, which is closure. A
/// poisoned lock is classified as draining nothing from an abandoned
/// channel: `drain_outcome(empty, false)`.
pub open spec fn drain_outcome<K, V>(pairs: Seq<(K, V)>, senders_alive: bool) -> Result<
    Seq<(K, V)>,
    RecvError,
> {
    if !senders_alive && pairs.len() == 0 {
        Err(RecvError)
    } else {
        Ok(pairs)
    }
}

/// As `drain_outcome`, for the non-blocking receive's error type; the
/// `WouldBlock` case never reaches this classification, since a held lock
/// drains nothing.
pub open spec fn try_drain_outcome<K, V>(pairs: Seq<(K, V)>, senders_alive: bool) -> Result<
    Seq<(K, V)>,
    TryRecvError,
> {
    if !senders_alive && pairs.len() == 0 {
        Err(TryRecvError::ChannelClosed)
    } else {
        Ok(pairs)
    }
}

/// Classify what a blocking keyed receive's critical section drained:
/// exactly `drain_outcome`.
pub fn finish_drain<K, V>(pairs: Vec<(K, V)>, senders_alive: bool) -> (r: Result<
    Vec<(K, V)>,
    RecvError,
>)
    ensures
        (r matches Ok(p) ==> Ok::<Seq<(K, V)>, RecvError>(p@) == drain_outcome(pairs@, senders_alive)),
        (r matches Err(e) ==> Err::<Seq<(K, V)>, RecvError>(e) == drain_outcome(
            pairs@,
            senders_alive,
        )),
{
    if !senders_alive && pairs.is_empty() {
        Err(RecvError)
    } else {
        Ok(pairs)
    }
}

/// Classify what a non-blocking keyed receive's critical section drained:
/// exactly `try_drain_outcome`.
pub fn finish_try_drain<K, V>(pairs: Vec<(K, V)>, senders_alive: bool) -> (r: Result<
    Vec<(K, V)>,
    TryRecvError,
>)
    ensures
        (r matches Ok(p) ==> Ok::<Seq<(K, V)>, TryRecvError>(p@) == try_drain_outcome(
            pairs@,
            senders_alive,
        )),
        (r matches Err(e) ==> Err::<Seq<(K, V)>, TryRecvError>(e) == try_drain_outcome(
            pairs@,
            senders_alive,
        )),
{
    if !senders_alive && pairs.is_empty() {
        Err(TryRecvError::ChannelClosed)
    } else {
        Ok(pairs)
    }
}

impl<K: Send + Hash + Eq + Clone, V: Send> Receiver<K, V> {
    /// Atomically drain every key currently holding a pending value into a
    /// sequence of pairs, clearing each drained entry; keys with nothing
    /// pending are not included, and the order of pairs follows the
    /// mapping's internal entry order — callers must not depend on it. May
    /// block briefly while a sender is sending. Whatever pairs the shared
    /// mapping held, the result is their `drain_outcome`: the pairs — an
    /// empty drain included — unless nothing was pending and every sender
    /// is gone (or the lock was poisoned), which reports closure.
    pub fn recv(&self) -> (r: Result<Vec<(K, V)>, RecvError>)
        ensures
            exists|pairs: Seq<(K, V)>, senders_alive: bool|
                {
                    let out = #[trigger] drain_outcome(pairs, senders_alive);
                    match r {
                        Ok(p) => Ok::<Seq<(K, V)>, RecvError>(p@) == out,
                        Err(e) => Err::<Seq<(K, V)>, RecvError>(e) == out,
                    }
                },
    {
        match lock_drain(&self.slot) {
            Err(()) => {
                proof {
                    assert(Err::<Seq<(K, V)>, RecvError>(RecvError) == drain_outcome(
                        Seq::<(K, V)>::empty(),
                        false,
                    ));
                }
                Err(RecvError)
            },
            Ok(pairs) => {
                let senders_alive = self.senders.upgrade().is_some();
                finish_drain(pairs, senders_alive)
            },
        }
    }

    /// As `recv`, but never blocks: if the lock is currently held
    /// elsewhere this returns `WouldBlock` at once and nothing is
    /// consumed; otherwise the result is the `try_drain_outcome` of the
    /// drained pairs and the liveness probe, with a poisoned lock counting
    /// as an abandoned, empty channel.
    pub fn try_recv(&self) -> (r: Result<Vec<(K, V)>, TryRecvError>)
        ensures
            r is Err && r->Err_0 == TryRecvError::WouldBlock || exists|
                pairs: Seq<(K, V)>,
                senders_alive: bool,
            |
                {
                    let out = #[trigger] try_drain_outcome(pairs, senders_alive);
                    match r {
                        Ok(p) => Ok::<Seq<(K, V)>, TryRecvError>(p@) == out,
                        Err(e) => Err::<Seq<(K, V)>, TryRecvError>(e) == out,
                    }
                },
    {
        match try_lock_drain(&self.slot) {
            DrainAttempt::Poisoned => {
                proof {
                    assert(Err::<Seq<(K, V)>, TryRecvError>(TryRecvError::ChannelClosed)
                        == try_drain_outcome(Seq::<(K, V)>::empty(), false));
                }
                Err(TryRecvError::ChannelClosed)
            },
            DrainAttempt::Busy => Err(TryRecvError::WouldBlock),
            DrainAttempt::Drained(pairs) => {
                let senders_alive = self.senders.upgrade().is_some();
                finish_try_drain(pairs, senders_alive)
            },
        }
    }
}

/// Construct a sender, receiver pair around one empty shared mapping.
pub fn channel<K: Send + Hash + Eq, V: Send>() -> (Sender<K, V>, Receiver<K, V>) {
    let slot = Arc::new(Mutex::new(KeyedSlot::empty()));
    let weak_slot = WeakRef::new(&slot);
    let alive = Arc::new(());
    let senders = WeakRef::new(&alive);
    (Sender { slot: weak_slot, alive }, Receiver { slot, senders })
}


/// An abstract state of one whole keyed channel: the mapping's entries
/// together with the liveness of both ends, watched exactly as in the
/// single-value family.
pub struct KeyedChannelModel<K, V> {
    /// The mapping's entries, in order.
    pub entries: Seq<(K, Option<V>)>,
    /// Whether the one receiver is still reachable.
    pub receiver_live: bool,
    /// How many sender clones are still reachable.
    pub senders: nat,
}

/// The effect of a keyed `send` (or a `try_send` that acquired the lock):
/// with the receiver gone the state is untouched and the pair comes back;
/// otherwise the key's entry is overwritten or appended.
pub open spec fn send_step<K, V>(c: KeyedChannelModel<K, V>, k: K, v: V) -> (KeyedChannelModel<
    K,
    V,
>, Result<(), SendError<K, V>>) {
    if !c.receiver_live {
        (c, Err(SendError(k, v)))
    } else {
        (KeyedChannelModel { entries: put_effect(c.entries, k, v), ..c }, Ok(()))
    }
}

/// The effect of a keyed `recv` (or a `try_recv` that acquired the lock):
/// the pending pairs drain and every entry is cleared — the keys stay —
/// unless nothing was pending and no sender remains, which reports
/// closure.
pub open spec fn recv_step<K, V>(c: KeyedChannelModel<K, V>) -> (KeyedChannelModel<K, V>, Result<
    Seq<(K, V)>,
    RecvError,
>) {
    if c.senders == 0 && drained_pairs(c.entries).len() == 0 {
        (c, Err(RecvError))
    } else {
        (KeyedChannelModel { entries: cleared(c.entries), ..c }, Ok(drained_pairs(c.entries)))
    }
}

/// The effect of dropping the receiver: only the liveness flag changes.
pub open spec fn drop_receiver_step<K, V>(c: KeyedChannelModel<K, V>) -> KeyedChannelModel<K, V> {
    KeyedChannelModel { receiver_live: false, ..c }
}

/// The effect of cloning a sender.
pub open spec fn clone_sender_step<K, V>(c: KeyedChannelModel<K, V>) -> KeyedChannelModel<K, V> {
    KeyedChannelModel { senders: c.senders + 1, ..c }
}

/// The effect of dropping one sender clone.
pub open spec fn drop_sender_step<K, V>(c: KeyedChannelModel<K, V>) -> KeyedChannelModel<K, V> {
    KeyedChannelModel { senders: if c.senders > 0 { (c.senders - 1) as nat } else { 0 }, ..c }
}

/// Closed on drop, producer side: once the receiver is dropped, any keyed
/// send — from any sender clone — fails with `SendError` carrying back
/// the very key and value that were passed, and the state is untouched.
pub proof fn lemma_keyed_closed_after_receiver_drop<K, V>(c: KeyedChannelModel<K, V>, k: K, v: V)
    ensures
        ({
            let c1 = drop_receiver_step(c);
            let (c2, r) = send_step(c1, k, v);
            r == Err::<(), SendError<K, V>>(SendError(k, v)) && c2 == c1
        }),
{
}

/// Closed on drop, consumer side: with every sender clone dropped and
/// nothing pending, a keyed receive reports closure rather than an empty
/// drain.
pub proof fn lemma_keyed_closed_after_senders_drop<K, V>(c: KeyedChannelModel<K, V>)
    requires
        c.senders == 0,
        drained_pairs(c.entries).len() == 0,
    ensures
        recv_step(c).1 == Err::<Seq<(K, V)>, RecvError>(RecvError),
{
}

/// A drain clears values but never evicts a key: the mapping's key set
/// only grows for the lifetime of the channel.
pub proof fn lemma_recv_keeps_keys<K, V>(c: KeyedChannelModel<K, V>)
    requires
        c.senders > 0 || drained_pairs(c.entries).len() > 0,
    ensures
        ({
            let (c1, r) = recv_step(c);
            &&& c1.entries.len() == c.entries.len()
            &&& forall|i: int| 0 <= i < c.entries.len() ==> c1.entries[i].0 == c.entries[i].0
            &&& forall|i: int| 0 <= i < c1.entries.len() ==> c1.entries[i].1 is None
        }),
{
}


/// The effect of a keyed `try_send`: the caller may find the lock held
/// (`busy`, an environment choice, since another handle decides it); then
/// nothing happens beyond `WouldBlock` handing the pair back. A `try_send`
/// that does acquire the lock acts exactly as `send`.
pub open spec fn try_send_step<K, V>(c: KeyedChannelModel<K, V>, k: K, v: V, busy: bool) -> (
    KeyedChannelModel<K, V>,
    Result<(), TrySendError<K, V>>,
) {
    if !c.receiver_live {
        (c, Err(TrySendError::ChannelClosed(k, v)))
    } else if busy {
        (c, Err(TrySendError::WouldBlock(k, v)))
    } else {
        (KeyedChannelModel { entries: put_effect(c.entries, k, v), ..c }, Ok(()))
    }
}

/// The effect of a keyed `try_recv`, with the same environment choice.
pub open spec fn try_recv_step<K, V>(c: KeyedChannelModel<K, V>, busy: bool) -> (KeyedChannelModel<
    K,
    V,
>, Result<Seq<(K, V)>, TryRecvError>) {
    if busy {
        (c, Err(TryRecvError::WouldBlock))
    } else if c.senders == 0 && drained_pairs(c.entries).len() == 0 {
        (c, Err(TryRecvError::ChannelClosed))
    } else {
        (KeyedChannelModel { entries: cleared(c.entries), ..c }, Ok(drained_pairs(c.entries)))
    }
}

/// A keyed non-blocking send succeeds exactly when it finds the lock free
/// and the receiver alive; whatever the environment does, the pair is
/// either stored under its key or handed back whole, and a busy lock
/// changes nothing.
pub proof fn lemma_keyed_try_send_outcomes<K, V>(c: KeyedChannelModel<K, V>, k: K, v: V, busy: bool)
    ensures
        ({
            let (c1, r) = try_send_step(c, k, v, busy);
            &&& (r is Ok <==> !busy && c.receiver_live)
            &&& (r is Ok ==> c1.entries == put_effect(c.entries, k, v))
            &&& (r matches Err(TrySendError::WouldBlock(k2, v2)) ==> k2 == k && v2 == v && c1 == c)
            &&& (r matches Err(TrySendError::ChannelClosed(k2, v2)) ==> k2 == k && v2 == v && c1
                == c)
        }),
{
}

/// A keyed non-blocking receive never disturbs the state when the lock is
/// held: it reports `WouldBlock` at once; when it does acquire the lock it
/// acts exactly as `recv`, draining the pending pairs or reporting
/// closure once nothing is pending and no sender remains.
pub proof fn lemma_keyed_try_recv_outcomes<K, V>(c: KeyedChannelModel<K, V>, busy: bool)
    ensures
        ({
            let (c1, r) = try_recv_step(c, busy);
            &&& (busy ==> r == Err::<Seq<(K, V)>, TryRecvError>(TryRecvError::WouldBlock) && c1
                == c)
            &&& (r is Ok <==> !busy && (c.senders > 0 || drained_pairs(c.entries).len() > 0))
            &&& (r matches Ok(pairs) ==> pairs == drained_pairs(c.entries) && c1.entries == cleared(
                c.entries,
            ))
        }),
{
}

/// The exec classification agrees with the model: what `drain_outcome`
/// answers for the pending pairs and the senders' liveness is exactly the
/// result component of the model's `recv_step`.
pub proof fn lemma_drain_outcome_matches_model<K, V>(c: KeyedChannelModel<K, V>)
    ensures
        recv_step(c).1 == drain_outcome(drained_pairs(c.entries), c.senders > 0),
{
}

/// Likewise for the non-blocking receive, with the lock's business as the
/// environment choice.
pub proof fn lemma_try_drain_outcome_matches_model<K, V>(c: KeyedChannelModel<K, V>, busy: bool)
    ensures
        try_recv_step(c, busy).1 == if busy {
            Err::<Seq<(K, V)>, TryRecvError>(TryRecvError::WouldBlock)
        } else {
            try_drain_outcome(drained_pairs(c.entries), c.senders > 0)
        },
{
}


/// Every key a drain yields is a key of the mapping.
pub proof fn lemma_drained_keys_present<K, V>(s: Seq<(K, Option<V>)>)
    ensures
        forall|i: int|
            0 <= i < drained_pairs(s).len() ==> has_key(s, #[trigger] drained_pairs(s)[i].0),
    decreases s.len(),
{
    if s.len() > 0 {
        lemma_drained_keys_present(s.drop_last());
        assert forall|i: int|
            0 <= i < drained_pairs(s).len() implies has_key(s, #[trigger] drained_pairs(s)[i].0) by {
            if i < drained_pairs(s.drop_last()).len() {
                assert(has_key(s.drop_last(), drained_pairs(s.drop_last())[i].0));
                let m = choose|m: int|
                    0 <= m < s.drop_last().len() && s.drop_last()[m].0 == drained_pairs(
                        s.drop_last(),
                    )[i].0;
                assert(s[m].0 == drained_pairs(s)[i].0);
            } else {
                assert(drained_pairs(s)[i].0 == s.last().0);
                assert(s[s.len() - 1].0 == drained_pairs(s)[i].0);
            }
        }
    }
}

/// A drain of a well-formed mapping yields each key at most once: with no
/// two entries sharing a key, no two drained pairs do either.
pub proof fn lemma_drained_keys_distinct<K, V>(s: Seq<(K, Option<V>)>)
    requires
        distinct_keys(s),
    ensures
        forall|i: int, j: int|
            0 <= i < j < drained_pairs(s).len() ==> drained_pairs(s)[i].0 != drained_pairs(s)[j].0,
    decreases s.len(),
{
    if s.len() > 0 {
        let rest = s.drop_last();
        assert(distinct_keys(rest)) by {
            assert forall|m: int, l: int| 0 <= m < l < rest.len() implies rest[m].0 != rest[l].0 by {
                assert(s[m].0 != s[l].0);
            }
        }
        lemma_drained_keys_distinct(rest);
        lemma_drained_keys_present(rest);
        assert forall|i: int, j: int|
            0 <= i < j < drained_pairs(s).len() implies drained_pairs(s)[i].0 != drained_pairs(
            s,
        )[j].0 by {
            if j < drained_pairs(rest).len() {
                assert(drained_pairs(rest)[i].0 != drained_pairs(rest)[j].0);
            } else {
                assert(drained_pairs(s)[j].0 == s.last().0);
                assert(has_key(rest, drained_pairs(rest)[i].0));
                let m = choose|m: int|
                    0 <= m < rest.len() && rest[m].0 == drained_pairs(rest)[i].0;
                assert(s[m].0 != s[s.len() - 1].0);
            }
        }
    }
}

/// Keyed independence: values sent under different keys do not disturb one
/// another. After sends under two distinct keys, a drain returns a
/// sequence of pairs whose element set is exactly those two pairs.
pub proof fn lemma_keyed_independence<K, V>(k1: K, v1: V, k2: K, v2: V)
    requires
        k1 != k2,
    ensures
        ({
            let s = put_effect(put_effect(Seq::<(K, Option<V>)>::empty(), k1, v1), k2, v2);
            let expected = Seq::<(K, V)>::empty().push((k1, v1)).push((k2, v2));
            drained_pairs(s) == expected && drained_pairs(s).to_set() == expected.to_set()
        }),
{
    let e: Seq<(K, Option<V>)> = Seq::empty();
    let s1 = put_effect(e, k1, v1);
    assert(!has_key(e, k1));
    assert(s1 =~= seq![(k1, Some(v1))]);
    assert forall|i: int| 0 <= i < s1.len() implies s1[i].0 != k2 by {
        assert(s1[i].0 == k1);
    }
    assert(!has_key(s1, k2));
    let s = put_effect(s1, k2, v2);
    assert(s =~= seq![(k1, Some(v1)), (k2, Some(v2))]);
    assert(s.drop_last() =~= s1);
    assert(s1.drop_last() =~= e);
    assert(drained_pairs(e) =~= Seq::<(K, V)>::empty());
    assert(drained_pairs(s1) =~= seq![(k1, v1)]);
    assert(drained_pairs(s) =~= seq![(k1, v1), (k2, v2)]);
    let pairs = drained_pairs(s);
    assert(pairs.to_set() =~= seq![(k1, v1), (k2, v2)].to_set());
}

/// Keyed coalescing per key: two sends under one key with no intervening
/// drain; the drain returns only the key's second value, the first being
/// discarded and unobservable.
pub proof fn lemma_keyed_coalescing<K, V>(k: K, v1: V, v2: V)
    ensures
        ({
            let s = put_effect(put_effect(Seq::<(K, Option<V>)>::empty(), k, v1), k, v2);
            let expected = Seq::<(K, V)>::empty().push((k, v2));
            drained_pairs(s) == expected && drained_pairs(s).to_set() == expected.to_set()
        }),
{
    let e: Seq<(K, Option<V>)> = Seq::empty();
    let s1 = put_effect(e, k, v1);
    assert(!has_key(e, k));
    assert(s1 =~= seq![(k, Some(v1))]);
    assert(s1[0].0 == k);
    assert(has_key(s1, k));
    let j = key_index(s1, k);
    assert(0 <= j < s1.len() && s1[j].0 == k);
    assert(j == 0);
    let s = put_effect(s1, k, v2);
    assert(s =~= seq![(k, Some(v2))]);
    assert(s.drop_last() =~= e);
    assert(drained_pairs(e) =~= Seq::<(K, V)>::empty());
    assert(drained_pairs(s) =~= seq![(k, v2)]);
}

} // verus!
