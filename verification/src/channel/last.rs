//! The single-value latest-value channel: one shared slot holding at most
//! one pending value. Senders overwrite, the receiver takes and clears.
//!
//! Every critical section is one pure exchange: the trusted wrappers take
//! the lock and swap the guarded [`Slot`] for one the caller built, and
//! hand the old one back. The slots going in and the contents coming out
//! are built and read by verified functions, so no library logic runs
//! inside a trusted body. [`ChannelModel`] states what each operation does
//! to the whole shared state — slot contents and the liveness of both
//! ends — and the channel's laws (coalescing, the round trip, closure on
//! either drop, and the serialization of competing sends) are proved over
//! those transitions.

use vstd::prelude::*;
use std::sync::{Arc, Mutex, TryLockError};
use crate::channel::{arc_clone, WeakRef};

verus! {

/// The shared slot's contents: at any instant it holds either nothing or
/// exactly one not-yet-consumed value. This is the data the channel's lock
/// guards. A send installs a full slot and discards the displaced one; a
/// receive installs an empty slot and reads the displaced one out.
pub struct Slot<T> {
    pending: Option<T>,
}

impl<T> View for Slot<T> {
    type V = Option<T>;

    closed spec fn view(&self) -> Option<T> {
        self.pending
    }
}

impl<T> Slot<T> {
    /// A slot with no pending value.
    pub fn empty() -> (s: Slot<T>)
        ensures
            s@ is None,
    {
        Slot { pending: None }
    }

    /// Store a value, discarding any previously unconsumed one: the
    /// channel's defining coalescing step.
    pub fn put(&mut self, t: T)
        ensures
            final(self)@ == Some(t),
    {
        self.pending = Some(t);
    }

    /// Take the pending value, if any, leaving the slot empty.
    pub fn take(&mut self) -> (r: Option<T>)
        ensures
            r == old(self)@,
            final(self)@ is None,
    {
        self.pending.take()
    }

    /// A slot holding exactly `t`: what a send installs.
    pub fn holding(t: T) -> (s: Slot<T>)
        ensures
            s@ == Some(t),
    {
        Slot { pending: Some(t) }
    }

    /// Surrender the pending value, if any: how the contents of a slot
    /// displaced from the channel are read out.
    pub fn into_pending(self) -> (r: Option<T>)
        ensures
            r == self@,
    {
        self.pending
    }
}

/// The error returned by a failed `send`: the `Receiver` was dropped (or
/// the lock was poisoned) and the channel is closed. Ownership of the
/// rejected value is handed back to the caller.
#[derive(Debug)]
pub struct SendError<T>(pub T);

/// The ways `try_send` can fail.
#[derive(Debug)]
pub enum TrySendError<T> {
    /// The `Receiver` was dropped (or the lock was poisoned) and the
    /// channel is closed; the value is handed back.
    ChannelClosed(T),
    /// The lock is currently held elsewhere; no write occurred and the
    /// value is handed back.
    WouldBlock(T),
}

/// The ways `recv` can fail.
#[derive(Debug, PartialEq, Eq)]
pub enum RecvError {
    /// Every `Sender` was dropped and the slot is empty: the channel is
    /// closed.
    ChannelClosed,
    /// The channel is open, but nothing new was sent since the last
    /// consume.
    NoNewValue,
}

/// The ways `try_recv` can fail.
#[derive(Debug, PartialEq, Eq)]
pub enum TryRecvError {
    /// Every `Sender` was dropped and the slot is empty: the channel is
    /// closed.
    ChannelClosed,
    /// The lock is currently held elsewhere; nothing was consumed.
    WouldBlock,
    /// The channel is open, but nothing new was sent since the last
    /// consume.
    NoNewValue,
}

/// Outcome of a non-blocking attempt to exchange the locked slot: the
/// displaced slot on success, the caller's own slot handed back otherwise.
enum SwapAttempt<T> {
    Swapped(Slot<T>),
    Busy(Slot<T>),
    Poisoned(Slot<T>),
}

/// Relies on `std::sync::Mutex::lock` and `std::mem::replace`: mutual
/// exclusion for the guarded slot, blocking while another holder has the
/// lock; the critical section does nothing but exchange the guarded slot
/// for `new`, returning the displaced one. A poisoned lock exchanges
/// nothing and hands `new` back. Nothing can be promised of the displaced
/// slot: its contents depend on what other handles stored before this
/// call.
#[verifier::external_body]
fn lock_swap<T>(m: &Arc<Mutex<Slot<T>>>, new: Slot<T>) -> (r: Result<Slot<T>, Slot<T>>)
    ensures
        r matches Err(s) ==> s == new,
{
    match m.lock() {
        Ok(mut guard) => Ok(std::mem::replace(&mut *guard, new)),
        Err(_) => Err(new),
    }
}

/// Relies on `std::sync::Mutex::try_lock` and `std::mem::replace`: as
/// `lock_swap`, but never blocks; a held lock reports `Busy` with `new`
/// handed back and nothing exchanged.
#[verifier::external_body]
fn try_lock_swap<T>(m: &Arc<Mutex<Slot<T>>>, new: Slot<T>) -> (r: SwapAttempt<T>)
    ensures
        r matches SwapAttempt::Busy(s) ==> s == new,
        r matches SwapAttempt::Poisoned(s) ==> s == new,
{
    match m.try_lock() {
        Ok(mut guard) => SwapAttempt::Swapped(std::mem::replace(&mut *guard, new)),
        Err(TryLockError::WouldBlock) => SwapAttempt::Busy(new),
        Err(TryLockError::Poisoned(_)) => SwapAttempt::Poisoned(new),
    }
}

/// For sending the latest value. Clonable; every clone writes into the same
/// shared slot.
#[verifier::reject_recursive_types(T)]
pub struct Sender<T: Send> {
    slot: WeakRef<Mutex<Slot<T>>>,
    alive: Arc<()>,
}

impl<T: Send> Sender<T> {
    /// Send the latest value to the receiver, overwriting any unconsumed
    /// one. This may block shortly if another handle has locked the slot.
    /// On failure — receiver gone, or lock poisoned — ownership of the
    /// value returns to the caller inside the error.
    pub fn send(&self, t: T) -> (r: Result<(), SendError<T>>)
        ensures
            r matches Err(e) ==> e.0 == t,
    {
        match self.slot.upgrade() {
            None => Err(SendError(t)),
            Some(m) => match lock_swap(&m, Slot::holding(t)) {
                Ok(_) => Ok(()),
                Err(s) => match s.into_pending() {
                    Some(v) => Err(SendError(v)),
                    None => vstd::pervasive::unreached(),
                },
            },
        }
    }

    /// Try to send the latest value to the receiver. If the lock is
    /// currently held elsewhere this returns `WouldBlock` at once, with the
    /// value handed back and no write done; this method never blocks.
    pub fn try_send(&self, t: T) -> (r: Result<(), TrySendError<T>>)
        ensures
            r matches Err(TrySendError::ChannelClosed(v)) ==> v == t,
            r matches Err(TrySendError::WouldBlock(v)) ==> v == t,
    {
        match self.slot.upgrade() {
            None => Err(TrySendError::ChannelClosed(t)),
            Some(m) => match try_lock_swap(&m, Slot::holding(t)) {
                SwapAttempt::Swapped(_) => Ok(()),
                SwapAttempt::Busy(s) => match s.into_pending() {
                    Some(v) => Err(TrySendError::WouldBlock(v)),
                    None => vstd::pervasive::unreached(),
                },
                SwapAttempt::Poisoned(s) => match s.into_pending() {
                    Some(v) => Err(TrySendError::ChannelClosed(v)),
                    None => vstd::pervasive::unreached(),
                },
            },
        }
    }

    /// Produce an additional producer handle referencing the same shared
    /// slot: the clone equals this very handle, weak slot reference and
    /// liveness token alike, so the two are fungible. Cloning never blocks
    /// and never fails, and does not touch the data lock.
    pub fn clone(&self) -> (r: Sender<T>)
        ensures
            r == *self,
    {
        Sender { slot: self.slot.clone(), alive: arc_clone(&self.alive) }
    }
}

/// For receiving the latest value if there has been an update. Exactly one
/// receiver exists per channel; it is not clonable.
#[verifier::reject_recursive_types(T)]
pub struct Receiver<T: Send> {
    slot: Arc<Mutex<Slot<T>>>,
    senders: WeakRef<()>,
}

/// What a receive answers once the critical section took `taken` out of
/// the slot and the liveness probe answered `senders_alive`: a value is
/// delivered, an empty slot is `NoNewValue` while a sender remains and
/// `ChannelClosed` once none does. A poisoned lock is classified as taking
/// nothing from an abandoned channel: `recv_outcome(None, false)`.
pub open spec fn recv_outcome<T>(taken: Option<T>, senders_alive: bool) -> Result<T, RecvError> {
    match taken {
        Some(t) => Ok(t),
        None => if senders_alive {
            Err(RecvError::NoNewValue)
        } else {
            Err(RecvError::ChannelClosed)
        },
    }
}

/// As `recv_outcome`, for the non-blocking receive's error type; the
/// `WouldBlock` case never reaches this classification, since a held lock
/// takes nothing out.
pub open spec fn try_recv_outcome<T>(taken: Option<T>, senders_alive: bool) -> Result<
    T,
    TryRecvError,
> {
    match taken {
        Some(t) => Ok(t),
        None => if senders_alive {
            Err(TryRecvError::NoNewValue)
        } else {
            Err(TryRecvError::ChannelClosed)
        },
    }
}

/// Classify what a blocking receive's critical section took out: exactly
/// `recv_outcome`.
pub fn finish_take<T>(taken: Option<T>, senders_alive: bool) -> (r: Result<T, RecvError>)
    ensures
        r == recv_outcome(taken, senders_alive),
{
    match taken {
        Some(t) => Ok(t),
        None => if senders_alive {
            Err(RecvError::NoNewValue)
        } else {
            Err(RecvError::ChannelClosed)
        },
    }
}

/// Classify what a non-blocking receive's critical section took out:
/// exactly `try_recv_outcome`.
pub fn finish_try_take<T>(taken: Option<T>, senders_alive: bool) -> (r: Result<T, TryRecvError>)
    ensures
        r == try_recv_outcome(taken, senders_alive),
{
    match taken {
        Some(t) => Ok(t),
        None => if senders_alive {
            Err(TryRecvError::NoNewValue)
        } else {
            Err(TryRecvError::ChannelClosed)
        },
    }
}

impl<T: Send> Receiver<T> {
    /// Take the latest value if there is one, leaving the slot empty. This
    /// may block shortly if another handle has locked the slot. What comes
    /// back from the shared slot and the liveness probe depends on the
    /// other handles; whatever came back, the result is its
    /// `recv_outcome`: the value if one was pending, else `NoNewValue`
    /// while some sender remains reachable and `ChannelClosed` once none
    /// does — a poisoned lock counting as an abandoned, empty channel.
    pub fn recv(&self) -> (r: Result<T, RecvError>)
        ensures
            exists|taken: Option<T>, senders_alive: bool|
                r == #[trigger] recv_outcome(taken, senders_alive),
    {
        match lock_swap(&self.slot, Slot::empty()) {
            Err(_) => {
                proof {
                    assert(Err::<T, RecvError>(RecvError::ChannelClosed) == recv_outcome(
                        None::<T>,
                        false,
                    ));
                }
                Err(RecvError::ChannelClosed)
            },
            Ok(displaced) => {
                let taken = displaced.into_pending();
                let senders_alive = self.senders.upgrade().is_some();
                finish_take(taken, senders_alive)
            },
        }
    }

    /// Attempt to retrieve the latest value; never blocks. If the lock is
    /// currently held elsewhere this returns `WouldBlock` at once and
    /// nothing is consumed; otherwise the result is the `try_recv_outcome`
    /// of what the critical section took out and of the liveness probe,
    /// with a poisoned lock counting as an abandoned, empty channel.
    pub fn try_recv(&self) -> (r: Result<T, TryRecvError>)
        ensures
            r == Err::<T, TryRecvError>(TryRecvError::WouldBlock) || exists|
                taken: Option<T>,
                senders_alive: bool,
            | r == #[trigger] try_recv_outcome(taken, senders_alive),
    {
        match try_lock_swap(&self.slot, Slot::empty()) {
            SwapAttempt::Poisoned(_) => {
                proof {
                    assert(Err::<T, TryRecvError>(TryRecvError::ChannelClosed) == try_recv_outcome(
                        None::<T>,
                        false,
                    ));
                }
                Err(TryRecvError::ChannelClosed)
            },
            SwapAttempt::Busy(_) => Err(TryRecvError::WouldBlock),
            SwapAttempt::Swapped(displaced) => {
                let taken = displaced.into_pending();
                let senders_alive = self.senders.upgrade().is_some();
                finish_try_take(taken, senders_alive)
            },
        }
    }
}

/// Construct a new sender, receiver pair around one empty shared slot.
pub fn channel<T: Send>() -> (Sender<T>, Receiver<T>) {
    let slot = Arc::new(Mutex::new(Slot::empty()));
    let weak_slot = WeakRef::new(&slot);
    let alive = Arc::new(());
    let senders = WeakRef::new(&alive);
    (Sender { slot: weak_slot, alive }, Receiver { slot, senders })
}

/// An abstract state of one whole channel: the slot's contents together
/// with the liveness of both ends. Every operation of the exec handles is
/// one atomic critical section; its effect on the shared state is the
/// transition written below, and the laws that follow are proved over these
/// transitions.
pub struct ChannelModel<T> {
    /// The slot's contents.
    pub pending: Option<T>,
    /// Whether the one receiver is still reachable.
    pub receiver_live: bool,
    /// How many sender clones are still reachable.
    pub senders: nat,
}

/// The effect of `send` (or a `try_send` that acquired the lock): with the
/// receiver gone the state is untouched and the value comes back; otherwise
/// the slot is overwritten.
pub open spec fn send_step<T>(c: ChannelModel<T>, t: T) -> (ChannelModel<T>, Result<
    (),
    SendError<T>,
>) {
    if !c.receiver_live {
        (c, Err(SendError(t)))
    } else {
        (ChannelModel { pending: Some(t), ..c }, Ok(()))
    }
}

/// The effect of `recv` (or a `try_recv` that acquired the lock): a pending
/// value is taken and the slot cleared; an empty slot reports closure when
/// no sender remains, and `NoNewValue` otherwise.
pub open spec fn recv_step<T>(c: ChannelModel<T>) -> (ChannelModel<T>, Result<T, RecvError>) {
    match c.pending {
        Some(t) => (ChannelModel { pending: None, ..c }, Ok(t)),
        None => if c.senders == 0 {
            (c, Err(RecvError::ChannelClosed))
        } else {
            (c, Err(RecvError::NoNewValue))
        },
    }
}

/// The effect of dropping the receiver: only the liveness flag changes.
pub open spec fn drop_receiver_step<T>(c: ChannelModel<T>) -> ChannelModel<T> {
    ChannelModel { receiver_live: false, ..c }
}

/// The effect of cloning a sender.
pub open spec fn clone_sender_step<T>(c: ChannelModel<T>) -> ChannelModel<T> {
    ChannelModel { senders: c.senders + 1, ..c }
}

/// The effect of dropping one sender clone.
pub open spec fn drop_sender_step<T>(c: ChannelModel<T>) -> ChannelModel<T> {
    ChannelModel { senders: if c.senders > 0 { (c.senders - 1) as nat } else { 0 }, ..c }
}

/// Coalescing: for any two values sent in sequence with no intervening
/// receive, the receive that follows returns exactly the second value; the
/// first is discarded and unobservable.
pub proof fn lemma_coalescing<T>(c: ChannelModel<T>, v1: T, v2: T)
    requires
        c.receiver_live,
    ensures
        ({
            let (c1, r1) = send_step(c, v1);
            let (c2, r2) = send_step(c1, v2);
            let (c3, r3) = recv_step(c2);
            r1 is Ok && r2 is Ok && r3 == Ok::<T, RecvError>(v2) && c3.pending is None
        }),
{
}

/// Single round trip: a send followed by a receive yields the sent value,
/// and a second immediate receive yields `NoNewValue`.
pub proof fn lemma_round_trip<T>(c: ChannelModel<T>, v: T)
    requires
        c.receiver_live,
        c.senders > 0,
    ensures
        ({
            let (c1, r1) = send_step(c, v);
            let (c2, r2) = recv_step(c1);
            let (c3, r3) = recv_step(c2);
            r1 is Ok && r2 == Ok::<T, RecvError>(v) && r3 == Err::<T, RecvError>(
                RecvError::NoNewValue,
            )
        }),
{
}

/// Closed on drop, producer side: once the receiver is dropped, any send —
/// from any sender clone — fails with `SendError` carrying the very value
/// that was passed, and the shared state is untouched.
pub proof fn lemma_closed_after_receiver_drop<T>(c: ChannelModel<T>, v: T)
    ensures
        ({
            let c1 = drop_receiver_step(c);
            let (c2, r) = send_step(c1, v);
            r == Err::<(), SendError<T>>(SendError(v)) && c2 == c1
        }),
{
}

/// Closed on drop, consumer side: with every sender clone dropped and the
/// slot empty, a receive reports `ChannelClosed` rather than `NoNewValue`.
pub proof fn lemma_closed_after_senders_drop<T>(c: ChannelModel<T>)
    requires
        c.senders == 0,
        c.pending is None,
    ensures
        recv_step(c).1 == Err::<T, RecvError>(RecvError::ChannelClosed),
{
}

/// The effect of `try_send`: the caller may find the lock held (`busy`,
/// an environment choice, since another handle decides it); then nothing
/// happens beyond `WouldBlock` handing the value back. A `try_send` that
/// does acquire the lock acts exactly as `send`.
pub open spec fn try_send_step<T>(c: ChannelModel<T>, t: T, busy: bool) -> (ChannelModel<T>, Result<
    (),
    TrySendError<T>,
>) {
    if !c.receiver_live {
        (c, Err(TrySendError::ChannelClosed(t)))
    } else if busy {
        (c, Err(TrySendError::WouldBlock(t)))
    } else {
        (ChannelModel { pending: Some(t), ..c }, Ok(()))
    }
}

/// The effect of `try_recv`, with the same environment choice.
pub open spec fn try_recv_step<T>(c: ChannelModel<T>, busy: bool) -> (ChannelModel<T>, Result<
    T,
    TryRecvError,
>) {
    if busy {
        (c, Err(TryRecvError::WouldBlock))
    } else {
        match c.pending {
            Some(t) => (ChannelModel { pending: None, ..c }, Ok(t)),
            None => if c.senders == 0 {
                (c, Err(TryRecvError::ChannelClosed))
            } else {
                (c, Err(TryRecvError::NoNewValue))
            },
        }
    }
}

/// A non-blocking send succeeds exactly when it finds the lock free and
/// the receiver alive; whatever the environment does, the value is either
/// stored or handed back whole, and a busy lock changes nothing.
pub proof fn lemma_try_send_outcomes<T>(c: ChannelModel<T>, t: T, busy: bool)
    ensures
        ({
            let (c1, r) = try_send_step(c, t, busy);
            &&& (r is Ok <==> !busy && c.receiver_live)
            &&& (r is Ok ==> c1.pending == Some(t))
            &&& (r matches Err(TrySendError::WouldBlock(v)) ==> v == t && c1 == c)
            &&& (r matches Err(TrySendError::ChannelClosed(v)) ==> v == t && c1 == c)
        }),
{
}

/// A non-blocking receive never disturbs the state when the lock is held:
/// it reports `WouldBlock` at once; when it does acquire the lock it acts
/// exactly as `recv`, taking the pending value or reporting an empty slot
/// as closure or `NoNewValue` by the senders' liveness.
pub proof fn lemma_try_recv_outcomes<T>(c: ChannelModel<T>, busy: bool)
    ensures
        ({
            let (c1, r) = try_recv_step(c, busy);
            &&& (busy ==> r == Err::<T, TryRecvError>(TryRecvError::WouldBlock) && c1 == c)
            &&& (r is Ok <==> !busy && c.pending is Some)
            &&& (r matches Ok(t) ==> c.pending == Some(t) && c1.pending is None)
            &&& (!busy && c.pending is None ==> c1 == c && (r == Err::<T, TryRecvError>(
                TryRecvError::ChannelClosed,
            ) <==> c.senders == 0))
        }),
{
}


/// The state after a whole sequence of non-blocking sends, each with its
/// own finding of the lock.
pub open spec fn try_send_all<T>(c: ChannelModel<T>, calls: Seq<(T, bool)>) -> ChannelModel<T>
    decreases calls.len(),
{
    if calls.len() == 0 {
        c
    } else {
        try_send_all(try_send_step(c, calls.first().0, calls.first().1).0, calls.drop_first())
    }
}

/// What coalescing leaves pending: each call that acquired the lock
/// overwrites, each busy one changes nothing.
pub open spec fn coalesced_pending<T>(pending: Option<T>, calls: Seq<(T, bool)>) -> Option<T>
    decreases calls.len(),
{
    if calls.len() == 0 {
        pending
    } else {
        coalesced_pending(
            if calls.first().1 {
                pending
            } else {
                Some(calls.first().0)
            },
            calls.drop_first(),
        )
    }
}

/// Whether, along the sequence, exactly the calls that found the lock free
/// reported `Ok`.
pub open spec fn try_oks_are_acquirers<T>(c: ChannelModel<T>, calls: Seq<(T, bool)>) -> bool
    decreases calls.len(),
{
    if calls.len() == 0 {
        true
    } else {
        let (c1, r) = try_send_step(c, calls.first().0, calls.first().1);
        &&& (r is Ok <==> !calls.first().1)
        &&& try_oks_are_acquirers(c1, calls.drop_first())
    }
}

/// Concurrent non-blocking sends serialize: the lock admits them in some
/// order and tells each caller at once whether it got through. Whatever
/// that order was, while the receiver lives the calls that acquired the
/// lock are exactly the ones that reported `Ok`, and afterwards the slot
/// holds what per-call coalescing of that serialization leaves.
pub proof fn lemma_try_sends_serialize<T>(c: ChannelModel<T>, calls: Seq<(T, bool)>)
    requires
        c.receiver_live,
    ensures
        try_oks_are_acquirers(c, calls),
        try_send_all(c, calls).pending == coalesced_pending(c.pending, calls),
        try_send_all(c, calls).receiver_live,
        try_send_all(c, calls).senders == c.senders,
    decreases calls.len(),
{
    if calls.len() > 0 {
        let (c1, r) = try_send_step(c, calls.first().0, calls.first().1);
        lemma_try_sends_serialize(c1, calls.drop_first());
    }
}

/// The slot never holds an invented value: after any serialization of
/// non-blocking sends it holds either what was already pending or a value
/// passed, whole, to exactly one of the calls.
pub proof fn lemma_pending_is_some_call<T>(pending: Option<T>, calls: Seq<(T, bool)>)
    ensures
        coalesced_pending(pending, calls) == pending || exists|i: int|
            0 <= i < calls.len() && coalesced_pending(pending, calls) == Some(
                #[trigger] calls[i].0,
            ),
    decreases calls.len(),
{
    if calls.len() > 0 {
        let head = if calls.first().1 {
            pending
        } else {
            Some(calls.first().0)
        };
        lemma_pending_is_some_call(head, calls.drop_first());
        let out = coalesced_pending(pending, calls);
        if out == head {
            if !calls.first().1 {
                assert(calls[0].0 == calls.first().0);
            }
        } else {
            let j = choose|j: int|
                0 <= j < calls.drop_first().len() && out == Some(
                    #[trigger] calls.drop_first()[j].0,
                );
            assert(calls[j + 1].0 == calls.drop_first()[j].0);
        }
    }
}


/// The exec classification agrees with the model: what `recv_outcome`
/// answers for the slot contents and the senders' liveness is exactly the
/// result component of the model's `recv_step`.
pub proof fn lemma_recv_outcome_matches_model<T>(c: ChannelModel<T>)
    ensures
        recv_step(c).1 == recv_outcome(c.pending, c.senders > 0),
{
}

/// Likewise for the non-blocking receive, with the lock's business as the
/// environment choice.
pub proof fn lemma_try_recv_outcome_matches_model<T>(c: ChannelModel<T>, busy: bool)
    ensures
        try_recv_step(c, busy).1 == if busy {
            Err::<T, TryRecvError>(TryRecvError::WouldBlock)
        } else {
            try_recv_outcome(c.pending, c.senders > 0)
        },
{
}

/// The state after a whole sequence of sends, first to last.
pub open spec fn send_all<T>(c: ChannelModel<T>, vs: Seq<T>) -> ChannelModel<T>
    decreases vs.len(),
{
    if vs.len() == 0 {
        c
    } else {
        send_all(send_step(c, vs.first()).0, vs.drop_first())
    }
}

/// Whether every send in the sequence reported success.
pub open spec fn all_sends_ok<T>(c: ChannelModel<T>, vs: Seq<T>) -> bool
    decreases vs.len(),
{
    if vs.len() == 0 {
        true
    } else {
        send_step(c, vs.first()).1 is Ok && all_sends_ok(send_step(c, vs.first()).0,
            vs.drop_first())
    }
}

/// Concurrent sends serialize: the lock admits the competing sends in some
/// order, and whatever that order was, every one of them succeeds while the
/// receiver lives, and afterwards the slot holds exactly the last value of
/// the serialization — a value passed to one of the calls, never a torn or
/// invented one.
pub proof fn lemma_sends_serialize<T>(c: ChannelModel<T>, vs: Seq<T>)
    requires
        c.receiver_live,
        vs.len() > 0,
    ensures
        all_sends_ok(c, vs),
        send_all(c, vs).pending == Some(vs.last()),
        send_all(c, vs).receiver_live,
        send_all(c, vs).senders == c.senders,
    decreases vs.len(),
{
    let (c1, r1) = send_step(c, vs.first());
    if vs.len() == 1 {
        assert(vs.last() == vs.first());
        assert(vs.drop_first().len() == 0);
        assert(all_sends_ok(c1, vs.drop_first()));
    } else {
        lemma_sends_serialize(c1, vs.drop_first());
        assert(vs.drop_first().last() == vs.last());
    }
}

} // verus!
