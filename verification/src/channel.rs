//! A channel that acts much like `std::sync::mpsc::channel`, but rather than
//! storing messages in an underlying queue, it only stores the latest
//! message: an unconsumed value is silently overwritten by the next send.
//!
//! Two families share the design: [`last`] keeps a single pending value,
//! [`last_map`] keeps at most one pending value per key.
//!
//! Both families guard their storage with one mutual-exclusion lock and
//! detect closure of the opposite end through a weak/strong reference pair:
//! the one `Receiver` holds the only strong reference to the locked storage,
//! so a sender observes the receiver's destruction when its weak reference
//! no longer upgrades; symmetrically every `Sender` clone holds a strong
//! reference to a liveness token that the receiver only watches weakly.
//! The storage mutations that run inside a critical section are verified
//! functions; the lock acquisition around them is trusted.

use vstd::prelude::*;

pub mod last;
pub mod last_map;

verus! {

#[verifier::external_type_specification]
#[verifier::external_body]
#[verifier::reject_recursive_types(T)]
pub struct ExMutex<T: ?Sized>(std::sync::Mutex<T>);

/// Relies on `std::sync::Mutex::new`: wraps a value in a fresh, unlocked
/// mutex. The contents are opaque here; every later access goes through a
/// locking wrapper.
pub assume_specification<T>[ std::sync::Mutex::<T>::new ](t: T) -> std::sync::Mutex<T>;

/// A weak counterpart to an `Arc`: it refers to the allocation without
/// keeping it alive. `std::sync::Weak` itself cannot be named in verified
/// signatures, so it lives in a private field of this opaque struct.
#[verifier::external_body]
#[verifier::reject_recursive_types(T)]
pub(crate) struct WeakRef<T> {
    inner: std::sync::Weak<T>,
}

impl<T> WeakRef<T> {
    /// Relies on `std::sync::Arc::downgrade`: a weak reference to the same
    /// allocation, leaving the strong count unchanged.
    #[verifier::external_body]
    pub(crate) fn new(strong: &std::sync::Arc<T>) -> WeakRef<T> {
        WeakRef { inner: std::sync::Arc::downgrade(strong) }
    }

    /// Relies on `std::sync::Weak::upgrade`: returns a strong reference
    /// exactly when, at this instant, the allocation is still kept alive by
    /// some other strong reference; nothing more can be promised, since
    /// another thread may drop or create strong references at any time.
    #[verifier::external_body]
    pub(crate) fn upgrade(&self) -> Option<std::sync::Arc<T>> {
        self.inner.upgrade()
    }

    /// Relies on `std::sync::Weak::clone`: another weak reference to the
    /// same allocation — in specifications, the same value, since a
    /// `WeakRef` stands for nothing but the allocation it refers to.
    #[verifier::external_body]
    pub(crate) fn clone(&self) -> (r: WeakRef<T>)
        ensures
            r == *self,
    {
        WeakRef { inner: self.inner.clone() }
    }
}

/// Relies on `std::sync::Arc::clone`: the clone refers to the same
/// allocation, so in specifications it carries the same value.
#[verifier::external_body]
pub(crate) fn arc_clone<T>(a: &std::sync::Arc<T>) -> (r: std::sync::Arc<T>)
    ensures
        r == *a,
{
    std::sync::Arc::clone(a)
}

} // verus!
