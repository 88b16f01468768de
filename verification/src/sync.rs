//! The trusted boundary to the synchronization primitives of outside crates:
//! crossbeam's unbounded channel and parking_lot's mutex and condition
//! variable, plus `Arc::clone`, which vstd leaves unspecified.
//!
//! Verified code never touches these crates directly; it goes through the
//! declarations and wrappers here. The values inside a channel, a mutex or
//! an atomic are shared with other threads, so no contract here can pin them
//! down; each wrapper states only what holds of every outcome.
//!
//! parking_lot's `Mutex` and `MutexGuard` are re-exports of `lock_api`'s,
//! and `MutexGuard` cannot be declared to Verus: its declaration carries a
//! `RawMutex` trait bound that Verus refuses with and without the bound
//! written out. The mutex/condvar pair therefore lives in [`FlagGate`], a
//! struct opaque to Verus, and the two steps of the original guard protocol
//! (read-then-wait, write-then-notify) are each one trusted wrapper.

use std::sync::Arc;
use vstd::prelude::*;

verus! {

#[verifier::external_type_specification]
#[verifier::external_body]
#[verifier::reject_recursive_types(T)]
pub struct ExSender<T>(crossbeam_channel::Sender<T>);

#[verifier::external_type_specification]
#[verifier::external_body]
#[verifier::reject_recursive_types(T)]
pub struct ExReceiver<T>(crossbeam_channel::Receiver<T>);

/// Relies on `Arc::clone`: the clone is a second handle to the very same
/// allocation, so it carries the same value.
#[verifier::external_body]
pub fn arc_clone<T>(a: &Arc<T>) -> (res: Arc<T>)
    ensures
        res == *a,
{
    a.clone()
}

/// Relies on `crossbeam_channel::unbounded`: a sender/receiver pair for a
/// new channel of unlimited capacity.
#[verifier::external_body]
pub fn channel_unbounded<T>() -> (crossbeam_channel::Sender<T>, crossbeam_channel::Receiver<T>) {
    crossbeam_channel::unbounded()
}

/// Relies on `crossbeam_channel::Sender::send`: on an unbounded channel the
/// message is enqueued unless every receiver is gone, in which case it comes
/// back unchanged inside the error.
#[verifier::external_body]
pub fn channel_send<T>(s: &crossbeam_channel::Sender<T>, msg: T) -> (r: Result<(), T>)
    ensures
        r matches Err(m) ==> m == msg,
{
    match s.send(msg) {
        Ok(()) => Ok(()),
        Err(e) => Err(e.0),
    }
}

/// Relies on `crossbeam_channel::Receiver::recv`: blocks until a message
/// arrives (`Some`) or until the channel is empty with every sender gone
/// (`None`). Which message arrives depends on the other threads.
#[verifier::external_body]
pub fn channel_recv<T>(r: &crossbeam_channel::Receiver<T>) -> Option<T> {
    r.recv().ok()
}

/// Relies on `crossbeam_channel::Receiver::clone`: a second consumer handle
/// of the same queue.
#[verifier::external_body]
pub fn channel_receiver_clone<T>(
    r: &crossbeam_channel::Receiver<T>,
) -> crossbeam_channel::Receiver<T> {
    r.clone()
}

/// A boolean "released" flag guarded by a parking_lot mutex, with a
/// condition variable for threads that block until the flag is set.
/// Opaque to Verus (see the module doc); its methods are trusted wrappers.
#[verifier::external_body]
pub struct FlagGate {
    flag: parking_lot::Mutex<bool>,
    cond: parking_lot::Condvar,
}

impl FlagGate {
    /// Relies on `parking_lot::Mutex::new` and `parking_lot::Condvar::new`:
    /// a gate whose flag starts out unset.
    #[verifier::external_body]
    pub fn new() -> FlagGate {
        FlagGate { flag: parking_lot::Mutex::new(false), cond: parking_lot::Condvar::new() }
    }

    /// Relies on `parking_lot::Mutex::lock` and `parking_lot::Condvar::wait`:
    /// takes the lock, and if the flag is still unset, blocks on the
    /// condition variable (releasing the lock) until another thread calls
    /// [`FlagGate::set_and_notify_all`]. Returns once the flag was seen set
    /// or a notification arrived; parking_lot condition variables do not
    /// wake spuriously.
    #[verifier::external_body]
    pub fn wait_if_unset(&self) {
        let mut guard = self.flag.lock();
        if !*guard {
            self.cond.wait(&mut guard);
        }
    }

    /// Relies on `parking_lot::Mutex::lock` and
    /// `parking_lot::Condvar::notify_all`: takes the lock, sets the flag,
    /// and wakes every thread blocked in [`FlagGate::wait_if_unset`].
    #[verifier::external_body]
    pub fn set_and_notify_all(&self) {
        let mut guard = self.flag.lock();
        *guard = true;
        self.cond.notify_all();
    }
}

} // verus!
