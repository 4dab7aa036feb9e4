//! Alarm player control state: the stop signal shared with the playback
//! task, and its monotonic request-stop discipline.
//!
//! The playback task itself (audio decoding, looping output, periodic volume
//! re-assertion) runs on a separate thread outside this crate; it polls the
//! shared flag through a [`StopSignal`] handle and winds down once the flag
//! is set.

use vstd::prelude::*;
use std::sync::Arc;
use core::sync::atomic::AtomicBool;
use core::sync::atomic::Ordering;

verus! {

/// Relies on `alloc::sync::Arc` auto-deref and
/// `core::sync::atomic::AtomicBool::store`: writes `value` to the flag that
/// every handle cloned from this one shares.
#[verifier::external_body]
fn store_shared(flag: &Arc<AtomicBool>, value: bool) {
    flag.store(value, Ordering::Relaxed);
}

/// Relies on `alloc::sync::Arc` auto-deref and
/// `core::sync::atomic::AtomicBool::load`: reads the shared flag.  A thread
/// holding another handle may store concurrently, so nothing is claimed of
/// the value.
#[verifier::external_body]
fn load_shared(flag: &Arc<AtomicBool>) -> bool {
    flag.load(Ordering::Relaxed)
}

/// Relies on `alloc::sync::Arc::clone`: the returned handle shares the
/// pointee with `flag`.
#[verifier::external_body]
fn clone_shared(flag: &Arc<AtomicBool>) -> (r: Arc<AtomicBool>)
    ensures
        r == *flag,
{
    Arc::clone(flag)
}

/// A read-only handle on an alarm player's stop flag, for the playback task.
pub struct StopSignal {
    flag: Arc<AtomicBool>,
}

impl StopSignal {
    /// The shared flag this handle reads.
    pub closed spec fn raw_flag(&self) -> Arc<AtomicBool> {
        self.flag
    }

    /// The shared flag at some moment during the call.  The flag only ever
    /// moves from `false` to `true`, so once this returns `true` it stays
    /// `true` for the player's lifetime; a concurrent `stop` may race, so no
    /// more is claimed here.
    pub fn is_set(&self) -> bool {
        load_shared(&self.flag)
    }
}

/// Controller for one looping alarm playback.  Holds the stop signal: a
/// single boolean flag, shared with the playback task, that moves only from
/// `false` to `true`.  A fresh player must be constructed to arm a new
/// alarm after a stop.
///
/// The shared flag itself is opaque to the verifier, so the player keeps a
/// plain mirror of it: `stop` writes both, nothing else ever writes either,
/// and the contracts speak of the mirror.
pub struct AlarmPlayer {
    stop_signal: Arc<AtomicBool>,
    stop_requested: bool,
}

impl AlarmPlayer {
    /// Whether a stop has been requested of this player.
    pub closed spec fn stopped(&self) -> bool {
        self.stop_requested
    }

    /// The shared flag `stop` writes and the playback task polls.
    pub closed spec fn raw_flag(&self) -> Arc<AtomicBool> {
        self.stop_signal
    }

    /// A fresh player: no stop requested yet.
    pub fn new() -> (r: Self)
        ensures
            !r.stopped(),
    {
        AlarmPlayer { stop_signal: Arc::new(AtomicBool::new(false)), stop_requested: false }
    }

    /// Requests that playback halt: sets the shared flag and returns at
    /// once, without waiting for the playback task to wind down.  Has no
    /// precondition: calling it before any playback, or a second time, is
    /// harmless and leaves the signal set.
    pub fn stop(&mut self)
        ensures
            final(self).stopped(),
    {
        store_shared(&self.stop_signal, true);
        self.stop_requested = true;
    }

    /// Whether a stop has been requested.
    pub fn is_stopped(&self) -> (r: bool)
        ensures
            r == self.stopped(),
    {
        self.stop_requested
    }

    /// A handle on the stop flag for the playback task to poll: it shares
    /// this player's flag, so a later `stop` is what it observes.
    pub fn signal_handle(&self) -> (r: StopSignal)
        ensures
            r.raw_flag() == self.raw_flag(),
    {
        StopSignal { flag: clone_shared(&self.stop_signal) }
    }
}

} // verus!
