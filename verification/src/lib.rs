//! Ergonomic helpers for spawning and synchronizing threads.
//!
//! The crate is a convenience layer over an existing multi-producer /
//! multi-consumer channel engine (`crossbeam_channel`) and an existing
//! fork-join scheduler (`rayon`). It offers:
//!
//! - channel operations that surface the broken-pipe condition as an
//!   explicit, descriptive error value instead of a silent hang
//!   (see [`ch`]);
//! - a blocking multi-channel select loop (see [`select`]);
//! - a scoped parallel join of a fixed list of task bodies
//!   (see [`join`]);
//! - the completion-handle discipline for consuming a spawned thread's
//!   result exactly once ([`ThreadOutcome`] and [`finish`]);
//! - explicit ownership-transfer helpers for moving or duplicating values
//!   into thread closures ([`moved`], [`ch::sender_copies`],
//!   [`ch::receiver_copies`]).

use vstd::prelude::*;

pub mod ch;
pub mod join;
pub mod select;

verus! {

/// What a spawned thread's execution came to: either it ran to completion
/// and produced a value, or a failure escaped its body and poisoned the
/// handle.
pub enum ThreadOutcome<T> {
    /// The thread ran to completion and produced this value.
    Finished(T),
    /// A failure escaped the thread's body; no value was produced.
    Poisoned,
}

/// Consume a thread's outcome, yielding the produced value.
///
/// This is the computing half of the completion-handle discipline: the
/// caller joins the spawned thread, wraps what came back as a
/// [`ThreadOutcome`], and hands it here. The outcome is consumed by move,
/// so it cannot be finished twice. A poisoned outcome is refused by the
/// precondition: the join point must escalate a poisoned thread as a
/// failure of its own rather than hand it in.
pub fn finish<T>(outcome: ThreadOutcome<T>) -> (r: T)
    requires
        outcome is Finished,
    ensures
        r == outcome->Finished_0,
{
    match outcome {
        ThreadOutcome::Finished(value) => value,
        ThreadOutcome::Poisoned => vstd::pervasive::unreached(),
    }
}

/// Bind a value under a new, locally owned name.
///
/// This is the ownership-transfer directive for a move: writing
/// `let value = moved(value);` before a closure makes it unambiguous at
/// the call site that `value` is moved, not borrowed, into the closure.
/// The result is the argument itself, unchanged.
pub fn moved<T>(value: T) -> (r: T)
    ensures
        r == value,
{
    value
}

/// Relies on `num_cpus::get`: returns the number of available logical
/// CPUs of the current system, and always at least 1.
pub assume_specification[ num_cpus::get ]() -> (n: usize)
    ensures
        n >= 1,
;

/// The number of logical CPUs available to this process; at least 1.
///
/// Use it to size a pool of worker threads doing CPU-bound work.
pub fn cpu_count() -> (n: usize)
    ensures
        n >= 1,
{
    num_cpus::get()
}

} // verus!
