//! Channel operations with explicit broken-pipe handling.
//!
//! The channel engine is `crossbeam_channel`; this module does not
//! reimplement it. It wraps the engine's endpoints so that the recurring
//! operations — send, blocking receive, wait-for-close, bulk send, drain,
//! and forwarding a fallible result to an error channel — come back as
//! explicit outcome values. The broken-pipe condition (the counterpart
//! endpoints are all gone) is always surfaced as a distinguished value,
//! never as a silent hang.

use vstd::prelude::*;

verus! {

#[verifier::external_type_specification]
#[verifier::external_body]
#[verifier::reject_recursive_types(T)]
pub struct ExSender<T>(crossbeam_channel::Sender<T>);

#[verifier::external_type_specification]
#[verifier::external_body]
#[verifier::reject_recursive_types(T)]
pub struct ExReceiver<T>(crossbeam_channel::Receiver<T>);

/// What one send came to.
pub enum SendOutcome<T> {
    /// The message was delivered into the channel.
    Delivered,
    /// Every receiver of the channel has been dropped; the message could
    /// not be delivered and is handed back.
    NoReceivers(T),
}

/// What one blocking receive came to.
pub enum RecvOutcome<T> {
    /// A message arrived.
    Item(T),
    /// The channel is empty and every sender has been dropped; no message
    /// will ever arrive.
    Closed,
}

/// Error of a send on a channel whose receivers are all gone: the
/// broken-pipe condition for a sender. Carries the undelivered message.
pub struct NoReceivers<T>(pub T);

/// Error of a receive on a channel that is empty with every sender gone:
/// the broken-pipe condition for a receiver.
pub struct NoSenders;

/// Relies on `crossbeam_channel::Sender::send`: blocks until the message
/// is delivered, and errs exactly when every `Receiver` of the channel has
/// been dropped; the error hands the original message back.
#[verifier::external_body]
fn send_raw<T>(sender: &crossbeam_channel::Sender<T>, value: T) -> (r: SendOutcome<T>)
    ensures
        r matches SendOutcome::NoReceivers(v) ==> v == value,
{
    match sender.send(value) {
        Ok(()) => SendOutcome::Delivered,
        Err(crossbeam_channel::SendError(v)) => SendOutcome::NoReceivers(v),
    }
}

/// Relies on `crossbeam_channel::Receiver::recv`: blocks until a message
/// arrives or until the channel is empty with every `Sender` dropped.
#[verifier::external_body]
fn recv_raw<T>(receiver: &crossbeam_channel::Receiver<T>) -> (r: RecvOutcome<T>)
{
    match receiver.recv() {
        Ok(v) => RecvOutcome::Item(v),
        Err(crossbeam_channel::RecvError) => RecvOutcome::Closed,
    }
}

/// Send `value` on the channel, blocking until it is delivered.
///
/// Errs exactly when the channel has no remaining receivers; the error
/// then carries the undelivered message unchanged. A caller that treats
/// the broken pipe as a topology bug escalates the error to a fatal
/// failure; nothing is lost either way, since the message comes back.
pub fn send<T>(sender: &crossbeam_channel::Sender<T>, value: T) -> (r: Result<(), NoReceivers<T>>)
    ensures
        r matches Err(e) ==> e.0 == value,
{
    match send_raw(sender, value) {
        SendOutcome::Delivered => Ok(()),
        SendOutcome::NoReceivers(v) => Err(NoReceivers(v)),
    }
}

/// Receive one message, blocking until one arrives.
///
/// Errs exactly when the channel is empty and has no remaining senders,
/// so a receive that could never complete fails explicitly instead of
/// blocking forever.
pub fn recv<T>(receiver: &crossbeam_channel::Receiver<T>) -> (r: Result<T, NoSenders>)
{
    match recv_raw(receiver) {
        RecvOutcome::Item(v) => Ok(v),
        RecvOutcome::Closed => Err(NoSenders),
    }
}

/// Relies on `crossbeam_channel::Receiver::iter`: the iterator blocks on
/// each step and ends exactly when the channel is empty with every
/// `Sender` dropped, so collecting it returns every remaining message, in
/// arrival order, once the channel is fully closed.
#[verifier::external_body]
fn drain_raw<T>(receiver: &crossbeam_channel::Receiver<T>) -> (items: Vec<T>)
{
    receiver.iter().collect()
}

/// Block until the channel is fully closed: every sender dropped and
/// every buffered message taken. Messages received while waiting are
/// discarded; use this when a thread only needs the closure signal.
pub fn wait_close<T>(receiver: &crossbeam_channel::Receiver<T>)
{
    let _taken = drain_raw(receiver);
}

/// Error of a bulk send that stopped early: the channel lost its last
/// receiver after `delivered` messages had gone out. Carries the first
/// undelivered message; the ones after it were not attempted.
pub struct SendStopped<T> {
    /// How many messages were delivered before the channel broke; also
    /// the index of `undelivered` in the original list.
    pub delivered: usize,
    /// The first message that could not be delivered.
    pub undelivered: T,
}

/// Send every value of the list, in list order, blocking as needed.
///
/// On success the count of delivered messages equals the length of the
/// list. If the channel loses its last receiver part way, the error says
/// how many messages were delivered and hands back the exact list element
/// that failed.
pub fn send_all<T>(sender: &crossbeam_channel::Sender<T>, values: Vec<T>) -> (r: Result<
    usize,
    SendStopped<T>,
>)
    ensures
        r matches Ok(n) ==> n == values@.len(),
        r matches Err(e) ==> e.delivered < values@.len() && e.undelivered == values@[e.delivered as int],
{
    let ghost all = values@;
    let mut remaining = values;
    let total = remaining.len();
    let mut delivered: usize = 0;
    while remaining.len() > 0
        invariant
            all == values@,
            total == all.len(),
            delivered + remaining@.len() == all.len(),
            remaining@ == all.subrange(delivered as int, all.len() as int),
        decreases remaining@.len(),
    {
        let next = remaining.remove(0);
        match send(sender, next) {
            Ok(()) => {
                delivered = delivered + 1;
            },
            Err(NoReceivers(v)) => {
                return Err(SendStopped { delivered, undelivered: v });
            },
        }
    }
    Ok(delivered)
}

/// Receive until the channel closes, collecting every message in arrival
/// order. This is the receive-iteration idiom of an aggregating thread:
/// it returns exactly when the last sender has been dropped and the
/// buffer is empty, so forgotten sender clones are the only way to hang.
pub fn drain<T>(receiver: &crossbeam_channel::Receiver<T>) -> (items: Vec<T>)
{
    drain_raw(receiver)
}

/// What forwarding a fallible result to an error channel came to.
pub enum TryOutcome<T, E> {
    /// The result was a success; here is its value.
    Success(T),
    /// The result was a failure and the failure value was delivered on
    /// the error channel.
    Reported,
    /// The result was a failure and the error channel itself has no
    /// remaining receivers; the failure value is handed back.
    ReportFailed(E),
}

/// Evaluate a fallible result against an error-reporting channel.
///
/// A success value is yielded unchanged. A failure value is sent on
/// `errors` — the conventional pairing where the expression's error type
/// is the error channel's payload type — and the caller then performs its
/// escape action (return, continue, or similar) on seeing that no success
/// value came back. If the error channel's receivers are all gone, the
/// failure value comes back in [`TryOutcome::ReportFailed`], which a
/// caller treats as the fatal broken-pipe condition.
pub fn try_or_report<T, E>(errors: &crossbeam_channel::Sender<E>, result: Result<T, E>) -> (r:
    TryOutcome<T, E>)
    ensures
        result matches Ok(v) ==> r matches TryOutcome::Success(u) && u == v,
        r matches TryOutcome::Success(u) ==> result matches Ok(v) && v == u,
        result is Err ==> !(r is Success),
        r matches TryOutcome::ReportFailed(e) ==> result matches Err(e0) && e0 == e,
{
    match result {
        Ok(v) => TryOutcome::Success(v),
        Err(e) => match send(errors, e) {
            Ok(()) => TryOutcome::Reported,
            Err(NoReceivers(e)) => TryOutcome::ReportFailed(e),
        },
    }
}

/// Relies on `Clone for crossbeam_channel::Sender`: the clone is a new
/// handle onto the same channel, raising the channel's sender count.
pub assume_specification<T>[ <crossbeam_channel::Sender<T> as Clone>::clone ](
    sender: &crossbeam_channel::Sender<T>,
) -> crossbeam_channel::Sender<T>
;

/// Relies on `Clone for crossbeam_channel::Receiver`: the clone is a new
/// handle onto the same channel, raising the channel's receiver count.
pub assume_specification<T>[ <crossbeam_channel::Receiver<T> as Clone>::clone ](
    receiver: &crossbeam_channel::Receiver<T>,
) -> crossbeam_channel::Receiver<T>
;

/// `count` clones of the sender, one per worker to be spawned.
///
/// Each clone is a handle onto the same channel and keeps it open for
/// receiving until dropped; hand exactly one to each worker closure and
/// drop the original, so that the channel closes when the last worker
/// finishes.
pub fn sender_copies<T>(sender: &crossbeam_channel::Sender<T>, count: usize) -> (r: Vec<
    crossbeam_channel::Sender<T>,
>)
    ensures
        r@.len() == count,
{
    let mut out: Vec<crossbeam_channel::Sender<T>> = Vec::new();
    while out.len() < count
        invariant
            out@.len() <= count,
        decreases count - out@.len(),
    {
        out.push(sender.clone());
    }
    out
}

/// `count` clones of the receiver, one per worker to be spawned.
///
/// Each clone is a handle onto the same channel; messages are shared out
/// among the clones, each message going to exactly one of them.
pub fn receiver_copies<T>(receiver: &crossbeam_channel::Receiver<T>, count: usize) -> (r: Vec<
    crossbeam_channel::Receiver<T>,
>)
    ensures
        r@.len() == count,
{
    let mut out: Vec<crossbeam_channel::Receiver<T>> = Vec::new();
    while out.len() < count
        invariant
            out@.len() <= count,
        decreases count - out@.len(),
    {
        out.push(receiver.clone());
    }
    out
}

} // verus!
