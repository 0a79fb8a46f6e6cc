//! A blocking select loop over several receivers.
//!
//! This is the replacement for a hand-written loop of repeated
//! non-blocking polls across several receivers. A [`SelectSet`] holds the
//! channels still being polled; each [`SelectSet::step`] blocks until one
//! of them is ready, completes one receive on it, and reports the event:
//! a message to dispatch, a channel retired because it closed, or the end
//! of the loop once every channel is closed and drained. The caller
//! drives the loop — `step` until [`SelectEvent::Drained`] — and pairs
//! each dispatched message's channel index with its own handler.
//!
//! Which of several simultaneously ready channels a step picks is the
//! underlying select primitive's policy — a uniformly random choice among
//! the ready ones — and nothing beyond "some ready channel each step" is
//! promised here.

use vstd::prelude::*;

verus! {

/// Relies on `crossbeam_channel::Select`: registers every receiver of the
/// list, blocks until one of them is ready, and completes the receive on
/// it. The result's index names the chosen receiver; its message is
/// `Some` when one arrived and `None` when that receiver's channel is
/// empty with every sender dropped (a closed channel counts as ready).
/// `Select::select` panics when nothing was registered, so the list may
/// not be empty.
#[verifier::external_body]
fn select_raw<T>(receivers: &Vec<crossbeam_channel::Receiver<T>>) -> (r: (usize, Option<T>))
    requires
        receivers@.len() >= 1,
    ensures
        r.0 < receivers@.len(),
{
    let mut sel = crossbeam_channel::Select::new();
    for receiver in receivers.iter() {
        sel.recv(receiver);
    }
    let oper = sel.select();
    let index = oper.index();
    match oper.recv(&receivers[index]) {
        Ok(v) => (index, Some(v)),
        Err(crossbeam_channel::RecvError) => (index, None),
    }
}

/// One step of a select loop over a bare list: block until some receiver
/// of the list is ready and complete one receive on it.
///
/// The result's index is a position in `receivers`. A `Some` message was
/// taken from that channel; a `None` says that channel is closed and
/// drained, and the caller should stop polling it (a closed channel stays
/// ready, so polling it again would spin). [`SelectSet`] does that
/// bookkeeping; this single step is for callers that keep their own.
pub fn select_one<T>(receivers: &Vec<crossbeam_channel::Receiver<T>>) -> (r: (usize, Option<T>))
    requires
        receivers@.len() >= 1,
    ensures
        r.0 < receivers@.len(),
{
    select_raw(receivers)
}

/// One event of the select loop, as reported by [`SelectSet::step`].
pub enum SelectEvent<T> {
    /// A message arrived on the channel that stood at this index in the
    /// original list; dispatch it to that channel's handler.
    Dispatch(usize, T),
    /// The channel that stood at this index in the original list was
    /// observed closed and drained; it will not be polled again.
    Retired(usize),
    /// Every channel of the set is closed and drained: the loop is over.
    Drained,
}

/// The channels a select loop still polls.
///
/// Built from the loop's ordered list of receivers; events name channels
/// by their index in that original list, so the caller's handlers stay
/// paired with their channels as others retire.
#[verifier::reject_recursive_types(T)]
pub struct SelectSet<T> {
    open: Vec<crossbeam_channel::Receiver<T>>,
    origin: Vec<usize>,
    total: usize,
}

impl<T> SelectSet<T> {
    #[verifier::type_invariant]
    spec fn wf(self) -> bool {
        &&& self.origin@.len() == self.open@.len()
        &&& forall|j: int| 0 <= j < self.origin@.len() ==> (#[trigger] self.origin@[j]) < self.total
    }

    /// How many channels of the set are still being polled.
    pub closed spec fn remaining(self) -> nat {
        self.open@.len()
    }

    /// How many channels the set was built from.
    pub closed spec fn source_count(self) -> nat {
        self.total as nat
    }

    /// The channels still being polled, each named by its index in the
    /// list the set was built from: position `p` of this sequence is the
    /// original index of the channel the polled set holds at `p`.
    pub closed spec fn origins(self) -> Seq<usize> {
        self.origin@
    }

    /// Start a select loop over this ordered list of channels.
    ///
    /// Every channel starts out polled under its own index: the origin
    /// map is the identity sequence over the list.
    pub fn new(receivers: Vec<crossbeam_channel::Receiver<T>>) -> (s: Self)
        ensures
            s.remaining() == receivers@.len(),
            s.source_count() == receivers@.len(),
            s.origins().len() == receivers@.len(),
            forall|j: int| 0 <= j < s.origins().len() ==> (#[trigger] s.origins()[j]) == j,
    {
        let total = receivers.len();
        let mut origin: Vec<usize> = Vec::new();
        let mut k: usize = 0;
        while k < total
            invariant
                origin@.len() == k,
                k <= total,
                forall|j: int| 0 <= j < k ==> (#[trigger] origin@[j]) == j,
            decreases total - k,
        {
            origin.push(k);
            k = k + 1;
        }
        SelectSet { open: receivers, origin, total }
    }

    /// How many channels are still being polled, as a count.
    pub fn remaining_count(&self) -> (n: usize)
        ensures
            n == self.remaining(),
    {
        self.open.len()
    }

    /// One step of the select loop.
    ///
    /// With no channel left to poll it reports [`SelectEvent::Drained`]
    /// at once, never blocking — and that is the only case in which it
    /// does, so a loop that steps until `Drained` terminates once every
    /// channel is closed and drained: each channel retires at most once,
    /// and a retired channel is never polled again. Otherwise it blocks
    /// until some polled channel is ready: a message is dispatched with
    /// its channel's original index, and a channel observed closed is
    /// retired from the polled set.
    pub fn step(&mut self) -> (event: SelectEvent<T>)
        ensures
            final(self).source_count() == old(self).source_count(),
            event matches SelectEvent::Dispatch(idx, _) ==> idx < final(self).source_count()
                && final(self).remaining() == old(self).remaining()
                && final(self).origins() == old(self).origins()
                && old(self).origins().contains(idx),
            event matches SelectEvent::Retired(idx) ==> idx < final(self).source_count()
                && old(self).remaining() >= 1
                && final(self).remaining() == old(self).remaining() - 1
                && (exists|p: int|
                    0 <= p < old(self).origins().len() && old(self).origins()[p] == idx
                        && final(self).origins() == old(self).origins().remove(p)),
            event is Drained <==> old(self).remaining() == 0,
            event is Drained ==> final(self).remaining() == 0
                && final(self).origins() == old(self).origins(),
    {
        proof {
            use_type_invariant(&*self);
        }
        if self.open.len() == 0 {
            return SelectEvent::Drained;
        }
        let (pos, message) = select_raw(&self.open);
        let ghost msg = message;
        let event = self.settle(pos, message);
        proof {
            if msg is Some {
                assert(old(self).origins()[pos as int] == event->Dispatch_0);
                assert(old(self).origins().contains(event->Dispatch_0));
            } else {
                assert(old(self).origins()[pos as int] == event->Retired_0);
                assert(self.origins() == old(self).origins().remove(pos as int));
            }
        }
        event
    }

    /// Turn one completed select — the polled position and what the
    /// receive there returned — into the loop's event. This holds for
    /// every value of the select result: a message is dispatched as it
    /// came, paired with the original index of the channel polled at
    /// `pos`, and a channel whose receive said closed is retired under
    /// its original index, with exactly its position dropped from the
    /// polled set.
    fn settle(&mut self, pos: usize, message: Option<T>) -> (event: SelectEvent<T>)
        requires
            pos < old(self).origins().len(),
        ensures
            final(self).source_count() == old(self).source_count(),
            message matches Some(v) ==> event == SelectEvent::Dispatch(
                old(self).origins()[pos as int],
                v,
            ) && final(self).origins() == old(self).origins()
                && final(self).remaining() == old(self).remaining(),
            message is None ==> event == SelectEvent::<T>::Retired(old(self).origins()[pos as int])
                && final(self).origins() == old(self).origins().remove(pos as int)
                && final(self).remaining() == old(self).remaining() - 1,
    {
        proof {
            use_type_invariant(&*self);
        }
        match message {
            Some(v) => SelectEvent::Dispatch(self.origin[pos], v),
            None => {
                let idx = self.origin[pos];
                let mut taken = SelectSet { open: Vec::new(), origin: Vec::new(), total: self.total };
                core::mem::swap(&mut taken, self);
                let SelectSet { mut open, mut origin, total } = taken;
                open.remove(pos);
                origin.remove(pos);
                *self = SelectSet { open, origin, total };
                SelectEvent::Retired(idx)
            },
        }
    }
}

} // verus!
