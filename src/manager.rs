//! The multiplexer behind `read`: one ordered queue fed by every capture
//! source, and a cell that keeps the first fatal capture failure.
//!
//! A recorded failure preempts every later read, queued events included.
//! Once every source has ended with no failure and the queue is drained,
//! every read reports that all sources are closed, and that state is final.
use vstd::prelude::*;

use std::collections::VecDeque;

use crate::error::InputError;
use crate::event::Event;

verus! {

/// What a read yields now.
#[derive(Clone, Copy, Debug, PartialEq, Eq)]
pub enum ReadStep {
    /// The next event, or the error that ends reading.
    Ready(Result<Event, InputError>),
    /// Nothing yet: sources are still running and the queue is empty.
    Pending,
}

/// The state of an [`EventManager`] as mathematical values.
pub struct ManagerView {
    /// Events received and not yet read, oldest first.
    pub queue: Seq<Event>,
    /// The first fatal capture failure, once one has been reported.
    pub error: Option<InputError>,
    /// Capture sources that have not ended yet.
    pub open_sources: nat,
}

/// One operation on the multiplexer, for stating what holds across calls.
pub enum ManagerOp {
    Push(Event),
    SourceEnded(Result<(), InputError>),
    Read,
}

/// What a read of the state `v` yields.
pub open spec fn read_result(v: ManagerView) -> ReadStep {
    match v.error {
        Some(e) => ReadStep::Ready(Err(e)),
        None => if v.queue.len() > 0 {
            ReadStep::Ready(Ok(v.queue[0]))
        } else if v.open_sources == 0 {
            ReadStep::Ready(Err(InputError::AllSourcesClosed))
        } else {
            ReadStep::Pending
        },
    }
}

/// The state after a read of `v`: only a delivered event leaves it.
pub open spec fn after_read(v: ManagerView) -> ManagerView {
    if v.error is None && v.queue.len() > 0 {
        ManagerView { queue: v.queue.drop_first(), ..v }
    } else {
        v
    }
}

/// The state after a source delivered `e`; once every source has ended
/// nothing more is taken in.
pub open spec fn after_push(v: ManagerView, e: Event) -> ManagerView {
    if v.open_sources == 0 {
        v
    } else {
        ManagerView { queue: v.queue.push(e), ..v }
    }
}

/// The state after a source ended with `outcome`: the first failure is kept.
/// Once every source has ended nothing changes any more.
pub open spec fn after_source_ended(v: ManagerView, outcome: Result<(), InputError>) -> ManagerView {
    if v.open_sources == 0 {
        v
    } else {
        ManagerView {
            open_sources: (v.open_sources - 1) as nat,
            error: match (v.error, outcome) {
                (None, Err(e)) => Some(e),
                _ => v.error,
            },
            ..v
        }
    }
}

/// The state after `op`.
pub open spec fn after_op(v: ManagerView, op: ManagerOp) -> ManagerView {
    match op {
        ManagerOp::Push(e) => after_push(v, e),
        ManagerOp::SourceEnded(outcome) => after_source_ended(v, outcome),
        ManagerOp::Read => after_read(v),
    }
}

/// The state after the operations `ops`, in order.
pub open spec fn after_ops(v: ManagerView, ops: Seq<ManagerOp>) -> ManagerView
    decreases ops.len(),
{
    if ops.len() == 0 {
        v
    } else {
        after_ops(after_op(v, ops[0]), ops.drop_first())
    }
}

/// What `n` reads in a row from `v` yield, in order.
pub open spec fn reads(v: ManagerView, n: nat) -> Seq<ReadStep>
    decreases n,
{
    if n == 0 {
        Seq::empty()
    } else {
        seq![read_result(v)] + reads(after_read(v), (n - 1) as nat)
    }
}

/// Merges the events of the capture sources and reports their first failure.
pub struct EventManager {
    queue: VecDeque<Event>,
    error: Option<InputError>,
    open_sources: u64,
}

impl View for EventManager {
    type V = ManagerView;

    closed spec fn view(&self) -> ManagerView {
        ManagerView {
            queue: self.queue@,
            error: self.error,
            open_sources: self.open_sources as nat,
        }
    }
}

impl EventManager {
    /// A manager for `sources` capture sources, made only where the
    /// synthetic-input event source was acquired; otherwise nothing is made
    /// and no source may be started.
    pub fn new(event_source_acquired: bool, sources: u64) -> (r: Result<EventManager, InputError>)
        ensures
            !event_source_acquired ==> r == Err::<EventManager, InputError>(InputError::EventSource),
            event_source_acquired ==> (r matches Ok(m) && m@ == (ManagerView {
                queue: Seq::empty(),
                error: None,
                open_sources: sources as nat,
            })),
    {
        if !event_source_acquired {
            return Err(InputError::EventSource);
        }
        Ok(EventManager { queue: VecDeque::new(), error: None, open_sources: sources })
    }

    /// Queues an event delivered by a capture source; after every source
    /// has ended the event is ignored.
    pub fn push(&mut self, e: Event)
        ensures
            final(self)@ == after_push(old(self)@, e),
    {
        if self.open_sources > 0 {
            self.queue.push_back(e);
        }
    }

    /// Records that a capture source ended, and how; only the first failure
    /// is kept. With no source left open it has no effect.
    pub fn source_ended(&mut self, outcome: Result<(), InputError>)
        ensures
            final(self)@ == after_source_ended(old(self)@, outcome),
    {
        if self.open_sources == 0 {
            return;
        }
        self.open_sources = self.open_sources - 1;
        if self.error.is_none() {
            match outcome {
                Err(e) => {
                    self.error = Some(e);
                },
                Ok(()) => {},
            }
        }
    }

    /// The recorded failure first, then the oldest queued event, then
    /// `AllSourcesClosed` once no source is left; `Pending` otherwise.
    pub fn read(&mut self) -> (r: ReadStep)
        ensures
            r == read_result(old(self)@),
            final(self)@ == after_read(old(self)@),
    {
        match self.error {
            Some(e) => {
                return ReadStep::Ready(Err(e));
            },
            None => {},
        }
        match self.queue.pop_front() {
            Some(e) => {
                proof {
                    assert(self.queue@ =~= old(self)@.queue.drop_first());
                }
                ReadStep::Ready(Ok(e))
            },
            None => if self.open_sources == 0 {
                ReadStep::Ready(Err(InputError::AllSourcesClosed))
            } else {
                ReadStep::Pending
            },
        }
    }
}

/// Once a failure is recorded it stays, whatever follows, and every read
/// after it yields that failure, however many events were queued before it.
pub proof fn lemma_error_preempts(v: ManagerView, ops: Seq<ManagerOp>)
    requires
        v.error is Some,
    ensures
        after_ops(v, ops).error == v.error,
        read_result(after_ops(v, ops)) == ReadStep::Ready(Err(v.error->0)),
    decreases ops.len(),
{
    if ops.len() > 0 {
        lemma_error_preempts(after_op(v, ops[0]), ops.drop_first());
    }
}

/// With every source ended and no failure, reads yield the queued events in
/// order and then `AllSourcesClosed`, on that read and on every later one.
pub proof fn lemma_closed_after_drain(v: ManagerView, extra: nat)
    requires
        v.error is None,
        v.open_sources == 0,
    ensures
        reads(v, v.queue.len() + extra) == Seq::new(v.queue.len(), |i: int| ReadStep::Ready(Ok(v.queue[i])))
            + Seq::new(extra, |i: int| ReadStep::Ready(Err(InputError::AllSourcesClosed))),
    decreases v.queue.len() + extra,
{
    let n = v.queue.len() + extra;
    if n == 0 {
        assert(Seq::new(0, |i: int| ReadStep::Ready(Ok(v.queue[i]))) =~= Seq::<ReadStep>::empty());
        assert(Seq::new(0, |i: int| ReadStep::Ready(Err(InputError::AllSourcesClosed)))
            =~= Seq::<ReadStep>::empty());
    } else if v.queue.len() > 0 {
        let w = after_read(v);
        lemma_closed_after_drain(w, extra);
        assert(reads(v, n) == seq![read_result(v)] + reads(w, (n - 1) as nat));
        assert(seq![read_result(v)] + (Seq::new(w.queue.len(), |i: int| ReadStep::Ready(Ok(w.queue[i])))
            + Seq::new(extra, |i: int| ReadStep::Ready(Err(InputError::AllSourcesClosed))))
            =~= Seq::new(v.queue.len(), |i: int| ReadStep::Ready(Ok(v.queue[i])))
            + Seq::new(extra, |i: int| ReadStep::Ready(Err(InputError::AllSourcesClosed))));
    } else {
        let m = (extra - 1) as nat;
        lemma_closed_after_drain(v, m);
        assert(after_read(v) == v);
        assert(reads(v, n) == seq![read_result(v)] + reads(v, m));
        assert(Seq::new(0, |i: int| ReadStep::Ready(Ok(v.queue[i]))) =~= Seq::<ReadStep>::empty());
        assert(seq![read_result(v)] + (Seq::<ReadStep>::empty()
            + Seq::new(m, |i: int| ReadStep::Ready(Err(InputError::AllSourcesClosed))))
            =~= Seq::<ReadStep>::empty()
            + Seq::new(extra, |i: int| ReadStep::Ready(Err(InputError::AllSourcesClosed))));
    }
}

/// Once every source has ended with no failure and the queue is drained,
/// the state no longer changes, whatever follows, and every read yields
/// `AllSourcesClosed`.
pub proof fn lemma_closed_is_terminal(v: ManagerView, ops: Seq<ManagerOp>)
    requires
        v.error is None,
        v.open_sources == 0,
        v.queue.len() == 0,
    ensures
        after_ops(v, ops) == v,
        read_result(after_ops(v, ops)) == ReadStep::Ready(Err(InputError::AllSourcesClosed)),
    decreases ops.len(),
{
    if ops.len() > 0 {
        assert(after_op(v, ops[0]) == v);
        lemma_closed_is_terminal(v, ops.drop_first());
    }
}

} // verus!
