//! The pipeline controller.
//!
//! It assembles the linear processing chain around the averaging filter,
//! drives the lifecycle state machine from `Null` to `Playing` and back, and
//! consumes the host runtime's bus events in arrival order until the first
//! terminal one. The host's own work — starting the capture session, judging
//! whether two capability templates can be linked, delivering events — enters
//! these functions as plain values; every decision taken on those values is
//! made here.

use vstd::prelude::*;

use crate::filter::AvgFilter;

verus! {

/// Lifecycle states of the processing graph, driven only by the controller.
#[derive(Clone, Copy, PartialEq, Eq, Structural, Debug)]
pub enum PipelineState {
    Null,
    Ready,
    Paused,
    Playing,
}

/// A state transition reported by the host for one element of the graph.
pub struct StateChange {
    /// Name of the element whose state changed.
    pub element: String,
    /// The state it left.
    pub previous: PipelineState,
    /// The state it entered.
    pub current: PipelineState,
}

/// One message from the host runtime's asynchronous bus.
pub enum BusEvent {
    /// End of stream: normal termination.
    Eos,
    /// A fatal runtime failure, with its diagnostic payload.
    Error(String),
    /// An element changed state; informational only.
    StateChanged(StateChange),
    /// Any other message kind; ignored.
    Other,
}

/// The events that end the wait loop: exactly end-of-stream and error.
pub open spec fn is_terminal(e: BusEvent) -> bool {
    e is Eos || e is Error
}

/// What the wait loop does with one bus event.
#[derive(Clone, Copy, PartialEq, Eq, Structural, Debug)]
pub enum EventAction {
    /// Keep waiting for the next event.
    Continue,
    /// Stop the loop: the stream ended normally.
    StopEos,
    /// Stop the loop: the stream failed.
    StopError,
}

/// Failures while assembling the graph, before the pipeline reaches Playing.
#[derive(Clone, Copy, PartialEq, Eq, Structural, Debug)]
pub enum SetupError {
    /// The capture session offered no stream to read from.
    SourceUnavailable,
    /// The host judged the capability templates of the adjacent element pair
    /// starting at this position incompatible; no later pair was tried.
    LinkError(usize),
}

/// A fatal Error event received from the bus while the pipeline was playing,
/// carrying the event's diagnostic payload.
pub struct RuntimeError {
    pub message: String,
}

/// An externally negotiated capture session: the OS descriptor equivalent
/// and the stream node identifiers the session offers.
pub struct CaptureSession {
    pub fd: i32,
    pub streams: Vec<u32>,
}

/// The source element, configured with the capture handle it reads from.
#[derive(Clone, Copy, PartialEq, Eq, Structural, Debug)]
pub struct SourceElement {
    pub fd: i32,
    pub node: u32,
}

/// The external color-space converter downstream of the filter.
pub struct ConvertElement {}

/// The external display sink at the end of the chain.
pub struct SinkElement {}

/// The linear processing chain, built once at startup: source, averaging
/// transform, converter and sink, linked in exactly this order.
pub struct PipelineGraph {
    pub source: SourceElement,
    pub transform: AvgFilter,
    pub convert: ConvertElement,
    pub sink: SinkElement,
}

/// Outcome of one full run: how many bus events were consumed before the
/// loop stopped, and whether the stream ended normally or failed.
pub struct RunReport {
    pub processed: usize,
    pub outcome: Result<(), RuntimeError>,
}

/// Decide what the wait loop does with one bus event: stop on end-of-stream,
/// stop and fail on an error, keep waiting on anything else.
pub fn classify_event(e: &BusEvent) -> (a: EventAction)
    ensures
        a == EventAction::StopEos <==> e is Eos,
        a == EventAction::StopError <==> e is Error,
        a == EventAction::Continue <==> !is_terminal(*e),
{
    match e {
        BusEvent::Eos => EventAction::StopEos,
        BusEvent::Error(_) => EventAction::StopError,
        BusEvent::StateChanged(_) => EventAction::Continue,
        BusEvent::Other => EventAction::Continue,
    }
}

/// Whether this event ends the wait loop.
pub fn is_terminal_event(e: &BusEvent) -> (b: bool)
    ensures
        b == is_terminal(*e),
{
    match classify_event(e) {
        EventAction::Continue => false,
        EventAction::StopEos => true,
        EventAction::StopError => true,
    }
}

/// Builds the element graph, drives the lifecycle state machine and consumes
/// the bus event stream, guaranteeing exactly one teardown per run.
pub struct PipelineController {
    /// Current lifecycle state of the graph.
    pub state: PipelineState,
    /// How many times teardown has run.
    pub shutdowns: u64,
}

impl PipelineController {
    /// A fresh controller: the graph starts in `Null` and has never been
    /// torn down.
    pub fn new() -> (c: PipelineController)
        ensures
            c.state == PipelineState::Null,
            c.shutdowns == 0,
    {
        PipelineController { state: PipelineState::Null, shutdowns: 0 }
    }

    /// Construct the source element from an externally obtained capture
    /// session, configured with its descriptor and its first stream node.
    /// A session without any stream yields `SourceUnavailable`.
    pub fn acquire_source(session: &CaptureSession) -> (r: Result<SourceElement, SetupError>)
        ensures
            session.streams@.len() == 0 <==> r is Err,
            r is Err ==> r == Err::<SourceElement, SetupError>(SetupError::SourceUnavailable),
            r matches Ok(src) ==> src.fd == session.fd && src.node == session.streams@[0],
    {
        if session.streams.len() == 0 {
            Err(SetupError::SourceUnavailable)
        } else {
            Ok(SourceElement { fd: session.fd, node: session.streams[0] })
        }
    }

    /// Link the four elements into one linear chain in the stated order.
    /// `link_verdicts[i]` is the host runtime's judgment of the adjacent pair
    /// starting at position `i`: the controller sequences the links and takes
    /// the first failure, but performs no format negotiation itself. The
    /// chain has four elements, hence three adjacent pairs.
    pub fn build_graph(
        source: SourceElement,
        transform: AvgFilter,
        convert: ConvertElement,
        sink: SinkElement,
        link_verdicts: &Vec<bool>,
    ) -> (r: Result<PipelineGraph, SetupError>)
        requires
            link_verdicts@.len() == 3,
        ensures
            r is Ok <==> (forall|i: int| 0 <= i < 3 ==> link_verdicts@[i]),
            r matches Ok(g) ==> g.source == source && g.transform == transform && g.convert
                == convert && g.sink == sink,
            r matches Err(e) ==> e matches SetupError::LinkError(i) && i < 3
                && !link_verdicts@[i as int] && (forall|j: int| 0 <= j < i ==> link_verdicts@[j]),
    {
        let mut i: usize = 0;
        while i < 3
            invariant
                i <= 3,
                link_verdicts@.len() == 3,
                forall|j: int| 0 <= j < i ==> link_verdicts@[j],
            decreases 3 - i,
        {
            if !link_verdicts[i] {
                return Err(SetupError::LinkError(i));
            }
            i = i + 1;
        }
        Ok(PipelineGraph { source, transform, convert, sink })
    }

    /// Tear the pipeline down: unconditionally drive the graph to `Null`,
    /// releasing the capture and device resources, whatever state it was in.
    pub fn shutdown(&mut self)
        requires
            old(self).shutdowns < u64::MAX,
        ensures
            final (self).state == PipelineState::Null,
            final (self).shutdowns == old(self).shutdowns + 1,
    {
        self.state = PipelineState::Null;
        self.shutdowns = self.shutdowns + 1;
    }

    /// Drive the pipeline from `Null` to `Playing`, consume `events` in
    /// arrival order until the first end-of-stream or error, then tear down
    /// unconditionally — exactly once, on the normal and on the failing path
    /// alike. The sequence stands for what the bus delivers while the loop
    /// waits; the wait blocks until a terminal event arrives, so a completed
    /// run presupposes one.
    pub fn run(&mut self, events: &Vec<BusEvent>) -> (r: RunReport)
        requires
            old(self).state == PipelineState::Null,
            old(self).shutdowns < u64::MAX,
            exists|i: int| 0 <= i < events@.len() && is_terminal(events@[i]),
        ensures
            final (self).state == PipelineState::Null,
            final (self).shutdowns == old(self).shutdowns + 1,
            1 <= r.processed <= events@.len(),
            is_terminal(events@[r.processed - 1]),
            forall|j: int| 0 <= j < r.processed - 1 ==> !is_terminal(events@[j]),
            events@[r.processed - 1] is Eos ==> r.outcome is Ok,
            events@[r.processed - 1] matches BusEvent::Error(m) ==> r.outcome matches Err(e)
                && e.message@ == m@,
    {
        self.state = PipelineState::Playing;
        let n = events.len();
        let mut i: usize = 0;
        while !is_terminal_event(&events[i])
            invariant
                n == events@.len(),
                i < n,
                forall|j: int| 0 <= j < i ==> !is_terminal(events@[j]),
                exists|k: int| i <= k < n && is_terminal(events@[k]),
            decreases n - i,
        {
            i = i + 1;
            proof {
                let k = choose|k: int| i - 1 <= k < n && is_terminal(events@[k]);
                assert(i <= k < n && is_terminal(events@[k]));
            }
        }
        let outcome: Result<(), RuntimeError> = match &events[i] {
            BusEvent::Eos => Ok(()),
            BusEvent::Error(m) => Err(RuntimeError { message: m.clone() }),
            BusEvent::StateChanged(_) => {
                proof {
                    assert(false);
                }
                Ok(())
            },
            BusEvent::Other => {
                proof {
                    assert(false);
                }
                Ok(())
            },
        };
        self.shutdown();
        RunReport { processed: i + 1, outcome }
    }
}

} // verus!
