use avgfilter::controller::{
    classify_event, is_terminal_event, BusEvent, CaptureSession, ConvertElement, EventAction,
    PipelineController, PipelineState, SetupError, SinkElement, SourceElement, StateChange,
};
use avgfilter::filter::AvgFilter;

fn state_change(el: &str) -> BusEvent {
    BusEvent::StateChanged(StateChange {
        element: String::from(el),
        previous: PipelineState::Ready,
        current: PipelineState::Playing,
    })
}

#[test]
fn run_stops_at_first_eos() {
    let mut c = PipelineController::new();
    let events = vec![
        state_change("src"),
        BusEvent::Other,
        BusEvent::Eos,
        state_change("sink"),
        BusEvent::Eos,
    ];
    let report = c.run(&events);
    assert_eq!(report.processed, 3);
    assert!(report.outcome.is_ok());
    assert_eq!(c.state, PipelineState::Null);
    assert_eq!(c.shutdowns, 1);
}

#[test]
fn run_stops_at_error_and_still_shuts_down() {
    let mut c = PipelineController::new();
    let events = vec![
        BusEvent::Other,
        BusEvent::Error(String::from("boom")),
        BusEvent::Eos,
    ];
    let report = c.run(&events);
    assert_eq!(report.processed, 2);
    match report.outcome {
        Err(e) => assert_eq!(e.message, "boom"),
        Ok(()) => panic!("an error event must surface failure"),
    }
    assert_eq!(c.state, PipelineState::Null);
    assert_eq!(c.shutdowns, 1);
}

#[test]
fn run_ignores_repeated_state_changes() {
    let mut c = PipelineController::new();
    let events = vec![
        state_change("a"),
        state_change("b"),
        state_change("c"),
        BusEvent::Eos,
    ];
    let report = c.run(&events);
    assert_eq!(report.processed, 4);
    assert!(report.outcome.is_ok());
    assert_eq!(c.shutdowns, 1);
}

#[test]
fn classify_event_decisions() {
    assert_eq!(classify_event(&BusEvent::Eos), EventAction::StopEos);
    assert_eq!(
        classify_event(&BusEvent::Error(String::from("x"))),
        EventAction::StopError
    );
    assert_eq!(classify_event(&state_change("e")), EventAction::Continue);
    assert_eq!(classify_event(&BusEvent::Other), EventAction::Continue);
}

#[test]
fn terminal_events_are_eos_and_error() {
    assert!(is_terminal_event(&BusEvent::Eos));
    assert!(is_terminal_event(&BusEvent::Error(String::from("x"))));
    assert!(!is_terminal_event(&state_change("e")));
    assert!(!is_terminal_event(&BusEvent::Other));
}

#[test]
fn acquire_source_takes_first_stream() {
    let session = CaptureSession {
        fd: 41,
        streams: vec![7, 9],
    };
    let src = PipelineController::acquire_source(&session).unwrap();
    assert_eq!(src.fd, 41);
    assert_eq!(src.node, 7);
}

#[test]
fn acquire_source_unavailable_without_streams() {
    let session = CaptureSession {
        fd: 41,
        streams: Vec::new(),
    };
    match PipelineController::acquire_source(&session) {
        Err(e) => assert_eq!(e, SetupError::SourceUnavailable),
        Ok(_) => panic!("a session without streams must be rejected"),
    }
}

#[test]
fn build_graph_links_all_pairs() {
    let source = PipelineController::acquire_source(&CaptureSession {
        fd: 3,
        streams: vec![12],
    })
    .unwrap();
    let verdicts = vec![true, true, true];
    let g = PipelineController::build_graph(
        source,
        AvgFilter::new(None),
        ConvertElement {},
        SinkElement {},
        &verdicts,
    )
    .unwrap();
    assert_eq!(g.source.fd, 3);
    assert_eq!(g.source.node, 12);
}

#[test]
fn build_graph_reports_first_bad_link() {
    let source = SourceElement { fd: 1, node: 2 };
    let verdicts = vec![true, false, false];
    match PipelineController::build_graph(
        source,
        AvgFilter::new(None),
        ConvertElement {},
        SinkElement {},
        &verdicts,
    ) {
        Err(SetupError::LinkError(i)) => assert_eq!(i, 1),
        _ => panic!("the first refused pair must be reported"),
    }
}

#[test]
fn build_graph_reports_leading_bad_link() {
    let source = SourceElement { fd: 1, node: 2 };
    let verdicts = vec![false, true, true];
    match PipelineController::build_graph(
        source,
        AvgFilter::new(None),
        ConvertElement {},
        SinkElement {},
        &verdicts,
    ) {
        Err(SetupError::LinkError(i)) => assert_eq!(i, 0),
        _ => panic!("the first refused pair must be reported"),
    }
}

#[test]
fn shutdown_drives_to_null() {
    let mut c = PipelineController::new();
    c.shutdown();
    assert_eq!(c.state, PipelineState::Null);
    assert_eq!(c.shutdowns, 1);
}
