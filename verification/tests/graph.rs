use camera_feed::format::FrameFormat;
use camera_feed::frame::WindowGeometry;
use camera_feed::graph::{
    CapsConstraint, CaptureGraph, GraphConstructionError, PipelineError, PipelineState, Stage,
    StageReport,
};

fn all_good() -> StageReport {
    StageReport { source: true, convert: true, constrain: true, sink: true, linked: true }
}

#[test]
fn built_graph_starts_in_null() {
    let graph = CaptureGraph::build("/dev/video0".to_string(), 640, 480, all_good()).unwrap();
    assert_eq!(graph.state(), PipelineState::Null);
    assert!(!graph.pulls_samples());
    assert_eq!(graph.device_path(), "/dev/video0");
    assert_eq!(graph.geometry(), WindowGeometry { width: 640, height: 480 });
}

#[test]
fn constraint_is_rgb_at_target_resolution() {
    let graph = CaptureGraph::build("/dev/video2".to_string(), 1280, 720, all_good()).unwrap();
    assert_eq!(
        graph.constraint(),
        CapsConstraint { format: FrameFormat::Rgb, width: 1280, height: 720 }
    );
}

#[test]
fn missing_stage_fails_construction() {
    let cases = [
        (StageReport { source: false, ..all_good() }, Stage::Source),
        (StageReport { convert: false, ..all_good() }, Stage::Convert),
        (StageReport { constrain: false, ..all_good() }, Stage::Constrain),
        (StageReport { sink: false, ..all_good() }, Stage::Sink),
    ];
    for (report, stage) in cases {
        let outcome = CaptureGraph::build("/dev/video0".to_string(), 640, 480, report);
        assert_eq!(outcome.err(), Some(GraphConstructionError::StageUnavailable(stage)));
    }
}

#[test]
fn first_missing_stage_is_named() {
    let report =
        StageReport { source: true, convert: false, constrain: true, sink: false, linked: false };
    let outcome = CaptureGraph::build("/dev/video0".to_string(), 640, 480, report);
    assert_eq!(outcome.err(), Some(GraphConstructionError::StageUnavailable(Stage::Convert)));
    let nothing =
        StageReport { source: false, convert: false, constrain: false, sink: false, linked: false };
    let outcome = CaptureGraph::build("/dev/video0".to_string(), 640, 480, nothing);
    assert_eq!(outcome.err(), Some(GraphConstructionError::StageUnavailable(Stage::Source)));
}

#[test]
fn rejected_link_fails_construction() {
    let report = StageReport { linked: false, ..all_good() };
    let outcome = CaptureGraph::build("/dev/video0".to_string(), 640, 480, report);
    assert_eq!(outcome.err(), Some(GraphConstructionError::LinkRejected));
}

#[test]
fn accepted_start_plays() {
    let mut graph = CaptureGraph::build("/dev/video0".to_string(), 640, 480, all_good()).unwrap();
    assert_eq!(graph.start(true), Ok(()));
    assert_eq!(graph.state(), PipelineState::Playing);
    assert!(graph.pulls_samples());
    assert_eq!(graph.device_path(), "/dev/video0");
    assert_eq!(graph.geometry(), WindowGeometry::new(640, 480));
}

#[test]
fn refused_start_is_a_state_transition_error() {
    let mut graph = CaptureGraph::build("/dev/video9".to_string(), 640, 480, all_good()).unwrap();
    assert_eq!(graph.start(false), Err(PipelineError::StateTransitionError));
    assert_eq!(graph.state(), PipelineState::Null);
    assert!(!graph.pulls_samples());
}

#[test]
fn refused_restart_leaves_a_playing_pipeline_playing() {
    let mut graph = CaptureGraph::build("/dev/video0".to_string(), 640, 480, all_good()).unwrap();
    assert_eq!(graph.start(true), Ok(()));
    assert_eq!(graph.start(false), Err(PipelineError::StateTransitionError));
    assert_eq!(graph.state(), PipelineState::Playing);
}

#[test]
fn stop_returns_to_null() {
    let mut graph = CaptureGraph::build("/dev/video0".to_string(), 640, 480, all_good()).unwrap();
    graph.start(true).unwrap();
    graph.stop();
    assert_eq!(graph.state(), PipelineState::Null);
    assert!(!graph.pulls_samples());
    assert_eq!(graph.device_path(), "/dev/video0");
    assert_eq!(graph.geometry(), WindowGeometry::new(640, 480));
}

#[test]
fn stop_is_safe_when_start_never_succeeded() {
    let mut graph = CaptureGraph::build("/dev/video0".to_string(), 640, 480, all_good()).unwrap();
    graph.stop();
    assert_eq!(graph.state(), PipelineState::Null);
    assert!(graph.start(false).is_err());
    graph.stop();
    graph.stop();
    assert_eq!(graph.state(), PipelineState::Null);
}

#[test]
fn stopped_graph_can_be_started_again() {
    let mut graph = CaptureGraph::build("/dev/video0".to_string(), 640, 480, all_good()).unwrap();
    graph.start(true).unwrap();
    graph.stop();
    assert_eq!(graph.start(true), Ok(()));
    assert_eq!(graph.state(), PipelineState::Playing);
}

#[test]
fn stages_are_wired_in_sequence() {
    assert_eq!(Stage::Source.downstream(), Some(Stage::Convert));
    assert_eq!(Stage::Convert.downstream(), Some(Stage::Constrain));
    assert_eq!(Stage::Constrain.downstream(), Some(Stage::Sink));
    assert_eq!(Stage::Sink.downstream(), None);
}

#[test]
fn window_geometry_keeps_its_size() {
    let geometry = WindowGeometry::new(800, 600);
    assert_eq!(geometry.width, 800);
    assert_eq!(geometry.height, 600);
}
