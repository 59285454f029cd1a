//! The capture graph: four stages wired in sequence, and the lifecycle of
//! the pipeline they form.

use vstd::prelude::*;
use crate::converter::convert_spec;
use crate::format::FrameFormat;
use crate::frame::{FrameView, WindowGeometry};

verus! {

/// The lifecycle states of a capture pipeline.
#[derive(Clone, Copy, Debug, PartialEq, Eq, Structural)]
pub enum PipelineState {
    /// Nothing is allocated and the device is released.
    Null,
    /// Resources are allocated; no data flows.
    Ready,
    /// Data flow is prepared and held.
    Paused,
    /// Frames are being captured.
    Playing,
}

/// The stages of the acquisition pipeline, in the order in which data passes
/// through them.
#[derive(Clone, Copy, Debug, PartialEq, Eq, Structural)]
pub enum Stage {
    /// The capture device.
    Source,
    /// Color-space conversion.
    Convert,
    /// The filter that admits only the negotiated format and resolution.
    Constrain,
    /// The sink from which the application pulls samples.
    Sink,
}

impl Stage {
    /// The stage that a stage feeds, if any.
    pub open spec fn spec_downstream(self) -> Option<Stage> {
        match self {
            Stage::Source => Some(Stage::Convert),
            Stage::Convert => Some(Stage::Constrain),
            Stage::Constrain => Some(Stage::Sink),
            Stage::Sink => None,
        }
    }

    /// Returns the stage that this stage is linked to, or `None` for the sink.
    pub fn downstream(&self) -> (next: Option<Stage>)
        ensures
            next == self.spec_downstream(),
    {
        match self {
            Stage::Source => Some(Stage::Convert),
            Stage::Convert => Some(Stage::Constrain),
            Stage::Constrain => Some(Stage::Sink),
            Stage::Sink => None,
        }
    }
}

/// What the runtime reported while the stages were instantiated and linked.
#[derive(Clone, Copy, Debug, PartialEq, Eq, Structural)]
pub struct StageReport {
    /// The capture device stage was created.
    pub source: bool,
    /// The color-space conversion stage was created.
    pub convert: bool,
    /// The format constraint stage was created.
    pub constrain: bool,
    /// The sink was created.
    pub sink: bool,
    /// The four stages were linked in sequence.
    pub linked: bool,
}

impl StageReport {
    /// The first stage, in pipeline order, that was not created.
    pub open spec fn first_missing(self) -> Option<Stage> {
        if !self.source {
            Some(Stage::Source)
        } else if !self.convert {
            Some(Stage::Convert)
        } else if !self.constrain {
            Some(Stage::Constrain)
        } else if !self.sink {
            Some(Stage::Sink)
        } else {
            None
        }
    }
}

/// Why a capture graph could not be constructed.
#[derive(Clone, Copy, Debug, PartialEq, Eq, Structural)]
pub enum GraphConstructionError {
    /// The given stage could not be instantiated.
    StageUnavailable(Stage),
    /// The stages exist but could not be linked in sequence.
    LinkRejected,
}

/// Why a pipeline did not reach the state asked for.
#[derive(Clone, Copy, Debug, PartialEq, Eq, Structural)]
pub enum PipelineError {
    /// The device could not be opened, or the negotiated format was rejected
    /// downstream.
    StateTransitionError,
}

/// The format and resolution to which the constraint stage and the sink are
/// set.
#[derive(Clone, Copy, Debug, PartialEq, Eq, Structural)]
pub struct CapsConstraint {
    /// The only pixel layout admitted.
    pub format: FrameFormat,
    /// The only width admitted.
    pub width: u32,
    /// The only height admitted.
    pub height: u32,
}

impl CapsConstraint {
    /// Tells whether a frame declares the layout and resolution that the
    /// constraint admits.
    pub open spec fn admits(self, frame: FrameView) -> bool {
        &&& frame.format == self.format
        &&& frame.width == self.width
        &&& frame.height == self.height
    }
}

/// What construction makes of a report: the first stage that is missing, in
/// pipeline order, is named; with all four present a failed link is named;
/// otherwise construction succeeds.
pub open spec fn build_outcome(report: StageReport) -> Result<(), GraphConstructionError> {
    match report.first_missing() {
        Some(stage) => Err(GraphConstructionError::StageUnavailable(stage)),
        None => if report.linked {
            Ok(())
        } else {
            Err(GraphConstructionError::LinkRejected)
        },
    }
}

/// A capture pipeline of four linked stages, with its device, its fixed
/// resolution and its lifecycle state.
#[derive(Debug)]
pub struct CaptureGraph {
    device_path: String,
    geometry: WindowGeometry,
    state: PipelineState,
}

/// What a capture graph holds, as plain values.
pub struct GraphView {
    pub device_path: Seq<char>,
    pub geometry: WindowGeometry,
    pub state: PipelineState,
}

impl GraphView {
    /// The constraint negotiated at construction: packed RGB at the target
    /// resolution.
    pub open spec fn constraint(self) -> CapsConstraint {
        CapsConstraint {
            format: FrameFormat::Rgb,
            width: self.geometry.width,
            height: self.geometry.height,
        }
    }
}

impl View for CaptureGraph {
    type V = GraphView;

    closed spec fn view(&self) -> GraphView {
        GraphView { device_path: self.device_path@, geometry: self.geometry, state: self.state }
    }
}

impl CaptureGraph {
    /// Constructs the graph for a device and a target resolution from the
    /// runtime's report on its four stages.
    ///
    /// The graph starts in `Null`. Construction fails when a stage could not
    /// be instantiated or the stages could not be linked.
    pub fn build(
        device_path: String,
        target_width: u32,
        target_height: u32,
        report: StageReport,
    ) -> (outcome: Result<CaptureGraph, GraphConstructionError>)
        ensures
            match outcome {
                Ok(graph) => build_outcome(report) == Ok::<(), GraphConstructionError>(())
                    && graph@ == (GraphView {
                    device_path: device_path@,
                    geometry: WindowGeometry { width: target_width, height: target_height },
                    state: PipelineState::Null,
                }),
                Err(error) => build_outcome(report) == Err::<(), GraphConstructionError>(error),
            },
    {
        if !report.source {
            return Err(GraphConstructionError::StageUnavailable(Stage::Source));
        }
        if !report.convert {
            return Err(GraphConstructionError::StageUnavailable(Stage::Convert));
        }
        if !report.constrain {
            return Err(GraphConstructionError::StageUnavailable(Stage::Constrain));
        }
        if !report.sink {
            return Err(GraphConstructionError::StageUnavailable(Stage::Sink));
        }
        if !report.linked {
            return Err(GraphConstructionError::LinkRejected);
        }
        Ok(
            CaptureGraph {
                device_path,
                geometry: WindowGeometry::new(target_width, target_height),
                state: PipelineState::Null,
            },
        )
    }

    /// Records the runtime's answer to the request to start playing.
    ///
    /// When the runtime accepted the request the pipeline is `Playing`.
    /// When it refused, because the device could not be opened or the format
    /// was rejected downstream, the pipeline stays as it was and
    /// `StateTransitionError` is returned.
    pub fn start(&mut self, accepted: bool) -> (outcome: Result<(), PipelineError>)
        ensures
            final(self)@.device_path == old(self)@.device_path,
            final(self)@.geometry == old(self)@.geometry,
            accepted ==> outcome == Ok::<(), PipelineError>(()) && final(self)@.state
                == PipelineState::Playing,
            !accepted ==> outcome == Err::<(), PipelineError>(
                PipelineError::StateTransitionError,
            ) && final(self)@.state == old(self)@.state,
    {
        if accepted {
            self.state = PipelineState::Playing;
            Ok(())
        } else {
            Err(PipelineError::StateTransitionError)
        }
    }

    /// Tears the pipeline down to `Null`, whatever state it was in.
    pub fn stop(&mut self)
        ensures
            final(self)@ == (GraphView { state: PipelineState::Null, ..old(self)@ }),
    {
        self.state = PipelineState::Null;
    }

    /// Returns the lifecycle state.
    pub fn state(&self) -> (state: PipelineState)
        ensures
            state == self@.state,
    {
        self.state
    }

    /// Tells whether samples are being pulled: only a playing pipeline pulls.
    pub fn pulls_samples(&self) -> (pulling: bool)
        ensures
            pulling == (self@.state == PipelineState::Playing),
    {
        match self.state {
            PipelineState::Playing => true,
            _ => false,
        }
    }

    /// Returns the path of the capture device.
    pub fn device_path(&self) -> (path: &str)
        ensures
            path@ == self@.device_path,
    {
        self.device_path.as_str()
    }

    /// Returns the window geometry the graph was built for.
    pub fn geometry(&self) -> (geometry: WindowGeometry)
        ensures
            geometry == self@.geometry,
    {
        self.geometry
    }

    /// Returns the format and resolution that the constraint stage and the
    /// sink are set to: packed RGB at the target resolution.
    pub fn constraint(&self) -> (constraint: CapsConstraint)
        ensures
            constraint == self@.constraint(),
    {
        CapsConstraint {
            format: FrameFormat::Rgb,
            width: self.geometry.width,
            height: self.geometry.height,
        }
    }
}

/// The format fixed at construction is the only one the converter accepts:
/// a frame that converts declares the graph's negotiated format.
pub proof fn lemma_converter_accepts_negotiated_format_only(graph: GraphView, frame: FrameView)
    requires
        convert_spec(frame) is Ok,
    ensures
        frame.format == graph.constraint().format,
{
}

/// A frame that the graph's constraint admits converts exactly when it holds
/// three bytes for each pixel of the target resolution, and the buffer then
/// has the target resolution.
pub proof fn lemma_admitted_frame_converts(graph: GraphView, frame: FrameView)
    requires
        graph.constraint().admits(frame),
    ensures
        convert_spec(frame) is Ok <==> frame.data.len() == graph.geometry.width
            * graph.geometry.height * 3,
        convert_spec(frame) matches Ok(buffer) ==> buffer.width == graph.geometry.width
            && buffer.height == graph.geometry.height && buffer.bytes.len()
            == graph.geometry.width * graph.geometry.height * 3,
{
}

} // verus!
