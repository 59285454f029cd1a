//! The hand-off of converted frames from the capture thread to the thread
//! that draws.
//!
//! The bridge holds at most one frame that is waiting to be drawn. A newer
//! frame takes the place of one that is still waiting, so a stalled display
//! costs one buffer and no more. The display surface is known by its
//! identifier only and looked up when a frame is about to be drawn.

use vstd::prelude::*;
use crate::converter::{convert, convert_spec, copyable, ConversionError};
use crate::frame::{FrameView, RawFrame};
use crate::pixel_buffer::{PixelBuffer, PixelView};
use crate::surface::{RegistryView, SurfaceId, SurfaceRegistry};

verus! {

/// How an accepted sample entered the bridge.
#[derive(Clone, Copy, Debug, PartialEq, Eq, Structural)]
pub enum Queued {
    /// No frame was waiting: a dispatch has to be scheduled for this one.
    Fresh,
    /// A frame was still waiting and has been overwritten: the dispatch
    /// already scheduled will deliver this one.
    Replaced,
}

/// Why a dispatch delivered nothing.
#[derive(Clone, Copy, Debug, PartialEq, Eq, Structural)]
pub enum DispatchError {
    /// The display surface no longer resolves.
    SurfaceGone,
}

/// What a bridge holds, as plain values.
pub struct BridgeView {
    /// The surface that frames are meant for.
    pub surface: SurfaceId,
    /// The frame waiting to be drawn, if any.
    pub pending: Option<PixelView>,
}

impl BridgeView {
    /// The bridge after a sample arrives: a frame that converts takes the
    /// waiting place, whether or not it was taken; any other frame is dropped
    /// and leaves the bridge as it was.
    pub open spec fn after_sample(self, frame: FrameView) -> BridgeView {
        match convert_spec(frame) {
            Ok(buffer) => BridgeView { pending: Some(buffer), ..self },
            Err(_) => self,
        }
    }

    /// What the capture thread learns from a sample.
    pub open spec fn sample_outcome(self, frame: FrameView) -> Result<Queued, ConversionError> {
        match convert_spec(frame) {
            Ok(_) => Ok(
                if self.pending.is_some() {
                    Queued::Replaced
                } else {
                    Queued::Fresh
                },
            ),
            Err(error) => Err(error),
        }
    }

    /// The bridge after a dispatch: while the surface resolves the waiting
    /// frame leaves the bridge; once it does not, nothing changes.
    pub open spec fn after_dispatch(self, registry: RegistryView) -> BridgeView {
        if registry.resolves(self.surface) {
            BridgeView { pending: None, ..self }
        } else {
            self
        }
    }

    /// What a dispatch hands to the display: the waiting frame, if there is
    /// one, while the surface resolves.
    pub open spec fn dispatch_outcome(self, registry: RegistryView) -> Result<
        Option<PixelView>,
        DispatchError,
    > {
        if registry.resolves(self.surface) {
            Ok(self.pending)
        } else {
            Err(DispatchError::SurfaceGone)
        }
    }
}

/// The outcome of a dispatch with the buffer replaced by what it holds.
pub open spec fn delivery_view(outcome: Result<Option<PixelBuffer>, DispatchError>) -> Result<
    Option<PixelView>,
    DispatchError,
> {
    match outcome {
        Ok(Some(buffer)) => Ok(Some(buffer@)),
        Ok(None) => Ok(None),
        Err(error) => Err(error),
    }
}

/// Carries converted frames from the capture thread to the display surface.
#[derive(Debug)]
pub struct FrameBridge {
    surface: SurfaceId,
    pending: Option<PixelBuffer>,
}

impl View for FrameBridge {
    type V = BridgeView;

    closed spec fn view(&self) -> BridgeView {
        BridgeView {
            surface: self.surface,
            pending: match self.pending {
                Some(buffer) => Some(buffer@),
                None => None,
            },
        }
    }
}

impl FrameBridge {
    /// Creates a bridge to the surface named by `surface`, with no frame
    /// waiting.
    pub fn new(surface: SurfaceId) -> (bridge: FrameBridge)
        ensures
            bridge@ == (BridgeView { surface, pending: None }),
    {
        FrameBridge { surface, pending: None }
    }

    /// Returns the identifier of the surface that frames are meant for.
    pub fn surface(&self) -> (surface: SurfaceId)
        ensures
            surface == self@.surface,
    {
        self.surface
    }

    /// Tells whether a frame is waiting to be drawn.
    pub fn has_pending(&self) -> (waiting: bool)
        ensures
            waiting == self@.pending.is_some(),
    {
        self.pending.is_some()
    }

    /// Takes one sample on the capture thread.
    ///
    /// A frame that converts becomes the waiting frame, overwriting one that
    /// has not been drawn yet; the result says which of the two happened. A
    /// frame that does not convert is dropped: the failure is returned for
    /// reporting and the bridge stays as it was.
    pub fn on_sample(&mut self, frame: RawFrame) -> (outcome: Result<Queued, ConversionError>)
        requires
            copyable(frame@),
        ensures
            final(self)@ == old(self)@.after_sample(frame@),
            outcome == old(self)@.sample_outcome(frame@),
    {
        match convert(frame) {
            Ok(buffer) => {
                let queued = if self.pending.is_some() {
                    Queued::Replaced
                } else {
                    Queued::Fresh
                };
                self.pending = Some(buffer);
                Ok(queued)
            },
            Err(error) => Err(error),
        }
    }

    /// Runs one dispatch on the drawing thread.
    ///
    /// The surface is looked up now. While it resolves, the waiting frame, if
    /// any, leaves the bridge and is returned for the display to draw. Once
    /// it no longer resolves the dispatch does nothing: `SurfaceGone` is
    /// returned and the bridge stays as it was.
    pub fn dispatch(&mut self, registry: &SurfaceRegistry) -> (outcome: Result<
        Option<PixelBuffer>,
        DispatchError,
    >)
        ensures
            final(self)@ == old(self)@.after_dispatch(registry@),
            delivery_view(outcome) == old(self)@.dispatch_outcome(registry@),
    {
        if !registry.resolves(self.surface) {
            return Err(DispatchError::SurfaceGone);
        }
        Ok(self.pending.take())
    }
}

/// A dispatch that comes after the surface was destroyed delivers nothing
/// and leaves the bridge exactly as it was.
pub proof fn lemma_dispatch_after_destruction(bridge: BridgeView, registry: RegistryView)
    ensures
        bridge.dispatch_outcome(registry.destroyed(bridge.surface)) == Err::<
            Option<PixelView>,
            DispatchError,
        >(DispatchError::SurfaceGone),
        bridge.after_dispatch(registry.destroyed(bridge.surface)) == bridge,
{
}

/// While the bridge's surface does not resolve, whether it was destroyed or
/// replaced, every dispatch delivers nothing and leaves the bridge as it was.
pub proof fn lemma_dispatch_without_surface(bridge: BridgeView, registry: RegistryView)
    requires
        !registry.resolves(bridge.surface),
    ensures
        bridge.dispatch_outcome(registry) == Err::<Option<PixelView>, DispatchError>(
            DispatchError::SurfaceGone,
        ),
        bridge.after_dispatch(registry) == bridge,
{
}

/// Of two frames that arrive before the display draws, only the newer one
/// is ever drawn: the next dispatch delivers it, the bridge is then empty,
/// and the dispatch after that delivers nothing.
pub proof fn lemma_latest_frame_wins(
    bridge: BridgeView,
    first: FrameView,
    second: FrameView,
    registry: RegistryView,
)
    requires
        convert_spec(first) is Ok,
        convert_spec(second) is Ok,
        registry.resolves(bridge.surface),
    ensures
        ({
            let waiting = bridge.after_sample(first).after_sample(second);
            &&& waiting.pending == Some(convert_spec(second)->Ok_0)
            &&& bridge.after_sample(first).sample_outcome(second) == Ok::<
                Queued,
                ConversionError,
            >(Queued::Replaced)
            &&& waiting.dispatch_outcome(registry) == Ok::<Option<PixelView>, DispatchError>(
                Some(convert_spec(second)->Ok_0),
            )
            &&& waiting.after_dispatch(registry).pending.is_none()
            &&& waiting.after_dispatch(registry).dispatch_outcome(registry) == Ok::<
                Option<PixelView>,
                DispatchError,
            >(None)
        }),
{
}

/// A sample that does not convert is dropped: the failure is reported and
/// the bridge, with the frame that may be waiting in it, stays as it was.
pub proof fn lemma_failed_sample_changes_nothing(bridge: BridgeView, frame: FrameView)
    requires
        convert_spec(frame) is Err,
    ensures
        bridge.after_sample(frame) == bridge,
        bridge.sample_outcome(frame) is Err,
{
}

} // verus!
