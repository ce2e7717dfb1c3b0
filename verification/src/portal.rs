//! The decisions of a screen-cast capture through the desktop portal: how
//! the shared source is identified before capture starts, which events end
//! or restart it, which frames are passed on, and how the source is named.

use vstd::prelude::*;
use vstd::string::*;

use crate::geometry::{FrameGeometry, PortalGeometry, PortalSource, StreamInfo};
use crate::visual_capture::{PickedVisualSource, StartError, VisualCaptureEvent};

verus! {

/// An event of the portal capture session.
#[derive(Clone, Debug)]
pub enum PortalEvent {
    /// The user chose what to share.
    Selected(StreamInfo),
    /// The stream's frames take this geometry from now on.
    FormatChanged(FrameGeometry),
    Failed(String),
    Closed,
    Cancelled,
    /// Any other event, which the capture does not act on.
    Other,
}

/// The label a shared source is shown with.
pub open spec fn portal_label(geometry: PortalGeometry) -> Seq<char> {
    if geometry.region is Some {
        "Shared monitor region"@
    } else if geometry.stream.source == PortalSource::Window {
        "Shared window"@
    } else {
        "Shared monitor"@
    }
}

/// The source a portal capture shows: the chosen region, or the whole
/// picture, at the origin of its own image.
pub fn picked_source(geometry: &PortalGeometry) -> (source: PickedVisualSource)
    ensures
        source.label@ == portal_label(*geometry),
        source.x == 0,
        source.y == 0,
        source.width == match geometry.region {
            Some(region) => region.width,
            None => geometry.frame.width,
        },
        source.height == match geometry.region {
            Some(region) => region.height,
            None => geometry.frame.height,
        },
        source.portal == Some(*geometry),
{
    let (width, height) = match geometry.region {
        Some(region) => (region.width, region.height),
        None => (geometry.frame.width, geometry.frame.height),
    };
    let label = if geometry.region.is_some() {
        String::from_str("Shared monitor region")
    } else if geometry.stream.source == PortalSource::Window {
        String::from_str("Shared window")
    } else {
        String::from_str("Shared monitor")
    };
    PickedVisualSource { label, x: 0, y: 0, width, height, portal: Some(*geometry) }
}

/// Waiting for the portal to identify the shared source and its frames.
pub struct GeometryWait {
    pub stream: Option<StreamInfo>,
}

impl GeometryWait {
    pub fn new() -> (wait: Self)
        ensures
            wait.stream is None,
    {
        GeometryWait { stream: None }
    }

    /// Takes in one event: the geometry once the frames' format is known,
    /// the refusal that ends the start, or `None` to keep waiting.
    pub fn on_event(&mut self, event: PortalEvent) -> (outcome: Option<Result<PortalGeometry, StartError>>)
        ensures
            match event {
                PortalEvent::Selected(stream) => outcome is None && final(self).stream == Some(stream),
                PortalEvent::FormatChanged(frame) => final(self).stream == old(self).stream && match old(
                    self,
                ).stream {
                    Some(stream) => outcome == Some(
                        Ok::<PortalGeometry, StartError>(
                            PortalGeometry { stream, frame, region: None },
                        ),
                    ),
                    None => outcome matches Some(Err(StartError::Failed(message))) && message@
                        == "The desktop did not identify the shared source."@,
                },
                PortalEvent::Closed | PortalEvent::Cancelled => outcome == Some(
                    Err::<PortalGeometry, StartError>(StartError::Cancelled),
                ) && final(self).stream == old(self).stream,
                PortalEvent::Failed(message) => outcome matches Some(Err(StartError::Failed(m)))
                    && m@ == message@ && final(self).stream == old(self).stream,
                PortalEvent::Other => outcome is None && final(self).stream == old(self).stream,
            },
    {
        match event {
            PortalEvent::Selected(stream) => {
                self.stream = Some(stream);
                None
            },
            PortalEvent::FormatChanged(frame) => match self.stream {
                Some(stream) => Some(Ok(PortalGeometry { stream, frame, region: None })),
                None => Some(
                    Err(StartError::Failed(String::from_str("The desktop did not identify the shared source."))),
                ),
            },
            PortalEvent::Closed | PortalEvent::Cancelled => Some(Err(StartError::Cancelled)),
            PortalEvent::Failed(message) => Some(Err(StartError::Failed(message))),
            PortalEvent::Other => None,
        }
    }
}

/// Judges an event that arrives while the capture is still starting, with
/// frames of geometry `geometry`: a closed, cancelled or failed share ends
/// the start, and so does a change of the frames' size or orientation.
pub fn startup_event_check(event: PortalEvent, geometry: FrameGeometry) -> (result: Result<(), StartError>)
    ensures
        match event {
            PortalEvent::Closed | PortalEvent::Cancelled => result == Err::<(), StartError>(
                StartError::Cancelled,
            ),
            PortalEvent::Failed(message) => result matches Err(StartError::Failed(m)) && m@
                == message@,
            PortalEvent::FormatChanged(next) => if next != geometry {
                result matches Err(StartError::Failed(m)) && m@
                    == "The shared image changed size or orientation. Start again to choose a region."@
            } else {
                result is Ok
            },
            _ => result is Ok,
        },
{
    match event {
        PortalEvent::Closed | PortalEvent::Cancelled => Err(StartError::Cancelled),
        PortalEvent::Failed(message) => Err(StartError::Failed(message)),
        PortalEvent::FormatChanged(next) => if next != geometry {
            Err(
                StartError::Failed(
                    String::from_str(
                        "The shared image changed size or orientation. Start again to choose a region.",
                    ),
                ),
            )
        } else {
            Ok(())
        },
        _ => Ok(()),
    }
}

/// The first frame must have the size the portal announced.
pub fn first_frame_check(width: u32, height: u32, geometry: FrameGeometry) -> (result: Result<(), StartError>)
    ensures
        (width == geometry.width && height == geometry.height) ==> result is Ok,
        !(width == geometry.width && height == geometry.height) ==> (result matches Err(
            StartError::Failed(m),
        ) && m@ == "The shared image changed size. Start again to select it."@),
{
    if width == geometry.width && height == geometry.height {
        Ok(())
    } else {
        Err(StartError::Failed(String::from_str("The shared image changed size. Start again to select it.")))
    }
}

/// What the forwarding worker does after an event.
pub enum ForwardStep {
    /// Go on forwarding.
    Continue,
    /// Report the event and go on.
    Report(VisualCaptureEvent),
    /// Report the event and stop forwarding.
    Stop(VisualCaptureEvent),
}

/// The forwarding of portal frames to recognition, following the stream's
/// geometry.
pub struct PortalForwarding {
    pub geometry: PortalGeometry,
}

impl PortalForwarding {
    /// Takes in one event of the capture session. A new frame format
    /// restarts a whole-picture capture under the new geometry, but ends a
    /// region capture, whose region no longer means the same pixels.
    pub fn on_event(&mut self, event: PortalEvent) -> (step: ForwardStep)
        ensures
            match event {
                PortalEvent::FormatChanged(next) => if next != old(self).geometry.frame {
                    if old(self).geometry.region is Some {
                        step matches ForwardStep::Stop(VisualCaptureEvent::Failed(m)) && m@
                            == "The shared monitor changed size or orientation. Start again and redraw the region."@
                            && final(self).geometry == old(self).geometry
                    } else {
                        step matches ForwardStep::Report(VisualCaptureEvent::Started(source))
                            && source.portal == Some(final(self).geometry) && source.label@
                            == portal_label(final(self).geometry) && final(self).geometry == (
                        PortalGeometry {
                            frame: next,
                            stream: StreamInfo { logical_position: None, ..old(self).geometry.stream },
                            ..old(self).geometry
                        })
                    }
                } else {
                    final(self).geometry == old(self).geometry && step is Continue
                },
                PortalEvent::Failed(message) => step matches ForwardStep::Stop(
                    VisualCaptureEvent::Failed(m),
                ) && m@ == message@ && final(self).geometry == old(self).geometry,
                PortalEvent::Closed | PortalEvent::Cancelled => step matches ForwardStep::Stop(
                    VisualCaptureEvent::SourceClosed,
                ) && final(self).geometry == old(self).geometry,
                _ => final(self).geometry == old(self).geometry && step is Continue,
            },
    {
        match event {
            PortalEvent::FormatChanged(next) => {
                if next == self.geometry.frame {
                    return ForwardStep::Continue;
                }
                if self.geometry.region.is_some() {
                    return ForwardStep::Stop(
                        VisualCaptureEvent::Failed(
                            String::from_str(
                                "The shared monitor changed size or orientation. Start again and redraw the region.",
                            ),
                        ),
                    );
                }
                self.geometry.frame = next;
                self.geometry.stream.logical_position = None;
                ForwardStep::Report(VisualCaptureEvent::Started(picked_source(&self.geometry)))
            },
            PortalEvent::Failed(message) => ForwardStep::Stop(VisualCaptureEvent::Failed(message)),
            PortalEvent::Closed | PortalEvent::Cancelled => ForwardStep::Stop(
                VisualCaptureEvent::SourceClosed,
            ),
            _ => ForwardStep::Continue,
        }
    }

    /// Whether a frame of `width` by `height` belongs to the current
    /// geometry; an older frame overtaken by a format change is skipped,
    /// never reinterpreted.
    pub fn frame_fits(&self, width: u32, height: u32) -> (fits: bool)
        ensures
            fits == (width == self.geometry.frame.width && height == self.geometry.frame.height),
    {
        width == self.geometry.frame.width && height == self.geometry.frame.height
    }
}

/// Before a frame is cropped to the chosen region, it must still have the
/// size the region was drawn on.
pub fn require_unchanged_frame(width: u32, height: u32, geometry: &PortalGeometry) -> (result: Result<(), String>)
    ensures
        result is Ok <==> (width == geometry.frame.width && height == geometry.frame.height),
        result matches Err(m) ==> m@ == "The shared image changed. Start again to choose a region."@,
{
    if width != geometry.frame.width || height != geometry.frame.height {
        return Err(String::from_str("The shared image changed. Start again to choose a region."));
    }
    Ok(())
}

/// The message that refuses a capture selection made for the other
/// platform: on Linux every source is chosen through the desktop picker,
/// elsewhere only the sources the system lists can be captured.
pub open spec fn platform_refusal(on_linux: bool) -> Seq<char> {
    if on_linux {
        "Choose a window, monitor, or region using the desktop picker."@
    } else {
        "Choose an available Windows capture source."@
    }
}

/// Accepts a capture selection exactly when it is a desktop-picker
/// selection on Linux, or a listed source elsewhere.
pub fn require_platform_selection(picker_selection: bool, on_linux: bool) -> (result: Result<(), String>)
    ensures
        result is Ok <==> picker_selection == on_linux,
        result matches Err(m) ==> m@ == platform_refusal(on_linux),
{
    if picker_selection == on_linux {
        Ok(())
    } else if on_linux {
        Err(String::from_str("Choose a window, monitor, or region using the desktop picker."))
    } else {
        Err(String::from_str("Choose an available Windows capture source."))
    }
}

} // verus!
