use prollyglot_runtime::contracts::PixelRect;
use prollyglot_runtime::geometry::{FrameGeometry, PortalGeometry, PortalSource, StreamInfo};
use prollyglot_runtime::portal::{
    first_frame_check, picked_source, require_platform_selection, require_unchanged_frame, startup_event_check, ForwardStep,
    GeometryWait, PortalEvent, PortalForwarding,
};
use prollyglot_runtime::visual_capture::{StartError, VisualCaptureEvent};

fn stream(source: PortalSource) -> StreamInfo {
    StreamInfo { source, logical_position: Some((0, 0)), logical_size: Some((1280, 720)) }
}

fn frame(width: u32, height: u32) -> FrameGeometry {
    FrameGeometry {
        raw_width: width,
        raw_height: height,
        crop: PixelRect::full(width, height),
        transform: 0,
        width,
        height,
    }
}

#[test]
fn the_shared_source_is_identified_before_its_frames() {
    let mut wait = GeometryWait::new();
    assert!(wait.on_event(PortalEvent::Other).is_none());
    assert!(wait.on_event(PortalEvent::Selected(stream(PortalSource::Window))).is_none());
    let geometry = wait.on_event(PortalEvent::FormatChanged(frame(800, 600))).unwrap().unwrap();
    assert_eq!(geometry.frame, frame(800, 600));
    assert_eq!(geometry.region, None);

    let mut unknown = GeometryWait::new();
    assert_eq!(
        unknown.on_event(PortalEvent::FormatChanged(frame(800, 600))),
        Some(Err(StartError::Failed("The desktop did not identify the shared source.".into())))
    );
    assert_eq!(GeometryWait::new().on_event(PortalEvent::Cancelled), Some(Err(StartError::Cancelled)));
    assert_eq!(
        GeometryWait::new().on_event(PortalEvent::Failed("denied".into())),
        Some(Err(StartError::Failed("denied".into())))
    );
}

#[test]
fn starting_stops_when_the_share_changes_or_ends() {
    assert_eq!(startup_event_check(PortalEvent::Other, frame(800, 600)), Ok(()));
    assert_eq!(startup_event_check(PortalEvent::FormatChanged(frame(800, 600)), frame(800, 600)), Ok(()));
    assert_eq!(
        startup_event_check(PortalEvent::FormatChanged(frame(600, 800)), frame(800, 600)),
        Err(StartError::Failed(
            "The shared image changed size or orientation. Start again to choose a region.".into()
        ))
    );
    assert_eq!(startup_event_check(PortalEvent::Closed, frame(1, 1)), Err(StartError::Cancelled));
    assert_eq!(first_frame_check(800, 600, frame(800, 600)), Ok(()));
    assert_eq!(
        first_frame_check(801, 600, frame(800, 600)),
        Err(StartError::Failed("The shared image changed size. Start again to select it.".into()))
    );
}

#[test]
fn sources_are_named_by_what_was_shared() {
    let mut geometry = PortalGeometry { stream: stream(PortalSource::Monitor), frame: frame(1920, 1080), region: None };
    let source = picked_source(&geometry);
    assert_eq!(source.label, "Shared monitor");
    assert_eq!((source.x, source.y, source.width, source.height), (0, 0, 1920, 1080));
    geometry.stream.source = PortalSource::Window;
    assert_eq!(picked_source(&geometry).label, "Shared window");
    geometry.region = Some(PixelRect { x: 10, y: 20, width: 300, height: 40 });
    let region = picked_source(&geometry);
    assert_eq!(region.label, "Shared monitor region");
    assert_eq!((region.width, region.height), (300, 40));
    assert_eq!(region.portal, Some(geometry));
}

#[test]
fn forwarding_follows_the_format_or_ends_a_region() {
    let mut whole = PortalForwarding {
        geometry: PortalGeometry { stream: stream(PortalSource::Monitor), frame: frame(1920, 1080), region: None },
    };
    assert!(matches!(whole.on_event(PortalEvent::FormatChanged(frame(1920, 1080))), ForwardStep::Continue));
    match whole.on_event(PortalEvent::FormatChanged(frame(1080, 1920))) {
        ForwardStep::Report(VisualCaptureEvent::Started(source)) => {
            assert_eq!((source.width, source.height), (1080, 1920));
        }
        _ => panic!("expected a restart"),
    }
    assert_eq!(whole.geometry.frame, frame(1080, 1920));
    assert_eq!(whole.geometry.stream.logical_position, None);
    assert!(whole.frame_fits(1080, 1920));
    assert!(!whole.frame_fits(1920, 1080));
    assert!(matches!(
        whole.on_event(PortalEvent::Closed),
        ForwardStep::Stop(VisualCaptureEvent::SourceClosed)
    ));

    let mut region = PortalForwarding {
        geometry: PortalGeometry {
            stream: stream(PortalSource::Monitor),
            frame: frame(1920, 1080),
            region: Some(PixelRect { x: 0, y: 0, width: 10, height: 10 }),
        },
    };
    match region.on_event(PortalEvent::FormatChanged(frame(1280, 720))) {
        ForwardStep::Stop(VisualCaptureEvent::Failed(message)) => assert_eq!(
            message,
            "The shared monitor changed size or orientation. Start again and redraw the region."
        ),
        _ => panic!("expected the region capture to end"),
    }
    assert_eq!(require_unchanged_frame(1920, 1080, &region.geometry), Ok(()));
    assert_eq!(
        require_unchanged_frame(1280, 720, &region.geometry),
        Err("The shared image changed. Start again to choose a region.".into())
    );
}

#[test]
fn selections_must_suit_the_platform() {
    assert_eq!(require_platform_selection(true, true), Ok(()));
    assert_eq!(require_platform_selection(false, false), Ok(()));
    assert_eq!(
        require_platform_selection(false, true),
        Err("Choose a window, monitor, or region using the desktop picker.".to_string())
    );
    assert_eq!(
        require_platform_selection(true, false),
        Err("Choose an available Windows capture source.".to_string())
    );
}
