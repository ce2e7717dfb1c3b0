use prollyglot_runtime::contracts::{
    ApplicationErrorCode, PixelRect, RecoveryAction, VisualSource, VisualSourceKind,
};
use prollyglot_runtime::region_selection::{accept_region, selected_display, selector_request};
use prollyglot_runtime::startup::{step_error, SessionStep};

fn display(id: &str, width: u32, height: u32) -> VisualSource {
    VisualSource {
        id: id.into(),
        kind: VisualSourceKind::Display,
        label: id.into(),
        x: -1920,
        y: 0,
        width,
        height,
    }
}

#[test]
fn the_selector_covers_the_chosen_display() {
    let displays = vec![display("display:1", 1920, 1080), display("display:2", 2560, 1440)];
    let index = selected_display(&displays, "display:2").expect("listed");
    assert_eq!(index, 1);
    let request = selector_request(&displays[index]);
    assert_eq!(request.display_id, "display:2");
    assert_eq!((request.width, request.height), (2560, 1440));
    let error = selected_display(&displays, "display:9").unwrap_err();
    assert_eq!(error.code, ApplicationErrorCode::CaptureUnavailable);
    assert_eq!(error.message, "The selected display is no longer available.");
    assert_eq!(error.suggested_action, RecoveryAction::ChooseAnotherSource);
    let error = step_error(SessionStep::ListSources, "no displays", None);
    assert_eq!(error.code, ApplicationErrorCode::CaptureUnavailable);
    assert_eq!(error.suggested_action, RecoveryAction::Retry);
}

#[test]
fn drawn_regions_must_lie_on_the_display() {
    let screen = display("display:1", 1920, 1080);
    let region = PixelRect { x: 1800, y: 1000, width: 120, height: 80 };
    let selected = accept_region("display:1".into(), region, &screen).expect("inside");
    assert_eq!(selected.region, region);
    assert_eq!(selected.display_id, "display:1");
    let outside = PixelRect { x: 1800, y: 1000, width: 121, height: 80 };
    let error = accept_region("display:1".into(), outside, &screen).unwrap_err();
    assert_eq!(error.code, ApplicationErrorCode::ConfigurationInvalid);
    assert_eq!(error.message, "The selected region is outside the display.");
    let empty = PixelRect { x: 0, y: 0, width: 0, height: 10 };
    assert!(accept_region("display:1".into(), empty, &screen).is_err());
    let overflowing = PixelRect { x: u32::MAX, y: 0, width: 2, height: 10 };
    assert!(accept_region("display:1".into(), overflowing, &screen).is_err());
}
