use prollyglot_runtime::overlay::{
    anchored_overlay_position, is_hex_color, validate_settings, OverlayPosition,
    OverlaySettingsOutline, WorkArea,
};

fn defaults() -> OverlaySettingsOutline {
    OverlaySettingsOutline {
        font_size: 36,
        width: 720,
        maximum_lines: 3,
        reading_time_seconds: 15,
        fade_duration_ms: 800,
        background_opacity_in_range: true,
        text_color: "#f4f6f5".into(),
        translated_text_color: "#86e3b0".into(),
    }
}

#[test]
fn overlay_settings_reject_unsafe_ranges() {
    assert!(validate_settings(&defaults()).is_ok());
    let settings = OverlaySettingsOutline {
        background_opacity_in_range: false,
        ..defaults()
    };
    assert!(validate_settings(&settings).is_err());

    let settings = OverlaySettingsOutline {
        reading_time_seconds: 2,
        ..defaults()
    };
    assert!(validate_settings(&settings).is_err());

    let settings = OverlaySettingsOutline {
        fade_duration_ms: 5_001,
        ..defaults()
    };
    assert!(validate_settings(&settings).is_err());
}

#[test]
fn overlay_settings_name_the_first_broken_limit() {
    let settings = OverlaySettingsOutline { font_size: 17, ..defaults() };
    assert_eq!(
        validate_settings(&settings),
        Err("Caption size must be between 18 and 96 pixels.".to_string())
    );
    let settings = OverlaySettingsOutline { width: 1601, maximum_lines: 0, ..defaults() };
    assert_eq!(
        validate_settings(&settings),
        Err("Caption width must be between 320 and 1600 pixels.".to_string())
    );
    let settings = OverlaySettingsOutline { maximum_lines: 5, ..defaults() };
    assert_eq!(
        validate_settings(&settings),
        Err("Maximum lines must be between 1 and 4.".to_string())
    );
    let settings = OverlaySettingsOutline { translated_text_color: "86e3b0".into(), ..defaults() };
    assert_eq!(
        validate_settings(&settings),
        Err("Caption colors must be six-digit hex colors.".to_string())
    );
    assert!(is_hex_color("#ABCdef"));
    assert!(!is_hex_color("#abcdeg"));
    assert!(!is_hex_color("#abcdef0"));
    assert!(!is_hex_color("#ab\u{e9}de"));
}

#[test]
fn overlay_anchor_uses_monitor_work_area() {
    let work_area = WorkArea { x: 0, y: 0, width: 1_920, height: 1_040 };

    assert_eq!(
        anchored_overlay_position(OverlayPosition::BottomCenter, work_area, 760, 160, 32),
        (580, 848)
    );
    assert_eq!(
        anchored_overlay_position(OverlayPosition::TopCenter, work_area, 760, 160, 32),
        (580, 32)
    );
}

#[test]
fn overlay_anchor_supports_negative_monitor_coordinates() {
    let work_area = WorkArea { x: -1_920, y: -120, width: 1_920, height: 1_040 };

    assert_eq!(
        anchored_overlay_position(OverlayPosition::BottomRight, work_area, 760, 160, 32),
        (-792, 728)
    );
}

#[test]
fn an_overlay_wider_than_the_work_area_stays_at_its_origin() {
    let work_area = WorkArea { x: 100, y: 50, width: 300, height: 200 };
    assert_eq!(
        anchored_overlay_position(OverlayPosition::BottomLeft, work_area, 501, 400, -5),
        (100, 50)
    );
    assert_eq!(
        anchored_overlay_position(OverlayPosition::TopCenter, work_area, 100, 100, 10),
        (200, 60)
    );
}
