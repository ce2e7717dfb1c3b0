use prollyglot_runtime::contracts::PixelRect;
use prollyglot_runtime::geometry::{
    entered_region, selectable_region, FrameGeometry, LogicalRect, PortalGeometry, PortalSource, StreamInfo,
};

fn geometry(scale: u32) -> PortalGeometry {
    PortalGeometry {
        stream: StreamInfo {
            source: PortalSource::Monitor,
            logical_position: Some((-1280, 120)),
            logical_size: Some((1280, 720)),
        },
        frame: FrameGeometry {
            raw_width: 1280 * scale,
            raw_height: 720 * scale,
            crop: PixelRect::full(1280 * scale, 720 * scale),
            transform: 0,
            width: 1280 * scale,
            height: 720 * scale,
        },
        region: None,
    }
}

fn monitor() -> LogicalRect {
    LogicalRect {
        x: -1280,
        y: 120,
        width: 1280,
        height: 720,
    }
}

#[test]
fn maps_negative_origins_and_scaled_regions_in_logical_coordinates() {
    for scale in [1, 2, 3] {
        let mut g = geometry(scale);
        assert_eq!(g.anchor(&[monitor()]), Some(monitor()));
        g.region = Some(PixelRect {
            x: 320 * scale,
            y: 180 * scale,
            width: 640 * scale,
            height: 360 * scale,
        });
        assert_eq!(
            g.anchor(&[monitor()]),
            Some(LogicalRect {
                x: -960,
                y: 300,
                width: 640,
                height: 360
            })
        );
    }
    let mut g = geometry(1);
    g.frame = FrameGeometry {
        raw_width: 1600,
        raw_height: 900,
        crop: PixelRect::full(1600, 900),
        width: 1600,
        height: 900,
        transform: 0,
    };
    assert_eq!(
        g.anchor(&[monitor()]),
        Some(monitor()),
        "fractional buffer scale"
    );
    g.frame.raw_width = 900;
    g.frame.raw_height = 1600;
    g.frame.crop = PixelRect::full(900, 1600);
    g.frame.transform = 1;
    assert_eq!(
        g.anchor(&[monitor()]),
        Some(monitor()),
        "rotation already normalized"
    );
}

#[test]
fn rejects_missing_ambiguous_window_and_contradictory_geometry() {
    let mut g = geometry(2);
    assert_eq!(g.anchor(&[]), None);
    assert_eq!(g.anchor(&[monitor(), monitor()]), None);
    g.stream.source = PortalSource::Window;
    assert_eq!(g.anchor(&[monitor()]), None);
    g.stream.source = PortalSource::Monitor;
    g.frame.width = 720;
    assert_eq!(g.anchor(&[monitor()]), None);
    g = geometry(1);
    g.frame.crop.x = 1;
    assert_eq!(g.anchor(&[monitor()]), None);
    g = geometry(1);
    g.stream.logical_position = None;
    assert_eq!(g.anchor(&[monitor()]), None);
}

#[test]
fn regions_outside_the_picture_and_oversized_monitors_are_refused() {
    let mut g = geometry(1);
    g.region = Some(PixelRect { x: 1000, y: 0, width: 400, height: 10 });
    assert_eq!(g.anchor(&[monitor()]), None);
    g.region = Some(PixelRect { x: 0, y: 0, width: 0, height: 10 });
    assert_eq!(g.anchor(&[monitor()]), None);
    let mut huge = geometry(1);
    huge.stream.logical_size = Some((u32::MAX, 720));
    assert_eq!(huge.anchor(&[monitor()]), None);
    let mut edge = geometry(1);
    edge.stream.logical_position = Some((i32::MAX - 100, 0));
    let moved = LogicalRect { x: i32::MAX - 100, y: 0, width: 1280, height: 720 };
    assert_eq!(edge.anchor(&[moved]), Some(moved));
    edge.region = Some(PixelRect { x: 200, y: 0, width: 100, height: 10 });
    assert_eq!(edge.anchor(&[moved]), None);
}

#[test]
fn typed_regions_need_four_whole_numbers() {
    assert_eq!(
        entered_region(" 10", "20 ", "+300", "40"),
        Some(PixelRect { x: 10, y: 20, width: 300, height: 40 })
    );
    assert_eq!(entered_region("10", "", "300", "40"), None);
    assert_eq!(entered_region("10", "20", "-3", "40"), None);
    assert_eq!(entered_region("10", "20", "300", "4294967296"), None);
    assert_eq!(entered_region("1 0", "20", "300", "40"), None);
}

#[test]
fn the_selector_accepts_regions_of_at_least_eighty_by_sixty_on_the_display() {
    let region = PixelRect { x: 10, y: 10, width: 80, height: 60 };
    assert!(selectable_region(region, 1920, 1080));
    assert!(!selectable_region(PixelRect { width: 79, ..region }, 1920, 1080));
    assert!(!selectable_region(PixelRect { height: 59, ..region }, 1920, 1080));
    assert!(!selectable_region(PixelRect { x: 1850, ..region }, 1920, 1080));
}
