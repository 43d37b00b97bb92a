use pyorion::options::{
    physical_pixels, CursorIcon, Dimensions, MonitorPosition, MonitorVideoMode, Position,
    ProgressBarState, ProgressState, Size, Theme, UnitType, UserAttentionType, WebViewBounds,
    WebViewOptions, WindowOptions,
};

#[test]
fn a_coordinate_left_out_is_zero() {
    let all = Position { x: Some(-3), y: Some(7), unit: UnitType::Physical };
    assert_eq!(all.coordinates(), (-3, 7));
    let none = Position { x: None, y: None, unit: UnitType::Logical };
    assert_eq!(none.coordinates(), (0, 0));
    let half = Position { x: None, y: Some(i32::MIN), unit: UnitType::Logical };
    assert_eq!(half.coordinates(), (0, i32::MIN));
}

#[test]
fn a_physical_size_is_never_below_zero() {
    let size = Size { width: Some(-5), height: Some(600), unit: UnitType::Physical };
    assert_eq!(size.physical(), (0, 600));
    assert_eq!(size.logical(), (-5, 600));
    let none = Size { width: None, height: None, unit: UnitType::Logical };
    assert_eq!(none.physical(), (0, 0));
    assert_eq!(none.logical(), (0, 0));
    let edge = Size { width: Some(i32::MAX), height: Some(i32::MIN), unit: UnitType::Physical };
    assert_eq!(edge.physical(), (2147483647, 0));
}

#[test]
fn physical_pixels_fit_a_signed_value_or_not() {
    assert_eq!(physical_pixels(0), Some(0));
    assert_eq!(physical_pixels(2147483647), Some(2147483647));
    assert_eq!(physical_pixels(2147483648), None);
    assert_eq!(physical_pixels(u32::MAX), None);
}

#[test]
fn options_default_to_nothing_chosen() {
    let options = WindowOptions::default();
    assert!(options.title.is_none());
    assert!(options.inner_size.is_none());
    assert!(options.webview.bounds.is_none());
    assert!(options.webview.headers.is_none());
    let webview = WebViewOptions::default();
    assert!(webview.label.is_none());
}

#[test]
fn option_values_hold_what_they_are_given() {
    let bounds = WebViewBounds {
        position: Position { x: Some(1), y: Some(2), unit: UnitType::Logical },
        size: Size { width: Some(3), height: Some(4), unit: UnitType::Physical },
    };
    assert_eq!(bounds.position.coordinates(), (1, 2));
    assert_eq!(bounds.size.physical(), (3, 4));
    let bar = ProgressBarState {
        progress: Some(40),
        status: Some(ProgressState::Paused),
        desktop_filename: None,
    };
    assert_eq!(bar.status, Some(ProgressState::Paused));
    assert_ne!(ProgressState::NoProgress, ProgressState::Normal);
    assert_ne!(CursorIcon::Default, CursorIcon::RowResize);
    assert_ne!(Theme::Light, Theme::Dark);
    assert_ne!(UserAttentionType::Critical, UserAttentionType::Informational);
    let mode = MonitorVideoMode {
        size: Dimensions { width: 1920, height: 1080 },
        bit_depth: 32,
        refresh_rate: 60,
    };
    assert_eq!(mode.size, Dimensions { width: 1920, height: 1080 });
    assert_eq!(MonitorPosition { x: -1, y: 2 }, MonitorPosition { x: -1, y: 2 });
}
