//! The options that a window and its web view are built from, and the pixel
//! values that they stand for.

use std::collections::HashMap;
use vstd::prelude::*;

verus! {

/// The unit in which a position or a size is given.
#[derive(Debug, Clone, Copy, PartialEq, Eq, Structural)]
pub enum UnitType {
    Logical,
    Physical,
}

/// A position on the screen. A coordinate left out is 0.
#[derive(Debug, Clone)]
pub struct Position {
    pub x: Option<i32>,
    pub y: Option<i32>,
    pub unit: UnitType,
}

/// The extent of a window or a view. An extent left out is 0.
#[derive(Debug, Clone)]
pub struct Size {
    pub width: Option<i32>,
    pub height: Option<i32>,
    pub unit: UnitType,
}

/// The rectangle that a web view fills.
#[derive(Debug, Clone)]
pub struct WebViewBounds {
    pub position: Position,
    pub size: Size,
}

/// The value of a coordinate or an extent that may have been left out.
pub open spec fn or_zero(value: Option<i32>) -> int {
    match value {
        Some(given) => given as int,
        None => 0,
    }
}

/// A value with what lies below zero cut off.
pub open spec fn at_least_zero(value: int) -> int {
    if value < 0 {
        0
    } else {
        value
    }
}

impl Position {
    /// The two coordinates, each 0 where it was left out.
    pub fn coordinates(&self) -> (point: (i32, i32))
        ensures
            point.0 == or_zero(self.x),
            point.1 == or_zero(self.y),
    {
        let x = match self.x {
            Some(x) => x,
            None => 0,
        };
        let y = match self.y {
            Some(y) => y,
            None => 0,
        };
        (x, y)
    }
}

impl Size {
    /// Width and height as they were given, each 0 where it was left out.
    pub fn logical(&self) -> (extent: (i32, i32))
        ensures
            extent.0 == or_zero(self.width),
            extent.1 == or_zero(self.height),
    {
        let width = match self.width {
            Some(width) => width,
            None => 0,
        };
        let height = match self.height {
            Some(height) => height,
            None => 0,
        };
        (width, height)
    }

    /// Width and height in physical pixels: as they were given, but never
    /// below 0.
    pub fn physical(&self) -> (extent: (u32, u32))
        ensures
            extent.0 == at_least_zero(or_zero(self.width)),
            extent.1 == at_least_zero(or_zero(self.height)),
    {
        let (width, height) = self.logical();
        let width: u32 = if width < 0 {
            0
        } else {
            width as u32
        };
        let height: u32 = if height < 0 {
            0
        } else {
            height as u32
        };
        (width, height)
    }
}

/// A number of physical pixels as the signed value that the toolkit takes,
/// where it is small enough to be one.
pub fn physical_pixels(pixels: u32) -> (signed: Option<i32>)
    ensures
        signed == if pixels <= i32::MAX {
            Some(pixels as i32)
        } else {
            None
        },
{
    if pixels <= 0x7fff_ffff {
        Some(pixels as i32)
    } else {
        None
    }
}

/// The shape of the mouse pointer.
#[derive(Debug, Clone, Copy, PartialEq, Eq, Structural)]
pub enum CursorIcon {
    Default,
    Crosshair,
    Hand,
    Arrow,
    Move,
    Text,
    Wait,
    Help,
    Progress,
    NotAllowed,
    ContextMenu,
    Cell,
    VerticalText,
    Alias,
    Copy,
    NoDrop,
    Grab,
    Grabbing,
    AllScroll,
    ZoomIn,
    ZoomOut,
    EResize,
    NResize,
    NeResize,
    NwResize,
    SResize,
    SeResize,
    SwResize,
    WResize,
    EwResize,
    NsResize,
    NeswResize,
    NwseResize,
    ColResize,
    RowResize,
}

/// What the progress bar in the task bar shows.
#[derive(Debug, Clone, Copy, PartialEq, Eq, Structural)]
pub enum ProgressState {
    /// No progress is shown.
    NoProgress,
    Normal,
    Indeterminate,
    Paused,
    Error,
}

/// The progress bar in the task bar.
#[derive(Debug, Clone)]
pub struct ProgressBarState {
    pub progress: Option<u64>,
    pub status: Option<ProgressState>,
    pub desktop_filename: Option<String>,
}

/// The colour scheme of a window.
#[derive(Debug, Clone, Copy, PartialEq, Eq, Structural)]
pub enum Theme {
    Light,
    Dark,
}

/// How urgently a window asks for attention.
#[derive(Debug, Clone, Copy, PartialEq, Eq, Structural)]
pub enum UserAttentionType {
    Critical,
    Informational,
}

/// An icon given as pixels: `rgba` holds them in base64.
#[derive(Debug, Clone)]
pub struct ByteIcon {
    pub rgba: String,
    pub width: u32,
    pub height: u32,
}

/// An icon given as the path of an image file.
#[derive(Debug, Clone)]
pub struct Icon {
    pub path: String,
}

/// A width and a height in pixels.
#[derive(Debug, Clone, Copy, PartialEq, Eq, Structural)]
pub struct Dimensions {
    pub width: u32,
    pub height: u32,
}

/// One video mode of a monitor.
#[derive(Debug, Clone, Copy)]
pub struct MonitorVideoMode {
    pub size: Dimensions,
    pub bit_depth: u16,
    pub refresh_rate: u16,
}

/// Where a monitor lies on the desktop.
#[derive(Debug, Clone, Copy, PartialEq, Eq, Structural)]
pub struct MonitorPosition {
    pub x: i32,
    pub y: i32,
}

/// The options of a window. What is left out is for the toolkit to decide.
#[derive(Debug, Clone, Default)]
pub struct WindowOptions {
    pub always_on_bottom: Option<bool>,
    pub always_on_top: Option<bool>,
    pub background_color: Option<(u8, u8, u8, u8)>,
    pub closable: Option<bool>,
    pub content_protection: Option<bool>,
    pub decorations: Option<bool>,
    pub focusable: Option<bool>,
    pub focused: Option<bool>,
    pub fullscreen: Option<bool>,
    pub inner_size: Option<Size>,
    pub max_inner_size: Option<Size>,
    pub maximizable: Option<bool>,
    pub maximized: Option<bool>,
    pub min_inner_size: Option<Size>,
    pub minimizable: Option<bool>,
    pub position: Option<Position>,
    pub resizable: Option<bool>,
    pub theme: Option<Theme>,
    pub title: Option<String>,
    pub transparent: Option<bool>,
    pub visible: Option<bool>,
    pub visible_on_all_workspaces: Option<bool>,
    pub window_icon: Option<Icon>,
    pub webview: WebViewOptions,
}

/// The options of a web view. What is left out is for the toolkit to
/// decide.
#[derive(Debug, Clone, Default)]
pub struct WebViewOptions {
    pub label: Option<String>,
    pub render_protocol: Option<String>,
    pub transparent: Option<bool>,
    pub visible: Option<bool>,
    pub devtools: Option<bool>,
    pub incognito: Option<bool>,
    pub user_agent: Option<String>,
    pub initialization_script: Option<String>,
    pub accept_first_mouse: Option<bool>,
    pub autoplay: Option<bool>,
    pub focused: Option<bool>,
    pub clipboard: Option<bool>,
    pub hotkeys_zoom: Option<bool>,
    pub background_color: Option<(u8, u8, u8, u8)>,
    pub bounds: Option<WebViewBounds>,
    pub headers: Option<HashMap<String, String>>,
    pub proxy_config: Option<String>,
    pub zoom_hotkeys: Option<bool>,
    pub background_throttling: Option<bool>,
    pub back_forward_navigation_gestures: Option<bool>,
}

} // verus!
