//! The values that callers exchange with the library.

use crate::text::is_blank;
use vstd::prelude::*;

verus! {

/// A crop rectangle in the pixel space of the captured frame: top-left origin,
/// whole pixels.
#[derive(Debug, Clone, Copy, PartialEq, Eq, Structural)]
pub struct Region {
    pub x: i32,
    pub y: i32,
    pub width: u32,
    pub height: u32,
}

/// A rectangle on the virtual screen: where a display lies, and how large it
/// is. Width and height are positive wherever the library hands one out.
#[derive(Debug, Clone, Copy, PartialEq, Eq, Structural)]
pub struct ScreenRect {
    pub left: i32,
    pub top: i32,
    pub width: u32,
    pub height: u32,
}

/// What kind of thing a capture source is.
#[derive(Debug, Clone, Copy, PartialEq, Eq, Structural)]
pub enum CaptureSourceType {
    Monitor,
    Window,
}

/// A display that can be recorded.
#[derive(Debug, Clone, PartialEq, Eq)]
pub struct MonitorInfo {
    /// Position of the display in the enumeration it came from.
    pub id: usize,
    /// The display's native handle.
    pub hmonitor: isize,
    pub name: String,
    pub width: u32,
    pub height: u32,
    pub left: i32,
    pub top: i32,
}

/// A window that can be recorded.
#[derive(Debug, Clone, PartialEq, Eq)]
pub struct WindowInfo {
    /// Position of the window among the windows that passed the first filter.
    pub id: usize,
    /// The window's native handle.
    pub hwnd: isize,
    pub title: String,
    pub width: u32,
    pub height: u32,
}

/// A monitor or a window under one description.
#[derive(Debug, Clone, PartialEq, Eq)]
pub struct CaptureSource {
    pub name: String,
    pub width: u32,
    pub height: u32,
    pub source_type: CaptureSourceType,
    /// Native handle of the window or of the display.
    pub handle: isize,
    pub left: i32,
    pub top: i32,
}

/// A camera that can be opened.
#[derive(Debug, Clone, PartialEq, Eq)]
pub struct Webcam {
    pub name: String,
    pub id: String,
}

impl CaptureSource {
    /// What holds of every source that the library offers: it has a positive
    /// width and height, and a name that is not blank.
    pub open spec fn is_valid(&self) -> bool {
        self.width > 0 && self.height > 0 && !is_blank(self.name@)
    }
}

impl MonitorInfo {
    /// What holds of every display that the library offers: it has a positive
    /// width and height, and a name that is not blank.
    pub open spec fn is_valid(&self) -> bool {
        self.width > 0 && self.height > 0 && !is_blank(self.name@)
    }

    /// The display as a capture source.
    pub open spec fn source(&self) -> CaptureSource {
        CaptureSource {
            name: self.name,
            width: self.width,
            height: self.height,
            source_type: CaptureSourceType::Monitor,
            handle: self.hmonitor,
            left: self.left,
            top: self.top,
        }
    }

    /// The display as a capture source.
    pub fn to_source(&self) -> (s: CaptureSource)
        ensures
            s == self.source(),
    {
        CaptureSource {
            name: self.name.clone(),
            width: self.width,
            height: self.height,
            source_type: CaptureSourceType::Monitor,
            handle: self.hmonitor,
            left: self.left,
            top: self.top,
        }
    }
}

impl WindowInfo {
    /// What holds of every window that the library offers: it has a positive
    /// width and height, and a title that is not blank.
    pub open spec fn is_valid(&self) -> bool {
        self.width > 0 && self.height > 0 && !is_blank(self.title@)
    }

    /// The window as a capture source. A window's frame starts at its own
    /// top-left corner, so its origin is zero.
    pub open spec fn source(&self) -> CaptureSource {
        CaptureSource {
            name: self.title,
            width: self.width,
            height: self.height,
            source_type: CaptureSourceType::Window,
            handle: self.hwnd,
            left: 0,
            top: 0,
        }
    }

    /// The window as a capture source.
    pub fn to_source(&self) -> (s: CaptureSource)
        ensures
            s == self.source(),
    {
        CaptureSource {
            name: self.title.clone(),
            width: self.width,
            height: self.height,
            source_type: CaptureSourceType::Window,
            handle: self.hwnd,
            left: 0,
            top: 0,
        }
    }
}

} // verus!
