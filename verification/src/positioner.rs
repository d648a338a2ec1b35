//! Tray anchor positioner: from the tray icon's screen rectangle to the
//! top-left corner at which the window is placed.

use vstd::prelude::*;

verus! {

/// Distance by which the window's left edge lies left of the tray icon's.
pub const HORIZONTAL_OFFSET: i32 = 140;

/// Gap between the tray icon's lower edge and the window's upper edge.
pub const VERTICAL_GAP: i32 = 5;

/// Origin of a rectangle, in the coordinate space in which the host gave it.
/// A logical origin holds the host's values cut to whole units.
#[derive(Clone, Copy, Debug, PartialEq, Eq, Structural)]
pub enum RectPosition {
    Physical { x: i32, y: i32 },
    Logical { x: i32, y: i32 },
}

/// Extent of a rectangle, in the coordinate space in which the host gave it.
/// A logical extent holds the host's values cut to whole units.
#[derive(Clone, Copy, Debug, PartialEq, Eq, Structural)]
#[allow(inconsistent_fields)]
pub enum RectSize {
    Physical { width: u32, height: u32 },
    Logical { width: i32, height: i32 },
}

/// The tray icon's rectangle as the host reports it.
#[derive(Clone, Copy, Debug, PartialEq, Eq, Structural)]
pub struct TrayRect {
    pub position: RectPosition,
    pub size: RectSize,
}

/// A rectangle in the single integer pixel space in which anchors are computed.
pub struct PixelRect {
    pub x: int,
    pub y: int,
    pub width: int,
    pub height: int,
}

/// Top-left corner of the window, in physical pixels.
#[derive(Clone, Copy, Debug, PartialEq, Eq, Structural)]
pub struct WindowPosition {
    pub x: i32,
    pub y: i32,
}

impl RectPosition {
    /// Horizontal coordinate; a logical unit counts as one pixel.
    pub open spec fn pixel_x(self) -> int {
        match self {
            RectPosition::Physical { x, .. } => x as int,
            RectPosition::Logical { x, .. } => x as int,
        }
    }

    /// Vertical coordinate; a logical unit counts as one pixel.
    pub open spec fn pixel_y(self) -> int {
        match self {
            RectPosition::Physical { y, .. } => y as int,
            RectPosition::Logical { y, .. } => y as int,
        }
    }
}

impl RectSize {
    /// Width; a logical unit counts as one pixel.
    pub open spec fn pixel_width(self) -> int {
        match self {
            RectSize::Physical { width, .. } => width as int,
            RectSize::Logical { width, .. } => width as int,
        }
    }

    /// Height; a logical unit counts as one pixel.
    pub open spec fn pixel_height(self) -> int {
        match self {
            RectSize::Physical { height, .. } => height as int,
            RectSize::Logical { height, .. } => height as int,
        }
    }
}

impl View for TrayRect {
    type V = PixelRect;

    open spec fn view(&self) -> PixelRect {
        PixelRect {
            x: self.position.pixel_x(),
            y: self.position.pixel_y(),
            width: self.size.pixel_width(),
            height: self.size.pixel_height(),
        }
    }
}

impl PixelRect {
    /// Horizontal coordinate of the anchor below this rectangle.
    pub open spec fn anchor_x(self) -> int {
        self.x - HORIZONTAL_OFFSET
    }

    /// Vertical coordinate of the anchor below this rectangle.
    pub open spec fn anchor_y(self) -> int {
        self.y + self.height + VERTICAL_GAP
    }

    /// Whether both anchor coordinates are 32-bit window coordinates.
    pub open spec fn anchor_fits(self) -> bool {
        &&& i32::MIN <= self.anchor_x() <= i32::MAX
        &&& i32::MIN <= self.anchor_y() <= i32::MAX
    }

    /// The anchor below this rectangle as a window position; meaningful
    /// where `anchor_fits` holds.
    pub open spec fn anchor(self) -> WindowPosition
        recommends
            self.anchor_fits(),
    {
        WindowPosition { x: self.anchor_x() as i32, y: self.anchor_y() as i32 }
    }
}

impl TrayRect {
    /// A rectangle reported in physical pixels.
    pub fn physical(x: i32, y: i32, width: u32, height: u32) -> (rect: TrayRect)
        ensures
            rect.position == (RectPosition::Physical { x, y }),
            rect.size == (RectSize::Physical { width, height }),
            rect@ == (PixelRect { x: x as int, y: y as int, width: width as int, height: height as int }),
    {
        TrayRect {
            position: RectPosition::Physical { x, y },
            size: RectSize::Physical { width, height },
        }
    }

    /// A rectangle reported in logical units, each already cut to a whole number.
    pub fn logical(x: i32, y: i32, width: i32, height: i32) -> (rect: TrayRect)
        ensures
            rect.position == (RectPosition::Logical { x, y }),
            rect.size == (RectSize::Logical { width, height }),
            rect@ == (PixelRect { x: x as int, y: y as int, width: width as int, height: height as int }),
    {
        TrayRect {
            position: RectPosition::Logical { x, y },
            size: RectSize::Logical { width, height },
        }
    }

    /// Horizontal coordinate in pixels, whichever space it was reported in.
    pub fn pixel_x(&self) -> (x: i32)
        ensures
            x == self@.x,
    {
        match self.position {
            RectPosition::Physical { x, .. } => x,
            RectPosition::Logical { x, .. } => x,
        }
    }

    /// Vertical coordinate in pixels, whichever space it was reported in.
    pub fn pixel_y(&self) -> (y: i32)
        ensures
            y == self@.y,
    {
        match self.position {
            RectPosition::Physical { y, .. } => y,
            RectPosition::Logical { y, .. } => y,
        }
    }

    /// Height in pixels, whichever space it was reported in.
    pub fn pixel_height(&self) -> (h: i64)
        ensures
            h == self@.height,
    {
        match self.size {
            RectSize::Physical { height, .. } => height as i64,
            RectSize::Logical { height, .. } => height as i64,
        }
    }

    /// Whether the anchor below this rectangle can be given to the window.
    pub fn anchor_fits(&self) -> (fits: bool)
        ensures
            fits == self@.anchor_fits(),
    {
        let x: i64 = self.pixel_x() as i64 - HORIZONTAL_OFFSET as i64;
        let y: i64 = self.pixel_y() as i64 + self.pixel_height() + VERTICAL_GAP as i64;
        i32::MIN as i64 <= x && x <= i32::MAX as i64 && i32::MIN as i64 <= y && y <= i32::MAX as i64
    }

    /// The corner at which the window appears to drop down from the tray icon:
    /// `HORIZONTAL_OFFSET` to the left of the icon's origin and `VERTICAL_GAP`
    /// below its lower edge.
    pub fn anchor(&self) -> (pos: WindowPosition)
        requires
            self@.anchor_fits(),
        ensures
            pos == self@.anchor(),
            pos.x == self@.x - HORIZONTAL_OFFSET,
            pos.y == self@.y + self@.height + VERTICAL_GAP,
    {
        let x: i64 = self.pixel_x() as i64 - HORIZONTAL_OFFSET as i64;
        let y: i64 = self.pixel_y() as i64 + self.pixel_height() + VERTICAL_GAP as i64;
        WindowPosition { x: x as i32, y: y as i32 }
    }
}

} // verus!
