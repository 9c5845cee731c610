//! Cursor selection: named icons and custom buffer-backed images.

use vstd::prelude::*;

verus! {

/// A named cursor icon from the standard theme.
#[derive(Clone, Copy, Debug, PartialEq, Eq, Structural)]
pub enum CursorIcon {
    /// The platform-dependent standard arrow; the initial selection.
    Standard,
    Crosshair,
    Pointer,
    Text,
    Wait,
    Help,
    Progress,
    Move,
    Grab,
    Grabbing,
    NotAllowed,
}

/// A custom cursor image held in a shared-memory buffer.
#[derive(Clone, Copy, Debug, PartialEq, Eq, Structural)]
pub struct CustomCursor {
    /// Identity of the allocated buffer holding the image.
    pub buffer_id: u64,
    /// Image width in surface-logical pixels.
    pub w: i32,
    /// Image height in surface-logical pixels.
    pub h: i32,
    /// Hotspot offset from the image's left edge.
    pub hotspot_x: i32,
    /// Hotspot offset from the image's top edge.
    pub hotspot_y: i32,
}

impl CustomCursor {
    /// A cursor image has non-negative extent and hotspot.
    pub open spec fn wf(self) -> bool {
        self.w >= 0 && self.h >= 0 && self.hotspot_x >= 0 && self.hotspot_y >= 0
    }
}

/// The cursor currently selected for a surface. The selection is remembered
/// even while the cursor is hidden, so restoring visibility reapplies it.
#[derive(Clone, Copy, Debug, PartialEq, Eq, Structural)]
pub enum Cursor {
    Icon(CursorIcon),
    Custom(CustomCursor),
}

impl Cursor {
    /// The selection is well-formed: a custom image has non-negative extent.
    pub open spec fn wf(self) -> bool {
        match self {
            Cursor::Icon(_) => true,
            Cursor::Custom(c) => c.wf(),
        }
    }
}

} // verus!
