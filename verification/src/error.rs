//! The closed error taxonomy exposed to callers.

use vstd::prelude::*;

verus! {

/// Why a requested capability is absent on this backend or compositor.
#[derive(Clone, Copy, Debug, PartialEq, Eq, Structural)]
pub enum NotSupportedReason {
    /// The pointer-constraints protocol extension was not offered.
    PointerConstraintsMissing,
    /// The cursor position can only be assigned while the pointer is locked.
    CursorPositionRequiresLock,
    /// Startup notification is not supported by the running backend.
    StartupNotifyMissing,
    /// A display variable for the first backend was seen, but that backend
    /// was compiled out.
    WaylandFeatureMissing,
    /// A display variable for the second backend was seen, but that backend
    /// was compiled out.
    X11FeatureMissing,
    /// No display-server variable was present at all.
    NoDisplayFound,
}

/// The requested operation is not supported here.
#[derive(Clone, Copy, Debug, PartialEq, Eq, Structural)]
pub struct NotSupportedError {
    pub reason: NotSupportedReason,
}

/// The message a caller would log for each capability failure.
pub open spec fn not_supported_message(reason: NotSupportedReason) -> Seq<char> {
    match reason {
        NotSupportedReason::PointerConstraintsMissing => {
            "zwp_pointer_constraints is not available"@
        },
        NotSupportedReason::CursorPositionRequiresLock => {
            "cursor position could only be changed for locked pointer"@
        },
        NotSupportedReason::StartupNotifyMissing => "startup notify is not supported"@,
        NotSupportedReason::WaylandFeatureMissing => {
            "DISPLAY is not set; note: enable the `winit/wayland` feature to support Wayland"@
        },
        NotSupportedReason::X11FeatureMissing => {
            "neither WAYLAND_DISPLAY nor WAYLAND_SOCKET is set; note: enable the `winit/x11` feature to support X11"@
        },
        NotSupportedReason::NoDisplayFound => {
            "neither WAYLAND_DISPLAY nor WAYLAND_SOCKET nor DISPLAY is set."@
        },
    }
}

impl NotSupportedError {
    pub fn new(reason: NotSupportedReason) -> (r: Self)
        ensures
            r.reason == reason,
    {
        NotSupportedError { reason }
    }

    /// A human-readable description of the failure.
    pub fn message(&self) -> (r: &'static str)
        ensures
            r@ == not_supported_message(self.reason),
    {
        match self.reason {
            NotSupportedReason::PointerConstraintsMissing => {
                "zwp_pointer_constraints is not available"
            },
            NotSupportedReason::CursorPositionRequiresLock => {
                "cursor position could only be changed for locked pointer"
            },
            NotSupportedReason::StartupNotifyMissing => "startup notify is not supported",
            NotSupportedReason::WaylandFeatureMissing => {
                "DISPLAY is not set; note: enable the `winit/wayland` feature to support Wayland"
            },
            NotSupportedReason::X11FeatureMissing => {
                "neither WAYLAND_DISPLAY nor WAYLAND_SOCKET is set; note: enable the `winit/x11` feature to support X11"
            },
            NotSupportedReason::NoDisplayFound => {
                "neither WAYLAND_DISPLAY nor WAYLAND_SOCKET nor DISPLAY is set."
            },
        }
    }
}

/// An underlying protocol call failed with a backend-native error code.
#[derive(Clone, Copy, Debug, PartialEq, Eq, Structural)]
pub struct OsError {
    pub code: i32,
}

/// A failure returned from a surface request.
#[derive(Clone, Copy, Debug, PartialEq, Eq, Structural)]
pub enum RequestError {
    NotSupported(NotSupportedError),
    Os(OsError),
}

/// A failure while creating the event loop.
#[derive(Clone, Copy, Debug, PartialEq, Eq, Structural)]
pub enum EventLoopError {
    NotSupported(NotSupportedError),
    Os(OsError),
}

/// Misuse of the single-occupancy event handler slot. These indicate a
/// programming error in the embedding application; the shell around the
/// library treats them as fatal.
#[derive(Clone, Copy, Debug, PartialEq, Eq, Structural)]
pub enum ReentrancyViolation {
    /// `set` was called while a handler was already installed.
    SetWhileSet,
    /// `set` was called while the installed handler was being run.
    SetWhileBorrowed,
    /// The slot was asked to drop its handler while the handler was being run.
    ClearWhileBorrowed,
}

} // verus!
