//! The subsurface handle.
//!
//! A subsurface is a presentable surface positioned relative to a parent
//! surface (a top-level window or another subsurface). Lacking an
//! independent configuration handshake, it is considered configured upon
//! creation and synchronizes with the parent on the next commit. The handle
//! owns the surface's state record and its request flags; operations return
//! the display-server requests for the shell to perform.

use vstd::prelude::*;

use crate::cursor::{Cursor, CustomCursor};
use crate::error::{
    NotSupportedError, NotSupportedReason, OsError, RequestError,
};
use crate::flags::{with_redraw_requested, WindowRequests};
use crate::geometry::{
    clamp_size_to_min, logical_to_physical_rounded, logical_to_physical_rounded_pos,
    scale_round_i32, scale_round_u32, LogicalPosition, LogicalSize, PhysicalPosition,
    PhysicalSize, ScaleFactor,
};
use crate::pointer::PointerRegistry;
use crate::startup::{AsyncRequestSerial, WindowAttributesExtStartupNotify, WindowExtStartupNotify};
use crate::startup::ActivationToken;
use crate::surface::{
    broadcast_requests, transparency_hint_requests, CursorGrabMode, FrameCallbackState, GrabState,
    PointerOp, ProtocolRequest, SubsurfaceState,
};

verus! {

/// Default logical width of a surface when the caller specifies none.
pub const DEFAULT_SURFACE_WIDTH: u32 = 200;

/// Default logical height of a surface when the caller specifies none.
pub const DEFAULT_SURFACE_HEIGHT: u32 = 200;

/// The optional protocol globals the compositor offered to the event loop.
#[derive(Clone, Copy, Debug, PartialEq, Eq, Structural)]
pub struct CompositorCapabilities {
    /// The subcompositor global, required to create subsurfaces.
    pub subcompositor: bool,
    /// The pointer-constraints extension, required to lock or confine.
    pub pointer_constraints: bool,
    /// The viewporter global, carrying destination viewports.
    pub viewport: bool,
    /// The fractional-scaling extension.
    pub fractional_scale: bool,
    /// The activation global, required for startup notification.
    pub activation: bool,
}

/// Attributes for a subsurface under construction; every field is optional
/// with a documented default.
pub struct SubsurfaceAttributes {
    /// Initial logical size; defaults to a fixed fallback.
    pub surface_size: Option<LogicalSize>,
    /// Initial position in the parent's logical coordinates; defaults to
    /// the origin.
    pub position: Option<LogicalPosition>,
    /// Whether the surface is created transparent.
    pub transparent: bool,
    /// The initially selected cursor.
    pub cursor: Cursor,
    /// A token to hand to the display server during creation.
    pub activation_token: Option<ActivationToken>,
}

impl SubsurfaceAttributes {
    /// All-default attributes: fallback size at the origin, opaque, with
    /// the standard cursor icon.
    pub fn new() -> (r: Self)
        ensures
            r.surface_size is None,
            r.position is None,
            !r.transparent,
            r.cursor == Cursor::Icon(crate::cursor::CursorIcon::Standard),
            r.activation_token is None,
    {
        SubsurfaceAttributes {
            surface_size: None,
            position: None,
            transparent: false,
            cursor: Cursor::Icon(crate::cursor::CursorIcon::Standard),
            activation_token: None,
        }
    }

    /// The effective initial size.
    pub open spec fn effective_size(self) -> LogicalSize {
        match self.surface_size {
            Some(s) => s,
            None => LogicalSize { width: DEFAULT_SURFACE_WIDTH, height: DEFAULT_SURFACE_HEIGHT },
        }
    }

    /// The effective initial position.
    pub open spec fn effective_position(self) -> LogicalPosition {
        match self.position {
            Some(p) => p,
            None => LogicalPosition { x: 0, y: 0 },
        }
    }
}

impl SubsurfaceAttributes {
    /// Attach an activation token for use during creation.
    pub fn with_token(self, token: ActivationToken) -> (r: Self)
        ensures
            r.activation_token == Some(token),
            r.surface_size == self.surface_size,
            r.position == self.position,
            r.transparent == self.transparent,
            r.cursor == self.cursor,
    {
        SubsurfaceAttributes { activation_token: Some(token), ..self }
    }
}

impl WindowAttributesExtStartupNotify for SubsurfaceAttributes {
    fn with_activation_token(self, token: ActivationToken) -> Self {
        self.with_token(token)
    }
}

/// The requests issued while creating a subsurface: the input region is
/// cleared (a fresh subsurface accepts no input), the transparency hint is
/// issued, the surface is committed, a roundtrip synchronizes with the
/// display server, and the loop is woken.
pub open spec fn creation_requests(transparent: bool) -> Seq<ProtocolRequest> {
    seq![ProtocolRequest::ClearInputRegion] + transparency_hint_requests(transparent) + seq![
        ProtocolRequest::CommitSurface,
        ProtocolRequest::Roundtrip,
        ProtocolRequest::WakeLoop,
    ]
}

/// A subsurface handle: its identity, its parent relation, its state
/// record, and the request flags shared with the event loop.
pub struct Subsurface {
    /// The surface's identity in the event loop's table.
    pub surface_id: u64,
    /// The parent surface's identity.
    pub parent_id: u64,
    /// The state of the window.
    pub subsurface_state: SubsurfaceState,
    /// Close/redraw requests to the event loop.
    pub window_requests: WindowRequests,
    /// Identities of the monitors the loop has observed.
    pub monitors: Vec<u64>,
    /// Identities of the outputs the surface is currently shown on.
    pub outputs: Vec<u64>,
    /// Whether startup notification is available.
    pub activation: bool,
    /// The serial the next activation-token request will be filed under.
    pub next_activation_serial: u64,
}

impl Subsurface {
    /// The handle invariant is its state's invariant.
    pub open spec fn wf(self) -> bool {
        self.subsurface_state.wf()
    }

    /// Create a subsurface of the given parent. Fails when the compositor
    /// offers no subcompositor global. The new surface starts with its
    /// redraw flag set, so the first dispatch round delivers a redraw.
    pub fn new(
        caps: CompositorCapabilities,
        attributes: SubsurfaceAttributes,
        parent_id: u64,
        surface_id: u64,
        reg: &PointerRegistry,
    ) -> (r: Result<(Subsurface, Vec<ProtocolRequest>), RequestError>)
        requires
            reg.wf(),
            attributes.cursor.wf(),
        ensures
            match r {
                Ok(sr) => {
                    let s = sr.0;
                    &&& caps.subcompositor
                    &&& s.wf()
                    &&& s.surface_id == surface_id
                    &&& s.parent_id == parent_id
                    &&& s.subsurface_state.last_configure is None
                    &&& s.subsurface_state.pointers@.len() == 0
                    &&& s.subsurface_state.selected_cursor == attributes.cursor
                    &&& s.subsurface_state.cursor_visible
                    &&& s.subsurface_state.pointer_constraints == caps.pointer_constraints
                    &&& s.subsurface_state.transparent == attributes.transparent
                    &&& s.subsurface_state.cursor_grab_mode == (GrabState {
                        current_grab_mode: CursorGrabMode::NoGrab,
                        user_grab_mode: CursorGrabMode::NoGrab,
                    })
                    &&& s.subsurface_state.position == attributes.effective_position()
                    &&& s.subsurface_state.size == clamp_size_to_min(attributes.effective_size())
                    &&& s.subsurface_state.scale_factor.millis == 1000
                    &&& s.subsurface_state.frame_callback_state
                        == FrameCallbackState::NotRequested
                    &&& s.subsurface_state.viewport == caps.viewport
                    &&& s.subsurface_state.fractional_scale == caps.fractional_scale
                    &&& s.window_requests == (WindowRequests {
                        closed: false,
                        redraw_requested: true,
                    })
                    &&& s.monitors@.len() == 0
                    &&& s.outputs@.len() == 0
                    &&& s.activation == caps.activation
                    &&& s.next_activation_serial == 0
                    &&& sr.1@ == creation_requests(attributes.transparent)
                },
                Err(e) => !caps.subcompositor && e == RequestError::Os(OsError { code: 0 }),
            },
    {
        if !caps.subcompositor {
            // No native error code accompanies a missing global; the shell
            // logs "wl_subcompositor not available".
            return Err(RequestError::Os(OsError { code: 0 }));
        }
        let mut out: Vec<ProtocolRequest> = Vec::new();
        out.push(ProtocolRequest::ClearInputRegion);

        let mut state = SubsurfaceState::new(
            caps.pointer_constraints,
            caps.viewport,
            caps.fractional_scale,
            match attributes.position {
                Some(p) => p,
                None => LogicalPosition { x: 0, y: 0 },
            },
            match attributes.surface_size {
                Some(s) => s,
                None => LogicalSize {
                    width: DEFAULT_SURFACE_WIDTH,
                    height: DEFAULT_SURFACE_HEIGHT,
                },
            },
        );

        let mut hint = state.set_transparent(attributes.transparent);
        out.append(&mut hint);

        // The surface has no bound pointers yet, so applying the initial
        // cursor selection issues no per-pointer requests.
        let mut cursor_out = match attributes.cursor {
            Cursor::Icon(icon) => state.set_cursor(reg, icon),
            Cursor::Custom(custom) => state.set_custom_cursor(reg, custom),
        };
        out.append(&mut cursor_out);

        out.push(ProtocolRequest::CommitSurface);
        out.push(ProtocolRequest::Roundtrip);
        out.push(ProtocolRequest::WakeLoop);

        let sub = Subsurface {
            surface_id,
            parent_id,
            subsurface_state: state,
            window_requests: WindowRequests::new(),
            monitors: Vec::new(),
            outputs: Vec::new(),
            activation: caps.activation,
            next_activation_serial: 0,
        };
        proof {
            assert(out@ =~= creation_requests(attributes.transparent));
        }
        Ok((sub, out))
    }

    /// The surface's identity.
    pub fn id(&self) -> (r: u64)
        ensures
            r == self.surface_id,
    {
        self.surface_id
    }

    /// The current scale factor.
    pub fn scale_factor(&self) -> (r: ScaleFactor)
        ensures
            r == self.subsurface_state.scale_factor,
    {
        self.subsurface_state.scale_factor()
    }

    /// Request a redraw. Requests are coalesced: the loop is woken only
    /// when the flag was not already set, because a set flag means the loop
    /// still owes a delivery and will observe the request anyway.
    pub fn request_redraw(&mut self) -> (out: Vec<ProtocolRequest>)
        ensures
            final(self).window_requests == with_redraw_requested(old(self).window_requests),
            *final(self) == (Subsurface {
                window_requests: final(self).window_requests,
                ..*old(self)
            }),
            out@ == if old(self).window_requests.redraw_requested {
                Seq::<ProtocolRequest>::empty()
            } else {
                seq![ProtocolRequest::WakeLoop]
            },
    {
        let mut out: Vec<ProtocolRequest> = Vec::new();
        if self.window_requests.request_redraw() {
            out.push(ProtocolRequest::WakeLoop);
        }
        out
    }

    /// Mark the surface closed and wake the loop so it reclaims the table
    /// entry after delivering the closing notification. The shell calls
    /// this when the handle is dropped.
    pub fn close(&mut self) -> (out: Vec<ProtocolRequest>)
        ensures
            final(self).window_requests.closed,
            final(self).window_requests.redraw_requested == old(
                self,
            ).window_requests.redraw_requested,
            *final(self) == (Subsurface {
                window_requests: final(self).window_requests,
                ..*old(self)
            }),
            out@ == seq![ProtocolRequest::WakeLoop],
    {
        self.window_requests.set_closed();
        let mut out: Vec<ProtocolRequest> = Vec::new();
        out.push(ProtocolRequest::WakeLoop);
        out
    }

    /// Notify that a present is about to happen: ask for a frame callback
    /// unless one is already in flight.
    pub fn pre_present_notify(&mut self) -> (out: Vec<ProtocolRequest>)
        ensures
            *final(self) == (Subsurface {
                subsurface_state: final(self).subsurface_state,
                ..*old(self)
            }),
            match old(self).subsurface_state.frame_callback_state {
                FrameCallbackState::Requested => final(self).subsurface_state == old(
                    self,
                ).subsurface_state && out@ == Seq::<ProtocolRequest>::empty(),
                _ => final(self).subsurface_state == (SubsurfaceState {
                    frame_callback_state: FrameCallbackState::Requested,
                    ..old(self).subsurface_state
                }) && out@ == seq![ProtocolRequest::FrameRequest],
            },
    {
        self.subsurface_state.request_frame_callback()
    }

    /// The surface size in device pixels, rounded by the current scale
    /// factor half away from zero.
    pub fn surface_size(&self) -> (r: PhysicalSize)
        ensures
            r.width == scale_round_u32(
                self.subsurface_state.size.width as nat,
                self.subsurface_state.scale_factor.millis as nat,
            ),
            r.height == scale_round_u32(
                self.subsurface_state.size.height as nat,
                self.subsurface_state.scale_factor.millis as nat,
            ),
    {
        logical_to_physical_rounded(
            self.subsurface_state.surface_size(),
            self.subsurface_state.scale_factor(),
        )
    }

    /// Request a new logical size, clamped to the platform minimum, and a
    /// coalesced redraw. Returns the resulting device-pixel size.
    pub fn request_surface_size(&mut self, size: LogicalSize) -> (r: (
        Option<PhysicalSize>,
        Vec<ProtocolRequest>,
    ))
        ensures
            final(self).subsurface_state == (SubsurfaceState {
                size: clamp_size_to_min(size),
                ..old(self).subsurface_state
            }),
            final(self).window_requests == with_redraw_requested(old(self).window_requests),
            *final(self) == (Subsurface {
                subsurface_state: final(self).subsurface_state,
                window_requests: final(self).window_requests,
                ..*old(self)
            }),
            r.0 == Some(
                PhysicalSize {
                    width: scale_round_u32(
                        clamp_size_to_min(size).width as nat,
                        old(self).subsurface_state.scale_factor.millis as nat,
                    ) as u32,
                    height: scale_round_u32(
                        clamp_size_to_min(size).height as nat,
                        old(self).subsurface_state.scale_factor.millis as nat,
                    ) as u32,
                },
            ),
            r.1@ == crate::surface::resize_requests(
                old(self).subsurface_state.transparent,
                old(self).subsurface_state.viewport,
                clamp_size_to_min(size),
            ) + if old(self).window_requests.redraw_requested {
                Seq::<ProtocolRequest>::empty()
            } else {
                seq![ProtocolRequest::WakeLoop]
            },
    {
        let (new_size, mut out) = self.subsurface_state.request_surface_size(size);
        let mut wake = self.request_redraw();
        out.append(&mut wake);
        (Some(new_size), out)
    }

    /// The subsurface position in device pixels.
    pub fn position(&self) -> (r: PhysicalPosition)
        ensures
            r.x as int == scale_round_i32(
                self.subsurface_state.position.x as int,
                self.subsurface_state.scale_factor.millis as nat,
            ),
            r.y as int == scale_round_i32(
                self.subsurface_state.position.y as int,
                self.subsurface_state.scale_factor.millis as nat,
            ),
    {
        logical_to_physical_rounded_pos(
            self.subsurface_state.position(),
            self.subsurface_state.scale_factor(),
        )
    }

    /// Move the subsurface within its parent.
    pub fn set_position(&mut self, position: LogicalPosition) -> (out: Vec<ProtocolRequest>)
        ensures
            final(self).subsurface_state == (SubsurfaceState {
                position,
                ..old(self).subsurface_state
            }),
            *final(self) == (Subsurface {
                subsurface_state: final(self).subsurface_state,
                ..*old(self)
            }),
            out@ == seq![
                ProtocolRequest::SetSubsurfacePosition(
                    scale_round_i32(
                        position.x as int,
                        old(self).subsurface_state.scale_factor.millis as nat,
                    ) as i32,
                    scale_round_i32(
                        position.y as int,
                        old(self).subsurface_state.scale_factor.millis as nat,
                    ) as i32,
                ),
            ],
    {
        let out = self.subsurface_state.set_position(position);
        self.subsurface_state.position = position;
        out
    }

    /// Record or drop the transparency hint.
    pub fn set_transparent(&mut self, transparent: bool) -> (out: Vec<ProtocolRequest>)
        ensures
            final(self).subsurface_state == (SubsurfaceState {
                transparent,
                ..old(self).subsurface_state
            }),
            *final(self) == (Subsurface {
                subsurface_state: final(self).subsurface_state,
                ..*old(self)
            }),
            out@ == transparency_hint_requests(transparent),
    {
        self.subsurface_state.set_transparent(transparent)
    }

    /// Select a cursor; a visible selection is pushed to every bound
    /// pointer.
    pub fn set_cursor(&mut self, reg: &PointerRegistry, cursor: Cursor) -> (out: Vec<
        ProtocolRequest,
    >)
        requires
            reg.wf(),
            cursor.wf(),
        ensures
            final(self).subsurface_state == (SubsurfaceState {
                selected_cursor: cursor,
                ..old(self).subsurface_state
            }),
            *final(self) == (Subsurface {
                subsurface_state: final(self).subsurface_state,
                ..*old(self)
            }),
            out@ == if old(self).subsurface_state.cursor_visible {
                crate::surface::show_cursor_requests(
                    *reg,
                    old(self).subsurface_state.pointers@,
                    cursor,
                )
            } else {
                Seq::<ProtocolRequest>::empty()
            },
    {
        match cursor {
            Cursor::Icon(icon) => self.subsurface_state.set_cursor(reg, icon),
            Cursor::Custom(custom) => self.subsurface_state.set_custom_cursor(reg, custom),
        }
    }

    /// Assign the cursor position; legal only under a locked grab. On
    /// success a redraw is requested, since the position is double-buffered
    /// protocol state.
    pub fn set_cursor_position(&mut self, reg: &PointerRegistry, position: LogicalPosition) -> (r:
        Result<Vec<ProtocolRequest>, RequestError>)
        requires
            reg.wf(),
        ensures
            match r {
                Ok(out) => {
                    &&& old(self).subsurface_state.pointer_constraints
                    &&& old(self).subsurface_state.cursor_grab_mode.current_grab_mode
                        == CursorGrabMode::Locked
                    &&& final(self).window_requests == with_redraw_requested(
                        old(self).window_requests,
                    )
                    &&& *final(self) == (Subsurface {
                        window_requests: final(self).window_requests,
                        ..*old(self)
                    })
                    &&& out@ == broadcast_requests(
                        *reg,
                        old(self).subsurface_state.pointers@,
                        PointerOp::SetLockedPosition(position),
                    ) + if old(self).window_requests.redraw_requested {
                        Seq::<ProtocolRequest>::empty()
                    } else {
                        seq![ProtocolRequest::WakeLoop]
                    }
                },
                Err(e) => {
                    &&& *final(self) == *old(self)
                    &&& if !old(self).subsurface_state.pointer_constraints {
                        e == RequestError::NotSupported(
                            NotSupportedError {
                                reason: NotSupportedReason::PointerConstraintsMissing,
                            },
                        )
                    } else {
                        old(self).subsurface_state.cursor_grab_mode.current_grab_mode
                            != CursorGrabMode::Locked && e == RequestError::NotSupported(
                            NotSupportedError {
                                reason: NotSupportedReason::CursorPositionRequiresLock,
                            },
                        )
                    }
                },
            },
    {
        match self.subsurface_state.set_cursor_position(reg, position) {
            Ok(mut out) => {
                let mut wake = self.request_redraw();
                out.append(&mut wake);
                Ok(out)
            },
            Err(e) => Err(e),
        }
    }

    /// Set the cursor grabbing mode.
    pub fn set_cursor_grab(&mut self, reg: &PointerRegistry, mode: CursorGrabMode) -> (r: Result<
        Vec<ProtocolRequest>,
        RequestError,
    >)
        requires
            reg.wf(),
        ensures
            *final(self) == (Subsurface {
                subsurface_state: final(self).subsurface_state,
                ..*old(self)
            }),
            old(self).subsurface_state.cursor_grab_mode.user_grab_mode == mode ==> (r matches Ok(
                out,
            ) && out@ == Seq::<ProtocolRequest>::empty() && *final(self) == *old(self)),
            old(self).subsurface_state.cursor_grab_mode.user_grab_mode != mode ==> match r {
                Ok(out) => {
                    if old(self).subsurface_state.pointer_constraints {
                        final(self).subsurface_state == (SubsurfaceState {
                            cursor_grab_mode: GrabState {
                                current_grab_mode: mode,
                                user_grab_mode: mode,
                            },
                            ..old(self).subsurface_state
                        }) && out@ == crate::surface::grab_release_requests(
                            *reg,
                            old(self).subsurface_state.pointers@,
                            old(self).subsurface_state.cursor_grab_mode.current_grab_mode,
                        ) + crate::surface::grab_apply_requests(
                            *reg,
                            old(self).subsurface_state.pointers@,
                            mode,
                        )
                    } else {
                        mode == CursorGrabMode::NoGrab && final(self).subsurface_state
                            == (SubsurfaceState {
                            cursor_grab_mode: GrabState {
                                current_grab_mode: old(
                                    self,
                                ).subsurface_state.cursor_grab_mode.current_grab_mode,
                                user_grab_mode: mode,
                            },
                            ..old(self).subsurface_state
                        }) && out@ == Seq::<ProtocolRequest>::empty()
                    }
                },
                Err(e) => !old(self).subsurface_state.pointer_constraints && mode
                    != CursorGrabMode::NoGrab && e == RequestError::NotSupported(
                    NotSupportedError { reason: NotSupportedReason::PointerConstraintsMissing },
                ) && *final(self) == *old(self),
            },
    {
        self.subsurface_state.set_cursor_grab(reg, mode)
    }

    /// Set the cursor's visibility.
    pub fn set_cursor_visible(&mut self, reg: &PointerRegistry, visible: bool) -> (out: Vec<
        ProtocolRequest,
    >)
        requires
            reg.wf(),
            old(self).wf(),
        ensures
            final(self).subsurface_state == (SubsurfaceState {
                cursor_visible: visible,
                ..old(self).subsurface_state
            }),
            *final(self) == (Subsurface {
                subsurface_state: final(self).subsurface_state,
                ..*old(self)
            }),
            out@ == if visible {
                crate::surface::show_cursor_requests(
                    *reg,
                    old(self).subsurface_state.pointers@,
                    old(self).subsurface_state.selected_cursor,
                )
            } else {
                broadcast_requests(*reg, old(self).subsurface_state.pointers@, PointerOp::Hide)
            },
    {
        self.subsurface_state.set_cursor_visible(reg, visible)
    }

    /// Control whether the surface accepts pointer input at all: disabling
    /// sets an explicit empty input region, enabling clears the input
    /// region back to the whole surface.
    pub fn set_cursor_hittest(&self, hittest: bool) -> (r: Result<
        Vec<ProtocolRequest>,
        RequestError,
    >)
        ensures
            r matches Ok(out) && out@ == (if hittest {
                seq![ProtocolRequest::ClearInputRegion]
            } else {
                seq![ProtocolRequest::SetInputRegionEmpty]
            }),
    {
        let mut out: Vec<ProtocolRequest> = Vec::new();
        if hittest {
            out.push(ProtocolRequest::ClearInputRegion);
        } else {
            out.push(ProtocolRequest::SetInputRegionEmpty);
        }
        Ok(out)
    }

    /// The monitor the surface is currently on: the first output it is
    /// shown on, absent when the compositor has not told yet.
    pub fn current_monitor(&self) -> (r: Option<u64>)
        ensures
            r == if self.outputs@.len() > 0 {
                Some(self.outputs@[0])
            } else {
                None::<u64>
            },
    {
        if self.outputs.len() > 0 {
            Some(self.outputs[0])
        } else {
            None
        }
    }

    /// The monitors the event loop has observed.
    pub fn available_monitors(&self) -> (r: &Vec<u64>)
        ensures
            r@ == self.monitors@,
    {
        &self.monitors
    }

    /// There is no concept of a primary monitor on this backend.
    pub fn primary_monitor(&self) -> (r: Option<u64>)
        ensures
            r is None,
    {
        None
    }
}

impl Subsurface {
    /// Request a new activation token; the token arrives asynchronously
    /// under the returned serial, fresh for every request. Fails when the
    /// backend offers no activation support (or the serial space is
    /// exhausted).
    pub fn request_activation_serial(&mut self) -> (r: Result<AsyncRequestSerial, RequestError>)
        ensures
            match r {
                Ok(serial) => {
                    &&& old(self).activation
                    &&& old(self).next_activation_serial < u64::MAX
                    &&& serial.serial == old(self).next_activation_serial
                    &&& *final(self) == (Subsurface {
                        next_activation_serial: (old(self).next_activation_serial + 1) as u64,
                        ..*old(self)
                    })
                },
                Err(e) => {
                    &&& (!old(self).activation || old(self).next_activation_serial == u64::MAX)
                    &&& e == RequestError::NotSupported(
                        NotSupportedError { reason: NotSupportedReason::StartupNotifyMissing },
                    )
                    &&& *final(self) == *old(self)
                },
            },
    {
        if !self.activation {
            return Err(
                RequestError::NotSupported(
                    NotSupportedError::new(NotSupportedReason::StartupNotifyMissing),
                ),
            );
        }
        if self.next_activation_serial == u64::MAX {
            return Err(
                RequestError::NotSupported(
                    NotSupportedError::new(NotSupportedReason::StartupNotifyMissing),
                ),
            );
        }
        let serial = self.next_activation_serial;
        self.next_activation_serial = serial + 1;
        Ok(AsyncRequestSerial { serial })
    }
}

impl WindowExtStartupNotify for Subsurface {
    /// Request a new activation token; the token arrives asynchronously
    /// under the returned serial.
    fn request_activation_token(&mut self) -> Result<AsyncRequestSerial, RequestError> {
        self.request_activation_serial()
    }
}

} // verus!
