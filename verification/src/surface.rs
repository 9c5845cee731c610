//! The per-surface state machine.
//!
//! The state reconciles compositor-issued configuration with client-requested
//! changes: size, position, scale, transparency, cursor selection and
//! visibility, pointer grab and frame pacing. Every operation that must reach
//! the display server returns the exact sequence of [`ProtocolRequest`]
//! values to perform; an unverified shell plays them against the live
//! connection. This keeps the decisions verified while the connection stays
//! outside.

use vstd::prelude::*;

use crate::cursor::{Cursor, CursorIcon, CustomCursor};
use crate::error::{NotSupportedError, NotSupportedReason, RequestError};
use crate::geometry::{
    clamp_size_to_min, clamp_to_min, logical_to_physical_rounded, scale_round_u32, size_meets_min,
    LogicalPosition, LogicalSize, PhysicalSize, ScaleFactor,
};
use crate::pointer::{PointerData, PointerId, PointerRegistry};

verus! {

/// One request to the display server, produced by the state machine and
/// performed by the shell that owns the live connection.
#[derive(Clone, Copy, Debug, PartialEq, Eq, Structural)]
pub enum ProtocolRequest {
    /// Mark the whole surface opaque (the maximum-extent region hint).
    SetOpaqueRegionFull,
    /// Drop the opaque-region hint (the surface may be transparent).
    ClearOpaqueRegion,
    /// Set the destination viewport to the given logical size (used if and
    /// only if fractional scaling is active).
    SetViewportDestination(u32, u32),
    /// Set the integer buffer scale of the window surface itself.
    SetSurfaceBufferScale(u32),
    /// Ask the compositor for one frame callback.
    FrameRequest,
    /// Set an explicit empty input region: the surface accepts no pointer
    /// input.
    SetInputRegionEmpty,
    /// Clear the input region back to "whole surface".
    ClearInputRegion,
    /// Commit the window surface.
    CommitSurface,
    /// Move the subsurface to the given device-pixel position in the
    /// parent's coordinate space.
    SetSubsurfacePosition(i32, i32),
    /// Wake the event loop so it notices updated request flags.
    WakeLoop,
    /// Block until the display server has processed all pending requests.
    Roundtrip,
    /// Apply a named cursor icon on one pointer.
    SetCursorIcon(PointerId, CursorIcon),
    /// Hide the cursor on one pointer, authorized by its latest enter
    /// serial.
    HideCursor(PointerId, u32),
    /// Set the buffer scale of one pointer's cursor surface.
    SetCursorBufferScale(PointerId, u32),
    /// Attach a custom cursor buffer to one pointer's cursor surface.
    AttachCursorBuffer(PointerId, u64),
    /// Damage the pointer's cursor surface in buffer coordinates (newer
    /// protocol versions).
    DamageBuffer(PointerId, i32, i32),
    /// Damage the pointer's cursor surface in surface-logical coordinates
    /// (older protocol versions).
    DamageSurface(PointerId, i32, i32),
    /// Commit one pointer's cursor surface.
    CommitCursorSurface(PointerId),
    /// Point one pointer at its cursor surface with the given enter serial
    /// and hotspot.
    SetCursor(PointerId, u32, i32, i32),
    /// Release a confined pointer.
    UnconfinePointer(PointerId),
    /// Release a locked pointer.
    UnlockPointer(PointerId),
    /// Lock a pointer in place.
    LockPointer(PointerId),
    /// Confine a pointer to the surface.
    ConfinePointer(PointerId),
    /// Assign the position of a locked pointer.
    SetLockedCursorPosition(PointerId, LogicalPosition),
}

/// A cursor-affecting operation broadcast uniformly over every live pointer
/// bound to the surface.
#[derive(Clone, Copy, Debug, PartialEq, Eq, Structural)]
pub enum PointerOp {
    SetIcon(CursorIcon),
    Hide,
    ApplyCustom(CustomCursor),
    Unconfine,
    Unlock,
    Lock,
    Confine,
    SetLockedPosition(LogicalPosition),
}

impl PointerOp {
    /// A broadcast operation is well-formed if a custom image it carries is.
    pub open spec fn wf(self) -> bool {
        match self {
            PointerOp::ApplyCustom(c) => c.wf(),
            _ => true,
        }
    }
}

/// The requests that applying a custom cursor image issues on one pointer.
/// The buffer scale is the one of the pointer's own cursor surface, and the
/// damage call is chosen by the protocol version negotiated for it.
pub open spec fn custom_cursor_requests(data: PointerData, p: PointerId, c: CustomCursor) -> Seq<
    ProtocolRequest,
> {
    let scale = data.surface_scale as int;
    seq![
        ProtocolRequest::SetCursorBufferScale(p, data.surface_scale),
        ProtocolRequest::AttachCursorBuffer(p, c.buffer_id),
        if data.surface_version >= 4 {
            ProtocolRequest::DamageBuffer(p, c.w, c.h)
        } else {
            ProtocolRequest::DamageSurface(p, (c.w as int / scale) as i32, (c.h as int / scale) as i32)
        },
        ProtocolRequest::CommitCursorSurface(p),
        ProtocolRequest::SetCursor(
            p,
            data.latest_enter_serial,
            (c.hotspot_x as int / scale) as i32,
            (c.hotspot_y as int / scale) as i32,
        ),
    ]
}

/// The requests one broadcast operation issues on one live pointer.
pub open spec fn pointer_requests(reg: PointerRegistry, p: PointerId, op: PointerOp) -> Seq<
    ProtocolRequest,
> {
    match op {
        PointerOp::SetIcon(icon) => seq![ProtocolRequest::SetCursorIcon(p, icon)],
        PointerOp::Hide => seq![
            ProtocolRequest::HideCursor(p, reg.data_spec(p).latest_enter_serial),
        ],
        PointerOp::ApplyCustom(c) => custom_cursor_requests(reg.data_spec(p), p, c),
        PointerOp::Unconfine => seq![ProtocolRequest::UnconfinePointer(p)],
        PointerOp::Unlock => seq![ProtocolRequest::UnlockPointer(p)],
        PointerOp::Lock => seq![ProtocolRequest::LockPointer(p)],
        PointerOp::Confine => seq![ProtocolRequest::ConfinePointer(p)],
        PointerOp::SetLockedPosition(pos) => seq![
            ProtocolRequest::SetLockedCursorPosition(p, pos),
        ],
    }
}

/// The requests a broadcast issues over a binding list: dead bindings are
/// pruned lazily, live ones are served in binding order.
pub open spec fn broadcast_requests(
    reg: PointerRegistry,
    ptrs: Seq<PointerId>,
    op: PointerOp,
) -> Seq<ProtocolRequest>
    decreases ptrs.len(),
{
    if ptrs.len() == 0 {
        Seq::empty()
    } else {
        let prefix = broadcast_requests(reg, ptrs.drop_last(), op);
        if reg.is_live(ptrs.last()) {
            prefix + pointer_requests(reg, ptrs.last(), op)
        } else {
            prefix
        }
    }
}

/// Issue the requests of one broadcast operation on one live pointer.
fn emit_pointer_requests(
    reg: &PointerRegistry,
    p: PointerId,
    op: PointerOp,
    out: &mut Vec<ProtocolRequest>,
)
    requires
        reg.wf(),
        reg.is_live(p),
        op.wf(),
    ensures
        final(out)@ == old(out)@ + pointer_requests(*reg, p, op),
{
    match op {
        PointerOp::SetIcon(icon) => {
            out.push(ProtocolRequest::SetCursorIcon(p, icon));
        },
        PointerOp::Hide => {
            let serial = reg.data(p).latest_enter_serial;
            out.push(ProtocolRequest::HideCursor(p, serial));
        },
        PointerOp::ApplyCustom(c) => {
            let data = reg.data(p);
            let scale = data.surface_scale as i32;
            out.push(ProtocolRequest::SetCursorBufferScale(p, data.surface_scale));
            out.push(ProtocolRequest::AttachCursorBuffer(p, c.buffer_id));
            if data.surface_version >= 4 {
                out.push(ProtocolRequest::DamageBuffer(p, c.w, c.h));
            } else {
                out.push(ProtocolRequest::DamageSurface(p, c.w / scale, c.h / scale));
            }
            out.push(ProtocolRequest::CommitCursorSurface(p));
            out.push(
                ProtocolRequest::SetCursor(
                    p,
                    data.latest_enter_serial,
                    c.hotspot_x / scale,
                    c.hotspot_y / scale,
                ),
            );
        },
        PointerOp::Unconfine => {
            out.push(ProtocolRequest::UnconfinePointer(p));
        },
        PointerOp::Unlock => {
            out.push(ProtocolRequest::UnlockPointer(p));
        },
        PointerOp::Lock => {
            out.push(ProtocolRequest::LockPointer(p));
        },
        PointerOp::Confine => {
            out.push(ProtocolRequest::ConfinePointer(p));
        },
        PointerOp::SetLockedPosition(pos) => {
            out.push(ProtocolRequest::SetLockedCursorPosition(p, pos));
        },
    }
    proof {
        assert(final(out)@ =~= old(out)@ + pointer_requests(*reg, p, op));
    }
}

/// Apply one broadcast operation on every live pointer bound to the
/// surface, appending the issued requests in binding order.
fn apply_on_pointers(
    reg: &PointerRegistry,
    ptrs: &Vec<PointerId>,
    op: PointerOp,
    out: &mut Vec<ProtocolRequest>,
)
    requires
        reg.wf(),
        op.wf(),
    ensures
        final(out)@ == old(out)@ + broadcast_requests(*reg, ptrs@, op),
{
    let mut i: usize = 0;
    while i < ptrs.len()
        invariant
            reg.wf(),
            op.wf(),
            i <= ptrs.len(),
            out@ == old(out)@ + broadcast_requests(*reg, ptrs@.take(i as int), op),
        decreases ptrs.len() - i,
    {
        let p = ptrs[i];
        if reg.live(p) {
            emit_pointer_requests(reg, p, op, out);
        }
        proof {
            assert(ptrs@.take(i + 1 as int).drop_last() =~= ptrs@.take(i as int));
            assert(ptrs@.take(i + 1 as int).last() == ptrs@[i as int]);
        }
        i += 1;
    }
    proof {
        assert(ptrs@.take(ptrs@.len() as int) =~= ptrs@);
    }
}

} // verus!

verus! {

/// The tri-state frame pacing record: at most one frame-callback round-trip
/// is ever in flight per surface.
#[derive(Clone, Copy, Debug, PartialEq, Eq, Structural)]
pub enum FrameCallbackState {
    /// No frame callback is outstanding.
    NotRequested,
    /// A frame callback was asked of the compositor and has not fired yet.
    Requested,
    /// The callback fired and waits to be consumed by the next present.
    Received,
}

/// Pointer confinement policy.
#[derive(Clone, Copy, Debug, PartialEq, Eq, Structural)]
pub enum CursorGrabMode {
    /// No constraint.
    NoGrab,
    /// The pointer is confined to the surface.
    Confined,
    /// The pointer is locked in place; the only mode that permits explicit
    /// cursor-position assignment.
    Locked,
}

/// The grab mode actually applied to the protocol and the one the user
/// asked for; the two differ while a constraint could not be applied yet.
#[derive(Clone, Copy, Debug, PartialEq, Eq, Structural)]
pub struct GrabState {
    pub current_grab_mode: CursorGrabMode,
    pub user_grab_mode: CursorGrabMode,
}

/// A compositor-acknowledged configuration.
#[derive(Clone, Copy, Debug, PartialEq, Eq, Structural)]
pub struct AcceptedConfiguration {
    pub size: LogicalSize,
}

/// The requests that reissuing the transparency hint produces.
pub open spec fn transparency_hint_requests(transparent: bool) -> Seq<ProtocolRequest> {
    if transparent {
        seq![ProtocolRequest::ClearOpaqueRegion]
    } else {
        seq![ProtocolRequest::SetOpaqueRegionFull]
    }
}

/// The requests a resize produces: the transparency hint is reapplied and,
/// with fractional scaling active, the destination viewport is updated to
/// the new logical size.
pub open spec fn resize_requests(transparent: bool, viewport: bool, size: LogicalSize) -> Seq<
    ProtocolRequest,
> {
    transparency_hint_requests(transparent) + if viewport {
        seq![ProtocolRequest::SetViewportDestination(size.width, size.height)]
    } else {
        Seq::<ProtocolRequest>::empty()
    }
}

/// The requests that release the resources of a previously applied grab.
pub open spec fn grab_release_requests(
    reg: PointerRegistry,
    ptrs: Seq<PointerId>,
    old_mode: CursorGrabMode,
) -> Seq<ProtocolRequest> {
    match old_mode {
        CursorGrabMode::NoGrab => Seq::<ProtocolRequest>::empty(),
        CursorGrabMode::Confined => broadcast_requests(reg, ptrs, PointerOp::Unconfine),
        CursorGrabMode::Locked => broadcast_requests(reg, ptrs, PointerOp::Unlock),
    }
}

/// The requests that apply a new grab mode to every bound pointer.
pub open spec fn grab_apply_requests(
    reg: PointerRegistry,
    ptrs: Seq<PointerId>,
    mode: CursorGrabMode,
) -> Seq<ProtocolRequest> {
    match mode {
        CursorGrabMode::NoGrab => Seq::<ProtocolRequest>::empty(),
        CursorGrabMode::Confined => broadcast_requests(reg, ptrs, PointerOp::Confine),
        CursorGrabMode::Locked => broadcast_requests(reg, ptrs, PointerOp::Lock),
    }
}

/// The requests that reapply the selected cursor when it becomes visible.
pub open spec fn show_cursor_requests(
    reg: PointerRegistry,
    ptrs: Seq<PointerId>,
    selected: Cursor,
) -> Seq<ProtocolRequest> {
    match selected {
        Cursor::Icon(icon) => broadcast_requests(reg, ptrs, PointerOp::SetIcon(icon)),
        Cursor::Custom(c) => broadcast_requests(reg, ptrs, PointerOp::ApplyCustom(c)),
    }
}

/// The state of one subsurface, shared between its handle and the event
/// loop.
pub struct SubsurfaceState {
    /// The last compositor-acknowledged configuration.
    pub last_configure: Option<AcceptedConfiguration>,
    /// Bindings to the pointer devices observed on the surface.
    pub pointers: Vec<PointerId>,
    /// The currently selected cursor, remembered across visibility changes.
    pub selected_cursor: Cursor,
    /// Whether the cursor is visible.
    pub cursor_visible: bool,
    /// Whether the pointer-constraints extension is available.
    pub pointer_constraints: bool,
    /// Whether the window is transparent.
    pub transparent: bool,
    /// The current cursor grabbing mode.
    pub cursor_grab_mode: GrabState,
    /// The position of the subsurface in its parent's logical coordinates.
    pub position: LogicalPosition,
    /// The logical size of the surface; never below the platform minimum.
    pub size: LogicalSize,
    /// The scale factor of the window.
    pub scale_factor: ScaleFactor,
    /// The state of the frame callback.
    pub frame_callback_state: FrameCallbackState,
    /// Whether a destination viewport is attached to the surface.
    pub viewport: bool,
    /// Whether fractional scaling is active.
    pub fractional_scale: bool,
}

impl SubsurfaceState {
    /// The state invariant: the size meets the platform minimum and the
    /// cursor selection is well-formed.
    pub open spec fn wf(self) -> bool {
        size_meets_min(self.size) && self.selected_cursor.wf()
    }

    /// Fresh state for a newly created subsurface. Subsurfaces have no
    /// configuration handshake of their own, so no configure is recorded
    /// yet; the initial size is clamped to the platform minimum.
    pub fn new(
        pointer_constraints: bool,
        viewport: bool,
        fractional_scale: bool,
        initial_position: LogicalPosition,
        initial_size: LogicalSize,
    ) -> (r: Self)
        ensures
            r.wf(),
            r.last_configure is None,
            r.pointers@.len() == 0,
            r.selected_cursor == Cursor::Icon(CursorIcon::Standard),
            r.cursor_visible,
            r.pointer_constraints == pointer_constraints,
            !r.transparent,
            r.cursor_grab_mode == (GrabState {
                current_grab_mode: CursorGrabMode::NoGrab,
                user_grab_mode: CursorGrabMode::NoGrab,
            }),
            r.position == initial_position,
            r.size == clamp_size_to_min(initial_size),
            r.scale_factor.millis == 1000,
            r.frame_callback_state == FrameCallbackState::NotRequested,
            r.viewport == viewport,
            r.fractional_scale == fractional_scale,
    {
        SubsurfaceState {
            last_configure: None,
            pointers: Vec::new(),
            selected_cursor: Cursor::Icon(CursorIcon::Standard),
            cursor_visible: true,
            pointer_constraints,
            transparent: false,
            cursor_grab_mode: GrabState {
                current_grab_mode: CursorGrabMode::NoGrab,
                user_grab_mode: CursorGrabMode::NoGrab,
            },
            position: initial_position,
            size: clamp_to_min(initial_size),
            scale_factor: ScaleFactor::unit(),
            frame_callback_state: FrameCallbackState::NotRequested,
            viewport,
            fractional_scale,
        }
    }

    /// Bind a pointer device that entered the surface.
    pub fn bind_pointer(&mut self, id: PointerId)
        ensures
            final(self).pointers@ == old(self).pointers@.push(id),
            *final(self) == (SubsurfaceState { pointers: final(self).pointers, ..*old(self) }),
    {
        self.pointers.push(id);
    }

    /// Record a compositor-acknowledged configuration. A subsurface has no
    /// configuration handshake of its own, so this arrives alongside the
    /// parent's.
    pub fn set_last_configure(&mut self, configure: AcceptedConfiguration)
        ensures
            *final(self) == (SubsurfaceState {
                last_configure: Some(configure),
                ..*old(self)
            }),
    {
        self.last_configure = Some(configure);
    }

    /// The current state of the frame callback.
    pub fn frame_callback_state(&self) -> (r: FrameCallbackState)
        ensures
            r == self.frame_callback_state,
    {
        self.frame_callback_state
    }

    /// The frame callback fired, but was not yet consumed by a present.
    pub fn frame_callback_received(&mut self)
        ensures
            *final(self) == (SubsurfaceState {
                frame_callback_state: FrameCallbackState::Received,
                ..*old(self)
            }),
    {
        self.frame_callback_state = FrameCallbackState::Received;
    }

    /// Reset the frame-callback state.
    pub fn frame_callback_reset(&mut self)
        ensures
            *final(self) == (SubsurfaceState {
                frame_callback_state: FrameCallbackState::NotRequested,
                ..*old(self)
            }),
    {
        self.frame_callback_state = FrameCallbackState::NotRequested;
    }

    /// Ask the compositor for a frame callback unless one is already in
    /// flight: issuing a request while one is outstanding is a no-op, so at
    /// most one round-trip is ever pending per surface.
    pub fn request_frame_callback(&mut self) -> (out: Vec<ProtocolRequest>)
        ensures
            match old(self).frame_callback_state {
                FrameCallbackState::Requested => *final(self) == *old(self) && out@ == Seq::<
                    ProtocolRequest,
                >::empty(),
                _ => *final(self) == (SubsurfaceState {
                    frame_callback_state: FrameCallbackState::Requested,
                    ..*old(self)
                }) && out@ == seq![ProtocolRequest::FrameRequest],
            },
    {
        let mut out: Vec<ProtocolRequest> = Vec::new();
        match self.frame_callback_state {
            FrameCallbackState::NotRequested | FrameCallbackState::Received => {
                self.frame_callback_state = FrameCallbackState::Requested;
                out.push(ProtocolRequest::FrameRequest);
            },
            FrameCallbackState::Requested => (),
        }
        out
    }

    /// The logical size of the surface.
    pub fn surface_size(&self) -> (r: LogicalSize)
        ensures
            r == self.size,
    {
        self.size
    }

    /// The position of the subsurface in its parent's logical coordinates.
    pub fn position(&self) -> (r: LogicalPosition)
        ensures
            r == self.position,
    {
        self.position
    }

    /// The scale factor of the window.
    pub fn scale_factor(&self) -> (r: ScaleFactor)
        ensures
            r == self.scale_factor,
    {
        self.scale_factor
    }

    /// Reissue the transparency hint: no opaque region when transparent, a
    /// maximum-extent opaque region otherwise. (Failure of the shell to
    /// allocate the region primitive is logged there and degrades to
    /// "transparent"; the hint is not a correctness requirement.)
    pub fn reload_transparency_hint(&self) -> (out: Vec<ProtocolRequest>)
        ensures
            out@ == transparency_hint_requests(self.transparent),
    {
        let mut out: Vec<ProtocolRequest> = Vec::new();
        if self.transparent {
            out.push(ProtocolRequest::ClearOpaqueRegion);
        } else {
            out.push(ProtocolRequest::SetOpaqueRegionFull);
        }
        out
    }

    /// Resize the surface, clamping to the platform minimum, reapplying the
    /// transparency hint and, when fractional scaling is active, the
    /// destination viewport, so the visible extent matches immediately.
    fn resize(&mut self, surface_size: LogicalSize) -> (out: Vec<ProtocolRequest>)
        ensures
            *final(self) == (SubsurfaceState {
                size: clamp_size_to_min(surface_size),
                ..*old(self)
            }),
            out@ == resize_requests(
                old(self).transparent,
                old(self).viewport,
                clamp_size_to_min(surface_size),
            ),
    {
        self.size = clamp_to_min(surface_size);
        let mut out = self.reload_transparency_hint();
        if self.viewport {
            out.push(ProtocolRequest::SetViewportDestination(self.size.width, self.size.height));
        }
        out
    }

    /// Request a new logical size. The resulting size in device pixels is
    /// returned, rounded by the current scale factor half away from zero.
    pub fn request_surface_size(&mut self, surface_size: LogicalSize) -> (r: (
        PhysicalSize,
        Vec<ProtocolRequest>,
    ))
        ensures
            *final(self) == (SubsurfaceState {
                size: clamp_size_to_min(surface_size),
                ..*old(self)
            }),
            size_meets_min(final(self).size),
            r.0.width == scale_round_u32(
                clamp_size_to_min(surface_size).width as nat,
                old(self).scale_factor.millis as nat,
            ),
            r.0.height == scale_round_u32(
                clamp_size_to_min(surface_size).height as nat,
                old(self).scale_factor.millis as nat,
            ),
            r.1@ == resize_requests(
                old(self).transparent,
                old(self).viewport,
                clamp_size_to_min(surface_size),
            ),
    {
        let out = self.resize(surface_size);
        (logical_to_physical_rounded(self.size, self.scale_factor), out)
    }

    /// Move the subsurface in its parent's coordinate space; the position is
    /// converted to device pixels by the current scale factor.
    pub fn set_position(&self, position: LogicalPosition) -> (out: Vec<ProtocolRequest>)
        ensures
            out@ == seq![
                ProtocolRequest::SetSubsurfacePosition(
                    crate::geometry::scale_round_i32(
                        position.x as int,
                        self.scale_factor.millis as nat,
                    ) as i32,
                    crate::geometry::scale_round_i32(
                        position.y as int,
                        self.scale_factor.millis as nat,
                    ) as i32,
                ),
            ],
    {
        let pos = crate::geometry::logical_to_physical_rounded_pos(position, self.scale_factor);
        let mut out: Vec<ProtocolRequest> = Vec::new();
        out.push(ProtocolRequest::SetSubsurfacePosition(pos.x, pos.y));
        out
    }

    /// Set the scale factor. When fractional scaling is not in use, the
    /// integer part is pushed as the surface's buffer scale.
    pub fn set_scale_factor(&mut self, scale_factor: ScaleFactor) -> (out: Vec<ProtocolRequest>)
        ensures
            *final(self) == (SubsurfaceState { scale_factor, ..*old(self) }),
            out@ == if old(self).fractional_scale {
                Seq::<ProtocolRequest>::empty()
            } else {
                seq![ProtocolRequest::SetSurfaceBufferScale(scale_factor.millis / 1000)]
            },
    {
        self.scale_factor = scale_factor;
        let mut out: Vec<ProtocolRequest> = Vec::new();
        if !self.fractional_scale {
            out.push(ProtocolRequest::SetSurfaceBufferScale(self.scale_factor.integer_part()));
        }
        out
    }

    /// Mark the window as transparent and reissue the hint.
    pub fn set_transparent(&mut self, transparent: bool) -> (out: Vec<ProtocolRequest>)
        ensures
            *final(self) == (SubsurfaceState { transparent, ..*old(self) }),
            out@ == transparency_hint_requests(transparent),
    {
        self.transparent = transparent;
        self.reload_transparency_hint()
    }

    /// Select a named cursor icon. If the cursor is hidden the selection is
    /// only recorded; if visible it is pushed to every bound pointer.
    pub fn set_cursor(&mut self, reg: &PointerRegistry, cursor_icon: CursorIcon) -> (out: Vec<
        ProtocolRequest,
    >)
        requires
            reg.wf(),
        ensures
            *final(self) == (SubsurfaceState {
                selected_cursor: Cursor::Icon(cursor_icon),
                ..*old(self)
            }),
            out@ == if old(self).cursor_visible {
                broadcast_requests(*reg, old(self).pointers@, PointerOp::SetIcon(cursor_icon))
            } else {
                Seq::<ProtocolRequest>::empty()
            },
    {
        self.selected_cursor = Cursor::Icon(cursor_icon);
        let mut out: Vec<ProtocolRequest> = Vec::new();
        if self.cursor_visible {
            apply_on_pointers(reg, &self.pointers, PointerOp::SetIcon(cursor_icon), &mut out);
        }
        out
    }

    /// Select a custom cursor image. If the cursor is hidden the selection
    /// is only recorded; if visible the image is applied to every bound
    /// pointer at that pointer's own surface scale.
    pub fn set_custom_cursor(&mut self, reg: &PointerRegistry, cursor: CustomCursor) -> (out: Vec<
        ProtocolRequest,
    >)
        requires
            reg.wf(),
            cursor.wf(),
        ensures
            *final(self) == (SubsurfaceState {
                selected_cursor: Cursor::Custom(cursor),
                ..*old(self)
            }),
            out@ == if old(self).cursor_visible {
                broadcast_requests(*reg, old(self).pointers@, PointerOp::ApplyCustom(cursor))
            } else {
                Seq::<ProtocolRequest>::empty()
            },
    {
        let mut out: Vec<ProtocolRequest> = Vec::new();
        if self.cursor_visible {
            apply_on_pointers(reg, &self.pointers, PointerOp::ApplyCustom(cursor), &mut out);
        }
        self.selected_cursor = Cursor::Custom(cursor);
        out
    }

    /// Set the visibility of the cursor. Becoming visible reapplies
    /// whichever cursor is selected to every bound pointer; becoming hidden
    /// clears every bound pointer's cursor surface, authorized by that
    /// pointer's most recent enter serial.
    pub fn set_cursor_visible(&mut self, reg: &PointerRegistry, cursor_visible: bool) -> (out: Vec<
        ProtocolRequest,
    >)
        requires
            reg.wf(),
            old(self).selected_cursor.wf(),
        ensures
            *final(self) == (SubsurfaceState { cursor_visible, ..*old(self) }),
            out@ == if cursor_visible {
                show_cursor_requests(*reg, old(self).pointers@, old(self).selected_cursor)
            } else {
                broadcast_requests(*reg, old(self).pointers@, PointerOp::Hide)
            },
    {
        self.cursor_visible = cursor_visible;
        let mut out: Vec<ProtocolRequest> = Vec::new();
        if self.cursor_visible {
            match self.selected_cursor {
                Cursor::Icon(icon) => {
                    apply_on_pointers(reg, &self.pointers, PointerOp::SetIcon(icon), &mut out);
                },
                Cursor::Custom(c) => {
                    apply_on_pointers(reg, &self.pointers, PointerOp::ApplyCustom(c), &mut out);
                },
            }
        } else {
            apply_on_pointers(reg, &self.pointers, PointerOp::Hide, &mut out);
        }
        out
    }

    /// Set the grabbing state on the surface, without recording the
    /// user-visible mode: the previous mode's resources are released before
    /// the new constraint is applied. If the constraint capability is
    /// missing and a constraint was asked for, the call fails and the state
    /// is left untouched.
    fn set_cursor_grab_inner(&mut self, reg: &PointerRegistry, mode: CursorGrabMode) -> (r: Result<
        Vec<ProtocolRequest>,
        RequestError,
    >)
        requires
            reg.wf(),
        ensures
            match r {
                Ok(out) => {
                    if old(self).pointer_constraints {
                        *final(self) == (SubsurfaceState {
                            cursor_grab_mode: GrabState {
                                current_grab_mode: mode,
                                user_grab_mode: old(self).cursor_grab_mode.user_grab_mode,
                            },
                            ..*old(self)
                        }) && out@ == grab_release_requests(
                            *reg,
                            old(self).pointers@,
                            old(self).cursor_grab_mode.current_grab_mode,
                        ) + grab_apply_requests(*reg, old(self).pointers@, mode)
                    } else {
                        mode == CursorGrabMode::NoGrab && *final(self) == *old(self) && out@
                            == Seq::<ProtocolRequest>::empty()
                    }
                },
                Err(e) => !old(self).pointer_constraints && mode != CursorGrabMode::NoGrab && e
                    == RequestError::NotSupported(
                    NotSupportedError { reason: NotSupportedReason::PointerConstraintsMissing },
                ) && *final(self) == *old(self),
            },
    {
        if !self.pointer_constraints {
            if matches!(mode, CursorGrabMode::NoGrab) {
                return Ok(Vec::new());
            }
            return Err(
                RequestError::NotSupported(
                    NotSupportedError::new(NotSupportedReason::PointerConstraintsMissing),
                ),
            );
        }
        let old_mode = self.cursor_grab_mode.current_grab_mode;
        self.cursor_grab_mode.current_grab_mode = mode;

        let mut out: Vec<ProtocolRequest> = Vec::new();
        match old_mode {
            CursorGrabMode::NoGrab => (),
            CursorGrabMode::Confined => {
                apply_on_pointers(reg, &self.pointers, PointerOp::Unconfine, &mut out);
            },
            CursorGrabMode::Locked => {
                apply_on_pointers(reg, &self.pointers, PointerOp::Unlock, &mut out);
            },
        }
        match mode {
            CursorGrabMode::Locked => {
                apply_on_pointers(reg, &self.pointers, PointerOp::Lock, &mut out);
            },
            CursorGrabMode::Confined => {
                apply_on_pointers(reg, &self.pointers, PointerOp::Confine, &mut out);
            },
            CursorGrabMode::NoGrab => (),
        }
        Ok(out)
    }

    /// Set the cursor grabbing mode. Setting the mode the user already has
    /// is a no-op that performs no protocol calls. Otherwise the previous
    /// mode's resources are released first; on success the new mode is
    /// recorded as both the applied and the user-visible mode.
    pub fn set_cursor_grab(&mut self, reg: &PointerRegistry, mode: CursorGrabMode) -> (r: Result<
        Vec<ProtocolRequest>,
        RequestError,
    >)
        requires
            reg.wf(),
        ensures
            old(self).cursor_grab_mode.user_grab_mode == mode ==> (r matches Ok(out) && out@
                == Seq::<ProtocolRequest>::empty() && *final(self) == *old(self)),
            old(self).cursor_grab_mode.user_grab_mode != mode ==> match r {
                Ok(out) => {
                    if old(self).pointer_constraints {
                        *final(self) == (SubsurfaceState {
                            cursor_grab_mode: GrabState {
                                current_grab_mode: mode,
                                user_grab_mode: mode,
                            },
                            ..*old(self)
                        }) && out@ == grab_release_requests(
                            *reg,
                            old(self).pointers@,
                            old(self).cursor_grab_mode.current_grab_mode,
                        ) + grab_apply_requests(*reg, old(self).pointers@, mode)
                    } else {
                        mode == CursorGrabMode::NoGrab && *final(self) == (SubsurfaceState {
                            cursor_grab_mode: GrabState {
                                current_grab_mode: old(
                                    self,
                                ).cursor_grab_mode.current_grab_mode,
                                user_grab_mode: mode,
                            },
                            ..*old(self)
                        }) && out@ == Seq::<ProtocolRequest>::empty()
                    }
                },
                Err(e) => !old(self).pointer_constraints && mode != CursorGrabMode::NoGrab && e
                    == RequestError::NotSupported(
                    NotSupportedError { reason: NotSupportedReason::PointerConstraintsMissing },
                ) && *final(self) == *old(self),
            },
    {
        if self.cursor_grab_mode.user_grab_mode == mode {
            return Ok(Vec::new());
        }
        let out = self.set_cursor_grab_inner(reg, mode)?;
        self.cursor_grab_mode.user_grab_mode = mode;
        Ok(out)
    }

    /// Assign the position of the cursor. Legal only while the grab mode is
    /// locked; otherwise the call fails and nothing is mutated. The caller
    /// is responsible for requesting a redraw afterwards, since the position
    /// is double-buffered protocol state.
    pub fn set_cursor_position(&self, reg: &PointerRegistry, position: LogicalPosition) -> (r:
        Result<Vec<ProtocolRequest>, RequestError>)
        requires
            reg.wf(),
        ensures
            match r {
                Ok(out) => self.pointer_constraints && self.cursor_grab_mode.current_grab_mode
                    == CursorGrabMode::Locked && out@ == broadcast_requests(
                    *reg,
                    self.pointers@,
                    PointerOp::SetLockedPosition(position),
                ),
                Err(e) => if !self.pointer_constraints {
                    e == RequestError::NotSupported(
                        NotSupportedError {
                            reason: NotSupportedReason::PointerConstraintsMissing,
                        },
                    )
                } else {
                    self.cursor_grab_mode.current_grab_mode != CursorGrabMode::Locked && e
                        == RequestError::NotSupported(
                        NotSupportedError {
                            reason: NotSupportedReason::CursorPositionRequiresLock,
                        },
                    )
                },
            },
    {
        if !self.pointer_constraints {
            return Err(
                RequestError::NotSupported(
                    NotSupportedError::new(NotSupportedReason::PointerConstraintsMissing),
                ),
            );
        }
        if !matches!(self.cursor_grab_mode.current_grab_mode, CursorGrabMode::Locked) {
            return Err(
                RequestError::NotSupported(
                    NotSupportedError::new(NotSupportedReason::CursorPositionRequiresLock),
                ),
            );
        }
        let mut out: Vec<ProtocolRequest> = Vec::new();
        apply_on_pointers(reg, &self.pointers, PointerOp::SetLockedPosition(position), &mut out);
        Ok(out)
    }
}

} // verus!
