//! The surface state machine: sizing, scaling, cursor, grab, frame pacing.

use winloop::cursor::{Cursor, CursorIcon, CustomCursor};
use winloop::error::{NotSupportedReason, RequestError};
use winloop::geometry::{
    logical_to_physical_rounded, logical_to_physical_rounded_pos, LogicalPosition, LogicalSize,
    PhysicalSize, ScaleFactor,
};
use winloop::pointer::{PointerData, PointerRegistry};
use winloop::surface::{
    CursorGrabMode, FrameCallbackState, ProtocolRequest, SubsurfaceState,
};

fn fresh_state(pointer_constraints: bool) -> SubsurfaceState {
    SubsurfaceState::new(
        pointer_constraints,
        false,
        false,
        LogicalPosition { x: 0, y: 0 },
        LogicalSize { width: 100, height: 100 },
    )
}

fn one_pointer(serial: u32, scale: u32, version: u32) -> (PointerRegistry, winloop::pointer::PointerId) {
    let mut reg = PointerRegistry::new();
    let id = reg.register(PointerData {
        latest_enter_serial: serial,
        surface_scale: scale,
        surface_version: version,
    });
    (reg, id)
}

#[test]
fn sizes_below_the_minimum_are_clamped_up() {
    let mut state = fresh_state(false);
    let (size, _requests) = state.request_surface_size(LogicalSize { width: 0, height: 0 });
    assert_eq!(state.surface_size(), LogicalSize { width: 2, height: 1 });
    assert_eq!(size, PhysicalSize { width: 2, height: 1 });

    let (_, _) = state.request_surface_size(LogicalSize { width: 1, height: 300 });
    assert_eq!(state.surface_size(), LogicalSize { width: 2, height: 300 });
}

#[test]
fn scale_rounding_is_half_away_from_zero() {
    let scale = ScaleFactor { millis: 1500 };
    let device = logical_to_physical_rounded(LogicalSize { width: 10, height: 3 }, scale);
    assert_eq!(device, PhysicalSize { width: 15, height: 5 });
}

#[test]
fn request_surface_size_returns_the_rounded_device_size() {
    let mut state = fresh_state(false);
    let _ = state.set_scale_factor(ScaleFactor { millis: 1500 });
    let (size, _requests) = state.request_surface_size(LogicalSize { width: 10, height: 3 });
    assert_eq!(size, PhysicalSize { width: 15, height: 5 });
}

#[test]
fn negative_positions_round_away_from_zero() {
    let scale = ScaleFactor { millis: 1500 };
    let p = logical_to_physical_rounded_pos(LogicalPosition { x: -3, y: 3 }, scale);
    assert_eq!(p.x, -5);
    assert_eq!(p.y, 5);
}

#[test]
fn set_position_issues_the_scaled_move() {
    let mut state = fresh_state(false);
    let _ = state.set_scale_factor(ScaleFactor { millis: 2000 });
    let requests = state.set_position(LogicalPosition { x: 7, y: -7 });
    assert_eq!(requests, vec![ProtocolRequest::SetSubsurfacePosition(14, -14)]);
}

#[test]
fn integer_buffer_scale_is_pushed_without_fractional_scaling() {
    let mut state = fresh_state(false);
    let requests = state.set_scale_factor(ScaleFactor { millis: 2500 });
    assert_eq!(requests, vec![ProtocolRequest::SetSurfaceBufferScale(2)]);
}

#[test]
fn transparency_hint_toggles_the_opaque_region() {
    let mut state = fresh_state(false);
    assert_eq!(state.set_transparent(true), vec![ProtocolRequest::ClearOpaqueRegion]);
    assert_eq!(state.set_transparent(false), vec![ProtocolRequest::SetOpaqueRegionFull]);
}

#[test]
fn frame_callback_is_never_requested_twice() {
    let mut state = fresh_state(false);
    assert_eq!(state.frame_callback_state(), FrameCallbackState::NotRequested);
    assert_eq!(state.request_frame_callback(), vec![ProtocolRequest::FrameRequest]);
    assert_eq!(state.frame_callback_state(), FrameCallbackState::Requested);
    // A second request while one is in flight is a no-op.
    assert_eq!(state.request_frame_callback(), vec![]);
    assert_eq!(state.frame_callback_state(), FrameCallbackState::Requested);
    state.frame_callback_received();
    assert_eq!(state.request_frame_callback(), vec![ProtocolRequest::FrameRequest]);
}

#[test]
fn grab_transition_is_idempotent() {
    let (reg, id) = one_pointer(7, 1, 5);
    let mut state = fresh_state(true);
    state.bind_pointer(id);
    let first = state.set_cursor_grab(&reg, CursorGrabMode::Confined).unwrap();
    assert_eq!(first, vec![ProtocolRequest::ConfinePointer(id)]);
    // Setting the same mode again performs no protocol calls.
    let second = state.set_cursor_grab(&reg, CursorGrabMode::Confined).unwrap();
    assert_eq!(second, vec![]);
}

#[test]
fn grab_releases_the_previous_mode_before_applying() {
    let (reg, id) = one_pointer(7, 1, 5);
    let mut state = fresh_state(true);
    state.bind_pointer(id);
    state.set_cursor_grab(&reg, CursorGrabMode::Locked).unwrap();
    let requests = state.set_cursor_grab(&reg, CursorGrabMode::Confined).unwrap();
    assert_eq!(
        requests,
        vec![ProtocolRequest::UnlockPointer(id), ProtocolRequest::ConfinePointer(id)]
    );
}

#[test]
fn grab_fails_without_the_constraint_extension() {
    let (reg, id) = one_pointer(7, 1, 5);
    let mut state = fresh_state(false);
    state.bind_pointer(id);
    let r = state.set_cursor_grab(&reg, CursorGrabMode::Locked);
    match r {
        Err(RequestError::NotSupported(e)) => {
            assert_eq!(e.reason, NotSupportedReason::PointerConstraintsMissing);
            assert_eq!(e.message(), "zwp_pointer_constraints is not available");
        },
        other => panic!("expected a not-supported error, got {:?}", other),
    }
    // Releasing a grab needs no extension.
    assert_eq!(state.set_cursor_grab(&reg, CursorGrabMode::NoGrab).unwrap(), vec![]);
}

#[test]
fn cursor_position_requires_a_locked_grab() {
    let (reg, id) = one_pointer(7, 1, 5);
    let mut state = fresh_state(true);
    state.bind_pointer(id);
    let before_visible = state.cursor_visible;
    let before_grab = state.cursor_grab_mode;
    let r = state.set_cursor_position(&reg, LogicalPosition { x: 4, y: 4 });
    match r {
        Err(RequestError::NotSupported(e)) => {
            assert_eq!(e.reason, NotSupportedReason::CursorPositionRequiresLock);
            assert_eq!(e.message(), "cursor position could only be changed for locked pointer");
        },
        other => panic!("expected a not-supported error, got {:?}", other),
    }
    // Nothing was mutated.
    assert_eq!(state.cursor_visible, before_visible);
    assert_eq!(state.cursor_grab_mode, before_grab);

    state.set_cursor_grab(&reg, CursorGrabMode::Locked).unwrap();
    let requests = state.set_cursor_position(&reg, LogicalPosition { x: 4, y: 4 }).unwrap();
    assert_eq!(
        requests,
        vec![ProtocolRequest::SetLockedCursorPosition(id, LogicalPosition { x: 4, y: 4 })]
    );
}

#[test]
fn selecting_a_cursor_while_visible_broadcasts_it() {
    let (reg, id) = one_pointer(9, 1, 5);
    let mut state = fresh_state(false);
    state.bind_pointer(id);
    let requests = state.set_cursor(&reg, CursorIcon::Text);
    assert_eq!(requests, vec![ProtocolRequest::SetCursorIcon(id, CursorIcon::Text)]);
}

#[test]
fn selecting_a_cursor_while_hidden_only_records_it() {
    let (reg, id) = one_pointer(9, 1, 5);
    let mut state = fresh_state(false);
    state.bind_pointer(id);
    let hide = state.set_cursor_visible(&reg, false);
    assert_eq!(hide, vec![ProtocolRequest::HideCursor(id, 9)]);
    let requests = state.set_cursor(&reg, CursorIcon::Wait);
    assert_eq!(requests, vec![]);
    assert_eq!(state.selected_cursor, Cursor::Icon(CursorIcon::Wait));
}

#[test]
fn reshowing_the_cursor_restores_the_previous_selection() {
    let (reg, id) = one_pointer(11, 1, 5);
    let mut state = fresh_state(false);
    state.bind_pointer(id);
    let _ = state.set_cursor(&reg, CursorIcon::Grab);
    let _ = state.set_cursor_visible(&reg, false);
    // Re-showing without changing the selection restores exactly the
    // previously selected icon, not a default.
    let requests = state.set_cursor_visible(&reg, true);
    assert_eq!(requests, vec![ProtocolRequest::SetCursorIcon(id, CursorIcon::Grab)]);
}

#[test]
fn reshowing_restores_a_custom_image_exactly() {
    let (reg, id) = one_pointer(13, 2, 5);
    let mut state = fresh_state(false);
    state.bind_pointer(id);
    let image = CustomCursor { buffer_id: 77, w: 32, h: 32, hotspot_x: 8, hotspot_y: 6 };
    let applied = state.set_custom_cursor(&reg, image);
    let expected = vec![
        ProtocolRequest::SetCursorBufferScale(id, 2),
        ProtocolRequest::AttachCursorBuffer(id, 77),
        ProtocolRequest::DamageBuffer(id, 32, 32),
        ProtocolRequest::CommitCursorSurface(id),
        ProtocolRequest::SetCursor(id, 13, 4, 3),
    ];
    assert_eq!(applied, expected);
    let _ = state.set_cursor_visible(&reg, false);
    let restored = state.set_cursor_visible(&reg, true);
    assert_eq!(restored, expected);
}

#[test]
fn old_protocol_versions_damage_in_surface_coordinates() {
    let (reg, id) = one_pointer(13, 2, 3);
    let mut state = fresh_state(false);
    state.bind_pointer(id);
    let image = CustomCursor { buffer_id: 5, w: 32, h: 16, hotspot_x: 0, hotspot_y: 0 };
    let applied = state.set_custom_cursor(&reg, image);
    assert!(applied.contains(&ProtocolRequest::DamageSurface(id, 16, 8)));
    assert!(!applied.iter().any(|r| matches!(r, ProtocolRequest::DamageBuffer(..))));
}

#[test]
fn dead_pointer_bindings_are_pruned_lazily() {
    let mut reg = PointerRegistry::new();
    let a = reg.register(PointerData { latest_enter_serial: 1, surface_scale: 1, surface_version: 5 });
    let b = reg.register(PointerData { latest_enter_serial: 2, surface_scale: 1, surface_version: 5 });
    let mut state = fresh_state(false);
    state.bind_pointer(a);
    state.bind_pointer(b);
    reg.destroy(a);
    let requests = state.set_cursor(&reg, CursorIcon::Pointer);
    assert_eq!(requests, vec![ProtocolRequest::SetCursorIcon(b, CursorIcon::Pointer)]);
}

#[test]
fn broadcasts_reach_every_live_pointer() {
    let mut reg = PointerRegistry::new();
    let a = reg.register(PointerData { latest_enter_serial: 1, surface_scale: 1, surface_version: 5 });
    let b = reg.register(PointerData { latest_enter_serial: 2, surface_scale: 1, surface_version: 5 });
    let mut state = fresh_state(false);
    state.bind_pointer(a);
    state.bind_pointer(b);
    let requests = state.set_cursor_visible(&reg, false);
    assert_eq!(
        requests,
        vec![ProtocolRequest::HideCursor(a, 1), ProtocolRequest::HideCursor(b, 2)]
    );
}

#[test]
fn enter_serials_are_refreshed_per_pointer() {
    let mut reg = PointerRegistry::new();
    let a = reg.register(PointerData { latest_enter_serial: 1, surface_scale: 1, surface_version: 5 });
    let mut state = fresh_state(false);
    state.bind_pointer(a);
    reg.record_enter(a, 42);
    let requests = state.set_cursor_visible(&reg, false);
    assert_eq!(requests, vec![ProtocolRequest::HideCursor(a, 42)]);
}

#[test]
fn configure_acknowledgment_is_recorded() {
    let mut state = fresh_state(false);
    assert!(state.last_configure.is_none());
    state.set_last_configure(winloop::surface::AcceptedConfiguration {
        size: LogicalSize { width: 64, height: 48 },
    });
    assert_eq!(
        state.last_configure,
        Some(winloop::surface::AcceptedConfiguration {
            size: LogicalSize { width: 64, height: 48 },
        })
    );
}

#[test]
fn frame_callback_reset_allows_a_new_request() {
    let mut state = fresh_state(false);
    let _ = state.request_frame_callback();
    state.frame_callback_reset();
    assert_eq!(state.frame_callback_state(), FrameCallbackState::NotRequested);
    assert_eq!(state.request_frame_callback(), vec![ProtocolRequest::FrameRequest]);
}
