//! Dispatch rounds, redraw coalescing, handle lifecycle, the handler slot.

use winloop::error::ReentrancyViolation;
use winloop::event_loop::{
    AppEvent, Backend, BackendFeatures, DisplayEnv, EventLoop,
    PlatformSpecificEventLoopAttributes, PumpStatus,
};
use winloop::handler::{EventHandler, HandleOutcome};
use winloop::subsurface::{CompositorCapabilities, Subsurface, SubsurfaceAttributes};
use winloop::startup::{ActivationToken, WindowAttributesExtStartupNotify};
use winloop::surface::ProtocolRequest;

fn wayland_loop() -> EventLoop {
    EventLoop::new(
        &PlatformSpecificEventLoopAttributes {
            forced_backend: Some(Backend::Wayland),
            any_thread: true,
        },
        &DisplayEnv {
            wayland_display: Some("wayland-0".to_string()),
            wayland_socket: None,
            x11_display: None,
        },
        BackendFeatures { wayland: true, x11: true },
        CompositorCapabilities {
            subcompositor: true,
            pointer_constraints: true,
            viewport: false,
            fractional_scale: false,
            activation: true,
        },
        false,
    )
    .unwrap()
}

fn redraw_events(events: &[AppEvent]) -> usize {
    events.iter().filter(|e| matches!(e, AppEvent::RedrawRequested(_))).count()
}

#[test]
fn creation_issues_the_expected_request_sequence() {
    let mut l = wayland_loop();
    let (id, requests) = l.create_subsurface(SubsurfaceAttributes::new(), 0).unwrap();
    assert_eq!(id, 1);
    assert_eq!(
        requests,
        vec![
            ProtocolRequest::ClearInputRegion,
            ProtocolRequest::SetOpaqueRegionFull,
            ProtocolRequest::CommitSurface,
            ProtocolRequest::Roundtrip,
            ProtocolRequest::WakeLoop,
        ]
    );
}

#[test]
fn transparent_creation_clears_the_opaque_region() {
    let mut l = wayland_loop();
    let mut attrs = SubsurfaceAttributes::new();
    attrs.transparent = true;
    let (_, requests) = l.create_subsurface(attrs, 0).unwrap();
    assert!(requests.contains(&ProtocolRequest::ClearOpaqueRegion));
    assert!(!requests.contains(&ProtocolRequest::SetOpaqueRegionFull));
}

#[test]
fn creation_fails_without_a_subcompositor() {
    let mut l = wayland_loop();
    l.capabilities.subcompositor = false;
    assert!(l.create_subsurface(SubsurfaceAttributes::new(), 0).is_err());
}

#[test]
fn many_redraw_requests_collapse_into_one_event() {
    let mut l = wayland_loop();
    l.create_subsurface(SubsurfaceAttributes::new(), 0).unwrap();
    // The fresh surface already has its flag set; issue many more requests.
    for _ in 0..16 {
        let _ = l.surfaces[0].request_redraw();
    }
    let events = l.dispatch_round();
    assert_eq!(redraw_events(&events), 1);
    assert_eq!(events.last(), Some(&AppEvent::AboutToWait));
    // No new requests: the next round delivers no redraw.
    let events = l.dispatch_round();
    assert_eq!(redraw_events(&events), 0);
    assert_eq!(events, vec![AppEvent::AboutToWait]);
}

#[test]
fn a_request_after_delivery_is_delivered_next_round() {
    let mut l = wayland_loop();
    l.create_subsurface(SubsurfaceAttributes::new(), 0).unwrap();
    let _ = l.dispatch_round();
    let wake = l.surfaces[0].request_redraw();
    // The flag was clear, so the loop must be woken.
    assert_eq!(wake, vec![ProtocolRequest::WakeLoop]);
    let again = l.surfaces[0].request_redraw();
    // Coalesced: the second request does not wake the loop again.
    assert_eq!(again, vec![]);
    let events = l.dispatch_round();
    assert_eq!(redraw_events(&events), 1);
}

#[test]
fn closed_surfaces_are_reclaimed_after_their_notification() {
    let mut l = wayland_loop();
    l.create_subsurface(SubsurfaceAttributes::new(), 0).unwrap();
    l.create_subsurface(SubsurfaceAttributes::new(), 0).unwrap();
    let wake = l.surfaces[0].close();
    assert_eq!(wake, vec![ProtocolRequest::WakeLoop]);
    let events = l.dispatch_round();
    assert_eq!(events[0], AppEvent::Destroyed(1));
    assert_eq!(l.surfaces.len(), 1);
    assert_eq!(l.surfaces[0].surface_id, 2);
}

#[test]
fn pump_reports_exit_after_the_application_asked() {
    let mut l = wayland_loop();
    assert_eq!(l.pump_status(), PumpStatus::Continue);
    l.set_exit(3);
    assert_eq!(l.pump_status(), PumpStatus::Exit(3));
}

#[test]
fn pre_present_notify_requests_one_frame_callback() {
    let mut l = wayland_loop();
    l.create_subsurface(SubsurfaceAttributes::new(), 0).unwrap();
    let s: &mut Subsurface = &mut l.surfaces[0];
    assert_eq!(s.pre_present_notify(), vec![ProtocolRequest::FrameRequest]);
    assert_eq!(s.pre_present_notify(), vec![]);
}

#[test]
fn hittest_toggles_the_input_region() {
    let mut l = wayland_loop();
    l.create_subsurface(SubsurfaceAttributes::new(), 0).unwrap();
    let s = &l.surfaces[0];
    assert_eq!(s.set_cursor_hittest(false).unwrap(), vec![ProtocolRequest::SetInputRegionEmpty]);
    assert_eq!(s.set_cursor_hittest(true).unwrap(), vec![ProtocolRequest::ClearInputRegion]);
}

#[test]
fn handle_without_a_handler_is_a_quiet_no_op() {
    let mut slot: EventHandler<u32> = EventHandler::new();
    let outcome = slot.handle(|h| h);
    assert_eq!(outcome, HandleOutcome::NoHandler);
    assert!(!slot.ready());
    assert!(!slot.in_use());
}

#[test]
fn set_while_set_reports_a_reentrancy_violation() {
    let mut slot: EventHandler<u32> = EventHandler::new();
    assert_eq!(slot.set(1), Ok(()));
    assert!(slot.ready());
    assert_eq!(slot.set(2), Err(ReentrancyViolation::SetWhileSet));
}

#[test]
fn handle_runs_the_installed_handler_exactly_once() {
    let mut slot: EventHandler<u32> = EventHandler::new();
    slot.set(41).unwrap();
    let outcome = slot.handle(|h| h + 1);
    assert_eq!(outcome, HandleOutcome::Handled);
    assert!(slot.ready());
    // The handler moved back in carries the callback's result.
    let outcome = slot.handle(|h| {
        assert_eq!(h, 42);
        h
    });
    assert_eq!(outcome, HandleOutcome::Handled);
}

#[test]
fn terminate_drops_the_handler_and_reports_absence() {
    let mut slot: EventHandler<u32> = EventHandler::new();
    slot.set(1).unwrap();
    assert_eq!(slot.terminate(), Ok(true));
    assert!(!slot.ready());
    assert_eq!(slot.terminate(), Ok(false));
}

#[test]
fn surface_size_defaults_to_the_fallback() {
    let mut l = wayland_loop();
    l.create_subsurface(SubsurfaceAttributes::new(), 0).unwrap();
    let s = &l.surfaces[0];
    assert_eq!(
        s.subsurface_state.size,
        winloop::geometry::LogicalSize { width: 200, height: 200 }
    );
    assert_eq!(s.primary_monitor(), None);
    assert_eq!(s.current_monitor(), None);
}

#[test]
fn attributes_builder_records_the_activation_token() {
    let attrs = SubsurfaceAttributes::new();
    let attrs = attrs.with_activation_token(ActivationToken::from_raw("tok".to_string()));
    assert_eq!(attrs.activation_token, Some(ActivationToken::from_raw("tok".to_string())));
    assert!(!attrs.transparent);
}

#[test]
fn handle_level_resize_requests_a_redraw() {
    let mut l = wayland_loop();
    l.create_subsurface(SubsurfaceAttributes::new(), 0).unwrap();
    let _ = l.dispatch_round();
    let s = &mut l.surfaces[0];
    let (size, requests) = s.request_surface_size(winloop::geometry::LogicalSize {
        width: 0,
        height: 7,
    });
    assert_eq!(size, Some(winloop::geometry::PhysicalSize { width: 2, height: 7 }));
    // The redraw flag was clear after the dispatch round, so the resize
    // both reapplies the hint and wakes the loop.
    assert_eq!(
        requests,
        vec![ProtocolRequest::SetOpaqueRegionFull, ProtocolRequest::WakeLoop]
    );
}

#[test]
fn handle_level_cursor_position_wakes_for_the_redraw() {
    let mut l = wayland_loop();
    l.create_subsurface(SubsurfaceAttributes::new(), 0).unwrap();
    let _ = l.dispatch_round();
    let mut reg = winloop::pointer::PointerRegistry::new();
    let p = reg.register(winloop::pointer::PointerData {
        latest_enter_serial: 1,
        surface_scale: 1,
        surface_version: 5,
    });
    let s = &mut l.surfaces[0];
    s.subsurface_state.bind_pointer(p);
    s.set_cursor_grab(&reg, winloop::surface::CursorGrabMode::Locked).unwrap();
    let requests = s
        .set_cursor_position(&reg, winloop::geometry::LogicalPosition { x: 1, y: 2 })
        .unwrap();
    assert_eq!(
        requests,
        vec![
            ProtocolRequest::SetLockedCursorPosition(
                p,
                winloop::geometry::LogicalPosition { x: 1, y: 2 },
            ),
            ProtocolRequest::WakeLoop,
        ]
    );
}
