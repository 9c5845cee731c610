//! Backend selection, startup notification, and the main-thread check.

use winloop::error::NotSupportedReason;
use winloop::event_loop::{
    select_backend, Backend, BackendFeatures, DisplayEnv, EventLoop,
    PlatformSpecificEventLoopAttributes,
};
use winloop::startup::{ActivationToken, EventLoopExtStartupNotify, WindowExtStartupNotify};
use winloop::subsurface::CompositorCapabilities;

fn both_features() -> BackendFeatures {
    BackendFeatures { wayland: true, x11: true }
}

fn default_attributes() -> PlatformSpecificEventLoopAttributes {
    PlatformSpecificEventLoopAttributes { forced_backend: None, any_thread: false }
}

fn all_capabilities() -> CompositorCapabilities {
    CompositorCapabilities {
        subcompositor: true,
        pointer_constraints: true,
        viewport: true,
        fractional_scale: true,
        activation: true,
    }
}

fn env(wayland_display: Option<&str>, wayland_socket: Option<&str>, x11_display: Option<&str>) -> DisplayEnv {
    DisplayEnv {
        wayland_display: wayland_display.map(str::to_string),
        wayland_socket: wayland_socket.map(str::to_string),
        x11_display: x11_display.map(str::to_string),
    }
}

#[test]
fn wayland_wins_when_its_variable_is_set() {
    let r = select_backend(&default_attributes(), &env(Some("wayland-0"), None, None), both_features());
    assert_eq!(r, Ok(Backend::Wayland));
}

#[test]
fn wayland_wins_over_x11_when_both_are_set() {
    let r = select_backend(&default_attributes(), &env(Some("wayland-0"), None, Some(":0")), both_features());
    assert_eq!(r, Ok(Backend::Wayland));
}

#[test]
fn wayland_socket_alone_selects_wayland() {
    let r = select_backend(&default_attributes(), &env(None, Some("4"), None), both_features());
    assert_eq!(r, Ok(Backend::Wayland));
}

#[test]
fn empty_variables_count_as_absent() {
    let r = select_backend(&default_attributes(), &env(Some(""), Some(""), Some(":0")), both_features());
    assert_eq!(r, Ok(Backend::X));
}

#[test]
fn x11_selected_when_wayland_is_absent() {
    let r = select_backend(&default_attributes(), &env(None, None, Some(":0")), both_features());
    assert_eq!(r, Ok(Backend::X));
}

#[test]
fn forced_backend_always_wins() {
    let attrs = PlatformSpecificEventLoopAttributes {
        forced_backend: Some(Backend::X),
        any_thread: false,
    };
    let r = select_backend(&attrs, &env(Some("wayland-0"), None, None), both_features());
    assert_eq!(r, Ok(Backend::X));
}

#[test]
fn no_display_variable_fails_naming_all_variables() {
    let r = select_backend(&default_attributes(), &env(None, None, None), both_features());
    let e = r.unwrap_err();
    assert_eq!(e.reason, NotSupportedReason::NoDisplayFound);
    assert_eq!(e.message(), "neither WAYLAND_DISPLAY nor WAYLAND_SOCKET nor DISPLAY is set.");
}

#[test]
fn wayland_seen_but_compiled_out_names_the_feature() {
    let features = BackendFeatures { wayland: false, x11: true };
    let r = select_backend(&default_attributes(), &env(Some("wayland-0"), None, None), features);
    let e = r.unwrap_err();
    assert_eq!(e.reason, NotSupportedReason::WaylandFeatureMissing);
    assert_eq!(
        e.message(),
        "DISPLAY is not set; note: enable the `winit/wayland` feature to support Wayland"
    );
}

#[test]
fn x11_seen_but_compiled_out_names_the_feature() {
    let features = BackendFeatures { wayland: true, x11: false };
    let r = select_backend(&default_attributes(), &env(None, None, Some(":0")), features);
    let e = r.unwrap_err();
    assert_eq!(e.reason, NotSupportedReason::X11FeatureMissing);
    assert_eq!(
        e.message(),
        "neither WAYLAND_DISPLAY nor WAYLAND_SOCKET is set; note: enable the `winit/x11` feature to support X11"
    );
}

#[test]
fn event_loop_new_records_the_chosen_backend() {
    let attrs = PlatformSpecificEventLoopAttributes { forced_backend: None, any_thread: true };
    let l = EventLoop::new(
        &attrs,
        &env(Some("wayland-0"), None, None),
        both_features(),
        all_capabilities(),
        false,
    )
    .unwrap();
    assert!(l.is_wayland());
    assert_eq!(l.surfaces.len(), 0);
}

#[test]
fn event_loop_new_propagates_selection_failure() {
    let attrs = PlatformSpecificEventLoopAttributes { forced_backend: None, any_thread: true };
    let r = EventLoop::new(&attrs, &env(None, None, None), both_features(), all_capabilities(), false);
    assert!(r.is_err());
}

#[test]
fn activation_token_round_trips() {
    let token = ActivationToken::from_raw("token-1".to_string());
    assert_eq!(token.clone().into_raw(), "token-1".to_string());
    let _ = token;
}

#[test]
fn read_token_from_env_consults_the_backend_variable() {
    let attrs = PlatformSpecificEventLoopAttributes { forced_backend: None, any_thread: true };
    let l = EventLoop::new(
        &attrs,
        &env(Some("wayland-0"), None, None),
        both_features(),
        all_capabilities(),
        false,
    )
    .unwrap();
    let token = l.read_token_from_env(Some("w-token".to_string()), Some("x-token".to_string()));
    assert_eq!(token, Some(ActivationToken::from_raw("w-token".to_string())));

    let x = EventLoop::new(
        &attrs,
        &env(None, None, Some(":0")),
        both_features(),
        all_capabilities(),
        false,
    )
    .unwrap();
    let token = x.read_token_from_env(Some("w-token".to_string()), Some("x-token".to_string()));
    assert_eq!(token, Some(ActivationToken::from_raw("x-token".to_string())));
    let none = x.read_token_from_env(Some("w-token".to_string()), None);
    assert_eq!(none, None);
}

#[test]
fn request_activation_token_hands_out_fresh_serials() {
    let mut l = EventLoop::new(
        &PlatformSpecificEventLoopAttributes { forced_backend: Some(Backend::Wayland), any_thread: true },
        &env(Some("wayland-0"), None, None),
        both_features(),
        all_capabilities(),
        false,
    )
    .unwrap();
    let attrs = winloop::subsurface::SubsurfaceAttributes::new();
    let (id, _requests) = l.create_subsurface(attrs, 0).unwrap();
    assert_eq!(id, 1);
    let s = &mut l.surfaces[0];
    let a = s.request_activation_token().unwrap();
    let b = s.request_activation_token().unwrap();
    assert_ne!(a.serial, b.serial);
}

#[test]
fn request_activation_token_fails_without_activation_support() {
    let mut caps = all_capabilities();
    caps.activation = false;
    let mut l = EventLoop::new(
        &PlatformSpecificEventLoopAttributes { forced_backend: Some(Backend::Wayland), any_thread: true },
        &env(Some("wayland-0"), None, None),
        both_features(),
        caps,
        false,
    )
    .unwrap();
    let attrs = winloop::subsurface::SubsurfaceAttributes::new();
    l.create_subsurface(attrs, 0).unwrap();
    let r = l.surfaces[0].request_activation_token();
    assert!(r.is_err());
}

#[test]
fn main_thread_check_is_stable_within_one_thread() {
    let a = winloop::thread::is_main_thread();
    let b = winloop::thread::is_main_thread();
    assert_eq!(a, b);
}
