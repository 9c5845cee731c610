//! Backend selection and the event loop's dispatch driver.
//!
//! Exactly one backend is chosen at startup from the process environment
//! (the shell hands the observed variables in) and an optional user
//! override; the loop then owns the table of live surfaces and drives
//! dispatch rounds: each round turns the accumulated request flags into a
//! batch of application-visible events, coalescing redraws and reclaiming
//! closed surfaces only after their closing notification was delivered.

use vstd::prelude::*;

use crate::error::{EventLoopError, NotSupportedError, NotSupportedReason, RequestError};
use crate::flags::with_redraw_taken;
use crate::pointer::PointerRegistry;
use crate::startup::{ActivationToken, EventLoopExtStartupNotify};
use crate::subsurface::{CompositorCapabilities, Subsurface, SubsurfaceAttributes};
use crate::surface::ProtocolRequest;

verus! {

/// One of the two supported native display-server backends.
#[derive(Clone, Copy, Debug, PartialEq, Eq, Hash, Structural)]
pub enum Backend {
    Wayland,
    X,
}

/// Which backends were compiled into this build.
#[derive(Clone, Copy, Debug, PartialEq, Eq, Structural)]
pub struct BackendFeatures {
    pub wayland: bool,
    pub x11: bool,
}

/// Startup attributes for the event loop.
#[derive(Clone, Copy, Debug, Default, PartialEq, Eq, Hash, Structural)]
pub struct PlatformSpecificEventLoopAttributes {
    /// A user-forced backend choice; it always wins.
    pub forced_backend: Option<Backend>,
    /// Opt-in to creating the loop off the main thread.
    pub any_thread: bool,
}

/// The display-server variables observed in the process environment. An
/// unset variable is `None`; an empty value counts as absent.
pub struct DisplayEnv {
    /// The first backend's display variable.
    pub wayland_display: Option<String>,
    /// The first backend's socket variable.
    pub wayland_socket: Option<String>,
    /// The second backend's display variable.
    pub x11_display: Option<String>,
}

/// Whether an environment value is present and non-empty.
pub open spec fn env_present(v: Option<String>) -> bool {
    match v {
        Some(s) => s@.len() > 0,
        None => false,
    }
}

/// Whether the first backend's display server is reachable.
pub open spec fn wayland_present(env: DisplayEnv) -> bool {
    env_present(env.wayland_display) || env_present(env.wayland_socket)
}

/// Whether the second backend's display server is reachable.
pub open spec fn x11_present(env: DisplayEnv) -> bool {
    env_present(env.x11_display)
}

/// The backend decision: an explicit override always wins; else the first
/// backend's presence wins over the second's; else the selection fails,
/// naming the variable that was seen and the build feature that would be
/// needed, or the absence of any display variable.
pub open spec fn backend_choice(
    forced: Option<Backend>,
    env: DisplayEnv,
    features: BackendFeatures,
) -> Result<Backend, NotSupportedReason> {
    match forced {
        Some(backend) => Ok(backend),
        None => if wayland_present(env) && features.wayland {
            Ok(Backend::Wayland)
        } else if x11_present(env) && features.x11 {
            Ok(Backend::X)
        } else if wayland_present(env) && !features.wayland {
            Err(NotSupportedReason::WaylandFeatureMissing)
        } else if x11_present(env) && !features.x11 {
            Err(NotSupportedReason::X11FeatureMissing)
        } else {
            Err(NotSupportedReason::NoDisplayFound)
        },
    }
}

fn env_value_present(v: &Option<String>) -> (r: bool)
    ensures
        r == env_present(*v),
{
    match v {
        Some(s) => !s.as_str().is_empty(),
        None => false,
    }
}

/// Choose the backend from the observed environment.
pub fn select_backend(
    attributes: &PlatformSpecificEventLoopAttributes,
    env: &DisplayEnv,
    features: BackendFeatures,
) -> (r: Result<Backend, NotSupportedError>)
    ensures
        match r {
            Ok(backend) => backend_choice(attributes.forced_backend, *env, features) == Ok::<
                Backend,
                NotSupportedReason,
            >(backend),
            Err(e) => backend_choice(attributes.forced_backend, *env, features) == Err::<
                Backend,
                NotSupportedReason,
            >(e.reason),
        },
{
    if let Some(backend) = attributes.forced_backend {
        return Ok(backend);
    }
    let wayland = env_value_present(&env.wayland_display) || env_value_present(
        &env.wayland_socket,
    );
    let x11 = env_value_present(&env.x11_display);
    if wayland && features.wayland {
        Ok(Backend::Wayland)
    } else if x11 && features.x11 {
        Ok(Backend::X)
    } else if wayland {
        Err(NotSupportedError::new(NotSupportedReason::WaylandFeatureMissing))
    } else if x11 {
        Err(NotSupportedError::new(NotSupportedReason::X11FeatureMissing))
    } else {
        Err(NotSupportedError::new(NotSupportedReason::NoDisplayFound))
    }
}

/// One application-visible event delivered in a dispatch round.
#[derive(Clone, Copy, Debug, PartialEq, Eq, Structural)]
pub enum AppEvent {
    /// The surface should be redrawn; any number of requests since the
    /// last round collapse into one of these.
    RedrawRequested(u64),
    /// The surface's handle was dropped; its table entry is reclaimed
    /// right after this event is delivered.
    Destroyed(u64),
    /// The batch is over and the loop is about to block.
    AboutToWait,
}

/// The status a bounded pump of the loop reports.
#[derive(Clone, Copy, Debug, PartialEq, Eq, Structural)]
pub enum PumpStatus {
    /// The application has not requested exit.
    Continue,
    /// The application requested exit with this code.
    Exit(i32),
}

/// The events one dispatch round delivers for the given surface table, in
/// table order: a closing notification for each closed surface, a single
/// coalesced redraw for each surface whose redraw flag is set.
pub open spec fn round_events(ss: Seq<Subsurface>) -> Seq<AppEvent>
    decreases ss.len(),
{
    if ss.len() == 0 {
        Seq::empty()
    } else {
        let s = ss.last();
        round_events(ss.drop_last()) + if s.window_requests.closed {
            seq![AppEvent::Destroyed(s.surface_id)]
        } else if s.window_requests.redraw_requested {
            seq![AppEvent::RedrawRequested(s.surface_id)]
        } else {
            Seq::<AppEvent>::empty()
        }
    }
}

/// The surface table after a dispatch round: closed surfaces are removed,
/// the survivors' redraw flags are cleared.
pub open spec fn surviving_surfaces(ss: Seq<Subsurface>) -> Seq<Subsurface>
    decreases ss.len(),
{
    if ss.len() == 0 {
        Seq::empty()
    } else {
        let s = ss.last();
        surviving_surfaces(ss.drop_last()) + if s.window_requests.closed {
            Seq::<Subsurface>::empty()
        } else {
            seq![
                (Subsurface { window_requests: with_redraw_taken(s.window_requests), ..s }),
            ]
        }
    }
}

/// The event loop: the chosen backend, the pointer-device table, and the
/// table of live surfaces.
pub struct EventLoop {
    /// The backend chosen at startup; immutable thereafter.
    pub backend: Backend,
    /// The protocol globals the compositor offered.
    pub capabilities: CompositorCapabilities,
    /// The pointer devices observed on this seat.
    pub registry: PointerRegistry,
    /// All live surfaces, keyed by their identity.
    pub surfaces: Vec<Subsurface>,
    /// The identity the next created surface receives.
    pub next_surface_id: u64,
    /// Whether the application asked the loop to return.
    pub exit_requested: bool,
    /// The exit code the application handed in.
    pub exit_code: i32,
}

impl EventLoop {
    /// Create the event loop: choose exactly one backend or fail. Creating
    /// the loop off the main thread without the explicit opt-in is a fatal
    /// usage error the shell aborts on, so it is excluded here.
    pub fn new(
        attributes: &PlatformSpecificEventLoopAttributes,
        env: &DisplayEnv,
        features: BackendFeatures,
        capabilities: CompositorCapabilities,
        is_main_thread: bool,
    ) -> (r: Result<EventLoop, EventLoopError>)
        requires
            attributes.any_thread || is_main_thread,
        ensures
            match r {
                Ok(l) => {
                    &&& backend_choice(attributes.forced_backend, *env, features) == Ok::<
                        Backend,
                        NotSupportedReason,
                    >(l.backend)
                    &&& l.capabilities == capabilities
                    &&& l.registry.slots@.len() == 0
                    &&& l.surfaces@.len() == 0
                    &&& l.next_surface_id == 1
                    &&& !l.exit_requested
                },
                Err(e) => e matches EventLoopError::NotSupported(ns) && backend_choice(
                    attributes.forced_backend,
                    *env,
                    features,
                ) == Err::<Backend, NotSupportedReason>(ns.reason),
            },
    {
        let backend = match select_backend(attributes, env, features) {
            Ok(backend) => backend,
            Err(e) => {
                return Err(EventLoopError::NotSupported(e));
            },
        };
        Ok(
            EventLoop {
                backend,
                capabilities,
                registry: PointerRegistry::new(),
                surfaces: Vec::new(),
                next_surface_id: 1,
                exit_requested: false,
                exit_code: 0,
            },
        )
    }

    /// Whether the running backend is the first one.
    pub fn is_wayland(&self) -> (r: bool)
        ensures
            r == (self.backend is Wayland),
    {
        matches!(self.backend, Backend::Wayland)
    }

    /// Create a subsurface of the given parent surface and enter it into
    /// the table.
    pub fn create_subsurface(&mut self, attributes: SubsurfaceAttributes, parent_id: u64) -> (r:
        Result<(u64, Vec<ProtocolRequest>), RequestError>)
        requires
            old(self).registry.wf(),
            attributes.cursor.wf(),
            old(self).next_surface_id < u64::MAX,
        ensures
            match r {
                Ok(created) => {
                    &&& old(self).capabilities.subcompositor
                    &&& created.0 == old(self).next_surface_id
                    &&& final(self).next_surface_id == old(self).next_surface_id + 1
                    &&& final(self).surfaces@.len() == old(self).surfaces@.len() + 1
                    &&& final(self).surfaces@.drop_last() == old(self).surfaces@
                    &&& final(self).surfaces@.last().surface_id == created.0
                    &&& final(self).surfaces@.last().parent_id == parent_id
                    &&& final(self).surfaces@.last().wf()
                    &&& final(self).surfaces@.last().window_requests.redraw_requested
                    &&& !final(self).surfaces@.last().window_requests.closed
                    &&& created.1@ == crate::subsurface::creation_requests(
                        attributes.transparent,
                    )
                    &&& final(self).backend == old(self).backend
                    &&& final(self).registry == old(self).registry
                },
                Err(e) => !old(self).capabilities.subcompositor && *final(self) == *old(self),
            },
    {
        let id = self.next_surface_id;
        match Subsurface::new(self.capabilities, attributes, parent_id, id, &self.registry) {
            Ok((sub, out)) => {
                self.next_surface_id = id + 1;
                self.surfaces.push(sub);
                Ok((id, out))
            },
            Err(e) => Err(e),
        }
    }

    /// Ask the loop to return with the given code.
    pub fn set_exit(&mut self, code: i32)
        ensures
            final(self).exit_requested,
            final(self).exit_code == code,
            *final(self) == (EventLoop {
                exit_requested: true,
                exit_code: code,
                ..*old(self)
            }),
    {
        self.exit_requested = true;
        self.exit_code = code;
    }

    /// What a bounded pump reports after a round.
    pub fn pump_status(&self) -> (r: PumpStatus)
        ensures
            r == if self.exit_requested {
                PumpStatus::Exit(self.exit_code)
            } else {
                PumpStatus::Continue
            },
    {
        if self.exit_requested {
            PumpStatus::Exit(self.exit_code)
        } else {
            PumpStatus::Continue
        }
    }

    /// One dispatch round over the accumulated request flags: deliver a
    /// closing notification for each closed surface and remove it only
    /// then; deliver exactly one coalesced redraw for each surface whose
    /// flag was set, clearing the flag; finish the batch with a single
    /// about-to-wait notification. The shell hands the batch to the
    /// handler slot once.
    pub fn dispatch_round(&mut self) -> (events: Vec<AppEvent>)
        ensures
            events@ == round_events(old(self).surfaces@) + seq![AppEvent::AboutToWait],
            final(self).surfaces@ == surviving_surfaces(old(self).surfaces@),
            *final(self) == (EventLoop { surfaces: final(self).surfaces, ..*old(self) }),
    {
        let ghost orig = self.surfaces@;
        let mut olds: Vec<Subsurface> = Vec::new();
        core::mem::swap(&mut self.surfaces, &mut olds);
        let mut events: Vec<AppEvent> = Vec::new();
        let mut kept: Vec<Subsurface> = Vec::new();
        let ghost mut i: int = 0;
        while olds.len() > 0
            invariant
                0 <= i <= orig.len(),
                olds@ == orig.skip(i),
                events@ == round_events(orig.take(i)),
                kept@ == surviving_surfaces(orig.take(i)),
            decreases olds@.len(),
        {
            let mut s = olds.remove(0);
            proof {
                assert(olds@ =~= orig.skip(i + 1));
                assert(orig.take(i + 1).drop_last() =~= orig.take(i));
                assert(orig.take(i + 1).last() == orig[i]);
            }
            if s.window_requests.closed {
                events.push(AppEvent::Destroyed(s.surface_id));
            } else {
                let owed = s.window_requests.take_redraw_request();
                if owed {
                    events.push(AppEvent::RedrawRequested(s.surface_id));
                }
                kept.push(s);
            }
            proof {
                i = i + 1;
            }
        }
        proof {
            assert(orig.take(orig.len() as int) =~= orig);
        }
        self.surfaces = kept;
        events.push(AppEvent::AboutToWait);
        events
    }
}

impl EventLoop {
    /// The activation token read from the observed environment values: the
    /// running backend decides which variable is consulted.
    pub fn token_from_env_values(
        &self,
        wayland_env: Option<String>,
        x11_env: Option<String>,
    ) -> (r: Option<ActivationToken>)
        ensures
            r == match (if self.backend is Wayland {
                wayland_env
            } else {
                x11_env
            }) {
                Some(raw) => Some(ActivationToken { token: raw }),
                None => None::<ActivationToken>,
            },
    {
        let raw = if self.is_wayland() {
            wayland_env
        } else {
            x11_env
        };
        match raw {
            Some(token) => Some(ActivationToken::from_raw(token)),
            None => None,
        }
    }
}

impl EventLoopExtStartupNotify for EventLoop {
    /// Read the activation token from the environment values the shell
    /// observed: the running backend decides which variable is consulted.
    fn read_token_from_env(
        &self,
        wayland_env: Option<String>,
        x11_env: Option<String>,
    ) -> Option<ActivationToken> {
        self.token_from_env_values(wayland_env, x11_env)
    }
}

/// Redraw coalescing at the dispatch round: any `n >= 1` redraw requests
/// issued on a live surface before a round collapse into exactly one
/// redraw event for that surface in that round.
pub proof fn lemma_round_coalesces_redraws(s: Subsurface, n: nat)
    requires
        n >= 1,
        !s.window_requests.closed,
    ensures
        ({
            let requested = (Subsurface {
                window_requests: crate::flags::after_redraw_requests(s.window_requests, n),
                ..s
            });
            round_events(seq![requested]) == seq![AppEvent::RedrawRequested(s.surface_id)]
        }),
{
    crate::flags::lemma_redraw_coalescing(s.window_requests, n);
    let requested = (Subsurface {
        window_requests: crate::flags::after_redraw_requests(s.window_requests, n),
        ..s
    });
    assert(seq![requested].drop_last() =~= Seq::<Subsurface>::empty());
    assert(seq![requested].last() == requested);
    assert(round_events(Seq::<Subsurface>::empty()) =~= Seq::<AppEvent>::empty());
    assert(round_events(seq![requested]) =~= seq![AppEvent::RedrawRequested(s.surface_id)]);
}

} // verus!
