//! A windowing and event-loop core for the two Linux display-server backends.
//!
//! The crate models the client-side state of a windowing runtime: backend
//! selection, the per-surface state machine (size, position, scale,
//! transparency, cursor, pointer grab, frame pacing), the pointer registry,
//! the shared close/redraw request flags, and the single-occupancy event
//! handler slot. Operations that talk to the display server return explicit
//! [`surface::ProtocolRequest`] values which an unverified shell performs
//! against the live connection.

pub mod cursor;
pub mod error;
pub mod event_loop;
pub mod flags;
pub mod geometry;
pub mod handler;
pub mod pointer;
pub mod startup;
pub mod subsurface;
pub mod surface;
pub mod thread;
