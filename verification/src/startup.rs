//! Startup notification for window raising.
//!
//! An activation token is an opaque credential, usually delivered through an
//! environment variable, that lets a newly created window obtain focus. The
//! library treats the token as an opaque string; reading and writing the
//! actual process environment is left to the shell, which hands the observed
//! values in.

use vstd::prelude::*;

use crate::error::RequestError;

verus! {

/// An opaque token used to request window focus/raising from the display
/// server.
#[derive(Clone, Debug, PartialEq, Eq, Hash)]
pub struct ActivationToken {
    pub token: String,
}

impl View for ActivationToken {
    type V = Seq<char>;

    /// The raw token string.
    open spec fn view(&self) -> Seq<char> {
        self.token@
    }
}

impl ActivationToken {
    /// Wrap a raw token string read from the environment.
    pub fn from_raw(token: String) -> (r: Self)
        ensures
            r == (ActivationToken { token }),
            r@ == token@,
    {
        ActivationToken { token }
    }

    /// Unwrap into the raw token string, for handing to a child process.
    pub fn into_raw(self) -> (r: String)
        ensures
            r == self.token,
            r@ == self@,
    {
        self.token
    }
}

/// A serial under which an asynchronously delivered activation token will
/// arrive.
#[derive(Clone, Copy, Debug, PartialEq, Eq, Structural)]
pub struct AsyncRequestSerial {
    pub serial: u64,
}

/// Reading the activation token that was handed to this process.
pub trait EventLoopExtStartupNotify {
    /// Read the token from the environment values the shell observed: the
    /// running backend decides which variable is consulted.
    ///
    /// It's recommended **to unset** this environment variable for child
    /// processes.
    fn read_token_from_env(
        &self,
        wayland_env: Option<String>,
        x11_env: Option<String>,
    ) -> Option<ActivationToken>;
}

/// Requesting a fresh activation token for a window.
pub trait WindowExtStartupNotify {
    /// Request a new activation token; it will be delivered later under the
    /// returned serial.
    fn request_activation_token(&mut self) -> Result<AsyncRequestSerial, RequestError>;
}

/// Attaching an activation token to a window under construction.
pub trait WindowAttributesExtStartupNotify {
    /// Use this token during window creation; without one the window may
    /// not gain focus until the user clicks on it.
    fn with_activation_token(self, token: ActivationToken) -> Self;
}

} // verus!
