//! The main-thread check.
//!
//! Several native backends are main-thread-only, so creating the event loop
//! off the designated main thread is rejected unless the caller explicitly
//! opted in. On this platform the main thread is the one whose thread id
//! equals the process id.

use vstd::prelude::*;

verus! {

/// Relies on rustix::thread::gettid: returns the calling thread's OS
/// thread id. The value depends on the running process, so nothing is
/// promised of it.
#[verifier::external_body]
fn current_thread_id() -> i32 {
    rustix::thread::gettid().as_raw_nonzero().get()
}

/// Relies on rustix::process::getpid: returns the process id. The value
/// depends on the running process, so nothing is promised of it.
#[verifier::external_body]
fn current_process_id() -> i32 {
    rustix::process::getpid().as_raw_nonzero().get()
}

/// Whether the calling thread is the process's main thread: on this
/// platform, whether its thread id equals the process id.
pub fn is_main_thread() -> bool {
    let tid = current_thread_id();
    let pid = current_process_id();
    tid == pid
}

} // verus!
