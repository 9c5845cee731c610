//! The single-occupancy, reentrancy-guarded application callback slot.
//!
//! The slot is an explicit three-state tagged value: the handler is moved in
//! by [`EventHandler::set`], moved out and back by [`EventHandler::handle`],
//! and dropped by [`EventHandler::terminate`]. "Currently borrowed" is a real
//! state, not a runtime borrow check, so misuse is reported as a typed
//! [`ReentrancyViolation`] which the embedding shell treats as fatal.

use vstd::prelude::*;

use crate::error::ReentrancyViolation;

verus! {

/// The three states of the handler slot.
pub enum HandlerSlot<T> {
    /// Not registered by the event loop, or terminated.
    Absent,
    /// Present and not currently executing.
    Idle(T),
    /// The handler is currently being executed.
    Borrowed,
}

/// What a call to [`EventHandler::handle`] did.
#[derive(Clone, Copy, Debug, PartialEq, Eq, Structural)]
pub enum HandleOutcome {
    /// The installed handler ran exactly once.
    Handled,
    /// No handler was installed; the call was a no-op the shell may log.
    NoHandler,
    /// The slot was already borrowed; the shell must treat this as fatal.
    Reentrant,
}

/// Holder of the application's callback object, used by the event loop to
/// deliver each batch of events.
pub struct EventHandler<T> {
    pub slot: HandlerSlot<T>,
}

impl<T> EventHandler<T> {
    /// An empty slot.
    pub fn new() -> (r: Self)
        ensures
            r.slot is Absent,
    {
        EventHandler { slot: HandlerSlot::Absent }
    }

    /// Install a handler. Installing while one is present, or while the
    /// present one runs, is a reentrancy violation and leaves the slot
    /// untouched.
    pub fn set(&mut self, handler: T) -> (r: Result<(), ReentrancyViolation>)
        ensures
            match old(self).slot {
                HandlerSlot::Absent => r is Ok && final(self).slot == HandlerSlot::Idle(handler),
                HandlerSlot::Idle(_) => r == Err::<(), _>(ReentrancyViolation::SetWhileSet)
                    && *final(self) == *old(self),
                HandlerSlot::Borrowed => r == Err::<(), _>(ReentrancyViolation::SetWhileBorrowed)
                    && *final(self) == *old(self),
            },
    {
        let mut slot = HandlerSlot::Borrowed;
        core::mem::swap(&mut self.slot, &mut slot);
        match slot {
            HandlerSlot::Absent => {
                self.slot = HandlerSlot::Idle(handler);
                Ok(())
            },
            HandlerSlot::Idle(prev) => {
                self.slot = HandlerSlot::Idle(prev);
                Err(ReentrancyViolation::SetWhileSet)
            },
            HandlerSlot::Borrowed => Err(ReentrancyViolation::SetWhileBorrowed),
        }
    }

    /// Whether the handler is currently executing.
    pub fn in_use(&self) -> (r: bool)
        ensures
            r == (self.slot is Borrowed),
    {
        match &self.slot {
            HandlerSlot::Borrowed => true,
            _ => false,
        }
    }

    /// Whether a handler is installed and not currently executing.
    pub fn ready(&self) -> (r: bool)
        ensures
            r == (self.slot is Idle),
    {
        match &self.slot {
            HandlerSlot::Idle(_) => true,
            _ => false,
        }
    }

    /// Run `callback` on the installed handler, moving it out for the
    /// duration of the call and back in afterwards. With no handler
    /// installed this is a no-op (an event can legitimately arrive after the
    /// application already requested termination); finding the slot borrowed
    /// is a reentrancy error the caller must treat as fatal.
    pub fn handle<F: FnOnce(T) -> T>(&mut self, callback: F) -> (r: HandleOutcome)
        requires
            forall|t: T| callback.requires((t,)),
        ensures
            match old(self).slot {
                HandlerSlot::Idle(t) => r == HandleOutcome::Handled && (exists|u: T|
                    #[trigger] callback.ensures((t,), u) && final(self).slot
                        == HandlerSlot::Idle(u)),
                HandlerSlot::Absent => r == HandleOutcome::NoHandler && *final(self) == *old(self),
                HandlerSlot::Borrowed => r == HandleOutcome::Reentrant && *final(self)
                    == *old(self),
            },
    {
        let mut slot = HandlerSlot::Borrowed;
        core::mem::swap(&mut self.slot, &mut slot);
        match slot {
            HandlerSlot::Idle(handler) => {
                let handler = callback(handler);
                self.slot = HandlerSlot::Idle(handler);
                HandleOutcome::Handled
            },
            HandlerSlot::Absent => {
                self.slot = HandlerSlot::Absent;
                HandleOutcome::NoHandler
            },
            HandlerSlot::Borrowed => HandleOutcome::Reentrant,
        }
    }

    /// Drop the installed handler. Returns whether one was installed;
    /// clearing while the handler runs is a reentrancy error and the shell
    /// must abort rather than leave a borrow dangling.
    pub fn terminate(&mut self) -> (r: Result<bool, ReentrancyViolation>)
        ensures
            match old(self).slot {
                HandlerSlot::Idle(_) => r == Ok::<_, ReentrancyViolation>(true)
                    && final(self).slot is Absent,
                HandlerSlot::Absent => r == Ok::<_, ReentrancyViolation>(false) && *final(self)
                    == *old(self),
                HandlerSlot::Borrowed => r == Err::<bool, _>(
                    ReentrancyViolation::ClearWhileBorrowed,
                ) && *final(self) == *old(self),
            },
    {
        let mut slot = HandlerSlot::Borrowed;
        core::mem::swap(&mut self.slot, &mut slot);
        match slot {
            HandlerSlot::Idle(_handler) => {
                self.slot = HandlerSlot::Absent;
                Ok(true)
            },
            HandlerSlot::Absent => {
                self.slot = HandlerSlot::Absent;
                Ok(false)
            },
            HandlerSlot::Borrowed => Err(ReentrancyViolation::ClearWhileBorrowed),
        }
    }
}

} // verus!
