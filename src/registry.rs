use vstd::prelude::*;
use crate::error::SessionError;

verus! {

/// What a lookup in a registry holding `installed` yields: the installed
/// client, or `NotStarted` when there is none.
pub open spec fn lookup<H>(installed: Option<H>) -> Result<H, SessionError> {
    match installed {
        Some(h) => Ok(h),
        None => Err(SessionError::NotStarted),
    }
}

/// Holds at most one light-client handle. A handle is only ever placed here
/// whole, replacing the previous one in a single step; exclusive access is
/// what `&mut` gives, and callers that share a registry across threads put
/// it behind a lock.
pub struct HeliosState<H> {
    handle: Option<H>,
}

impl<H> View for HeliosState<H> {
    type V = Option<H>;

    closed spec fn view(&self) -> Option<H> {
        self.handle
    }
}

impl<H> HeliosState<H> {
    /// A registry with no client installed.
    pub fn new() -> (r: Self)
        ensures
            r@ == None::<H>,
    {
        HeliosState { handle: None }
    }

    /// Whether a client is installed.
    pub fn is_started(&self) -> (r: bool)
        ensures
            r == self@.is_some(),
    {
        self.handle.is_some()
    }

    /// Installs `handle`, replacing any previous one, which is handed back
    /// for the caller to retire.
    pub fn install(&mut self, handle: H) -> (previous: Option<H>)
        ensures
            final(self)@ == Some(handle),
            previous == old(self)@,
    {
        let previous = self.handle.take();
        self.handle = Some(handle);
        previous
    }

    /// The installed client, or `NotStarted`.
    pub fn handle(&self) -> (r: Result<&H, SessionError>)
        ensures
            match lookup(self@) {
                Ok(h) => r matches Ok(x) && *x == h,
                Err(e) => r matches Err(x) && x == e,
            },
    {
        match &self.handle {
            Some(h) => Ok(h),
            None => Err(SessionError::NotStarted),
        }
    }
}

} // verus!
