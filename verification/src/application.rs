//! The two flags of the application: whether the screensaver state may be
//! changed, and whether the screensaver is blocked.

use vstd::prelude::*;

verus! {

/// The flags of the application. There is one set of flags for each state:
/// whoever is to see a change of them shares the state itself, by reference
/// or behind a lock.
#[derive(Debug, PartialEq, Eq)]
pub struct AppState {
    /// Master flag: the application may change the screensaver state.
    pub allow_screensaver_updates: bool,
    /// The application is currently blocking the screensaver.
    pub screensaver_blocked: bool,
}

impl AppState {
    /// The flags at startup: changes are allowed and nothing is blocked.
    pub fn new() -> (state: Self)
        ensures
            state.allow_screensaver_updates,
            !state.screensaver_blocked,
    {
        Self { allow_screensaver_updates: true, screensaver_blocked: false }
    }

    /// Lets the application change the screensaver state.
    pub fn allow_screensaver_updates(&mut self)
        ensures
            final(self).allow_screensaver_updates,
            final(self).screensaver_blocked == old(self).screensaver_blocked,
    {
        self.allow_screensaver_updates = true;
    }

    /// Stops the application from changing the screensaver state.
    pub fn disallow_screensaver_updates(&mut self)
        ensures
            !final(self).allow_screensaver_updates,
            final(self).screensaver_blocked == old(self).screensaver_blocked,
    {
        self.allow_screensaver_updates = false;
    }

    /// Whether the application may change the screensaver state.
    pub fn can_screensaver_be_updated(&self) -> (allowed: bool)
        ensures
            allowed == self.allow_screensaver_updates,
    {
        self.allow_screensaver_updates
    }

    /// Records that the screensaver is blocked.
    pub fn block_screensaver(&mut self)
        ensures
            final(self).screensaver_blocked,
            final(self).allow_screensaver_updates == old(self).allow_screensaver_updates,
    {
        self.screensaver_blocked = true;
    }

    /// Records that the screensaver is no longer blocked.
    pub fn unblock_screensaver(&mut self)
        ensures
            !final(self).screensaver_blocked,
            final(self).allow_screensaver_updates == old(self).allow_screensaver_updates,
    {
        self.screensaver_blocked = false;
    }

    /// Whether the screensaver is blocked.
    pub fn is_screensaver_blocked(&self) -> (blocked: bool)
        ensures
            blocked == self.screensaver_blocked,
    {
        self.screensaver_blocked
    }
}

} // verus!
