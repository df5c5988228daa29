//! The face that the tray icon shows for an inhibit state.

use vstd::prelude::*;
use crate::screensaver::{InhibitState, ScreensaverState};

verus! {

/// The three faces of the tray icon.
#[derive(Clone, Copy, Debug, PartialEq, Eq)]
pub enum AppIconState {
    /// Updates are allowed and the screensaver is held back.
    Active,
    /// Updates are allowed and the screensaver is free to start.
    Inactive,
    /// The operator has switched the machine off.
    Blocked,
}

/// The face for `state`. The operator's switch comes first: while updates are
/// disallowed the face is `Blocked`, whether or not a token is still held.
pub open spec fn icon_for(state: InhibitState) -> AppIconState {
    if !state.updates_allowed {
        AppIconState::Blocked
    } else if state.blocked {
        AppIconState::Active
    } else {
        AppIconState::Inactive
    }
}

/// The face that the tray icon shows for `screensaver`.
pub fn determine_app_icon_state(screensaver: &ScreensaverState) -> (icon: AppIconState)
    ensures
        icon == icon_for(screensaver@),
{
    if !screensaver.are_updates_allowed() {
        return AppIconState::Blocked;
    }
    if screensaver.is_blocked() {
        return AppIconState::Active;
    }
    AppIconState::Inactive
}

} // verus!
