//! The evaluation pass for a caller that keeps the inhibit cookie and the
//! blocking flag itself, without an operator's switch.

use vstd::prelude::*;
use crate::screensaver::{ScreensaverAction, ScreensaverEvent};

verus! {

/// Acquire, before the call: an inhibit call is due unless a cookie is held.
pub open spec fn block_due(cookie: u32) -> ScreensaverAction {
    if cookie != 0 {
        ScreensaverAction::Done
    } else {
        ScreensaverAction::Inhibit
    }
}

/// Release: the action for the cookie that was held. The cookie itself is
/// cleared in any case.
pub open spec fn unblock_due(cookie: u32) -> ScreensaverAction {
    if cookie == 0 {
        ScreensaverAction::Done
    } else {
        ScreensaverAction::UnInhibit(cookie)
    }
}

/// The service's answer to an inhibit call. A zero cookie grants nothing. A
/// cookie that arrives while one is held is surplus and goes straight back to
/// the service. Any other cookie is kept, and the flag is raised.
pub open spec fn granted_due(cookie: u32, blocking: bool, granted: u32) -> (
    u32,
    bool,
    ScreensaverAction,
) {
    if granted == 0 {
        (cookie, blocking, ScreensaverAction::Done)
    } else if cookie != 0 {
        (cookie, blocking, ScreensaverAction::UnInhibit(granted))
    } else {
        (granted, true, ScreensaverAction::Done)
    }
}

/// One transition over the cookie and the flag: their values after `event`,
/// and what the caller does next.
///
/// The flag follows playback. It is raised when the service has granted an
/// inhibit, or at once where a cookie is held already; it is lowered when
/// playback has stopped, together with the release of the cookie.
pub open spec fn blocking_step(cookie: u32, blocking: bool, event: ScreensaverEvent) -> (
    u32,
    bool,
    ScreensaverAction,
) {
    match event {
        ScreensaverEvent::Evaluate => (cookie, blocking, ScreensaverAction::QueryPlayback),
        ScreensaverEvent::Playback(playing) => {
            if playing && !blocking {
                (cookie, cookie != 0, block_due(cookie))
            } else if !playing && blocking {
                (0, false, unblock_due(cookie))
            } else {
                (cookie, blocking, ScreensaverAction::Done)
            }
        },
        ScreensaverEvent::Inhibited(granted) => granted_due(cookie, blocking, granted),
    }
}

/// Acquire, before the call: says whether an inhibit call is due.
pub fn block_screen(cookie: &u32) -> (action: ScreensaverAction)
    ensures
        action == block_due(*cookie),
{
    if *cookie != 0 {
        return ScreensaverAction::Done;
    }
    ScreensaverAction::Inhibit
}

/// Release: clears the cookie and hands the one that was held to the caller
/// for the release call.
pub fn unblock_screen(cookie: &mut u32) -> (action: ScreensaverAction)
    ensures
        *final(cookie) == 0,
        action == unblock_due(*old(cookie)),
{
    let held: u32 = *cookie;
    *cookie = 0;
    if held == 0 {
        return ScreensaverAction::Done;
    }
    ScreensaverAction::UnInhibit(held)
}

/// Advances the evaluation by one event and says what the caller does next.
///
/// A pass begins with `Evaluate`. The caller performs each action and reports
/// its result as the next event, until the action is `Done` or `UnInhibit`.
pub fn update_blocking_state(
    cookie: &mut u32,
    currently_blocking: &mut bool,
    event: ScreensaverEvent,
) -> (action: ScreensaverAction)
    ensures
        (*final(cookie), *final(currently_blocking), action) == blocking_step(
            *old(cookie),
            *old(currently_blocking),
            event,
        ),
{
    match event {
        ScreensaverEvent::Evaluate => ScreensaverAction::QueryPlayback,
        ScreensaverEvent::Playback(playing) => {
            if playing && !*currently_blocking {
                let action = block_screen(cookie);
                if *cookie != 0 {
                    *currently_blocking = true;
                }
                return action;
            }
            if !playing && *currently_blocking {
                let action = unblock_screen(cookie);
                *currently_blocking = false;
                return action;
            }
            ScreensaverAction::Done
        },
        ScreensaverEvent::Inhibited(granted) => {
            if granted == 0 {
                return ScreensaverAction::Done;
            }
            if *cookie != 0 {
                return ScreensaverAction::UnInhibit(granted);
            }
            *cookie = granted;
            *currently_blocking = true;
            ScreensaverAction::Done
        },
    }
}

} // verus!
