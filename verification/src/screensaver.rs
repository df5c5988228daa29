//! The inhibit state machine: whether the screensaver is held back, under
//! which token, and whether the operator lets the machine decide at all.

use vstd::prelude::*;
use crate::media_player::{any_playing, StatusReply};

verus! {

/// The application name handed to the screensaver service with an inhibit.
pub const INHIBIT_APP_NAME: &'static str = "Rust Media Monitor";

/// The reason handed to the screensaver service with an inhibit.
pub const INHIBIT_REASON: &'static str = "Media is currently playing";

/// What happened on the bus for the inhibit state machine.
#[derive(Clone, Copy, Debug, PartialEq, Eq)]
pub enum ScreensaverEvent {
    /// An evaluation pass begins.
    Evaluate,
    /// The players were asked; the flag says whether any of them is playing.
    Playback(bool),
    /// The screensaver service answered an inhibit call with this cookie.
    Inhibited(u32),
}

/// What the caller does next for the inhibit state machine.
#[derive(Clone, Copy, Debug, PartialEq, Eq)]
pub enum ScreensaverAction {
    /// Find out whether any player is playing and report `Playback`.
    QueryPlayback,
    /// Call the service's inhibit method and report `Inhibited`.
    Inhibit,
    /// Call the service's release method with this token; the pass ends with
    /// the call.
    UnInhibit(u32),
    /// The pass is over and nothing is left to do.
    Done,
}

/// The three states of the machine.
#[derive(Clone, Copy, Debug, PartialEq, Eq)]
pub enum Mode {
    /// The operator has switched the machine off.
    Unmanaged,
    /// Updates are allowed and the screensaver is free to start.
    Idle,
    /// Updates are allowed and the screensaver is held back.
    Active,
}

/// The inhibit state as contracts see it.
pub struct InhibitState {
    /// The operator lets the machine follow playback.
    pub updates_allowed: bool,
    /// The screensaver is held back.
    pub blocked: bool,
    /// The token of the inhibit that holds it back.
    pub token: Option<u32>,
}

impl InhibitState {
    /// A token is held exactly while the screensaver is blocked, and a token
    /// is never zero.
    pub open spec fn wf(self) -> bool {
        &&& self.blocked <==> self.token is Some
        &&& self.token != Some(0u32)
    }

    /// The state the machine starts in.
    pub open spec fn initial() -> InhibitState {
        InhibitState { updates_allowed: true, blocked: false, token: None }
    }

    /// The state of the machine that this value stands for.
    pub open spec fn mode(self) -> Mode {
        if !self.updates_allowed {
            Mode::Unmanaged
        } else if self.blocked {
            Mode::Active
        } else {
            Mode::Idle
        }
    }

    /// The same state with the operator's switch set to `allowed`.
    pub open spec fn with_updates(self, allowed: bool) -> InhibitState {
        InhibitState { updates_allowed: allowed, ..self }
    }

    /// Acquire: an inhibit call is due unless a token is already held.
    pub open spec fn block(self) -> ScreensaverAction {
        if self.token is Some {
            ScreensaverAction::Done
        } else {
            ScreensaverAction::Inhibit
        }
    }

    /// Release: the token leaves the state and goes to the release call;
    /// without a token nothing changes.
    pub open spec fn unblock(self) -> (InhibitState, ScreensaverAction) {
        match self.token {
            Some(token) => (
                InhibitState { blocked: false, token: None, ..self },
                ScreensaverAction::UnInhibit(token),
            ),
            None => (self, ScreensaverAction::Done),
        }
    }

    /// The service's answer to an inhibit call. A zero cookie grants nothing.
    /// A cookie that arrives while a token is held is surplus and goes
    /// straight back to the service. Any other cookie becomes the token.
    pub open spec fn granted(self, cookie: u32) -> (InhibitState, ScreensaverAction) {
        if cookie == 0 {
            (self, ScreensaverAction::Done)
        } else if self.token is Some {
            (self, ScreensaverAction::UnInhibit(cookie))
        } else {
            (
                InhibitState { blocked: true, token: Some(cookie), ..self },
                ScreensaverAction::Done,
            )
        }
    }

    /// One transition: the state after `event`, and what the caller does next.
    pub open spec fn step(self, event: ScreensaverEvent) -> (InhibitState, ScreensaverAction) {
        match event {
            ScreensaverEvent::Evaluate => {
                if self.updates_allowed {
                    (self, ScreensaverAction::QueryPlayback)
                } else {
                    self.unblock()
                }
            },
            ScreensaverEvent::Playback(playing) => {
                if playing && !self.blocked {
                    (self, self.block())
                } else if !playing && self.blocked {
                    self.unblock()
                } else {
                    (self, ScreensaverAction::Done)
                }
            },
            ScreensaverEvent::Inhibited(cookie) => self.granted(cookie),
        }
    }

    /// A whole evaluation pass: the state it ends in and the calls it makes
    /// on the screensaver service, in order. The pass runs `step` from
    /// `Evaluate`; the players answer the query with `playing`, and the
    /// service answers an inhibit call with `cookie`.
    pub open spec fn pass(self, playing: bool, cookie: u32) -> (
        InhibitState,
        Seq<ScreensaverAction>,
    ) {
        let (begun, first) = self.step(ScreensaverEvent::Evaluate);
        if first != ScreensaverAction::QueryPlayback {
            (begun, service_calls(first))
        } else {
            let (decided, second) = begun.step(ScreensaverEvent::Playback(playing));
            if second != ScreensaverAction::Inhibit {
                (decided, service_calls(second))
            } else {
                let (ended, third) = decided.step(ScreensaverEvent::Inhibited(cookie));
                (ended, seq![ScreensaverAction::Inhibit] + service_calls(third))
            }
        }
    }
}

/// The call on the screensaver service that `action` asks for, if it asks
/// for one.
pub open spec fn service_calls(action: ScreensaverAction) -> Seq<ScreensaverAction> {
    match action {
        ScreensaverAction::Inhibit => seq![action],
        ScreensaverAction::UnInhibit(_) => seq![action],
        ScreensaverAction::QueryPlayback => Seq::empty(),
        ScreensaverAction::Done => Seq::empty(),
    }
}

/// The inhibit state of the running program.
pub struct ScreensaverState {
    /// Whether the machine may block and unblock the screensaver.
    allow_updates: bool,
    /// Whether the screensaver is currently blocked.
    blocked: bool,
    /// The cookie of the inhibit in force; 0 while there is none.
    inhibit_cookie: u32,
}

impl View for ScreensaverState {
    type V = InhibitState;

    closed spec fn view(&self) -> InhibitState {
        InhibitState {
            updates_allowed: self.allow_updates,
            blocked: self.blocked,
            token: if self.inhibit_cookie == 0 {
                None
            } else {
                Some(self.inhibit_cookie)
            },
        }
    }
}

impl ScreensaverState {
    #[verifier::type_invariant]
    spec fn cookie_while_blocked(self) -> bool {
        self.blocked <==> self.inhibit_cookie != 0
    }

    /// A machine in its initial state: updates allowed, nothing blocked.
    pub fn new() -> (state: Self)
        ensures
            state@ == InhibitState::initial(),
            state@.wf(),
    {
        Self { allow_updates: true, blocked: false, inhibit_cookie: 0 }
    }

    /// The operator switches the machine on. Nothing else changes until the
    /// next evaluation pass.
    pub fn allow_updates(&mut self)
        ensures
            final(self)@ == old(self)@.with_updates(true),
            final(self)@.wf(),
    {
        proof {
            use_type_invariant(&*self);
        }
        self.allow_updates = true;
    }

    /// The operator switches the machine off. A held token stays held until
    /// the next evaluation pass releases it.
    pub fn disallow_updates(&mut self)
        ensures
            final(self)@ == old(self)@.with_updates(false),
            final(self)@.wf(),
    {
        proof {
            use_type_invariant(&*self);
        }
        self.allow_updates = false;
    }

    /// The operator flips the switch. Returns its new position.
    pub fn toggle_updates(&mut self) -> (allowed: bool)
        ensures
            allowed == !old(self)@.updates_allowed,
            final(self)@ == old(self)@.with_updates(allowed),
            final(self)@.wf(),
    {
        proof {
            use_type_invariant(&*self);
        }
        self.allow_updates = !self.allow_updates;
        self.allow_updates
    }

    /// Whether the operator lets the machine follow playback.
    pub fn are_updates_allowed(&self) -> (allowed: bool)
        ensures
            allowed == self@.updates_allowed,
            self@.wf(),
    {
        proof {
            use_type_invariant(self);
        }
        self.allow_updates
    }

    /// Whether the screensaver is held back.
    pub fn is_blocked(&self) -> (blocked: bool)
        ensures
            blocked == self@.blocked,
            self@.wf(),
    {
        proof {
            use_type_invariant(self);
        }
        self.blocked
    }

    /// The state of the machine: unmanaged, idle or active.
    pub fn mode(&self) -> (mode: Mode)
        ensures
            mode == self@.mode(),
            self@.wf(),
    {
        proof {
            use_type_invariant(self);
        }
        if !self.allow_updates {
            Mode::Unmanaged
        } else if self.blocked {
            Mode::Active
        } else {
            Mode::Idle
        }
    }

    /// The token of the inhibit in force, if there is one.
    pub fn token(&self) -> (token: Option<u32>)
        ensures
            token == self@.token,
            self@.wf(),
    {
        proof {
            use_type_invariant(self);
        }
        if self.inhibit_cookie == 0 {
            None
        } else {
            Some(self.inhibit_cookie)
        }
    }

    /// Acquire, before the call: says whether an inhibit call is due.
    pub fn block(&self) -> (action: ScreensaverAction)
        ensures
            action == self@.block(),
            self@.wf(),
    {
        proof {
            use_type_invariant(self);
        }
        if self.inhibit_cookie != 0 {
            ScreensaverAction::Done
        } else {
            ScreensaverAction::Inhibit
        }
    }

    /// Release: takes the token out of the state and hands it to the caller
    /// for the release call.
    pub fn unblock(&mut self) -> (action: ScreensaverAction)
        ensures
            (final(self)@, action) == old(self)@.unblock(),
            final(self)@.wf(),
    {
        proof {
            use_type_invariant(&*self);
        }
        let cookie: u32 = self.inhibit_cookie;
        if cookie == 0 {
            return ScreensaverAction::Done;
        }
        *self = ScreensaverState { allow_updates: self.allow_updates, blocked: false, inhibit_cookie: 0 };
        ScreensaverAction::UnInhibit(cookie)
    }

    /// Advances the machine by one event of an evaluation pass and says what
    /// the caller does next.
    ///
    /// A pass begins with `Evaluate`. The caller performs each action and
    /// reports its result as the next event, until the action is `Done` or
    /// `UnInhibit`.
    pub fn update_state(&mut self, event: ScreensaverEvent) -> (action: ScreensaverAction)
        ensures
            (final(self)@, action) == old(self)@.step(event),
            final(self)@.wf(),
    {
        proof {
            use_type_invariant(&*self);
        }
        match event {
            ScreensaverEvent::Evaluate => {
                if !self.allow_updates {
                    return self.unblock();
                }
                ScreensaverAction::QueryPlayback
            },
            ScreensaverEvent::Playback(playing) => {
                if playing && !self.blocked {
                    return self.block();
                }
                if !playing && self.blocked {
                    return self.unblock();
                }
                ScreensaverAction::Done
            },
            ScreensaverEvent::Inhibited(cookie) => {
                if cookie == 0 {
                    return ScreensaverAction::Done;
                }
                if self.inhibit_cookie != 0 {
                    return ScreensaverAction::UnInhibit(cookie);
                }
                *self = ScreensaverState { allow_updates: self.allow_updates, blocked: true, inhibit_cookie: cookie };
                ScreensaverAction::Done
            },
        }
    }
}

/// Every transition keeps the state well formed and leaves the operator's
/// switch alone.
pub proof fn lemma_step_keeps_wf(state: InhibitState, event: ScreensaverEvent)
    requires
        state.wf(),
    ensures
        state.step(event).0.wf(),
        state.step(event).0.updates_allowed == state.updates_allowed,
{
}

/// An inhibit is asked for only while no token is held, and a release only
/// for the token that is held: no token is acquired twice without a release
/// in between.
pub proof fn lemma_one_token_at_a_time(state: InhibitState, event: ScreensaverEvent)
    requires
        state.wf(),
        !(event is Inhibited),
    ensures
        state.step(event).1 == ScreensaverAction::Inhibit ==> state.token is None,
        state.step(event).1 is UnInhibit ==> state.token == Some(state.step(event).1->UnInhibit_0)
            && state.step(event).0.token is None,
{
}

/// A whole pass keeps the state well formed, leaves the operator's switch
/// alone and calls the screensaver service at most once.
pub proof fn lemma_pass_keeps_wf(state: InhibitState, playing: bool, cookie: u32)
    requires
        state.wf(),
    ensures
        state.pass(playing, cookie).0.wf(),
        state.pass(playing, cookie).0.updates_allowed == state.updates_allowed,
        state.pass(playing, cookie).1.len() <= 1,
{
}

/// When no player reports "playing", a pass that starts with the
/// screensaver held back ends with it free, and its one call on the service
/// releases the token that was held.
pub proof fn lemma_pass_releases_when_nothing_plays(
    state: InhibitState,
    replies: Seq<StatusReply>,
    cookie: u32,
)
    requires
        state.wf(),
        state.mode() == Mode::Active,
        !any_playing(replies),
    ensures
        state.pass(any_playing(replies), cookie).0.mode() == Mode::Idle,
        state.pass(any_playing(replies), cookie).0.token is None,
        state.pass(any_playing(replies), cookie).1 == seq![
            ScreensaverAction::UnInhibit(state.token->0),
        ],
{
}

/// When some player reports "playing", a pass that starts with the
/// screensaver free ends with it held back under the token that the service
/// granted, and its one call on the service is the inhibit.
pub proof fn lemma_pass_acquires_when_something_plays(
    state: InhibitState,
    replies: Seq<StatusReply>,
    cookie: u32,
)
    requires
        state.wf(),
        state.mode() == Mode::Idle,
        any_playing(replies),
        cookie != 0,
    ensures
        state.pass(any_playing(replies), cookie).0.mode() == Mode::Active,
        state.pass(any_playing(replies), cookie).0.token == Some(cookie),
        state.pass(any_playing(replies), cookie).1 == seq![ScreensaverAction::Inhibit],
{
}

/// A second pass over unchanged playback changes nothing and makes no call
/// on the service: the token of the first pass stays in force.
pub proof fn lemma_pass_is_idempotent(
    state: InhibitState,
    playing: bool,
    first: u32,
    second: u32,
)
    requires
        state.wf(),
        first != 0,
    ensures
        ({
            let once = state.pass(playing, first).0;
            once.pass(playing, second) == (once, Seq::<ScreensaverAction>::empty())
        }),
{
}

/// Once the operator has switched the machine off, one pass frees the
/// screensaver and releases the token, whatever the players are doing.
pub proof fn lemma_pass_unblocks_when_disallowed(state: InhibitState, playing: bool, cookie: u32)
    requires
        state.wf(),
        state.mode() == Mode::Active,
    ensures
        ({
            let (ended, calls) = state.with_updates(false).pass(playing, cookie);
            &&& !ended.updates_allowed
            &&& !ended.blocked
            &&& ended.token is None
            &&& calls == seq![ScreensaverAction::UnInhibit(state.token->0)]
        }),
{
}

} // verus!
