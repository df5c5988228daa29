//! The playback monitor: it waits on the player list, the operator's override
//! and the players' own changes, and after each of them has the inhibit state
//! evaluated and the display refreshed.

use vstd::prelude::*;

verus! {

/// What happened for the playback monitor.
#[derive(Debug, PartialEq, Eq)]
pub enum MonitorEvent {
    /// The set of players on the bus changed.
    ListChanged,
    /// The operator flipped the override.
    OverrideToggled,
    /// A subscribed player changed one of its properties.
    PlayerChanged,
    /// The subscriptions were rebuilt; these players accepted.
    Rebuilt(Vec<String>),
    /// An evaluation pass has run.
    Evaluated,
    /// The display was asked to refresh.
    Notified,
    /// The action failed for good: the bus or a channel is gone.
    Failed,
}

/// What the caller does next for the playback monitor.
#[derive(Clone, Copy, Debug, PartialEq, Eq)]
pub enum MonitorAction {
    /// Drop every subscription, subscribe to the players now on the bus and
    /// report `Rebuilt`.
    Rebuild,
    /// Run one evaluation pass and report `Evaluated`.
    Evaluate,
    /// Ask the display to refresh and report `Notified`.
    NotifyUi,
    /// Wait for the first of the three sources to fire and report which.
    Wait,
    /// Leave the loop: the monitor has ended.
    Stop,
}

/// Where the monitor stands in its cycle.
#[derive(Clone, Copy, Debug, PartialEq, Eq)]
pub enum Phase {
    /// The subscriptions are being rebuilt.
    Rebuilding,
    /// An evaluation pass is running.
    Evaluating,
    /// The display is being asked to refresh.
    Notifying,
    /// The monitor waits for its sources.
    Waiting,
    /// The monitor has ended.
    Stopped,
}

/// The playback monitor as contracts see it.
pub struct MonitorState {
    /// Where the monitor stands in its cycle.
    pub phase: Phase,
    /// The players whose subscriptions make up the multiplexed stream.
    pub stream: Seq<String>,
}

impl MonitorState {
    /// The monitor at startup: about to build its first stream.
    pub open spec fn initial() -> MonitorState {
        MonitorState { phase: Phase::Rebuilding, stream: Seq::empty() }
    }

    /// The action that belongs to the phase the monitor is in.
    pub open spec fn pending(self) -> MonitorAction {
        match self.phase {
            Phase::Rebuilding => MonitorAction::Rebuild,
            Phase::Evaluating => MonitorAction::Evaluate,
            Phase::Notifying => MonitorAction::NotifyUi,
            Phase::Waiting => MonitorAction::Wait,
            Phase::Stopped => MonitorAction::Stop,
        }
    }

    /// The same monitor in another phase.
    pub open spec fn at(self, phase: Phase) -> MonitorState {
        MonitorState { phase, ..self }
    }

    /// The monitor after `event`.
    ///
    /// A rebuild replaces the stream as a whole, then comes the evaluation,
    /// then the refresh, then the wait. A change of the player list leads
    /// from the wait to a rebuild; the override and a player's change lead
    /// straight to the evaluation. A failure ends the monitor. An event that
    /// does not answer the pending action changes nothing.
    pub open spec fn after(self, event: MonitorEvent) -> MonitorState {
        match (self.phase, event) {
            (Phase::Stopped, _) => self,
            (_, MonitorEvent::Failed) => self.at(Phase::Stopped),
            (Phase::Rebuilding, MonitorEvent::Rebuilt(players)) => MonitorState {
                phase: Phase::Evaluating,
                stream: players@,
            },
            (Phase::Evaluating, MonitorEvent::Evaluated) => self.at(Phase::Notifying),
            (Phase::Notifying, MonitorEvent::Notified) => self.at(Phase::Waiting),
            (Phase::Waiting, MonitorEvent::ListChanged) => self.at(Phase::Rebuilding),
            (Phase::Waiting, MonitorEvent::OverrideToggled) => self.at(Phase::Evaluating),
            (Phase::Waiting, MonitorEvent::PlayerChanged) => self.at(Phase::Evaluating),
            _ => self,
        }
    }

    /// One transition: the monitor after `event`, and what the caller does
    /// next.
    pub open spec fn step(self, event: MonitorEvent) -> (MonitorState, MonitorAction) {
        (self.after(event), self.after(event).pending())
    }

    /// The monitor after the caller has carried out the pending action
    /// without failure, where a rebuild ends with the players `players`.
    pub open spec fn carried_out(self, players: Vec<String>) -> MonitorState {
        match self.pending() {
            MonitorAction::Rebuild => self.after(MonitorEvent::Rebuilt(players)),
            MonitorAction::Evaluate => self.after(MonitorEvent::Evaluated),
            MonitorAction::NotifyUi => self.after(MonitorEvent::Notified),
            MonitorAction::Wait => self,
            MonitorAction::Stop => self,
        }
    }

    /// How many actions lie between the monitor and its next wait.
    pub open spec fn distance(self) -> nat {
        match self.phase {
            Phase::Rebuilding => 3,
            Phase::Evaluating => 2,
            Phase::Notifying => 1,
            Phase::Waiting => 0,
            Phase::Stopped => 0,
        }
    }

    /// The actions that the monitor asks for up to and with its next wait,
    /// where nothing fails, and the state that it waits in.
    pub open spec fn until_wait(self, players: Vec<String>) -> (MonitorState, Seq<MonitorAction>)
        decreases self.distance(),
    {
        if self.distance() == 0 {
            (self, seq![self.pending()])
        } else {
            let (waiting, actions) = self.carried_out(players).until_wait(players);
            (waiting, seq![self.pending()] + actions)
        }
    }
}

/// The playback monitor.
pub struct PlaybackMonitor {
    /// Where the monitor stands in its cycle.
    phase: Phase,
    /// The players whose subscriptions make up the multiplexed stream.
    stream: Vec<String>,
}

impl View for PlaybackMonitor {
    type V = MonitorState;

    closed spec fn view(&self) -> MonitorState {
        MonitorState { phase: self.phase, stream: self.stream@ }
    }
}

impl PlaybackMonitor {
    /// A monitor at startup, and its first action: to build the stream.
    pub fn start() -> (started: (Self, MonitorAction))
        ensures
            started.0@ == MonitorState::initial(),
            started.1 == MonitorAction::Rebuild,
    {
        (Self { phase: Phase::Rebuilding, stream: Vec::new() }, MonitorAction::Rebuild)
    }

    /// Where the monitor stands in its cycle.
    pub fn phase(&self) -> (phase: Phase)
        ensures
            phase == self@.phase,
    {
        self.phase
    }

    /// The players whose subscriptions make up the multiplexed stream.
    pub fn stream(&self) -> (stream: &Vec<String>)
        ensures
            stream@ == self@.stream,
    {
        &self.stream
    }

    /// The action that belongs to the phase the monitor is in.
    pub fn pending(&self) -> (action: MonitorAction)
        ensures
            action == self@.pending(),
    {
        match self.phase {
            Phase::Rebuilding => MonitorAction::Rebuild,
            Phase::Evaluating => MonitorAction::Evaluate,
            Phase::Notifying => MonitorAction::NotifyUi,
            Phase::Waiting => MonitorAction::Wait,
            Phase::Stopped => MonitorAction::Stop,
        }
    }

    /// Advances the monitor by one event and says what the caller does next.
    pub fn step(&mut self, event: MonitorEvent) -> (action: MonitorAction)
        ensures
            (final(self)@, action) == old(self)@.step(event),
    {
        match (self.phase, event) {
            (Phase::Stopped, _) => {},
            (_, MonitorEvent::Failed) => {
                self.phase = Phase::Stopped;
            },
            (Phase::Rebuilding, MonitorEvent::Rebuilt(players)) => {
                self.stream = players;
                self.phase = Phase::Evaluating;
            },
            (Phase::Evaluating, MonitorEvent::Evaluated) => {
                self.phase = Phase::Notifying;
            },
            (Phase::Notifying, MonitorEvent::Notified) => {
                self.phase = Phase::Waiting;
            },
            (Phase::Waiting, MonitorEvent::ListChanged) => {
                self.phase = Phase::Rebuilding;
            },
            (Phase::Waiting, MonitorEvent::OverrideToggled) => {
                self.phase = Phase::Evaluating;
            },
            (Phase::Waiting, MonitorEvent::PlayerChanged) => {
                self.phase = Phase::Evaluating;
            },
            _ => {},
        }
        self.pending()
    }
}

/// At startup the monitor builds the stream, evaluates once, refreshes the
/// display once and then waits.
pub proof fn lemma_startup_cycle(players: Vec<String>)
    ensures
        MonitorState::initial().until_wait(players) == (
            MonitorState { phase: Phase::Waiting, stream: players@ },
            seq![
                MonitorAction::Rebuild,
                MonitorAction::Evaluate,
                MonitorAction::NotifyUi,
                MonitorAction::Wait,
            ],
        ),
{
    reveal_with_fuel(MonitorState::until_wait, 4);
    let actions = MonitorState::initial().until_wait(players).1;
    assert(actions =~= seq![
        MonitorAction::Rebuild,
        MonitorAction::Evaluate,
        MonitorAction::NotifyUi,
        MonitorAction::Wait,
    ]);
}

/// A change of the player list is answered by one rebuild, one evaluation
/// and one refresh, in this order; the stream that the monitor then waits on
/// is the rebuilt one and holds nothing of the stream before.
pub proof fn lemma_list_change_cycle(monitor: MonitorState, players: Vec<String>)
    requires
        monitor.phase == Phase::Waiting,
    ensures
        monitor.after(MonitorEvent::ListChanged).until_wait(players) == (
            MonitorState { phase: Phase::Waiting, stream: players@ },
            seq![
                MonitorAction::Rebuild,
                MonitorAction::Evaluate,
                MonitorAction::NotifyUi,
                MonitorAction::Wait,
            ],
        ),
{
    reveal_with_fuel(MonitorState::until_wait, 4);
    let actions = monitor.after(MonitorEvent::ListChanged).until_wait(players).1;
    assert(actions =~= seq![
        MonitorAction::Rebuild,
        MonitorAction::Evaluate,
        MonitorAction::NotifyUi,
        MonitorAction::Wait,
    ]);
}

/// The override and a player's own change are answered by one evaluation
/// and one refresh, without a rebuild: the stream stays as it is.
pub proof fn lemma_change_cycle(monitor: MonitorState, event: MonitorEvent, players: Vec<String>)
    requires
        monitor.phase == Phase::Waiting,
        event == MonitorEvent::OverrideToggled || event == MonitorEvent::PlayerChanged,
    ensures
        monitor.after(event).until_wait(players) == (
            monitor,
            seq![MonitorAction::Evaluate, MonitorAction::NotifyUi, MonitorAction::Wait],
        ),
{
    reveal_with_fuel(MonitorState::until_wait, 3);
    let actions = monitor.after(event).until_wait(players).1;
    assert(actions =~= seq![MonitorAction::Evaluate, MonitorAction::NotifyUi, MonitorAction::Wait]);
}

/// A failure ends the monitor in whatever phase it strikes, and a stopped
/// monitor stays stopped.
pub proof fn lemma_failure_is_final(monitor: MonitorState, event: MonitorEvent)
    ensures
        monitor.step(MonitorEvent::Failed).1 == MonitorAction::Stop,
        monitor.step(MonitorEvent::Failed).0.step(event) == (
            monitor.at(Phase::Stopped),
            MonitorAction::Stop,
        ),
{
}

} // verus!
