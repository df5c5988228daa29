//! The discovery monitor: it watches the ownership of bus names and tells
//! the playback monitor whenever a media player comes or goes.

use vstd::prelude::*;
use crate::utils::{is_media_player, media_player_name};

verus! {

/// A decoded ownership change of one bus name.
#[derive(Debug, PartialEq, Eq)]
pub struct NameOwnerChanged {
    /// The bus name whose owner changed.
    pub name: String,
    /// The owner before the change, if the name had one.
    pub old_owner: Option<String>,
    /// The owner after the change, if the name has one.
    pub new_owner: Option<String>,
}

/// What an ownership change means for the set of players. It is told apart
/// for the log only: each kind is announced in the same way.
#[derive(Clone, Copy, Debug, PartialEq, Eq)]
pub enum OwnerChange {
    /// The name had no owner and has one now.
    Added,
    /// The name had an owner and has none now.
    Removed,
    /// The name changed hands, or nothing changed.
    Other,
}

/// What happened on the bus, or on the channel, for the discovery monitor.
#[derive(Debug, PartialEq, Eq)]
pub enum DiscoveryEvent {
    /// An ownership change arrived and was decoded.
    Signal(NameOwnerChanged),
    /// An ownership change arrived that could not be decoded.
    Malformed,
    /// The bus will deliver no more ownership changes.
    Closed,
    /// The notification was put on the channel.
    Delivered,
    /// The notification could not be sent: the receiver is gone.
    Undeliverable,
}

/// What the caller does next for the discovery monitor.
#[derive(Clone, Copy, Debug, PartialEq, Eq)]
pub enum DiscoveryAction {
    /// Wait for the next ownership change and report it.
    Listen,
    /// Send one notification that the player set changed, and report
    /// whether it was delivered.
    Notify(OwnerChange),
    /// Leave the loop: the monitor has ended.
    Stop,
}

/// The kind of a change from `old_owner` to `new_owner`.
pub open spec fn owner_change(old_owner: Option<String>, new_owner: Option<String>) -> OwnerChange {
    if old_owner is None && new_owner is Some {
        OwnerChange::Added
    } else if old_owner is Some && new_owner is None {
        OwnerChange::Removed
    } else {
        OwnerChange::Other
    }
}

/// One transition of the discovery monitor: whether it has stopped after
/// `event`, and what the caller does next.
///
/// Every ownership change of a name in the media player namespace is
/// announced, one notification for each. Changes of other names and changes
/// that cannot be decoded are passed over. The monitor stops when a
/// notification cannot be delivered or the bus closes, and stays stopped.
pub open spec fn discovery_step(stopped: bool, event: DiscoveryEvent) -> (bool, DiscoveryAction) {
    if stopped {
        (true, DiscoveryAction::Stop)
    } else {
        match event {
            DiscoveryEvent::Signal(change) => {
                if media_player_name(change.name@) {
                    (
                        false,
                        DiscoveryAction::Notify(owner_change(change.old_owner, change.new_owner)),
                    )
                } else {
                    (false, DiscoveryAction::Listen)
                }
            },
            DiscoveryEvent::Malformed => (false, DiscoveryAction::Listen),
            DiscoveryEvent::Delivered => (false, DiscoveryAction::Listen),
            DiscoveryEvent::Closed => (true, DiscoveryAction::Stop),
            DiscoveryEvent::Undeliverable => (true, DiscoveryAction::Stop),
        }
    }
}

impl NameOwnerChanged {
    /// The kind of this change.
    pub fn kind(&self) -> (kind: OwnerChange)
        ensures
            kind == owner_change(self.old_owner, self.new_owner),
    {
        if self.old_owner.is_none() && self.new_owner.is_some() {
            OwnerChange::Added
        } else if self.old_owner.is_some() && self.new_owner.is_none() {
            OwnerChange::Removed
        } else {
            OwnerChange::Other
        }
    }
}

/// The discovery monitor.
pub struct MediaMonitor {
    /// The monitor has ended.
    stopped: bool,
}

impl MediaMonitor {
    /// Whether the monitor has ended.
    pub closed spec fn stopped(&self) -> bool {
        self.stopped
    }

    /// A running monitor, and its first action: to listen.
    pub fn start() -> (started: (Self, DiscoveryAction))
        ensures
            !started.0.stopped(),
            started.1 == DiscoveryAction::Listen,
    {
        (Self { stopped: false }, DiscoveryAction::Listen)
    }

    /// Whether the monitor has ended.
    pub fn is_stopped(&self) -> (stopped: bool)
        ensures
            stopped == self.stopped(),
    {
        self.stopped
    }

    /// Advances the monitor by one event and says what the caller does next.
    pub fn step(&mut self, event: DiscoveryEvent) -> (action: DiscoveryAction)
        ensures
            (final(self).stopped(), action) == discovery_step(old(self).stopped(), event),
    {
        if self.stopped {
            return DiscoveryAction::Stop;
        }
        match event {
            DiscoveryEvent::Signal(change) => {
                if !is_media_player(change.name.as_str()) {
                    return DiscoveryAction::Listen;
                }
                DiscoveryAction::Notify(change.kind())
            },
            DiscoveryEvent::Malformed => DiscoveryAction::Listen,
            DiscoveryEvent::Delivered => DiscoveryAction::Listen,
            DiscoveryEvent::Closed => {
                self.stopped = true;
                DiscoveryAction::Stop
            },
            DiscoveryEvent::Undeliverable => {
                self.stopped = true;
                DiscoveryAction::Stop
            },
        }
    }
}

} // verus!
