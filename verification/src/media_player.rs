//! Questions put to the media players on the bus: whether any of them is
//! playing, and which of them accept a subscription to their property changes.

use vstd::prelude::*;
use crate::utils::{get_media_player_names, is_playback_running, media_players, playback_running};

verus! {

/// What came back when one player was asked for its playback status.
#[derive(Debug, PartialEq, Eq)]
pub enum StatusReply {
    /// The player reported this status text.
    Status(String),
    /// The player has no playback status.
    Absent,
    /// The lookup itself failed.
    Failed,
}

/// `reply` says that its player is playing. Only a status text can say so: a
/// player without a status, or one that could not be asked, is not playing.
pub open spec fn reports_playing(reply: StatusReply) -> bool {
    reply matches StatusReply::Status(text) && playback_running(text@)
}

/// Some reply among `replies` says that its player is playing.
pub open spec fn any_playing(replies: Seq<StatusReply>) -> bool {
    exists|i: int| 0 <= i < replies.len() && reports_playing(#[trigger] replies[i])
}

impl StatusReply {
    /// Whether this reply says that its player is playing.
    pub fn is_playing(&self) -> (b: bool)
        ensures
            b == reports_playing(*self),
    {
        match self {
            StatusReply::Status(text) => is_playback_running(text.as_str()),
            StatusReply::Absent => false,
            StatusReply::Failed => false,
        }
    }
}

/// What happened on the bus for a playback scan.
#[derive(Debug, PartialEq, Eq)]
pub enum ScanEvent {
    /// The bus listed these names; the scan starts over on them.
    Names(Vec<String>),
    /// The player asked last answered with this reply.
    Reply(StatusReply),
}

/// What the caller does next for a playback scan.
#[derive(Debug, PartialEq, Eq)]
pub enum ScanAction {
    /// Ask this player for its playback status and report `Reply`.
    Ask(String),
    /// The scan is over; the flag says whether a player is playing.
    Finish(bool),
}

/// A playback scan as contracts see it.
pub struct ScanState {
    /// The media players on the bus, in bus order.
    pub players: Seq<String>,
    /// How many of them the scan is done with.
    pub asked: nat,
}

impl ScanState {
    /// A scan that has no players to ask.
    pub open spec fn empty() -> ScanState {
        ScanState { players: Seq::empty(), asked: 0 }
    }

    /// The scan has not run past its players.
    pub open spec fn wf(self) -> bool {
        self.asked <= self.players.len()
    }

    /// The action that the scan is waiting on: the next player to ask, or
    /// the end of the scan with nobody playing.
    pub open spec fn pending(self) -> ScanAction {
        if self.asked < self.players.len() {
            ScanAction::Ask(self.players[self.asked as int])
        } else {
            ScanAction::Finish(false)
        }
    }

    /// One transition: the scan after `event`, and what the caller does next.
    ///
    /// A list of names restarts the scan on the media players among them. A
    /// reply that says "playing" ends the scan at once; any other reply moves
    /// it to the next player. A reply that answers no question changes
    /// nothing.
    pub open spec fn step(self, event: ScanEvent) -> (ScanState, ScanAction) {
        match event {
            ScanEvent::Names(names) => {
                let scan = ScanState { players: media_players(names@), asked: 0 };
                (scan, scan.pending())
            },
            ScanEvent::Reply(reply) => {
                if self.asked >= self.players.len() {
                    (self, ScanAction::Finish(false))
                } else if reports_playing(reply) {
                    (ScanState { asked: self.players.len(), ..self }, ScanAction::Finish(true))
                } else {
                    let scan = ScanState { asked: self.asked + 1, ..self };
                    (scan, scan.pending())
                }
            },
        }
    }

    /// The answer that the scan ends with when the player at position `i`
    /// answers with `replies[i]`, taken up from `action`.
    pub open spec fn outcome(self, action: ScanAction, replies: Seq<StatusReply>) -> bool
        decreases self.players.len() - self.asked,
    {
        match action {
            ScanAction::Finish(found) => found,
            ScanAction::Ask(_) => {
                if self.asked < self.players.len() {
                    let (scan, next) = self.step(ScanEvent::Reply(replies[self.asked as int]));
                    scan.outcome(next, replies)
                } else {
                    false
                }
            },
        }
    }
}

/// A scan of the media players for one that is playing. It asks the players
/// one at a time, in bus order, and stops at the first that is playing.
pub struct PlaybackScan {
    /// The media players to ask.
    players: Vec<String>,
    /// How many of them the scan is done with.
    asked: usize,
}

impl View for PlaybackScan {
    type V = ScanState;

    closed spec fn view(&self) -> ScanState {
        ScanState { players: self.players@, asked: self.asked as nat }
    }
}

impl PlaybackScan {
    #[verifier::type_invariant]
    spec fn within_players(self) -> bool {
        self.asked <= self.players.len()
    }

    /// A scan with no players; it starts with the event `Names`.
    pub fn new() -> (scan: Self)
        ensures
            scan@ == ScanState::empty(),
    {
        Self { players: Vec::new(), asked: 0 }
    }

    /// The action that the scan is waiting on.
    pub fn pending(&self) -> (action: ScanAction)
        ensures
            action == self@.pending(),
            self@.wf(),
    {
        proof {
            use_type_invariant(self);
        }
        if self.asked < self.players.len() {
            ScanAction::Ask(self.players[self.asked].clone())
        } else {
            ScanAction::Finish(false)
        }
    }
}

/// Advances the question "is any media playing?" by one event and says what
/// the caller does next.
///
/// The caller lists the names on the bus and reports them as `Names`, then
/// asks each player that the scan names and reports its `Reply`, until the
/// action is `Finish`.
pub fn any_playing_media(scan: &mut PlaybackScan, event: ScanEvent) -> (action: ScanAction)
    ensures
        (final(scan)@, action) == old(scan)@.step(event),
        final(scan)@.wf(),
{
    proof {
        use_type_invariant(&*scan);
    }
    match event {
        ScanEvent::Names(names) => {
            *scan = PlaybackScan { players: get_media_player_names(names), asked: 0 };
            scan.pending()
        },
        ScanEvent::Reply(reply) => {
            if scan.asked >= scan.players.len() {
                return ScanAction::Finish(false);
            }
            if reply.is_playing() {
                scan.asked = scan.players.len();
                return ScanAction::Finish(true);
            }
            scan.asked = scan.asked + 1;
            scan.pending()
        },
    }
}

/// A scan that is fed a reply for each of its players finds exactly whether
/// one of those replies says "playing": a reply that failed or held no status
/// neither counts as playing nor hides a later player that is.
pub proof fn lemma_scan_finds_any_playing(names: Vec<String>, replies: Seq<StatusReply>)
    requires
        replies.len() == media_players(names@).len(),
    ensures
        ({
            let (scan, action) = ScanState::empty().step(ScanEvent::Names(names));
            scan.outcome(action, replies) == any_playing(replies)
        }),
{
    let (scan, action) = ScanState::empty().step(ScanEvent::Names(names));
    lemma_outcome_from(scan, replies);
    assert(replies.subrange(0, replies.len() as int) =~= replies);
}

/// From any point of a scan, the outcome is whether one of the replies still
/// to come says "playing".
proof fn lemma_outcome_from(scan: ScanState, replies: Seq<StatusReply>)
    requires
        scan.wf(),
        replies.len() == scan.players.len(),
    ensures
        scan.outcome(scan.pending(), replies) == any_playing(
            replies.subrange(scan.asked as int, replies.len() as int),
        ),
    decreases scan.players.len() - scan.asked,
{
    let rest = replies.subrange(scan.asked as int, replies.len() as int);
    if scan.asked < scan.players.len() {
        let reply = replies[scan.asked as int];
        let (next, action) = scan.step(ScanEvent::Reply(reply));
        assert(scan.outcome(scan.pending(), replies) == next.outcome(action, replies));
        assert(rest[0] == reply);
        if reports_playing(reply) {
            assert(next.outcome(action, replies));
        } else {
            lemma_outcome_from(next, replies);
            let tail = replies.subrange(next.asked as int, replies.len() as int);
            if any_playing(rest) {
                let i = choose|i: int| 0 <= i < rest.len() && reports_playing(#[trigger] rest[i]);
                assert(rest[i] == tail[i - 1]);
            }
            if any_playing(tail) {
                let i = choose|i: int| 0 <= i < tail.len() && reports_playing(#[trigger] tail[i]);
                assert(tail[i] == rest[i + 1]);
            }
        }
    }
}

/// What happened on the bus for a rebuild of the player subscriptions.
#[derive(Debug, PartialEq, Eq)]
pub enum StreamEvent {
    /// The bus listed these names; the rebuild starts over on them.
    Names(Vec<String>),
    /// The player tried last accepted the subscription.
    Subscribed,
    /// The player tried last refused it, or was gone.
    Refused,
}

/// What the caller does next for a rebuild of the player subscriptions.
#[derive(Debug, PartialEq, Eq)]
pub enum StreamAction {
    /// Subscribe to this player's property changes and report the result.
    Subscribe(String),
    /// Every player was tried; the rebuild is over.
    Finish,
}

/// A rebuild of the player subscriptions as contracts see it.
pub struct RebuildState {
    /// The media players on the bus, in bus order.
    pub players: Seq<String>,
    /// How many of them the rebuild has tried.
    pub tried: nat,
    /// The players tried so far that accepted, in bus order.
    pub subscribed: Seq<String>,
}

/// The players among `players` that accept a subscription, in order, when
/// the player at position `i` accepts exactly if `accepted[i]`.
pub open spec fn accepting_players(players: Seq<String>, accepted: Seq<bool>) -> Seq<String>
    decreases players.len(),
{
    if players.len() == 0 || accepted.len() != players.len() {
        Seq::empty()
    } else {
        let before = accepting_players(players.drop_last(), accepted.drop_last());
        if accepted.last() {
            before.push(players.last())
        } else {
            before
        }
    }
}

impl RebuildState {
    /// A rebuild that has no players to try.
    pub open spec fn empty() -> RebuildState {
        RebuildState { players: Seq::empty(), tried: 0, subscribed: Seq::empty() }
    }

    /// The rebuild has not run past its players.
    pub open spec fn wf(self) -> bool {
        self.tried <= self.players.len()
    }

    /// The action that the rebuild is waiting on: the next player to try, or
    /// the end of the rebuild.
    pub open spec fn pending(self) -> StreamAction {
        if self.tried < self.players.len() {
            StreamAction::Subscribe(self.players[self.tried as int])
        } else {
            StreamAction::Finish
        }
    }

    /// The rebuild after the player tried last has answered.
    pub open spec fn tried_one(self, accepted: bool) -> RebuildState {
        if self.tried >= self.players.len() {
            self
        } else if accepted {
            RebuildState {
                tried: self.tried + 1,
                subscribed: self.subscribed.push(self.players[self.tried as int]),
                ..self
            }
        } else {
            RebuildState { tried: self.tried + 1, ..self }
        }
    }

    /// One transition: the rebuild after `event`, and what the caller does
    /// next.
    ///
    /// A list of names starts the rebuild from nothing on the media players
    /// among them. A player that accepts joins the subscribed players; one
    /// that refuses is left out, and the rebuild goes on. An answer that
    /// belongs to no attempt changes nothing.
    pub open spec fn step(self, event: StreamEvent) -> (RebuildState, StreamAction) {
        let next = match event {
            StreamEvent::Names(names) => RebuildState {
                players: media_players(names@),
                tried: 0,
                subscribed: Seq::empty(),
            },
            StreamEvent::Subscribed => self.tried_one(true),
            StreamEvent::Refused => self.tried_one(false),
        };
        (next, next.pending())
    }

    /// The rebuild at its end when the player at position `i` accepts
    /// exactly if `accepted[i]`, taken up from `action`.
    pub open spec fn complete(self, action: StreamAction, accepted: Seq<bool>) -> RebuildState
        decreases self.players.len() - self.tried,
    {
        match action {
            StreamAction::Finish => self,
            StreamAction::Subscribe(_) => {
                if self.tried < self.players.len() {
                    let event = if accepted[self.tried as int] {
                        StreamEvent::Subscribed
                    } else {
                        StreamEvent::Refused
                    };
                    let (next, action) = self.step(event);
                    next.complete(action, accepted)
                } else {
                    self
                }
            },
        }
    }

    /// A whole rebuild on the names `names`, started in the state `self`.
    pub open spec fn rebuild(self, names: Vec<String>, accepted: Seq<bool>) -> RebuildState {
        let (start, action) = self.step(StreamEvent::Names(names));
        start.complete(action, accepted)
    }
}

/// A rebuild of the subscriptions to the media players' property changes. It
/// tries the players one at a time, in bus order, and keeps those that accept.
pub struct StreamRebuild {
    /// The media players to subscribe to.
    players: Vec<String>,
    /// How many of them were tried.
    tried: usize,
    /// Those that accepted.
    subscribed: Vec<String>,
}

impl View for StreamRebuild {
    type V = RebuildState;

    closed spec fn view(&self) -> RebuildState {
        RebuildState {
            players: self.players@,
            tried: self.tried as nat,
            subscribed: self.subscribed@,
        }
    }
}

impl StreamRebuild {
    #[verifier::type_invariant]
    spec fn within_players(self) -> bool {
        self.tried <= self.players.len()
    }

    /// A rebuild with no players; it starts with the event `Names`.
    pub fn new() -> (rebuild: Self)
        ensures
            rebuild@ == RebuildState::empty(),
    {
        Self { players: Vec::new(), tried: 0, subscribed: Vec::new() }
    }

    /// The action that the rebuild is waiting on.
    pub fn pending(&self) -> (action: StreamAction)
        ensures
            action == self@.pending(),
            self@.wf(),
    {
        proof {
            use_type_invariant(self);
        }
        if self.tried < self.players.len() {
            StreamAction::Subscribe(self.players[self.tried].clone())
        } else {
            StreamAction::Finish
        }
    }

    /// Ends the rebuild and hands out the players that accepted: the
    /// subscriptions that now make up the multiplexed stream.
    pub fn into_subscribed(self) -> (subscribed: Vec<String>)
        ensures
            subscribed@ == self@.subscribed,
    {
        self.subscribed
    }
}

/// Advances a rebuild of the player subscriptions by one event and says what
/// the caller does next.
///
/// The caller lists the names on the bus and reports them as `Names`, then
/// subscribes to each player that the rebuild names and reports `Subscribed`
/// or `Refused`, until the action is `Finish`.
pub fn get_media_player_streams(rebuild: &mut StreamRebuild, event: StreamEvent) -> (action:
    StreamAction)
    ensures
        (final(rebuild)@, action) == old(rebuild)@.step(event),
        final(rebuild)@.wf(),
{
    proof {
        use_type_invariant(&*rebuild);
    }
    match event {
        StreamEvent::Names(names) => {
            *rebuild = StreamRebuild {
                players: get_media_player_names(names),
                tried: 0,
                subscribed: Vec::new(),
            };
        },
        StreamEvent::Subscribed => {
            if rebuild.tried < rebuild.players.len() {
                let mut taken = StreamRebuild::new();
                core::mem::swap(rebuild, &mut taken);
                let StreamRebuild { players, tried, mut subscribed } = taken;
                subscribed.push(players[tried].clone());
                *rebuild = StreamRebuild { players, tried: tried + 1, subscribed };
            }
        },
        StreamEvent::Refused => {
            if rebuild.tried < rebuild.players.len() {
                rebuild.tried = rebuild.tried + 1;
            }
        },
    }
    rebuild.pending()
}

/// A rebuild ends with exactly the media players that accepted, in bus
/// order, whatever state it was started in: no subscription of an earlier
/// rebuild survives it, and a refusal leaves out one player and no other.
pub proof fn lemma_rebuild_replaces_subscriptions(
    before: RebuildState,
    names: Vec<String>,
    accepted: Seq<bool>,
)
    requires
        accepted.len() == media_players(names@).len(),
    ensures
        before.rebuild(names, accepted).players == media_players(names@),
        before.rebuild(names, accepted).subscribed == accepting_players(
            media_players(names@),
            accepted,
        ),
        before.rebuild(names, accepted).pending() == StreamAction::Finish,
{
    let (start, action) = before.step(StreamEvent::Names(names));
    assert(start.players.take(0) =~= Seq::<String>::empty());
    lemma_complete_from(start, accepted);
}

/// Rebuilding twice on the same names with the same answers gives the state
/// that rebuilding once gives: the subscriptions do not pile up.
pub proof fn lemma_rebuild_is_idempotent(
    before: RebuildState,
    names: Vec<String>,
    accepted: Seq<bool>,
)
    requires
        accepted.len() == media_players(names@).len(),
    ensures
        before.rebuild(names, accepted).rebuild(names, accepted) == before.rebuild(
            names,
            accepted,
        ),
        before.rebuild(names, accepted).subscribed.len() <= media_players(names@).len(),
{
    let once = before.rebuild(names, accepted);
    let (start, action) = before.step(StreamEvent::Names(names));
    assert(once.step(StreamEvent::Names(names)) == (start, action));
    lemma_rebuild_replaces_subscriptions(before, names, accepted);
    lemma_accepting_players_len(media_players(names@), accepted);
}

/// No more players accept than there are.
pub proof fn lemma_accepting_players_len(players: Seq<String>, accepted: Seq<bool>)
    ensures
        accepting_players(players, accepted).len() <= players.len(),
    decreases players.len(),
{
    if players.len() != 0 && accepted.len() == players.len() {
        lemma_accepting_players_len(players.drop_last(), accepted.drop_last());
    }
}

/// From any point of a rebuild, the end holds the players accepted so far
/// and those accepted from there on.
proof fn lemma_complete_from(rebuild: RebuildState, accepted: Seq<bool>)
    requires
        rebuild.wf(),
        accepted.len() == rebuild.players.len(),
        rebuild.subscribed == accepting_players(
            rebuild.players.take(rebuild.tried as int),
            accepted.take(rebuild.tried as int),
        ),
    ensures
        rebuild.complete(rebuild.pending(), accepted).players == rebuild.players,
        rebuild.complete(rebuild.pending(), accepted).tried == rebuild.players.len(),
        rebuild.complete(rebuild.pending(), accepted).subscribed == accepting_players(
            rebuild.players,
            accepted,
        ),
    decreases rebuild.players.len() - rebuild.tried,
{
    let n = rebuild.tried as int;
    if rebuild.tried < rebuild.players.len() {
        let event = if accepted[n] {
            StreamEvent::Subscribed
        } else {
            StreamEvent::Refused
        };
        let (next, action) = rebuild.step(event);
        assert(rebuild.complete(rebuild.pending(), accepted) == next.complete(action, accepted));
        assert(rebuild.players.take(n + 1).drop_last() =~= rebuild.players.take(n));
        assert(accepted.take(n + 1).drop_last() =~= accepted.take(n));
        lemma_complete_from(next, accepted);
    } else {
        assert(rebuild.players.take(n) =~= rebuild.players);
        assert(accepted.take(n) =~= accepted);
    }
}

} // verus!
