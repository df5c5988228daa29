use media_blocker::media_player::{
    any_playing_media, get_media_player_streams, PlaybackScan, ScanAction, ScanEvent,
    StatusReply, StreamAction, StreamEvent, StreamRebuild,
};
use media_blocker::screensaver::{ScreensaverAction, ScreensaverEvent, ScreensaverState};

fn strings(names: &[&str]) -> Vec<String> {
    names.iter().map(|n| n.to_string()).collect()
}

fn status(text: &str) -> StatusReply {
    StatusReply::Status(text.to_string())
}

/// Runs a scan over `bus`, a list of names with the reply of each. Returns
/// the answer and the players that were asked, in order.
fn run_scan(bus: &[(&str, StatusReply)]) -> (bool, Vec<String>) {
    let names: Vec<String> = bus.iter().map(|(name, _)| name.to_string()).collect();
    let mut scan = PlaybackScan::new();
    let mut asked = Vec::new();
    let mut action = any_playing_media(&mut scan, ScanEvent::Names(names));
    loop {
        match action {
            ScanAction::Ask(player) => {
                let reply = match bus.iter().find(|(name, _)| *name == player) {
                    Some((_, StatusReply::Status(text))) => StatusReply::Status(text.clone()),
                    Some((_, StatusReply::Absent)) => StatusReply::Absent,
                    Some((_, StatusReply::Failed)) => StatusReply::Failed,
                    None => panic!("asked a player that is not on the bus"),
                };
                asked.push(player);
                action = any_playing_media(&mut scan, ScanEvent::Reply(reply));
            }
            ScanAction::Finish(found) => return (found, asked),
        }
    }
}

/// Runs a rebuild over `bus`, a list of names with whether each accepts.
fn run_rebuild(rebuild: &mut StreamRebuild, bus: &[(&str, bool)]) -> Vec<String> {
    let names: Vec<String> = bus.iter().map(|(name, _)| name.to_string()).collect();
    let mut tried = Vec::new();
    let mut action = get_media_player_streams(rebuild, StreamEvent::Names(names));
    let mut position = 0;
    loop {
        match action {
            StreamAction::Subscribe(player) => {
                let players: Vec<&(&str, bool)> = bus
                    .iter()
                    .filter(|(name, _)| name.starts_with("org.mpris.MediaPlayer2"))
                    .collect();
                assert_eq!(players[position].0, player);
                let event = if players[position].1 {
                    StreamEvent::Subscribed
                } else {
                    StreamEvent::Refused
                };
                position += 1;
                tried.push(player);
                action = get_media_player_streams(rebuild, event);
            }
            StreamAction::Finish => return tried,
        }
    }
}

#[test]
fn replies_say_playing_only_through_a_status() {
    assert!(status("Playing").is_playing());
    assert!(status("PLAYING").is_playing());
    assert!(!status("Paused").is_playing());
    assert!(!status("").is_playing());
    assert!(!StatusReply::Absent.is_playing());
    assert!(!StatusReply::Failed.is_playing());
}

#[test]
fn a_new_scan_has_nothing_to_ask() {
    let scan = PlaybackScan::new();
    assert_eq!(scan.pending(), ScanAction::Finish(false));
}

#[test]
fn an_empty_bus_has_no_playback() {
    assert_eq!(run_scan(&[]), (false, Vec::new()));
    assert_eq!(
        run_scan(&[("org.freedesktop.DBus", status("Playing")), (":1.5", status("Playing"))]),
        (false, Vec::new())
    );
}

#[test]
fn a_single_playing_player_is_found() {
    assert_eq!(
        run_scan(&[("org.mpris.MediaPlayer2.vlc", status("Playing"))]),
        (true, strings(&["org.mpris.MediaPlayer2.vlc"]))
    );
}

#[test]
fn a_single_paused_player_is_not_playing() {
    assert_eq!(
        run_scan(&[("org.mpris.MediaPlayer2.vlc", status("Paused"))]),
        (false, strings(&["org.mpris.MediaPlayer2.vlc"]))
    );
}

#[test]
fn a_failed_lookup_does_not_mask_another_player() {
    assert_eq!(
        run_scan(&[
            ("org.mpris.MediaPlayer2.vlc", StatusReply::Failed),
            ("org.mpris.MediaPlayer2.spotify", status("Playing")),
        ]),
        (true, strings(&["org.mpris.MediaPlayer2.vlc", "org.mpris.MediaPlayer2.spotify"]))
    );
    assert_eq!(
        run_scan(&[
            ("org.mpris.MediaPlayer2.spotify", status("Playing")),
            ("org.mpris.MediaPlayer2.vlc", StatusReply::Failed),
        ])
        .0,
        true
    );
}

#[test]
fn a_failed_lookup_alone_is_not_playing() {
    assert_eq!(
        run_scan(&[
            ("org.mpris.MediaPlayer2.vlc", StatusReply::Failed),
            ("org.mpris.MediaPlayer2.mpv", StatusReply::Absent),
            ("org.mpris.MediaPlayer2.spotify", status("Stopped")),
        ]),
        (
            false,
            strings(&[
                "org.mpris.MediaPlayer2.vlc",
                "org.mpris.MediaPlayer2.mpv",
                "org.mpris.MediaPlayer2.spotify",
            ])
        )
    );
}

#[test]
fn the_scan_stops_at_the_first_playing_player() {
    assert_eq!(
        run_scan(&[
            ("org.mpris.MediaPlayer2.a", status("Paused")),
            ("org.freedesktop.Notifications", status("Playing")),
            ("org.mpris.MediaPlayer2.b", status("playing")),
            ("org.mpris.MediaPlayer2.c", status("Playing")),
        ]),
        (true, strings(&["org.mpris.MediaPlayer2.a", "org.mpris.MediaPlayer2.b"]))
    );
}

#[test]
fn a_reply_without_a_question_changes_nothing() {
    let mut scan = PlaybackScan::new();
    assert_eq!(
        any_playing_media(&mut scan, ScanEvent::Reply(status("Playing"))),
        ScanAction::Finish(false)
    );
    assert_eq!(scan.pending(), ScanAction::Finish(false));
    let names = strings(&["org.mpris.MediaPlayer2.vlc"]);
    assert_eq!(
        any_playing_media(&mut scan, ScanEvent::Names(names)),
        ScanAction::Ask("org.mpris.MediaPlayer2.vlc".to_string())
    );
    assert_eq!(
        any_playing_media(&mut scan, ScanEvent::Reply(status("Playing"))),
        ScanAction::Finish(true)
    );
    assert_eq!(
        any_playing_media(&mut scan, ScanEvent::Reply(status("Playing"))),
        ScanAction::Finish(false)
    );
}

#[test]
fn new_names_restart_the_scan() {
    let mut scan = PlaybackScan::new();
    any_playing_media(&mut scan, ScanEvent::Names(strings(&["org.mpris.MediaPlayer2.a"])));
    assert_eq!(
        any_playing_media(
            &mut scan,
            ScanEvent::Names(strings(&["org.mpris.MediaPlayer2.b", "org.mpris.MediaPlayer2.c"]))
        ),
        ScanAction::Ask("org.mpris.MediaPlayer2.b".to_string())
    );
    assert_eq!(
        any_playing_media(&mut scan, ScanEvent::Reply(StatusReply::Absent)),
        ScanAction::Ask("org.mpris.MediaPlayer2.c".to_string())
    );
    assert_eq!(scan.pending(), ScanAction::Ask("org.mpris.MediaPlayer2.c".to_string()));
    assert_eq!(
        any_playing_media(&mut scan, ScanEvent::Reply(StatusReply::Absent)),
        ScanAction::Finish(false)
    );
}

#[test]
fn one_failing_player_of_two_still_leads_to_active() {
    let (playing, _) = run_scan(&[
        ("org.mpris.MediaPlayer2.vlc", StatusReply::Failed),
        ("org.mpris.MediaPlayer2.spotify", status("Playing")),
    ]);
    let mut state = ScreensaverState::new();
    assert_eq!(state.update_state(ScreensaverEvent::Evaluate), ScreensaverAction::QueryPlayback);
    assert_eq!(state.update_state(ScreensaverEvent::Playback(playing)), ScreensaverAction::Inhibit);
    assert_eq!(state.update_state(ScreensaverEvent::Inhibited(99)), ScreensaverAction::Done);
    assert!(state.is_blocked());
    assert_eq!(state.token(), Some(99));
}

#[test]
fn an_empty_player_set_releases_from_active() {
    let mut state = ScreensaverState::new();
    state.update_state(ScreensaverEvent::Playback(true));
    state.update_state(ScreensaverEvent::Inhibited(8));
    assert!(state.is_blocked());
    let (playing, asked) = run_scan(&[]);
    assert!(asked.is_empty());
    assert_eq!(state.update_state(ScreensaverEvent::Evaluate), ScreensaverAction::QueryPlayback);
    assert_eq!(
        state.update_state(ScreensaverEvent::Playback(playing)),
        ScreensaverAction::UnInhibit(8)
    );
    assert!(!state.is_blocked());
    assert_eq!(state.token(), None);
}

#[test]
fn a_new_rebuild_has_nothing_to_try() {
    let rebuild = StreamRebuild::new();
    assert_eq!(rebuild.pending(), StreamAction::Finish);
    assert_eq!(rebuild.into_subscribed(), Vec::<String>::new());
}

#[test]
fn a_rebuild_subscribes_to_every_media_player() {
    let mut rebuild = StreamRebuild::new();
    let tried = run_rebuild(
        &mut rebuild,
        &[
            ("org.freedesktop.DBus", true),
            ("org.mpris.MediaPlayer2.vlc", true),
            ("org.mpris.MediaPlayer2.spotify", true),
        ],
    );
    let players = strings(&["org.mpris.MediaPlayer2.vlc", "org.mpris.MediaPlayer2.spotify"]);
    assert_eq!(tried, players);
    assert_eq!(rebuild.into_subscribed(), players);
}

#[test]
fn a_refusing_player_is_left_out_and_the_rebuild_goes_on() {
    let mut rebuild = StreamRebuild::new();
    let tried = run_rebuild(
        &mut rebuild,
        &[
            ("org.mpris.MediaPlayer2.a", true),
            ("org.mpris.MediaPlayer2.gone", false),
            ("org.mpris.MediaPlayer2.c", true),
        ],
    );
    assert_eq!(
        tried,
        strings(&[
            "org.mpris.MediaPlayer2.a",
            "org.mpris.MediaPlayer2.gone",
            "org.mpris.MediaPlayer2.c",
        ])
    );
    assert_eq!(
        rebuild.into_subscribed(),
        strings(&["org.mpris.MediaPlayer2.a", "org.mpris.MediaPlayer2.c"])
    );
}

#[test]
fn a_rebuild_on_an_empty_bus_gives_an_empty_stream() {
    let mut rebuild = StreamRebuild::new();
    assert_eq!(run_rebuild(&mut rebuild, &[]), Vec::<String>::new());
    assert_eq!(rebuild.into_subscribed(), Vec::<String>::new());
}

#[test]
fn rebuilding_again_does_not_pile_up_subscriptions() {
    let bus = [
        ("org.mpris.MediaPlayer2.vlc", true),
        (":1.9", true),
        ("org.mpris.MediaPlayer2.mpv", false),
        ("org.mpris.MediaPlayer2.spotify", true),
    ];
    let expected = strings(&["org.mpris.MediaPlayer2.vlc", "org.mpris.MediaPlayer2.spotify"]);
    let mut rebuild = StreamRebuild::new();
    run_rebuild(&mut rebuild, &bus);
    run_rebuild(&mut rebuild, &bus);
    run_rebuild(&mut rebuild, &bus);
    assert_eq!(rebuild.into_subscribed(), expected);
}

#[test]
fn a_rebuild_keeps_nothing_of_the_one_before() {
    let mut rebuild = StreamRebuild::new();
    run_rebuild(
        &mut rebuild,
        &[("org.mpris.MediaPlayer2.old", true), ("org.mpris.MediaPlayer2.older", true)],
    );
    run_rebuild(&mut rebuild, &[("org.mpris.MediaPlayer2.new", true)]);
    assert_eq!(rebuild.into_subscribed(), strings(&["org.mpris.MediaPlayer2.new"]));
}

#[test]
fn an_answer_without_an_attempt_changes_nothing() {
    let mut rebuild = StreamRebuild::new();
    assert_eq!(
        get_media_player_streams(&mut rebuild, StreamEvent::Subscribed),
        StreamAction::Finish
    );
    assert_eq!(get_media_player_streams(&mut rebuild, StreamEvent::Refused), StreamAction::Finish);
    assert_eq!(rebuild.into_subscribed(), Vec::<String>::new());
}
