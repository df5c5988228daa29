//! Bus names and playback status texts.

use vstd::prelude::*;
use crate::text::{chars_of, contains, has_infix, has_prefix, lowercase, starts_with, to_lowercase};

verus! {

/// The bus name prefix that every media player service carries.
pub const MEDIA_PLAYER_NAMESPACE: &'static str = "org.mpris.MediaPlayer2";

/// The word that a playback status holds, in any case, while media is playing.
pub const PLAYING: &'static str = "playing";

/// `name` lies in the media player namespace: it begins with the namespace,
/// compared character by character, and nothing else is asked of it.
pub open spec fn media_player_name(name: Seq<char>) -> bool {
    has_prefix(name, MEDIA_PLAYER_NAMESPACE@)
}

/// `status` reports running playback: its lowercase form holds "playing".
pub open spec fn playback_running(status: Seq<char>) -> bool {
    has_infix(lowercase(status), PLAYING@)
}

/// The media players among `names`, in their order.
pub open spec fn media_players(names: Seq<String>) -> Seq<String> {
    names.filter(|name: String| media_player_name(name@))
}

/// Whether the bus name `name` belongs to a media player.
pub fn is_media_player(name: &str) -> (b: bool)
    ensures
        b == media_player_name(name@),
{
    let name_chars = chars_of(name);
    let prefix = chars_of(MEDIA_PLAYER_NAMESPACE);
    starts_with(&name_chars, &prefix)
}

/// Whether an already lowercased status text holds the word "playing".
pub fn mentions_playing(lowered: &str) -> (b: bool)
    ensures
        b == has_infix(lowered@, PLAYING@),
{
    let hay = chars_of(lowered);
    let needle = chars_of(PLAYING);
    contains(&hay, &needle)
}

/// Whether the playback status `status` says that media is playing, whatever
/// the case it is written in.
pub fn is_playback_running(status: &str) -> (b: bool)
    ensures
        b == playback_running(status@),
{
    let lowered = to_lowercase(status);
    mentions_playing(lowered.as_str())
}

/// Keeps the media players among all the names on the bus, in bus order.
pub fn get_media_player_names(names: Vec<String>) -> (players: Vec<String>)
    ensures
        players@ == media_players(names@),
{
    let ghost pred = |name: String| media_player_name(name@);
    let mut players: Vec<String> = Vec::new();
    proof {
        reveal(Seq::filter);
        assert(names@.take(0).filter(pred) =~= Seq::<String>::empty());
    }
    for name in it: names.into_iter()
        invariant
            it.seq() == names@,
            pred == (|name: String| media_player_name(name@)),
            players@ == names@.take(it.index() as int).filter(pred),
    {
        proof {
            let k = it.index() as int;
            assert(names@.take(k + 1) =~= names@.take(k).push(name));
            names@.take(k).lemma_filter_push(name, pred);
        }
        if is_media_player(name.as_str()) {
            players.push(name);
        }
    }
    proof {
        assert(names@.take(names@.len() as int) =~= names@);
    }
    players
}

} // verus!
