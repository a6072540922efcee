//! Songs, the playlist and the choice of the song that follows the current one.

use rand::{RngExt, SeedableRng};
use vstd::prelude::*;

verus! {

/// How the next song is chosen when one finishes.
#[derive(Debug, Clone, Copy, PartialEq, Eq, Structural)]
pub enum PlayMode {
    RepeatOne,
    Sequential,
    Shuffle,
}

impl Default for PlayMode {
    fn default() -> (m: PlayMode)
        ensures
            m == PlayMode::Sequential,
    {
        PlayMode::Sequential
    }
}

/// A song of the playlist. `last_position` is where playback stopped last
/// time, in milliseconds.
#[derive(Debug)]
pub struct Song {
    pub url: String,
    pub alias: String,
    pub last_position: u64,
}

/// The mathematical value of a song: its texts as character sequences.
#[verifier::ext_equal]
pub struct SongView {
    pub url: Seq<char>,
    pub alias: Seq<char>,
    pub last_position: u64,
}

impl View for Song {
    type V = SongView;

    open spec fn view(&self) -> SongView {
        SongView { url: self.url@, alias: self.alias@, last_position: self.last_position }
    }
}

impl Clone for Song {
    fn clone(&self) -> (r: Song)
        ensures
            r@ == self@,
    {
        Song { url: self.url.clone(), alias: self.alias.clone(), last_position: self.last_position }
    }
}

/// The songs, the play mode and the alias of the song played last.
#[derive(Debug)]
pub struct Playlist {
    pub songs: Vec<Song>,
    pub play_mode: PlayMode,
    pub last_played_alias: Option<String>,
}

/// The view of a list of songs.
pub open spec fn songs_view(songs: Seq<Song>) -> Seq<SongView> {
    songs.map_values(|s: Song| s@)
}

/// The view of an optional text.
pub open spec fn opt_text_view(t: Option<String>) -> Option<Seq<char>> {
    match t {
        Some(s) => Some(s@),
        None => None,
    }
}

/// The mathematical value of a playlist.
#[verifier::ext_equal]
pub struct PlaylistView {
    pub songs: Seq<SongView>,
    pub play_mode: PlayMode,
    pub last_played_alias: Option<Seq<char>>,
}

impl View for Playlist {
    type V = PlaylistView;

    open spec fn view(&self) -> PlaylistView {
        PlaylistView {
            songs: songs_view(self.songs@),
            play_mode: self.play_mode,
            last_played_alias: opt_text_view(self.last_played_alias),
        }
    }
}

impl Default for Playlist {
    fn default() -> (p: Playlist)
        ensures
            p@.songs.len() == 0,
            p.play_mode == PlayMode::Sequential,
            p.last_played_alias is None,
    {
        Playlist { songs: Vec::new(), play_mode: PlayMode::Sequential, last_played_alias: None }
    }
}

/// The index of the first song whose alias is `alias`, if any.
pub open spec fn spec_find_alias(songs: Seq<SongView>, alias: Seq<char>) -> Option<int>
    decreases songs.len(),
{
    if songs.len() == 0 {
        None
    } else if songs[0].alias == alias {
        Some(0)
    } else {
        match spec_find_alias(songs.drop_first(), alias) {
            Some(i) => Some(i + 1),
            None => None,
        }
    }
}

/// `songs` with the first song whose alias is `alias`, if any, moved to `pos`.
pub open spec fn spec_set_position_of(songs: Seq<SongView>, alias: Seq<char>, pos: u64) -> Seq<
    SongView,
> {
    match spec_find_alias(songs, alias) {
        Some(i) => songs.update(i, SongView { last_position: pos, ..songs[i] }),
        None => songs,
    }
}

pub proof fn lemma_find_alias(songs: Seq<SongView>, alias: Seq<char>)
    ensures
        match spec_find_alias(songs, alias) {
            Some(i) => 0 <= i < songs.len() && songs[i].alias == alias && forall|k: int|
                0 <= k < i ==> songs[k].alias != alias,
            None => forall|k: int| 0 <= k < songs.len() ==> songs[k].alias != alias,
        },
    decreases songs.len(),
{
    if songs.len() > 0 {
        lemma_find_alias(songs.drop_first(), alias);
        match spec_find_alias(songs.drop_first(), alias) {
            Some(i) => {
                assert forall|k: int| 0 <= k < i + 1 && songs[0].alias != alias implies #[trigger] songs[k].alias
                    != alias by {
                    if k > 0 {
                        assert(songs[k] == songs.drop_first()[k - 1]);
                    }
                }
            },
            None => {
                assert forall|k: int| 0 <= k < songs.len() && songs[0].alias != alias implies #[trigger] songs[k].alias
                    != alias by {
                    if k > 0 {
                        assert(songs[k] == songs.drop_first()[k - 1]);
                    }
                }
            },
        }
    }
}

/// Setting a resume point keeps the number of songs and their texts.
pub broadcast proof fn lemma_set_position_of(songs: Seq<SongView>, alias: Seq<char>, pos: u64)
    ensures
        #[trigger] spec_set_position_of(songs, alias, pos).len() == songs.len(),
        forall|k: int|
            0 <= k < songs.len() ==> (#[trigger] spec_set_position_of(songs, alias, pos)[k]).alias
                == songs[k].alias && spec_set_position_of(songs, alias, pos)[k].url
                == songs[k].url,
{
    lemma_find_alias(songs, alias);
}

/// Songs with the same aliases in the same places give the same search result.
pub proof fn lemma_find_alias_same_aliases(a: Seq<SongView>, b: Seq<SongView>, alias: Seq<char>)
    requires
        a.len() == b.len(),
        forall|k: int| 0 <= k < a.len() ==> #[trigger] a[k].alias == b[k].alias,
    ensures
        spec_find_alias(a, alias) == spec_find_alias(b, alias),
    decreases a.len(),
{
    if a.len() > 0 {
        assert forall|k: int| 0 <= k < a.drop_first().len() implies #[trigger] a.drop_first()[k].alias
            == b.drop_first()[k].alias by {
            assert(a.drop_first()[k] == a[k + 1]);
            assert(b.drop_first()[k] == b[k + 1]);
        }
        lemma_find_alias_same_aliases(a.drop_first(), b.drop_first(), alias);
    }
}

/// The index of the first song in `songs` whose alias is `alias`.
pub fn find_alias(songs: &Vec<Song>, alias: &String) -> (r: Option<usize>)
    ensures
        match spec_find_alias(songs_view(songs@), alias@) {
            Some(i) => r == Some(i as usize),
            None => r is None,
        },
{
    let ghost sv = songs_view(songs@);
    proof {
        lemma_find_alias(sv, alias@);
    }
    let mut i: usize = 0;
    while i < songs.len()
        invariant
            sv == songs_view(songs@),
            i <= songs@.len(),
            forall|k: int| 0 <= k < i ==> sv[k].alias != alias@,
            match spec_find_alias(sv, alias@) {
                Some(j) => 0 <= j < sv.len() && sv[j].alias == alias@ && forall|k: int|
                    0 <= k < j ==> sv[k].alias != alias@,
                None => forall|k: int| 0 <= k < sv.len() ==> sv[k].alias != alias@,
            },
        decreases songs@.len() - i,
    {
        if songs[i].alias == *alias {
            assert(sv[i as int].alias == alias@);
            return Some(i);
        }
        i = i + 1;
    }
    None
}

/// Moves the first song whose alias is `alias`, if any, to `pos`
/// milliseconds.
pub fn set_position_of(songs: &mut Vec<Song>, alias: &String, pos: u64)
    ensures
        songs_view(final(songs)@) == spec_set_position_of(songs_view(old(songs)@), alias@, pos),
{
    let ghost before = songs_view(songs@);
    proof {
        lemma_find_alias(before, alias@);
    }
    match find_alias(songs, alias) {
        Some(i) => {
            let mut song = songs.remove(i);
            song.last_position = pos;
            songs.insert(i, song);
            assert(songs_view(songs@) =~= before.update(
                i as int,
                SongView { last_position: pos, ..before[i as int] },
            ));
        },
        None => {},
    }
}

/// Whether `next` is a song index that `next_song_index` may give after
/// `current_index` in `play_mode` among `total_songs` songs.
pub open spec fn spec_next_index_ok(
    play_mode: PlayMode,
    current_index: nat,
    total_songs: nat,
    next: nat,
) -> bool {
    match play_mode {
        PlayMode::RepeatOne => next == current_index,
        PlayMode::Sequential => next == (current_index + 1) % total_songs,
        PlayMode::Shuffle => next < total_songs && (total_songs > 1 ==> next != current_index),
    }
}

/// The next index once a uniformly drawn index `pick` is given: in shuffle
/// mode the pick, moved one place on where it would repeat the current song.
pub open spec fn spec_next_index_with(
    play_mode: PlayMode,
    current_index: nat,
    total_songs: nat,
    pick: nat,
) -> nat {
    match play_mode {
        PlayMode::RepeatOne => current_index,
        PlayMode::Sequential => ((current_index + 1) % total_songs) as nat,
        PlayMode::Shuffle => if total_songs > 1 && pick == current_index {
            ((pick + 1) % total_songs) as nat
        } else {
            pick
        },
    }
}

/// Draws an index uniformly from `0..total`: seeds a `rand::rngs::StdRng`
/// from the system's random source (`SeedableRng::try_from_rng` over
/// `rand::rngs::SysRng`) and calls `RngExt::random_range(0..total)` on it.
/// The contract claims only that an index that comes out lies in that range,
/// which `random_range` gives for a non-empty range; `None` where the system's
/// random source fails. Which index comes out, and whether the source fails,
/// is chance.
#[verifier::external_body]
fn random_index_below(total: usize) -> (r: Option<usize>)
    requires
        total > 0,
    ensures
        r matches Some(i) ==> i < total,
{
    match rand::rngs::StdRng::try_from_rng(&mut rand::rngs::SysRng) {
        Ok(mut rng) => Some(rng.random_range(0..total)),
        Err(_) => None,
    }
}

/// The index that follows `current_index` among `total_songs` songs in
/// `play_mode`, given the index `random_pick` drawn for shuffle mode.
pub fn next_song_index_with(
    play_mode: PlayMode,
    current_index: usize,
    total_songs: usize,
    random_pick: usize,
) -> (r: usize)
    requires
        total_songs > 0,
        random_pick < total_songs,
        play_mode == PlayMode::Sequential ==> current_index < usize::MAX,
    ensures
        r == spec_next_index_with(
            play_mode,
            current_index as nat,
            total_songs as nat,
            random_pick as nat,
        ),
        spec_next_index_ok(play_mode, current_index as nat, total_songs as nat, r as nat),
{
    match play_mode {
        PlayMode::RepeatOne => current_index,
        PlayMode::Sequential => (current_index + 1) % total_songs,
        PlayMode::Shuffle => {
            let mut idx = random_pick;
            if total_songs > 1 && idx == current_index {
                assert((idx + 1) % (total_songs as int) != idx) by (nonlinear_arith)
                    requires
                        idx < total_songs,
                        total_songs > 1,
                {
                    if idx + 1 < total_songs {
                        assert((idx + 1) % (total_songs as int) == idx + 1);
                    } else {
                        assert((idx + 1) % (total_songs as int) == 0);
                    }
                }
                idx = (idx + 1) % total_songs;
            }
            idx
        },
    }
}

/// Returns the next song index given the current play mode and state:
/// the same song in repeat-one mode, the following one (wrapping to the
/// first) in sequential mode, and a random one in shuffle mode, never the
/// current one where there is more than one song. Where the system's random
/// source fails, shuffle mode goes on as if index 0 had been drawn.
/// The caller must ensure `total_songs > 0`.
pub fn next_song_index(play_mode: PlayMode, current_index: usize, total_songs: usize) -> (r: usize)
    requires
        total_songs > 0,
        play_mode == PlayMode::Sequential ==> current_index < usize::MAX,
    ensures
        spec_next_index_ok(play_mode, current_index as nat, total_songs as nat, r as nat),
        exists|pick: nat|
            pick < total_songs && r == #[trigger] spec_next_index_with(
                play_mode,
                current_index as nat,
                total_songs as nat,
                pick,
            ),
        play_mode != PlayMode::Shuffle ==> r == spec_next_index_with(
            play_mode,
            current_index as nat,
            total_songs as nat,
            0,
        ),
{
    let pick = match play_mode {
        PlayMode::Shuffle => match random_index_below(total_songs) {
            Some(i) => i,
            None => 0,
        },
        _ => 0,
    };
    next_song_index_with(play_mode, current_index, total_songs, pick)
}

} // verus!
