use terminal_music_player::playlist::{next_song_index, next_song_index_with, PlayMode, Playlist, Song};

#[test]
fn test_sequential_next() {
    assert_eq!(next_song_index(PlayMode::Sequential, 0, 5), 1);
    assert_eq!(next_song_index(PlayMode::Sequential, 4, 5), 0);
}

#[test]
fn test_repeat_one() {
    assert_eq!(next_song_index(PlayMode::RepeatOne, 2, 10), 2);
    assert_eq!(next_song_index(PlayMode::RepeatOne, 0, 1), 0);
}

#[test]
fn test_shuffle_never_same_when_multi() {
    for _ in 0..20 {
        let n = next_song_index(PlayMode::Shuffle, 3, 5);
        assert_ne!(n, 3, "shuffle should not repeat current when total > 1");
        assert!(n < 5);
    }
}

#[test]
fn test_shuffle_single_song() {
    assert_eq!(next_song_index(PlayMode::Shuffle, 0, 1), 0);
}

#[test]
fn test_playlist_default() {
    let playlist = Playlist::default();
    assert_eq!(playlist.songs.len(), 0);
    assert_eq!(playlist.play_mode, PlayMode::Sequential);
    assert_eq!(playlist.last_played_alias, None);
}

#[test]
fn test_play_mode_default() {
    assert_eq!(PlayMode::default(), PlayMode::Sequential);
}

#[test]
fn shuffle_pick_moves_off_the_current_song() {
    assert_eq!(next_song_index_with(PlayMode::Shuffle, 3, 5, 3), 4);
    assert_eq!(next_song_index_with(PlayMode::Shuffle, 4, 5, 4), 0);
    assert_eq!(next_song_index_with(PlayMode::Shuffle, 1, 5, 2), 2);
    assert_eq!(next_song_index_with(PlayMode::Sequential, 1, 5, 0), 2);
}

#[test]
fn song_clone_keeps_fields() {
    let s = Song { url: "u".to_string(), alias: "a".to_string(), last_position: 7 };
    let c = s.clone();
    assert_eq!(c.url, "u");
    assert_eq!(c.alias, "a");
    assert_eq!(c.last_position, 7);
}
