use std::time::Instant;
use terminal_music_player::app::{App, InputField, SaveRequest, Screen};
use terminal_music_player::player::{Player, PlayerCommand, PlayerEvent};
use terminal_music_player::playlist::{PlayMode, Playlist, Song};

fn create_test_app() -> App {
    let playlist = Playlist {
        songs: vec![
            Song {
                url: "https://example.com/1".to_string(),
                alias: "Song 1".to_string(),
                last_position: 0,
            },
            Song {
                url: "https://example.com/2".to_string(),
                alias: "Song 2".to_string(),
                last_position: 0,
            },
        ],
        play_mode: PlayMode::Sequential,
        last_played_alias: None,
    };

    App {
        playlist,
        player: Player::new(),
        screen: Screen::Playlist,
        selected_index: 0,
        current_song: None,
        is_paused: false,
        is_buffering: false,
        current_position: 0,
        total_duration: 0,
        status_message: Some("Test".to_string()),
        input_url: String::new(),
        input_alias: String::new(),
        input_focus: InputField::Url,
        should_quit: false,
        play_mode: PlayMode::Sequential,
        status_restore: None,
        delete_target: 0,
        error_message: String::new(),
        number_input: None,
        pending_play_index: None,
        pending_save: SaveRequest::NotNeeded,
    }
}

#[test]
fn test_select_up() {
    let mut app = create_test_app();
    app.selected_index = 1;
    app.select_up();
    assert_eq!(app.selected_index, 0);
}

#[test]
fn test_select_up_at_zero() {
    let mut app = create_test_app();
    app.selected_index = 0;
    app.select_up();
    assert_eq!(app.selected_index, 0);
}

#[test]
fn test_select_down() {
    let mut app = create_test_app();
    app.select_down();
    assert_eq!(app.selected_index, 1);
}

#[test]
fn test_select_down_at_end() {
    let mut app = create_test_app();
    app.selected_index = 1;
    app.select_down();
    assert_eq!(app.selected_index, 1);
}

#[test]
fn test_cycle_play_mode() {
    let mut app = create_test_app();
    assert_eq!(app.play_mode, PlayMode::Sequential);

    app.cycle_play_mode();
    assert_eq!(app.play_mode, PlayMode::Shuffle);

    app.cycle_play_mode();
    assert_eq!(app.play_mode, PlayMode::RepeatOne);

    app.cycle_play_mode();
    assert_eq!(app.play_mode, PlayMode::Sequential);
}

#[test]
fn test_cycle_play_mode_status_timer() {
    let mut app = create_test_app();
    app.cycle_play_mode();
    assert!(app.status_restore.is_some());
    assert!(app.status_message.is_some());
    assert!(app.status_message.as_ref().unwrap().contains("Mode:"));
}

#[test]
fn test_check_status_timer_expired() {
    let mut app = create_test_app();
    app.status_message = Some("Temp".to_string());
    app.status_restore = Some((
        "Previous".to_string(),
        Instant::now() - std::time::Duration::from_secs(2),
    ));
    app.check_status_timer();
    assert_eq!(app.status_message, Some("Previous".to_string()));
    assert!(app.status_restore.is_none());
}

#[test]
fn test_check_status_timer_not_expired() {
    let mut app = create_test_app();
    app.status_message = Some("Temp".to_string());
    app.status_restore = Some(("Previous".to_string(), Instant::now()));
    app.check_status_timer();
    assert_eq!(app.status_message, Some("Temp".to_string()));
    assert!(app.status_restore.is_some());
}

#[test]
fn test_seek_relative_no_song() {
    let mut app = create_test_app();
    app.current_song = None;
    app.seek_relative(10_000);
    assert_eq!(app.current_position, 0);
}

#[test]
fn test_seek_relative_with_song() {
    let mut app = create_test_app();
    app.current_song = Some("Song 1".to_string());
    app.current_position = 30_000;
    app.total_duration = 100_000;
    app.seek_relative(-10_000);
    assert_eq!(app.current_position, 20_000);
}

#[test]
fn test_seek_relative_clamp() {
    let mut app = create_test_app();
    app.current_song = Some("Song 1".to_string());
    app.current_position = 5_000;
    app.total_duration = 100_000;
    app.seek_relative(-10_000);
    assert_eq!(app.current_position, 0);
}

#[test]
fn test_move_song_up() {
    let mut app = create_test_app();
    app.selected_index = 1;
    app.move_song_up();
    assert_eq!(app.selected_index, 0);
    assert_eq!(app.playlist.songs[0].alias, "Song 2");
    assert_eq!(app.playlist.songs[1].alias, "Song 1");
}

#[test]
fn test_move_song_up_at_zero() {
    let mut app = create_test_app();
    app.selected_index = 0;
    app.move_song_up();
    assert_eq!(app.selected_index, 0);
}

#[test]
fn test_move_song_down() {
    let mut app = create_test_app();
    app.selected_index = 0;
    app.move_song_down();
    assert_eq!(app.selected_index, 1);
    assert_eq!(app.playlist.songs[0].alias, "Song 2");
    assert_eq!(app.playlist.songs[1].alias, "Song 1");
}

#[test]
fn test_add_song_empty_url() {
    let mut app = create_test_app();
    app.input_url = "  ".to_string();
    app.input_alias = "Test".to_string();
    app.add_song();
    assert!(app.status_message.as_ref().unwrap().contains("required"));
}

#[test]
fn test_add_song_empty_alias() {
    let mut app = create_test_app();
    app.input_url = "https://example.com".to_string();
    app.input_alias = "   ".to_string();
    app.add_song();
    assert!(app.status_message.as_ref().unwrap().contains("required"));
}

#[test]
fn test_add_song_duplicate_alias() {
    let mut app = create_test_app();
    app.input_url = "https://example.com/3".to_string();
    app.input_alias = "Song 1".to_string();
    app.add_song();
    assert!(
        app.status_message
            .as_ref()
            .unwrap()
            .contains("already exists")
    );
}

#[test]
fn test_delete_selected() {
    let mut app = create_test_app();
    app.selected_index = 0;
    app.delete_selected();
    assert_eq!(app.playlist.songs.len(), 1);
    assert_eq!(app.playlist.songs[0].alias, "Song 2");
}

#[test]
fn test_delete_selected_last() {
    let mut app = create_test_app();
    app.selected_index = 1;
    app.delete_selected();
    assert_eq!(app.playlist.songs.len(), 1);
    assert_eq!(app.selected_index, 0);
}

#[test]
fn test_update_alias() {
    let mut app = create_test_app();
    app.selected_index = 0;
    app.input_alias = "New Name".to_string();
    app.update_alias();
    assert_eq!(app.playlist.songs[0].alias, "New Name");
    assert_eq!(app.screen, Screen::Playlist);
}

#[test]
fn test_update_alias_empty() {
    let mut app = create_test_app();
    app.selected_index = 0;
    app.input_alias = "   ".to_string();
    app.update_alias();
    assert!(app.status_message.as_ref().unwrap().contains("empty"));
}

#[test]
fn test_reset_position() {
    let mut app = create_test_app();
    app.current_song = Some("Song 1".to_string());
    app.playlist.songs[0].last_position = 50_000;
    app.reset_position();
    assert_eq!(app.playlist.songs[0].last_position, 0);
}

#[test]
fn test_screen_variants() {
    assert_eq!(Screen::Playlist as u8, 0);
    assert_eq!(Screen::AddSong as u8, 1);
    assert_eq!(Screen::EditAlias as u8, 2);
    assert_eq!(Screen::ConfirmDelete as u8, 3);
    assert_eq!(Screen::Error as u8, 4);
}

#[test]
fn test_input_field_variants() {
    assert_eq!(InputField::Url as u8, 0);
    assert_eq!(InputField::Alias as u8, 1);
}

// --- Number input tests ---

#[test]
fn test_start_number_input() {
    let mut app = create_test_app();
    app.start_number_input('5');
    assert_eq!(app.number_input, Some("5".to_string()));
    assert!(app.status_message.unwrap().contains("Go to:"));
}

#[test]
fn test_append_number_input() {
    let mut app = create_test_app();
    app.start_number_input('1');
    app.append_number_input('5');
    assert_eq!(app.number_input, Some("15".to_string()));
}

#[test]
fn test_confirm_number_input_valid() {
    let mut app = create_test_app();
    app.start_number_input('2');
    app.confirm_number_input();
    assert_eq!(app.selected_index, 1);
    assert_eq!(app.number_input, None);
}

#[test]
fn test_confirm_number_input_invalid() {
    let mut app = create_test_app();
    app.number_input = Some("99".to_string());
    app.confirm_number_input();
    assert_eq!(app.number_input, None);
    assert!(app.status_message.unwrap().contains("Invalid"));
}

#[test]
fn test_confirm_number_input_out_of_range() {
    let mut app = create_test_app();
    app.number_input = Some("0".to_string());
    app.confirm_number_input();
    assert!(app.status_message.unwrap().contains("Invalid"));
}

#[test]
fn test_cancel_number_input() {
    let mut app = create_test_app();
    app.start_number_input('3');
    app.cancel_number_input();
    assert_eq!(app.number_input, None);
    assert_eq!(app.pending_play_index, None);
    assert!(app.status_message.is_some());
}

// --- Pending play cancellation tests ---

#[test]
fn test_confirm_number_input_sets_pending_when_playing() {
    let mut app = create_test_app();
    // Simulate that a song is currently playing.
    app.current_song = Some("Song 1".to_string());
    app.start_number_input('2');
    app.confirm_number_input();
    // Should set pending_play_index instead of playing immediately.
    assert_eq!(app.pending_play_index, Some(1));
    assert_eq!(app.number_input, None);
}

#[test]
fn test_confirm_number_input_sets_pending_when_buffering() {
    let mut app = create_test_app();
    app.is_buffering = true;
    app.start_number_input('1');
    app.confirm_number_input();
    assert_eq!(app.pending_play_index, Some(0));
    assert_eq!(app.number_input, None);
}

#[test]
fn test_confirm_number_input_no_pending_when_idle() {
    let mut app = create_test_app();
    // Idle: no current_song, not buffering.
    app.current_song = None;
    app.is_buffering = false;
    app.start_number_input('2');
    app.confirm_number_input();
    // Should play immediately, no pending.
    assert_eq!(app.pending_play_index, None);
    assert_eq!(app.selected_index, 1);
    assert_eq!(app.number_input, None);
}

#[test]
fn test_confirm_number_input_overwrites_pending() {
    let mut app = create_test_app();
    app.current_song = Some("Song 1".to_string());
    // First request: go to song 1.
    app.start_number_input('1');
    app.confirm_number_input();
    assert_eq!(app.pending_play_index, Some(0));
    // Second request: go to song 2 (overwrites the first).
    app.start_number_input('2');
    app.confirm_number_input();
    // Only the last request should be pending.
    assert_eq!(app.pending_play_index, Some(1));
}

#[test]
fn test_confirm_number_input_invalid_clears_pending() {
    let mut app = create_test_app();
    app.pending_play_index = Some(0);
    app.number_input = Some("99".to_string());
    app.confirm_number_input();
    assert_eq!(app.pending_play_index, None);
    assert!(app.status_message.as_ref().unwrap().contains("Invalid"));
}

#[test]
fn test_cancel_number_input_clears_pending() {
    let mut app = create_test_app();
    app.pending_play_index = Some(1);
    app.start_number_input('3');
    app.cancel_number_input();
    assert_eq!(app.pending_play_index, None);
    assert_eq!(app.number_input, None);
}

#[test]
fn test_play_selected_clears_pending() {
    let mut app = create_test_app();
    app.pending_play_index = Some(0);
    app.play_selected();
    assert_eq!(app.pending_play_index, None);
}

// --- Further scenarios ---

fn sent_aliases(app: &mut App) -> Vec<String> {
    app.player
        .take_commands()
        .into_iter()
        .map(|c| match c {
            PlayerCommand::Play(s) => format!("play {}", s.alias),
            PlayerCommand::Stop => "stop".to_string(),
            PlayerCommand::PauseResume => "pause".to_string(),
            PlayerCommand::SeekTo(p) => format!("seek {}", p),
        })
        .collect()
}

#[test]
fn rapid_requests_play_only_the_last_after_stopped() {
    let mut app = create_test_app();
    app.current_song = Some("Song 1".to_string());
    app.start_number_input('1');
    app.confirm_number_input();
    app.start_number_input('2');
    app.confirm_number_input();
    app.player.deliver(PlayerEvent::Stopped);
    assert!(app.poll_events_safe());
    app.poll_events();
    assert_eq!(sent_aliases(&mut app), vec!["stop", "stop", "play Song 2"]);
    assert_eq!(app.pending_play_index, None);
    assert_eq!(app.selected_index, 1);
    assert_eq!(app.status_message, Some("Downloading: Song 2 ...".to_string()));
}

#[test]
fn add_song_appends_trimmed_and_asks_for_a_reported_save() {
    let mut app = create_test_app();
    app.screen = Screen::AddSong;
    app.input_url = "  https://example.com/3 ".to_string();
    app.input_alias = "\tSong 3\n".to_string();
    app.add_song();
    assert_eq!(app.playlist.songs.len(), 3);
    assert_eq!(app.playlist.songs[2].url, "https://example.com/3");
    assert_eq!(app.playlist.songs[2].alias, "Song 3");
    assert_eq!(app.playlist.songs[2].last_position, 0);
    assert_eq!(app.status_message, Some("Song added".to_string()));
    assert_eq!(app.screen, Screen::Playlist);
    assert_eq!(app.input_url, "");
    assert_eq!(app.take_save_request(), SaveRequest::Report);
    assert_eq!(app.pending_save, SaveRequest::NotNeeded);
}

#[test]
fn report_save_error_sets_status() {
    let mut app = create_test_app();
    app.report_save_error("disk full");
    assert_eq!(app.status_message, Some("Save error: disk full".to_string()));
}

#[test]
fn deleting_the_current_song_stops_it() {
    let mut app = create_test_app();
    app.current_song = Some("Song 2".to_string());
    app.current_position = 4_000;
    app.selected_index = 1;
    app.delete_selected();
    assert_eq!(sent_aliases(&mut app), vec!["stop"]);
    assert_eq!(app.current_song, None);
    assert_eq!(app.current_position, 0);
    assert_eq!(app.selected_index, 0);
}

#[test]
fn finished_plays_next_in_sequence_and_resets_position() {
    let mut app = create_test_app();
    app.current_song = Some("Song 1".to_string());
    app.playlist.songs[0].last_position = 70_000;
    app.player.deliver(PlayerEvent::Finished);
    app.poll_events();
    assert_eq!(app.playlist.songs[0].last_position, 0);
    assert_eq!(app.selected_index, 1);
    assert_eq!(sent_aliases(&mut app), vec!["play Song 2"]);
    assert_eq!(app.status_message, Some("Auto-playing next: Song 2".to_string()));
    assert_eq!(app.take_save_request(), SaveRequest::Quiet);
}

#[test]
fn finished_in_repeat_one_replays_the_same_song() {
    let mut app = create_test_app();
    app.play_mode = PlayMode::RepeatOne;
    app.selected_index = 1;
    app.current_song = Some("Song 2".to_string());
    app.player.deliver(PlayerEvent::Finished);
    assert!(app.poll_events_safe());
    app.poll_events();
    assert_eq!(app.selected_index, 1);
    assert_eq!(sent_aliases(&mut app), vec!["play Song 2"]);
}

#[test]
fn finished_in_repeat_one_out_of_range_is_flagged() {
    let mut app = create_test_app();
    app.play_mode = PlayMode::RepeatOne;
    app.selected_index = 5;
    app.player.deliver(PlayerEvent::Finished);
    assert!(!app.poll_events_safe());
}

#[test]
fn events_update_state_in_order() {
    let mut app = create_test_app();
    app.player.deliver(PlayerEvent::Buffering("Song 1".to_string()));
    app.player.deliver(PlayerEvent::Started("Song 1".to_string(), 180_000));
    app.player.deliver(PlayerEvent::Position(12_000));
    app.player.deliver(PlayerEvent::Paused);
    app.poll_events();
    assert_eq!(app.current_song, Some("Song 1".to_string()));
    assert!(!app.is_buffering);
    assert!(app.is_paused);
    assert_eq!(app.total_duration, 180_000);
    assert_eq!(app.current_position, 12_000);
    assert_eq!(app.playlist.songs[0].last_position, 12_000);
    assert_eq!(app.status_message, Some("Paused".to_string()));
    assert!(app.player.try_recv().is_none());
}

#[test]
fn stream_error_opens_dialog_other_error_goes_to_status() {
    let mut app = create_test_app();
    app.current_song = Some("Song 1".to_string());
    app.player.deliver(PlayerEvent::Error("Audio decode error: bad".to_string()));
    app.poll_events();
    assert_eq!(app.screen, Screen::Playlist);
    assert_eq!(app.status_message, Some("Error: Audio decode error: bad".to_string()));
    app.player.deliver(PlayerEvent::Error("Stream error: no such video".to_string()));
    app.poll_events();
    assert_eq!(app.screen, Screen::Error);
    assert_eq!(app.current_song, None);
    assert_eq!(
        app.error_message,
        "Cannot play. Please confirm the URL has an music stream."
    );
}

#[test]
fn new_selects_last_played_song() {
    let playlist = Playlist {
        songs: vec![
            Song { url: "u1".to_string(), alias: "A".to_string(), last_position: 0 },
            Song { url: "u2".to_string(), alias: "B".to_string(), last_position: 0 },
        ],
        play_mode: PlayMode::Shuffle,
        last_played_alias: Some("B".to_string()),
    };
    let app = App::new(playlist, Player::new());
    assert_eq!(app.selected_index, 1);
    assert_eq!(app.play_mode, PlayMode::Shuffle);
    assert_eq!(app.status_message, Some("Press [Enter] to play".to_string()));
    let empty = App::new(Playlist::default(), Player::new());
    assert_eq!(empty.selected_index, 0);
    assert_eq!(
        empty.status_message,
        Some("Press [a] to add a URL to play".to_string())
    );
}

#[test]
fn seek_forward_message_and_command() {
    let mut app = create_test_app();
    app.current_song = Some("Song 1".to_string());
    app.current_position = 95_000;
    app.total_duration = 100_000;
    app.seek_relative(10_000);
    assert_eq!(app.current_position, 100_000);
    assert_eq!(app.status_message, Some("Seek: 10s forward".to_string()));
    assert_eq!(sent_aliases(&mut app), vec!["seek 100000"]);
    app.seek_relative(-10_500);
    assert_eq!(app.status_message, Some("Seek: 10s back".to_string()));
}

#[test]
fn mode_message_restores_previous_after_a_second() {
    let mut app = create_test_app();
    app.cycle_play_mode();
    assert_eq!(app.status_message, Some("Mode: Shuffle".to_string()));
    app.check_status_timer_at(999);
    assert_eq!(app.status_message, Some("Mode: Shuffle".to_string()));
    app.check_status_timer_at(1000);
    assert_eq!(app.status_message, Some("Test".to_string()));
    assert!(app.status_restore.is_none());
}

#[test]
fn save_last_played_prefers_current_song() {
    let mut app = create_test_app();
    app.selected_index = 1;
    app.save_last_played();
    assert_eq!(app.playlist.last_played_alias, Some("Song 2".to_string()));
    app.current_song = Some("Song 1".to_string());
    app.save_last_played();
    assert_eq!(app.playlist.last_played_alias, Some("Song 1".to_string()));
}

#[test]
fn confirm_number_with_plus_sign_and_overflow() {
    let mut app = create_test_app();
    app.number_input = Some("+2".to_string());
    app.confirm_number_input();
    assert_eq!(app.selected_index, 1);
    app.number_input = Some("99999999999999999999999".to_string());
    app.confirm_number_input();
    assert_eq!(app.status_message, Some("Invalid song number".to_string()));
}

#[test]
fn cancel_number_input_describes_playback() {
    let mut app = create_test_app();
    app.current_song = Some("Song 1".to_string());
    app.is_paused = true;
    app.start_number_input('1');
    app.cancel_number_input();
    assert_eq!(app.status_message, Some("Paused: Song 1".to_string()));
}

#[test]
fn move_up_then_down_restores_order() {
    let mut app = create_test_app();
    app.selected_index = 1;
    app.move_song_up();
    app.move_song_down();
    assert_eq!(app.selected_index, 1);
    assert_eq!(app.playlist.songs[0].alias, "Song 1");
    assert_eq!(app.playlist.songs[1].alias, "Song 2");
}

#[test]
fn pausing_then_playing_resumes_where_left_off() {
    let mut app = create_test_app();
    app.current_song = Some("Song 2".to_string());
    app.selected_index = 1;
    app.player.deliver(PlayerEvent::Position(42_000));
    app.player.deliver(PlayerEvent::Paused);
    app.poll_events();
    app.play_selected();
    let cmds = app.player.take_commands();
    assert!(matches!(cmds[0], PlayerCommand::Play(ref s) if s.alias == "Song 2" && s.last_position == 42_000));
}

#[test]
fn restart_plays_from_the_beginning() {
    let mut app = create_test_app();
    app.current_song = Some("Song 2".to_string());
    app.current_position = 30_000;
    app.playlist.songs[1].last_position = 30_000;
    app.reset_position();
    assert_eq!(app.selected_index, 1);
    assert_eq!(app.status_message, Some("Restarting from beginning".to_string()));
    let cmds = app.player.take_commands();
    assert!(matches!(cmds[0], PlayerCommand::Play(ref s) if s.alias == "Song 2" && s.last_position == 0));
}
