use terminal_music_player::app::{App, InputField, SaveRequest, Screen};
use terminal_music_player::keys::{handle_key, key_ok, Key, KeyPress};
use terminal_music_player::player::{download_error_message, Player, PlayerCommand, PlayerEvent};
use terminal_music_player::playlist::{PlayMode, Playlist, Song};
use terminal_music_player::text::{decimal_string, duration_field, parse_usize, starts_with, trim};
use terminal_music_player::view::{
    content_height, cursor_column, delete_question, format_time, mode_icon, playlist_row, progress,
    scroll_offset, status_text, status_tone, Progress, RowStyle, StatusTone,
};

fn app_with(aliases: &[&str]) -> App {
    let songs = aliases
        .iter()
        .map(|a| Song { url: format!("https://example.com/{}", a), alias: a.to_string(), last_position: 0 })
        .collect();
    App::new(
        Playlist { songs, play_mode: PlayMode::Sequential, last_played_alias: None },
        Player::new(),
    )
}

fn press(app: &mut App, key: Key) {
    let k = KeyPress { key, alt: false };
    assert!(key_ok(app, k));
    handle_key(app, k);
}

#[test]
fn trim_matches_str_trim() {
    for s in ["", "  ", " a b ", "\t\nx\u{3000}", "\u{a0}y\u{2009}", "z"] {
        assert_eq!(trim(s), s.trim());
    }
}

#[test]
fn parse_matches_std_parse() {
    for s in ["", "+", "0", "007", "+12", "-1", "1a", " 1", "18446744073709551615", "18446744073709551616"] {
        assert_eq!(parse_usize(s), s.parse::<usize>().ok(), "{}", s);
    }
}

#[test]
fn decimal_and_prefix() {
    assert_eq!(decimal_string(0), "0");
    assert_eq!(decimal_string(1234567), "1234567");
    assert!(starts_with("Stream error: x", "Stream error:"));
    assert!(!starts_with("Stream", "Stream error:"));
}

#[test]
fn format_time_examples() {
    assert_eq!(format_time(0), "00:00");
    assert_eq!(format_time(999), "00:00");
    assert_eq!(format_time(65_000), "01:05");
    assert_eq!(format_time(3_600_000), "01:00:00");
    assert_eq!(format_time(363_599_000), "100:59:59");
}

#[test]
fn scroll_keeps_selection_visible() {
    assert_eq!(content_height(10), 8);
    assert_eq!(content_height(2), 1);
    assert_eq!(content_height(0), 1);
    assert_eq!(scroll_offset(3, 8), 0);
    assert_eq!(scroll_offset(8, 8), 1);
    assert_eq!(scroll_offset(20, 5), 16);
}

#[test]
fn playlist_rows_mark_current_and_selected() {
    let mut app = app_with(&["A", "B", "C"]);
    app.selected_index = 1;
    app.current_song = Some("C".to_string());
    assert_eq!(playlist_row(&app, 0), ("     1. A".to_string(), RowStyle::Plain));
    assert_eq!(playlist_row(&app, 1), (" \u{203A}   2. B".to_string(), RowStyle::Selected));
    assert_eq!(playlist_row(&app, 2), (" \u{25B6}   3. C".to_string(), RowStyle::Current));
    app.is_paused = true;
    assert_eq!(playlist_row(&app, 2).0, " \u{23F8}   3. C");
}

#[test]
fn status_line_priorities() {
    let mut app = app_with(&["A"]);
    assert_eq!(status_text(&app), "Press [Enter] to play");
    app.status_message = None;
    assert_eq!(
        status_text(&app),
        "No song playing. Press [a] to add a URL with music inside."
    );
    app.is_buffering = true;
    assert_eq!(status_text(&app), "Downloading...");
    app.current_song = Some("A".to_string());
    assert_eq!(status_text(&app), "Downloading: A ...");
    assert_eq!(status_tone(&app), StatusTone::Buffering);
    app.is_buffering = false;
    assert_eq!(status_text(&app), "Now playing: A");
    app.is_paused = true;
    assert_eq!(status_text(&app), "Paused: A");
    app.status_message = Some("Error: boom".to_string());
    assert_eq!(status_tone(&app), StatusTone::Error);
    app.number_input = Some("1".to_string());
    assert_eq!(status_text(&app), "Error: boom");
}

#[test]
fn progress_labels() {
    let mut app = app_with(&["A"]);
    assert!(matches!(progress(&app), Progress::Empty));
    app.current_song = Some("A".to_string());
    app.is_buffering = true;
    assert!(matches!(progress(&app), Progress::Buffering));
    app.is_buffering = false;
    app.current_position = 61_000;
    match progress(&app) {
        Progress::Playing { label, has_duration } => {
            assert_eq!(label, " 01:01 (live) ");
            assert!(!has_duration);
        }
        _ => panic!("expected playing"),
    }
    app.total_duration = 3_725_000;
    match progress(&app) {
        Progress::Playing { label, has_duration } => {
            assert_eq!(label, " 01:01 / 01:02:05 ");
            assert!(has_duration);
        }
        _ => panic!("expected playing"),
    }
}

#[test]
fn mode_icons_and_delete_question() {
    assert_eq!(mode_icon(PlayMode::RepeatOne), "\u{21BA}1");
    assert_eq!(mode_icon(PlayMode::Sequential), "\u{21BA}");
    assert_eq!(mode_icon(PlayMode::Shuffle), "\u{21C4}");
    let mut app = app_with(&["A"]);
    assert_eq!(delete_question(&app), " Delete \"A\"?");
    app.delete_target = 3;
    assert_eq!(delete_question(&app), " Delete \"unknown\"?");
}

#[test]
fn keys_add_a_song_through_the_form() {
    let mut app = app_with(&["A"]);
    press(&mut app, Key::Char('a'));
    assert_eq!(app.screen, Screen::AddSong);
    for c in "http://x".chars() {
        press(&mut app, Key::Char(c));
    }
    press(&mut app, Key::Backspace);
    press(&mut app, Key::Tab);
    assert_eq!(app.input_focus, InputField::Alias);
    for c in "B".chars() {
        press(&mut app, Key::Char(c));
    }
    press(&mut app, Key::Enter);
    assert_eq!(app.screen, Screen::Playlist);
    assert_eq!(app.playlist.songs.len(), 2);
    assert_eq!(app.playlist.songs[1].url, "http://");
    assert_eq!(app.playlist.songs[1].alias, "B");
}

#[test]
fn keys_delete_edit_and_quit() {
    let mut app = app_with(&["A", "B"]);
    press(&mut app, Key::Down);
    press(&mut app, Key::Char('d'));
    assert_eq!(app.screen, Screen::ConfirmDelete);
    assert_eq!(app.delete_target, 1);
    press(&mut app, Key::Char('y'));
    assert_eq!(app.playlist.songs.len(), 1);
    assert_eq!(app.selected_index, 0);
    press(&mut app, Key::Char('e'));
    assert_eq!(app.screen, Screen::EditAlias);
    press(&mut app, Key::Char('!'));
    press(&mut app, Key::Enter);
    assert_eq!(app.playlist.songs[0].alias, "A!");
    press(&mut app, Key::Char('3'));
    press(&mut app, Key::Esc);
    assert_eq!(app.number_input, None);
    press(&mut app, Key::Char('q'));
    assert!(app.should_quit);
    assert_eq!(app.playlist.last_played_alias, Some("A!".to_string()));
    assert_eq!(app.take_save_request(), SaveRequest::Report);
}

#[test]
fn keys_play_pause_seek_and_move() {
    let mut app = app_with(&["A", "B"]);
    press(&mut app, Key::Enter);
    press(&mut app, Key::Char(' '));
    let k = KeyPress { key: Key::Down, alt: true };
    assert!(key_ok(&app, k));
    handle_key(&mut app, k);
    assert_eq!(app.playlist.songs[1].alias, "A");
    assert_eq!(app.selected_index, 1);
    app.total_duration = 60_000;
    press(&mut app, Key::Right);
    assert_eq!(app.current_position, 10_000);
    press(&mut app, Key::Char('m'));
    assert_eq!(app.play_mode, PlayMode::Shuffle);
    let cmds = app.player.take_commands();
    assert_eq!(cmds.len(), 3);
    assert!(matches!(cmds[0], PlayerCommand::Play(ref s) if s.alias == "A"));
    assert!(matches!(cmds[1], PlayerCommand::PauseResume));
    assert!(matches!(cmds[2], PlayerCommand::SeekTo(10_000)));
}

#[test]
fn key_ok_flags_a_move_out_of_range() {
    let mut app = app_with(&["A", "B"]);
    app.selected_index = 7;
    assert!(!key_ok(&app, KeyPress { key: Key::Up, alt: true }));
    app.screen = Screen::Error;
    press(&mut app, Key::Other);
    assert_eq!(app.screen, Screen::Playlist);
}

#[test]
fn duration_field_of_downloader_output() {
    assert_eq!(duration_field("NA\n"), None);
    assert_eq!(duration_field("  \n"), None);
    assert_eq!(duration_field(" 213.5\n"), Some("213.5".to_string()));
}

#[test]
fn download_error_message_is_a_stream_failure() {
    let msg = download_error_message("yt-dlp exited");
    assert_eq!(msg, "Audio download error: yt-dlp exited");
    let mut app = app_with(&["A"]);
    app.current_song = Some("A".to_string());
    app.player.deliver(PlayerEvent::Error(msg));
    app.poll_events();
    assert_eq!(app.screen, Screen::Error);
}

#[test]
fn cursor_column_follows_the_text() {
    assert_eq!(cursor_column(10, 5), Some(16));
    assert_eq!(cursor_column(0, 0), Some(1));
    assert_eq!(cursor_column(10, 65536 + 3), Some(14));
    assert_eq!(cursor_column(u16::MAX, 0), None);
    assert_eq!(cursor_column(65530, 5), None);
    assert_eq!(cursor_column(65530, 4), Some(65535));
}
