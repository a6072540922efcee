//! What each key does on each screen.

use crate::app::{App, AppView, InputField, SaveRequest, Screen};
use crate::player::PlayerCommandView;
use crate::text::{is_ascii_digit, push_char, spec_is_ascii_digit};
use std::time::Instant;
use vstd::prelude::*;

verus! {

/// A key, as far as the interface tells keys apart.
#[derive(Debug, Clone, Copy, PartialEq, Eq, Structural)]
pub enum Key {
    Char(char),
    Enter,
    Esc,
    Tab,
    Backspace,
    Up,
    Down,
    Left,
    Right,
    Other,
}

/// A key press, and whether Alt was held.
#[derive(Debug, Clone, Copy, PartialEq, Eq, Structural)]
pub struct KeyPress {
    pub key: Key,
    pub alt: bool,
}

/// Removes the last character of `s`, if any (`String::pop`).
#[verifier::external_body]
fn pop_char(s: &mut String)
    ensures
        final(s)@ == (if old(s)@.len() > 0 {
            old(s)@.drop_last()
        } else {
            old(s)@
        }),
{
    s.pop();
}

/// The relative seek of the right arrow key, in milliseconds.
pub const SEEK_FORWARD_MS: i64 = 10000;

/// The relative seek of the left arrow key, in milliseconds.
pub const SEEK_BACK_MS: i64 = -10000;

/// `s` without its last character, if any.
pub open spec fn spec_drop_last_char(s: Seq<char>) -> Seq<char> {
    if s.len() > 0 {
        s.drop_last()
    } else {
        s
    }
}

/// Whether the playlist screen can handle `k` in state `s` within bounds.
pub open spec fn spec_playlist_key_ok(s: AppView, k: KeyPress) -> bool {
    &&& (k.key == Key::Up && k.alt) ==> (s.len() < 2 || s.selected_index == 0 || s.selected_index
        < s.len())
    &&& ((k.key == Key::Down && !k.alt) || k.key == Key::Char('j')) ==> s.selected_index
        < usize::MAX
}

/// What a key does on the playlist screen, at time `now`.
pub open spec fn spec_playlist_key(s: AppView, k: KeyPress, now: Instant) -> AppView {
    match k.key {
        Key::Char('q') => AppView {
            should_quit: true,
            ..s.spec_save_last_played().spec_save_position().request_save(SaveRequest::Quiet)
        },
        Key::Char(c) if spec_is_ascii_digit(c) && s.number_input is None => s.spec_start_number_input(
            c,
        ),
        Key::Char(c) if spec_is_ascii_digit(c) && s.number_input is Some => s.spec_append_number_input(
            c,
        ),
        Key::Char('a') => AppView {
            screen: Screen::AddSong,
            input_url: seq![],
            input_alias: seq![],
            input_focus: InputField::Url,
            status_message: None,
            ..s
        },
        Key::Char('d') => if s.len() > 0 {
            AppView {
                delete_target: s.selected_index,
                screen: Screen::ConfirmDelete,
                status_message: None,
                ..s
            }
        } else {
            s
        },
        Key::Char('e') => s.spec_edit_selected(),
        Key::Enter => if s.number_input is Some {
            s.spec_confirm_number_input()
        } else {
            s.spec_play_selected()
        },
        Key::Esc => if s.number_input is Some {
            s.spec_cancel_number_input()
        } else {
            s
        },
        Key::Char(' ') => s.send(PlayerCommandView::PauseResume),
        Key::Char('r') => s.spec_reset_position(),
        Key::Up if k.alt => s.spec_move_song_up(),
        Key::Down if k.alt => s.spec_move_song_down(),
        Key::Up => s.spec_select_up(),
        Key::Char('k') => s.spec_select_up(),
        Key::Down => s.spec_select_down(),
        Key::Char('j') => s.spec_select_down(),
        Key::Left => s.spec_seek_relative(SEEK_BACK_MS),
        Key::Right => s.spec_seek_relative(SEEK_FORWARD_MS),
        Key::Char('m') => s.spec_cycle_play_mode(now),
        _ => s,
    }
}

/// What a key does on the add-song form.
pub open spec fn spec_add_song_key(s: AppView, k: KeyPress) -> AppView {
    match k.key {
        Key::Esc => AppView { screen: Screen::Playlist, status_message: None, ..s },
        Key::Tab => AppView {
            input_focus: match s.input_focus {
                InputField::Url => InputField::Alias,
                InputField::Alias => InputField::Url,
            },
            ..s
        },
        Key::Enter => s.spec_add_song(),
        Key::Char(c) => match s.input_focus {
            InputField::Url => AppView { input_url: s.input_url.push(c), ..s },
            InputField::Alias => AppView { input_alias: s.input_alias.push(c), ..s },
        },
        Key::Backspace => match s.input_focus {
            InputField::Url => AppView { input_url: spec_drop_last_char(s.input_url), ..s },
            InputField::Alias => AppView { input_alias: spec_drop_last_char(s.input_alias), ..s },
        },
        _ => s,
    }
}

/// What a key does in the alias editor.
pub open spec fn spec_edit_alias_key(s: AppView, k: KeyPress) -> AppView {
    match k.key {
        Key::Esc => AppView { screen: Screen::Playlist, status_message: None, ..s },
        Key::Enter => s.spec_update_alias(),
        Key::Char(c) => AppView { input_alias: s.input_alias.push(c), ..s },
        Key::Backspace => AppView { input_alias: spec_drop_last_char(s.input_alias), ..s },
        _ => s,
    }
}

/// What a key does in the delete confirmation: `y` or Enter deletes the
/// song it asked about, `n` or Esc goes back.
pub open spec fn spec_confirm_delete_key(s: AppView, k: KeyPress) -> AppView {
    match k.key {
        Key::Char('y') | Key::Enter => AppView {
            screen: Screen::Playlist,
            ..AppView { selected_index: s.delete_target, ..s }.spec_delete_selected()
        },
        Key::Char('n') | Key::Esc => AppView {
            screen: Screen::Playlist,
            status_message: None,
            ..s
        },
        _ => s,
    }
}

/// What a key does in the error dialog: any key closes it.
pub open spec fn spec_error_key(s: AppView) -> AppView {
    AppView { screen: Screen::Playlist, ..s }
}

/// What a key does on the screen shown, at time `now`.
pub open spec fn spec_key(s: AppView, k: KeyPress, now: Instant) -> AppView {
    match s.screen {
        Screen::Playlist => spec_playlist_key(s, k, now),
        Screen::AddSong => spec_add_song_key(s, k),
        Screen::EditAlias => spec_edit_alias_key(s, k),
        Screen::ConfirmDelete => spec_confirm_delete_key(s, k),
        Screen::Error => spec_error_key(s),
    }
}

/// Whether the screen shown can handle `k` in state `s` within bounds.
pub open spec fn spec_key_ok(s: AppView, k: KeyPress) -> bool {
    s.screen == Screen::Playlist ==> spec_playlist_key_ok(s, k)
}

/// Handles a key on the playlist screen.
pub fn handle_playlist_key(app: &mut App, key: KeyPress)
    requires
        spec_playlist_key_ok(old(app)@, key),
    ensures
        exists|now: Instant| final(app)@ == spec_playlist_key(old(app)@, key, now),
{
    match key.key {
        Key::Char('q') => {
            app.save_last_played();
            app.save_current_position_quiet();
            app.request_save(SaveRequest::Quiet);
            app.should_quit = true;
            assert(app@ =~~= spec_playlist_key(old(app)@, key, arbitrary()));
        },
        Key::Char(c) if is_ascii_digit(c) && app.number_input.is_none() => {
            app.start_number_input(c);
            assert(app@ == spec_playlist_key(old(app)@, key, arbitrary()));
        },
        Key::Char(c) if is_ascii_digit(c) && app.number_input.is_some() => {
            app.append_number_input(c);
            assert(app@ == spec_playlist_key(old(app)@, key, arbitrary()));
        },
        Key::Char('a') => {
            app.screen = Screen::AddSong;
            app.input_url = String::new();
            app.input_alias = String::new();
            app.input_focus = InputField::Url;
            app.status_message = None;
            assert(app@ =~~= spec_playlist_key(old(app)@, key, arbitrary()));
        },
        Key::Char('d') => {
            if app.playlist.songs.len() > 0 {
                app.delete_target = app.selected_index;
                app.screen = Screen::ConfirmDelete;
                app.status_message = None;
            }
            assert(app@ =~~= spec_playlist_key(old(app)@, key, arbitrary()));
        },
        Key::Char('e') => {
            app.edit_selected();
            assert(app@ == spec_playlist_key(old(app)@, key, arbitrary()));
        },
        Key::Enter => {
            if app.number_input.is_some() {
                app.confirm_number_input();
            } else {
                app.play_selected();
            }
            assert(app@ == spec_playlist_key(old(app)@, key, arbitrary()));
        },
        Key::Esc => {
            if app.number_input.is_some() {
                app.cancel_number_input();
            }
            assert(app@ == spec_playlist_key(old(app)@, key, arbitrary()));
        },
        Key::Char(' ') => {
            app.toggle_pause();
            assert(app@ == spec_playlist_key(old(app)@, key, arbitrary()));
        },
        Key::Char('r') => {
            app.reset_position();
            assert(app@ == spec_playlist_key(old(app)@, key, arbitrary()));
        },
        Key::Up if key.alt => {
            app.move_song_up();
            assert(app@ == spec_playlist_key(old(app)@, key, arbitrary()));
        },
        Key::Down if key.alt => {
            app.move_song_down();
            assert(app@ == spec_playlist_key(old(app)@, key, arbitrary()));
        },
        Key::Up | Key::Char('k') => {
            app.select_up();
            assert(app@ == spec_playlist_key(old(app)@, key, arbitrary()));
        },
        Key::Down | Key::Char('j') => {
            app.select_down();
            assert(app@ == spec_playlist_key(old(app)@, key, arbitrary()));
        },
        Key::Left => {
            app.seek_relative(SEEK_BACK_MS);
            assert(app@ == spec_playlist_key(old(app)@, key, arbitrary()));
        },
        Key::Right => {
            app.seek_relative(SEEK_FORWARD_MS);
            assert(app@ == spec_playlist_key(old(app)@, key, arbitrary()));
        },
        Key::Char('m') => {
            app.cycle_play_mode();
            let ghost now = choose|now: Instant| app@ == old(app)@.spec_cycle_play_mode(now);
            assert(app@ == spec_playlist_key(old(app)@, key, now));
        },
        _ => {
            assert(app@ == spec_playlist_key(old(app)@, key, arbitrary()));
        },
    }
}

/// Handles a key in the alias editor.
pub fn handle_edit_alias_key(app: &mut App, key: KeyPress)
    ensures
        final(app)@ == spec_edit_alias_key(old(app)@, key),
{
    match key.key {
        Key::Esc => {
            app.screen = Screen::Playlist;
            app.status_message = None;
        },
        Key::Enter => {
            app.update_alias();
        },
        Key::Char(c) => {
            push_char(&mut app.input_alias, c);
        },
        Key::Backspace => {
            pop_char(&mut app.input_alias);
        },
        _ => {},
    }
    assert(app@ =~~= spec_edit_alias_key(old(app)@, key));
}

/// Handles a key in the delete confirmation.
pub fn handle_confirm_delete_key(app: &mut App, key: KeyPress)
    ensures
        final(app)@ == spec_confirm_delete_key(old(app)@, key),
{
    match key.key {
        Key::Char('y') | Key::Enter => {
            let target = app.delete_target;
            app.selected_index = target;
            app.delete_selected();
            app.screen = Screen::Playlist;
        },
        Key::Char('n') | Key::Esc => {
            app.screen = Screen::Playlist;
            app.status_message = None;
        },
        _ => {},
    }
    assert(app@ =~~= spec_confirm_delete_key(old(app)@, key));
}

/// Handles a key in the error dialog.
pub fn handle_error_key(app: &mut App, key: KeyPress)
    ensures
        final(app)@ == spec_error_key(old(app)@),
{
    app.screen = Screen::Playlist;
    assert(app@ =~~= spec_error_key(old(app)@));
}

/// Handles a key on the add-song form.
pub fn handle_add_song_key(app: &mut App, key: KeyPress)
    ensures
        final(app)@ == spec_add_song_key(old(app)@, key),
{
    match key.key {
        Key::Esc => {
            app.screen = Screen::Playlist;
            app.status_message = None;
        },
        Key::Tab => {
            app.input_focus = match app.input_focus {
                InputField::Url => InputField::Alias,
                InputField::Alias => InputField::Url,
            };
        },
        Key::Enter => {
            app.add_song();
        },
        Key::Char(c) => match app.input_focus {
            InputField::Url => push_char(&mut app.input_url, c),
            InputField::Alias => push_char(&mut app.input_alias, c),
        },
        Key::Backspace => match app.input_focus {
            InputField::Url => pop_char(&mut app.input_url),
            InputField::Alias => pop_char(&mut app.input_alias),
        },
        _ => {},
    }
    assert(app@ =~~= spec_add_song_key(old(app)@, key));
}

/// Handles a key on the screen shown.
pub fn handle_key(app: &mut App, key: KeyPress)
    requires
        spec_key_ok(old(app)@, key),
    ensures
        exists|now: Instant| final(app)@ == spec_key(old(app)@, key, now),
{
    match app.screen {
        Screen::Playlist => {
            handle_playlist_key(app, key);
            let ghost now = choose|now: Instant|
                app@ == spec_playlist_key(old(app)@, key, now);
            assert(app@ == spec_key(old(app)@, key, now));
        },
        Screen::AddSong => {
            handle_add_song_key(app, key);
            assert(app@ == spec_key(old(app)@, key, arbitrary()));
        },
        Screen::EditAlias => {
            handle_edit_alias_key(app, key);
            assert(app@ == spec_key(old(app)@, key, arbitrary()));
        },
        Screen::ConfirmDelete => {
            handle_confirm_delete_key(app, key);
            assert(app@ == spec_key(old(app)@, key, arbitrary()));
        },
        Screen::Error => {
            handle_error_key(app, key);
            assert(app@ == spec_key(old(app)@, key, arbitrary()));
        },
    }
}

/// Whether the screen shown can handle `key` within bounds.
pub fn key_ok(app: &App, key: KeyPress) -> (b: bool)
    ensures
        b == spec_key_ok(app@, key),
{
    if app.screen != Screen::Playlist {
        return true;
    }
    let up_ok = !(key.key == Key::Up && key.alt) || app.playlist.songs.len() < 2
        || app.selected_index == 0 || app.selected_index < app.playlist.songs.len();
    let down_ok = !((key.key == Key::Down && !key.alt) || key.key == Key::Char('j'))
        || app.selected_index < usize::MAX;
    up_ok && down_ok
}

} // verus!
