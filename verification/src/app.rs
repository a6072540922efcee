//! The application state and every change that a key, a player event or
//! the clock makes to it.
//!
//! Each change is stated as a function on [`AppView`], the mathematical
//! value of an [`App`]; each method's contract says that it performs that
//! function. Commands for the playback thread go to the [`Player`] held in
//! the state, and a save of the playlist that a change calls for is
//! recorded in `pending_save` for the caller to perform.

use crate::player::{Player, PlayerCommand, PlayerCommandView, PlayerEvent, PlayerEventView};
pub use crate::playlist::PlayMode;
use crate::playlist::{
    find_alias, lemma_find_alias, lemma_set_position_of, next_song_index, opt_text_view, set_position_of,
    spec_find_alias, spec_next_index_ok, spec_set_position_of, songs_view, Playlist,
    PlaylistView, Song, SongView,
};
use crate::text::{
    parse_usize, push_char, push_decimal, spec_decimal, spec_parse_usize, spec_starts_with,
    spec_trim, starts_with, trim,
};
use std::time::Instant;
use vstd::prelude::*;

verus! {

broadcast use lemma_set_position_of;

#[verifier::external_type_specification]
#[verifier::external_body]
pub struct ExInstant(Instant);

/// The current time (`Instant::now`); no clause states which it is.
#[verifier::external_body]
fn instant_now() -> Instant {
    Instant::now()
}

/// The milliseconds elapsed since `start` (`Instant::elapsed`, read with
/// `Duration::as_millis`); no clause states how many, as that depends on
/// the clock.
#[verifier::external_body]
fn elapsed_millis(start: &Instant) -> u128 {
    start.elapsed().as_millis()
}

/// Which screen the interface shows.
#[derive(Debug, Clone, Copy, PartialEq, Eq, Structural)]
pub enum Screen {
    Playlist,
    AddSong,
    EditAlias,
    ConfirmDelete,
    Error,
}

/// Which field of the add-song form has the focus.
#[derive(Debug, Clone, Copy, PartialEq, Eq, Structural)]
pub enum InputField {
    Url,
    Alias,
}

/// Whether the playlist is to be written to storage, and what a failure
/// to write it does: nothing but a note (`Quiet`), or a status message
/// (`Report`, see [`App::report_save_error`]).
#[derive(Debug, Clone, Copy, PartialEq, Eq, Structural)]
pub enum SaveRequest {
    NotNeeded,
    Quiet,
    Report,
}

/// The stronger of two save requests.
pub open spec fn spec_max_save(a: SaveRequest, b: SaveRequest) -> SaveRequest {
    if a == SaveRequest::Report || b == SaveRequest::Report {
        SaveRequest::Report
    } else if a == SaveRequest::Quiet || b == SaveRequest::Quiet {
        SaveRequest::Quiet
    } else {
        SaveRequest::NotNeeded
    }
}

fn max_save(a: SaveRequest, b: SaveRequest) -> (r: SaveRequest)
    ensures
        r == spec_max_save(a, b),
{
    match (a, b) {
        (SaveRequest::Report, _) | (_, SaveRequest::Report) => SaveRequest::Report,
        (SaveRequest::Quiet, _) | (_, SaveRequest::Quiet) => SaveRequest::Quiet,
        _ => SaveRequest::NotNeeded,
    }
}

/// The state of the interface. Positions and durations are in milliseconds.
pub struct App {
    pub playlist: Playlist,
    pub player: Player,
    pub screen: Screen,
    pub selected_index: usize,
    pub current_song: Option<String>,
    pub is_paused: bool,
    pub is_buffering: bool,
    pub current_position: u64,
    pub total_duration: u64,
    pub status_message: Option<String>,
    pub input_url: String,
    pub input_alias: String,
    pub input_focus: InputField,
    pub should_quit: bool,
    pub play_mode: PlayMode,
    pub status_restore: Option<(String, Instant)>,
    pub delete_target: usize,
    pub error_message: String,
    /// Number input buffer for "go to song by number" feature.
    /// When Some, the user is typing a song number.
    pub number_input: Option<String>,
    /// Pending play index when the user quickly requests multiple songs.
    /// Only the last request is kept; previous ones are cancelled.
    pub pending_play_index: Option<usize>,
    /// The save of the playlist that the changes so far call for.
    pub pending_save: SaveRequest,
}

/// The mathematical value of the application state.
#[verifier::ext_equal]
pub struct AppView {
    pub playlist: PlaylistView,
    pub sent: Seq<PlayerCommandView>,
    pub pending_events: Seq<PlayerEventView>,
    pub screen: Screen,
    pub selected_index: usize,
    pub current_song: Option<Seq<char>>,
    pub is_paused: bool,
    pub is_buffering: bool,
    pub current_position: u64,
    pub total_duration: u64,
    pub status_message: Option<Seq<char>>,
    pub input_url: Seq<char>,
    pub input_alias: Seq<char>,
    pub input_focus: InputField,
    pub should_quit: bool,
    pub play_mode: PlayMode,
    pub status_restore: Option<(Seq<char>, Instant)>,
    pub delete_target: usize,
    pub error_message: Seq<char>,
    pub number_input: Option<Seq<char>>,
    pub pending_play_index: Option<usize>,
    pub pending_save: SaveRequest,
}

/// The view of a saved status message and the time it was saved.
pub open spec fn restore_view(r: Option<(String, Instant)>) -> Option<(Seq<char>, Instant)> {
    match r {
        Some((p, t)) => Some((p@, t)),
        None => None,
    }
}

impl View for App {
    type V = AppView;

    open spec fn view(&self) -> AppView {
        AppView {
            playlist: self.playlist@,
            sent: self.player.sent(),
            pending_events: self.player.pending(),
            screen: self.screen,
            selected_index: self.selected_index,
            current_song: opt_text_view(self.current_song),
            is_paused: self.is_paused,
            is_buffering: self.is_buffering,
            current_position: self.current_position,
            total_duration: self.total_duration,
            status_message: opt_text_view(self.status_message),
            input_url: self.input_url@,
            input_alias: self.input_alias@,
            input_focus: self.input_focus,
            should_quit: self.should_quit,
            play_mode: self.play_mode,
            status_restore: restore_view(self.status_restore),
            delete_target: self.delete_target,
            error_message: self.error_message@,
            number_input: opt_text_view(self.number_input),
            pending_play_index: self.pending_play_index,
            pending_save: self.pending_save,
        }
    }
}

/// The hint shown for an empty playlist.
pub open spec fn msg_add_hint() -> Seq<char> {
    "Press [a] to add a URL to play"@
}

/// The hint shown for a playlist with songs.
pub open spec fn msg_play_hint() -> Seq<char> {
    "Press [Enter] to play"@
}

/// The message for the dialog shown when a song cannot be played.
pub open spec fn msg_cannot_play() -> Seq<char> {
    "Cannot play. Please confirm the URL has an music stream."@
}

/// The name of a play mode as the status line shows it.
pub open spec fn spec_mode_name(m: PlayMode) -> Seq<char> {
    match m {
        PlayMode::RepeatOne => "Repeat One"@,
        PlayMode::Sequential => "Sequential"@,
        PlayMode::Shuffle => "Shuffle"@,
    }
}

/// The mode that follows `m` in the cycle Sequential, Shuffle, Repeat One.
pub open spec fn spec_next_mode(m: PlayMode) -> PlayMode {
    match m {
        PlayMode::RepeatOne => PlayMode::Sequential,
        PlayMode::Sequential => PlayMode::Shuffle,
        PlayMode::Shuffle => PlayMode::RepeatOne,
    }
}

/// Whether a player error means that the song itself cannot be played.
pub open spec fn spec_is_stream_failure(msg: Seq<char>) -> bool {
    spec_starts_with(msg, "Stream error:"@) || spec_starts_with(msg, "Audio download error:"@)
}

/// `p` clamped to `0..=total`.
pub open spec fn spec_clamp_seek(p: int, total: u64) -> u64 {
    if p <= 0 {
        0
    } else if p >= total {
        total
    } else {
        p as u64
    }
}

/// The status line after a relative seek of `offset` milliseconds.
pub open spec fn spec_seek_message(offset: i64) -> Seq<char> {
    if offset < 0 {
        "Seek: "@ + spec_decimal(((-offset) / 1000) as nat) + "s back"@
    } else {
        "Seek: "@ + spec_decimal((offset / 1000) as nat) + "s forward"@
    }
}

/// Whether replying to `Finished` in `mode` with `len > 0` songs and
/// `sel` selected stays in bounds.
pub open spec fn spec_finish_ok(mode: PlayMode, len: nat, sel: usize) -> bool {
    match mode {
        PlayMode::RepeatOne => sel < len,
        PlayMode::Sequential => sel < usize::MAX,
        PlayMode::Shuffle => true,
    }
}

/// Whether replying to the events `evs` stays in bounds, where `sel` is
/// selected and `pend` is pending: only `Stopped` moves the selection (to
/// the pending request) before the first `Finished`, and after it the
/// selection is a song that exists.
pub open spec fn spec_safe_from(
    mode: PlayMode,
    len: nat,
    sel: usize,
    pend: Option<usize>,
    evs: Seq<PlayerEventView>,
) -> bool
    decreases evs.len(),
{
    if evs.len() == 0 {
        true
    } else {
        match evs[0] {
            PlayerEventView::Finished => len == 0 || spec_finish_ok(mode, len, sel),
            PlayerEventView::Stopped => match pend {
                Some(i) => spec_safe_from(mode, len, i, None, evs.drop_first()),
                None => spec_safe_from(mode, len, sel, None, evs.drop_first()),
            },
            _ => spec_safe_from(mode, len, sel, pend, evs.drop_first()),
        }
    }
}

impl AppView {
    /// The number of songs.
    pub open spec fn len(self) -> nat {
        self.playlist.songs.len()
    }

    /// This state with `msg` as its status line.
    pub open spec fn with_status(self, msg: Seq<char>) -> AppView {
        AppView { status_message: Some(msg), ..self }
    }

    /// This state with a save of the playlist requested.
    pub open spec fn request_save(self, kind: SaveRequest) -> AppView {
        AppView { pending_save: spec_max_save(self.pending_save, kind), ..self }
    }

    /// This state with `cmd` sent to the playback thread.
    pub open spec fn send(self, cmd: PlayerCommandView) -> AppView {
        AppView { sent: self.sent.push(cmd), ..self }
    }

    /// This state with the first song named `alias` moved to `pos`.
    pub open spec fn set_position(self, alias: Seq<char>, pos: u64) -> AppView {
        AppView {
            playlist: PlaylistView {
                songs: spec_set_position_of(self.playlist.songs, alias, pos),
                ..self.playlist
            },
            ..self
        }
    }

    /// The current song's resume point set to the current position.
    pub open spec fn spec_save_position(self) -> AppView {
        match self.current_song {
            Some(a) => self.set_position(a, self.current_position),
            None => self,
        }
    }

    /// Playing the selected song: the pending request is dropped, the
    /// position of what played is kept, and a song that exists at the
    /// selected index is requested from the player.
    pub open spec fn spec_play_selected(self) -> AppView {
        let s = AppView { pending_play_index: None, ..self }.spec_save_position().request_save(
            SaveRequest::Quiet,
        );
        if s.selected_index < s.len() {
            let song = s.playlist.songs[s.selected_index as int];
            AppView {
                is_buffering: true,
                current_song: Some(song.alias),
                current_position: 0,
                total_duration: 0,
                ..s
            }.with_status("Downloading: "@ + song.alias + " ..."@).send(
                PlayerCommandView::Play(song),
            )
        } else {
            s
        }
    }

    /// The state when it is first built from a playlist and a player.
    pub open spec fn spec_new(
        playlist: PlaylistView,
        sent: Seq<PlayerCommandView>,
        pending: Seq<PlayerEventView>,
    ) -> AppView {
        AppView {
            playlist,
            sent,
            pending_events: pending,
            screen: Screen::Playlist,
            selected_index: match playlist.last_played_alias {
                Some(a) => match spec_find_alias(playlist.songs, a) {
                    Some(i) => i as usize,
                    None => 0,
                },
                None => 0,
            },
            current_song: None,
            is_paused: false,
            is_buffering: false,
            current_position: 0,
            total_duration: 0,
            status_message: Some(
                if playlist.songs.len() == 0 {
                    msg_add_hint()
                } else {
                    msg_play_hint()
                },
            ),
            input_url: seq![],
            input_alias: seq![],
            input_focus: InputField::Url,
            should_quit: false,
            play_mode: playlist.play_mode,
            status_restore: None,
            delete_target: 0,
            error_message: seq![],
            number_input: None,
            pending_play_index: None,
            pending_save: SaveRequest::NotNeeded,
        }
    }

    /// `Stopped`: a pending request, if any, is played now.
    pub open spec fn spec_on_stopped(self) -> AppView {
        match self.pending_play_index {
            Some(idx) => AppView {
                pending_play_index: None,
                selected_index: idx,
                ..self
            }.spec_play_selected(),
            None => self,
        }
    }

    /// `Buffering(alias)`.
    pub open spec fn spec_on_buffering(self, alias: Seq<char>) -> AppView {
        AppView { is_buffering: true, current_song: Some(alias), ..self }.with_status(
            "Downloading: "@ + alias,
        )
    }

    /// `Started(alias, duration)`: a known duration replaces the shown one.
    pub open spec fn spec_on_started(self, alias: Seq<char>, duration: u64) -> AppView {
        AppView {
            is_buffering: false,
            current_song: Some(alias),
            is_paused: false,
            total_duration: if duration > 0 {
                duration
            } else {
                self.total_duration
            },
            ..self
        }.with_status("Now playing: "@ + alias)
    }

    /// `Position(pos)`.
    pub open spec fn spec_on_position(self, pos: u64) -> AppView {
        AppView { current_position: pos, ..self }
    }

    /// `Paused`: the position is kept as the song's resume point.
    pub open spec fn spec_on_paused(self) -> AppView {
        AppView { is_paused: true, ..self }.spec_save_position().with_status("Paused"@)
    }

    /// `Resumed`.
    pub open spec fn spec_on_resumed(self) -> AppView {
        AppView { is_paused: false, ..self }.with_status("Resumed"@)
    }

    /// `Finished`, with `next` the index that follows the selected one:
    /// the finished song starts over next time, and the next song plays.
    pub open spec fn spec_on_finished(self, next: usize) -> AppView {
        let s1 = match self.current_song {
            Some(a) => self.set_position(a, 0),
            None => self,
        }.request_save(SaveRequest::Quiet);
        let s2 = AppView {
            current_song: None,
            is_paused: false,
            is_buffering: false,
            current_position: 0,
            ..s1
        };
        if s2.len() == 0 {
            s2.with_status("No songs. Press [a] to add a URL."@)
        } else {
            let s3 = AppView { selected_index: next, ..s2 }.spec_play_selected();
            s3.with_status("Auto-playing next: "@ + s3.playlist.songs[next as int].alias)
        }
    }

    /// `Error(msg)`: a song that cannot be played opens the error dialog and
    /// stops; any other error goes to the status line.
    pub open spec fn spec_on_player_error(self, msg: Seq<char>) -> AppView {
        let s = AppView { is_buffering: false, ..self };
        if spec_is_stream_failure(msg) {
            AppView {
                screen: Screen::Error,
                error_message: msg_cannot_play(),
                status_message: None,
                current_song: None,
                is_paused: false,
                current_position: 0,
                total_duration: 0,
                ..s
            }
        } else {
            s.with_status("Error: "@ + msg)
        }
    }

    /// Whether `next` may follow the selected song once one finishes.
    pub open spec fn spec_next_ok(self, next: usize) -> bool {
        self.len() > 0 ==> spec_next_index_ok(
            self.play_mode,
            self.selected_index as nat,
            self.len(),
            next as nat,
        )
    }

    /// The reply to event `ev`; `next` is the song index drawn where `ev`
    /// is `Finished`.
    pub open spec fn spec_on_event(self, ev: PlayerEventView, next: usize) -> AppView {
        match ev {
            PlayerEventView::Buffering(a) => self.spec_on_buffering(a),
            PlayerEventView::Started(a, d) => self.spec_on_started(a, d),
            PlayerEventView::Position(p) => self.spec_on_position(p),
            PlayerEventView::Paused => self.spec_on_paused(),
            PlayerEventView::Resumed => self.spec_on_resumed(),
            PlayerEventView::Finished => self.spec_on_finished(next),
            PlayerEventView::Stopped => self.spec_on_stopped(),
            PlayerEventView::Error(m) => self.spec_on_player_error(m),
        }
    }

    /// Reading the oldest pending event and replying to it.
    pub open spec fn spec_poll_step(self, next: usize) -> AppView {
        AppView { pending_events: self.pending_events.drop_first(), ..self }.spec_on_event(
            self.pending_events[0],
            next,
        )
    }

    /// Whether `next` is a valid draw for the step that reads the oldest
    /// pending event.
    pub open spec fn spec_poll_step_ok(self, next: usize) -> bool {
        self.pending_events.len() > 0 && (self.pending_events[0] == PlayerEventView::Finished
            ==> self.spec_next_ok(next))
    }

    /// Whether replying to a `Finished` event in this state stays in bounds:
    /// in repeat-one mode the selected song exists, in sequential mode the
    /// index after it is representable.
    pub open spec fn spec_finish_safe(self) -> bool {
        self.len() > 0 ==> spec_finish_ok(self.play_mode, self.len(), self.selected_index)
    }

    /// Whether reading all pending events stays in bounds.
    pub open spec fn spec_poll_safe(self) -> bool {
        spec_safe_from(
            self.play_mode,
            self.len(),
            self.selected_index,
            self.pending_play_index,
            self.pending_events,
        )
    }

    /// The playlist's `last_played_alias` set to the current song, or else
    /// to the selected one where it exists.
    pub open spec fn spec_save_last_played(self) -> AppView {
        let alias = match self.current_song {
            Some(a) => Some(a),
            None => if self.selected_index < self.len() {
                Some(self.playlist.songs[self.selected_index as int].alias)
            } else {
                None
            },
        };
        AppView { playlist: PlaylistView { last_played_alias: alias, ..self.playlist }, ..self }
    }

    /// Restarting the current song, if any, from its beginning.
    pub open spec fn spec_reset_position(self) -> AppView {
        match self.current_song {
            None => self,
            Some(a) => {
                let s1 = match spec_find_alias(self.playlist.songs, a) {
                    Some(i) => AppView { selected_index: i as usize, ..self },
                    None => self,
                };
                let s2 = s1.set_position(a, 0).request_save(SaveRequest::Quiet);
                AppView {
                    current_position: 0,
                    is_paused: false,
                    ..s2
                }.spec_play_selected().with_status("Restarting from beginning"@)
            },
        }
    }

    /// Adding the song of the add-song form: both fields, trimmed, must be
    /// non-empty and the alias new; then the song is appended with no
    /// resume point, the form cleared and the playlist shown.
    pub open spec fn spec_add_song(self) -> AppView {
        let url = spec_trim(self.input_url);
        let alias = spec_trim(self.input_alias);
        if url.len() == 0 || alias.len() == 0 {
            self.with_status("Both URL and alias are required"@)
        } else if exists|i: int| 0 <= i < self.len() && #[trigger] self.playlist.songs[i].alias == alias {
            self.with_status("Alias already exists"@)
        } else {
            AppView {
                playlist: PlaylistView {
                    songs: self.playlist.songs.push(SongView { url, alias, last_position: 0 }),
                    ..self.playlist
                },
                input_url: seq![],
                input_alias: seq![],
                screen: Screen::Playlist,
                ..self
            }.request_save(SaveRequest::Report).with_status("Song added"@)
        }
    }

    /// Deleting the selected song, if it exists: playback stops where it is
    /// the current song, and the selection stays on a song where one remains.
    pub open spec fn spec_delete_selected(self) -> AppView {
        if self.selected_index >= self.len() {
            self
        } else {
            let i = self.selected_index as int;
            let s1 = if self.current_song == Some(self.playlist.songs[i].alias) {
                AppView {
                    current_song: None,
                    is_paused: false,
                    is_buffering: false,
                    current_position: 0,
                    total_duration: 0,
                    ..self
                }.send(PlayerCommandView::Stop)
            } else {
                self
            };
            let songs = s1.playlist.songs.remove(i);
            let sel = if i > 0 && i >= songs.len() {
                if songs.len() == 0 {
                    0
                } else {
                    (songs.len() - 1) as usize
                }
            } else {
                self.selected_index
            };
            AppView {
                playlist: PlaylistView { songs, ..s1.playlist },
                selected_index: sel,
                ..s1
            }.request_save(SaveRequest::Report)
        }
    }

    /// Opening the alias editor on the selected song, if it exists.
    pub open spec fn spec_edit_selected(self) -> AppView {
        if self.selected_index < self.len() {
            let song = self.playlist.songs[self.selected_index as int];
            AppView {
                input_url: song.url,
                input_alias: song.alias,
                input_focus: InputField::Alias,
                screen: Screen::EditAlias,
                status_message: None,
                ..self
            }
        } else {
            self
        }
    }

    /// The songs at `i` and `j` exchanged.
    pub open spec fn swap_songs(self, i: int, j: int) -> AppView {
        let songs = self.playlist.songs;
        AppView {
            playlist: PlaylistView {
                songs: songs.update(i, songs[j]).update(j, songs[i]),
                ..self.playlist
            },
            ..self
        }
    }

    /// Moving the selected song one place up, with the selection.
    pub open spec fn spec_move_song_up(self) -> AppView {
        if self.len() < 2 || self.selected_index == 0 {
            self
        } else {
            let i = self.selected_index;
            AppView {
                selected_index: (i - 1) as usize,
                ..self.swap_songs(i as int, i - 1)
            }.request_save(SaveRequest::Report)
        }
    }

    /// Moving the selected song one place down, with the selection.
    pub open spec fn spec_move_song_down(self) -> AppView {
        if self.len() < 2 || self.selected_index >= self.len() - 1 {
            self
        } else {
            let i = self.selected_index;
            AppView {
                selected_index: (i + 1) as usize,
                ..self.swap_songs(i as int, i + 1)
            }.request_save(SaveRequest::Report)
        }
    }

    /// Renaming the selected song to the trimmed alias of the editor; an
    /// empty alias is refused.
    pub open spec fn spec_update_alias(self) -> AppView {
        let alias = spec_trim(self.input_alias);
        if alias.len() == 0 {
            self.with_status("Alias cannot be empty"@)
        } else {
            let s1 = if self.selected_index < self.len() {
                let i = self.selected_index as int;
                AppView {
                    playlist: PlaylistView {
                        songs: self.playlist.songs.update(
                            i,
                            SongView { alias, ..self.playlist.songs[i] },
                        ),
                        ..self.playlist
                    },
                    ..self
                }
            } else {
                self
            };
            AppView { screen: Screen::Playlist, ..s1 }.request_save(
                SaveRequest::Report,
            ).with_status("Alias updated"@)
        }
    }

    /// Switching to the next play mode at time `now`: the status line names
    /// the mode, and the message it replaced is kept to be restored.
    pub open spec fn spec_cycle_play_mode(self, now: Instant) -> AppView {
        let m = spec_next_mode(self.play_mode);
        let prev = match self.status_message {
            Some(p) => p,
            None => seq![],
        };
        AppView {
            play_mode: m,
            playlist: PlaylistView { play_mode: m, ..self.playlist },
            status_restore: Some((prev, now)),
            ..self
        }.request_save(SaveRequest::Quiet).with_status("Mode: "@ + spec_mode_name(m))
    }

    /// The saved status message put back once `elapsed` milliseconds, at
    /// least one second, have passed since it was saved.
    pub open spec fn spec_status_timer(self, elapsed: u128) -> AppView {
        match self.status_restore {
            Some((prev, _)) => if elapsed >= 1000 {
                AppView {
                    status_message: if prev.len() == 0 {
                        None
                    } else {
                        Some(prev)
                    },
                    status_restore: None,
                    ..self
                }
            } else {
                self
            },
            None => self,
        }
    }

    /// Seeking `offset` milliseconds from the current position, within the
    /// song's duration, where a song is current.
    pub open spec fn spec_seek_relative(self, offset: i64) -> AppView {
        match self.current_song {
            None => self,
            Some(_) => {
                let p = spec_clamp_seek(self.current_position + offset, self.total_duration);
                AppView { current_position: p, ..self.send(PlayerCommandView::SeekTo(p)) }.with_status(
                    spec_seek_message(offset),
                )
            },
        }
    }

    /// Moving the selection up, not past the first song.
    pub open spec fn spec_select_up(self) -> AppView {
        if self.selected_index > 0 {
            AppView { selected_index: (self.selected_index - 1) as usize, ..self }
        } else {
            self
        }
    }

    /// Moving the selection down, not past the last song.
    pub open spec fn spec_select_down(self) -> AppView {
        if self.selected_index + 1 < self.len() {
            AppView { selected_index: (self.selected_index + 1) as usize, ..self }
        } else {
            self
        }
    }

    /// Starting a song number with `digit`.
    pub open spec fn spec_start_number_input(self, digit: char) -> AppView {
        AppView { number_input: Some(seq![digit]), ..self }.with_status("Go to: "@ + seq![digit])
    }

    /// Adding `digit` to the song number being typed, if one is.
    pub open spec fn spec_append_number_input(self, digit: char) -> AppView {
        match self.number_input {
            Some(b) => AppView { number_input: Some(b.push(digit)), ..self }.with_status(
                "Go to: "@ + b.push(digit),
            ),
            None => self,
        }
    }

    /// The song index that the typed number names, where it names one.
    pub open spec fn spec_typed_index(self) -> Option<usize> {
        match self.number_input {
            Some(b) => match spec_parse_usize(b) {
                Some(n) => if 1 <= n <= self.len() {
                    Some((n - 1) as usize)
                } else {
                    None
                },
                None => None,
            },
            None => None,
        }
    }

    /// Confirming the typed song number: a valid number plays its song at
    /// once when nothing plays, else becomes the pending request (replacing
    /// any earlier one) and stops what plays; anything else is refused.
    pub open spec fn spec_confirm_number_input(self) -> AppView {
        let s0 = AppView { number_input: None, ..self };
        match self.spec_typed_index() {
            Some(idx) => if self.current_song is Some || self.is_buffering {
                AppView { pending_play_index: Some(idx), ..s0 }.send(PlayerCommandView::Stop)
            } else {
                AppView { selected_index: idx, pending_play_index: None, ..s0 }.spec_play_selected()
            },
            None => AppView { pending_play_index: None, ..s0 }.with_status(
                "Invalid song number"@,
            ),
        }
    }

    /// The status line that describes what plays.
    pub open spec fn spec_playing_status(self) -> Seq<char> {
        if self.len() == 0 {
            msg_add_hint()
        } else {
            match self.current_song {
                Some(a) => if self.is_paused {
                    "Paused: "@ + a
                } else if self.is_buffering {
                    "Downloading: "@ + a + " ..."@
                } else {
                    "Now playing: "@ + a
                },
                None => msg_play_hint(),
            }
        }
    }

    /// Dropping the song number being typed and any pending request.
    pub open spec fn spec_cancel_number_input(self) -> AppView {
        AppView { number_input: None, pending_play_index: None, ..self }.with_status(
            self.spec_playing_status(),
        )
    }

    /// Whether `t` is what `k` steps of reading events lead to from here.
    pub open spec fn spec_polled(self, t: AppView, k: nat) -> bool
        decreases k,
    {
        if k == 0 {
            t == self
        } else {
            exists|mid: AppView, next: usize|
                self.spec_polled(mid, (k - 1) as nat) && #[trigger] mid.spec_poll_step_ok(next)
                    && t == mid.spec_poll_step(next)
        }
    }
}

impl App {
    /// The state built from a loaded playlist and the exchange with the
    /// playback thread: the song played last is selected, and the status
    /// line says what to press.
    pub fn new(playlist: Playlist, player: Player) -> (app: App)
        ensures
            app@ == AppView::spec_new(playlist@, player.sent(), player.pending()),
    {
        let selected_index = match &playlist.last_played_alias {
            Some(alias) => match find_alias(&playlist.songs, alias) {
                Some(i) => i,
                None => 0,
            },
            None => 0,
        };
        let status_message = if playlist.songs.len() == 0 {
            Some(String::from_str("Press [a] to add a URL to play"))
        } else {
            Some(String::from_str("Press [Enter] to play"))
        };
        let play_mode = playlist.play_mode;
        let app = App {
            playlist,
            player,
            screen: Screen::Playlist,
            selected_index,
            current_song: None,
            is_paused: false,
            is_buffering: false,
            current_position: 0,
            total_duration: 0,
            status_message,
            input_url: String::new(),
            input_alias: String::new(),
            input_focus: InputField::Url,
            should_quit: false,
            play_mode,
            status_restore: None,
            delete_target: 0,
            error_message: String::new(),
            number_input: None,
            pending_play_index: None,
            pending_save: SaveRequest::NotNeeded,
        };
        assert(app@ =~~= AppView::spec_new(playlist@, player.sent(), player.pending()));
        app
    }

    /// Records that the playlist is to be saved, as `kind` says.
    pub fn request_save(&mut self, kind: SaveRequest)
        ensures
            final(self)@ == old(self)@.request_save(kind),
    {
        self.pending_save = max_save(self.pending_save, kind);
        assert(self@ =~~= old(self)@.request_save(kind));
    }

    fn set_status(&mut self, msg: String)
        ensures
            final(self)@ == old(self)@.with_status(msg@),
    {
        self.status_message = Some(msg);
        assert(self@ =~~= old(self)@.with_status(msg@));
    }

    /// Hands over the save that the changes so far call for; none remains.
    pub fn take_save_request(&mut self) -> (r: SaveRequest)
        ensures
            r == old(self).pending_save,
            final(self)@ == (AppView { pending_save: SaveRequest::NotNeeded, ..old(self)@ }),
    {
        let r = self.pending_save;
        self.pending_save = SaveRequest::NotNeeded;
        assert(self@ =~~= AppView { pending_save: SaveRequest::NotNeeded, ..old(self)@ });
        r
    }

    /// A failed save that asked for a report: the status line says so.
    pub fn report_save_error(&mut self, err: &str)
        ensures
            final(self)@ == old(self)@.with_status("Save error: "@ + err@),
    {
        let mut m = String::from_str("Save error: ");
        m.append(err);
        self.set_status(m);
    }

    fn save_current_position(&mut self)
        ensures
            final(self)@ == old(self)@.spec_save_position(),
    {
        match &self.current_song {
            Some(alias) => {
                set_position_of(&mut self.playlist.songs, alias, self.current_position);
            },
            None => {},
        }
        assert(self@ =~~= old(self)@.spec_save_position());
    }

    /// Keeps the current position as the current song's resume point.
    pub fn save_current_position_quiet(&mut self)
        ensures
            final(self)@ == old(self)@.spec_save_position(),
    {
        self.save_current_position();
    }

    /// Plays the selected song: drops a pending request, keeps the position
    /// of what played, and asks the player for the selected song.
    pub fn play_selected(&mut self)
        ensures
            final(self)@ == old(self)@.spec_play_selected(),
    {
        self.pending_play_index = None;
        self.save_current_position();
        self.request_save(SaveRequest::Quiet);
        let ghost s = self@;
        if self.selected_index < self.playlist.songs.len() {
            let song = self.playlist.songs[self.selected_index].clone();
            assert(song@ == s.playlist.songs[s.selected_index as int]);
            self.is_buffering = true;
            self.current_song = Some(song.alias.clone());
            self.current_position = 0;
            self.total_duration = 0;
            let mut m = String::from_str("Downloading: ");
            m.append(song.alias.as_str());
            m.append(" ...");
            self.set_status(m);
            self.player.send(PlayerCommand::Play(song));
        }
        assert(self@ =~~= old(self)@.spec_play_selected());
    }
}


impl App {
    /// Keeps the current song, or else the selected one, as the song played
    /// last.
    pub fn save_last_played(&mut self)
        ensures
            final(self)@ == old(self)@.spec_save_last_played(),
    {
        let alias = match &self.current_song {
            Some(a) => Some(a.clone()),
            None => if self.selected_index < self.playlist.songs.len() {
                Some(self.playlist.songs[self.selected_index].alias.clone())
            } else {
                None
            },
        };
        self.playlist.last_played_alias = alias;
        assert(self@ =~~= old(self)@.spec_save_last_played());
    }

    /// Restarts the current song, if any, from its beginning.
    pub fn reset_position(&mut self)
        ensures
            final(self)@ == old(self)@.spec_reset_position(),
    {
        let current = self.current_song.clone();
        if let Some(alias) = current {
            proof {
                lemma_find_alias(self@.playlist.songs, alias@);
            }
            if let Some(idx) = find_alias(&self.playlist.songs, &alias) {
                self.selected_index = idx;
            }
            set_position_of(&mut self.playlist.songs, &alias, 0);
            self.request_save(SaveRequest::Quiet);
            self.current_position = 0;
            self.is_paused = false;
            self.play_selected();
            self.set_status(String::from_str("Restarting from beginning"));
        }
        assert(self@ =~~= old(self)@.spec_reset_position());
    }

    /// Asks the player to pause what plays, or to resume it.
    pub fn toggle_pause(&mut self)
        ensures
            final(self)@ == old(self)@.send(PlayerCommandView::PauseResume),
    {
        self.player.send(PlayerCommand::PauseResume);
        assert(self@ =~~= old(self)@.send(PlayerCommandView::PauseResume));
    }

    /// Adds the song of the add-song form.
    pub fn add_song(&mut self)
        ensures
            final(self)@ == old(self)@.spec_add_song(),
    {
        let url = trim(self.input_url.as_str());
        let alias = trim(self.input_alias.as_str());
        if url.unicode_len() == 0 || alias.unicode_len() == 0 {
            self.set_status(String::from_str("Both URL and alias are required"));
            return;
        }
        proof {
            lemma_find_alias(self@.playlist.songs, alias@);
        }
        if find_alias(&self.playlist.songs, &alias).is_some() {
            self.set_status(String::from_str("Alias already exists"));
            return;
        }
        let ghost new_song = SongView { url: url@, alias: alias@, last_position: 0 };
        self.playlist.songs.push(Song { url, alias, last_position: 0 });
        assert(songs_view(self.playlist.songs@) =~= old(self)@.playlist.songs.push(new_song));
        self.request_save(SaveRequest::Report);
        self.set_status(String::from_str("Song added"));
        self.input_url = String::new();
        self.input_alias = String::new();
        self.screen = Screen::Playlist;
        assert(self@ =~~= old(self)@.spec_add_song());
    }

    /// Deletes the selected song, if it exists.
    pub fn delete_selected(&mut self)
        ensures
            final(self)@ == old(self)@.spec_delete_selected(),
    {
        if self.selected_index >= self.playlist.songs.len() {
            return;
        }
        let is_current = match &self.current_song {
            Some(alias) => self.playlist.songs[self.selected_index].alias == *alias,
            None => false,
        };
        if is_current {
            self.player.send(PlayerCommand::Stop);
            self.current_song = None;
            self.is_paused = false;
            self.is_buffering = false;
            self.current_position = 0;
            self.total_duration = 0;
        }
        let ghost s1 = self@;
        self.playlist.songs.remove(self.selected_index);
        assert(songs_view(self.playlist.songs@) =~= s1.playlist.songs.remove(
            self.selected_index as int,
        ));
        if self.selected_index > 0 && self.selected_index >= self.playlist.songs.len() {
            self.selected_index = if self.playlist.songs.len() == 0 {
                0
            } else {
                self.playlist.songs.len() - 1
            };
        }
        self.request_save(SaveRequest::Report);
        assert(self@ =~~= old(self)@.spec_delete_selected());
    }

    /// Opens the alias editor on the selected song, if it exists.
    pub fn edit_selected(&mut self)
        ensures
            final(self)@ == old(self)@.spec_edit_selected(),
    {
        if self.selected_index < self.playlist.songs.len() {
            let url = self.playlist.songs[self.selected_index].url.clone();
            let alias = self.playlist.songs[self.selected_index].alias.clone();
            self.input_url = url;
            self.input_alias = alias;
            self.input_focus = InputField::Alias;
            self.screen = Screen::EditAlias;
            self.status_message = None;
        }
        assert(self@ =~~= old(self)@.spec_edit_selected());
    }

    fn swap_adjacent(&mut self, i: usize)
        requires
            i + 1 < old(self).playlist.songs@.len(),
        ensures
            final(self)@ == old(self)@.swap_songs(i as int, i + 1),
    {
        let n = self.playlist.songs.len();
        assert(i + 1 < n);
        let song = self.playlist.songs.remove(i);
        self.playlist.songs.insert(i + 1, song);
        assert(songs_view(self.playlist.songs@) =~= old(self)@.swap_songs(
            i as int,
            i + 1,
        ).playlist.songs);
        assert(self@ =~~= old(self)@.swap_songs(i as int, i + 1));
    }

    /// Moves the selected song one place up, with the selection.
    pub fn move_song_up(&mut self)
        requires
            old(self).playlist.songs@.len() < 2 || old(self).selected_index == 0
                || old(self).selected_index < old(self).playlist.songs@.len(),
        ensures
            final(self)@ == old(self)@.spec_move_song_up(),
    {
        if self.playlist.songs.len() < 2 || self.selected_index == 0 {
            return;
        }
        let i = self.selected_index;
        self.swap_adjacent(i - 1);
        assert(old(self)@.swap_songs(i - 1, i as int).playlist.songs =~= old(self)@.swap_songs(
            i as int,
            i - 1,
        ).playlist.songs);
        assert(old(self)@.swap_songs(i - 1, i as int) =~~= old(self)@.swap_songs(i as int, i - 1));
        self.selected_index = i - 1;
        self.request_save(SaveRequest::Report);
        assert(self@ =~~= old(self)@.spec_move_song_up());
    }

    /// Moves the selected song one place down, with the selection.
    pub fn move_song_down(&mut self)
        ensures
            final(self)@ == old(self)@.spec_move_song_down(),
    {
        if self.playlist.songs.len() < 2 || self.selected_index >= self.playlist.songs.len() - 1 {
            return;
        }
        let i = self.selected_index;
        self.swap_adjacent(i);
        self.selected_index = i + 1;
        self.request_save(SaveRequest::Report);
        assert(self@ =~~= old(self)@.spec_move_song_down());
    }

    /// Renames the selected song to the trimmed alias of the editor.
    pub fn update_alias(&mut self)
        ensures
            final(self)@ == old(self)@.spec_update_alias(),
    {
        let new_alias = trim(self.input_alias.as_str());
        if new_alias.unicode_len() == 0 {
            self.set_status(String::from_str("Alias cannot be empty"));
            return;
        }
        if self.selected_index < self.playlist.songs.len() {
            let i = self.selected_index;
            let mut song = self.playlist.songs.remove(i);
            song.alias = new_alias;
            self.playlist.songs.insert(i, song);
            assert(songs_view(self.playlist.songs@) =~= old(self)@.playlist.songs.update(
                i as int,
                SongView { alias: spec_trim(old(self)@.input_alias), ..old(self)@.playlist.songs[i as int] },
            ));
        }
        self.request_save(SaveRequest::Report);
        self.set_status(String::from_str("Alias updated"));
        self.screen = Screen::Playlist;
        assert(self@ =~~= old(self)@.spec_update_alias());
    }

    /// Switches to the next play mode; the status line names it for a while.
    pub fn cycle_play_mode(&mut self)
        ensures
            exists|now: Instant| final(self)@ == old(self)@.spec_cycle_play_mode(now),
    {
        let m = match self.play_mode {
            PlayMode::RepeatOne => PlayMode::Sequential,
            PlayMode::Sequential => PlayMode::Shuffle,
            PlayMode::Shuffle => PlayMode::RepeatOne,
        };
        self.play_mode = m;
        self.playlist.play_mode = m;
        self.request_save(SaveRequest::Quiet);
        let name = match m {
            PlayMode::RepeatOne => "Repeat One",
            PlayMode::Sequential => "Sequential",
            PlayMode::Shuffle => "Shuffle",
        };
        let prev = match &self.status_message {
            Some(p) => p.clone(),
            None => String::new(),
        };
        let now = instant_now();
        self.status_restore = Some((prev, now));
        let mut msg = String::from_str("Mode: ");
        msg.append(name);
        self.set_status(msg);
        assert(self@ =~~= old(self)@.spec_cycle_play_mode(now));
    }

    /// Puts the saved status message back once `elapsed` milliseconds, at
    /// least one second, have passed since it was saved.
    pub fn check_status_timer_at(&mut self, elapsed: u128)
        ensures
            final(self)@ == old(self)@.spec_status_timer(elapsed),
    {
        let restore = match &self.status_restore {
            Some((prev, _)) => if elapsed >= 1000 {
                Some(prev.clone())
            } else {
                None
            },
            None => None,
        };
        if let Some(prev) = restore {
            self.status_message = if prev.unicode_len() == 0 {
                None
            } else {
                Some(prev)
            };
            self.status_restore = None;
        }
        assert(self@ =~~= old(self)@.spec_status_timer(elapsed));
    }

    /// Puts the saved status message back once a second has passed since it
    /// was saved, reading the clock.
    pub fn check_status_timer(&mut self)
        ensures
            exists|elapsed: u128| final(self)@ == old(self)@.spec_status_timer(elapsed),
    {
        let elapsed = match &self.status_restore {
            Some((_, start)) => elapsed_millis(start),
            None => 0,
        };
        self.check_status_timer_at(elapsed);
    }

    /// Seeks `offset_ms` milliseconds from the current position, within the
    /// song's duration, where a song is current.
    pub fn seek_relative(&mut self, offset_ms: i64)
        ensures
            final(self)@ == old(self)@.spec_seek_relative(offset_ms),
    {
        if self.current_song.is_none() {
            return;
        }
        let sum: i128 = self.current_position as i128 + offset_ms as i128;
        let new_pos: u64 = if sum <= 0 {
            0
        } else if sum >= self.total_duration as i128 {
            self.total_duration
        } else {
            sum as u64
        };
        self.player.send(PlayerCommand::SeekTo(new_pos));
        self.current_position = new_pos;
        let mut msg = String::from_str("Seek: ");
        if offset_ms < 0 {
            let secs = ((0 - offset_ms as i128) / 1000) as u64;
            push_decimal(&mut msg, secs);
            msg.append("s back");
        } else {
            let secs = (offset_ms / 1000) as u64;
            push_decimal(&mut msg, secs);
            msg.append("s forward");
        }
        self.set_status(msg);
        assert(self@ =~~= old(self)@.spec_seek_relative(offset_ms));
    }

    /// Moves the selection one song up.
    pub fn select_up(&mut self)
        ensures
            final(self)@ == old(self)@.spec_select_up(),
    {
        if self.selected_index > 0 {
            self.selected_index -= 1;
        }
        assert(self@ =~~= old(self)@.spec_select_up());
    }

    /// Moves the selection one song down.
    pub fn select_down(&mut self)
        requires
            old(self).selected_index < usize::MAX,
        ensures
            final(self)@ == old(self)@.spec_select_down(),
    {
        if self.selected_index + 1 < self.playlist.songs.len() {
            self.selected_index += 1;
        }
        assert(self@ =~~= old(self)@.spec_select_down());
    }

    /// Start number input mode with the first digit.
    /// Song numbers are 1-based (1 = first song).
    pub fn start_number_input(&mut self, digit: char)
        ensures
            final(self)@ == old(self)@.spec_start_number_input(digit),
    {
        let mut buf = String::new();
        push_char(&mut buf, digit);
        let mut msg = String::from_str("Go to: ");
        push_char(&mut msg, digit);
        self.number_input = Some(buf);
        self.set_status(msg);
        assert(self@ =~~= old(self)@.spec_start_number_input(digit));
    }

    /// Append a digit to the current number input.
    pub fn append_number_input(&mut self, digit: char)
        ensures
            final(self)@ == old(self)@.spec_append_number_input(digit),
    {
        let typed = match &self.number_input {
            Some(b) => {
                let mut b2 = b.clone();
                push_char(&mut b2, digit);
                Some(b2)
            },
            None => None,
        };
        if let Some(b2) = typed {
            let mut msg = String::from_str("Go to: ");
            msg.append(b2.as_str());
            self.number_input = Some(b2);
            self.set_status(msg);
        }
        assert(self@ =~~= old(self)@.spec_append_number_input(digit));
    }

    /// Confirm number input: parse the number and play the corresponding song.
    /// Song numbers are 1-based (1 = first song).
    /// If a song is currently playing/buffering, stop it and wait for Stopped
    /// before playing the new song. Rapid inputs only keep the last request.
    pub fn confirm_number_input(&mut self)
        ensures
            final(self)@ == old(self)@.spec_confirm_number_input(),
    {
        let buf = self.number_input.take();
        let target = match &buf {
            Some(num_str) => match parse_usize(num_str.as_str()) {
                Some(num) => if num >= 1 && num <= self.playlist.songs.len() {
                    Some(num - 1)
                } else {
                    None
                },
                None => None,
            },
            None => None,
        };
        assert(target == old(self)@.spec_typed_index());
        match target {
            Some(idx) => {
                self.pending_play_index = Some(idx);
                if self.current_song.is_some() || self.is_buffering {
                    self.player.send(PlayerCommand::Stop);
                } else {
                    self.selected_index = idx;
                    self.pending_play_index = None;
                    self.play_selected();
                }
            },
            None => {
                self.pending_play_index = None;
                self.set_status(String::from_str("Invalid song number"));
            },
        }
        assert(self@ =~~= old(self)@.spec_confirm_number_input());
    }

    /// Cancel number input mode and restore status.
    pub fn cancel_number_input(&mut self)
        ensures
            final(self)@ == old(self)@.spec_cancel_number_input(),
    {
        self.number_input = None;
        self.pending_play_index = None;
        let msg = if self.playlist.songs.len() == 0 {
            String::from_str("Press [a] to add a URL to play")
        } else {
            match &self.current_song {
                Some(alias) => if self.is_paused {
                    let mut m = String::from_str("Paused: ");
                    m.append(alias.as_str());
                    m
                } else if self.is_buffering {
                    let mut m = String::from_str("Downloading: ");
                    m.append(alias.as_str());
                    m.append(" ...");
                    m
                } else {
                    let mut m = String::from_str("Now playing: ");
                    m.append(alias.as_str());
                    m
                },
                None => String::from_str("Press [Enter] to play"),
            }
        };
        self.set_status(msg);
        assert(self@ =~~= old(self)@.spec_cancel_number_input());
    }
}


/// The index that follows a song, where the reply to `Finished` stays in
/// bounds, is that of a song that exists.
proof fn lemma_next_in_range(mode: PlayMode, sel: usize, len: nat, next: usize)
    requires
        len > 0,
        spec_next_index_ok(mode, sel as nat, len, next as nat),
        spec_finish_ok(mode, len, sel),
    ensures
        next < len,
{
    if mode == PlayMode::Sequential {
        assert((sel as nat + 1) % len < len) by (nonlinear_arith)
            requires
                len > 0,
        ;
    }
}

/// Replying to events from a settled state (the selection is a song that
/// exists, nothing is pending) stays in bounds.
proof fn lemma_safe_when_settled(
    mode: PlayMode,
    len: nat,
    sel: usize,
    evs: Seq<PlayerEventView>,
)
    requires
        sel < len <= usize::MAX,
    ensures
        spec_safe_from(mode, len, sel, None, evs),
    decreases evs.len(),
{
    if evs.len() > 0 {
        lemma_safe_when_settled(mode, len, sel, evs.drop_first());
    }
}

/// With no songs, replying to events stays in bounds.
proof fn lemma_safe_when_empty(
    mode: PlayMode,
    sel: usize,
    pend: Option<usize>,
    evs: Seq<PlayerEventView>,
)
    ensures
        spec_safe_from(mode, 0, sel, pend, evs),
    decreases evs.len(),
{
    if evs.len() > 0 {
        match pend {
            Some(i) => lemma_safe_when_empty(mode, i, None, evs.drop_first()),
            None => lemma_safe_when_empty(mode, sel, None, evs.drop_first()),
        }
        lemma_safe_when_empty(mode, sel, pend, evs.drop_first());
    }
}

/// One step of reading events keeps the songs and the mode, consumes the
/// oldest event, and keeps the remaining steps in bounds.
proof fn lemma_poll_step(s: AppView, next: usize)
    requires
        s.spec_poll_safe(),
        s.spec_poll_step_ok(next),
        s.len() <= usize::MAX,
    ensures
        s.spec_poll_step(next).pending_events == s.pending_events.drop_first(),
        s.spec_poll_step(next).len() == s.len(),
        s.spec_poll_step(next).spec_poll_safe(),
{
    let t = s.spec_poll_step(next);
    let rest = s.pending_events.drop_first();
    match s.pending_events[0] {
        PlayerEventView::Finished => {
            if s.len() == 0 {
                lemma_safe_when_empty(t.play_mode, t.selected_index, t.pending_play_index, rest);
            } else {
                lemma_next_in_range(s.play_mode, s.selected_index, s.len(), next);
                lemma_safe_when_settled(t.play_mode, t.len(), t.selected_index, rest);
            }
        },
        _ => {},
    }
}

impl App {
    fn on_stopped(&mut self)
        ensures
            final(self)@ == old(self)@.spec_on_stopped(),
    {
        match self.pending_play_index {
            Some(idx) => {
                self.pending_play_index = None;
                self.selected_index = idx;
                self.play_selected();
            },
            None => {},
        }
        assert(self@ =~~= old(self)@.spec_on_stopped());
    }

    fn on_buffering(&mut self, alias: String)
        ensures
            final(self)@ == old(self)@.spec_on_buffering(alias@),
    {
        self.is_buffering = true;
        self.current_song = Some(alias.clone());
        let mut m = String::from_str("Downloading: ");
        m.append(alias.as_str());
        self.set_status(m);
        assert(self@ =~~= old(self)@.spec_on_buffering(alias@));
    }

    fn on_started(&mut self, alias: String, duration: u64)
        ensures
            final(self)@ == old(self)@.spec_on_started(alias@, duration),
    {
        self.is_buffering = false;
        self.current_song = Some(alias.clone());
        self.is_paused = false;
        if duration > 0 {
            self.total_duration = duration;
        }
        let mut m = String::from_str("Now playing: ");
        m.append(alias.as_str());
        self.set_status(m);
        assert(self@ =~~= old(self)@.spec_on_started(alias@, duration));
    }

    fn on_position(&mut self, pos: u64)
        ensures
            final(self)@ == old(self)@.spec_on_position(pos),
    {
        self.current_position = pos;
        assert(self@ =~~= old(self)@.spec_on_position(pos));
    }

    fn on_paused(&mut self)
        ensures
            final(self)@ == old(self)@.spec_on_paused(),
    {
        self.is_paused = true;
        self.save_current_position();
        self.set_status(String::from_str("Paused"));
    }

    fn on_resumed(&mut self)
        ensures
            final(self)@ == old(self)@.spec_on_resumed(),
    {
        self.is_paused = false;
        self.set_status(String::from_str("Resumed"));
        assert(self@ =~~= old(self)@.spec_on_resumed());
    }

    fn on_finished(&mut self)
        requires
            old(self)@.spec_finish_safe(),
        ensures
            exists|next: usize|
                old(self)@.spec_next_ok(next) && final(self)@ == old(self)@.spec_on_finished(next),
    {
        match &self.current_song {
            Some(alias) => {
                set_position_of(&mut self.playlist.songs, alias, 0);
            },
            None => {},
        }
        self.request_save(SaveRequest::Quiet);
        self.current_song = None;
        self.is_paused = false;
        self.is_buffering = false;
        self.current_position = 0;
        if self.playlist.songs.len() == 0 {
            self.set_status(String::from_str("No songs. Press [a] to add a URL."));
            assert(self@ =~~= old(self)@.spec_on_finished(0));
            assert(old(self)@.spec_next_ok(0));
            return;
        }
        let next = next_song_index(self.play_mode, self.selected_index, self.playlist.songs.len());
        proof {
            lemma_next_in_range(self.play_mode, self.selected_index, self@.len(), next);
        }
        self.selected_index = next;
        self.play_selected();
        let mut msg = String::from_str("Auto-playing next: ");
        msg.append(self.playlist.songs[next].alias.as_str());
        self.set_status(msg);
        assert(self@ =~~= old(self)@.spec_on_finished(next));
        assert(old(self)@.spec_next_ok(next));
    }

    fn on_player_error(&mut self, msg: String)
        ensures
            final(self)@ == old(self)@.spec_on_player_error(msg@),
    {
        self.is_buffering = false;
        if starts_with(msg.as_str(), "Stream error:") || starts_with(
            msg.as_str(),
            "Audio download error:",
        ) {
            self.screen = Screen::Error;
            self.error_message = String::from_str(
                "Cannot play. Please confirm the URL has an music stream.",
            );
            self.status_message = None;
            self.current_song = None;
            self.is_paused = false;
            self.current_position = 0;
            self.total_duration = 0;
        } else {
            let mut m = String::from_str("Error: ");
            m.append(msg.as_str());
            self.set_status(m);
        }
        assert(self@ =~~= old(self)@.spec_on_player_error(msg@));
    }

    fn on_event(&mut self, event: PlayerEvent)
        requires
            event@ == PlayerEventView::Finished ==> old(self)@.spec_finish_safe(),
        ensures
            exists|next: usize|
                (event@ == PlayerEventView::Finished ==> old(self)@.spec_next_ok(next))
                    && final(self)@ == #[trigger] old(self)@.spec_on_event(event@, next),
    {
        let ghost ev = event@;
        match event {
            PlayerEvent::Buffering(alias) => self.on_buffering(alias),
            PlayerEvent::Started(alias, duration) => self.on_started(alias, duration),
            PlayerEvent::Position(pos) => self.on_position(pos),
            PlayerEvent::Paused => self.on_paused(),
            PlayerEvent::Resumed => self.on_resumed(),
            PlayerEvent::Finished => {
                self.on_finished();
                let ghost nx = choose|next: usize|
                    old(self)@.spec_next_ok(next) && self@ == old(self)@.spec_on_finished(next);
                assert(self@ == old(self)@.spec_on_event(ev, nx));
                return;
            },
            PlayerEvent::Stopped => self.on_stopped(),
            PlayerEvent::Error(msg) => self.on_player_error(msg),
        }
        assert(self@ == old(self)@.spec_on_event(ev, 0));
    }

    /// Reads every event that the player sent, oldest first, and replies
    /// to each: the interface follows buffering, start, position, pause and
    /// resume; a finished song is followed by the next one of the play mode;
    /// a stop plays the pending request, if any; an error is shown.
    pub fn poll_events(&mut self)
        requires
            old(self)@.spec_poll_safe(),
        ensures
            old(self)@.spec_polled(final(self)@, old(self)@.pending_events.len()),
            final(self)@.pending_events.len() == 0,
    {
        let ghost start = self@;
        let count = self.playlist.songs.len();
        while self.player.pending_len() > 0
            invariant
                start.spec_polled(self@, (start.pending_events.len() - self@.pending_events.len()) as nat),
                self@.pending_events.len() <= start.pending_events.len(),
                self@.spec_poll_safe(),
                self@.len() == count,
            decreases self@.pending_events.len(),
        {
            let ghost before = self@;
            let ghost k = (start.pending_events.len() - before.pending_events.len()) as nat;
            match self.player.try_recv() {
                Some(ev) => {
                    assert(self@ =~~= AppView {
                        pending_events: before.pending_events.drop_first(),
                        ..before
                    });
                    self.on_event(ev);
                    let ghost popped = AppView {
                        pending_events: before.pending_events.drop_first(),
                        ..before
                    };
                    let ghost next = choose|next: usize|
                        (ev@ == PlayerEventView::Finished ==> popped.spec_next_ok(next)) && self@
                            == #[trigger] popped.spec_on_event(ev@, next);
                    proof {
                        assert(before.spec_poll_step_ok(next));
                        assert(self@ == before.spec_poll_step(next));
                        lemma_poll_step(before, next);
                        assert(start.spec_polled(self@, k + 1));
                    }
                },
                None => {},
            }
        }
    }

    /// Whether `poll_events` stays in bounds on the events now pending.
    pub fn poll_events_safe(&self) -> (b: bool)
        ensures
            b == self@.spec_poll_safe(),
    {
        let len = self.playlist.songs.len();
        let n = self.player.pending_len();
        let mut sel = self.selected_index;
        let mut pend = self.pending_play_index;
        let mut i: usize = 0;
        assert(self@.pending_events.subrange(0, n as int) =~= self@.pending_events);
        while i < n
            invariant
                n == self@.pending_events.len(),
                len == self@.len(),
                i <= n,
                self@.spec_poll_safe() == spec_safe_from(
                    self.play_mode,
                    len as nat,
                    sel,
                    pend,
                    self@.pending_events.subrange(i as int, n as int),
                ),
            decreases n - i,
        {
            let ghost rest = self@.pending_events.subrange(i as int, n as int);
            assert(rest.drop_first() =~= self@.pending_events.subrange(i + 1, n as int));
            match self.player.pending_at(i) {
                PlayerEvent::Finished => {
                    if len == 0 {
                        return true;
                    }
                    return match self.play_mode {
                        PlayMode::RepeatOne => sel < len,
                        PlayMode::Sequential => sel < usize::MAX,
                        PlayMode::Shuffle => true,
                    };
                },
                PlayerEvent::Stopped => {
                    if let Some(p) = pend {
                        sel = p;
                    }
                    pend = None;
                },
                _ => {},
            }
            i = i + 1;
        }
        assert(self@.pending_events.subrange(n as int, n as int) =~= Seq::<PlayerEventView>::empty());
        true
    }
}

} // verus!
