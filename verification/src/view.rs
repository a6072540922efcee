//! What the screens show: the texts of the playlist rows, the status line,
//! the progress label, the mode icon and the dialogs, and the list's scroll.

use crate::app::{App, AppView};
use crate::playlist::PlayMode;
use crate::text::{
    push_decimal_pad2, push_padded_left, spec_decimal, spec_decimal_pad2,
    spec_pad_left, spec_starts_with, starts_with,
};
use vstd::prelude::*;

verus! {

/// `ms` milliseconds as `mm:ss`, or `hh:mm:ss` from one hour on, each
/// part at least two digits; the milliseconds are dropped.
pub open spec fn spec_format_time(ms: u64) -> Seq<char> {
    let t = ms as nat / 1000;
    let h = t / 3600;
    let m = (t % 3600) / 60;
    let s = t % 60;
    if h > 0 {
        spec_decimal_pad2(h) + ":"@ + spec_decimal_pad2(m) + ":"@ + spec_decimal_pad2(s)
    } else {
        spec_decimal_pad2(m) + ":"@ + spec_decimal_pad2(s)
    }
}

/// Formats a position or duration of `ms` milliseconds as `mm:ss`, or
/// `hh:mm:ss` from one hour on.
pub fn format_time(ms: u64) -> (r: String)
    ensures
        r@ == spec_format_time(ms),
{
    let total_secs = ms / 1000;
    let h = total_secs / 3600;
    let m = (total_secs % 3600) / 60;
    let s = total_secs % 60;
    let mut out = String::new();
    if h > 0 {
        push_decimal_pad2(&mut out, h);
        out.append(":");
    }
    push_decimal_pad2(&mut out, m);
    out.append(":");
    push_decimal_pad2(&mut out, s);
    assert(out@ =~= spec_format_time(ms));
    out
}

/// The column of the cursor in an input box whose left border is at column
/// `x` and whose text is `text_len` bytes long: one past the border, then
/// the text's length taken as a `u16` (its low 16 bits); `None` where that
/// column does not fit in a `u16`.
pub open spec fn spec_cursor_column(x: u16, text_len: usize) -> Option<u16> {
    let c = x + 1 + text_len % 0x10000;
    if c <= u16::MAX {
        Some(c as u16)
    } else {
        None
    }
}

/// The column of the cursor in an input box at column `x` that holds
/// `text_len` bytes of text.
pub fn cursor_column(x: u16, text_len: usize) -> (c: Option<u16>)
    ensures
        c == spec_cursor_column(x, text_len),
{
    let low = (text_len % 65536) as u16;
    match x.checked_add(1) {
        Some(a) => a.checked_add(low),
        None => None,
    }
}

/// The rows that the playlist's frame of `list_height` lines can show.
pub fn content_height(list_height: u16) -> (r: usize)
    ensures
        r == (if list_height >= 3 {
            list_height - 2
        } else {
            1
        }),
{
    let inner = if list_height >= 2 {
        list_height - 2
    } else {
        0
    };
    if inner >= 1 {
        inner as usize
    } else {
        1
    }
}

/// The first row shown, so that the selected row is on screen.
pub fn scroll_offset(selected: usize, content_height: usize) -> (r: usize)
    requires
        content_height >= 1,
    ensures
        r == (if selected >= content_height {
            selected - content_height + 1
        } else {
            0
        }),
        selected < r + content_height,
{
    if selected >= content_height {
        selected - content_height + 1
    } else {
        0
    }
}

/// How a playlist row is highlighted.
#[derive(Debug, Clone, Copy, PartialEq, Eq, Structural)]
pub enum RowStyle {
    Current,
    Selected,
    Plain,
}

/// Whether row `i` holds the current song.
pub open spec fn spec_row_is_current(s: AppView, i: int) -> bool {
    s.current_song == Some(s.playlist.songs[i].alias)
}

/// The marker in front of row `i`: pause or play sign for the current
/// song, an arrow for the selected one.
pub open spec fn spec_row_prefix(s: AppView, i: int) -> Seq<char> {
    if spec_row_is_current(s, i) {
        if s.is_paused {
            " \u{23F8} "@
        } else {
            " \u{25B6} "@
        }
    } else if i == s.selected_index {
        " \u{203A} "@
    } else {
        "   "@
    }
}

/// The text of row `i`: its marker, its 1-based number right-aligned in
/// three places, and the song's alias.
pub open spec fn spec_row_text(s: AppView, i: int) -> Seq<char> {
    spec_row_prefix(s, i) + spec_pad_left(spec_decimal((i + 1) as nat), 3) + ". "@
        + s.playlist.songs[i].alias
}

/// The highlight of row `i`.
pub open spec fn spec_row_style(s: AppView, i: int) -> RowStyle {
    if spec_row_is_current(s, i) {
        RowStyle::Current
    } else if i == s.selected_index {
        RowStyle::Selected
    } else {
        RowStyle::Plain
    }
}

/// The text and highlight of playlist row `i`.
pub fn playlist_row(app: &App, i: usize) -> (r: (String, RowStyle))
    requires
        i < app@.len(),
    ensures
        r.0@ == spec_row_text(app@, i as int),
        r.1 == spec_row_style(app@, i as int),
{
    let song = &app.playlist.songs[i];
    let is_selected = i == app.selected_index;
    let is_current = match &app.current_song {
        Some(a) => *a == song.alias,
        None => false,
    };
    assert(is_current == spec_row_is_current(app@, i as int));
    let prefix = if is_current {
        if app.is_paused {
            " \u{23F8} "
        } else {
            " \u{25B6} "
        }
    } else if is_selected {
        " \u{203A} "
    } else {
        "   "
    };
    let mut out = String::from_str(prefix);
    let n = app.playlist.songs.len();
    assert(i < n);
    let num = crate::text::decimal_string((i + 1) as u64);
    push_padded_left(&mut out, num.as_str(), 3);
    out.append(". ");
    out.append(song.alias.as_str());
    assert(out@ =~= spec_row_text(app@, i as int));
    let style = if is_current {
        RowStyle::Current
    } else if is_selected {
        RowStyle::Selected
    } else {
        RowStyle::Plain
    };
    (out, style)
}

/// The status line: the message while a number is typed or a mode change
/// is shown, else what plays, else the message or a hint.
pub open spec fn spec_status_text(s: AppView) -> Seq<char> {
    if s.number_input is Some || s.status_restore is Some {
        match s.status_message {
            Some(m) => m,
            None => seq![],
        }
    } else if s.is_buffering {
        match s.current_song {
            Some(a) => "Downloading: "@ + a + " ..."@,
            None => "Downloading..."@,
        }
    } else {
        match s.current_song {
            Some(a) => if s.is_paused {
                "Paused: "@ + a
            } else {
                "Now playing: "@ + a
            },
            None => match s.status_message {
                Some(m) => m,
                None => "No song playing. Press [a] to add a URL with music inside."@,
            },
        }
    }
}

/// The status line's text.
pub fn status_text(app: &App) -> (r: String)
    ensures
        r@ == spec_status_text(app@),
{
    if app.number_input.is_some() || app.status_restore.is_some() {
        match &app.status_message {
            Some(m) => m.clone(),
            None => String::new(),
        }
    } else if app.is_buffering {
        match &app.current_song {
            Some(a) => {
                let mut m = String::from_str("Downloading: ");
                m.append(a.as_str());
                m.append(" ...");
                m
            },
            None => String::from_str("Downloading..."),
        }
    } else {
        match &app.current_song {
            Some(a) => if app.is_paused {
                let mut m = String::from_str("Paused: ");
                m.append(a.as_str());
                m
            } else {
                let mut m = String::from_str("Now playing: ");
                m.append(a.as_str());
                m
            },
            None => match &app.status_message {
                Some(m) => m.clone(),
                None => String::from_str(
                    "No song playing. Press [a] to add a URL with music inside.",
                ),
            },
        }
    }
}

/// How the status line is coloured.
#[derive(Debug, Clone, Copy, PartialEq, Eq, Structural)]
pub enum StatusTone {
    Error,
    Buffering,
    Normal,
}

/// The status line's colour: an error message stands out, buffering is
/// marked.
pub open spec fn spec_status_tone(s: AppView) -> StatusTone {
    if s.status_message matches Some(m) && spec_starts_with(m, "Error:"@) {
        StatusTone::Error
    } else if s.is_buffering {
        StatusTone::Buffering
    } else {
        StatusTone::Normal
    }
}

/// The status line's colour.
pub fn status_tone(app: &App) -> (r: StatusTone)
    ensures
        r == spec_status_tone(app@),
{
    let is_error = match &app.status_message {
        Some(m) => starts_with(m.as_str(), "Error:"),
        None => false,
    };
    if is_error {
        StatusTone::Error
    } else if app.is_buffering {
        StatusTone::Buffering
    } else {
        StatusTone::Normal
    }
}

/// What the progress box shows.
pub enum Progress {
    /// No song is current.
    Empty,
    /// The current song is being fetched.
    Buffering,
    /// The current song plays; `label` is its time, and its share is
    /// shown where the duration is known.
    Playing { label: String, has_duration: bool },
}

/// The time label of the progress box: position and duration, or the
/// position of a stream of unknown length.
pub open spec fn spec_progress_label(s: AppView) -> Seq<char> {
    if s.total_duration > 0 {
        " "@ + spec_format_time(s.current_position) + " / "@ + spec_format_time(s.total_duration)
            + " "@
    } else {
        " "@ + spec_format_time(s.current_position) + " (live) "@
    }
}

/// What the progress box shows.
pub fn progress(app: &App) -> (r: Progress)
    ensures
        app.current_song is None ==> r is Empty,
        app.current_song is Some && app.is_buffering ==> r is Buffering,
        app.current_song is Some && !app.is_buffering ==> (r matches Progress::Playing {
            label,
            has_duration,
        } && label@ == spec_progress_label(app@) && has_duration == (app.total_duration > 0)),
{
    if app.current_song.is_none() {
        Progress::Empty
    } else if app.is_buffering {
        Progress::Buffering
    } else {
        let mut label = String::from_str(" ");
        let cur = format_time(app.current_position);
        label.append(cur.as_str());
        if app.total_duration > 0 {
            label.append(" / ");
            let total = format_time(app.total_duration);
            label.append(total.as_str());
            label.append(" ");
        } else {
            label.append(" (live) ");
        }
        assert(label@ =~= spec_progress_label(app@));
        Progress::Playing { label, has_duration: app.total_duration > 0 }
    }
}

/// The icon of a play mode.
pub open spec fn spec_mode_icon(m: PlayMode) -> Seq<char> {
    match m {
        PlayMode::RepeatOne => "\u{21BA}1"@,
        PlayMode::Sequential => "\u{21BA}"@,
        PlayMode::Shuffle => "\u{21C4}"@,
    }
}

/// The icon of a play mode.
pub fn mode_icon(m: PlayMode) -> (r: &'static str)
    ensures
        r@ == spec_mode_icon(m),
{
    match m {
        PlayMode::RepeatOne => "\u{21BA}1",
        PlayMode::Sequential => "\u{21BA}",
        PlayMode::Shuffle => "\u{21C4}",
    }
}

/// The question of the delete dialog, naming the song it would delete.
pub open spec fn spec_delete_question(s: AppView) -> Seq<char> {
    let alias = if s.delete_target < s.len() {
        s.playlist.songs[s.delete_target as int].alias
    } else {
        "unknown"@
    };
    " Delete \""@ + alias + "\"?"@
}

/// The question of the delete dialog.
pub fn delete_question(app: &App) -> (r: String)
    ensures
        r@ == spec_delete_question(app@),
{
    let mut q = String::from_str(" Delete \"");
    if app.delete_target < app.playlist.songs.len() {
        q.append(app.playlist.songs[app.delete_target].alias.as_str());
    } else {
        q.append("unknown");
    }
    q.append("\"?");
    assert(q@ =~= spec_delete_question(app@));
    q
}

} // verus!
