//! Properties of the library that span several operations.

use crate::app::{spec_next_mode, AppView, SaveRequest};
use crate::player::{spec_stream_error, LoopView, PhaseView, PlayerCommandView, PlayerEventView, SinkOp};
use crate::keys::{spec_playlist_key, Key, KeyPress};
use crate::playlist::{spec_find_alias, SongView};
use crate::text::spec_trim;
use crate::stream::{spec_clamp_position, spec_must_wait_on, spec_read_outcome, WaitReason};
use crate::text::{spec_digit_value, spec_digits_value, spec_is_ascii_digit, spec_parse_usize};
use std::time::Instant;
use vstd::prelude::*;

verus! {

broadcast use crate::playlist::lemma_set_position_of;

/// A single ASCII digit reads as its value.
pub proof fn lemma_parse_single_digit(d: char)
    requires
        spec_is_ascii_digit(d),
    ensures
        spec_parse_usize(seq![d]) == Some(spec_digit_value(d)),
        spec_digit_value(d) <= 9,
{
    let s = seq![d];
    assert(s.drop_last() =~= Seq::<char>::empty());
    assert(spec_digits_value(Seq::<char>::empty()) == 0);
    assert(spec_digits_value(s) == spec_digit_value(d));
}

/// Typing two song numbers in a row while a song plays keeps only the
/// last request: both confirmations stop playback, the second request
/// replaces the first, and once the player reports that it stopped, the
/// last requested song, and only it, is played.
pub proof fn law_rapid_requests_keep_last(s: AppView, d1: char, d2: char)
    requires
        s.number_input is None,
        s.current_song is Some || s.is_buffering,
        '1' <= d1 <= '9',
        '1' <= d2 <= '9',
        spec_digit_value(d1) <= s.len(),
        spec_digit_value(d2) <= s.len(),
    ensures
        ({
            let t = s.spec_start_number_input(d1).spec_confirm_number_input().spec_start_number_input(
                d2,
            ).spec_confirm_number_input();
            let idx = (spec_digit_value(d2) - 1) as usize;
            let u = t.spec_on_stopped();
            &&& t.pending_play_index == Some(idx)
            &&& t.sent == s.sent.push(PlayerCommandView::Stop).push(PlayerCommandView::Stop)
            &&& u.pending_play_index is None
            &&& u.selected_index == idx
            &&& u.sent.len() == s.sent.len() + 3
            &&& u.sent.subrange(0, s.sent.len() as int + 2) == t.sent
            &&& u.sent.last() matches PlayerCommandView::Play(song) && song.alias
                == s.playlist.songs[idx as int].alias && song.url == s.playlist.songs[idx as int].url
        }),
{
    lemma_parse_single_digit(d1);
    lemma_parse_single_digit(d2);
    let a = s.spec_start_number_input(d1);
    assert(a.spec_typed_index() == Some((spec_digit_value(d1) - 1) as usize));
    let b = a.spec_confirm_number_input();
    let c = b.spec_start_number_input(d2);
    assert(c.spec_typed_index() == Some((spec_digit_value(d2) - 1) as usize));
    let t = c.spec_confirm_number_input();
    let u = t.spec_on_stopped();
    assert(u.sent.subrange(0, s.sent.len() as int + 2) =~= t.sent);
}

/// Three mode changes bring back the mode one started from.
pub proof fn law_mode_cycle_returns(s: AppView, t1: Instant, t2: Instant, t3: Instant)
    ensures
        ({
            let u = s.spec_cycle_play_mode(t1).spec_cycle_play_mode(t2).spec_cycle_play_mode(t3);
            u.play_mode == s.play_mode && u.playlist.play_mode == s.play_mode
        }),
        spec_next_mode(s.play_mode) != s.play_mode,
{
}

/// The message that a mode change replaced comes back once a second has
/// passed (an empty message comes back as none), and not before.
pub proof fn law_mode_message_restored(s: AppView, now: Instant, elapsed: u128)
    ensures
        ({
            let t = s.spec_cycle_play_mode(now);
            let u = t.spec_status_timer(elapsed);
            &&& elapsed >= 1000 ==> u.status_restore is None && u.status_message == (match s.status_message {
                Some(m) => if m.len() > 0 {
                    Some(m)
                } else {
                    None
                },
                None => None,
            })
            &&& elapsed < 1000 ==> u == t
        }),
{
}

/// Moving a song up and then down again restores the playlist and the
/// selection; so does moving it down and then up (for a playlist of a
/// length that fits in memory).
pub proof fn law_move_up_down_inverse(s: AppView)
    ensures
        (0 < s.selected_index < s.len() <= usize::MAX) ==> ({
            let u = s.spec_move_song_up().spec_move_song_down();
            u.playlist.songs == s.playlist.songs && u.selected_index == s.selected_index
        }),
        (s.len() >= 2 && s.selected_index + 1 < s.len() <= usize::MAX) ==> ({
            let u = s.spec_move_song_down().spec_move_song_up();
            u.playlist.songs == s.playlist.songs && u.selected_index == s.selected_index
        }),
{
    if 0 < s.selected_index < s.len() <= usize::MAX {
        let u = s.spec_move_song_up().spec_move_song_down();
        assert(u.playlist.songs =~= s.playlist.songs);
    }
    if s.len() >= 2 && s.selected_index + 1 < s.len() <= usize::MAX {
        let u = s.spec_move_song_down().spec_move_song_up();
        assert(u.playlist.songs =~= s.playlist.songs);
    }
}

/// The selection names a song that exists, or is the first place of an
/// empty playlist.
pub open spec fn spec_selection_valid(s: AppView) -> bool {
    if s.len() == 0 {
        s.selected_index == 0
    } else {
        s.selected_index < s.len()
    }
}

/// Moving the selection or a song, adding, renaming or deleting a song,
/// restarting the current song and going to a typed song number keep the
/// selection on a song that exists.
pub proof fn law_selection_stays_valid(s: AppView)
    requires
        spec_selection_valid(s),
    ensures
        spec_selection_valid(s.spec_select_up()),
        spec_selection_valid(s.spec_select_down()),
        spec_selection_valid(s.spec_move_song_up()),
        spec_selection_valid(s.spec_move_song_down()),
        spec_selection_valid(s.spec_add_song()),
        spec_selection_valid(s.spec_update_alias()),
        spec_selection_valid(s.spec_delete_selected()),
        spec_selection_valid(s.spec_reset_position()),
        spec_selection_valid(s.spec_confirm_number_input()),
        spec_selection_valid(s.spec_play_selected()),
{
    crate::playlist::lemma_find_alias(s.playlist.songs, s.current_song->0);
}

/// Whether no two songs share an alias.
pub open spec fn spec_aliases_unique(s: AppView) -> bool {
    forall|i: int, j: int|
        0 <= i < j < s.len() ==> s.playlist.songs[i].alias != s.playlist.songs[j].alias
}

/// Adding a song never gives two songs the same alias.
pub proof fn law_add_song_keeps_aliases_unique(s: AppView)
    requires
        spec_aliases_unique(s),
    ensures
        spec_aliases_unique(s.spec_add_song()),
{
}

/// A relative seek leaves the position within the song's duration.
pub proof fn law_seek_within_duration(s: AppView, offset: i64)
    requires
        s.current_song is Some,
    ensures
        s.spec_seek_relative(offset).current_position <= s.spec_seek_relative(
            offset,
        ).total_duration,
        s.spec_seek_relative(offset).sent.last() == PlayerCommandView::SeekTo(
            s.spec_seek_relative(offset).current_position,
        ),
{
}

/// A read at the end of what was there reads back what was appended
/// after it, as much of it as fits.
pub proof fn law_read_returns_appended(
    before: Seq<u8>,
    appended: Seq<u8>,
    buf: Seq<u8>,
    after: Seq<u8>,
    n: int,
)
    requires
        appended.len() > 0,
        spec_read_outcome(before + appended, before.len() as int, buf, after, n),
    ensures
        n == (if buf.len() < appended.len() {
            buf.len() as int
        } else {
            appended.len() as int
        }),
        after.subrange(0, n) == appended.subrange(0, n),
{
    let data = before + appended;
    assert(data.subrange(before.len() as int, before.len() + n) =~= appended.subrange(0, n));
    assert(after.subrange(0, n) =~= data.subrange(before.len() as int, before.len() + n));
}

/// A read that no longer has to wait ends the stream only with the download:
/// into a non-empty buffer it copies nothing exactly where the reader is at
/// the end of the data, and the download has then ended.
pub proof fn law_read_ends_only_with_download(
    data: Seq<u8>,
    finished: bool,
    pos: usize,
    before: Seq<u8>,
    after: Seq<u8>,
    n: int,
)
    requires
        !spec_must_wait_on(data, finished, WaitReason::Read(pos)),
        spec_read_outcome(data, pos as int, before, after, n),
        before.len() > 0,
    ensures
        n == 0 <==> pos >= data.len(),
        n == 0 ==> finished,
{
}

/// A seek never lands past the end of the data, and never before its start.
pub proof fn law_seek_lands_in_data(target: int, len: nat)
    ensures
        spec_clamp_position(target, len) <= len,
        0 <= target <= len ==> spec_clamp_position(target, len) == target,
{
}

/// Once the player has reported that a song finished, it reports neither
/// its position nor its end again until another song is decoded.
pub proof fn law_finished_reported_once(
    p: LoopView,
    e1: Option<Seq<char>>,
    pos1: u64,
    e2: Option<Seq<char>>,
    pos2: u64,
    empty2: bool,
    paused2: bool,
)
    requires
        p.spec_tick(e1, pos1, true, false).events.contains(PlayerEventView::Finished),
    ensures
        ({
            let q = p.spec_tick(e1, pos1, true, false).next;
            &&& !q.is_playing
            &&& !q.spec_tick(e2, pos2, empty2, paused2).events.contains(PlayerEventView::Finished)
            &&& !q.spec_tick(e2, pos2, empty2, paused2).events.contains(
                PlayerEventView::Position(pos2),
            )
        }),
{
    let q = p.spec_tick(e1, pos1, true, false).next;
    let r = q.spec_tick(e2, pos2, empty2, paused2);
    if q.watching_download && e2 is Some {
        assert(r.events =~= seq![PlayerEventView::Error(e2->0)]);
    } else {
        assert(r.events =~= Seq::<PlayerEventView>::empty());
    }
}

/// A stopped player is silent: the next tick reports nothing.
pub proof fn law_stop_silences(
    p: LoopView,
    e: Option<Seq<char>>,
    pos: u64,
    empty: bool,
    paused: bool,
)
    ensures
        p.spec_stop().events == seq![PlayerEventView::Stopped],
        !p.spec_stop().next.is_playing,
        p.spec_stop().next.spec_tick(e, pos, empty, paused).events.len() == 0,
{
    let q = p.spec_stop().next;
    assert(q.spec_tick(e, pos, empty, paused).events =~= Seq::<PlayerEventView>::empty());
}

/// A song that fails to stream closes playback and shows the error dialog,
/// whatever played before; a save asked before is still pending.
pub proof fn law_stream_failure_resets(s: AppView, msg: Seq<char>)
    requires
        crate::app::spec_is_stream_failure(msg),
    ensures
        s.spec_on_player_error(msg).current_song is None,
        s.spec_on_player_error(msg).screen == crate::app::Screen::Error,
        !s.spec_on_player_error(msg).is_buffering,
        s.spec_on_player_error(msg).pending_save == s.pending_save,
{
}

/// Quitting asks for a save of the playlist.
pub proof fn law_quit_saves(s: AppView, now: Instant)
    ensures
        crate::keys::spec_playlist_key(
            s,
            crate::keys::KeyPress { key: crate::keys::Key::Char('q'), alt: false },
            now,
        ).pending_save != SaveRequest::NotNeeded,
        crate::keys::spec_playlist_key(
            s,
            crate::keys::KeyPress { key: crate::keys::Key::Char('q'), alt: false },
            now,
        ).should_quit,
{
}

/// The errors that the playback loop reports for a song that cannot be
/// fetched or whose download breaks off open the error dialog; a decoder
/// error goes to the status line.
pub proof fn law_fetch_failures_open_dialog(e: Seq<char>)
    ensures
        crate::app::spec_is_stream_failure(crate::player::spec_stream_error(e)),
        crate::app::spec_is_stream_failure(crate::player::spec_download_error(e)),
        !crate::app::spec_is_stream_failure(crate::player::spec_decode_error(e)),
{
    reveal_strlit("Stream error: ");
    reveal_strlit("Stream error:");
    reveal_strlit("Audio download error: ");
    reveal_strlit("Audio download error:");
    reveal_strlit("Audio decode error: ");
    let a = crate::player::spec_stream_error(e);
    assert(a.subrange(0, 13) =~= "Stream error:"@);
    let b = crate::player::spec_download_error(e);
    assert(b.subrange(0, 21) =~= "Audio download error:"@);
    let c = crate::player::spec_decode_error(e);
    assert(c[7] != "Audio download error:"@[7]);
    if c.len() >= 21 {
        assert(c.subrange(0, 21)[7] == c[7]);
    }
    assert(c[0] != "Stream error:"@[0]);
    assert(c.subrange(0, 13)[0] == c[0]);
}

/// Playing the song that is current again asks the player for it with the
/// position reached as its resume point, and the player resumes there (no
/// further than the song's length).
pub proof fn law_resume_where_left_off(s: AppView, p: LoopView, duration: u64)
    requires
        s.current_song matches Some(a) && crate::playlist::spec_find_alias(s.playlist.songs, a)
            == Some(s.selected_index as int),
        s.current_position > 0,
        p.has_output,
    ensures
        ({
            let t = s.spec_play_selected();
            let song = s.playlist.songs[s.selected_index as int];
            let asked = SongView { last_position: s.current_position, ..song };
            &&& t.sent.last() == PlayerCommandView::Play(asked)
            &&& p.spec_begin_play(asked).next.spec_decoded(duration).ops.last() == SinkOp::SeekTo(
                if s.current_position < duration {
                    s.current_position
                } else {
                    duration
                },
            )
        }),
{
    crate::playlist::lemma_find_alias(s.playlist.songs, s.current_song->0);
}

/// The reply to `Play(song)` comes in order: first `Buffering` with the
/// song's alias and one fetch of its URL; `Started`, with the decoded
/// duration, only once the fetched source was decoded and its download
/// left no error; after a failed fetch an error and no `Started`.
pub proof fn law_play_reply_order(
    p: LoopView,
    song: SongView,
    duration: u64,
    check: Option<Option<Seq<char>>>,
    e: Seq<char>,
)
    requires
        p.has_output,
        !(check matches Some(Some(_))),
    ensures
        ({
            let a = p.spec_begin_play(song);
            let b = a.next.spec_decoded(duration);
            let c = b.next.spec_download_checked(check);
            let f = a.next.spec_fetch_failed(e);
            &&& a.events == seq![PlayerEventView::Buffering(song.alias)]
            &&& a.fetch == Some(song.url)
            &&& a.ops.len() == 0
            &&& b.events.len() == 0 && b.fetch is None
            &&& c.events == seq![PlayerEventView::Started(song.alias, duration)]
            &&& c.fetch is None
            &&& c.next.phase is Idle
            &&& f.events == seq![PlayerEventView::Error(spec_stream_error(e))]
            &&& f.fetch is None
            &&& f.next.spec_decoded(duration) == crate::player::spec_quiet(f.next)
            &&& f.next.spec_download_checked(check) == crate::player::spec_quiet(f.next)
        }),
{
}

/// `Started` is reported by the download check alone, and only for the song
/// that was decoded, with its decoded duration; no other reply of the loop
/// reports it.
pub proof fn law_started_only_after_decoding(
    p: LoopView,
    song: SongView,
    err: Seq<char>,
    download_error: Option<Seq<char>>,
    duration: u64,
    check: Option<Option<Seq<char>>>,
    paused: bool,
    position: u64,
    empty: bool,
    alias: Seq<char>,
    d: u64,
)
    ensures
        p.spec_download_checked(check).events.contains(PlayerEventView::Started(alias, d))
            ==> p.phase == (PhaseView::Starting { alias, duration: d }),
        !p.spec_begin_play(song).events.contains(PlayerEventView::Started(alias, d)),
        !p.spec_fetch_failed(err).events.contains(PlayerEventView::Started(alias, d)),
        !p.spec_decode_failed(download_error, err).events.contains(
            PlayerEventView::Started(alias, d),
        ),
        !p.spec_decoded(duration).events.contains(PlayerEventView::Started(alias, d)),
        !p.spec_stop().events.contains(PlayerEventView::Started(alias, d)),
        !p.spec_pause_resume(paused).events.contains(PlayerEventView::Started(alias, d)),
        !p.spec_seek(position).events.contains(PlayerEventView::Started(alias, d)),
        !p.spec_tick(download_error, position, empty, paused).events.contains(
            PlayerEventView::Started(alias, d),
        ),
{
    let st = PlayerEventView::Started(alias, d);
    let c = p.spec_download_checked(check);
    if c.events.contains(st) {
        let k = choose|k: int| 0 <= k < c.events.len() && c.events[k] == st;
        assert(c.events[k] == st);
    }
    let t = p.spec_tick(download_error, position, empty, paused);
    if t.events.contains(st) {
        let k = choose|k: int| 0 <= k < t.events.len() && t.events[k] == st;
        let s1 = p.spec_after_download_check(download_error);
        let failed = p.watching_download && download_error is Some;
        let ev1: Seq<PlayerEventView> = if failed {
            seq![PlayerEventView::Error(download_error->0)]
        } else {
            seq![]
        };
        let ev2: Seq<PlayerEventView> = if s1.has_output && s1.is_playing {
            seq![PlayerEventView::Position(position)]
        } else {
            seq![]
        };
        assert(k < ev1.len() || k < ev1.len() + ev2.len() || k >= ev1.len() + ev2.len());
        assert(t.events[k] != st);
    }
    let r1 = p.spec_begin_play(song);
    let r2 = p.spec_fetch_failed(err);
    let r3 = p.spec_decode_failed(download_error, err);
    let r4 = p.spec_decoded(duration);
    let r5 = p.spec_stop();
    let r6 = p.spec_pause_resume(paused);
    let r7 = p.spec_seek(position);
    assert(!r1.events.contains(st)) by {
        assert(r1.events.len() == 1 && r1.events[0] != st);
    }
    assert(!r2.events.contains(st)) by {
        assert(forall|k: int| 0 <= k < r2.events.len() ==> r2.events[k] != st);
    }
    assert(!r3.events.contains(st)) by {
        assert(forall|k: int| 0 <= k < r3.events.len() ==> r3.events[k] != st);
    }
    assert(!r4.events.contains(st));
    assert(!r5.events.contains(st)) by {
        assert(r5.events.len() == 1 && r5.events[0] != st);
    }
    assert(!r6.events.contains(st)) by {
        assert(forall|k: int| 0 <= k < r6.events.len() ==> r6.events[k] != st);
    }
    assert(!r7.events.contains(st));
}

/// Once the player reports that it stopped, a pending request, and only it,
/// is played: the requested song is selected, the request is dropped, and
/// exactly one `Play` of that song is sent. Without a pending request the
/// report changes nothing. Reading the one pending `Stopped` report does
/// just this.
pub proof fn law_stopped_plays_pending(s: AppView, t: AppView)
    requires
        s.pending_events == seq![PlayerEventView::Stopped],
        s.spec_polled(t, 1),
    ensures
        ({
            let u = AppView { pending_events: seq![], ..s };
            &&& t == u.spec_on_stopped()
            &&& u.pending_play_index is None ==> t == u
            &&& u.pending_play_index matches Some(i) ==> (s.len() > i ==> (t.selected_index == i
                && t.pending_play_index is None && t.sent.len() == s.sent.len() + 1
                && t.sent.subrange(0, s.sent.len() as int) == s.sent && (t.sent.last() matches PlayerCommandView::Play(song)
                && song.alias == s.playlist.songs[i as int].alias && song.url
                == s.playlist.songs[i as int].url)))
        }),
{
    let mid = choose|mid: AppView, next: usize|
        s.spec_polled(mid, 0) && #[trigger] mid.spec_poll_step_ok(next) && t == mid.spec_poll_step(
            next,
        );
    assert(s.pending_events.drop_first() =~= Seq::<PlayerEventView>::empty());
    let u = AppView { pending_events: seq![], ..s };
    if let Some(i) = s.pending_play_index {
        if i < s.len() {
            let v = AppView { pending_play_index: None, selected_index: i, ..u };
            let w = v.spec_save_position();
            if let Some(a) = v.current_song {
                crate::playlist::lemma_set_position_of(v.playlist.songs, a, v.current_position);
            }
            assert(w.len() == s.len());
            assert(t.sent.subrange(0, s.sent.len() as int) =~= s.sent);
        }
    }
}

/// Restarting the current song asks the player for it from its beginning.
pub proof fn law_restart_from_beginning(s: AppView)
    requires
        s.len() <= usize::MAX,
        s.current_song matches Some(a) && crate::playlist::spec_find_alias(s.playlist.songs, a)
            is Some,
    ensures
        ({
            let a = s.current_song->0;
            let i = crate::playlist::spec_find_alias(s.playlist.songs, a)->0;
            let t = s.spec_reset_position();
            &&& 0 <= i < s.len()
            &&& t.selected_index == i
            &&& t.current_position == 0
            &&& t.sent.last() == PlayerCommandView::Play(
                crate::playlist::SongView { last_position: 0, ..s.playlist.songs[i] },
            )
        }),
{
    let a = s.current_song->0;
    crate::playlist::lemma_find_alias(s.playlist.songs, a);
    let once = crate::playlist::spec_set_position_of(s.playlist.songs, a, 0);
    crate::playlist::lemma_find_alias_same_aliases(s.playlist.songs, once, a);
}

/// Whether `k` is the first place among `songs` of a song named `alias`.
pub open spec fn spec_first_named(songs: Seq<SongView>, alias: Seq<char>, k: int) -> bool {
    &&& 0 <= k < songs.len()
    &&& songs[k].alias == alias
    &&& forall|m: int| 0 <= m < k ==> songs[m].alias != alias
}

/// The first place of a song named `alias` is the one the playlist's search
/// finds, and it is the only first place.
proof fn lemma_first_named(songs: Seq<SongView>, alias: Seq<char>, k: int)
    ensures
        spec_first_named(songs, alias, k) <==> spec_find_alias(songs, alias) == Some(k),
{
    crate::playlist::lemma_find_alias(songs, alias);
    if spec_first_named(songs, alias, k) {
        match spec_find_alias(songs, alias) {
            Some(j) => {
                if j < k {
                    assert(songs[j].alias != alias);
                } else if k < j {
                    assert(songs[k].alias != alias);
                }
            },
            None => {
                assert(songs[k].alias != alias);
            },
        }
    }
}

/// Playing the selected song keeps the position of what played: the song
/// named as current (its first entry) gets the current position as its
/// resume point, no other song changes, and the `Play` command sent carries
/// the selected song as stored then, so a song other than the current one
/// starts from its own resume point.
pub proof fn law_play_selected_remembers_positions(s: AppView)
    requires
        s.selected_index < s.len(),
    ensures
        ({
            let t = s.spec_play_selected();
            let sel = s.selected_index as int;
            &&& t.len() == s.len()
            &&& forall|k: int|
                0 <= k < s.len() ==> #[trigger] t.playlist.songs[k] == (if s.current_song
                    matches Some(a) && spec_first_named(s.playlist.songs, a, k) {
                    SongView { last_position: s.current_position, ..s.playlist.songs[k] }
                } else {
                    s.playlist.songs[k]
                })
            &&& t.sent == s.sent.push(PlayerCommandView::Play(t.playlist.songs[sel]))
            &&& t.selected_index == s.selected_index
            &&& t.current_song == Some(s.playlist.songs[sel].alias)
            &&& t.current_position == 0
            &&& t.is_buffering
            &&& t.pending_play_index is None
        }),
{
    let t = s.spec_play_selected();
    match s.current_song {
        Some(a) => {
            crate::playlist::lemma_find_alias(s.playlist.songs, a);
            assert forall|k: int| 0 <= k < s.len() implies #[trigger] t.playlist.songs[k] == (
            if spec_first_named(s.playlist.songs, a, k) {
                SongView { last_position: s.current_position, ..s.playlist.songs[k] }
            } else {
                s.playlist.songs[k]
            }) by {
                lemma_first_named(s.playlist.songs, a, k);
            }
        },
        None => {},
    }
}

/// Renaming gives the selected song, and no other, the trimmed alias of the
/// editor; its URL and resume point stay.
pub proof fn law_update_alias_renames_selected(s: AppView)
    requires
        spec_trim(s.input_alias).len() > 0,
        s.selected_index < s.len(),
    ensures
        ({
            let t = s.spec_update_alias();
            let sel = s.selected_index as int;
            &&& t.len() == s.len()
            &&& t.playlist.songs[sel] == (SongView { alias: spec_trim(s.input_alias), ..s.playlist.songs[sel] })
            &&& forall|k: int|
                0 <= k < s.len() && k != sel ==> #[trigger] t.playlist.songs[k] == s.playlist.songs[k]
            &&& t.sent == s.sent
            &&& t.current_song == s.current_song
            &&& t.selected_index == s.selected_index
            &&& t.screen == crate::app::Screen::Playlist
        }),
{
}

/// Deleting removes the selected song and keeps the others in order; playback
/// stops, and the current song is forgotten, only where the removed song is
/// the current one.
pub proof fn law_delete_removes_selected(s: AppView)
    requires
        s.selected_index < s.len(),
    ensures
        ({
            let t = s.spec_delete_selected();
            let sel = s.selected_index as int;
            let removed_current = s.current_song == Some(s.playlist.songs[sel].alias);
            &&& t.len() + 1 == s.len()
            &&& forall|k: int| 0 <= k < sel ==> #[trigger] t.playlist.songs[k] == s.playlist.songs[k]
            &&& forall|k: int|
                sel <= k < t.len() ==> #[trigger] t.playlist.songs[k] == s.playlist.songs[k + 1]
            &&& t.sent == (if removed_current {
                s.sent.push(PlayerCommandView::Stop)
            } else {
                s.sent
            })
            &&& t.current_song == (if removed_current {
                None
            } else {
                s.current_song
            })
            &&& t.selected_index == (if sel < t.len() {
                s.selected_index
            } else if t.len() == 0 {
                0
            } else {
                (t.len() - 1) as usize
            })
        }),
{
}

/// On the playlist screen, `j` and Down move the selection one song down and
/// `k` and Up one song up (Alt turns the arrows into moving the song), within
/// the list; nothing else changes.
pub proof fn law_navigation_keys(s: AppView, key: KeyPress, now: Instant)
    ensures
        key.key == Key::Char('j') || (key.key == Key::Down && !key.alt) ==> spec_playlist_key(
            s,
            key,
            now,
        ) == (AppView {
            selected_index: if s.selected_index + 1 < s.len() {
                (s.selected_index + 1) as usize
            } else {
                s.selected_index
            },
            ..s
        }),
        key.key == Key::Char('k') || (key.key == Key::Up && !key.alt) ==> spec_playlist_key(
            s,
            key,
            now,
        ) == (AppView {
            selected_index: if s.selected_index > 0 {
                (s.selected_index - 1) as usize
            } else {
                s.selected_index
            },
            ..s
        }),
{
    assert(!spec_is_ascii_digit('j'));
    assert(!spec_is_ascii_digit('k'));
}

/// On the playlist screen, Left seeks ten seconds back and Right ten seconds
/// forward, within the song, and sends the seek; Left never moves forward and
/// Right never moves back. Without a current song they do nothing.
pub proof fn law_seek_keys(s: AppView, alt: bool, now: Instant)
    ensures
        ({
            let l = spec_playlist_key(s, KeyPress { key: Key::Left, alt }, now);
            let r = spec_playlist_key(s, KeyPress { key: Key::Right, alt }, now);
            &&& s.current_song is None ==> l == s && r == s
            &&& s.current_song is Some ==> {
                &&& l.current_position <= s.current_position
                &&& s.current_position <= s.total_duration ==> l.current_position == (
                if s.current_position >= 10000 {
                    (s.current_position - 10000) as u64
                } else {
                    0
                })
                &&& l.sent == s.sent.push(PlayerCommandView::SeekTo(l.current_position))
                &&& l.status_message == Some(crate::app::spec_seek_message(-10000i64))
                &&& s.current_position <= s.total_duration ==> r.current_position == (
                if s.current_position + 10000 <= s.total_duration {
                    (s.current_position + 10000) as u64
                } else {
                    s.total_duration
                }) && r.current_position >= s.current_position
                &&& r.sent == s.sent.push(PlayerCommandView::SeekTo(r.current_position))
                &&& r.status_message == Some(crate::app::spec_seek_message(10000i64))
            }
        }),
{
}

} // verus!
