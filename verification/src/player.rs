//! The messages between the interface and the playback thread, the
//! interface's end of that exchange, and the playback thread's decisions.
//!
//! The playback thread alternates audio work (fetching, decoding, driving
//! the output) with decisions; [`PlayerLoop`] holds the decisions: each of
//! its methods takes what the audio side observed and says which output
//! operations to perform and which events to report.

use crate::playlist::{opt_text_view, Song, SongView};
use vstd::prelude::*;

verus! {

/// A request from the interface to the playback thread. Positions are in
/// milliseconds.
pub enum PlayerCommand {
    Play(Song),
    Stop,
    PauseResume,
    SeekTo(u64),
}

/// A report from the playback thread to the interface. Durations and
/// positions are in milliseconds.
#[derive(Debug, Clone)]
pub enum PlayerEvent {
    Buffering(String),
    Started(String, u64),
    Position(u64),
    Paused,
    Resumed,
    Finished,
    Stopped,
    Error(String),
}

/// The mathematical value of a command.
pub enum PlayerCommandView {
    Play(SongView),
    Stop,
    PauseResume,
    SeekTo(u64),
}

/// The mathematical value of an event.
pub enum PlayerEventView {
    Buffering(Seq<char>),
    Started(Seq<char>, u64),
    Position(u64),
    Paused,
    Resumed,
    Finished,
    Stopped,
    Error(Seq<char>),
}

impl View for PlayerCommand {
    type V = PlayerCommandView;

    open spec fn view(&self) -> PlayerCommandView {
        match self {
            PlayerCommand::Play(s) => PlayerCommandView::Play(s@),
            PlayerCommand::Stop => PlayerCommandView::Stop,
            PlayerCommand::PauseResume => PlayerCommandView::PauseResume,
            PlayerCommand::SeekTo(p) => PlayerCommandView::SeekTo(*p),
        }
    }
}

impl View for PlayerEvent {
    type V = PlayerEventView;

    open spec fn view(&self) -> PlayerEventView {
        match self {
            PlayerEvent::Buffering(a) => PlayerEventView::Buffering(a@),
            PlayerEvent::Started(a, d) => PlayerEventView::Started(a@, *d),
            PlayerEvent::Position(p) => PlayerEventView::Position(*p),
            PlayerEvent::Paused => PlayerEventView::Paused,
            PlayerEvent::Resumed => PlayerEventView::Resumed,
            PlayerEvent::Finished => PlayerEventView::Finished,
            PlayerEvent::Stopped => PlayerEventView::Stopped,
            PlayerEvent::Error(m) => PlayerEventView::Error(m@),
        }
    }
}

/// The views of a list of commands.
pub open spec fn commands_view(c: Seq<PlayerCommand>) -> Seq<PlayerCommandView> {
    c.map_values(|x: PlayerCommand| x@)
}

/// The views of a list of events.
pub open spec fn events_view(e: Seq<PlayerEvent>) -> Seq<PlayerEventView> {
    e.map_values(|x: PlayerEvent| x@)
}

/// The interface's end of the exchange with the playback thread: the
/// commands sent and not yet handed over, and the events received and not
/// yet read, each in order.
pub struct Player {
    commands: Vec<PlayerCommand>,
    events: Vec<PlayerEvent>,
}

impl Player {
    /// The commands sent and not yet handed over, oldest first.
    pub closed spec fn sent(&self) -> Seq<PlayerCommandView> {
        commands_view(self.commands@)
    }

    /// The events received and not yet read, oldest first.
    pub closed spec fn pending(&self) -> Seq<PlayerEventView> {
        events_view(self.events@)
    }

    /// An exchange with nothing sent and nothing received.
    pub fn new() -> (p: Player)
        ensures
            p.sent() == Seq::<PlayerCommandView>::empty(),
            p.pending() == Seq::<PlayerEventView>::empty(),
    {
        let p = Player { commands: Vec::new(), events: Vec::new() };
        assert(p.sent() =~= Seq::<PlayerCommandView>::empty());
        assert(p.pending() =~= Seq::<PlayerEventView>::empty());
        p
    }

    /// Sends `cmd` to the playback thread.
    pub fn send(&mut self, cmd: PlayerCommand)
        ensures
            final(self).sent() == old(self).sent().push(cmd@),
            final(self).pending() == old(self).pending(),
    {
        self.commands.push(cmd);
        assert(self.sent() =~= old(self).sent().push(cmd@));
    }

    /// The oldest event not yet read, if any; it is read.
    pub fn try_recv(&mut self) -> (r: Option<PlayerEvent>)
        ensures
            final(self).sent() == old(self).sent(),
            old(self).pending().len() == 0 ==> r is None && final(self).pending() == old(
                self,
            ).pending(),
            old(self).pending().len() > 0 ==> (r matches Some(e) && e@ == old(self).pending()[0]
                && final(self).pending() == old(self).pending().drop_first()),
    {
        if self.events.len() == 0 {
            None
        } else {
            let e = self.events.remove(0);
            assert(self.pending() =~= old(self).pending().drop_first());
            Some(e)
        }
    }

    /// The number of events received and not yet read.
    pub fn pending_len(&self) -> (n: usize)
        ensures
            n == self.pending().len(),
    {
        self.events.len()
    }

    /// The `i`-th event received and not yet read, oldest first.
    pub fn pending_at(&self, i: usize) -> (e: &PlayerEvent)
        requires
            i < self.pending().len(),
        ensures
            e@ == self.pending()[i as int],
    {
        &self.events[i]
    }

    /// Hands over the commands sent so far, oldest first; none remain.
    pub fn take_commands(&mut self) -> (r: Vec<PlayerCommand>)
        ensures
            commands_view(r@) == old(self).sent(),
            final(self).sent() == Seq::<PlayerCommandView>::empty(),
            final(self).pending() == old(self).pending(),
    {
        let mut taken = Vec::new();
        std::mem::swap(&mut taken, &mut self.commands);
        assert(self.sent() =~= Seq::<PlayerCommandView>::empty());
        taken
    }

    /// Records an event received from the playback thread.
    pub fn deliver(&mut self, event: PlayerEvent)
        ensures
            final(self).pending() == old(self).pending().push(event@),
            final(self).sent() == old(self).sent(),
    {
        self.events.push(event);
        assert(self.pending() =~= old(self).pending().push(event@));
    }
}

/// An operation on the audio output.
#[derive(Debug, Clone, Copy, PartialEq, Eq, Structural)]
pub enum SinkOp {
    Clear,
    Append,
    Play,
    Pause,
    Stop,
    SeekTo(u64),
}

/// What a state of the playback loop does in reply to an observation: the
/// operations on the output, in order, then the events to report, in order,
/// then the URL to fetch, where there is one.
pub struct Reaction {
    pub ops: Vec<SinkOp>,
    pub events: Vec<PlayerEvent>,
    pub fetch: Option<String>,
}

/// Where the loop stands in its reply to a `Play` command.
#[derive(Debug)]
pub enum PlayPhase {
    /// No song is being started.
    Idle,
    /// The song `alias` is being fetched; it resumes at `last_position`.
    Fetching { alias: String, last_position: u64 },
    /// The song `alias`, of length `duration`, was decoded and plays; the
    /// download behind it is still to be checked.
    Starting { alias: String, duration: u64 },
}

/// The mathematical value of a [`PlayPhase`].
pub enum PhaseView {
    Idle,
    Fetching { alias: Seq<char>, last_position: u64 },
    Starting { alias: Seq<char>, duration: u64 },
}

impl View for PlayPhase {
    type V = PhaseView;

    open spec fn view(&self) -> PhaseView {
        match self {
            PlayPhase::Idle => PhaseView::Idle,
            PlayPhase::Fetching { alias, last_position } => PhaseView::Fetching {
                alias: alias@,
                last_position: *last_position,
            },
            PlayPhase::Starting { alias, duration } => PhaseView::Starting {
                alias: alias@,
                duration: *duration,
            },
        }
    }
}

/// The playback loop's state: whether an audio output is open, whether
/// something plays, whether a running download's error is watched, and
/// where the reply to a `Play` command stands.
#[derive(Debug)]
pub struct PlayerLoop {
    pub has_output: bool,
    pub is_playing: bool,
    pub watching_download: bool,
    pub phase: PlayPhase,
}

/// The mathematical value of a [`PlayerLoop`].
pub struct LoopView {
    pub has_output: bool,
    pub is_playing: bool,
    pub watching_download: bool,
    pub phase: PhaseView,
}

impl View for PlayerLoop {
    type V = LoopView;

    open spec fn view(&self) -> LoopView {
        LoopView {
            has_output: self.has_output,
            is_playing: self.is_playing,
            watching_download: self.watching_download,
            phase: self.phase@,
        }
    }
}

/// What the download's error slot held when checked after decoding began.
#[derive(Debug)]
pub enum DownloadCheck {
    /// The source has no download running behind it.
    NoDownload,
    /// The download's error slot, read and emptied.
    Slot(Option<String>),
}

impl DownloadCheck {
    /// `None` where no download runs, else what its error slot held.
    pub open spec fn view_opt(&self) -> Option<Option<Seq<char>>> {
        match self {
            DownloadCheck::NoDownload => None,
            DownloadCheck::Slot(e) => Some(opt_text_view(*e)),
        }
    }
}

/// The message for an audio output that could not be opened.
pub open spec fn spec_output_error(e: Seq<char>) -> Seq<char> {
    "Audio output unavailable: "@ + e
}

/// The message for a failed fetch.
pub open spec fn spec_stream_error(e: Seq<char>) -> Seq<char> {
    "Stream error: "@ + e
}

/// The message for a download that failed while the song played.
pub open spec fn spec_download_error(e: Seq<char>) -> Seq<char> {
    "Audio download error: "@ + e
}

/// The message that a failed download leaves for the playback loop.
pub fn download_error_message(err: &str) -> (r: String)
    ensures
        r@ == spec_download_error(err@),
{
    let mut m = String::from_str("Audio download error: ");
    m.append(err);
    m
}

/// The message for a source that could not be decoded.
pub open spec fn spec_decode_error(e: Seq<char>) -> Seq<char> {
    "Audio decode error: "@ + e
}

/// The state after a reply, the output operations, the events and the URL
/// to fetch.
#[verifier::ext_equal]
pub struct StepView {
    pub next: LoopView,
    pub ops: Seq<SinkOp>,
    pub events: Seq<PlayerEventView>,
    pub fetch: Option<Seq<char>>,
}

impl Reaction {
    /// The operations, events and fetch of this reaction as values.
    pub open spec fn view_with(&self, next: LoopView) -> StepView {
        StepView {
            next,
            ops: self.ops@,
            events: events_view(self.events@),
            fetch: opt_text_view(self.fetch),
        }
    }
}

/// A reply that changes nothing and does nothing.
pub open spec fn spec_quiet(next: LoopView) -> StepView {
    StepView { next, ops: seq![], events: seq![], fetch: None }
}

impl LoopView {
    /// The loop's start: an output opened (`Ok`) or failed to open.
    pub open spec fn spec_start(output: Result<(), Seq<char>>) -> StepView {
        let next = LoopView {
            has_output: output is Ok,
            is_playing: false,
            watching_download: false,
            phase: PhaseView::Idle,
        };
        match output {
            Ok(_) => spec_quiet(next),
            Err(e) => StepView {
                events: seq![PlayerEventView::Error(spec_output_error(e))],
                ..spec_quiet(next)
            },
        }
    }

    /// The reply to `Play(song)`: report that the song is being fetched, then
    /// fetch its URL; the song's alias and resume point are kept for the
    /// steps that follow.
    pub open spec fn spec_begin_play(self, song: SongView) -> StepView {
        StepView {
            next: LoopView {
                phase: PhaseView::Fetching { alias: song.alias, last_position: song.last_position },
                ..self
            },
            ops: seq![],
            events: seq![PlayerEventView::Buffering(song.alias)],
            fetch: Some(song.url),
        }
    }

    /// The reply to a failed fetch of the song being fetched: an error,
    /// nothing else; no song is being started any more.
    pub open spec fn spec_fetch_failed(self, e: Seq<char>) -> StepView {
        if self.phase is Fetching {
            StepView {
                events: seq![PlayerEventView::Error(spec_stream_error(e))],
                ..spec_quiet(LoopView { phase: PhaseView::Idle, ..self })
            }
        } else {
            spec_quiet(self)
        }
    }

    /// The reply to a fetched source that could not be decoded: the
    /// download's own error where it left one, else the decoder's.
    pub open spec fn spec_decode_failed(
        self,
        download_error: Option<Seq<char>>,
        decode_error: Seq<char>,
    ) -> StepView {
        let msg = match download_error {
            Some(m) => m,
            None => spec_decode_error(decode_error),
        };
        if self.phase is Fetching {
            StepView {
                events: seq![PlayerEventView::Error(msg)],
                ..spec_quiet(LoopView { phase: PhaseView::Idle, ..self })
            }
        } else {
            spec_quiet(self)
        }
    }

    /// The reply to a decoded source of `duration` for the song being
    /// fetched: replace what plays by it, start it, and resume at the song's
    /// last position (no further than its duration); its download is checked
    /// next. Without an output nothing plays and the reply ends here.
    pub open spec fn spec_decoded(self, duration: u64) -> StepView {
        match self.phase {
            PhaseView::Fetching { alias, last_position } => if self.has_output {
                let start = seq![SinkOp::Clear, SinkOp::Append, SinkOp::Play];
                let ops = if last_position > 0 {
                    start.push(
                        SinkOp::SeekTo(
                            if last_position < duration {
                                last_position
                            } else {
                                duration
                            },
                        ),
                    )
                } else {
                    start
                };
                StepView {
                    ops,
                    ..spec_quiet(
                        LoopView {
                            is_playing: true,
                            phase: PhaseView::Starting { alias, duration },
                            ..self
                        },
                    )
                }
            } else {
                spec_quiet(LoopView { phase: PhaseView::Idle, ..self })
            },
            _ => spec_quiet(self),
        }
    }

    /// The reply to the download check of the song being started: stop on an
    /// error the download left, else report the start with the decoded
    /// duration and watch the download where one runs.
    pub open spec fn spec_download_checked(self, check: Option<Option<Seq<char>>>) -> StepView {
        match self.phase {
            PhaseView::Starting { alias, duration } => {
                let idle = LoopView { phase: PhaseView::Idle, ..self };
                match check {
                    Some(Some(err)) => StepView {
                        next: LoopView { is_playing: false, ..idle },
                        ops: seq![SinkOp::Stop],
                        events: seq![PlayerEventView::Error(err)],
                        fetch: None,
                    },
                    Some(None) => StepView {
                        events: seq![PlayerEventView::Started(alias, duration)],
                        ..spec_quiet(LoopView { watching_download: true, ..idle })
                    },
                    None => StepView {
                        events: seq![PlayerEventView::Started(alias, duration)],
                        ..spec_quiet(LoopView { watching_download: false, ..idle })
                    },
                }
            },
            _ => spec_quiet(self),
        }
    }

    /// The reply to `Stop`: stop the output, forget the download, report it.
    pub open spec fn spec_stop(self) -> StepView {
        StepView {
            ops: if self.has_output {
                seq![SinkOp::Stop]
            } else {
                seq![]
            },
            events: seq![PlayerEventView::Stopped],
            ..spec_quiet(LoopView { is_playing: false, watching_download: false, ..self })
        }
    }

    /// The reply to `PauseResume`: resume a paused output, else pause what
    /// plays.
    pub open spec fn spec_pause_resume(self, output_paused: bool) -> StepView {
        if self.has_output && output_paused {
            StepView {
                ops: seq![SinkOp::Play],
                events: seq![PlayerEventView::Resumed],
                ..spec_quiet(self)
            }
        } else if self.has_output && self.is_playing {
            StepView {
                ops: seq![SinkOp::Pause],
                events: seq![PlayerEventView::Paused],
                ..spec_quiet(self)
            }
        } else {
            spec_quiet(self)
        }
    }

    /// The reply to `SeekTo(position)`.
    pub open spec fn spec_seek(self, position: u64) -> StepView {
        StepView {
            ops: if self.has_output {
                seq![SinkOp::SeekTo(position)]
            } else {
                seq![]
            },
            ..spec_quiet(self)
        }
    }

    /// The state after the download-error check of a periodic tick.
    pub open spec fn spec_after_download_check(self, download_error: Option<Seq<char>>) -> LoopView {
        if self.watching_download && download_error is Some {
            LoopView { watching_download: false, is_playing: false, ..self }
        } else {
            self
        }
    }

    /// The periodic tick: stop on an error of the watched download, report
    /// the position of what plays, and report its end once the output has
    /// drained without being paused.
    pub open spec fn spec_tick(
        self,
        download_error: Option<Seq<char>>,
        position: u64,
        output_empty: bool,
        output_paused: bool,
    ) -> StepView {
        let s1 = self.spec_after_download_check(download_error);
        let failed = self.watching_download && download_error is Some;
        let ops1: Seq<SinkOp> = if failed && self.has_output {
            seq![SinkOp::Stop]
        } else {
            seq![]
        };
        let ev1: Seq<PlayerEventView> = if failed {
            seq![PlayerEventView::Error(download_error->0)]
        } else {
            seq![]
        };
        let ev2: Seq<PlayerEventView> = if s1.has_output && s1.is_playing {
            seq![PlayerEventView::Position(position)]
        } else {
            seq![]
        };
        let ends = s1.has_output && s1.is_playing && output_empty && !output_paused;
        let ev3: Seq<PlayerEventView> = if ends {
            seq![PlayerEventView::Finished]
        } else {
            seq![]
        };
        StepView {
            next: if ends {
                LoopView { is_playing: false, ..s1 }
            } else {
                s1
            },
            ops: ops1,
            events: ev1 + ev2 + ev3,
            fetch: None,
        }
    }
}

impl Reaction {
    /// A reaction with the given operations and events, and nothing to fetch.
    fn of(ops: Vec<SinkOp>, events: Vec<PlayerEvent>) -> (r: Reaction)
        ensures
            r.ops@ == ops@,
            r.events@ == events@,
            r.fetch is None,
    {
        Reaction { ops, events, fetch: None }
    }
}

/// A list of one event.
fn one_event(e: PlayerEvent) -> (v: Vec<PlayerEvent>)
    ensures
        v@ == seq![e],
{
    let mut v = Vec::new();
    v.push(e);
    v
}

impl PlayerLoop {
    /// The loop's start, given whether the audio output opened.
    pub fn start(output: Result<(), String>) -> (r: (PlayerLoop, Reaction))
        ensures
            r.1.view_with(r.0@) == LoopView::spec_start(
                match output {
                    Ok(u) => Ok(u),
                    Err(e) => Err(e@),
                },
            ),
    {
        match output {
            Ok(_) => {
                let r = Reaction::of(Vec::new(), Vec::new());
                let s = PlayerLoop {
                    has_output: true,
                    is_playing: false,
                    watching_download: false,
                    phase: PlayPhase::Idle,
                };
                assert(r.view_with(s@) =~= LoopView::spec_start(Ok(())));
                (s, r)
            },
            Err(e) => {
                let mut msg = String::from_str("Audio output unavailable: ");
                msg.append(e.as_str());
                let r = Reaction::of(Vec::new(), one_event(PlayerEvent::Error(msg)));
                let s = PlayerLoop {
                    has_output: false,
                    is_playing: false,
                    watching_download: false,
                    phase: PlayPhase::Idle,
                };
                assert(r.view_with(s@) =~= LoopView::spec_start(Err(e@)));
                (s, r)
            },
        }
    }

    /// The reply to `Play(song)`: announce it, then fetch its URL.
    pub fn begin_play(&mut self, song: &Song) -> (r: Reaction)
        ensures
            r.view_with(final(self)@) == old(self)@.spec_begin_play(song@),
    {
        self.phase = PlayPhase::Fetching {
            alias: song.alias.clone(),
            last_position: song.last_position,
        };
        let r = Reaction {
            ops: Vec::new(),
            events: one_event(PlayerEvent::Buffering(song.alias.clone())),
            fetch: Some(song.url.clone()),
        };
        assert(r.view_with(self@) =~= old(self)@.spec_begin_play(song@));
        r
    }

    /// The reply to a failed fetch.
    pub fn fetch_failed(&mut self, err: &str) -> (r: Reaction)
        ensures
            r.view_with(final(self)@) == old(self)@.spec_fetch_failed(err@),
    {
        let r = match self.phase {
            PlayPhase::Fetching { .. } => {
                self.phase = PlayPhase::Idle;
                let mut msg = String::from_str("Stream error: ");
                msg.append(err);
                Reaction::of(Vec::new(), one_event(PlayerEvent::Error(msg)))
            },
            _ => Reaction::of(Vec::new(), Vec::new()),
        };
        assert(r.view_with(self@) =~= old(self)@.spec_fetch_failed(err@));
        r
    }

    /// The reply to a fetched source that could not be decoded.
    pub fn decode_failed(&mut self, download_error: Option<String>, decode_error: &str) -> (r:
        Reaction)
        ensures
            r.view_with(final(self)@) == old(self)@.spec_decode_failed(
                opt_text_view(download_error),
                decode_error@,
            ),
    {
        let ghost dl = opt_text_view(download_error);
        let r = match self.phase {
            PlayPhase::Fetching { .. } => {
                self.phase = PlayPhase::Idle;
                let msg = match download_error {
                    Some(m) => m,
                    None => {
                        let mut m = String::from_str("Audio decode error: ");
                        m.append(decode_error);
                        m
                    },
                };
                Reaction::of(Vec::new(), one_event(PlayerEvent::Error(msg)))
            },
            _ => Reaction::of(Vec::new(), Vec::new()),
        };
        assert(r.view_with(self@) =~= old(self)@.spec_decode_failed(dl, decode_error@));
        r
    }

    /// The reply to a decoded source; `duration` is its length, in
    /// milliseconds.
    pub fn decoded(&mut self, duration: u64) -> (r: Reaction)
        ensures
            r.view_with(final(self)@) == old(self)@.spec_decoded(duration),
    {
        let mut ops = Vec::new();
        let mut phase = PlayPhase::Idle;
        std::mem::swap(&mut phase, &mut self.phase);
        match phase {
            PlayPhase::Fetching { alias, last_position } => {
                if self.has_output {
                    ops.push(SinkOp::Clear);
                    ops.push(SinkOp::Append);
                    ops.push(SinkOp::Play);
                    self.is_playing = true;
                    if last_position > 0 {
                        let target = if last_position < duration {
                            last_position
                        } else {
                            duration
                        };
                        ops.push(SinkOp::SeekTo(target));
                    }
                    self.phase = PlayPhase::Starting { alias, duration };
                }
            },
            other => {
                self.phase = other;
            },
        }
        let r = Reaction::of(ops, Vec::new());
        assert(r.view_with(self@) =~= old(self)@.spec_decoded(duration));
        r
    }

    /// The reply to the download check of the song being started.
    pub fn download_checked(&mut self, check: DownloadCheck) -> (r: Reaction)
        ensures
            r.view_with(final(self)@) == old(self)@.spec_download_checked(check.view_opt()),
    {
        let ghost c = check.view_opt();
        let mut phase = PlayPhase::Idle;
        std::mem::swap(&mut phase, &mut self.phase);
        let r = match phase {
            PlayPhase::Starting { alias, duration } => match check {
                DownloadCheck::Slot(Some(err)) => {
                    self.is_playing = false;
                    let mut ops = Vec::new();
                    ops.push(SinkOp::Stop);
                    Reaction::of(ops, one_event(PlayerEvent::Error(err)))
                },
                DownloadCheck::Slot(None) => {
                    self.watching_download = true;
                    Reaction::of(Vec::new(), one_event(PlayerEvent::Started(alias, duration)))
                },
                DownloadCheck::NoDownload => {
                    self.watching_download = false;
                    Reaction::of(Vec::new(), one_event(PlayerEvent::Started(alias, duration)))
                },
            },
            other => {
                self.phase = other;
                Reaction::of(Vec::new(), Vec::new())
            },
        };
        assert(r.view_with(self@) =~= old(self)@.spec_download_checked(c));
        r
    }

    /// The reply to `Stop`.
    pub fn stop(&mut self) -> (r: Reaction)
        ensures
            r.view_with(final(self)@) == old(self)@.spec_stop(),
    {
        let mut ops = Vec::new();
        if self.has_output {
            ops.push(SinkOp::Stop);
        }
        self.is_playing = false;
        self.watching_download = false;
        let r = Reaction::of(ops, one_event(PlayerEvent::Stopped));
        assert(r.view_with(self@) =~= old(self)@.spec_stop());
        r
    }

    /// The reply to `PauseResume`, given whether the output is paused.
    pub fn pause_resume(&self, output_paused: bool) -> (r: Reaction)
        ensures
            r.view_with(self@) == self@.spec_pause_resume(output_paused),
    {
        let mut ops = Vec::new();
        let mut events = Vec::new();
        if self.has_output {
            if output_paused {
                ops.push(SinkOp::Play);
                events.push(PlayerEvent::Resumed);
            } else if self.is_playing {
                ops.push(SinkOp::Pause);
                events.push(PlayerEvent::Paused);
            }
        }
        let r = Reaction::of(ops, events);
        assert(r.view_with(self@) =~= self@.spec_pause_resume(output_paused));
        r
    }

    /// The reply to `SeekTo(position)`.
    pub fn seek(&self, position: u64) -> (r: Reaction)
        ensures
            r.view_with(self@) == self@.spec_seek(position),
    {
        let mut ops = Vec::new();
        if self.has_output {
            ops.push(SinkOp::SeekTo(position));
        }
        let r = Reaction::of(ops, Vec::new());
        assert(r.view_with(self@) =~= self@.spec_seek(position));
        r
    }

    /// The periodic tick, given the watched download's error slot (read and
    /// emptied), the output's position, and whether it is drained or paused.
    pub fn tick(
        &mut self,
        download_error: Option<String>,
        position: u64,
        output_empty: bool,
        output_paused: bool,
    ) -> (r: Reaction)
        ensures
            r.view_with(final(self)@) == old(self)@.spec_tick(
                opt_text_view(download_error),
                position,
                output_empty,
                output_paused,
            ),
    {
        let ghost dl = opt_text_view(download_error);
        let mut ops = Vec::new();
        let mut events = Vec::new();
        if self.watching_download {
            if let Some(msg) = download_error {
                self.watching_download = false;
                if self.has_output {
                    ops.push(SinkOp::Stop);
                }
                self.is_playing = false;
                events.push(PlayerEvent::Error(msg));
            }
        }
        if self.has_output {
            if self.is_playing {
                events.push(PlayerEvent::Position(position));
            }
            if self.is_playing && output_empty && !output_paused {
                self.is_playing = false;
                events.push(PlayerEvent::Finished);
            }
        }
        let r = Reaction::of(ops, events);
        assert(r.view_with(self@) =~= old(self)@.spec_tick(
            dl,
            position,
            output_empty,
            output_paused,
        ));
        r
    }
}

} // verus!
