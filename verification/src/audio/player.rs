//! Session control of the playback engine.
//!
//! A session is opened for one stream address and runs until it is told to
//! quit or its output ends. The engine's decisions are a state machine: each
//! event that reaches the session yields the next state and one action on
//! the audio sink. Whoever owns the sink performs the action.

use crate::errors::{join, PlaybackError, PlaybackErrorView};
use crate::models::track::{parse_track_info, parsed_track, TrackInfo};
use vstd::prelude::*;

verus! {

/// Highest volume a sink is given, in percent.
pub const MAX_VOLUME: u8 = 100;

/// Bit rate assumed for a stream that advertises none, in kilobits per second.
pub const DEFAULT_BITRATE_KBPS: u32 = 128;

/// Seconds of audio to buffer before playback starts.
pub const PREFETCH_SECONDS: u64 = 5;

/// Commands that can be sent to control audio playback.
#[derive(Debug, Clone, Copy, PartialEq, Eq, Structural)]
pub enum PlayerCommand {
    /// Stop playback and quit
    Quit,
    /// Change volume (0-100)
    SetVolume(u8),
    /// Pause playback
    Pause,
    /// Resume playback
    Resume,
}

/// The level in `0..=100` nearest to `volume`.
pub open spec fn clamped_volume(volume: u8) -> u8 {
    if volume > MAX_VOLUME {
        MAX_VOLUME
    } else {
        volume
    }
}

/// Clamps a requested volume to the range the sink is given.
pub fn clamp_volume(volume: u8) -> (level: u8)
    ensures
        level == clamped_volume(volume),
        level <= MAX_VOLUME,
{
    if volume > MAX_VOLUME {
        MAX_VOLUME
    } else {
        volume
    }
}

/// Bytes to buffer ahead for a stream of the given bit rate: five seconds of
/// audio, counting a kilobit as 1024 bits and rounding the bytes per second of
/// a kilobit down.
pub open spec fn prefetch_size(bitrate_kbps: Option<u32>) -> int {
    let kbps = match bitrate_kbps {
        Some(rate) => rate,
        None => DEFAULT_BITRATE_KBPS,
    };
    (kbps / 8) * 1024 * PREFETCH_SECONDS
}

/// Sizes the prefetch buffer from the bit rate a stream advertises.
pub fn prefetch_bytes(bitrate_kbps: Option<u32>) -> (bytes: u64)
    ensures
        bytes == prefetch_size(bitrate_kbps),
{
    let kbps: u32 = match bitrate_kbps {
        Some(rate) => rate,
        None => DEFAULT_BITRATE_KBPS,
    };
    let per_second: u64 = (kbps / 8) as u64;
    per_second * 1024 * PREFETCH_SECONDS
}

/// The step of opening a session at which something failed.
#[derive(Debug, Clone, Copy, PartialEq, Eq, Structural)]
pub enum OpenStage {
    /// Setting up the HTTP client
    HttpClient,
    /// Reading the stream address
    Address,
    /// Connecting to the stream
    Connect,
    /// Setting up the buffered download
    Download,
    /// Opening the audio output device
    AudioOutput,
    /// Creating the audio sink
    AudioSink,
    /// Setting up the decoder
    Decoder,
}

/// The words with which a failure at `stage` is reported.
pub open spec fn stage_label(stage: OpenStage) -> Seq<char> {
    match stage {
        OpenStage::HttpClient => "Failed to create HTTP client: "@,
        OpenStage::Address => "Invalid URL: "@,
        OpenStage::Connect => "Failed to connect to stream: "@,
        OpenStage::Download => "Failed to create stream downloader: "@,
        OpenStage::AudioOutput => "Failed to open audio stream: "@,
        OpenStage::AudioSink => "Failed to create audio sink: "@,
        OpenStage::Decoder => "Failed to create audio decoder: "@,
    }
}

/// The error for a failure at `stage` with the given detail: a transport
/// error up to the download, an output device error for output and sink, a
/// decode error for the decoder.
pub open spec fn stage_failure(stage: OpenStage, detail: Seq<char>) -> PlaybackErrorView {
    let text = stage_label(stage) + detail;
    match stage {
        OpenStage::HttpClient | OpenStage::Address | OpenStage::Connect | OpenStage::Download =>
            PlaybackErrorView::Transport(text),
        OpenStage::AudioOutput | OpenStage::AudioSink => PlaybackErrorView::OutputDevice(text),
        OpenStage::Decoder => PlaybackErrorView::Decode(text),
    }
}

/// Names the error for a failure while opening a session.
pub fn open_failure(stage: OpenStage, detail: &str) -> (error: PlaybackError)
    ensures
        error@ == stage_failure(stage, detail@),
{
    match stage {
        OpenStage::HttpClient => PlaybackError::Transport(
            join("Failed to create HTTP client: ", detail),
        ),
        OpenStage::Address => PlaybackError::Transport(join("Invalid URL: ", detail)),
        OpenStage::Connect => PlaybackError::Transport(
            join("Failed to connect to stream: ", detail),
        ),
        OpenStage::Download => PlaybackError::Transport(
            join("Failed to create stream downloader: ", detail),
        ),
        OpenStage::AudioOutput => PlaybackError::OutputDevice(
            join("Failed to open audio stream: ", detail),
        ),
        OpenStage::AudioSink => PlaybackError::OutputDevice(
            join("Failed to create audio sink: ", detail),
        ),
        OpenStage::Decoder => PlaybackError::Decode(
            join("Failed to create audio decoder: ", detail),
        ),
    }
}

/// `reqwest::Url`, carried through unopened.
#[verifier::external_type_specification]
#[verifier::external_body]
pub struct ExUrl(reqwest::Url);

/// What the URL parser objects to in an address: `None` for an address it
/// accepts, else the text of its error.
pub uninterp spec fn url_parse_error(address: Seq<char>) -> Option<Seq<char>>;

/// Parses an address with the `FromStr` impl of `reqwest::Url`. The parser
/// reads nothing but the text, so whether it accepts an address, and the
/// error it displays if not, depend on the address alone.
#[verifier::external_body]
fn parse_url(address: &str) -> (parsed: Result<reqwest::Url, String>)
    ensures
        match parsed {
            Ok(_) => url_parse_error(address@) is None,
            Err(detail) => url_parse_error(address@) == Some(detail@),
        },
{
    match address.parse::<reqwest::Url>() {
        Ok(url) => Ok(url),
        Err(error) => Err(error.to_string()),
    }
}

/// Reads a resolved stream address. An address that the URL parser rejects
/// is a failure of the address stage.
pub fn stream_address(address: &str) -> (result: Result<reqwest::Url, PlaybackError>)
    ensures
        match url_parse_error(address@) {
            None => result is Ok,
            Some(detail) => result matches Err(e) && e@ == stage_failure(
                OpenStage::Address,
                detail,
            ),
        },
{
    match parse_url(address) {
        Ok(url) => Ok(url),
        Err(detail) => Err(open_failure(OpenStage::Address, detail.as_str())),
    }
}

/// Where a session stands.
#[derive(Debug, Clone, Copy, PartialEq, Eq, Structural)]
pub enum SessionState {
    /// The address is being resolved and the transport set up
    Connecting,
    /// Audio is playing
    Streaming,
    /// The sink is muted; connection and buffer stay up
    Paused,
    /// The session is over
    Terminated,
}

/// What can happen to a session.
#[derive(Debug, Clone, Copy, PartialEq, Eq, Structural)]
pub enum SessionEvent {
    /// The output has accepted the first audio unit
    Started,
    /// Opening the session failed
    OpenFailed,
    /// A command arrived
    Command(PlayerCommand),
    /// The command queue was closed by its producers
    CommandsClosed,
    /// The output ended, whatever the cause
    OutputEnded,
}

/// What is to be done to the audio sink.
#[derive(Debug, Clone, Copy, PartialEq, Eq, Structural)]
pub enum SinkAction {
    /// Nothing
    Nothing,
    /// Set the gain to this many percent
    SetVolume(u8),
    /// Suspend output
    Pause,
    /// Resume output
    Resume,
    /// Stop the output and discard the transport
    Stop,
}

/// A playback session: its state and the volume its sink was last given.
#[derive(Debug, Clone, Copy, PartialEq, Eq, Structural)]
pub struct Session {
    pub state: SessionState,
    /// Sink volume in percent
    pub volume: u8,
}

/// Whether an event ends a session: a quit command, the closing of the
/// command queue, the end of the output, or a failure to open.
pub open spec fn is_terminal(event: SessionEvent) -> bool {
    event == SessionEvent::Command(PlayerCommand::Quit) || event == SessionEvent::CommandsClosed
        || event == SessionEvent::OutputEnded || event == SessionEvent::OpenFailed
}

/// The state, volume and sink action that follow from an event.
///
/// A terminated session stays as it is. Any terminal event stops the output
/// and terminates the session. A volume command sets the sink to the clamped
/// level and changes nothing else. Pause and resume act on a session that is
/// streaming or paused; while it is still connecting there is no output to
/// act on.
pub open spec fn next(session: Session, event: SessionEvent) -> (Session, SinkAction) {
    if session.state == SessionState::Terminated {
        (session, SinkAction::Nothing)
    } else if is_terminal(event) {
        (Session { state: SessionState::Terminated, volume: session.volume }, SinkAction::Stop)
    } else {
        match event {
            SessionEvent::Started => if session.state == SessionState::Connecting {
                (Session { state: SessionState::Streaming, volume: session.volume }, SinkAction::Nothing)
            } else {
                (session, SinkAction::Nothing)
            },
            SessionEvent::Command(PlayerCommand::SetVolume(volume)) => (
                Session { state: session.state, volume: clamped_volume(volume) },
                SinkAction::SetVolume(clamped_volume(volume)),
            ),
            SessionEvent::Command(PlayerCommand::Pause) => if session.state
                == SessionState::Connecting {
                (session, SinkAction::Nothing)
            } else {
                (Session { state: SessionState::Paused, volume: session.volume }, SinkAction::Pause)
            },
            SessionEvent::Command(PlayerCommand::Resume) => if session.state
                == SessionState::Connecting {
                (session, SinkAction::Nothing)
            } else {
                (
                    Session { state: SessionState::Streaming, volume: session.volume },
                    SinkAction::Resume,
                )
            },
            _ => (session, SinkAction::Nothing),
        }
    }
}

impl Session {
    /// A session's volume never exceeds the maximum.
    pub open spec fn wf(&self) -> bool {
        self.volume <= MAX_VOLUME
    }

    /// Whether the session has not ended.
    pub open spec fn is_live(&self) -> bool {
        self.state != SessionState::Terminated
    }

    /// Begins a session at the given volume, or at full volume if none is
    /// given.
    pub fn new(initial_volume: Option<u8>) -> (session: Session)
        ensures
            session.wf(),
            session.state == SessionState::Connecting,
            session.volume == match initial_volume {
                Some(volume) => clamped_volume(volume),
                None => MAX_VOLUME,
            },
    {
        let volume = match initial_volume {
            Some(volume) => clamp_volume(volume),
            None => MAX_VOLUME,
        };
        Session { state: SessionState::Connecting, volume }
    }

    /// Takes one event and returns what is to be done to the sink.
    pub fn step(&mut self, event: SessionEvent) -> (action: SinkAction)
        ensures
            (*final(self), action) == next(*old(self), event),
            old(self).wf() ==> final(self).wf(),
    {
        if self.state == SessionState::Terminated {
            return SinkAction::Nothing;
        }
        match event {
            SessionEvent::Command(PlayerCommand::Quit)
            | SessionEvent::CommandsClosed
            | SessionEvent::OutputEnded
            | SessionEvent::OpenFailed => {
                self.state = SessionState::Terminated;
                SinkAction::Stop
            },
            SessionEvent::Started => {
                if self.state == SessionState::Connecting {
                    self.state = SessionState::Streaming;
                }
                SinkAction::Nothing
            },
            SessionEvent::Command(PlayerCommand::SetVolume(volume)) => {
                let level = clamp_volume(volume);
                self.volume = level;
                SinkAction::SetVolume(level)
            },
            SessionEvent::Command(PlayerCommand::Pause) => {
                if self.state == SessionState::Connecting {
                    SinkAction::Nothing
                } else {
                    self.state = SessionState::Paused;
                    SinkAction::Pause
                }
            },
            SessionEvent::Command(PlayerCommand::Resume) => {
                if self.state == SessionState::Connecting {
                    SinkAction::Nothing
                } else {
                    self.state = SessionState::Streaming;
                    SinkAction::Resume
                }
            },
        }
    }

    /// Closes the session, in whatever state it is: the output is asked to
    /// stop, also where it was stopped before or never started, and the
    /// session is over.
    pub fn close(&mut self) -> (action: SinkAction)
        ensures
            *final(self) == (Session { state: SessionState::Terminated, volume: old(self).volume }),
            action == SinkAction::Stop,
    {
        self.state = SessionState::Terminated;
        SinkAction::Stop
    }
}

/// What is done to the sink when a session opens: it is set to the initial
/// volume, clamped, where one is given, and left at its own level otherwise.
pub fn opening_action(initial_volume: Option<u8>) -> (action: SinkAction)
    ensures
        action == match initial_volume {
            Some(volume) => SinkAction::SetVolume(clamped_volume(volume)),
            None => SinkAction::Nothing,
        },
{
    match initial_volume {
        Some(volume) => SinkAction::SetVolume(clamp_volume(volume)),
        None => SinkAction::Nothing,
    }
}

/// The event that a receive on the command queue stands for: the command,
/// or the closing of the queue.
pub fn command_event(received: Option<PlayerCommand>) -> (event: SessionEvent)
    ensures
        event == match received {
            Some(command) => SessionEvent::Command(command),
            None => SessionEvent::CommandsClosed,
        },
{
    match received {
        Some(command) => SessionEvent::Command(command),
        None => SessionEvent::CommandsClosed,
    }
}

/// Publishes the track that a metadata frame announces, provided the shared
/// cell could be had without waiting. `slot` is the cell's content if the
/// attempt to take the cell succeeded, and `None` if the cell is held
/// elsewhere: then nothing is written and nothing waited for.
pub fn publish_track(slot: Option<&mut TrackInfo>, stream_title: &str) -> (written: bool)
    ensures
        written == (slot is Some),
        slot matches Some(cell) ==> final(cell)@ == parsed_track(stream_title@),
{
    match slot {
        Some(cell) => {
            *cell = parse_track_info(stream_title);
            true
        },
        None => false,
    }
}

/// What running a session over a queue of events comes to.
pub struct Trace {
    /// The session after the last event taken
    pub session: Session,
    /// The sink actions, one for each event taken, in order
    pub actions: Seq<SinkAction>,
}

/// Runs a session over `events`, in order, until it terminates or the
/// events run out. Events behind the one that terminated it are not taken.
pub open spec fn trace(session: Session, events: Seq<SessionEvent>) -> Trace
    decreases events.len(),
{
    if events.len() == 0 || !session.is_live() {
        Trace { session, actions: Seq::empty() }
    } else {
        let (after, action) = next(session, events[0]);
        let rest = trace(after, events.drop_first());
        Trace { session: rest.session, actions: seq![action] + rest.actions }
    }
}

/// The report of a run.
pub struct RunReport {
    /// The sink actions, one for each event taken, in order
    pub actions: Vec<SinkAction>,
    /// Whether the caller is asked to switch channels. A session never asks:
    /// whatever ended it, it ended normally.
    pub change_channel: bool,
}

/// Taking one more event extends a trace by that event's action.
proof fn lemma_trace_extend(session: Session, events: Seq<SessionEvent>, k: int)
    requires
        0 <= k < events.len(),
        trace(session, events.take(k)).session.is_live(),
    ensures
        trace(session, events.take(k + 1)).session == next(
            trace(session, events.take(k)).session,
            events[k],
        ).0,
        trace(session, events.take(k + 1)).actions == trace(session, events.take(k)).actions.push(
            next(trace(session, events.take(k)).session, events[k]).1,
        ),
        trace(session, events.take(k)).actions.len() == k,
    decreases k,
{
    let first = next(session, events[0]);
    if k == 0 {
        assert(events.take(0) == Seq::<SessionEvent>::empty());
        assert(events.take(1)[0] == events[0]);
        assert(events.take(1).drop_first() == Seq::<SessionEvent>::empty());
        assert(trace(first.0, Seq::<SessionEvent>::empty()).actions == Seq::<SinkAction>::empty());
        assert(trace(session, events.take(0)).session == session);
        assert(seq![first.1] + Seq::<SinkAction>::empty() == Seq::<SinkAction>::empty().push(
            first.1,
        ));
    } else {
        let tail = events.drop_first();
        assert(events.take(k)[0] == events[0]);
        assert(events.take(k + 1)[0] == events[0]);
        assert(events.take(k).drop_first() == tail.take(k - 1));
        assert(events.take(k + 1).drop_first() == tail.take(k));
        assert(tail[k - 1] == events[k]);
        assert(session.is_live());
        let shorter = trace(first.0, tail.take(k - 1));
        assert(trace(session, events.take(k)).session == shorter.session);
        assert(trace(session, events.take(k)).actions == seq![first.1] + shorter.actions);
        lemma_trace_extend(first.0, tail, k - 1);
        let action = next(shorter.session, tail[k - 1]).1;
        let longer = trace(first.0, tail.take(k));
        assert(trace(session, events.take(k + 1)).session == longer.session);
        assert(trace(session, events.take(k + 1)).actions == seq![first.1] + longer.actions);
        assert(seq![first.1] + shorter.actions.push(action) == (seq![first.1]
            + shorter.actions).push(action));
    }
}

/// Events behind the one that ended the session change nothing.
proof fn lemma_trace_stops(session: Session, events: Seq<SessionEvent>, k: int)
    requires
        0 <= k <= events.len(),
        !trace(session, events.take(k)).session.is_live(),
    ensures
        trace(session, events) == trace(session, events.take(k)),
    decreases k,
{
    if k == 0 || !session.is_live() {
        assert(events.take(0) == Seq::<SessionEvent>::empty());
    } else {
        let after = next(session, events[0]).0;
        let tail = events.drop_first();
        assert(events.take(k).drop_first() == tail.take(k - 1));
        lemma_trace_stops(after, tail, k - 1);
    }
}

/// Runs a session over the events of a queue until it terminates or the
/// queue is empty, and reports the sink actions in order.
pub fn run(session: &mut Session, events: &Vec<SessionEvent>) -> (report: RunReport)
    ensures
        old(session).wf() ==> final(session).wf(),
        *final(session) == trace(*old(session), events@).session,
        report.actions@ == trace(*old(session), events@).actions,
        !report.change_channel,
{
    let ghost start = *session;
    let mut actions: Vec<SinkAction> = Vec::new();
    let mut k: usize = 0;
    proof {
        assert(events@.take(0) == Seq::<SessionEvent>::empty());
    }
    while k < events.len() && session.state != SessionState::Terminated
        invariant
            k <= events.len(),
            start.wf() ==> session.wf(),
            *session == trace(start, events@.take(k as int)).session,
            actions@ == trace(start, events@.take(k as int)).actions,
        decreases events.len() - k,
    {
        proof {
            lemma_trace_extend(start, events@, k as int);
        }
        let action = session.step(events[k]);
        actions.push(action);
        k += 1;
    }
    proof {
        if k < events.len() {
            lemma_trace_stops(start, events@, k as int);
        } else {
            assert(events@.take(k as int) == events@);
        }
    }
    RunReport { actions, change_channel: false }
}

/// A volume command never hands the sink a level above the maximum: the
/// level it hands on is the requested one, or the maximum if that is lower.
/// Sending the same volume command a second time changes nothing and hands
/// the sink the same level again.
pub proof fn lemma_set_volume_clamps_and_is_idempotent(session: Session, volume: u8)
    requires
        session.is_live(),
    ensures
        ({
            let event = SessionEvent::Command(PlayerCommand::SetVolume(volume));
            let (once, first) = next(session, event);
            let (twice, second) = next(once, event);
            &&& first == SinkAction::SetVolume(clamped_volume(volume))
            &&& clamped_volume(volume) <= MAX_VOLUME
            &&& volume <= MAX_VOLUME ==> clamped_volume(volume) == volume
            &&& once.state == session.state
            &&& twice == once
            &&& second == first
        }),
{
}

/// No step hands the sink a volume above the maximum, and no step leaves a
/// session with one.
pub proof fn lemma_volume_stays_in_range(session: Session, event: SessionEvent)
    requires
        session.wf(),
    ensures
        next(session, event).0.wf(),
        next(session, event).1 matches SinkAction::SetVolume(level) ==> level <= MAX_VOLUME,
{
}

/// A quit command, or the closing of the command queue, ends a live session
/// in whatever state it is, and stops the output.
pub proof fn lemma_quit_terminates(session: Session, event: SessionEvent)
    requires
        session.is_live(),
        event == SessionEvent::Command(PlayerCommand::Quit) || event
            == SessionEvent::CommandsClosed,
    ensures
        next(session, event) == (
            Session { state: SessionState::Terminated, volume: session.volume },
            SinkAction::Stop,
        ),
{
}

/// A session is stopped exactly once and nothing is done to the sink after
/// that: a trace holds a stop only as its last action, and it ends in a stop
/// exactly when the session has terminated.
pub proof fn lemma_stop_is_last(session: Session, events: Seq<SessionEvent>)
    requires
        session.is_live(),
    ensures
        ({
            let run = trace(session, events);
            &&& run.actions.len() <= events.len()
            &&& forall|i: int|
                0 <= i < run.actions.len() - 1 ==> #[trigger] run.actions[i] != SinkAction::Stop
            &&& !run.session.is_live() <==> run.actions.len() > 0 && run.actions.last()
                == SinkAction::Stop
        }),
    decreases events.len(),
{
    if events.len() > 0 {
        let (after, action) = next(session, events[0]);
        let rest = trace(after, events.drop_first());
        let run = trace(session, events);
        if after.is_live() {
            lemma_stop_is_last(after, events.drop_first());
            assert(action != SinkAction::Stop);
            assert forall|i: int| 0 <= i < run.actions.len() - 1 implies #[trigger] run.actions[i]
                != SinkAction::Stop by {
                if i > 0 {
                    assert(run.actions[i] == rest.actions[i - 1]);
                }
            }
            if rest.actions.len() > 0 {
                assert(run.actions.last() == rest.actions.last());
            }
        } else {
            assert(rest.actions.len() == 0);
            assert(run.actions.len() == 1);
            assert(run.actions[0] == action);
        }
    }
}

/// A session that is sent a quit command returns after a bounded number of
/// steps: if the event at index `at` is a quit, or the closing of the
/// command queue, the run takes at most `at + 1` events, ends terminated, and
/// its last action stops the output.
pub proof fn lemma_quit_is_bounded(session: Session, events: Seq<SessionEvent>, at: int)
    requires
        session.is_live(),
        0 <= at < events.len(),
        events[at] == SessionEvent::Command(PlayerCommand::Quit) || events[at]
            == SessionEvent::CommandsClosed,
    ensures
        !trace(session, events).session.is_live(),
        1 <= trace(session, events).actions.len() <= at + 1,
        trace(session, events).actions.last() == SinkAction::Stop,
    decreases at,
{
    let (after, action) = next(session, events[0]);
    let rest = trace(after, events.drop_first());
    if at == 0 || !after.is_live() {
        assert(!after.is_live());
        assert(rest.actions.len() == 0);
        assert(trace(session, events).actions[0] == action);
    } else {
        lemma_quit_is_bounded(after, events.drop_first(), at - 1);
        assert(trace(session, events).actions.last() == rest.actions.last());
    }
}

/// `tokio::sync::Mutex`, carried through unopened.
#[verifier::external_type_specification]
#[verifier::external_body]
#[verifier::reject_recursive_types(T)]
pub struct ExMutex<T: ?Sized>(tokio::sync::Mutex<T>);

/// `tokio::sync::MutexGuard`, carried through unopened.
#[verifier::external_type_specification]
#[verifier::external_body]
#[verifier::reject_recursive_types(T)]
pub struct ExMutexGuard<'a, T: ?Sized>(tokio::sync::MutexGuard<'a, T>);

/// Tries to take the shared cell with `tokio::sync::Mutex::try_lock`, which
/// returns at once. Whether the cell is free depends on who else holds it, so
/// nothing is promised of the result.
#[verifier::external_body]
fn try_take<'a>(cell: &'a tokio::sync::Mutex<TrackInfo>) -> (taken: Option<
    tokio::sync::MutexGuard<'a, TrackInfo>,
>) {
    match cell.try_lock() {
        Ok(guard) => Some(guard),
        Err(_) => None,
    }
}

/// Opens a guard on the shared cell for writing, through the `DerefMut` impl
/// of `tokio::sync::MutexGuard`.
#[verifier::external_body]
fn content_of<'a, 'b>(guard: &'a mut tokio::sync::MutexGuard<'b, TrackInfo>) -> (content: &'a mut
    TrackInfo) {
    &mut **guard
}

/// Publishes the track that a metadata frame announces into the shared cell,
/// unless the cell is held elsewhere: then the frame is dropped. The cell is
/// tried once, never waited for. Returns the track as the cell now holds it.
pub fn publish_metadata(cell: &tokio::sync::Mutex<TrackInfo>, stream_title: &str) -> (published:
    Option<TrackInfo>)
    ensures
        published matches Some(track) ==> track@ == parsed_track(stream_title@),
{
    match try_take(cell) {
        Some(mut guard) => {
            let content = content_of(&mut guard);
            publish_track(Some(&mut *content), stream_title);
            Some(TrackInfo { artist: content.artist.clone(), title: content.title.clone() })
        },
        None => None,
    }
}

} // verus!
