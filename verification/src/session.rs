//! The feed session of one symbol: the life cycle of its connection as a
//! state machine that the caller drives with events, and the handling of a
//! message once it has been read.

use vstd::prelude::*;
use crate::dedup::{after_candidate, lets_through, DedupGate, SignalKey};
use crate::engine::OFIEngine;
use crate::feed::{apply_message, books_after_message, trades_after_message, BitgetWsResponse};
use crate::signals::{SignalType, SignalView, TradingSignal};

verus! {

/// Pause between the end of one connection and the next attempt.
pub const BACKOFF_MS: u64 = 5_000;

/// Time within which the connection must have been opened.
pub const CONNECT_TIMEOUT_MS: u64 = 10_000;

/// Time within which the subscription request must have been sent.
pub const SUBSCRIBE_TIMEOUT_MS: u64 = 10_000;

/// Time between two pings.
pub const PING_INTERVAL_MS: u64 = 25_000;

/// Longest silence of the venue that a session bears.
pub const INACTIVITY_LIMIT_MS: u64 = 120_000;

/// Time within which an analysis must have ended.
pub const ANALYSIS_TIMEOUT_MS: u64 = 10_000;

/// Time within which a signal must have been handed on.
pub const SIGNAL_SEND_TIMEOUT_MS: u64 = 5_000;

/// Room of the channel that takes the signals of a session.
pub const SIGNAL_CHANNEL_CAPACITY: usize = 1_000;

/// Where a session stands.
#[derive(Clone, Copy, Debug, PartialEq, Eq, Structural)]
pub enum SessionState {
    /// Not connected, and not waiting either.
    Idle,
    /// Waiting before the next attempt to connect.
    Backoff,
    /// Opening the connection.
    Connecting,
    /// Connected; the subscription request is on its way.
    Subscribed,
    /// Subscribed; messages come in.
    Streaming,
    /// Giving up the connection.
    Closing,
    /// Stopped for good.
    Stopped,
}

/// What happened to a session.
#[derive(Clone, Copy, Debug, PartialEq, Eq, Structural)]
pub enum SessionEvent {
    /// The session is to run, or to run again.
    Start,
    /// The pause before an attempt is over.
    BackoffElapsed,
    /// The connection is open.
    Connected,
    /// The connection could not be opened.
    ConnectFailed,
    /// The subscription request has been sent.
    SubscriptionSent,
    /// The subscription request could not be sent in time.
    SubscriptionFailed,
    /// It is time for a ping.
    PingDue,
    /// A ping could not be sent.
    PingFailed,
    /// A frame has come in.
    FrameReceived,
    /// The venue has closed the connection.
    CloseReceived,
    /// Reading from the connection failed.
    ReadFailed,
    /// The connection has ended.
    StreamEnded,
    /// The connection has been given up.
    Closed,
    /// Nobody takes the signals of the session any more.
    SignalChannelClosed,
    /// The session is to stop.
    StopRequested,
}

/// What the caller is to do next.
#[derive(Clone, Copy, Debug, PartialEq, Eq, Structural)]
pub enum SessionAction {
    /// Nothing; wait for the next event.
    Nothing,
    /// Open the connection, within `CONNECT_TIMEOUT_MS`.
    Connect,
    /// Send the subscription request, within `SUBSCRIBE_TIMEOUT_MS`.
    Subscribe,
    /// Send a ping.
    Ping,
    /// Hand the frame to the message handling; the analysis is given
    /// `ANALYSIS_TIMEOUT_MS`.
    Handle,
    /// Give up the connection.
    Close,
    /// Wait for `BACKOFF_MS`.
    Sleep,
    /// End the session.
    Finish,
}

/// What of a session its life cycle depends on.
pub struct SessionPhase {
    pub state: SessionState,
    /// Attempts to connect so far.
    pub attempts: u64,
    /// Time of the last frame that came in.
    pub last_message_ms: u64,
}

/// Whether the venue has been silent for too long at `now_ms`.
pub open spec fn is_silent(last_message_ms: u64, now_ms: u64) -> bool {
    now_ms > last_message_ms && now_ms - last_message_ms > INACTIVITY_LIMIT_MS
}

/// A session that enters `Connecting`.
pub open spec fn connecting(phase: SessionPhase) -> SessionPhase {
    SessionPhase {
        state: SessionState::Connecting,
        attempts: if phase.attempts < u64::MAX { (phase.attempts + 1) as u64 } else { phase.attempts },
        ..phase
    }
}

/// A session in another state.
pub open spec fn moved(phase: SessionPhase, state: SessionState) -> SessionPhase {
    SessionPhase { state, ..phase }
}

/// The life cycle of a session: the state after an event at `now_ms`, and
/// what the caller is to do.
///
/// A stop request ends the session from any state. The first attempt to
/// connect is made at once, each later one after a pause. A failure of the
/// connection, a close by the venue, the end of the stream and a silence
/// longer than `INACTIVITY_LIMIT_MS` lead to `Closing`, and from there
/// through `Idle` and `Backoff` to the next attempt. An event that has no
/// meaning in a state changes nothing.
pub open spec fn transition(phase: SessionPhase, event: SessionEvent, now_ms: u64) -> (SessionPhase, SessionAction) {
    if phase.state == SessionState::Stopped {
        (phase, SessionAction::Nothing)
    } else if event == SessionEvent::StopRequested {
        (moved(phase, SessionState::Stopped), SessionAction::Finish)
    } else {
        match (phase.state, event) {
            (SessionState::Idle, SessionEvent::Start) => if phase.attempts == 0 {
                (connecting(phase), SessionAction::Connect)
            } else {
                (moved(phase, SessionState::Backoff), SessionAction::Sleep)
            },
            (SessionState::Backoff, SessionEvent::BackoffElapsed) => (connecting(phase), SessionAction::Connect),
            (SessionState::Connecting, SessionEvent::Connected) => (
                moved(phase, SessionState::Subscribed),
                SessionAction::Subscribe,
            ),
            (SessionState::Connecting, SessionEvent::ConnectFailed) => (
                moved(phase, SessionState::Closing),
                SessionAction::Close,
            ),
            (SessionState::Subscribed, SessionEvent::SubscriptionSent) => (
                SessionPhase { state: SessionState::Streaming, last_message_ms: now_ms, ..phase },
                SessionAction::Nothing,
            ),
            (SessionState::Subscribed, SessionEvent::SubscriptionFailed) => (
                moved(phase, SessionState::Closing),
                SessionAction::Close,
            ),
            (SessionState::Streaming, SessionEvent::FrameReceived) => (
                SessionPhase { last_message_ms: now_ms, ..phase },
                SessionAction::Handle,
            ),
            (SessionState::Streaming, SessionEvent::PingDue) => if is_silent(phase.last_message_ms, now_ms) {
                (moved(phase, SessionState::Closing), SessionAction::Close)
            } else {
                (phase, SessionAction::Ping)
            },
            (SessionState::Streaming, SessionEvent::PingFailed) => (
                moved(phase, SessionState::Closing),
                SessionAction::Close,
            ),
            (SessionState::Streaming, SessionEvent::CloseReceived) => (
                moved(phase, SessionState::Closing),
                SessionAction::Close,
            ),
            (SessionState::Streaming, SessionEvent::ReadFailed) => (
                moved(phase, SessionState::Closing),
                SessionAction::Close,
            ),
            (SessionState::Streaming, SessionEvent::StreamEnded) => (
                moved(phase, SessionState::Closing),
                SessionAction::Close,
            ),
            (SessionState::Streaming, SessionEvent::SignalChannelClosed) => (
                moved(phase, SessionState::Stopped),
                SessionAction::Finish,
            ),
            (SessionState::Closing, SessionEvent::Closed) => (moved(phase, SessionState::Idle), SessionAction::Nothing),
            _ => (phase, SessionAction::Nothing),
        }
    }
}

/// The time that the caller is to allow for an action, where it has a
/// deadline.
pub fn action_deadline_ms(action: SessionAction) -> (r: Option<u64>)
    ensures
        r == match action {
            SessionAction::Connect => Some(CONNECT_TIMEOUT_MS),
            SessionAction::Subscribe => Some(SUBSCRIBE_TIMEOUT_MS),
            SessionAction::Sleep => Some(BACKOFF_MS),
            SessionAction::Handle => Some(ANALYSIS_TIMEOUT_MS),
            _ => None,
        },
{
    match action {
        SessionAction::Connect => Some(CONNECT_TIMEOUT_MS),
        SessionAction::Subscribe => Some(SUBSCRIBE_TIMEOUT_MS),
        SessionAction::Sleep => Some(BACKOFF_MS),
        SessionAction::Handle => Some(ANALYSIS_TIMEOUT_MS),
        _ => None,
    }
}

/// The session of one symbol: where its connection stands, and the signals
/// that it has handed on of late.
#[derive(Debug)]
pub struct FeedSession {
    symbol: String,
    state: SessionState,
    attempts: u64,
    last_message_ms: u64,
    recent_signals: DedupGate,
}

/// The signal that a session hands on after a message, if any: that of the
/// analysis, where a message with data came in, the analysis found a signal
/// and the deduplication lets it through.
pub open spec fn signal_after(
    analysis: SignalView,
    due: bool,
    gate: Map<SignalKey, u64>,
    now_ms: u64,
) -> Option<SignalView> {
    if due && analysis.signal_type != SignalType::NoSignal && lets_through(
        gate,
        (analysis.symbol, analysis.signal_type),
        now_ms,
    ) {
        Some(analysis)
    } else {
        None
    }
}

/// The recent signals of a session after a message.
pub open spec fn gate_after_message(
    analysis: SignalView,
    due: bool,
    gate: Map<SignalKey, u64>,
    now_ms: u64,
) -> Map<SignalKey, u64> {
    if due && analysis.signal_type != SignalType::NoSignal {
        after_candidate(gate, (analysis.symbol, analysis.signal_type), now_ms)
    } else {
        gate
    }
}

impl FeedSession {
    /// The symbol of the session.
    pub closed spec fn symbol_view(&self) -> Seq<char> {
        self.symbol@
    }

    /// What the life cycle depends on.
    pub closed spec fn phase(&self) -> SessionPhase {
        SessionPhase { state: self.state, attempts: self.attempts, last_message_ms: self.last_message_ms }
    }

    /// The signals handed on of late.
    pub closed spec fn gate(&self) -> Map<SignalKey, u64> {
        self.recent_signals@
    }

    /// An idle session of `symbol` that has not tried to connect yet.
    pub fn new(symbol: &str) -> (r: Self)
        ensures
            r.symbol_view() == symbol@,
            r.phase() == (SessionPhase { state: SessionState::Idle, attempts: 0, last_message_ms: 0 }),
            r.gate() == Map::<SignalKey, u64>::empty(),
    {
        FeedSession {
            symbol: String::from_str(symbol),
            state: SessionState::Idle,
            attempts: 0,
            last_message_ms: 0,
            recent_signals: DedupGate::new(),
        }
    }

    /// The symbol of the session.
    pub fn symbol(&self) -> (r: &str)
        ensures
            r@ == self.symbol_view(),
    {
        self.symbol.as_str()
    }

    /// Where the session stands.
    pub fn state(&self) -> (r: SessionState)
        ensures
            r == self.phase().state,
    {
        self.state
    }

    /// Attempts to connect so far.
    pub fn attempts(&self) -> (r: u64)
        ensures
            r == self.phase().attempts,
    {
        self.attempts
    }

    /// Takes an event at `now_ms` and says what to do next.
    pub fn step(&mut self, event: SessionEvent, now_ms: u64) -> (action: SessionAction)
        ensures
            (final(self).phase(), action) == transition(old(self).phase(), event, now_ms),
            final(self).symbol_view() == old(self).symbol_view(),
            final(self).gate() == old(self).gate(),
    {
        if self.state == SessionState::Stopped {
            return SessionAction::Nothing;
        }
        if event == SessionEvent::StopRequested {
            self.state = SessionState::Stopped;
            return SessionAction::Finish;
        }
        match (self.state, event) {
            (SessionState::Idle, SessionEvent::Start) => {
                if self.attempts == 0 {
                    self.enter_connecting();
                    SessionAction::Connect
                } else {
                    self.state = SessionState::Backoff;
                    SessionAction::Sleep
                }
            },
            (SessionState::Backoff, SessionEvent::BackoffElapsed) => {
                self.enter_connecting();
                SessionAction::Connect
            },
            (SessionState::Connecting, SessionEvent::Connected) => {
                self.state = SessionState::Subscribed;
                SessionAction::Subscribe
            },
            (SessionState::Subscribed, SessionEvent::SubscriptionSent) => {
                self.state = SessionState::Streaming;
                self.last_message_ms = now_ms;
                SessionAction::Nothing
            },
            (SessionState::Streaming, SessionEvent::FrameReceived) => {
                self.last_message_ms = now_ms;
                SessionAction::Handle
            },
            (SessionState::Streaming, SessionEvent::PingDue) => {
                if now_ms > self.last_message_ms && now_ms - self.last_message_ms > INACTIVITY_LIMIT_MS {
                    self.state = SessionState::Closing;
                    SessionAction::Close
                } else {
                    SessionAction::Ping
                }
            },
            (SessionState::Streaming, SessionEvent::SignalChannelClosed) => {
                self.state = SessionState::Stopped;
                SessionAction::Finish
            },
            (SessionState::Connecting, SessionEvent::ConnectFailed)
            | (SessionState::Subscribed, SessionEvent::SubscriptionFailed)
            | (SessionState::Streaming, SessionEvent::PingFailed)
            | (SessionState::Streaming, SessionEvent::CloseReceived)
            | (SessionState::Streaming, SessionEvent::ReadFailed)
            | (SessionState::Streaming, SessionEvent::StreamEnded) => {
                self.state = SessionState::Closing;
                SessionAction::Close
            },
            (SessionState::Closing, SessionEvent::Closed) => {
                self.state = SessionState::Idle;
                SessionAction::Nothing
            },
            _ => SessionAction::Nothing,
        }
    }

    fn enter_connecting(&mut self)
        ensures
            final(self).phase() == connecting(old(self).phase()),
            final(self).symbol_view() == old(self).symbol_view(),
            final(self).gate() == old(self).gate(),
    {
        self.state = SessionState::Connecting;
        if self.attempts < u64::MAX {
            self.attempts = self.attempts + 1;
        }
    }

    /// Handles a message that was read at `now_ms`: applies it to the
    /// engine, analyses the session's symbol if the message carried data,
    /// and returns the signal to hand on, if the analysis found one that
    /// the deduplication lets through.
    pub fn handle_message(&mut self, engine: &mut OFIEngine, message: &BitgetWsResponse, now_ms: u64) -> (r:
        Option<TradingSignal>)
        ensures
            final(engine).books() == books_after_message(old(engine).books(), *message),
            final(engine).trades() == trades_after_message(
                old(engine).trades(),
                old(engine).settings().trade_storage_limit as nat,
                *message,
            ),
            final(engine).params() == old(engine).params(),
            final(engine).settings() == old(engine).settings(),
            final(self).phase() == old(self).phase(),
            final(self).symbol_view() == old(self).symbol_view(),
            final(self).gate() == gate_after_message(
                final(engine).analysis(old(self).symbol_view()),
                message.data.is_some(),
                old(self).gate(),
                now_ms,
            ),
            r.is_some() == signal_after(
                final(engine).analysis(old(self).symbol_view()),
                message.data.is_some(),
                old(self).gate(),
                now_ms,
            ).is_some(),
            r.is_some() ==> r.unwrap()@ == final(engine).analysis(old(self).symbol_view()),
    {
        let due = apply_message(engine, message);
        if !due {
            return None;
        }
        let signal = engine.analyze_symbol(self.symbol.as_str());
        if signal.signal_type == SignalType::NoSignal {
            return None;
        }
        if self.recent_signals.offer(signal.symbol.as_str(), signal.signal_type, now_ms) {
            Some(signal)
        } else {
            None
        }
    }
}

/// A stopped session stays stopped, whatever happens.
pub proof fn lemma_stopped_is_final(phase: SessionPhase, event: SessionEvent, now_ms: u64)
    requires
        phase.state == SessionState::Stopped,
    ensures
        transition(phase, event, now_ms) == (phase, SessionAction::Nothing),
{
}

/// A stop request ends a session from every state but the stopped one,
/// with no further attempt to connect.
pub proof fn lemma_stop_request_stops(phase: SessionPhase, now_ms: u64)
    requires
        phase.state != SessionState::Stopped,
    ensures
        transition(phase, SessionEvent::StopRequested, now_ms).0.state == SessionState::Stopped,
        transition(phase, SessionEvent::StopRequested, now_ms).1 == SessionAction::Finish,
{
}

/// A session connects only from `Idle`, on its first attempt, or from
/// `Backoff`: after a connection has ended, the next attempt waits.
pub proof fn lemma_reconnect_waits(phase: SessionPhase, event: SessionEvent, now_ms: u64)
    requires
        transition(phase, event, now_ms).1 == SessionAction::Connect,
    ensures
        (phase.state == SessionState::Idle && phase.attempts == 0 && event == SessionEvent::Start) || (phase.state
            == SessionState::Backoff && event == SessionEvent::BackoffElapsed),
        transition(phase, event, now_ms).0.state == SessionState::Connecting,
{
}

} // verus!
