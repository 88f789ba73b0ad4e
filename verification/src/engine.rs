use vstd::prelude::*;

verus! {

/// Fixed backoff after a failed connection or authentication attempt.
pub const CONNECTION_BACKOFF_MS: u64 = 2000;

/// Period of the liveness heartbeat while streaming.
pub const HEARTBEAT_INTERVAL_MS: u64 = 500;

/// Endpoints for the engine connection: the streaming engine itself and the
/// credential service that issues tokens for it.
pub struct EngineConfig {
    pub engine_url: String,
    pub auth_service_url: String,
}

/// The manager is configured, and hence started, exactly when both the
/// engine endpoint and the credential service address are present.
pub fn engine_config_of(engine_url: Option<String>, auth_service_url: Option<String>) -> (c:
    Option<EngineConfig>)
    ensures
        c is Some <==> (engine_url is Some && auth_service_url is Some),
        (c matches Some(cfg) ==> (engine_url matches Some(e) && cfg.engine_url == e)),
        (c matches Some(cfg) ==> (auth_service_url matches Some(a) && cfg.auth_service_url == a)),
{
    match (engine_url, auth_service_url) {
        (Some(engine_url), Some(auth_service_url)) => Some(
            EngineConfig { engine_url, auth_service_url },
        ),
        _ => None,
    }
}

/// Lifecycle of the one logical connection the manager owns.
#[derive(Clone, Copy, PartialEq, Eq, Structural, Debug)]
pub enum EngineState {
    /// No transport connection; the next poll starts an attempt.
    Disconnected,
    /// One connection attempt (including authentication) is in flight.
    Connecting,
    /// A live authenticated stream: heartbeats go out on a fixed period and
    /// mirrored packets are forwarded as they arrive.
    Streaming,
    /// Terminal: the process-wide exit signal was observed; no further
    /// connection attempts are made.
    Shutdown,
}

/// What the event loop observed since the last step. Authentication failure
/// is reported as `ConnectFailed`: it is handled exactly like a transport
/// failure (logged, backoff, retry), never escalated. A heartbeat write
/// failure mid-session is a `StreamFailed`.
#[derive(Debug)]
pub enum EngineEvent {
    /// The shared exit flag is set.
    ShutdownSeen,
    /// Nothing notable; an idle poll boundary.
    PollTick,
    ConnectSucceeded,
    ConnectFailed,
    HeartbeatDue,
    /// The mirror channel handed over a packet to forward.
    MirroredPacket(Vec<u8>),
    /// The transport surfaced an error or the peer closed the stream.
    StreamFailed,
}

/// What the hosting loop must do next.
#[derive(Debug)]
pub enum EngineAction {
    /// Request a credential and open a transport connection to the engine.
    DialEngine,
    /// Sleep for the fixed backoff before returning to the poll loop.
    WaitBackoff,
    /// Emit one liveness heartbeat over the live stream.
    SendHeartbeat,
    /// Write this packet to the live stream.
    ForwardPacket(Vec<u8>),
    /// Stop: issue no further attempts and let the thread join.
    HaltThread,
    /// Nothing to do this step.
    Ignore,
}

/// The state after observing `e` in state `s`. The exit signal dominates
/// every other event and `Shutdown` is terminal; any failure while
/// connecting or streaming falls back to `Disconnected`.
pub open spec fn next_state(s: EngineState, e: EngineEvent) -> EngineState {
    match (s, e) {
        (_, EngineEvent::ShutdownSeen) => EngineState::Shutdown,
        (EngineState::Shutdown, _) => EngineState::Shutdown,
        (EngineState::Disconnected, EngineEvent::PollTick) => EngineState::Connecting,
        (EngineState::Disconnected, _) => EngineState::Disconnected,
        (EngineState::Connecting, EngineEvent::ConnectSucceeded) => EngineState::Streaming,
        (EngineState::Connecting, EngineEvent::ConnectFailed) => EngineState::Disconnected,
        (EngineState::Connecting, _) => EngineState::Connecting,
        (EngineState::Streaming, EngineEvent::StreamFailed) => EngineState::Disconnected,
        (EngineState::Streaming, _) => EngineState::Streaming,
    }
}

/// The action owed for observing `e` in state `s`.
pub open spec fn action_of(s: EngineState, e: EngineEvent) -> EngineAction {
    match (s, e) {
        (_, EngineEvent::ShutdownSeen) => EngineAction::HaltThread,
        (EngineState::Shutdown, _) => EngineAction::HaltThread,
        (EngineState::Disconnected, EngineEvent::PollTick) => EngineAction::DialEngine,
        (EngineState::Disconnected, _) => EngineAction::Ignore,
        (EngineState::Connecting, EngineEvent::ConnectFailed) => EngineAction::WaitBackoff,
        (EngineState::Connecting, _) => EngineAction::Ignore,
        (EngineState::Streaming, EngineEvent::HeartbeatDue) => EngineAction::SendHeartbeat,
        (EngineState::Streaming, EngineEvent::MirroredPacket(p)) => EngineAction::ForwardPacket(p),
        (EngineState::Streaming, EngineEvent::StreamFailed) => EngineAction::WaitBackoff,
        (EngineState::Streaming, _) => EngineAction::Ignore,
    }
}

/// Owns the single logical connection to the engine endpoint and decides,
/// event by event, what the hosting loop does next. The loop itself (the
/// transport, the timers, the credential calls) lives outside; every
/// decision is made here.
pub struct EngineConnectionManager {
    pub state: EngineState,
}

impl EngineConnectionManager {
    pub fn new() -> (m: EngineConnectionManager)
        ensures
            m.state == EngineState::Disconnected,
    {
        EngineConnectionManager { state: EngineState::Disconnected }
    }

    /// Advance the state machine by one observed event and return the action
    /// the hosting loop owes.
    pub fn step(&mut self, event: EngineEvent) -> (a: EngineAction)
        ensures
            final(self).state == next_state(old(self).state, event),
            a == action_of(old(self).state, event),
    {
        let pre = self.state;
        match event {
            EngineEvent::ShutdownSeen => {
                self.state = EngineState::Shutdown;
                EngineAction::HaltThread
            },
            EngineEvent::PollTick => {
                match pre {
                    EngineState::Shutdown => EngineAction::HaltThread,
                    EngineState::Disconnected => {
                        self.state = EngineState::Connecting;
                        EngineAction::DialEngine
                    },
                    _ => EngineAction::Ignore,
                }
            },
            EngineEvent::ConnectSucceeded => {
                match pre {
                    EngineState::Shutdown => EngineAction::HaltThread,
                    EngineState::Connecting => {
                        self.state = EngineState::Streaming;
                        EngineAction::Ignore
                    },
                    _ => EngineAction::Ignore,
                }
            },
            EngineEvent::ConnectFailed => {
                match pre {
                    EngineState::Shutdown => EngineAction::HaltThread,
                    EngineState::Connecting => {
                        self.state = EngineState::Disconnected;
                        EngineAction::WaitBackoff
                    },
                    _ => EngineAction::Ignore,
                }
            },
            EngineEvent::HeartbeatDue => {
                match pre {
                    EngineState::Shutdown => EngineAction::HaltThread,
                    EngineState::Streaming => EngineAction::SendHeartbeat,
                    _ => EngineAction::Ignore,
                }
            },
            EngineEvent::MirroredPacket(p) => {
                match pre {
                    EngineState::Shutdown => EngineAction::HaltThread,
                    EngineState::Streaming => EngineAction::ForwardPacket(p),
                    _ => EngineAction::Ignore,
                }
            },
            EngineEvent::StreamFailed => {
                match pre {
                    EngineState::Shutdown => EngineAction::HaltThread,
                    EngineState::Streaming => {
                        self.state = EngineState::Disconnected;
                        EngineAction::WaitBackoff
                    },
                    _ => EngineAction::Ignore,
                }
            },
        }
    }
}

/// Observing the exit signal halts the manager from every state, and the
/// halted state is terminal: no later event revives it or makes it dial.
pub proof fn lemma_shutdown_halts(s: EngineState, e: EngineEvent)
    ensures
        next_state(s, EngineEvent::ShutdownSeen) == EngineState::Shutdown,
        action_of(s, EngineEvent::ShutdownSeen) == EngineAction::HaltThread,
        next_state(EngineState::Shutdown, e) == EngineState::Shutdown,
        action_of(EngineState::Shutdown, e) == EngineAction::HaltThread,
{
}

/// The manager owns at most one connection attempt at a time: a dial is only
/// ever issued from `Disconnected`, and it moves the manager to
/// `Connecting`, so a second dial cannot be issued before the first attempt
/// resolves.
pub proof fn lemma_single_connection_attempt(s: EngineState, e: EngineEvent)
    ensures
        action_of(s, e) == EngineAction::DialEngine ==> s == EngineState::Disconnected
            && next_state(s, e) == EngineState::Connecting,
{
}

/// The stream only ever carries what the mirror channel handed over: a
/// forward action arises from a `MirroredPacket` event alone, carries that
/// very packet, and only while streaming. With mirroring disabled nothing
/// enters the mirror channel, so a streaming manager then emits heartbeats
/// and forwards nothing.
pub proof fn lemma_forward_only_mirrored(s: EngineState, e: EngineEvent)
    ensures
        (action_of(s, e) matches EngineAction::ForwardPacket(p) ==> (s == EngineState::Streaming
            && e == EngineEvent::MirroredPacket(p))),
{
}

} // verus!
