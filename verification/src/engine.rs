//! The streaming engine: at most one session, and the order in which it
//! comes about.
//!
//! A session is established in steps: negotiate, open the transport, start
//! the capture. Each step that needs the network or the audio host is done
//! by the caller, who reports its outcome to the engine; the engine says
//! what comes next. While a session is active the engine turns each
//! captured frame into the wire units of its transport.

use crate::logs::{logged, push_log, NativeLogs};
use crate::models::{SessionState, SessionView, StreamConfig, StreamConfigView, TransportMode};
use crate::network::session::{
    complete_handshake, exchange_for, granted, handshake, refused_as, session_with,
    HandshakeError, HandshakeExchange, HandshakeStep,
};
use crate::network::transport::{
    create_transport, transport_for, units_of, AudioTransport, Transport, TransportError,
    WireKind,
};
use crate::text::lowercase;
use vstd::prelude::*;
use vstd::string::StringExecFns;

verus! {

/// The mode of a stream request: the one that the name stands for once it
/// is in lowercase, `TcpOnly` where there is no name or it stands for none.
pub open spec fn chosen_mode(lower_name: Option<Seq<char>>) -> TransportMode {
    match lower_name {
        Some(name) => match TransportMode::named(name) {
            Some(mode) => mode,
            None => TransportMode::TcpOnly,
        },
        None => TransportMode::TcpOnly,
    }
}

/// The mode that a lowercase name asks for.
pub fn mode_for(lower_name: Option<&str>) -> (mode: TransportMode)
    ensures
        mode == chosen_mode(
            match lower_name {
                Some(name) => Some(name@),
                None => None,
            },
        ),
{
    match lower_name {
        Some(name) => match TransportMode::from_lowercase(name) {
            Some(mode) => mode,
            None => TransportMode::TcpOnly,
        },
        None => TransportMode::TcpOnly,
    }
}

/// Where the engine stands.
#[derive(Debug, Clone, Copy, PartialEq, Eq, Structural)]
pub enum Phase {
    /// No session, and none on its way.
    Idle,
    /// A session is being established.
    Establishing,
    /// A session is active: frames flow.
    Active,
}

/// How far a start has come.
#[derive(Debug)]
pub enum Stage {
    /// The handshake is under way.
    Handshake,
    /// The session stands and this transport waits for its connection.
    Connect(Transport),
    /// The transport is connected and waits for the capture to start.
    Capture(Transport),
}

/// A start under way: the request and how far it has come.
#[derive(Debug)]
pub struct Pending {
    pub config: StreamConfig,
    pub stage: Stage,
}

/// Why a start did not lead to a session.
#[derive(Debug)]
pub enum StartError {
    /// The negotiation failed.
    Handshake(HandshakeError),
    /// The transport could not be made or connected.
    Transport(TransportError),
    /// The audio host has no device to capture from.
    NoDevice,
    /// The capture did not start.
    Capture { cause: String },
}

/// What the caller does next for a start, or how the start ended.
#[derive(Debug)]
pub enum StartStep {
    /// The call did not fit the state of the engine; nothing changed.
    Rejected,
    /// Make this exchange, then report to `handshake_finished`.
    Handshake(HandshakeExchange),
    /// Open a link of this kind to `target`, then report to
    /// `transport_connected`.
    Connect { target: String, kind: WireKind },
    /// Start the capture, from the named device if there is one, then
    /// report to `capture_reported`.
    Capture { device_name: Option<String> },
    /// The session is active.
    Started,
    /// The start failed and the engine is idle again.
    Failed(StartError),
}

/// What the audio host made of the request to capture.
pub enum CaptureReport<H> {
    /// No device could be chosen.
    NoDevice,
    /// `device` was chosen but the capture did not start.
    Failed { device: String, cause: String },
    /// The capture runs on `device`; `stream` keeps it alive.
    Started { device: String, stream: H },
}

enum Session<H> {
    Idle,
    Establishing(Pending),
    Active { stream: H, transport: Transport },
}

/// The state of the streaming engine: at most one session, active or on
/// its way. `H` is the handle of a running capture: the capture stops when
/// its handle is dropped.
pub struct EngineState<H> {
    session: Session<H>,
}

/// The line that notes the start of a stream.
pub open spec fn start_note(mode: TransportMode, target: Seq<char>) -> Seq<char> {
    "[engine] Starting "@ + mode.label_text() + " stream to "@ + target
}

/// Whether a start that waits for its connection holds the transport of
/// `session`, and `step` asks for the link of that transport.
pub open spec fn awaits_connection(stage: Stage, session: SessionView, step: StartStep) -> bool {
    match (stage, step) {
        (Stage::Connect(transport), StartStep::Connect { target, kind }) => {
            &&& transport_for(session, Ok(transport))
            &&& target@ == transport.target_text()
            &&& kind == transport.wire_kind()
        },
        _ => false,
    }
}

/// The device that a request prefers, as contracts see it.
pub open spec fn preferred_device(device_name: Option<String>) -> Option<Seq<char>> {
    match device_name {
        Some(name) => Some(name@),
        None => None,
    }
}

impl<H> EngineState<H> {
    /// Whether a session is active.
    pub closed spec fn streaming(&self) -> bool {
        self.session is Active
    }

    /// The handle of the running capture.
    pub closed spec fn stream(&self) -> Option<H> {
        match self.session {
            Session::Active { stream, .. } => Some(stream),
            _ => None,
        }
    }

    /// The transport of the active session.
    pub closed spec fn transport(&self) -> Option<Transport> {
        match self.session {
            Session::Active { transport, .. } => Some(transport),
            _ => None,
        }
    }

    /// The start under way.
    pub closed spec fn pending(&self) -> Option<Pending> {
        match self.session {
            Session::Establishing(pending) => Some(pending),
            _ => None,
        }
    }

    /// Where the engine stands.
    pub open spec fn phase(&self) -> Phase {
        if self.streaming() {
            Phase::Active
        } else if self.pending().is_some() {
            Phase::Establishing
        } else {
            Phase::Idle
        }
    }

    /// Whether the engine holds nothing at all.
    pub open spec fn is_clear(&self) -> bool {
        &&& !self.streaming()
        &&& self.stream().is_none()
        &&& self.transport().is_none()
        &&& self.pending().is_none()
    }

    /// Whether the engine holds a start under way and nothing else.
    pub open spec fn is_establishing(&self) -> bool {
        &&& !self.streaming()
        &&& self.stream().is_none()
        &&& self.transport().is_none()
        &&& self.pending().is_some()
    }

    /// An idle engine.
    pub fn new() -> (engine: EngineState<H>)
        ensures
            engine.is_clear(),
    {
        EngineState { session: Session::Idle }
    }

    /// Whether a session is active.
    pub fn is_streaming(&self) -> (active: bool)
        ensures
            active == self.streaming(),
    {
        match self.session {
            Session::Active { .. } => true,
            _ => false,
        }
    }

    /// Where the engine stands.
    pub fn current_phase(&self) -> (phase: Phase)
        ensures
            phase == self.phase(),
    {
        match self.session {
            Session::Idle => Phase::Idle,
            Session::Establishing(_) => Phase::Establishing,
            Session::Active { .. } => Phase::Active,
        }
    }

    /// The transport of the active session.
    pub fn active_transport(&self) -> (transport: Option<&Transport>)
        ensures
            match transport {
                Some(t) => self.transport() == Some(*t),
                None => self.transport().is_none(),
            },
    {
        match &self.session {
            Session::Active { transport, .. } => Some(transport),
            _ => None,
        }
    }

    /// What `start` leaves behind in an engine that was idle: the request
    /// is under way, and `step` is its first step. A mode with a handshake
    /// begins with the exchange; any other has its session at once, without
    /// a token, and begins with the connection of its transport.
    pub open spec fn has_begun(&self, config: StreamConfigView, step: StartStep) -> bool {
        &&& self.is_establishing()
        &&& self.pending().unwrap().config@ == config
        &&& if config.mode.needs_handshake() {
            &&& self.pending().unwrap().stage is Handshake
            &&& step is Handshake
            &&& exchange_for(step->Handshake_0, config.target_ip, config.port, config.mode)
        } else {
            awaits_connection(
                self.pending().unwrap().stage,
                SessionView {
                    token: None,
                    target_ip: config.target_ip,
                    target_port: config.port,
                    mode: config.mode,
                },
                step,
            )
        }
    }

    /// Begins to establish a session with `target_ip`, which is `host` or
    /// `host:port`. An engine that is not idle rejects the call and stays
    /// as it is.
    pub fn start(
        &mut self,
        logs: &mut NativeLogs,
        target_ip: String,
        device_name: Option<String>,
        mode: TransportMode,
    ) -> (step: StartStep)
        ensures
            old(self).phase() != Phase::Idle ==> step is Rejected && *final(self) == *old(self)
                && final(logs)@ == old(logs)@,
            old(self).phase() == Phase::Idle ==> final(logs)@ == logged(
                old(logs)@,
                start_note(mode, target_ip@),
            ) && final(self).has_begun(
                StreamConfig::requested(target_ip@, preferred_device(device_name), mode),
                step,
            ),
    {
        match self.session {
            Session::Idle => {},
            _ => {
                return StartStep::Rejected;
            },
        }
        let mut note = String::from_str("[engine] Starting ");
        note.append(mode.label());
        note.append(" stream to ");
        note.append(target_ip.as_str());
        push_log(logs, note.as_str());
        let config = StreamConfig::new(target_ip.as_str(), device_name, mode);
        match handshake(config.target_ip.clone(), config.port, mode) {
            HandshakeStep::Exchange(exchange) => {
                self.session = Session::Establishing(Pending { config, stage: Stage::Handshake });
                StartStep::Handshake(exchange)
            },
            HandshakeStep::Established(session) => self.connect(logs, config, &session),
        }
    }

    /// What the making of the transport leaves behind. With the transport
    /// made the start goes on to its connection. Without, the start ends:
    /// the engine is idle and the error is noted.
    pub open spec fn after_session(
        &self,
        config: StreamConfigView,
        session: SessionView,
        step: StartStep,
        logs_before: Seq<Seq<char>>,
        logs_after: Seq<Seq<char>>,
    ) -> bool {
        if session.mode.needs_handshake() && session.token.is_none() {
            &&& self.is_clear()
            &&& step matches StartStep::Failed(StartError::Transport(TransportError::MissingToken))
            &&& logs_after == logged(
                logs_before,
                "[engine] Transport error: "@ + TransportError::MissingToken.message_text(),
            )
        } else {
            &&& self.is_establishing()
            &&& self.pending().unwrap().config@ == config
            &&& awaits_connection(self.pending().unwrap().stage, session, step)
            &&& logs_after == logs_before
        }
    }

    fn connect(
        &mut self,
        logs: &mut NativeLogs,
        config: StreamConfig,
        session: &SessionState,
    ) -> (step: StartStep)
        requires
            old(self).is_clear(),
        ensures
            final(self).after_session(config@, session@, step, old(logs)@, final(logs)@),
    {
        match create_transport(session) {
            Ok(transport) => {
                let step = StartStep::Connect {
                    target: String::from_str(transport.target()),
                    kind: transport.kind(),
                };
                self.session = Session::Establishing(
                    Pending { config, stage: Stage::Connect(transport) },
                );
                step
            },
            Err(e) => {
                let note = String::from_str("[engine] Transport error: ").concat(
                    e.message().as_str(),
                );
                push_log(logs, note.as_str());
                StartStep::Failed(StartError::Transport(e))
            },
        }
    }

    /// What `handshake_finished` leaves behind where a handshake was under
    /// way for `config`. A grant makes the session with its token, and the
    /// start goes on to the connection of that session's transport. Anything
    /// else ends the start: the engine is idle again and the error is noted.
    pub open spec fn after_handshake(
        &self,
        config: StreamConfigView,
        response: Result<Vec<u8>, HandshakeError>,
        step: StartStep,
        logs_before: Seq<Seq<char>>,
        logs_after: Seq<Seq<char>>,
    ) -> bool {
        match granted(response) {
            Some(token) => self.after_session(
                config,
                session_with(config.target_ip, config.port, config.mode, token),
                step,
                logs_before,
                logs_after,
            ),
            None => {
                &&& self.is_clear()
                &&& step is Failed
                &&& step->Failed_0 is Handshake
                &&& refused_as(response, step->Failed_0->Handshake_0)
                &&& logs_after == logged(
                    logs_before,
                    "[engine] Handshake error: "@ + step->Failed_0->Handshake_0.message_text(),
                )
            },
        }
    }

    /// Takes in what the handshake exchange brought: the bytes read, or the
    /// failure of one of its steps. Where no handshake is under way the call
    /// is rejected and nothing changes.
    pub fn handshake_finished(
        &mut self,
        logs: &mut NativeLogs,
        response: Result<Vec<u8>, HandshakeError>,
    ) -> (step: StartStep)
        ensures
            match old(self).pending() {
                Some(Pending { config, stage: Stage::Handshake }) => final(self).after_handshake(
                    config@,
                    response,
                    step,
                    old(logs)@,
                    final(logs)@,
                ),
                _ => step is Rejected && *final(self) == *old(self) && final(logs)@ == old(logs)@,
            },
    {
        let mut session = Session::Idle;
        core::mem::swap(&mut self.session, &mut session);
        let config = match session {
            Session::Establishing(Pending { config, stage: Stage::Handshake }) => config,
            other => {
                self.session = other;
                return StartStep::Rejected;
            },
        };
        match complete_handshake(config.target_ip.clone(), config.port, config.mode, response) {
            Ok(session) => self.connect(logs, config, &session),
            Err(e) => {
                let note = String::from_str("[engine] Handshake error: ").concat(
                    e.message().as_str(),
                );
                push_log(logs, note.as_str());
                StartStep::Failed(StartError::Handshake(e))
            },
        }
    }

    /// What `transport_connected` leaves behind where `transport` waited
    /// for its connection. With the connection made the start goes on to
    /// the capture, from the device that the request prefers. A failure ends
    /// the start: the engine is idle again and the error is noted.
    pub open spec fn after_connection(
        &self,
        config: StreamConfigView,
        transport: Transport,
        outcome: Result<(), TransportError>,
        step: StartStep,
        logs_before: Seq<Seq<char>>,
        logs_after: Seq<Seq<char>>,
    ) -> bool {
        match outcome {
            Ok(_) => {
                &&& self.is_establishing()
                &&& self.pending().unwrap().config@ == config
                &&& self.pending().unwrap().stage == Stage::Capture(transport)
                &&& step is Capture
                &&& preferred_device(step->device_name) == config.device_name
                &&& logs_after == logs_before
            },
            Err(e) => {
                &&& self.is_clear()
                &&& step == StartStep::Failed(StartError::Transport(e))
                &&& logs_after == logged(
                    logs_before,
                    "[engine] Transport error: "@ + e.message_text(),
                )
            },
        }
    }

    /// Takes in whether the link of the transport was opened. Where no
    /// transport waits for its connection the call is rejected and nothing
    /// changes.
    pub fn transport_connected(
        &mut self,
        logs: &mut NativeLogs,
        outcome: Result<(), TransportError>,
    ) -> (step: StartStep)
        ensures
            match old(self).pending() {
                Some(Pending { config, stage: Stage::Connect(transport) }) => final(self)
                    .after_connection(config@, transport, outcome, step, old(logs)@, final(logs)@),
                _ => step is Rejected && *final(self) == *old(self) && final(logs)@ == old(logs)@,
            },
    {
        let mut session = Session::Idle;
        core::mem::swap(&mut self.session, &mut session);
        let (config, transport) = match session {
            Session::Establishing(Pending { config, stage: Stage::Connect(transport) }) => (
                config,
                transport,
            ),
            other => {
                self.session = other;
                return StartStep::Rejected;
            },
        };
        match outcome {
            Ok(_) => {
                let device_name = match &config.device_name {
                    Some(name) => Some(name.clone()),
                    None => None,
                };
                self.session = Session::Establishing(
                    Pending { config, stage: Stage::Capture(transport) },
                );
                StartStep::Capture { device_name }
            },
            Err(e) => {
                let note = String::from_str("[engine] Transport error: ").concat(
                    e.message().as_str(),
                );
                push_log(logs, note.as_str());
                StartStep::Failed(StartError::Transport(e))
            },
        }
    }

    /// What `capture_reported` leaves behind where `transport` waited for
    /// the capture. With the capture running the session is active: the
    /// engine holds the handle and the transport. Without it the start
    /// ends and the engine is idle again. Either way the device that was
    /// chosen is noted, and then the outcome.
    pub open spec fn after_capture(
        &self,
        transport: Transport,
        report: CaptureReport<H>,
        step: StartStep,
        logs_before: Seq<Seq<char>>,
        logs_after: Seq<Seq<char>>,
    ) -> bool {
        match report {
            CaptureReport::NoDevice => {
                &&& self.is_clear()
                &&& step == StartStep::Failed(StartError::NoDevice)
                &&& logs_after == logged(logs_before, "[engine] ERROR: No audio device available"@)
            },
            CaptureReport::Failed { device, cause } => {
                &&& self.is_clear()
                &&& step == StartStep::Failed(StartError::Capture { cause })
                &&& logs_after == logged(
                    logged(logs_before, "[engine] Using device: "@ + device@),
                    "[engine] Capture error: "@ + cause@,
                )
            },
            CaptureReport::Started { device, stream } => {
                &&& self.streaming()
                &&& self.stream() == Some(stream)
                &&& self.transport() == Some(transport)
                &&& self.pending().is_none()
                &&& step is Started
                &&& logs_after == logged(
                    logged(logs_before, "[engine] Using device: "@ + device@),
                    "[engine] Stream started successfully"@,
                )
            },
        }
    }

    /// Takes in what the audio host made of the request to capture. Where
    /// no start waits for its capture the call is rejected and nothing
    /// changes; a handle that came with it is dropped.
    pub fn capture_reported(&mut self, logs: &mut NativeLogs, report: CaptureReport<H>) -> (step:
        StartStep)
        ensures
            match old(self).pending() {
                Some(Pending { config, stage: Stage::Capture(transport) }) => final(self)
                    .after_capture(transport, report, step, old(logs)@, final(logs)@),
                _ => step is Rejected && *final(self) == *old(self) && final(logs)@ == old(logs)@,
            },
    {
        let mut session = Session::Idle;
        core::mem::swap(&mut self.session, &mut session);
        let transport = match session {
            Session::Establishing(Pending { config, stage: Stage::Capture(transport) }) => {
                transport
            },
            other => {
                self.session = other;
                return StartStep::Rejected;
            },
        };
        match report {
            CaptureReport::NoDevice => {
                push_log(logs, "[engine] ERROR: No audio device available");
                StartStep::Failed(StartError::NoDevice)
            },
            CaptureReport::Failed { device, cause } => {
                let chosen = String::from_str("[engine] Using device: ").concat(device.as_str());
                push_log(logs, chosen.as_str());
                let note = String::from_str("[engine] Capture error: ").concat(cause.as_str());
                push_log(logs, note.as_str());
                StartStep::Failed(StartError::Capture { cause })
            },
            CaptureReport::Started { device, stream } => {
                let chosen = String::from_str("[engine] Using device: ").concat(device.as_str());
                push_log(logs, chosen.as_str());
                self.session = Session::Active { stream, transport };
                push_log(logs, "[engine] Stream started successfully");
                StartStep::Started
            },
        }
    }

    /// The engine once its session is stopped: without handle and
    /// transport. An engine without a session is its own outcome.
    pub closed spec fn after_stop(self) -> EngineState<H> {
        if self.session is Active {
            EngineState { session: Session::Idle }
        } else {
            self
        }
    }

    /// Ends the active session: the transport is closed and dropped, and
    /// the capture handle is released, which stops the capture. Without an
    /// active session nothing happens. Returns whether a session was
    /// stopped.
    pub fn stop(&mut self, logs: &mut NativeLogs) -> (stopped: bool)
        ensures
            *final(self) == old(self).after_stop(),
            stopped == old(self).streaming(),
            old(self).streaming() ==> final(self).is_clear() && final(logs)@ == logged(
                old(logs)@,
                "[engine] Stopping stream"@,
            ),
            !old(self).streaming() ==> *final(self) == *old(self) && final(logs)@ == old(logs)@,
    {
        let mut session = Session::Idle;
        core::mem::swap(&mut self.session, &mut session);
        match session {
            Session::Active { stream, mut transport } => {
                push_log(logs, "[engine] Stopping stream");
                let _ = transport.close();
                true
            },
            other => {
                self.session = other;
                false
            },
        }
    }

    /// The wire units of one captured frame: those that the transport of
    /// the active session makes of it, none without an active session.
    pub open spec fn frame_units(&self, data: Seq<u8>) -> Seq<Seq<u8>> {
        match self.transport() {
            Some(transport) => transport.wire_units(data),
            None => Seq::empty(),
        }
    }

    /// Turns one captured frame into the wire units of the active session
    /// and counts it. Without an active session the frame is dropped.
    pub fn forward_frame(&mut self, data: &[u8]) -> (units: Vec<Vec<u8>>)
        ensures
            units_of(units@) == old(self).frame_units(data@),
            final(self).streaming() == old(self).streaming(),
            final(self).stream() == old(self).stream(),
            final(self).pending() == old(self).pending(),
            final(self).transport().is_some() == old(self).transport().is_some(),
            forall|d: Seq<u8>| #[trigger] final(self).frame_units(d) == old(self).frame_units(d),
            match old(self).transport() {
                Some(transport) => {
                    &&& final(self).transport().unwrap().target_text() == transport.target_text()
                    &&& final(self).transport().unwrap().wire_kind() == transport.wire_kind()
                    &&& final(self).transport().unwrap().packets() == if transport.packets()
                        == usize::MAX {
                        0usize
                    } else {
                        (transport.packets() + 1) as usize
                    }
                },
                None => *final(self) == *old(self),
            },
    {
        let mut session = Session::Idle;
        core::mem::swap(&mut self.session, &mut session);
        match session {
            Session::Active { stream, mut transport } => {
                let units = transport.send(data);
                self.session = Session::Active { stream, transport };
                units
            },
            other => {
                self.session = other;
                let units: Vec<Vec<u8>> = Vec::new();
                units
            },
        }
    }

    /// Notes that a wire unit of the active session could not be put on
    /// the wire. The session goes on: a frame that is lost does not end the
    /// stream.
    pub fn send_failed(&self, logs: &mut NativeLogs, error: &TransportError)
        ensures
            final(logs)@ == logged(old(logs)@, "[engine] Send error: "@ + error.message_text()),
    {
        let note = String::from_str("[engine] Send error: ").concat(error.message().as_str());
        push_log(logs, note.as_str());
    }
}

impl<H> Default for EngineState<H> {
    fn default() -> (engine: EngineState<H>)
        ensures
            engine.is_clear(),
    {
        EngineState::new()
    }
}

/// In every state of the engine, a session is active exactly when both its
/// capture handle and its transport are there; the two come and go
/// together; and no start is under way beside an active session.
pub proof fn lemma_session_invariant<H>(engine: EngineState<H>)
    ensures
        engine.streaming() <==> engine.stream().is_some() && engine.transport().is_some(),
        engine.stream().is_some() <==> engine.transport().is_some(),
        engine.pending().is_some() ==> !engine.streaming(),
{
}

/// Stopping an engine without a session changes nothing, and stopping
/// twice is stopping once.
pub proof fn lemma_stop_is_idempotent<H>(engine: EngineState<H>)
    ensures
        !engine.streaming() ==> engine.after_stop() == engine,
        !engine.after_stop().streaming(),
        engine.after_stop().after_stop() == engine.after_stop(),
{
}

/// The mode that the name of a stream request asks for.
pub open spec fn requested_mode(mode_str: Option<String>) -> TransportMode {
    chosen_mode(
        match mode_str {
            Some(name) => Some(lowercase(name@)),
            None => None,
        },
    )
}

/// Begins to establish a session with `target_ip`, which is `host` or
/// `host:port`, in the mode that `mode_str` names; without a name, or with
/// a name that stands for no mode, the mode is `TcpOnly`.
pub fn start_streaming_impl<H>(
    engine: &mut EngineState<H>,
    logs: &mut NativeLogs,
    target_ip: String,
    device_name: Option<String>,
    mode_str: Option<String>,
) -> (step: StartStep)
    ensures
        old(engine).phase() != Phase::Idle ==> step is Rejected && *final(engine) == *old(engine)
            && final(logs)@ == old(logs)@,
        old(engine).phase() == Phase::Idle ==> final(logs)@ == logged(
            old(logs)@,
            start_note(requested_mode(mode_str), target_ip@),
        ) && final(engine).has_begun(
            StreamConfig::requested(
                target_ip@,
                preferred_device(device_name),
                requested_mode(mode_str),
            ),
            step,
        ),
{
    let mode = match &mode_str {
        Some(name) => {
            let lower = name.as_str().to_lowercase();
            mode_for(Some(lower.as_str()))
        },
        None => mode_for(None),
    };
    engine.start(logs, target_ip, device_name, mode)
}

/// Ends the active session, if there is one. Returns whether a session was
/// stopped.
pub fn stop_streaming_impl<H>(engine: &mut EngineState<H>, logs: &mut NativeLogs) -> (stopped:
    bool)
    ensures
        *final(engine) == old(engine).after_stop(),
        stopped == old(engine).streaming(),
        old(engine).streaming() ==> final(engine).is_clear() && final(logs)@ == logged(
            old(logs)@,
            "[engine] Stopping stream"@,
        ),
        !old(engine).streaming() ==> *final(engine) == *old(engine) && final(logs)@ == old(logs)@,
{
    engine.stop(logs)
}

} // verus!
