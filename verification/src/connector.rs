//! The connector session: the status it publishes, and the state machine
//! that takes it from start through the probes and the control channel's
//! frames to its end.
use crate::ad_client::{text_of, ADClient};
use crate::clock::{local_clock, utc_timestamp};
use crate::command::{
    note_for, note_of, respond, response_of, Command, Outcome, Request, RequestView, Response,
    ResponseView,
};
use crate::ews_client::EWSClient;
use crate::log::{appended, stamp, stamped, LogRing, LOG_CAPACITY};
use vstd::prelude::*;
use vstd::string::*;

verus! {

/// What the session publishes of itself.
#[derive(Debug, Clone, PartialEq, Eq)]
pub struct ConnectorState {
    pub running: bool,
    pub connected: bool,
    pub ad_connected: bool,
    pub exchange_connected: bool,
    pub last_error: Option<String>,
}

/// What a `ConnectorState` holds, the error as a sequence of characters.
pub struct StateView {
    pub running: bool,
    pub connected: bool,
    pub ad_connected: bool,
    pub exchange_connected: bool,
    pub last_error: Option<Seq<char>>,
}

impl View for ConnectorState {
    type V = StateView;

    open spec fn view(&self) -> StateView {
        StateView {
            running: self.running,
            connected: self.connected,
            ad_connected: self.ad_connected,
            exchange_connected: self.exchange_connected,
            last_error: text_of(self.last_error),
        }
    }
}

/// Where a session stands.
#[derive(Debug, Clone, Copy, PartialEq, Eq, Structural)]
pub enum SessionPhase {
    /// Never started.
    Idle,
    /// Started; the directory is being probed.
    ProbingDirectory,
    /// Started; the calendar service is being probed.
    ProbingCalendar,
    /// Started; the control channel is being opened.
    Opening,
    /// Running; the next frame is awaited.
    Reading,
    /// Running; a command is being carried out.
    Executing,
    /// The control channel could not be opened or was lost; the session was
    /// not told to stop.
    Ended,
    /// Told to stop.
    Stopped,
}

/// Why a session did not start.
#[derive(Debug, Clone, Copy, PartialEq, Eq, Structural)]
pub enum SessionError {
    /// The session is running already, or was not stopped since it ran.
    AlreadyRunning,
}

impl SessionError {
    /// The text of the error.
    pub fn message(&self) -> (message: String)
        ensures
            message@ == "Already running"@,
    {
        String::from_str("Already running")
    }
}

/// What a probe of a backend found.
#[derive(Debug, Clone, PartialEq, Eq)]
pub enum Probe {
    /// The backend answered.
    Reachable,
    /// The backend did not answer as it should; with the reason.
    Unreachable(String),
}

/// A frame that came in on the control channel.
#[derive(Debug, Clone, PartialEq, Eq)]
pub enum Frame {
    /// A text frame that holds a command.
    Command(Command),
    /// A text frame that holds none.
    Malformed,
    /// A ping of the protocol, with its payload.
    Ping(Vec<u8>),
    /// The other side closes the channel.
    Close,
    /// Any other frame.
    Other,
}

/// What happened outside the session.
#[derive(Debug, Clone, PartialEq, Eq)]
pub enum SessionEvent {
    /// The directory was probed: reachable, or not, with the reason.
    DirectoryProbed(Probe),
    /// The calendar service was probed: reachable, or not, with the reason.
    CalendarProbed(Probe),
    /// The control channel is open.
    ChannelOpened,
    /// The control channel could not be opened; with the reason.
    ChannelFailed(String),
    /// A frame came in.
    Frame(Frame),
    /// Reading from the control channel failed.
    TransportFailed,
    /// The control channel has no more frames.
    ChannelEnded,
    /// The command that was being carried out yielded this.
    Completed(Outcome),
}

/// What to do next.
#[derive(Debug, Clone, PartialEq, Eq)]
pub enum SessionAction {
    /// Probe the directory, then report `DirectoryProbed`.
    ProbeDirectory,
    /// Probe the calendar service, then report `CalendarProbed`.
    ProbeCalendar,
    /// Open the control channel at this address, once, then report
    /// `ChannelOpened` or `ChannelFailed`.
    OpenChannel { url: String },
    /// Await the next frame and report it.
    ReadFrame,
    /// Answer the ping with a pong of the same payload, then await the next
    /// frame.
    SendPong(Vec<u8>),
    /// Carry this request out, then report `Completed`.
    Execute(Request),
    /// Write this response to the control channel, then await the next
    /// frame.
    Send(Response),
    /// Give this error back to whoever started the session.
    Fail(String),
    /// The channel is gone: leave the loop.
    Finish,
    /// The event does not belong to what this session is doing: leave the
    /// loop and let the channel go.
    Leave,
}

/// What a `SessionAction` holds, as sequences.
pub enum ActionView {
    ProbeDirectory,
    ProbeCalendar,
    OpenChannel { url: Seq<char> },
    ReadFrame,
    SendPong(Seq<u8>),
    Execute(RequestView),
    Send(ResponseView),
    Fail(Seq<char>),
    Finish,
    Leave,
}

impl View for SessionAction {
    type V = ActionView;

    open spec fn view(&self) -> ActionView {
        match *self {
            SessionAction::ProbeDirectory => ActionView::ProbeDirectory,
            SessionAction::ProbeCalendar => ActionView::ProbeCalendar,
            SessionAction::OpenChannel { url } => ActionView::OpenChannel { url: url@ },
            SessionAction::ReadFrame => ActionView::ReadFrame,
            SessionAction::SendPong(payload) => ActionView::SendPong(payload@),
            SessionAction::Execute(request) => ActionView::Execute(request@),
            SessionAction::Send(response) => ActionView::Send(response@),
            SessionAction::Fail(error) => ActionView::Fail(error@),
            SessionAction::Finish => ActionView::Finish,
            SessionAction::Leave => ActionView::Leave,
        }
    }
}

/// A session as the contracts see it.
pub struct SessionView {
    pub state: StateView,
    pub phase: SessionPhase,
    /// The lines of the log, oldest first.
    pub log: Seq<Seq<char>>,
    /// The command that is being carried out.
    pub pending: Option<Command>,
    /// The address of the control channel, access token included.
    pub channel_url: Seq<char>,
}

/// The log after `message` came in at the time `clock`.
pub open spec fn logged(log: Seq<Seq<char>>, clock: Seq<char>, message: Seq<char>) -> Seq<
    Seq<char>,
> {
    appended(log, stamped(clock, message))
}

/// What the log says of a probe of `service`.
pub open spec fn probe_note(service: Seq<char>, probe: Probe) -> Seq<char> {
    match probe {
        Probe::Reachable => service + " connection OK"@,
        Probe::Unreachable(reason) => service + " connection failed: "@ + reason@,
    }
}

/// The error for a control channel that could not be opened.
pub open spec fn channel_error(reason: Seq<char>) -> Seq<char> {
    "Failed to connect to backend: "@ + reason
}

/// The log after an optional note came in.
pub open spec fn noted(log: Seq<Seq<char>>, clock: Seq<char>, note: Option<Seq<char>>) -> Seq<
    Seq<char>,
> {
    match note {
        Some(message) => logged(log, clock, message),
        None => log,
    }
}

impl SessionView {
    /// A session that was never started, for the control channel at
    /// `channel_url`: every flag false, no error, an empty log.
    pub open spec fn fresh(channel_url: Seq<char>) -> SessionView {
        SessionView {
            state: StateView {
                running: false,
                connected: false,
                ad_connected: false,
                exchange_connected: false,
                last_error: None,
            },
            phase: SessionPhase::Idle,
            log: Seq::empty(),
            pending: None,
            channel_url,
        }
    }

    /// Whether the flags say what the phase says: the session is running
    /// from its start until it is told to stop, and connected while it reads
    /// frames and carries commands out; a command is pending exactly while
    /// one is carried out; and the log holds no more than its capacity.
    pub open spec fn coherent(self) -> bool {
        &&& self.state.running == (self.phase != SessionPhase::Idle && self.phase
            != SessionPhase::Stopped)
        &&& self.state.connected == (self.phase == SessionPhase::Reading || self.phase
            == SessionPhase::Executing)
        &&& self.pending is Some == (self.phase == SessionPhase::Executing)
        &&& self.log.len() <= LOG_CAPACITY
    }

    /// Whether `start` is refused.
    pub open spec fn refuses_start(self) -> bool {
        self.state.running
    }

    /// The session after a start that was not refused, at the time `clock`.
    pub open spec fn started(self, clock: Seq<char>) -> SessionView {
        SessionView {
            state: StateView { running: true, ..self.state },
            phase: SessionPhase::ProbingDirectory,
            log: logged(
                logged(self.log, clock, "Starting connector..."@),
                clock,
                "Testing AD connection..."@,
            ),
            ..self
        }
    }

    /// The session after it was told to stop: not running, not connected,
    /// whatever it was doing.
    pub open spec fn stopped(self) -> SessionView {
        SessionView {
            state: StateView { running: false, connected: false, ..self.state },
            phase: SessionPhase::Stopped,
            pending: None,
            ..self
        }
    }

    /// The session after the channel was lost; whether it runs is left as
    /// it was.
    pub open spec fn disconnected(self, log: Seq<Seq<char>>) -> SessionView {
        SessionView {
            state: StateView { connected: false, ..self.state },
            phase: SessionPhase::Ended,
            log,
            ..self
        }
    }

    /// Whether `event` belongs to what the session is doing.
    pub open spec fn expects(self, event: SessionEvent) -> bool {
        match (self.phase, event) {
            (SessionPhase::ProbingDirectory, SessionEvent::DirectoryProbed(_)) => true,
            (SessionPhase::ProbingCalendar, SessionEvent::CalendarProbed(_)) => true,
            (SessionPhase::Opening, SessionEvent::ChannelOpened) => true,
            (SessionPhase::Opening, SessionEvent::ChannelFailed(_)) => true,
            (SessionPhase::Reading, SessionEvent::Frame(_)) => true,
            (SessionPhase::Reading, SessionEvent::TransportFailed) => true,
            (SessionPhase::Reading, SessionEvent::ChannelEnded) => true,
            (SessionPhase::Executing, SessionEvent::Completed(_)) => self.pending is Some,
            _ => false,
        }
    }

    /// The session after `event` at the time `clock`. An event that does
    /// not belong to what the session is doing changes nothing.
    pub open spec fn after(self, event: SessionEvent, clock: Seq<char>) -> SessionView {
        if !self.expects(event) {
            self
        } else {
            match event {
                SessionEvent::DirectoryProbed(probe) => SessionView {
                    state: StateView { ad_connected: probe is Reachable, ..self.state },
                    phase: SessionPhase::ProbingCalendar,
                    log: logged(
                        logged(self.log, clock, probe_note("AD"@, probe)),
                        clock,
                        "Testing Exchange connection..."@,
                    ),
                    ..self
                },
                SessionEvent::CalendarProbed(probe) => SessionView {
                    state: StateView { exchange_connected: probe is Reachable, ..self.state },
                    phase: SessionPhase::Opening,
                    log: logged(
                        logged(self.log, clock, probe_note("Exchange"@, probe)),
                        clock,
                        "Connecting to backend..."@,
                    ),
                    ..self
                },
                SessionEvent::ChannelOpened => SessionView {
                    state: StateView { connected: true, ..self.state },
                    phase: SessionPhase::Reading,
                    log: logged(self.log, clock, "Connected to backend"@),
                    ..self
                },
                SessionEvent::ChannelFailed(reason) => SessionView {
                    state: StateView {
                        last_error: Some(channel_error(reason@)),
                        ..self.state
                    },
                    phase: SessionPhase::Ended,
                    log: logged(self.log, clock, channel_error(reason@)),
                    ..self
                },
                SessionEvent::Frame(Frame::Command(cmd)) => SessionView {
                    phase: SessionPhase::Executing,
                    log: logged(self.log, clock, "Command: "@ + cmd.command@),
                    pending: Some(cmd),
                    ..self
                },
                SessionEvent::Frame(Frame::Close) => self.disconnected(
                    logged(self.log, clock, "Backend closed connection"@),
                ),
                SessionEvent::Frame(_) => self,
                SessionEvent::TransportFailed => self.disconnected(self.log),
                SessionEvent::ChannelEnded => self.disconnected(self.log),
                SessionEvent::Completed(outcome) => SessionView {
                    phase: SessionPhase::Reading,
                    log: noted(self.log, clock, note_of(self.pending->0, outcome@)),
                    pending: None,
                    ..self
                },
            }
        }
    }

    /// What to do after `event`. `now` is the moment that a ping reports,
    /// `timestamp` the moment of a response.
    pub open spec fn action(self, event: SessionEvent, now: Seq<char>, timestamp: Seq<char>)
        -> ActionView {
        if !self.expects(event) {
            ActionView::Leave
        } else {
            match event {
                SessionEvent::DirectoryProbed(_) => ActionView::ProbeCalendar,
                SessionEvent::CalendarProbed(_) => ActionView::OpenChannel {
                    url: self.channel_url,
                },
                SessionEvent::ChannelOpened => ActionView::ReadFrame,
                SessionEvent::ChannelFailed(reason) => ActionView::Fail(channel_error(reason@)),
                SessionEvent::Frame(Frame::Command(cmd)) => ActionView::Execute(cmd.request()),
                SessionEvent::Frame(Frame::Ping(payload)) => ActionView::SendPong(payload@),
                SessionEvent::Frame(Frame::Close) => ActionView::Finish,
                SessionEvent::Frame(_) => ActionView::ReadFrame,
                SessionEvent::TransportFailed => ActionView::Finish,
                SessionEvent::ChannelEnded => ActionView::Finish,
                SessionEvent::Completed(outcome) => ActionView::Send(
                    response_of(self.pending->0, outcome@, now, timestamp),
                ),
            }
        }
    }
}

/// Telling a session to stop twice leaves it as telling it once does.
pub proof fn lemma_stop_is_idempotent(session: SessionView)
    ensures
        session.stopped().stopped() == session.stopped(),
        !session.stopped().state.running,
        !session.stopped().state.connected,
{
}

/// A session that runs refuses to start, and one that was stopped does not.
pub proof fn lemma_start_needs_a_stop(session: SessionView, clock: Seq<char>)
    ensures
        session.started(clock).refuses_start(),
        !session.stopped().refuses_start(),
{
}

/// Flags and phase stay in step, and the log within its capacity, through
/// every start, stop and event; a channel that could not be opened, or was
/// lost, leaves the session running and not connected.
pub proof fn lemma_session_stays_coherent(
    session: SessionView,
    event: SessionEvent,
    clock: Seq<char>,
)
    requires
        session.coherent(),
    ensures
        session.stopped().coherent(),
        !session.refuses_start() ==> session.started(clock).coherent(),
        session.after(event, clock).coherent(),
        session.after(event, clock).state.running == session.state.running,
        session.after(event, clock).phase == SessionPhase::Ended ==> !session.after(
            event,
            clock,
        ).state.connected,
{
}

/// The connector session.
#[derive(Debug)]
pub struct Connector {
    backend_url: String,
    api_key: String,
    ad_client: ADClient,
    ews_client: EWSClient,
    state: ConnectorState,
    phase: SessionPhase,
    log: LogRing,
    pending: Option<Command>,
}

impl View for Connector {
    type V = SessionView;

    closed spec fn view(&self) -> SessionView {
        SessionView {
            state: self.state@,
            phase: self.phase,
            log: self.log@,
            pending: self.pending,
            channel_url: self.backend_url@ + "?token="@ + self.api_key@,
        }
    }
}

impl Connector {
    /// The settings of the directory client that the session uses.
    pub closed spec fn directory(&self) -> ADClient {
        self.ad_client
    }

    /// The settings of the calendar client that the session uses.
    pub closed spec fn calendar(&self) -> EWSClient {
        self.ews_client
    }

    /// A session that was never started: every flag false, no error, an
    /// empty log. The access token goes into the channel's address.
    pub fn new(backend_url: &str, api_key: &str, ad_client: ADClient, ews_client: EWSClient) -> (
        connector: Connector
    )
        ensures
            connector@ == SessionView::fresh(backend_url@ + "?token="@ + api_key@),
            connector@.coherent(),
            connector.directory() == ad_client,
            connector.calendar() == ews_client,
    {
        Connector {
            backend_url: backend_url.to_owned(),
            api_key: api_key.to_owned(),
            ad_client,
            ews_client,
            state: ConnectorState {
                running: false,
                connected: false,
                ad_connected: false,
                exchange_connected: false,
                last_error: None,
            },
            phase: SessionPhase::Idle,
            log: LogRing::new(),
            pending: None,
        }
    }

    /// The settings of the directory client that the session uses.
    pub fn ad_client(&self) -> (client: &ADClient)
        ensures
            *client == self.directory(),
    {
        &self.ad_client
    }

    /// The settings of the calendar client that the session uses.
    pub fn ews_client(&self) -> (client: &EWSClient)
        ensures
            *client == self.calendar(),
    {
        &self.ews_client
    }

    /// What the session publishes of itself.
    pub fn get_state(&self) -> (state: ConnectorState)
        ensures
            state@ == self@.state,
    {
        ConnectorState {
            running: self.state.running,
            connected: self.state.connected,
            ad_connected: self.state.ad_connected,
            exchange_connected: self.state.exchange_connected,
            last_error: match &self.state.last_error {
                Some(error) => Some(error.clone()),
                None => None,
            },
        }
    }

    /// Where the session stands.
    pub fn phase(&self) -> (phase: SessionPhase)
        ensures
            phase == self@.phase,
    {
        self.phase
    }

    /// The lines of the log, oldest first; never more than the log's
    /// capacity.
    pub fn logs(&self) -> (lines: Vec<String>)
        ensures
            crate::log::line_texts(lines@) == self@.log,
            lines@.len() <= LOG_CAPACITY,
    {
        self.log.lines()
    }

    /// Drops every line of the log.
    pub fn clear_logs(&mut self)
        ensures
            final(self)@ == (SessionView { log: Seq::empty(), ..old(self)@ }),
            final(self).directory() == old(self).directory(),
            final(self).calendar() == old(self).calendar(),
    {
        self.log.clear();
    }

    /// The address of the control channel, access token included.
    pub fn channel_url(&self) -> (url: String)
        ensures
            url@ == self@.channel_url,
    {
        String::from_str(self.backend_url.as_str()).concat("?token=").concat(
            self.api_key.as_str(),
        )
    }

    /// Takes `message` into the log at the time `clock`.
    fn note(&mut self, clock: &str, message: &str)
        ensures
            final(self)@ == (SessionView {
                log: logged(old(self)@.log, clock@, message@),
                ..old(self)@
            }),
            final(self).ad_client == old(self).ad_client,
            final(self).ews_client == old(self).ews_client,
    {
        self.log.push(stamp(clock, message));
    }

    /// Takes what a probe of `service` found into the log.
    fn note_probe(&mut self, clock: &str, service: &str, probe: &Probe)
        ensures
            final(self)@ == (SessionView {
                log: logged(old(self)@.log, clock@, probe_note(service@, *probe)),
                ..old(self)@
            }),
            final(self).ad_client == old(self).ad_client,
            final(self).ews_client == old(self).ews_client,
    {
        let message = match probe {
            Probe::Reachable => String::from_str(service).concat(" connection OK"),
            Probe::Unreachable(reason) => String::from_str(service).concat(
                " connection failed: ",
            ).concat(reason.as_str()),
        };
        self.note(clock, message.as_str());
    }

    /// Starts the session at the time `clock`. A session that is running is
    /// left as it is and the start is refused; otherwise the session runs
    /// from now on and the directory is to be probed.
    pub fn start_at(&mut self, clock: &str) -> (outcome: Result<SessionAction, SessionError>)
        ensures
            final(self).directory() == old(self).directory(),
            final(self).calendar() == old(self).calendar(),
            if old(self)@.refuses_start() {
                &&& outcome == Err::<SessionAction, SessionError>(SessionError::AlreadyRunning)
                &&& final(self)@ == old(self)@
            } else {
                &&& outcome matches Ok(action)
                &&& action@ == ActionView::ProbeDirectory
                &&& final(self)@ == old(self)@.started(clock@)
            },
    {
        if self.state.running {
            return Err(SessionError::AlreadyRunning);
        }
        self.state.running = true;
        self.phase = SessionPhase::ProbingDirectory;
        self.note(clock, "Starting connector...");
        self.note(clock, "Testing AD connection...");
        Ok(SessionAction::ProbeDirectory)
    }

    /// Starts the session now. A session that is running is left as it is
    /// and the start is refused.
    pub fn start(&mut self) -> (outcome: Result<SessionAction, SessionError>)
        ensures
            final(self).directory() == old(self).directory(),
            final(self).calendar() == old(self).calendar(),
            if old(self)@.refuses_start() {
                &&& outcome == Err::<SessionAction, SessionError>(SessionError::AlreadyRunning)
                &&& final(self)@ == old(self)@
            } else {
                &&& outcome matches Ok(action)
                &&& action@ == ActionView::ProbeDirectory
                &&& exists|clock: Seq<char>| final(self)@ == old(self)@.started(clock)
            },
    {
        let clock = local_clock();
        let outcome = self.start_at(clock.as_str());
        proof {
            if !old(self)@.refuses_start() {
                assert(final(self)@ == old(self)@.started(clock@));
            }
        }
        outcome
    }

    /// Tells the session to stop: it is no longer running and no longer
    /// connected, whatever it was doing.
    pub fn stop(&mut self)
        ensures
            final(self)@ == old(self)@.stopped(),
            final(self).directory() == old(self).directory(),
            final(self).calendar() == old(self).calendar(),
    {
        self.state.running = false;
        self.state.connected = false;
        self.phase = SessionPhase::Stopped;
        self.pending = None;
    }

    /// Takes what happened outside at the time `clock` and says what to do
    /// next. `now` is the moment that a ping reports, `timestamp` the moment
    /// of a response.
    pub fn on_event_at(
        &mut self,
        event: SessionEvent,
        clock: &str,
        now: String,
        timestamp: String,
    ) -> (action: SessionAction)
        ensures
            final(self)@ == old(self)@.after(event, clock@),
            action@ == old(self)@.action(event, now@, timestamp@),
            final(self).directory() == old(self).directory(),
            final(self).calendar() == old(self).calendar(),
    {
        match self.phase {
            SessionPhase::ProbingDirectory => match event {
                SessionEvent::DirectoryProbed(probe) => {
                    self.state.ad_connected = match &probe {
                        Probe::Reachable => true,
                        Probe::Unreachable(_) => false,
                    };
                    self.phase = SessionPhase::ProbingCalendar;
                    self.note_probe(clock, "AD", &probe);
                    self.note(clock, "Testing Exchange connection...");
                    SessionAction::ProbeCalendar
                },
                _ => SessionAction::Leave,
            },
            SessionPhase::ProbingCalendar => match event {
                SessionEvent::CalendarProbed(probe) => {
                    self.state.exchange_connected = match &probe {
                        Probe::Reachable => true,
                        Probe::Unreachable(_) => false,
                    };
                    self.phase = SessionPhase::Opening;
                    self.note_probe(clock, "Exchange", &probe);
                    self.note(clock, "Connecting to backend...");
                    SessionAction::OpenChannel { url: self.channel_url() }
                },
                _ => SessionAction::Leave,
            },
            SessionPhase::Opening => match event {
                SessionEvent::ChannelOpened => {
                    self.state.connected = true;
                    self.phase = SessionPhase::Reading;
                    self.note(clock, "Connected to backend");
                    SessionAction::ReadFrame
                },
                SessionEvent::ChannelFailed(reason) => {
                    let error = String::from_str("Failed to connect to backend: ").concat(
                        reason.as_str(),
                    );
                    self.phase = SessionPhase::Ended;
                    self.note(clock, error.as_str());
                    self.state.last_error = Some(error.clone());
                    SessionAction::Fail(error)
                },
                _ => SessionAction::Leave,
            },
            SessionPhase::Reading => match event {
                SessionEvent::Frame(frame) => match frame {
                    Frame::Command(cmd) => {
                        let message = String::from_str("Command: ").concat(cmd.command.as_str());
                        let request = cmd.decode();
                        self.phase = SessionPhase::Executing;
                        self.pending = Some(cmd);
                        self.note(clock, message.as_str());
                        SessionAction::Execute(request)
                    },
                    Frame::Ping(payload) => SessionAction::SendPong(payload),
                    Frame::Close => {
                        self.state.connected = false;
                        self.phase = SessionPhase::Ended;
                        self.note(clock, "Backend closed connection");
                        SessionAction::Finish
                    },
                    Frame::Malformed => SessionAction::ReadFrame,
                    Frame::Other => SessionAction::ReadFrame,
                },
                SessionEvent::TransportFailed => {
                    self.state.connected = false;
                    self.phase = SessionPhase::Ended;
                    SessionAction::Finish
                },
                SessionEvent::ChannelEnded => {
                    self.state.connected = false;
                    self.phase = SessionPhase::Ended;
                    SessionAction::Finish
                },
                _ => SessionAction::Leave,
            },
            SessionPhase::Executing => match event {
                SessionEvent::Completed(outcome) => match self.pending.take() {
                    Some(cmd) => {
                        let note = note_for(&cmd, &outcome);
                        let response = respond(&cmd, outcome, now, timestamp);
                        self.phase = SessionPhase::Reading;
                        match note {
                            Some(message) => {
                                self.note(clock, message.as_str());
                            },
                            None => {},
                        }
                        SessionAction::Send(response)
                    },
                    None => SessionAction::Leave,
                },
                _ => SessionAction::Leave,
            },
            _ => SessionAction::Leave,
        }
    }

    /// Takes what happened outside and says what to do next, at the present
    /// time.
    pub fn on_event(&mut self, event: SessionEvent) -> (action: SessionAction)
        ensures
            exists|clock: Seq<char>, now: Seq<char>, timestamp: Seq<char>|
                final(self)@ == old(self)@.after(event, clock) && action@ == old(self)@.action(
                    event,
                    now,
                    timestamp,
                ),
            final(self).directory() == old(self).directory(),
            final(self).calendar() == old(self).calendar(),
    {
        let clock = local_clock();
        let (now, timestamp) = match &event {
            SessionEvent::Completed(_) => (utc_timestamp(), utc_timestamp()),
            _ => (String::new(), String::new()),
        };
        let ghost now_text = now@;
        let ghost timestamp_text = timestamp@;
        let action = self.on_event_at(event, clock.as_str(), now, timestamp);
        proof {
            assert(final(self)@ == old(self)@.after(event, clock@) && action@ == old(
                self,
            )@.action(event, now_text, timestamp_text));
        }
        action
    }
}

} // verus!
