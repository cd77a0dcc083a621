use vstd::prelude::*;
use crate::config::TunnelConfig;
use crate::session::{
    spec_connect, spec_disconnect, spec_engine_started, spec_engine_stopped, spec_handle,
    spec_health_poll, spec_interface_created, spec_interface_destroyed, Action, EngineStart,
    EngineStatus, Input, SessionError, SessionEvent, SessionState, SessionView,
};

verus! {

/// Consecutive failed health polls after which a connected session is failed.
pub const DEFAULT_FAILURE_THRESHOLD: u32 = 3;

/// Owner of the one tunnel session: every transition of the session goes through `&mut self`.
pub struct SessionManager {
    state: SessionState,
    session_id: u64,
    next_id: u64,
    started_at: u64,
    config: Option<TunnelConfig>,
    iface: Option<u64>,
    engine: Option<u64>,
    disconnect_queued: bool,
    failed_polls: u32,
    threshold: u32,
    last_error: Option<SessionError>,
    events: Vec<SessionEvent>,
}

impl View for SessionManager {
    type V = SessionView;

    closed spec fn view(&self) -> SessionView {
        SessionView {
            state: self.state,
            session_id: self.session_id,
            next_id: self.next_id,
            started_at: self.started_at,
            config: self.config,
            iface: self.iface,
            engine: self.engine,
            disconnect_queued: self.disconnect_queued,
            failed_polls: self.failed_polls,
            threshold: self.threshold,
            last_error: self.last_error,
            events: self.events@,
        }
    }
}

impl SessionManager {
    /// An idle manager that fails a connected session after `failure_threshold`
    /// consecutive failed health polls (a threshold of zero counts as one).
    pub fn new(failure_threshold: u32) -> (r: SessionManager)
        ensures
            r@.wf(),
            r@ == (SessionView {
                state: SessionState::Idle,
                session_id: 0,
                next_id: 0,
                started_at: 0,
                config: None,
                iface: None,
                engine: None,
                disconnect_queued: false,
                failed_polls: 0,
                threshold: if failure_threshold == 0 { 1 } else { failure_threshold },
                last_error: None,
                events: Seq::empty(),
            }),
    {
        SessionManager {
            state: SessionState::Idle,
            session_id: 0,
            next_id: 0,
            started_at: 0,
            config: None,
            iface: None,
            engine: None,
            disconnect_queued: false,
            failed_polls: 0,
            threshold: if failure_threshold == 0 { 1 } else { failure_threshold },
            last_error: None,
            events: Vec::new(),
        }
    }

    fn fail(&mut self, e: SessionError)
        ensures
            final(self)@ == old(self)@.failing(e),
    {
        self.state = SessionState::Failed;
        self.disconnect_queued = false;
        self.last_error = Some(e);
        self.events.push(SessionEvent::Failed(e));
    }

    fn release(&mut self)
        ensures
            final(self)@ == old(self)@.released(),
    {
        self.state = SessionState::Idle;
        self.config = None;
        self.iface = None;
        self.engine = None;
        self.disconnect_queued = false;
    }

    /// Starts a session with `config` at time `now`: refused unless idle and the
    /// configuration is well formed; on success the caller must create the interface.
    pub fn connect(&mut self, config: TunnelConfig, now: u64) -> (r: Result<Action, SessionError>)
        requires
            old(self)@.wf(),
        ensures
            final(self)@.wf(),
            (final(self)@, r) == spec_connect(old(self)@, config, now),
    {
        if self.state != SessionState::Idle {
            return Err(SessionError::AlreadyActive);
        }
        if !config.is_valid() {
            return Err(SessionError::ConfigInvalid);
        }
        self.state = SessionState::Connecting;
        self.session_id = self.next_id;
        self.next_id = if self.next_id == u64::MAX { 0 } else { self.next_id + 1 };
        self.started_at = now;
        self.config = Some(config);
        self.failed_polls = 0;
        self.last_error = None;
        self.events.push(SessionEvent::Connecting);
        Ok(Action::CreateInterface)
    }

    /// Ends the session: a no-op when idle or already tearing down, queued while
    /// connecting, and from `Connected` the start of teardown.
    pub fn disconnect(&mut self) -> (r: Action)
        requires
            old(self)@.wf(),
        ensures
            final(self)@.wf(),
            (final(self)@, r) == spec_disconnect(old(self)@),
    {
        match self.state {
            SessionState::Connecting => {
                self.disconnect_queued = true;
                Action::Nothing
            },
            SessionState::Connected => {
                self.state = SessionState::Disconnecting;
                self.events.push(SessionEvent::Disconnecting);
                match self.engine {
                    Some(h) => Action::StopEngine(h),
                    None => Action::Nothing,
                }
            },
            _ => Action::Nothing,
        }
    }

    /// Takes the outcome of interface creation; an interface that no session
    /// awaits is handed back for release.
    pub fn on_interface_created(&mut self, created: Option<u64>) -> (r: Action)
        requires
            old(self)@.wf(),
        ensures
            final(self)@.wf(),
            (final(self)@, r) == spec_interface_created(old(self)@, created),
    {
        if self.state == SessionState::Connecting && self.iface.is_none() {
            match created {
                Some(id) => {
                    self.iface = Some(id);
                    Action::StartEngine(id)
                },
                None => {
                    self.fail(SessionError::InterfaceError);
                    self.release();
                    Action::Nothing
                },
            }
        } else {
            match created {
                Some(id) => Action::DestroyInterface(id),
                None => Action::Nothing,
            }
        }
    }

    /// Takes the outcome of starting the engine; a timeout or an engine error fails
    /// the session and asks for the interface to be released.
    pub fn on_engine_started(&mut self, outcome: EngineStart) -> (r: Action)
        requires
            old(self)@.wf(),
        ensures
            final(self)@.wf(),
            (final(self)@, r) == spec_engine_started(old(self)@, outcome),
    {
        let awaited = self.state == SessionState::Connecting && self.iface.is_some()
            && self.engine.is_none();
        if !awaited {
            return match outcome {
                EngineStart::Started(h) => Action::StopEngine(h),
                _ => Action::Nothing,
            };
        }
        let iface = match self.iface {
            Some(i) => i,
            None => 0,
        };
        match outcome {
            EngineStart::Started(h) => {
                self.engine = Some(h);
                if self.disconnect_queued {
                    self.state = SessionState::Disconnecting;
                    self.disconnect_queued = false;
                    self.events.push(SessionEvent::Disconnecting);
                    Action::StopEngine(h)
                } else {
                    self.state = SessionState::Connected;
                    self.failed_polls = 0;
                    self.events.push(SessionEvent::Connected);
                    Action::Nothing
                }
            },
            EngineStart::TimedOut => {
                self.fail(SessionError::HandshakeTimeout);
                Action::DestroyInterface(iface)
            },
            EngineStart::Failed(d) => {
                self.fail(SessionError::EngineError(d));
                Action::DestroyInterface(iface)
            },
        }
    }

    /// Records that the engine has stopped, whether or not it reported an error,
    /// and asks for the interface to be released.
    pub fn on_engine_stopped(&mut self) -> (r: Action)
        requires
            old(self)@.wf(),
        ensures
            final(self)@.wf(),
            (final(self)@, r) == spec_engine_stopped(old(self)@),
    {
        let tearing = self.state == SessionState::Disconnecting || self.state
            == SessionState::Failed;
        match (self.engine, self.iface) {
            (Some(_), Some(i)) => {
                if tearing {
                    self.engine = None;
                    Action::DestroyInterface(i)
                } else {
                    Action::Nothing
                }
            },
            _ => Action::Nothing,
        }
    }

    /// Records that the interface is gone; the session is then idle. A second
    /// report of the same release changes nothing.
    pub fn on_interface_destroyed(&mut self) -> (r: Action)
        requires
            old(self)@.wf(),
        ensures
            final(self)@.wf(),
            (final(self)@, r) == spec_interface_destroyed(old(self)@),
    {
        let tearing = self.state == SessionState::Disconnecting || self.state
            == SessionState::Failed;
        if tearing && self.engine.is_none() && self.iface.is_some() {
            if self.state == SessionState::Disconnecting {
                self.events.push(SessionEvent::Disconnected);
            }
            self.release();
        }
        Action::Nothing
    }

    /// Takes one health poll of a connected tunnel; `Down` for the threshold's
    /// number of polls in a row fails the session with `HealthCheckTimeout`.
    pub fn on_health_poll(&mut self, status: EngineStatus) -> (r: Action)
        requires
            old(self)@.wf(),
        ensures
            final(self)@.wf(),
            (final(self)@, r) == spec_health_poll(old(self)@, status),
    {
        if self.state != SessionState::Connected {
            return Action::Nothing;
        }
        if status != EngineStatus::Down {
            self.failed_polls = 0;
            return Action::Nothing;
        }
        if self.failed_polls + 1 >= self.threshold {
            let h = match self.engine {
                Some(h) => h,
                None => 0,
            };
            self.fail(SessionError::HealthCheckTimeout);
            self.failed_polls = 0;
            Action::StopEngine(h)
        } else {
            self.failed_polls = self.failed_polls + 1;
            Action::Nothing
        }
    }

    /// The single entry point for requests and outcomes, applied one at a time.
    pub fn handle(&mut self, input: Input) -> (r: Result<Action, SessionError>)
        requires
            old(self)@.wf(),
        ensures
            final(self)@.wf(),
            (final(self)@, r) == spec_handle(old(self)@, input),
    {
        match input {
            Input::Connect(c, now) => self.connect(c, now),
            Input::Disconnect => Ok(self.disconnect()),
            Input::InterfaceCreated(c) => Ok(self.on_interface_created(c)),
            Input::EngineStarted(o) => Ok(self.on_engine_started(o)),
            Input::EngineStopped => Ok(self.on_engine_stopped()),
            Input::InterfaceDestroyed => Ok(self.on_interface_destroyed()),
            Input::HealthPoll(s) => Ok(self.on_health_poll(s)),
        }
    }
    /// The current state; safe to ask in any state.
    pub fn status(&self) -> (r: SessionState)
        ensures
            r == self@.state,
    {
        self.state
    }

    /// Why the last session failed, if it did.
    pub fn last_error(&self) -> (r: Option<SessionError>)
        ensures
            r == self@.last_error,
    {
        self.last_error
    }

    /// Identifier of the current, or else the last, session.
    pub fn session_id(&self) -> (r: u64)
        ensures
            r == self@.session_id,
    {
        self.session_id
    }

    /// Time at which the current, or else the last, session was started.
    pub fn started_at(&self) -> (r: u64)
        ensures
            r == self@.started_at,
    {
        self.started_at
    }

    /// The configuration of the live session; none when idle.
    pub fn active_config(&self) -> (r: Option<&TunnelConfig>)
        ensures
            r is Some <==> self@.config is Some,
            r is Some ==> *r->0 == self@.config->0,
    {
        match &self.config {
            Some(c) => Some(c),
            None => None,
        }
    }

    /// Whether the health supervisor should be polling, which is only while connected.
    pub fn is_supervising(&self) -> (r: bool)
        ensures
            r == (self@.state == SessionState::Connected),
    {
        self.state == SessionState::Connected
    }

    /// Hands out the events emitted since the last call, oldest first.
    pub fn take_events(&mut self) -> (r: Vec<SessionEvent>)
        requires
            old(self)@.wf(),
        ensures
            final(self)@.wf(),
            r@ == old(self)@.events,
            final(self)@ == (SessionView { events: Seq::empty(), ..old(self)@ }),
    {
        let mut out: Vec<SessionEvent> = Vec::new();
        std::mem::swap(&mut self.events, &mut out);
        out
    }
}

} // verus!
