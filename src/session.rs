use vstd::prelude::*;
use crate::config::TunnelConfig;

verus! {

/// Lifecycle state of the single tunnel session.
#[derive(Clone, Copy, Debug, PartialEq, Eq, Structural)]
pub enum SessionState {
    Idle,
    Connecting,
    Connected,
    Disconnecting,
    Failed,
}

/// Why a request was refused or a session failed.
#[derive(Clone, Copy, Debug, PartialEq, Eq, Structural)]
pub enum SessionError {
    AlreadyActive,
    ConfigInvalid,
    InterfaceError,
    HandshakeTimeout,
    EngineError(u32),
    HealthCheckTimeout,
}

/// Notification emitted on every state transition.
#[derive(Clone, Copy, Debug, PartialEq, Eq, Structural)]
pub enum SessionEvent {
    Connecting,
    Connected,
    Disconnecting,
    Disconnected,
    Failed(SessionError),
}

/// Health of a running tunnel as reported by the engine.
#[derive(Clone, Copy, Debug, PartialEq, Eq, Structural)]
pub enum EngineStatus {
    Up,
    Down,
    Degraded,
}

/// How an attempt to start the engine ended.
#[derive(Clone, Copy, Debug, PartialEq, Eq, Structural)]
pub enum EngineStart {
    Started(u64),
    TimedOut,
    Failed(u32),
}

/// Work the caller must perform next and then report back.
#[derive(Clone, Copy, Debug, PartialEq, Eq, Structural)]
pub enum Action {
    Nothing,
    CreateInterface,
    StartEngine(u64),
    StopEngine(u64),
    DestroyInterface(u64),
}

/// A request or an outcome handed to the manager.
#[derive(Debug)]
pub enum Input {
    Connect(TunnelConfig, u64),
    Disconnect,
    InterfaceCreated(Option<u64>),
    EngineStarted(EngineStart),
    EngineStopped,
    InterfaceDestroyed,
    HealthPoll(EngineStatus),
}

/// Abstract contents of a [`SessionManager`].
pub struct SessionView {
    pub state: SessionState,
    pub session_id: u64,
    pub next_id: u64,
    pub started_at: u64,
    pub config: Option<TunnelConfig>,
    pub iface: Option<u64>,
    pub engine: Option<u64>,
    pub disconnect_queued: bool,
    pub failed_polls: u32,
    pub threshold: u32,
    pub last_error: Option<SessionError>,
    pub events: Seq<SessionEvent>,
}

impl SessionView {
    /// Which resources each state holds; `Idle` holds none and is the only state that does so.
    pub open spec fn wf(&self) -> bool {
        &&& self.threshold > 0
        &&& match self.state {
            SessionState::Idle => self.config is None && self.iface is None && self.engine is None
                && !self.disconnect_queued,
            SessionState::Connecting => self.config is Some && self.engine is None,
            SessionState::Connected => self.config is Some && self.iface is Some
                && self.engine is Some && !self.disconnect_queued && self.failed_polls
                < self.threshold,
            SessionState::Disconnecting => self.config is Some && self.iface is Some
                && !self.disconnect_queued,
            SessionState::Failed => self.config is Some && self.iface is Some
                && !self.disconnect_queued,
        }
    }

    /// The session has reached `Idle` again: its configuration and handles are released.
    pub open spec fn released(self) -> SessionView {
        SessionView {
            state: SessionState::Idle,
            config: None,
            iface: None,
            engine: None,
            disconnect_queued: false,
            ..self
        }
    }

    /// A session ends in failure for `e`, with `iface` still to be released.
    pub open spec fn failing(self, e: SessionError) -> SessionView {
        SessionView {
            state: SessionState::Failed,
            disconnect_queued: false,
            last_error: Some(e),
            events: self.events.push(SessionEvent::Failed(e)),
            ..self
        }
    }
}

pub open spec fn id_after(id: u64) -> u64 {
    if id == u64::MAX {
        0
    } else {
        (id + 1) as u64
    }
}

pub open spec fn spec_connect(v: SessionView, config: TunnelConfig, now: u64) -> (SessionView, Result<Action, SessionError>) {
    if v.state != SessionState::Idle {
        (v, Err(SessionError::AlreadyActive))
    } else if !config.spec_valid() {
        (v, Err(SessionError::ConfigInvalid))
    } else {
        (
            SessionView {
                state: SessionState::Connecting,
                session_id: v.next_id,
                next_id: id_after(v.next_id),
                started_at: now,
                config: Some(config),
                failed_polls: 0,
                last_error: None,
                events: v.events.push(SessionEvent::Connecting),
                ..v
            },
            Ok(Action::CreateInterface),
        )
    }
}

pub open spec fn spec_disconnect(v: SessionView) -> (SessionView, Action) {
    match v.state {
        SessionState::Connecting => (SessionView { disconnect_queued: true, ..v }, Action::Nothing),
        SessionState::Connected => (
            SessionView {
                state: SessionState::Disconnecting,
                events: v.events.push(SessionEvent::Disconnecting),
                ..v
            },
            Action::StopEngine(v.engine->0),
        ),
        _ => (v, Action::Nothing),
    }
}

pub open spec fn spec_interface_created(v: SessionView, created: Option<u64>) -> (SessionView, Action) {
    if v.state == SessionState::Connecting && v.iface is None {
        match created {
            Some(id) => (SessionView { iface: Some(id), ..v }, Action::StartEngine(id)),
            None => {
                let f = v.failing(SessionError::InterfaceError);
                (f.released(), Action::Nothing)
            },
        }
    } else {
        match created {
            Some(id) => (v, Action::DestroyInterface(id)),
            None => (v, Action::Nothing),
        }
    }
}

pub open spec fn spec_engine_started(v: SessionView, outcome: EngineStart) -> (SessionView, Action) {
    if v.state == SessionState::Connecting && v.iface is Some && v.engine is None {
        match outcome {
            EngineStart::Started(h) => if v.disconnect_queued {
                (
                    SessionView {
                        state: SessionState::Disconnecting,
                        engine: Some(h),
                        disconnect_queued: false,
                        events: v.events.push(SessionEvent::Disconnecting),
                        ..v
                    },
                    Action::StopEngine(h),
                )
            } else {
                (
                    SessionView {
                        state: SessionState::Connected,
                        engine: Some(h),
                        failed_polls: 0,
                        events: v.events.push(SessionEvent::Connected),
                        ..v
                    },
                    Action::Nothing,
                )
            },
            EngineStart::TimedOut => (
                v.failing(SessionError::HandshakeTimeout),
                Action::DestroyInterface(v.iface->0),
            ),
            EngineStart::Failed(d) => (
                v.failing(SessionError::EngineError(d)),
                Action::DestroyInterface(v.iface->0),
            ),
        }
    } else {
        match outcome {
            EngineStart::Started(h) => (v, Action::StopEngine(h)),
            _ => (v, Action::Nothing),
        }
    }
}

pub open spec fn tearing_down(v: SessionView) -> bool {
    v.state == SessionState::Disconnecting || v.state == SessionState::Failed
}

pub open spec fn spec_engine_stopped(v: SessionView) -> (SessionView, Action) {
    if tearing_down(v) && v.engine is Some && v.iface is Some {
        (SessionView { engine: None, ..v }, Action::DestroyInterface(v.iface->0))
    } else {
        (v, Action::Nothing)
    }
}

pub open spec fn spec_interface_destroyed(v: SessionView) -> (SessionView, Action) {
    if tearing_down(v) && v.engine is None && v.iface is Some {
        if v.state == SessionState::Disconnecting {
            (
                SessionView { events: v.events.push(SessionEvent::Disconnected), ..v }.released(),
                Action::Nothing,
            )
        } else {
            (v.released(), Action::Nothing)
        }
    } else {
        (v, Action::Nothing)
    }
}

pub open spec fn spec_health_poll(v: SessionView, status: EngineStatus) -> (SessionView, Action) {
    if v.state != SessionState::Connected {
        (v, Action::Nothing)
    } else if status != EngineStatus::Down {
        (SessionView { failed_polls: 0, ..v }, Action::Nothing)
    } else if v.failed_polls + 1 >= v.threshold {
        (
            SessionView { failed_polls: 0, ..v.failing(SessionError::HealthCheckTimeout) },
            Action::StopEngine(v.engine->0),
        )
    } else {
        (SessionView { failed_polls: (v.failed_polls + 1) as u32, ..v }, Action::Nothing)
    }
}

pub open spec fn spec_handle(v: SessionView, input: Input) -> (SessionView, Result<Action, SessionError>) {
    match input {
        Input::Connect(c, now) => spec_connect(v, c, now),
        Input::Disconnect => {
            let (w, a) = spec_disconnect(v);
            (w, Ok(a))
        },
        Input::InterfaceCreated(c) => {
            let (w, a) = spec_interface_created(v, c);
            (w, Ok(a))
        },
        Input::EngineStarted(o) => {
            let (w, a) = spec_engine_started(v, o);
            (w, Ok(a))
        },
        Input::EngineStopped => {
            let (w, a) = spec_engine_stopped(v);
            (w, Ok(a))
        },
        Input::InterfaceDestroyed => {
            let (w, a) = spec_interface_destroyed(v);
            (w, Ok(a))
        },
        Input::HealthPoll(s) => {
            let (w, a) = spec_health_poll(v, s);
            (w, Ok(a))
        },
    }
}

/// The session after each input of `inputs` in turn.
pub open spec fn run(v: SessionView, inputs: Seq<Input>) -> SessionView
    decreases inputs.len(),
{
    if inputs.len() == 0 {
        v
    } else {
        run(spec_handle(v, inputs[0]).0, inputs.drop_first())
    }
}

} // verus!
