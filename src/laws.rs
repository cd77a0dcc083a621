use vstd::prelude::*;
use crate::config::TunnelConfig;
use crate::session::{
    run, spec_connect, spec_disconnect, spec_engine_started, spec_handle,
    spec_interface_created, spec_interface_destroyed, Action, EngineStart, EngineStatus, Input,
    SessionError, SessionEvent, SessionState, SessionView,
};

verus! {

/// Every single input leaves a well-formed session well formed.
pub proof fn lemma_handle_keeps_wf(v: SessionView, input: Input)
    requires
        v.wf(),
    ensures
        spec_handle(v, input).0.wf(),
{
}

/// Whatever inputs arrive, in whatever order, the session stays in one of its
/// defined states and holds exactly the resources that state allows.
pub proof fn lemma_run_keeps_wf(v: SessionView, inputs: Seq<Input>)
    requires
        v.wf(),
    ensures
        run(v, inputs).wf(),
    decreases inputs.len(),
{
    if inputs.len() > 0 {
        lemma_handle_keeps_wf(v, inputs[0]);
        lemma_run_keeps_wf(spec_handle(v, inputs[0]).0, inputs.drop_first());
    }
}

/// Disconnecting twice in a row is the same as disconnecting once: the second
/// call changes nothing and asks for nothing. From `Idle` neither call does.
pub proof fn lemma_disconnect_idempotent(v: SessionView)
    requires
        v.wf(),
    ensures
        spec_disconnect(spec_disconnect(v).0) == (spec_disconnect(v).0, Action::Nothing),
        v.state == SessionState::Idle ==> spec_disconnect(v) == (v, Action::Nothing),
{
}

/// A connect whose interface could not be created ends idle, holds no
/// interface, and asks for no release: there was nothing to destroy.
pub proof fn lemma_create_failure_leaks_nothing(v: SessionView, config: TunnelConfig, now: u64)
    requires
        v.wf(),
        v.state == SessionState::Idle,
        config.spec_valid(),
    ensures
        ({
            let (w, a) = spec_interface_created(spec_connect(v, config, now).0, None);
            &&& a == Action::Nothing
            &&& w.state == SessionState::Idle
            &&& w.iface is None
            &&& w.engine is None
            &&& w.last_error == Some(SessionError::InterfaceError)
        }),
{
}

/// A connect that fails after its interface was created asks exactly once for
/// that interface to be released; once released the session is idle, and a
/// second report of the release changes nothing.
pub proof fn lemma_start_failure_releases_once(
    v: SessionView,
    config: TunnelConfig,
    now: u64,
    id: u64,
    outcome: EngineStart,
)
    requires
        v.wf(),
        v.state == SessionState::Idle,
        config.spec_valid(),
        !(outcome is Started),
    ensures
        ({
            let (c, a1) = spec_interface_created(spec_connect(v, config, now).0, Some(id));
            let (f, a2) = spec_engine_started(c, outcome);
            let (d, a3) = spec_interface_destroyed(f);
            &&& a1 == Action::StartEngine(id)
            &&& a2 == Action::DestroyInterface(id)
            &&& f.state == SessionState::Failed
            &&& a3 == Action::Nothing
            &&& d.state == SessionState::Idle
            &&& d.iface is None
            &&& spec_interface_destroyed(d) == (d, Action::Nothing)
        }),
{
}

/// Of two connects served one after the other from `Idle`, where the first
/// carries a valid configuration, the first is admitted and the second is
/// refused with `AlreadyActive`, leaving the session as the first made it.
pub proof fn lemma_second_connect_refused(
    v: SessionView,
    c1: TunnelConfig,
    t1: u64,
    c2: TunnelConfig,
    t2: u64,
)
    requires
        v.wf(),
        v.state == SessionState::Idle,
        c1.spec_valid(),
    ensures
        spec_connect(v, c1, t1).1 == Ok::<Action, SessionError>(Action::CreateInterface),
        spec_connect(spec_connect(v, c1, t1).0, c2, t2) == (
            spec_connect(v, c1, t1).0,
            Err::<Action, SessionError>(SessionError::AlreadyActive),
        ),
{
}

/// `n` health polls in a row, each reporting the tunnel down.
pub open spec fn polls_down(n: nat) -> Seq<Input> {
    Seq::new(n, |i: int| Input::HealthPoll(EngineStatus::Down))
}

/// A connected session whose polls keep reporting the tunnel down fails with
/// `HealthCheckTimeout` exactly when its count of consecutive failures reaches
/// the threshold, emitting that failure and nothing else.
pub proof fn lemma_failed_polls_fail_session(v: SessionView)
    requires
        v.wf(),
        v.state == SessionState::Connected,
    ensures
        ({
            let w = run(v, polls_down((v.threshold - v.failed_polls) as nat));
            &&& w.state == SessionState::Failed
            &&& w.last_error == Some(SessionError::HealthCheckTimeout)
            &&& w.events == v.events.push(SessionEvent::Failed(SessionError::HealthCheckTimeout))
            &&& w.engine == v.engine
            &&& w.iface == v.iface
        }),
    decreases v.threshold - v.failed_polls,
{
    let n = (v.threshold - v.failed_polls) as nat;
    let next = spec_handle(v, polls_down(n)[0]).0;
    assert(polls_down(n).drop_first() =~= polls_down((n - 1) as nat));
    assert(run(v, polls_down(n)) == run(next, polls_down((n - 1) as nat)));
    if v.failed_polls + 1 < v.threshold {
        lemma_failed_polls_fail_session(next);
    } else {
        assert(polls_down((n - 1) as nat) =~= Seq::<Input>::empty());
        assert(run(next, polls_down((n - 1) as nat)) == next);
    }
}

} // verus!
