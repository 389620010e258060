//! The execution session: the unit of isolation. One session owns one fresh
//! execution substrate instance and one environment, lives for exactly one
//! request, and is torn down unconditionally on every path, success or error.

use vstd::prelude::*;

use crate::bridge::BindingSet;
use crate::outcome::Outcome;

verus! {

/// Where a session stands in its lifecycle.
#[derive(PartialEq, Eq, Structural, Clone, Copy, Debug)]
pub enum SessionState {
    /// The session exists; no substrate work has happened yet.
    Created,
    /// A fresh substrate instance is allocated and the environment is
    /// populated with the host bindings; compilation may begin.
    EnvironmentReady,
    /// The source text compiled against the environment.
    Compiled,
    /// The compiled unit ran to completion and produced a value.
    Executed,
    /// Terminal: the source text was syntactically invalid.
    CompileFailed,
    /// Terminal: an uncaught fault was raised while the unit ran.
    RuntimeFailed,
    /// Terminal: substrate or environment setup hit resource exhaustion.
    InitFailed,
    /// The substrate instance and all environment state are released.
    Destroyed,
}

/// What the engine reported back for the step the session asked for.
pub enum SessionEvent {
    /// The substrate instance was allocated and every binding was installed.
    EnvironmentBuilt,
    /// Substrate or environment setup failed for want of resources.
    EnvironmentExhausted,
    /// The source text compiled into a script unit.
    UnitCompiled,
    /// The engine rejected the source text as syntactically invalid.
    SourceRejected,
    /// The unit ran to completion; the payload is the engine's string
    /// conversion of the value it evaluated to.
    RunCompleted(String),
    /// An uncaught fault ended the run; the payload is its diagnostic text.
    RunFaulted(String),
    /// The substrate instance and the environment were released.
    SubstrateReleased,
}

/// What the driver must do next for a session in a given state.
#[derive(PartialEq, Eq, Structural, Clone, Copy, Debug)]
pub enum SessionAction {
    /// Allocate a substrate instance and install the bindings.
    BuildEnvironment,
    /// Submit the source text for compilation.
    CompileSource,
    /// Run the compiled unit.
    RunUnit,
    /// Release the substrate instance and all environment state.
    TearDown,
    /// Nothing remains: the session is over.
    Finish,
}

/// The action a session in this state asks its driver for. Every terminal
/// state asks for teardown: destruction is unconditional.
pub open spec fn action_for(s: SessionState) -> SessionAction {
    match s {
        SessionState::Created => SessionAction::BuildEnvironment,
        SessionState::EnvironmentReady => SessionAction::CompileSource,
        SessionState::Compiled => SessionAction::RunUnit,
        SessionState::Executed => SessionAction::TearDown,
        SessionState::CompileFailed => SessionAction::TearDown,
        SessionState::RuntimeFailed => SessionAction::TearDown,
        SessionState::InitFailed => SessionAction::TearDown,
        SessionState::Destroyed => SessionAction::Finish,
    }
}

/// Whether this event may arrive in this state.
pub open spec fn step_allowed(s: SessionState, ev: SessionEvent) -> bool {
    match (s, ev) {
        (SessionState::Created, SessionEvent::EnvironmentBuilt) => true,
        (SessionState::Created, SessionEvent::EnvironmentExhausted) => true,
        (SessionState::EnvironmentReady, SessionEvent::UnitCompiled) => true,
        (SessionState::EnvironmentReady, SessionEvent::SourceRejected) => true,
        (SessionState::Compiled, SessionEvent::RunCompleted(_)) => true,
        (SessionState::Compiled, SessionEvent::RunFaulted(_)) => true,
        (SessionState::Executed, SessionEvent::SubstrateReleased) => true,
        (SessionState::CompileFailed, SessionEvent::SubstrateReleased) => true,
        (SessionState::RuntimeFailed, SessionEvent::SubstrateReleased) => true,
        (SessionState::InitFailed, SessionEvent::SubstrateReleased) => true,
        _ => false,
    }
}

/// The state an allowed event moves the session to.
pub open spec fn step_next(s: SessionState, ev: SessionEvent) -> SessionState {
    match (s, ev) {
        (SessionState::Created, SessionEvent::EnvironmentBuilt) => SessionState::EnvironmentReady,
        (SessionState::Created, SessionEvent::EnvironmentExhausted) => SessionState::InitFailed,
        (SessionState::EnvironmentReady, SessionEvent::UnitCompiled) => SessionState::Compiled,
        (SessionState::EnvironmentReady, SessionEvent::SourceRejected) => SessionState::CompileFailed,
        (SessionState::Compiled, SessionEvent::RunCompleted(_)) => SessionState::Executed,
        (SessionState::Compiled, SessionEvent::RunFaulted(_)) => SessionState::RuntimeFailed,
        (_, SessionEvent::SubstrateReleased) => SessionState::Destroyed,
        _ => s,
    }
}

/// One execution session. `bindings` is the environment's host-binding
/// configuration, fixed at creation and immutable for the session's lifetime;
/// `result` is the outcome recorded on reaching an outcome-bearing state.
pub struct Session {
    pub bindings: BindingSet,
    pub state: SessionState,
    pub result: Option<Outcome>,
}

impl Session {
    /// The recorded result agrees with the state: nothing is recorded before
    /// the run is decided, and each terminal state carries its own kind of
    /// outcome. An initialization failure carries no outcome at all.
    pub open spec fn wf(self) -> bool {
        &&& self.bindings.wf()
        &&& match self.state {
            SessionState::Created => self.result is None,
            SessionState::EnvironmentReady => self.result is None,
            SessionState::Compiled => self.result is None,
            SessionState::Executed => self.result matches Some(Outcome::Success(_)),
            SessionState::CompileFailed => self.result == Some(Outcome::CompileError),
            SessionState::RuntimeFailed => self.result matches Some(Outcome::RuntimeError(_)),
            SessionState::InitFailed => self.result is None,
            SessionState::Destroyed => true,
        }
    }

    /// A new session around the given binding configuration. No substrate
    /// exists yet; the caller drives it via `next_action` and `step`.
    pub fn new(bindings: BindingSet) -> (r: Session)
        requires
            bindings.wf(),
        ensures
            r.wf(),
            r.state == SessionState::Created,
            r.bindings == bindings,
            r.result is None,
    {
        Session { bindings, state: SessionState::Created, result: None }
    }

    /// What the driver must do next for this session.
    pub fn next_action(&self) -> (a: SessionAction)
        ensures
            a == action_for(self.state),
    {
        match self.state {
            SessionState::Created => SessionAction::BuildEnvironment,
            SessionState::EnvironmentReady => SessionAction::CompileSource,
            SessionState::Compiled => SessionAction::RunUnit,
            SessionState::Executed => SessionAction::TearDown,
            SessionState::CompileFailed => SessionAction::TearDown,
            SessionState::RuntimeFailed => SessionAction::TearDown,
            SessionState::InitFailed => SessionAction::TearDown,
            SessionState::Destroyed => SessionAction::Finish,
        }
    }

    /// Advance the session on one engine event. The bindings never change;
    /// the outcome is recorded the moment the run is decided and kept through
    /// teardown.
    pub fn step(&mut self, ev: SessionEvent)
        requires
            old(self).wf(),
            step_allowed(old(self).state, ev),
        ensures
            final(self).wf(),
            final(self).state == step_next(old(self).state, ev),
            final(self).bindings == old(self).bindings,
            ev matches SessionEvent::RunCompleted(t) ==> (
                final(self).result == Some(Outcome::Success(t))
            ),
            ev matches SessionEvent::RunFaulted(d) ==> (
                final(self).result == Some(Outcome::RuntimeError(d))
            ),
            ev == SessionEvent::SourceRejected ==> (
                final(self).result == Some(Outcome::CompileError)
            ),
            (ev == SessionEvent::EnvironmentBuilt || ev == SessionEvent::EnvironmentExhausted
                || ev == SessionEvent::UnitCompiled || ev == SessionEvent::SubstrateReleased) ==> (
                final(self).result == old(self).result
            ),
    {
        match ev {
            SessionEvent::EnvironmentBuilt => {
                self.state = SessionState::EnvironmentReady;
            },
            SessionEvent::EnvironmentExhausted => {
                self.state = SessionState::InitFailed;
            },
            SessionEvent::UnitCompiled => {
                self.state = SessionState::Compiled;
            },
            SessionEvent::SourceRejected => {
                self.state = SessionState::CompileFailed;
                self.result = Some(Outcome::CompileError);
            },
            SessionEvent::RunCompleted(t) => {
                self.state = SessionState::Executed;
                self.result = Some(Outcome::Success(t));
            },
            SessionEvent::RunFaulted(d) => {
                self.state = SessionState::RuntimeFailed;
                self.result = Some(Outcome::RuntimeError(d));
            },
            SessionEvent::SubstrateReleased => {
                self.state = SessionState::Destroyed;
            },
        }
    }
}

/// Destruction is reachable on every path: no state short of `Destroyed` is
/// stuck, and wherever the asked-for action is teardown, releasing the
/// substrate is allowed and lands the session in `Destroyed`.
pub proof fn lemma_teardown_reached(s: SessionState)
    ensures
        s != SessionState::Destroyed ==> exists|ev: SessionEvent| step_allowed(s, ev),
        action_for(s) == SessionAction::TearDown ==> (
            step_allowed(s, SessionEvent::SubstrateReleased)
                && step_next(s, SessionEvent::SubstrateReleased) == SessionState::Destroyed
        ),
{
    match s {
        SessionState::Created => {
            assert(step_allowed(s, SessionEvent::EnvironmentBuilt));
        },
        SessionState::EnvironmentReady => {
            assert(step_allowed(s, SessionEvent::UnitCompiled));
        },
        SessionState::Compiled => {
            assert(step_allowed(s, SessionEvent::RunFaulted(arbitrary())));
        },
        _ => {
            assert(s == SessionState::Destroyed || step_allowed(
                s,
                SessionEvent::SubstrateReleased,
            ));
        },
    }
}

} // verus!
