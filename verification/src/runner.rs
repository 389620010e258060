//! The engine platform singleton and the script runner: one `execute` per
//! request, driving a fresh session from creation through compilation, run,
//! and unconditional teardown, and mapping what the engine did to the
//! request's outcome.

use vstd::prelude::*;

use crate::bridge::default_bindings;
use crate::outcome::Outcome;
use crate::session::Session;
use crate::session::SessionEvent;
use crate::session::SessionState;

verus! {

/// Substrate or environment setup failed for want of resources. Fatal to the
/// affected request only; the platform stays usable for other requests.
#[derive(PartialEq, Eq, Structural, Clone, Copy, Debug)]
pub struct InitError;

/// Everything the engine did for one submitted script, summarised for the
/// runner: the engine-facing driver performs the substrate work in session
/// order and reports the first decisive answer here.
pub enum EngineReport {
    /// Substrate allocation or environment setup hit resource exhaustion.
    EnvironmentExhausted,
    /// The engine rejected the source text as syntactically invalid.
    SourceRejected,
    /// An uncaught fault ended the run; the payload is its diagnostic text.
    RunFaulted(String),
    /// The script ran to completion; the payload is the engine's string
    /// conversion of the value it evaluated to.
    Evaluated(String),
}

/// The outcome owed for each engine report: success carries the value text,
/// a rejected source the fixed compile diagnostic, a fault its diagnostic
/// text, and only resource exhaustion fails the request without an outcome.
pub open spec fn outcome_for(report: EngineReport) -> Result<Outcome, InitError> {
    match report {
        EngineReport::EnvironmentExhausted => Err(InitError),
        EngineReport::SourceRejected => Ok(Outcome::CompileError),
        EngineReport::RunFaulted(d) => Ok(Outcome::RuntimeError(d)),
        EngineReport::Evaluated(t) => Ok(Outcome::Success(t)),
    }
}

/// The response body sent when substrate or environment setup failed.
pub open spec fn init_error_text() -> Seq<char> {
    "error initializing execution environment"@
}

/// The response body owed for each engine report: the value text of a
/// completed run, the fixed compile diagnostic for a rejected source, the
/// fault's diagnostic for a faulted run, and the fixed initialization
/// diagnostic when no environment could be set up.
pub open spec fn response_for(report: EngineReport) -> Seq<char> {
    match report {
        EngineReport::EnvironmentExhausted => init_error_text(),
        EngineReport::SourceRejected => crate::outcome::compile_error_text(),
        EngineReport::RunFaulted(d) => d@,
        EngineReport::Evaluated(t) => t@,
    }
}

/// The process-wide engine platform and the runner's session accounting.
/// One value of this type exists for the process's lifetime. After
/// `initialize` the platform state is read-only; `live_sessions` counts the
/// substrate instances currently alive.
pub struct Runner {
    pub initialized: bool,
    pub live_sessions: usize,
}

impl Runner {
    /// The runner as the process starts: platform untouched, no session live.
    pub fn new() -> (r: Runner)
        ensures
            !r.initialized,
            r.live_sessions == 0,
    {
        Runner { initialized: false, live_sessions: 0 }
    }

    /// One-time platform initialization, before any request is served.
    /// At most once per process: a second call is a caller error, not a
    /// tolerated no-op.
    pub fn initialize(&mut self)
        requires
            !old(self).initialized,
        ensures
            final(self).initialized,
            final(self).live_sessions == old(self).live_sessions,
    {
        self.initialized = true;
    }

    /// Open a session for one request: a fresh substrate instance, an
    /// environment populated with the default bindings before any script
    /// text is compiled against it.
    pub fn begin_session(&mut self) -> (s: Session)
        requires
            old(self).initialized,
            old(self).live_sessions < usize::MAX,
        ensures
            final(self).initialized,
            final(self).live_sessions == old(self).live_sessions + 1,
            s.wf(),
            s.state == SessionState::Created,
            s.result is None,
            s.bindings.len() == 1,
            s.bindings.name_at(0) == crate::bridge::print_name(),
    {
        self.live_sessions = self.live_sessions + 1;
        Session::new(default_bindings())
    }

    /// Close a destroyed session and hand back whatever outcome it recorded:
    /// `None` only when environment setup itself failed.
    pub fn end_session(&mut self, s: Session) -> (r: Option<Outcome>)
        requires
            old(self).live_sessions > 0,
            s.state == SessionState::Destroyed,
        ensures
            final(self).initialized == old(self).initialized,
            final(self).live_sessions == old(self).live_sessions - 1,
            r == s.result,
    {
        self.live_sessions = self.live_sessions - 1;
        s.result
    }

    /// Execute one submitted script, given what the engine did for it: drive
    /// a fresh session through its lifecycle, record the outcome, and tear
    /// the session down unconditionally, on the success path and on every
    /// error path alike.
    ///
    /// The outcome is a function of the engine report alone, and the count of
    /// live substrate instances is exactly what it was before the call: no
    /// session outlives its request.
    pub fn execute(&mut self, report: EngineReport) -> (r: Result<Outcome, InitError>)
        requires
            old(self).initialized,
            old(self).live_sessions < usize::MAX,
        ensures
            final(self).initialized,
            final(self).live_sessions == old(self).live_sessions,
            r == outcome_for(report),
    {
        let mut session = self.begin_session();
        match report {
            EngineReport::EnvironmentExhausted => {
                session.step(SessionEvent::EnvironmentExhausted);
            },
            EngineReport::SourceRejected => {
                session.step(SessionEvent::EnvironmentBuilt);
                session.step(SessionEvent::SourceRejected);
            },
            EngineReport::RunFaulted(d) => {
                session.step(SessionEvent::EnvironmentBuilt);
                session.step(SessionEvent::UnitCompiled);
                session.step(SessionEvent::RunFaulted(d));
            },
            EngineReport::Evaluated(t) => {
                session.step(SessionEvent::EnvironmentBuilt);
                session.step(SessionEvent::UnitCompiled);
                session.step(SessionEvent::RunCompleted(t));
            },
        }
        session.step(SessionEvent::SubstrateReleased);
        let recorded = self.end_session(session);
        match recorded {
            Some(outcome) => Ok(outcome),
            None => Err(InitError),
        }
    }

    /// Serve one request end to end on the core's side: execute the script
    /// given what the engine did, and turn the outcome into the response
    /// body. The caller always receives a textual body; success and failure
    /// are distinguished only by its content.
    pub fn respond(&mut self, report: EngineReport) -> (r: String)
        requires
            old(self).initialized,
            old(self).live_sessions < usize::MAX,
        ensures
            final(self).initialized,
            final(self).live_sessions == old(self).live_sessions,
            r@ == response_for(report),
    {
        let executed = self.execute(report);
        match executed {
            Ok(outcome) => outcome.response_text(),
            Err(_) => "error initializing execution environment".to_owned(),
        }
    }
}

/// Submitting the same script twice in separate requests yields the same
/// outcome, and the same response body, each time: what a request is owed is
/// a function of the engine's report alone, and with each session's substrate
/// and environment fresh, the report for a script text does not depend on any
/// earlier run.
pub proof fn lemma_execute_idempotent(first: EngineReport, second: EngineReport)
    requires
        first == second,
    ensures
        outcome_for(first) == outcome_for(second),
        response_for(first) == response_for(second),
{
}

} // verus!
