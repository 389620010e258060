//! Core of a script-execution service: an embedded engine evaluates untrusted
//! source text, one isolated session per request, and the result (or a
//! compile/runtime diagnostic) comes back as text.
//!
//! The library holds the verified logic: the response-outcome type, the host
//! binding registry, the per-request session state machine, the runner that
//! drives a session from creation to unconditional teardown, and the request
//! routing rules. The engine itself and the transport are unverified callers
//! that drive these types.

pub mod bridge;
pub mod outcome;
pub mod route;
pub mod runner;
pub mod session;
