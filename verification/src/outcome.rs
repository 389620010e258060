//! The tagged result of one script execution attempt, and its conversion to
//! the response body text.

use vstd::prelude::*;

verus! {

/// Produced exactly once per session, then converted to the response body.
pub enum Outcome {
    /// The script compiled and ran; the payload is the engine's string
    /// conversion of the value it evaluated to.
    Success(String),
    /// The source text was syntactically invalid.
    CompileError,
    /// An uncaught fault was raised while the compiled unit ran; the payload
    /// is the diagnostic text for that fault.
    RuntimeError(String),
}

/// The fixed diagnostic body sent for a syntactically invalid script.
pub open spec fn compile_error_text() -> Seq<char> {
    "error compiling"@
}

impl Outcome {
    /// The response body text that this outcome turns into.
    pub open spec fn text_spec(self) -> Seq<char> {
        match self {
            Outcome::Success(t) => t@,
            Outcome::CompileError => compile_error_text(),
            Outcome::RuntimeError(d) => d@,
        }
    }

    /// Convert the outcome to the response body: the value text on success,
    /// the fixed diagnostic on a compile error, the fault's diagnostic on a
    /// runtime error.
    pub fn response_text(&self) -> (r: String)
        ensures
            r@ == self.text_spec(),
    {
        match self {
            Outcome::Success(t) => t.clone(),
            Outcome::CompileError => "error compiling".to_owned(),
            Outcome::RuntimeError(d) => d.clone(),
        }
    }
}

} // verus!
