//! The two kinds of failure that a facade call can end in.

use vstd::prelude::*;
use vstd::string::StringExecFns;

verus! {

/// Why a call on the facade failed.
#[derive(Debug)]
pub enum AOTIModelError {
    /// The facade holds no loader handle: it was released, or never held one.
    InnerNone,
    /// The native library failed during a boundary call. Holds the message
    /// that the native side gave, unchanged.
    Cxx(String),
}

impl AOTIModelError {
    /// The text of a failure: a fixed sentence for an absent handle, and the
    /// native message behind a fixed prefix for a native failure.
    pub open spec fn spec_message(self) -> Seq<char> {
        match self {
            AOTIModelError::InnerNone => "AOTIModel's inner field was empty"@,
            AOTIModelError::Cxx(what) => "CXX exception: "@ + what@,
        }
    }

    /// Renders the failure as text.
    pub fn message(&self) -> (text: String)
        ensures
            text@ == self.spec_message(),
    {
        match self {
            AOTIModelError::InnerNone => String::from_str("AOTIModel's inner field was empty"),
            AOTIModelError::Cxx(what) => String::from_str("CXX exception: ").concat(what.as_str()),
        }
    }

    /// What a boundary outcome is on the facade: a value is kept, and the
    /// message of a failure is wrapped as a native failure.
    pub open spec fn lifted<V>(outcome: Result<V, String>) -> Result<V, AOTIModelError> {
        match outcome {
            Ok(value) => Ok(value),
            Err(what) => Err(AOTIModelError::Cxx(what)),
        }
    }

    /// Maps the outcome of a boundary call into the facade's error
    /// taxonomy, keeping a value and the text of a failure as they are.
    pub fn lift<V>(outcome: Result<V, String>) -> (lifted: Result<V, AOTIModelError>)
        ensures
            lifted == Self::lifted(outcome),
    {
        match outcome {
            Ok(value) => Ok(value),
            Err(what) => Err(AOTIModelError::Cxx(what)),
        }
    }
}

} // verus!
