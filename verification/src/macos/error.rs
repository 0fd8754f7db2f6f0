use vstd::prelude::*;
use vstd::string::StringExecFns;

verus! {

/// The failure kinds the macOS input-method control logic can produce.
///
/// Every variant is fatal to the current invocation; nothing is retried.
#[derive(Debug, PartialEq, Eq)]
pub enum MacOsError {
    /// The calling thread is not the OS main thread, which the
    /// text-input-context subsystem mandates.
    MainThreadRequired,
    /// A switch was requested to an identifier absent from the
    /// available-methods list; the payload is that identifier.
    InputSourceNotFound(String),
    /// The OS declined to hand back a keyboard-sources list or a
    /// selected-source value; the payload says which.
    InputSourceUnavailable(String),
    /// A native string could not be decoded as valid UTF-8 text; the payload
    /// is the decode failure detail.
    Utf8Error(String),
    /// A low-level input/output failure, e.g. while printing output.
    Io(String),
}

impl MacOsError {
    /// The one-line human-readable message for this error.
    pub fn message(&self) -> (r: String)
        ensures
            self is MainThreadRequired ==> r@ == "Operation must be run on the main thread"@,
            self matches MacOsError::InputSourceNotFound(s) ==> r@ == "Input source not found: "@
                + s@,
            self matches MacOsError::InputSourceUnavailable(s) ==> r@
                == "Input source unavailable: "@ + s@,
            self matches MacOsError::Utf8Error(e) ==> r@ == "UTF-8 conversion error: "@ + e@,
            self matches MacOsError::Io(e) ==> r@ == "I/O error: "@ + e@,
    {
        match self {
            MacOsError::MainThreadRequired => {
                String::from_str("Operation must be run on the main thread")
            },
            MacOsError::InputSourceNotFound(s) => {
                String::from_str("Input source not found: ").concat(s.as_str())
            },
            MacOsError::InputSourceUnavailable(s) => {
                String::from_str("Input source unavailable: ").concat(s.as_str())
            },
            MacOsError::Utf8Error(e) => {
                String::from_str("UTF-8 conversion error: ").concat(e.as_str())
            },
            MacOsError::Io(e) => String::from_str("I/O error: ").concat(e.as_str()),
        }
    }
}

} // verus!
