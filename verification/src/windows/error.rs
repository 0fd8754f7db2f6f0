use vstd::prelude::*;
use vstd::string::StringExecFns;

verus! {

/// The failure kinds the Windows input-method control logic can produce.
///
/// Every variant is fatal to the current invocation; nothing is retried.
#[derive(Debug, PartialEq, Eq)]
pub enum WindowsError {
    /// The OS reported no foreground window handle.
    GetForegroundWindowFailed,
    /// The OS reported no IME window handle for the foreground window.
    ImmGetDefaultIMEWndFailed,
    /// A low-level input/output failure, e.g. while printing output.
    Io(String),
}

impl WindowsError {
    /// The one-line human-readable message for this error.
    pub fn message(&self) -> (r: String)
        ensures
            self is GetForegroundWindowFailed ==> r@ == "GetForegroundWindow failed"@,
            self is ImmGetDefaultIMEWndFailed ==> r@ == "ImmGetDefaultIMEWnd failed"@,
            self matches WindowsError::Io(detail) ==> r@ == "I/O error: "@ + detail@,
    {
        match self {
            WindowsError::GetForegroundWindowFailed => {
                String::from_str("GetForegroundWindow failed")
            },
            WindowsError::ImmGetDefaultIMEWndFailed => {
                String::from_str("ImmGetDefaultIMEWnd failed")
            },
            WindowsError::Io(detail) => String::from_str("I/O error: ").concat(detail.as_str()),
        }
    }
}

} // verus!
