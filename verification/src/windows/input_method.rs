use crate::windows::error::WindowsError;
use vstd::prelude::*;

verus! {

/// Request subcode of `WM_IME_CONTROL` that queries the IME open status.
pub const IMC_GETOPENSTATUS: usize = 5;

/// Request subcode of `WM_IME_CONTROL` that sets the IME open status.
pub const IMC_SETOPENSTATUS: usize = 6;

/// The window message identifier for Input Method Manager control messages.
pub const WM_IME_CONTROL: u32 = 0x0283;

/// A model of the Windows state this tool reads and writes: the foreground
/// window handle, its default IME window handle, and the IME open status of
/// that window. A handle value of 0 models the invalid (null) handle.
///
/// The operations below decide everything over a value of this type. An
/// unverified shell fills it from the live OS and applies the decided status
/// change through the Input Method Manager; a test double fills it directly.
#[derive(Clone, Copy, Debug, PartialEq, Eq, Structural)]
pub struct ImeSystem {
    /// Handle of the window that currently has input focus; 0 if none.
    pub foreground_window: usize,
    /// Handle of the default IME window of the foreground window; 0 if none.
    pub ime_window: usize,
    /// The IME open status: 0 is off, any other value is on.
    pub open_status: isize,
}

impl ImeSystem {
    /// Both handles needed to reach the IME are present.
    pub open spec fn has_ime_window(&self) -> bool {
        self.foreground_window != 0 && self.ime_window != 0
    }

    /// The same system with its IME open status replaced.
    pub open spec fn with_status(&self, status: isize) -> ImeSystem {
        ImeSystem {
            foreground_window: self.foreground_window,
            ime_window: self.ime_window,
            open_status: status,
        }
    }
}

/// The label that `get_im_state` reports for an IME open status value:
/// exactly 0 is "off", any other value is "on".
pub open spec fn state_label(status: isize) -> Seq<char> {
    if status == 0 {
        "off"@
    } else {
        "on"@
    }
}

/// Retrieves the IME window handle for the current foreground window.
///
/// Fails with `GetForegroundWindowFailed` if there is no foreground window,
/// and with `ImmGetDefaultIMEWndFailed` if that window has no IME window.
pub fn get_im_window(sys: &ImeSystem) -> (r: Result<usize, WindowsError>)
    ensures
        r == (if sys.foreground_window == 0 {
            Err::<usize, WindowsError>(WindowsError::GetForegroundWindowFailed)
        } else if sys.ime_window == 0 {
            Err::<usize, WindowsError>(WindowsError::ImmGetDefaultIMEWndFailed)
        } else {
            Ok::<usize, WindowsError>(sys.ime_window)
        }),
{
    if sys.foreground_window == 0 {
        return Err(WindowsError::GetForegroundWindowFailed);
    }
    if sys.ime_window == 0 {
        return Err(WindowsError::ImmGetDefaultIMEWndFailed);
    }
    Ok(sys.ime_window)
}

/// Delivers a window message to the modeled system, as `SendMessageA` would:
/// a `WM_IME_CONTROL` message addressed to the IME window queries or sets the
/// open status; any other message leaves the system unchanged with result 0.
fn send_message(sys: &mut ImeSystem, hwnd: usize, msg: u32, wparam: usize, lparam: isize) -> (r:
    isize)
    ensures
        final(sys).foreground_window == old(sys).foreground_window,
        final(sys).ime_window == old(sys).ime_window,
        (hwnd == old(sys).ime_window && msg == WM_IME_CONTROL && wparam == IMC_GETOPENSTATUS) ==> {
            &&& final(sys).open_status == old(sys).open_status
            &&& r == old(sys).open_status
        },
        (hwnd == old(sys).ime_window && msg == WM_IME_CONTROL && wparam == IMC_SETOPENSTATUS) ==> {
            &&& final(sys).open_status == lparam
            &&& r == 0
        },
        !(hwnd == old(sys).ime_window && msg == WM_IME_CONTROL && (wparam == IMC_GETOPENSTATUS
            || wparam == IMC_SETOPENSTATUS)) ==> {
            &&& *final(sys) == *old(sys)
            &&& r == 0
        },
{
    if hwnd == sys.ime_window && msg == WM_IME_CONTROL {
        if wparam == IMC_GETOPENSTATUS {
            return sys.open_status;
        }
        if wparam == IMC_SETOPENSTATUS {
            sys.open_status = lparam;
            return 0;
        }
    }
    0
}

/// Sets the IME open status of the current foreground window's IME to
/// `status`. On success the rest of the system is untouched; on failure
/// nothing changes.
pub fn set_im_state(sys: &mut ImeSystem, status: isize) -> (r: Result<(), WindowsError>)
    ensures
        r == (if old(sys).foreground_window == 0 {
            Err::<(), WindowsError>(WindowsError::GetForegroundWindowFailed)
        } else if old(sys).ime_window == 0 {
            Err::<(), WindowsError>(WindowsError::ImmGetDefaultIMEWndFailed)
        } else {
            Ok::<(), WindowsError>(())
        }),
        old(sys).has_ime_window() ==> *final(sys) == old(sys).with_status(status),
        !old(sys).has_ime_window() ==> *final(sys) == *old(sys),
{
    let ime = match get_im_window(sys) {
        Ok(w) => w,
        Err(e) => {
            return Err(e);
        },
    };
    send_message(sys, ime, WM_IME_CONTROL, IMC_SETOPENSTATUS, status);
    Ok(())
}

/// Gets the current IME open status as `"off"` (status exactly 0) or `"on"`
/// (any other status). The system itself is left as it was.
pub fn get_im_state(sys: &mut ImeSystem) -> (r: Result<&'static str, WindowsError>)
    ensures
        *final(sys) == *old(sys),
        old(sys).foreground_window == 0 ==> r matches Err(
            WindowsError::GetForegroundWindowFailed,
        ),
        old(sys).foreground_window != 0 && old(sys).ime_window == 0 ==> r matches Err(
            WindowsError::ImmGetDefaultIMEWndFailed,
        ),
        old(sys).has_ime_window() ==> (r matches Ok(s) && s@ == state_label(
            old(sys).open_status,
        )),
{
    let ime = match get_im_window(sys) {
        Ok(w) => w,
        Err(e) => {
            return Err(e);
        },
    };
    let status = send_message(sys, ime, WM_IME_CONTROL, IMC_GETOPENSTATUS, 0);
    if status == 0 {
        Ok("off")
    } else {
        Ok("on")
    }
}

/// Turns the IME on: sets the open status to 1.
pub fn enable_im(sys: &mut ImeSystem) -> (r: Result<(), WindowsError>)
    ensures
        r == (if old(sys).foreground_window == 0 {
            Err::<(), WindowsError>(WindowsError::GetForegroundWindowFailed)
        } else if old(sys).ime_window == 0 {
            Err::<(), WindowsError>(WindowsError::ImmGetDefaultIMEWndFailed)
        } else {
            Ok::<(), WindowsError>(())
        }),
        old(sys).has_ime_window() ==> *final(sys) == old(sys).with_status(1),
        !old(sys).has_ime_window() ==> *final(sys) == *old(sys),
{
    set_im_state(sys, 1)
}

/// Turns the IME off: sets the open status to 0.
pub fn disable_im(sys: &mut ImeSystem) -> (r: Result<(), WindowsError>)
    ensures
        r == (if old(sys).foreground_window == 0 {
            Err::<(), WindowsError>(WindowsError::GetForegroundWindowFailed)
        } else if old(sys).ime_window == 0 {
            Err::<(), WindowsError>(WindowsError::ImmGetDefaultIMEWndFailed)
        } else {
            Ok::<(), WindowsError>(())
        }),
        old(sys).has_ime_window() ==> *final(sys) == old(sys).with_status(0),
        !old(sys).has_ime_window() ==> *final(sys) == *old(sys),
{
    set_im_state(sys, 0)
}

/// Turns the IME on; the toggle-style name of `enable_im`.
pub fn activate_im(sys: &mut ImeSystem) -> (r: Result<(), WindowsError>)
    ensures
        r is Ok <==> old(sys).has_ime_window(),
        old(sys).has_ime_window() ==> *final(sys) == old(sys).with_status(1),
        !old(sys).has_ime_window() ==> *final(sys) == *old(sys),
{
    enable_im(sys)
}

/// Turns the IME off; the toggle-style name of `disable_im`.
pub fn inactivate_im(sys: &mut ImeSystem) -> (r: Result<(), WindowsError>)
    ensures
        r is Ok <==> old(sys).has_ime_window(),
        old(sys).has_ime_window() ==> *final(sys) == old(sys).with_status(0),
        !old(sys).has_ime_window() ==> *final(sys) == *old(sys),
{
    disable_im(sys)
}

/// The IME open state reported under the name the switch-style interface
/// uses for its query: `"on"` or `"off"`, exactly as `get_im_state` says.
pub fn get_input_method(sys: &mut ImeSystem) -> (r: Result<&'static str, WindowsError>)
    ensures
        *final(sys) == *old(sys),
        old(sys).foreground_window == 0 ==> r matches Err(
            WindowsError::GetForegroundWindowFailed,
        ),
        old(sys).foreground_window != 0 && old(sys).ime_window == 0 ==> r matches Err(
            WindowsError::ImmGetDefaultIMEWndFailed,
        ),
        old(sys).has_ime_window() ==> (r matches Ok(s) && s@ == state_label(
            old(sys).open_status,
        )),
{
    get_im_state(sys)
}

/// Setting the IME open status and reading it back: after a successful
/// `set_im_state(sys, status)`, the IME window is still reachable and
/// `get_im_state` reports "on" exactly when `status` is not 0. With status 1
/// this is the enable/readback law, with status 0 the disable one.
pub proof fn lemma_set_state_readback(sys: ImeSystem, status: isize)
    requires
        sys.has_ime_window(),
    ensures
        sys.with_status(status).has_ime_window(),
        status != 0 ==> state_label(sys.with_status(status).open_status) == "on"@,
        status == 0 ==> state_label(sys.with_status(status).open_status) == "off"@,
{
}

/// The full toggle round trip: from any reachable IME, enabling reports
/// "on", then disabling reports "off", and the IME stays reachable at every
/// step.
pub proof fn lemma_ime_toggle_round_trip(sys: ImeSystem)
    requires
        sys.has_ime_window(),
    ensures
        sys.with_status(1).has_ime_window(),
        state_label(sys.with_status(1).open_status) == "on"@,
        sys.with_status(1).with_status(0).has_ime_window(),
        state_label(sys.with_status(1).with_status(0).open_status) == "off"@,
{
}

} // verus!
