use crate::windows::args::{Args, Command};
use crate::windows::error::WindowsError;
use crate::windows::input_method::{disable_im, enable_im, get_im_state, state_label, ImeSystem};
use vstd::prelude::*;

verus! {

/// Maps a parsed command to the input-method control calls: `enable` and
/// `disable` set the IME open status and hand back nothing to print; `get`
/// hands back the state line, `"on"` or `"off"`. Every control error passes
/// through unchanged; printing itself is left to the caller.
pub fn dispatch(sys: &mut ImeSystem, args: &Args) -> (r: Result<
    Option<&'static str>,
    WindowsError,
>)
    ensures
        r is Ok <==> old(sys).has_ime_window(),
        old(sys).foreground_window == 0 ==> r matches Err(
            WindowsError::GetForegroundWindowFailed,
        ),
        old(sys).foreground_window != 0 && old(sys).ime_window == 0 ==> r matches Err(
            WindowsError::ImmGetDefaultIMEWndFailed,
        ),
        !old(sys).has_ime_window() ==> *final(sys) == *old(sys),
        args.command is Enable && old(sys).has_ime_window() ==> (r == Ok::<
            Option<&'static str>,
            WindowsError,
        >(None) && *final(sys) == old(sys).with_status(1)),
        args.command is Disable && old(sys).has_ime_window() ==> (r == Ok::<
            Option<&'static str>,
            WindowsError,
        >(None) && *final(sys) == old(sys).with_status(0)),
        args.command is Get && old(sys).has_ime_window() ==> {
            &&& *final(sys) == *old(sys)
            &&& r matches Ok(o) && (o matches Some(line) && line@ == state_label(
                old(sys).open_status,
            ))
        },
{
    match &args.command {
        Command::Enable => {
            match enable_im(sys) {
                Ok(_) => Ok(None),
                Err(e) => Err(e),
            }
        },
        Command::Disable => {
            match disable_im(sys) {
                Ok(_) => Ok(None),
                Err(e) => Err(e),
            }
        },
        Command::Get => {
            match get_im_state(sys) {
                Ok(state) => Ok(Some(state)),
                Err(e) => Err(e),
            }
        },
    }
}

} // verus!
