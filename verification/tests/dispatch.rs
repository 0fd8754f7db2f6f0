use im_switch::macos::args::Args as MacArgs;
use im_switch::macos::args::Command as MacCommand;
use im_switch::macos::dispatch::dispatch as mac_dispatch;
use im_switch::macos::error::MacOsError;
use im_switch::macos::input_method::{get_input_method, OsText, TextInputContext};
use im_switch::windows::args::Args as WinArgs;
use im_switch::windows::args::Command as WinCommand;
use im_switch::windows::dispatch::dispatch as win_dispatch;
use im_switch::windows::error::WindowsError;
use im_switch::windows::input_method::ImeSystem;

fn mac_context() -> TextInputContext {
    TextInputContext {
        keyboard_input_sources: Some(vec![
            OsText::Text(String::from("com.apple.keylayout.ABC")),
            OsText::Text(String::from("com.apple.keylayout.French")),
        ]),
        selected_keyboard_input_source: Some(OsText::Text(String::from(
            "com.apple.keylayout.ABC",
        ))),
    }
}

#[test]
fn macos_get_prints_the_selected_identifier() {
    let mut ctx = mac_context();
    let output = mac_dispatch(&mut ctx, &MacArgs { command: MacCommand::Get });
    assert_eq!(output, Ok(Some(String::from("com.apple.keylayout.ABC"))));
}

#[test]
fn macos_set_prints_nothing_and_switches() {
    let mut ctx = mac_context();
    let args = MacArgs {
        command: MacCommand::SetMethod {
            input_method: String::from("com.apple.keylayout.French"),
        },
    };
    assert_eq!(mac_dispatch(&mut ctx, &args), Ok(None));
    assert_eq!(
        get_input_method(&ctx),
        Ok(String::from("com.apple.keylayout.French"))
    );
}

#[test]
fn macos_dispatch_propagates_control_errors_unchanged() {
    let mut ctx = mac_context();
    let args = MacArgs {
        command: MacCommand::SetMethod { input_method: String::from("nowhere") },
    };
    assert_eq!(
        mac_dispatch(&mut ctx, &args),
        Err(MacOsError::InputSourceNotFound(String::from("nowhere")))
    );
    assert_eq!(
        get_input_method(&ctx),
        Ok(String::from("com.apple.keylayout.ABC"))
    );
}

#[test]
fn windows_enable_disable_print_nothing_and_get_prints_the_state() {
    let mut sys = ImeSystem { foreground_window: 3, ime_window: 4, open_status: 0 };
    assert_eq!(
        win_dispatch(&mut sys, &WinArgs { command: WinCommand::Get }),
        Ok(Some("off"))
    );
    assert_eq!(
        win_dispatch(&mut sys, &WinArgs { command: WinCommand::Enable }),
        Ok(None)
    );
    assert_eq!(
        win_dispatch(&mut sys, &WinArgs { command: WinCommand::Get }),
        Ok(Some("on"))
    );
    assert_eq!(
        win_dispatch(&mut sys, &WinArgs { command: WinCommand::Disable }),
        Ok(None)
    );
    assert_eq!(
        win_dispatch(&mut sys, &WinArgs { command: WinCommand::Get }),
        Ok(Some("off"))
    );
}

#[test]
fn windows_dispatch_propagates_control_errors_unchanged() {
    let mut sys = ImeSystem { foreground_window: 0, ime_window: 0, open_status: 0 };
    assert_eq!(
        win_dispatch(&mut sys, &WinArgs { command: WinCommand::Enable }),
        Err(WindowsError::GetForegroundWindowFailed)
    );
    let mut sys = ImeSystem { foreground_window: 3, ime_window: 0, open_status: 0 };
    assert_eq!(
        win_dispatch(&mut sys, &WinArgs { command: WinCommand::Get }),
        Err(WindowsError::ImmGetDefaultIMEWndFailed)
    );
}
