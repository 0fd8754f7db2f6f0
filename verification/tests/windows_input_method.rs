use im_switch::windows::error::WindowsError;
use im_switch::windows::input_method::{
    activate_im, disable_im, enable_im, get_im_state, get_im_window, get_input_method,
    inactivate_im, set_im_state, ImeSystem, IMC_GETOPENSTATUS, IMC_SETOPENSTATUS, WM_IME_CONTROL,
};

fn reachable_ime(open_status: isize) -> ImeSystem {
    ImeSystem { foreground_window: 7, ime_window: 9, open_status }
}

#[test]
fn test_get_im_window() -> Result<(), WindowsError> {
    let sys = reachable_ime(0);
    get_im_window(&sys)?;
    Ok(())
}

#[test]
fn test_set_im_state() -> Result<(), WindowsError> {
    let mut sys = reachable_ime(1);
    set_im_state(&mut sys, 0)?;
    Ok(())
}

#[test]
fn test_get_ime() -> Result<(), WindowsError> {
    let sys = reachable_ime(0);
    get_im_window(&sys)?;
    Ok(())
}

#[test]
fn test_set_ime() -> Result<(), WindowsError> {
    let mut sys = reachable_ime(1);
    set_im_state(&mut sys, 0)?;
    Ok(())
}

#[test]
fn test_enable_im() -> Result<(), Box<dyn std::error::Error>> {
    let mut sys = reachable_ime(0);
    enable_im(&mut sys).map_err(|e| e.message())?;
    let state = get_im_state(&mut sys).map_err(|e| e.message())?;
    if state != "on" {
        return Err("IME state is not 'on' after enabling".into());
    }
    Ok(())
}

#[test]
fn test_disable_im() -> Result<(), Box<dyn std::error::Error>> {
    let mut sys = reachable_ime(1);
    disable_im(&mut sys).map_err(|e| e.message())?;
    let state = get_im_state(&mut sys).map_err(|e| e.message())?;
    if state != "off" {
        return Err("IME state is not 'off' after disabling".into());
    }
    Ok(())
}

#[test]
fn test_activate_im() -> Result<(), WindowsError> {
    let mut sys = reachable_ime(0);
    activate_im(&mut sys)?;
    assert_eq!(sys.open_status, 1);
    assert_eq!(get_im_state(&mut sys)?, "on");
    Ok(())
}

#[test]
fn test_inactivate_im() -> Result<(), WindowsError> {
    let mut sys = reachable_ime(1);
    inactivate_im(&mut sys)?;
    assert_eq!(sys.open_status, 0);
    assert_eq!(get_im_state(&mut sys)?, "off");
    Ok(())
}

#[test]
fn get_im_state_maps_zero_to_off_and_any_other_status_to_on() {
    let statuses_off: [isize; 1] = [0];
    for &status in statuses_off.iter() {
        let mut sys = reachable_ime(status);
        assert_eq!(get_im_state(&mut sys), Ok("off"));
    }
    let statuses_on: [isize; 4] = [1, 2, -5, isize::MAX];
    for &status in statuses_on.iter() {
        let mut sys = reachable_ime(status);
        assert_eq!(get_im_state(&mut sys), Ok("on"));
        assert_eq!(sys, reachable_ime(status));
    }
}

#[test]
fn get_input_method_reports_the_same_state_as_get_im_state() {
    let mut sys = reachable_ime(3);
    assert_eq!(get_input_method(&mut sys), Ok("on"));
    let mut sys = reachable_ime(0);
    assert_eq!(get_input_method(&mut sys), Ok("off"));
}

#[test]
fn ime_toggle_round_trip_from_off() {
    let mut sys = reachable_ime(0);
    assert_eq!(get_im_state(&mut sys), Ok("off"));
    assert!(enable_im(&mut sys).is_ok());
    assert_eq!(get_im_state(&mut sys), Ok("on"));
    assert!(disable_im(&mut sys).is_ok());
    assert_eq!(get_im_state(&mut sys), Ok("off"));
    assert_eq!(sys, reachable_ime(0));
}

#[test]
fn missing_foreground_window_fails_every_operation() {
    let no_foreground = ImeSystem { foreground_window: 0, ime_window: 9, open_status: 0 };
    assert!(matches!(
        get_im_window(&no_foreground),
        Err(WindowsError::GetForegroundWindowFailed)
    ));
    let mut sys = no_foreground;
    assert!(matches!(
        set_im_state(&mut sys, 1),
        Err(WindowsError::GetForegroundWindowFailed)
    ));
    assert!(matches!(
        get_im_state(&mut sys),
        Err(WindowsError::GetForegroundWindowFailed)
    ));
    assert!(matches!(
        enable_im(&mut sys),
        Err(WindowsError::GetForegroundWindowFailed)
    ));
    assert!(matches!(
        disable_im(&mut sys),
        Err(WindowsError::GetForegroundWindowFailed)
    ));
    assert_eq!(sys, no_foreground);
}

#[test]
fn missing_ime_window_fails_every_operation() {
    let no_ime = ImeSystem { foreground_window: 7, ime_window: 0, open_status: 0 };
    assert!(matches!(
        get_im_window(&no_ime),
        Err(WindowsError::ImmGetDefaultIMEWndFailed)
    ));
    let mut sys = no_ime;
    assert!(matches!(
        set_im_state(&mut sys, 1),
        Err(WindowsError::ImmGetDefaultIMEWndFailed)
    ));
    assert!(matches!(
        get_im_state(&mut sys),
        Err(WindowsError::ImmGetDefaultIMEWndFailed)
    ));
    assert_eq!(sys, no_ime);
}

#[test]
fn windows_error_messages_render_one_line_each() {
    assert_eq!(
        WindowsError::GetForegroundWindowFailed.message(),
        "GetForegroundWindow failed"
    );
    assert_eq!(
        WindowsError::ImmGetDefaultIMEWndFailed.message(),
        "ImmGetDefaultIMEWnd failed"
    );
    assert_eq!(
        WindowsError::Io(String::from("broken pipe")).message(),
        "I/O error: broken pipe"
    );
}

#[test]
fn ime_control_protocol_constants_are_the_documented_values() {
    assert_eq!(IMC_GETOPENSTATUS, 5);
    assert_eq!(IMC_SETOPENSTATUS, 6);
    assert_eq!(WM_IME_CONTROL, 0x0283);
}
