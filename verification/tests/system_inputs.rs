use king_of_fnaf::input::{KeyState, MouseEvent, VirtualKey};
use king_of_fnaf::ivec2::IVec2;
use king_of_fnaf::platform::{
    check_shared_handles, key_state_from_async, GetKeyStateError, InitScreenHandleError,
    SharedHandleInitError,
};
use king_of_fnaf::win::{
    bitmap_info, key_event_inputs, key_input, mouse_event_input, mouse_move_input, mouse_goto_input, mouse_input, simulate_mouse_click,
    simulate_mouse_click_at, DibUsage, Error, M1State, MouseMovement, TranslateType, BI_RGB,
    BITMAPINFOHEADER_SIZE, BOOL, DIB_PAL_COLORS, DIB_RGB_COLORS, DIB_USAGE, INPUT_KEYBOARD,
    INPUT_MOUSE, INPUT_TYPE, KEYBD_EVENT_FLAGS, KEYEVENTF_KEYUP, MOUSEEVENTF_ABSOLUTE,
    MOUSEEVENTF_LEFTDOWN, MOUSEEVENTF_LEFTUP, MOUSEEVENTF_MOVE, MOUSE_EVENT_FLAGS, POINT,
    ROP_CODE, SRCCOPY, WindowsHandlesError, key_down_from_async, screen_size_from_metric,
};

#[test]
fn bool_results() {
    assert!(BOOL(1).as_bool());
    assert!(BOOL(-7).as_bool());
    assert!(!BOOL(0).as_bool());
    assert_eq!(BOOL(1).ok(), Ok(()));
    assert_eq!(BOOL(0).ok(), Err(Error(())));
    BOOL(3).unwrap();
    BOOL(3).expect("nonzero");
}

#[test]
fn flags_contain_their_bits() {
    let f = MOUSE_EVENT_FLAGS(MOUSEEVENTF_MOVE | MOUSEEVENTF_ABSOLUTE);
    assert!(f.contains(MOUSE_EVENT_FLAGS(MOUSEEVENTF_MOVE)));
    assert!(f.contains(MOUSE_EVENT_FLAGS(0)));
    assert!(!f.contains(MOUSE_EVENT_FLAGS(MOUSEEVENTF_LEFTDOWN)));
    assert!(KEYBD_EVENT_FLAGS(KEYEVENTF_KEYUP).contains(KEYBD_EVENT_FLAGS(KEYEVENTF_KEYUP)));
    assert!(!KEYBD_EVENT_FLAGS(0).contains(KEYBD_EVENT_FLAGS(KEYEVENTF_KEYUP)));
    assert!(ROP_CODE(SRCCOPY).contains(ROP_CODE(SRCCOPY)));
}

#[test]
fn bitmap_info_is_top_down_32_bit_rgb() {
    let b = bitmap_info(1920, 1080);
    assert_eq!(b.bmiHeader.biSize, BITMAPINFOHEADER_SIZE);
    assert_eq!(b.bmiHeader.biWidth, 1920);
    assert_eq!(b.bmiHeader.biHeight, -1080);
    assert_eq!(b.bmiHeader.biPlanes, 1);
    assert_eq!(b.bmiHeader.biBitCount, 32);
    assert_eq!(b.bmiHeader.biCompression, BI_RGB);
    assert_eq!(b.bmiHeader.biSizeImage, 0);
    assert_eq!(b.bmiColors[0].rgbRed, 0);
    assert_eq!(BITMAPINFOHEADER_SIZE as usize, 40);
}

#[test]
fn key_inputs_are_keyboard_inputs() {
    assert_eq!(key_input(VirtualKey::LeftDoor, false).input_type, INPUT_TYPE(INPUT_KEYBOARD));
    assert_eq!(key_input(VirtualKey::Exit, true).input_type, INPUT_TYPE(INPUT_KEYBOARD));
}

#[test]
fn mouse_inputs_are_mouse_inputs() {
    let m = MouseMovement { x: 3, y: 4, translation: TranslateType::Relative };
    assert_eq!(mouse_input(Some(m), M1State::Press).input_type, INPUT_TYPE(INPUT_MOUSE));
    assert_eq!(mouse_input(None, M1State::Unchanged).input_type, INPUT_TYPE(INPUT_MOUSE));
    assert_eq!(mouse_goto_input(POINT { x: 10, y: 20 }).input_type, INPUT_TYPE(INPUT_MOUSE));
    assert_eq!(mouse_move_input(POINT { x: -3, y: 7 }).input_type, INPUT_TYPE(INPUT_MOUSE));
}

#[test]
fn mouse_flags() {
    assert_eq!(TranslateType::Relative.flag(), 0);
    assert_eq!(TranslateType::Absolute.flag(), MOUSEEVENTF_ABSOLUTE);
    assert_eq!(M1State::Unchanged.flag(), 0);
    assert_eq!(M1State::Press.flag(), MOUSEEVENTF_LEFTDOWN);
    assert_eq!(M1State::Release.flag(), MOUSEEVENTF_LEFTUP);
}

#[test]
fn clicks_are_press_then_release() {
    let c = simulate_mouse_click();
    assert_eq!(c.len(), 2);
    assert!(c.iter().all(|i| i.input_type == INPUT_TYPE(INPUT_MOUSE)));
    let c = simulate_mouse_click_at(POINT { x: 100, y: 200 });
    assert_eq!(c.len(), 3);
    assert!(c.iter().all(|i| i.input_type == INPUT_TYPE(INPUT_MOUSE)));
}

#[test]
fn dib_usage_values() {
    assert_eq!(DibUsage::default(), DibUsage::Rgb);
    assert_eq!(DIB_USAGE::from(DibUsage::Rgb), DIB_USAGE(DIB_RGB_COLORS));
    assert_eq!(DIB_USAGE::from(DibUsage::Pal), DIB_USAGE(DIB_PAL_COLORS));
}

#[test]
fn windows_handles_error_messages() {
    assert_eq!(WindowsHandlesError::SystemMetrics.message(), "could not obtain screen size");
    let negative = u32::try_from(-1i32).unwrap_err();
    assert_eq!(
        WindowsHandlesError::SystemMetricsTryFromInt(negative).message(),
        "screen cannot be negative"
    );
    assert_eq!(
        WindowsHandlesError::Windows(Error(())).message(),
        "windows error during initialization"
    );
}

#[test]
fn platform_error_messages() {
    assert_eq!(SharedHandleInitError::DesktopHdc.message(), "failed to get desktop device context handle");
    assert_eq!(
        SharedHandleInitError::InternalHdc.message(),
        "failed to create device context compatible with desktop hdc"
    );
    assert_eq!(GetKeyStateError.message(), "key state could not be read");
    assert_eq!(
        InitScreenHandleError::ScreenSize.message(),
        "failed to obtain virtual screen size system metrics"
    );
    assert_eq!(
        InitScreenHandleError::CreateBitmap.message(),
        "failed to create a compatible bitmap with the desktop hdc"
    );
    assert_eq!(
        InitScreenHandleError::SelectBitmap.message(),
        "failed to select the created bitmap into the internal hdc"
    );
}

#[test]
fn mouse_events_become_one_mouse_input() {
    let p = IVec2::new(100, 50);
    for e in [
        MouseEvent::Goto(p),
        MouseEvent::Btn(KeyState::Down),
        MouseEvent::GotoAndBtn(p, KeyState::Up),
    ] {
        assert_eq!(mouse_event_input(e).input_type, INPUT_TYPE(INPUT_MOUSE));
    }
}

#[test]
fn key_events_become_one_input_per_key() {
    let keys = [VirtualKey::LeftDoor, VirtualKey::RightDoor, VirtualKey::Exit];
    let v = key_event_inputs(&keys, KeyState::Down);
    assert_eq!(v.len(), 3);
    assert!(v.iter().all(|i| i.input_type == INPUT_TYPE(INPUT_KEYBOARD)));
    assert!(key_event_inputs(&[], KeyState::Up).is_empty());
}

#[test]
fn shared_handle_checks_the_desktop_first() {
    assert_eq!(check_shared_handles(false, false), Err(SharedHandleInitError::DesktopHdc));
    assert_eq!(check_shared_handles(false, true), Err(SharedHandleInitError::DesktopHdc));
    assert_eq!(check_shared_handles(true, false), Err(SharedHandleInitError::InternalHdc));
    assert_eq!(check_shared_handles(true, true), Ok(()));
}

#[test]
fn async_key_state_top_bit_is_held() {
    assert_eq!(key_state_from_async(0), Err(GetKeyStateError));
    assert_eq!(key_state_from_async(i16::MIN), Ok(KeyState::Down));
    assert_eq!(key_state_from_async(-1), Ok(KeyState::Down));
    assert_eq!(key_state_from_async(1), Ok(KeyState::Up));
}

#[test]
fn screen_size_metrics() {
    assert!(matches!(screen_size_from_metric(1920), Ok(1920)));
    assert!(matches!(screen_size_from_metric(0), Err(WindowsHandlesError::SystemMetrics)));
    assert!(matches!(
        screen_size_from_metric(-5),
        Err(WindowsHandlesError::SystemMetricsTryFromInt(_))
    ));
}

#[test]
fn key_down_ignores_the_pressed_since_bit() {
    assert!(!key_down_from_async(0));
    assert!(!key_down_from_async(1));
    assert!(key_down_from_async(i16::MIN));
    assert!(key_down_from_async(i16::MIN | 1));
    assert!(key_down_from_async(2));
}
