use foxy::utils::behavior::{CloseBehavior, ColorMode, Visibility};
use foxy::utils::primitives::Dimensions;
use foxy::window::builder::{HasSize, HasTitle, WindowBuilder};
use foxy::window::input::{ButtonState, Input, KeyCode, KeyState, MouseCode};
use foxy::window::message::{
    KeyScanCodes, KeyboardMessage, MouseMessage, OsReadings, Position, Rect, StateMessage, WindowMessage, MK_LBUTTON,
    MK_RBUTTON, MK_XBUTTON1, MK_XBUTTON2, WM_CLOSE, WM_DESTROY, WM_LBUTTONDOWN, WM_LBUTTONUP, WM_MBUTTONDOWN,
    WM_MOUSEHWHEEL, WM_MOUSEMOVE, WM_MOUSEWHEEL, WM_MOVING, WM_QUIT, WM_RBUTTONDBLCLK, WM_SIZING, WM_USER,
    WM_XBUTTONDBLCLK, WM_XBUTTONDOWN, WM_XBUTTONUP, XBUTTON1,
};
use foxy::window::state::{size_of_rect, Received, Stage, WindowAction, WindowCore, WindowState};

fn os() -> OsReadings {
    OsReadings {
        window_rect: Rect { left: 10, top: 20, right: 810, bottom: 470 },
        client_rect: Rect { left: 0, top: 0, right: 784, bottom: 411 },
        extended_virtual_key: 0,
        virtual_key: 0x41,
    }
}

fn decode(message: u32, w_param: usize, l_param: isize) -> WindowMessage {
    WindowMessage::new(7, message, w_param, l_param, os())
}

#[test]
fn state_messages() {
    assert_eq!(decode(WM_CLOSE, 0, 0), WindowMessage::State(StateMessage::CloseRequested));
    assert_eq!(decode(WM_DESTROY, 0, 0), WindowMessage::State(StateMessage::Closing));
    assert_eq!(decode(WM_QUIT, 0, 0), WindowMessage::ExitLoop);
    assert_eq!(decode(WM_MOVING, 0, 0), WindowMessage::State(StateMessage::Moved));
    assert_eq!(
        decode(WM_SIZING, 0, 0),
        WindowMessage::State(StateMessage::Resized { window_rect: os().window_rect, client_rect: os().client_rect })
    );
}

#[test]
fn other_messages_are_passed_through() {
    assert_eq!(
        decode(0x000F, 3, -4),
        WindowMessage::Other { hwnd: 7, message: 0x000F, w_param: 3, l_param: -4 }
    );
    assert_eq!(decode(WM_USER + 11, 0, 0), WindowMessage::Other { hwnd: 7, message: WM_USER + 11, w_param: 0, l_param: 0 });
    assert_eq!(decode(WM_MOUSEMOVE, 0, 0), WindowMessage::Mouse(MouseMessage::Cursor));
    assert_eq!(decode(WM_MOUSEWHEEL, 0, 0), WindowMessage::Mouse(MouseMessage::Scroll));
    assert_eq!(decode(WM_MOUSEHWHEEL, 0, 0), WindowMessage::Mouse(MouseMessage::Scroll));
}

#[test]
fn key_press_repeat_and_release() {
    // scan code 0x1E ('A'), repeat count 1
    let press: isize = (0x001E << 16) | 1;
    assert_eq!(
        decode(0x0100, 0x41, press),
        WindowMessage::Keyboard(KeyboardMessage::Key {
            key_code: KeyCode(0x41),
            state: KeyState::Pressed,
            scan_code: 0x1E,
            is_extended_key: false
        })
    );
    let held: isize = ((0x4000 | 0x001E) << 16) | 3;
    assert_eq!(
        decode(0x0100, 0x41, held),
        WindowMessage::Keyboard(KeyboardMessage::Key {
            key_code: KeyCode(0x41),
            state: KeyState::Held { repeat_count: 3 },
            scan_code: 0x1E,
            is_extended_key: false
        })
    );
    let up: isize = (((0x8000 | 0x4000 | 0x001E) as u32) << 16 | 1) as i32 as isize;
    assert_eq!(
        decode(0x0101, 0x41, up),
        WindowMessage::Keyboard(KeyboardMessage::Key {
            key_code: KeyCode(0x41),
            state: KeyState::Released,
            scan_code: 0x1E,
            is_extended_key: false
        })
    );
}

#[test]
fn extended_key_uses_extended_scan_code() {
    let l: isize = ((0x0100 | 0x004B) << 16) | 1;
    let readings = OsReadings { extended_virtual_key: 0x25, virtual_key: 0x64, ..os() };
    assert_eq!(
        WindowMessage::new(1, 0x0100, 0, l, readings),
        WindowMessage::Keyboard(KeyboardMessage::Key {
            key_code: KeyCode(0x25),
            state: KeyState::Pressed,
            scan_code: 0xE04B,
            is_extended_key: true
        })
    );
    // no extended mapping: the plain key is used
    let plain = OsReadings { extended_virtual_key: 0, virtual_key: 0x64, ..os() };
    assert_eq!(
        WindowMessage::new_keyboard_message(l, plain),
        WindowMessage::Keyboard(KeyboardMessage::Key {
            key_code: KeyCode(0x64),
            state: KeyState::Pressed,
            scan_code: 0x4B,
            is_extended_key: true
        })
    );
    let codes = KeyScanCodes::from_l_param(l);
    assert_eq!(codes, KeyScanCodes { scan_code: 0x4B, extended_scan_code: 0xE04B });
}

#[test]
fn mouse_buttons() {
    let pos: isize = (200 << 16) | 100;
    assert_eq!(
        decode(WM_LBUTTONDOWN, MK_LBUTTON as usize, pos),
        WindowMessage::Mouse(MouseMessage::Button {
            mouse_code: MouseCode::Left,
            state: ButtonState::Pressed,
            position: Position { x: 100, y: 200 },
            is_double_click: false
        })
    );
    assert_eq!(
        decode(WM_LBUTTONUP, 0, pos),
        WindowMessage::Mouse(MouseMessage::Button {
            mouse_code: MouseCode::Left,
            state: ButtonState::Released,
            position: Position { x: 100, y: 200 },
            is_double_click: false
        })
    );
    assert_eq!(
        decode(WM_RBUTTONDBLCLK, MK_RBUTTON as usize, pos),
        WindowMessage::Mouse(MouseMessage::Button {
            mouse_code: MouseCode::Right,
            state: ButtonState::Pressed,
            position: Position { x: 100, y: 200 },
            is_double_click: true
        })
    );
    // a down message without its button's flag reports released
    assert_eq!(
        decode(WM_MBUTTONDOWN, MK_LBUTTON as usize, 0),
        WindowMessage::Mouse(MouseMessage::Button {
            mouse_code: MouseCode::Middle,
            state: ButtonState::Released,
            position: Position { x: 0, y: 0 },
            is_double_click: false
        })
    );
}

#[test]
fn x_buttons_are_back_and_forward() {
    let back = ((XBUTTON1 as usize) << 16) | MK_XBUTTON1 as usize;
    let forward = (2usize << 16) | MK_XBUTTON2 as usize;
    assert_eq!(
        WindowMessage::new_mouse_button_message(WM_XBUTTONDOWN, back, 0),
        WindowMessage::Mouse(MouseMessage::Button {
            mouse_code: MouseCode::Back,
            state: ButtonState::Pressed,
            position: Position { x: 0, y: 0 },
            is_double_click: false
        })
    );
    assert_eq!(
        WindowMessage::new_mouse_button_message(WM_XBUTTONDBLCLK, forward, 0),
        WindowMessage::Mouse(MouseMessage::Button {
            mouse_code: MouseCode::Forward,
            state: ButtonState::Pressed,
            position: Position { x: 0, y: 0 },
            is_double_click: true
        })
    );
    assert_eq!(
        WindowMessage::new_mouse_button_message(WM_XBUTTONUP, back, 0),
        WindowMessage::Mouse(MouseMessage::Button {
            mouse_code: MouseCode::Back,
            state: ButtonState::Released,
            position: Position { x: 0, y: 0 },
            is_double_click: false
        })
    );
    assert_eq!(
        WindowMessage::new_mouse_button_message(0x1234, 0, 0),
        WindowMessage::Mouse(MouseMessage::Button {
            mouse_code: MouseCode::Unknown,
            state: ButtonState::Released,
            position: Position { x: 0, y: 0 },
            is_double_click: false
        })
    );
}

#[test]
fn mouse_position_uses_low_32_bits() {
    let l: isize = (0x7_0000_0000isize) | (0xFFFF << 16) | 0x0001;
    match decode(WM_LBUTTONUP, 0, l) {
        WindowMessage::Mouse(MouseMessage::Button { position, .. }) => {
            assert_eq!(position, Position { x: 1, y: 0xFFFF })
        }
        other => panic!("unexpected {:?}", other),
    }
}

#[test]
fn input_remembers_last_state() {
    let mut input = Input::new();
    assert_eq!(input.key(KeyCode(0x41)), KeyState::Released);
    input.update_keyboard_state(KeyCode(0x41), KeyState::Pressed);
    assert_eq!(input.key(KeyCode(0x41)), KeyState::Pressed);
    assert_eq!(input.key(KeyCode(0x42)), KeyState::Released);
    input.update_keyboard_state(KeyCode(0x41), KeyState::Held { repeat_count: 2 });
    assert_eq!(input.key(KeyCode(0x41)), KeyState::Held { repeat_count: 2 });
    input.update_keyboard_state(KeyCode(300), KeyState::Pressed);
    assert_eq!(input.key(KeyCode(300)), KeyState::Released);
    input.update_mouse_button_state(MouseCode::Back, ButtonState::Pressed);
    assert_eq!(input.mouse_button(MouseCode::Back), ButtonState::Pressed);
    assert_eq!(input.mouse_button(MouseCode::Forward), ButtonState::Released);
    assert_eq!(MouseCode::Forward.value(), 5);
    assert_eq!(MouseCode::Unknown.value(), 0);
}

fn test_window() -> WindowCore {
    WindowCore::new(WindowState::new(
        1,
        2,
        Rect { left: 0, top: 0, right: 800, bottom: 450 },
        Rect { left: 0, top: 0, right: 784, bottom: 411 },
        "title".to_string(),
        ColorMode::Dark,
        Visibility::Hidden,
    ))
}

#[test]
fn window_state_from_rects() {
    let w = test_window();
    assert_eq!(w.size(), Dimensions { width: 800, height: 450 });
    assert_eq!(w.inner_size(), Dimensions { width: 784, height: 411 });
    assert_eq!(w.title(), "title");
    assert_eq!(w.current_stage(), Stage::Looping);
    assert_eq!(size_of_rect(Rect { left: 10, top: 10, right: 5, bottom: 30 }), Dimensions { width: -5, height: 20 });
}

#[test]
fn window_handles_messages() {
    let mut w = test_window();
    let resized = WindowMessage::State(StateMessage::Resized {
        window_rect: Rect { left: 0, top: 0, right: 100, bottom: 50 },
        client_rect: Rect { left: 5, top: 5, right: 95, bottom: 45 },
    });
    assert_eq!(w.handle_message(resized.clone()), Some(resized));
    assert_eq!(w.size(), Dimensions { width: 100, height: 50 });
    assert_eq!(w.inner_size(), Dimensions { width: 90, height: 40 });
    let key = WindowMessage::Keyboard(KeyboardMessage::Key {
        key_code: KeyCode(0x20),
        state: KeyState::Pressed,
        scan_code: 0x39,
        is_extended_key: false,
    });
    w.handle_message(key);
    assert_eq!(w.state.input.key(KeyCode(0x20)), KeyState::Pressed);
    let click = WindowMessage::Mouse(MouseMessage::Button {
        mouse_code: MouseCode::Left,
        state: ButtonState::Pressed,
        position: Position { x: 1, y: 1 },
        is_double_click: false,
    });
    w.handle_message(click);
    assert_eq!(w.state.input.mouse_button(MouseCode::Left), ButtonState::Pressed);
    assert_eq!(w.current_stage(), Stage::Looping);
    w.set_visibility(Visibility::Shown);
    w.set_color_mode(ColorMode::Light);
    assert_eq!(w.state.visibility, Visibility::Shown);
    assert_eq!(w.state.color_mode, ColorMode::Light);
}

#[test]
fn window_loop_after_close_request() {
    let mut w = test_window();
    let close = WindowMessage::State(StateMessage::CloseRequested);
    assert_eq!(w.next_message(Some(Received::Message(close.clone()))), (Some(close), WindowAction::Nothing));
    assert_eq!(w.current_stage(), Stage::Exiting);
    assert_eq!(
        w.next_message(Some(Received::Empty)),
        (Some(WindowMessage::State(StateMessage::Closing)), WindowAction::Nothing)
    );
    assert_eq!(w.next_message(None), (None, WindowAction::CloseAndJoin));
    assert_eq!(w.next_message(Some(Received::Message(WindowMessage::Empty))), (None, WindowAction::CloseAndJoin));
    assert_eq!(w.current_stage(), Stage::ExitLoop);
}

#[test]
fn window_loop_empty_and_disconnected() {
    let mut w = test_window();
    assert_eq!(w.next_message(Some(Received::Empty)), (Some(WindowMessage::Empty), WindowAction::Nothing));
    assert_eq!(w.next_message(None), (Some(WindowMessage::Empty), WindowAction::Nothing));
    assert_eq!(w.current_stage(), Stage::Looping);
    assert_eq!(w.next_message(Some(Received::Disconnected)), (Some(WindowMessage::Empty), WindowAction::Nothing));
    assert_eq!(w.current_stage(), Stage::Exiting);
    w.close();
    assert_eq!(w.current_stage(), Stage::Exiting);
}

#[test]
fn window_builder() {
    let b = WindowBuilder::new()
        .with_color_mode(ColorMode::Light)
        .with_close_behavior(CloseBehavior::Custom)
        .with_visibility(Visibility::Hidden)
        .with_title("foxy")
        .with_size(800, 450);
    let info = b.into_create_info();
    assert_eq!(info.title.0, "foxy");
    assert_eq!(info.size, HasSize { width: 800, height: 450 });
    assert_eq!(info.color_mode, ColorMode::Light);
    assert_eq!(info.visibility, Visibility::Hidden);
    let d = WindowBuilder::default().with_size(1, 2).with_title("t").into_create_info();
    assert_eq!(d.color_mode, ColorMode::Dark);
    assert_eq!(d.visibility, Visibility::Shown);
    let HasTitle(t) = d.title;
    assert_eq!(t, "t");
}
