use vstd::prelude::*;
use crate::words::{loword, hiword, lobyte, low_word, high_word, low_byte, high_byte};
use crate::window::input::{ButtonState, KeyCode, KeyState, MouseCode};

verus! {

// Win32 window message codes (WinUser.h).
pub const WM_DESTROY: u32 = 0x0002;
pub const WM_CLOSE: u32 = 0x0010;
pub const WM_QUIT: u32 = 0x0012;
pub const WM_KEYFIRST: u32 = 0x0100;
pub const WM_KEYLAST: u32 = 0x0109;
pub const WM_MOUSEMOVE: u32 = 0x0200;
pub const WM_LBUTTONDOWN: u32 = 0x0201;
pub const WM_LBUTTONUP: u32 = 0x0202;
pub const WM_LBUTTONDBLCLK: u32 = 0x0203;
pub const WM_RBUTTONDOWN: u32 = 0x0204;
pub const WM_RBUTTONUP: u32 = 0x0205;
pub const WM_RBUTTONDBLCLK: u32 = 0x0206;
pub const WM_MBUTTONDOWN: u32 = 0x0207;
pub const WM_MBUTTONUP: u32 = 0x0208;
pub const WM_MBUTTONDBLCLK: u32 = 0x0209;
pub const WM_MOUSEWHEEL: u32 = 0x020A;
pub const WM_XBUTTONDOWN: u32 = 0x020B;
pub const WM_XBUTTONUP: u32 = 0x020C;
pub const WM_XBUTTONDBLCLK: u32 = 0x020D;
pub const WM_MOUSEHWHEEL: u32 = 0x020E;
pub const WM_SIZING: u32 = 0x0214;
pub const WM_MOVING: u32 = 0x0216;
pub const WM_USER: u32 = 0x0400;

// Keystroke flags in the high word of a key message's `lParam`.
pub const KF_EXTENDED: u16 = 0x0100;
pub const KF_REPEAT: u16 = 0x4000;
pub const KF_UP: u16 = 0x8000;

// Mouse-button flags in the `wParam` of a mouse-button message.
pub const MK_LBUTTON: u32 = 0x0001;
pub const MK_RBUTTON: u32 = 0x0002;
pub const MK_MBUTTON: u32 = 0x0010;
pub const MK_XBUTTON1: u32 = 0x0020;
pub const MK_XBUTTON2: u32 = 0x0040;

// Which X button an X-button message is about, in the high word of `wParam`.
pub const XBUTTON1: u16 = 0x0001;

/// A Win32 rectangle.
#[derive(Debug, Default, Copy, Clone, PartialEq, Eq, Structural)]
pub struct Rect {
    pub left: i32,
    pub top: i32,
    pub right: i32,
    pub bottom: i32,
}

/// What a window message is about.
#[derive(Debug, PartialEq, Eq, Structural, Clone)]
pub enum WindowMessage {
    Empty,
    State(StateMessage),
    Keyboard(KeyboardMessage),
    Mouse(MouseMessage),
    Other { hwnd: isize, message: u32, w_param: usize, l_param: isize },
    ExitLoop,
}

/// A change of the window's own state.
#[derive(Debug, PartialEq, Eq, Structural, Clone)]
pub enum StateMessage {
    Ready { hwnd: isize, hinstance: isize },
    Resized { window_rect: Rect, client_rect: Rect },
    Moved,
    CloseRequested,
    Closing,
}

/// A keyboard event.
#[derive(Debug, PartialEq, Eq, Structural, Clone)]
pub enum KeyboardMessage {
    Key { key_code: KeyCode, state: KeyState, scan_code: u16, is_extended_key: bool },
    Modifiers { mods: u32 },
}

/// A cursor position in client coordinates: `x` from the low word of a mouse
/// message's `lParam`, `y` from its high word.
#[derive(Debug, Copy, Clone, PartialEq, Eq, Structural, Hash)]
pub struct Position {
    pub x: u16,
    pub y: u16,
}

/// A mouse event.
#[derive(Debug, PartialEq, Eq, Structural, Clone)]
pub enum MouseMessage {
    Button {
        mouse_code: MouseCode,
        state: ButtonState,
        position: Position,
        is_double_click: bool,
    },
    Cursor,
    Scroll,
}

/// What the operating system reports beside a message, read by the caller: the
/// window and client rectangles (for `WM_SIZING`) and the virtual keys that
/// `MapVirtualKeyW(.., MAPVK_VSC_TO_VK_EX)` gives for the extended and for the
/// plain scan code of a key message (see [`KeyScanCodes`]).
#[derive(Debug, Copy, Clone, PartialEq, Eq, Structural)]
pub struct OsReadings {
    pub window_rect: Rect,
    pub client_rect: Rect,
    pub extended_virtual_key: u32,
    pub virtual_key: u32,
}

/// The scan codes of a key message: the plain one, and the extended one (`0xE0`
/// prefix) under which an extended key is looked up.
#[derive(Debug, Copy, Clone, PartialEq, Eq, Structural)]
pub struct KeyScanCodes {
    pub scan_code: u16,
    pub extended_scan_code: u16,
}

/// The keystroke flags of a key message: the high word of the low 32 bits of
/// `l_param`.
pub open spec fn key_flags(l_param: isize) -> u16 {
    high_word(l_param as u32)
}

/// The plain scan code of a key message: the low byte of its keystroke flags.
pub open spec fn spec_scan_code(l_param: isize) -> u16 {
    low_byte(key_flags(l_param)) as u16
}

/// The scan code with the extended-key prefix `0xE0` in its high byte.
pub open spec fn spec_extended_scan_code(l_param: isize) -> u16 {
    (0xE000 + spec_scan_code(l_param)) as u16
}

/// Whether a set of flags has all bits of `flag`.
pub open spec fn has16(flags: u16, flag: u16) -> bool {
    flags & flag == flag
}

/// Whether a set of flags has all bits of `flag`.
pub open spec fn has32(flags: u32, flag: u32) -> bool {
    flags & flag == flag
}

/// The key state a key message reports.
pub open spec fn spec_key_state(l_param: isize) -> KeyState {
    let flags = key_flags(l_param);
    if has16(flags, KF_UP) {
        KeyState::Released
    } else if has16(flags, KF_REPEAT) {
        KeyState::Held { repeat_count: low_word(l_param as u32) }
    } else {
        KeyState::Pressed
    }
}

/// The keyboard message for a key message with `l_param`, given the virtual keys
/// that the extended and the plain scan code map to.
pub open spec fn spec_keyboard_message(l_param: isize, os: OsReadings) -> WindowMessage {
    let flags = key_flags(l_param);
    let is_extended_key = has16(flags, KF_EXTENDED);
    let extended_vk = low_word(os.extended_virtual_key);
    let use_extended = extended_vk != 0 && is_extended_key;
    WindowMessage::Keyboard(
        KeyboardMessage::Key {
            key_code: if use_extended {
                KeyCode(extended_vk)
            } else {
                KeyCode(low_word(os.virtual_key))
            },
            state: spec_key_state(l_param),
            scan_code: if use_extended {
                spec_extended_scan_code(l_param)
            } else {
                spec_scan_code(l_param)
            },
            is_extended_key,
        },
    )
}

/// Whether `message` is a left-button message.
pub open spec fn is_left_button(message: u32) -> bool {
    message == WM_LBUTTONDBLCLK || message == WM_LBUTTONDOWN || message == WM_LBUTTONUP
}

/// Whether `message` is a middle-button message.
pub open spec fn is_middle_button(message: u32) -> bool {
    message == WM_MBUTTONDBLCLK || message == WM_MBUTTONDOWN || message == WM_MBUTTONUP
}

/// Whether `message` is a right-button message.
pub open spec fn is_right_button(message: u32) -> bool {
    message == WM_RBUTTONDBLCLK || message == WM_RBUTTONDOWN || message == WM_RBUTTONUP
}

/// Whether `message` is an X-button message.
pub open spec fn is_x_button(message: u32) -> bool {
    message == WM_XBUTTONDBLCLK || message == WM_XBUTTONDOWN || message == WM_XBUTTONUP
}

/// Whether `message` is one of the mouse-button messages.
pub open spec fn is_mouse_button_message(message: u32) -> bool {
    is_left_button(message) || is_middle_button(message) || is_right_button(message)
        || is_x_button(message)
}

/// Whether `message` is a double-click message.
pub open spec fn spec_is_double_click(message: u32) -> bool {
    message == WM_LBUTTONDBLCLK || message == WM_MBUTTONDBLCLK || message == WM_RBUTTONDBLCLK
        || message == WM_XBUTTONDBLCLK
}

/// The button a mouse-button message is about.
pub open spec fn spec_mouse_code(message: u32, w_param: usize) -> MouseCode {
    if is_left_button(message) {
        MouseCode::Left
    } else if is_middle_button(message) {
        MouseCode::Middle
    } else if is_right_button(message) {
        MouseCode::Right
    } else if is_x_button(message) {
        if has16(high_word(w_param as u32), XBUTTON1) {
            MouseCode::Back
        } else {
            MouseCode::Forward
        }
    } else {
        MouseCode::Unknown
    }
}

/// Whether a mouse-button message reports its button as down: it is a down or
/// double-click message and the button's flag is set in `w_param` (for an X
/// button, either X button's flag).
pub open spec fn spec_button_down(message: u32, w_param: usize) -> bool {
    let flags = w_param as u32;
    if message == WM_LBUTTONDBLCLK || message == WM_LBUTTONDOWN {
        has32(flags, MK_LBUTTON)
    } else if message == WM_MBUTTONDBLCLK || message == WM_MBUTTONDOWN {
        has32(flags, MK_MBUTTON)
    } else if message == WM_RBUTTONDBLCLK || message == WM_RBUTTONDOWN {
        has32(flags, MK_RBUTTON)
    } else if message == WM_XBUTTONDBLCLK || message == WM_XBUTTONDOWN {
        has32(flags, MK_XBUTTON1) || has32(flags, MK_XBUTTON2)
    } else {
        false
    }
}

/// The mouse message for a mouse-button message.
pub open spec fn spec_mouse_button_message(message: u32, w_param: usize, l_param: isize) -> WindowMessage {
    WindowMessage::Mouse(
        MouseMessage::Button {
            mouse_code: spec_mouse_code(message, w_param),
            state: if spec_button_down(message, w_param) {
                ButtonState::Pressed
            } else {
                ButtonState::Released
            },
            position: Position { x: low_word(l_param as u32), y: high_word(l_param as u32) },
            is_double_click: spec_is_double_click(message),
        },
    )
}

/// The window message that a raw Win32 message stands for.
pub open spec fn spec_window_message(
    hwnd: isize,
    message: u32,
    w_param: usize,
    l_param: isize,
    os: OsReadings,
) -> WindowMessage {
    if message == WM_CLOSE {
        WindowMessage::State(StateMessage::CloseRequested)
    } else if message == WM_DESTROY {
        WindowMessage::State(StateMessage::Closing)
    } else if message == WM_QUIT {
        WindowMessage::ExitLoop
    } else if message == WM_MOVING {
        WindowMessage::State(StateMessage::Moved)
    } else if message == WM_SIZING {
        WindowMessage::State(
            StateMessage::Resized { window_rect: os.window_rect, client_rect: os.client_rect },
        )
    } else if WM_KEYFIRST <= message <= WM_KEYLAST {
        spec_keyboard_message(l_param, os)
    } else if is_mouse_button_message(message) {
        spec_mouse_button_message(message, w_param, l_param)
    } else if message == WM_MOUSEMOVE {
        WindowMessage::Mouse(MouseMessage::Cursor)
    } else if message == WM_MOUSEWHEEL || message == WM_MOUSEHWHEEL {
        WindowMessage::Mouse(MouseMessage::Scroll)
    } else {
        WindowMessage::Other { hwnd, message, w_param, l_param }
    }
}

impl KeyScanCodes {
    /// The scan codes of a key message with `l_param`; the caller maps both to
    /// virtual keys for [`WindowMessage::new`].
    pub fn from_l_param(l_param: isize) -> (codes: KeyScanCodes)
        ensures
            codes.scan_code == spec_scan_code(l_param),
            codes.extended_scan_code == spec_extended_scan_code(l_param),
    {
        let flags = hiword(l_param as u32);
        let scan_code = lobyte(flags) as u16;
        KeyScanCodes { scan_code, extended_scan_code: 0xE000 + scan_code }
    }
}

impl WindowMessage {
    /// Decodes a raw Win32 message, with what the operating system reported
    /// beside it.
    pub fn new(hwnd: isize, message: u32, w_param: usize, l_param: isize, os: OsReadings) -> (m:
        WindowMessage)
        ensures
            m == spec_window_message(hwnd, message, w_param, l_param, os),
    {
        if message == WM_CLOSE {
            WindowMessage::State(StateMessage::CloseRequested)
        } else if message == WM_DESTROY {
            WindowMessage::State(StateMessage::Closing)
        } else if message == WM_QUIT {
            WindowMessage::ExitLoop
        } else if message == WM_MOVING {
            WindowMessage::State(StateMessage::Moved)
        } else if message == WM_SIZING {
            WindowMessage::State(
                StateMessage::Resized { window_rect: os.window_rect, client_rect: os.client_rect },
            )
        } else if WM_KEYFIRST <= message && message <= WM_KEYLAST {
            Self::new_keyboard_message(l_param, os)
        } else if message == WM_LBUTTONDBLCLK || message == WM_RBUTTONDBLCLK || message
            == WM_MBUTTONDBLCLK || message == WM_XBUTTONDBLCLK || message == WM_LBUTTONDOWN
            || message == WM_RBUTTONDOWN || message == WM_MBUTTONDOWN || message
            == WM_XBUTTONDOWN || message == WM_LBUTTONUP || message == WM_RBUTTONUP || message
            == WM_MBUTTONUP || message == WM_XBUTTONUP {
            Self::new_mouse_button_message(message, w_param, l_param)
        } else if message == WM_MOUSEMOVE {
            WindowMessage::Mouse(MouseMessage::Cursor)
        } else if message == WM_MOUSEWHEEL || message == WM_MOUSEHWHEEL {
            WindowMessage::Mouse(MouseMessage::Scroll)
        } else {
            WindowMessage::Other { hwnd, message, w_param, l_param }
        }
    }

    /// Decodes a key message: its key, scan code, extended flag and key state.
    pub fn new_keyboard_message(l_param: isize, os: OsReadings) -> (m: WindowMessage)
        ensures
            m == spec_keyboard_message(l_param, os),
    {
        let lp = l_param as u32;
        let flags = hiword(lp);
        let is_extended_key = (flags & KF_EXTENDED) == KF_EXTENDED;
        let mut scan_code = lobyte(flags) as u16;
        let extended_scan_code: u16 = 0xE000 + scan_code;
        let extended_virtual_keycode = loword(os.extended_virtual_key);
        let key_code = if extended_virtual_keycode != 0 && is_extended_key {
            scan_code = extended_scan_code;
            KeyCode(extended_virtual_keycode)
        } else {
            KeyCode(loword(os.virtual_key))
        };
        let was_key_down = (flags & KF_REPEAT) == KF_REPEAT;
        let repeat_count = loword(lp);
        let is_key_up = (flags & KF_UP) == KF_UP;
        let state = if is_key_up {
            KeyState::Released
        } else if was_key_down {
            KeyState::Held { repeat_count }
        } else {
            KeyState::Pressed
        };
        WindowMessage::Keyboard(KeyboardMessage::Key { key_code, state, scan_code, is_extended_key })
    }

    /// Decodes a mouse-button message: its button, whether the button is down,
    /// the cursor position and whether it is a double click.
    pub fn new_mouse_button_message(message: u32, w_param: usize, l_param: isize) -> (m:
        WindowMessage)
        ensures
            m == spec_mouse_button_message(message, w_param, l_param),
    {
        let flags = w_param as u32;
        let mouse_code = if message == WM_LBUTTONDBLCLK || message == WM_LBUTTONDOWN || message
            == WM_LBUTTONUP {
            MouseCode::Left
        } else if message == WM_MBUTTONDBLCLK || message == WM_MBUTTONDOWN || message
            == WM_MBUTTONUP {
            MouseCode::Middle
        } else if message == WM_RBUTTONDBLCLK || message == WM_RBUTTONDOWN || message
            == WM_RBUTTONUP {
            MouseCode::Right
        } else if message == WM_XBUTTONDBLCLK || message == WM_XBUTTONDOWN || message
            == WM_XBUTTONUP {
            let hiflags = hiword(flags);
            if (hiflags & XBUTTON1) == XBUTTON1 {
                MouseCode::Back
            } else {
                MouseCode::Forward
            }
        } else {
            MouseCode::Unknown
        };
        let is_double_click = message == WM_LBUTTONDBLCLK || message == WM_MBUTTONDBLCLK
            || message == WM_RBUTTONDBLCLK || message == WM_XBUTTONDBLCLK;
        let is_l_down = (flags & MK_LBUTTON) == MK_LBUTTON;
        let is_m_down = (flags & MK_MBUTTON) == MK_MBUTTON;
        let is_r_down = (flags & MK_RBUTTON) == MK_RBUTTON;
        let is_x1_down = (flags & MK_XBUTTON1) == MK_XBUTTON1;
        let is_x2_down = (flags & MK_XBUTTON2) == MK_XBUTTON2;
        let is_down = if message == WM_LBUTTONDBLCLK || message == WM_LBUTTONDOWN {
            is_l_down
        } else if message == WM_MBUTTONDBLCLK || message == WM_MBUTTONDOWN {
            is_m_down
        } else if message == WM_RBUTTONDBLCLK || message == WM_RBUTTONDOWN {
            is_r_down
        } else if message == WM_XBUTTONDBLCLK || message == WM_XBUTTONDOWN {
            is_x1_down || is_x2_down
        } else {
            false
        };
        let state = if is_down {
            ButtonState::Pressed
        } else {
            ButtonState::Released
        };
        let lp = l_param as u32;
        let position = Position { x: loword(lp), y: hiword(lp) };
        WindowMessage::Mouse(MouseMessage::Button { mouse_code, state, position, is_double_click })
    }
}

/// A button-up message always reports its button as released, and a
/// double-click message is reported as a double click exactly when it is one.
pub proof fn lemma_button_up_is_released(message: u32, w_param: usize, l_param: isize)
    requires
        message == WM_LBUTTONUP || message == WM_MBUTTONUP || message == WM_RBUTTONUP || message == WM_XBUTTONUP,
    ensures
        spec_mouse_button_message(message, w_param, l_param) matches WindowMessage::Mouse(MouseMessage::Button { state, is_double_click, .. })
            && state == ButtonState::Released && !is_double_click,
{
}

/// Every mouse-button message decodes to a button message about a known button,
/// and its position gives back the low 32 bits of `l_param`: `x` is the low word
/// and `y` the high word.
pub proof fn lemma_mouse_button_decoding(hwnd: isize, message: u32, w_param: usize, l_param: isize, os: OsReadings)
    requires
        is_mouse_button_message(message),
    ensures
        spec_window_message(hwnd, message, w_param, l_param, os) == spec_mouse_button_message(message, w_param, l_param),
        spec_mouse_button_message(message, w_param, l_param) matches WindowMessage::Mouse(MouseMessage::Button { mouse_code, position, .. })
            && mouse_code != MouseCode::Unknown
            && ((position.y as u32) << 16) | (position.x as u32) == l_param as u32,
{
    crate::words::lemma_words_recombine(l_param as u32);
}

/// Each mouse-button message is about its own button: the left-button
/// messages decode to the left button, the middle-button ones to the middle
/// button and the right-button ones to the right button; an X-button message is
/// the back button when `w_param`'s high word flags the first X button, else
/// the forward button. Every one carries the cursor position from `l_param`
/// (`x` its low word, `y` its high word) and is a double click exactly when it
/// is a double-click message.
pub proof fn lemma_button_messages_name_their_button(hwnd: isize, w_param: usize, l_param: isize, os: OsReadings)
    ensures
        spec_window_message(hwnd, WM_LBUTTONDOWN, w_param, l_param, os) matches WindowMessage::Mouse(MouseMessage::Button { mouse_code: MouseCode::Left, is_double_click: false, .. }),
        spec_window_message(hwnd, WM_LBUTTONUP, w_param, l_param, os) matches WindowMessage::Mouse(MouseMessage::Button { mouse_code: MouseCode::Left, state: ButtonState::Released, is_double_click: false, .. }),
        spec_window_message(hwnd, WM_LBUTTONDBLCLK, w_param, l_param, os) matches WindowMessage::Mouse(MouseMessage::Button { mouse_code: MouseCode::Left, is_double_click: true, .. }),
        spec_window_message(hwnd, WM_MBUTTONDOWN, w_param, l_param, os) matches WindowMessage::Mouse(MouseMessage::Button { mouse_code: MouseCode::Middle, is_double_click: false, .. }),
        spec_window_message(hwnd, WM_MBUTTONUP, w_param, l_param, os) matches WindowMessage::Mouse(MouseMessage::Button { mouse_code: MouseCode::Middle, state: ButtonState::Released, is_double_click: false, .. }),
        spec_window_message(hwnd, WM_MBUTTONDBLCLK, w_param, l_param, os) matches WindowMessage::Mouse(MouseMessage::Button { mouse_code: MouseCode::Middle, is_double_click: true, .. }),
        spec_window_message(hwnd, WM_RBUTTONDOWN, w_param, l_param, os) matches WindowMessage::Mouse(MouseMessage::Button { mouse_code: MouseCode::Right, is_double_click: false, .. }),
        spec_window_message(hwnd, WM_RBUTTONUP, w_param, l_param, os) matches WindowMessage::Mouse(MouseMessage::Button { mouse_code: MouseCode::Right, state: ButtonState::Released, is_double_click: false, .. }),
        spec_window_message(hwnd, WM_RBUTTONDBLCLK, w_param, l_param, os) matches WindowMessage::Mouse(MouseMessage::Button { mouse_code: MouseCode::Right, is_double_click: true, .. }),
        forall|m: u32| (m == WM_XBUTTONDOWN || m == WM_XBUTTONUP || m == WM_XBUTTONDBLCLK) ==> (#[trigger] spec_window_message(hwnd, m, w_param, l_param, os) matches WindowMessage::Mouse(MouseMessage::Button { mouse_code, .. })
            && mouse_code == (if ((w_param as u32) / 0x10000) as u16 & XBUTTON1 == XBUTTON1 { MouseCode::Back } else { MouseCode::Forward })),
        forall|m: u32| (m == WM_LBUTTONDOWN || m == WM_LBUTTONUP || m == WM_LBUTTONDBLCLK || m == WM_MBUTTONDOWN || m == WM_MBUTTONUP
            || m == WM_MBUTTONDBLCLK || m == WM_RBUTTONDOWN || m == WM_RBUTTONUP || m == WM_RBUTTONDBLCLK || m == WM_XBUTTONDOWN
            || m == WM_XBUTTONUP || m == WM_XBUTTONDBLCLK) ==> (#[trigger] spec_window_message(hwnd, m, w_param, l_param, os) matches WindowMessage::Mouse(MouseMessage::Button { position, .. })
            && position.x == (l_param as u32) % 0x10000 && position.y == (l_param as u32) / 0x10000),
{
    let l = l_param as u32;
    assert((l & 0xFFFF) as u16 == l % 0x10000) by (bit_vector);
    assert((l >> 16) as u16 == l / 0x10000) by (bit_vector);
    let w = w_param as u32;
    assert((w >> 16) as u16 == w / 0x10000) by (bit_vector);
}

/// A button-down or double-click message reports its button pressed exactly
/// when `w_param` flags that button as down.
pub proof fn lemma_button_down_follows_its_flag(hwnd: isize, w_param: usize, l_param: isize, os: OsReadings)
    ensures
        forall|m: u32| (m == WM_LBUTTONDOWN || m == WM_LBUTTONDBLCLK) ==> (#[trigger] spec_window_message(hwnd, m, w_param, l_param, os) matches WindowMessage::Mouse(MouseMessage::Button { state, .. })
            && (state == ButtonState::Pressed <==> (w_param as u32) & MK_LBUTTON == MK_LBUTTON)),
        forall|m: u32| (m == WM_MBUTTONDOWN || m == WM_MBUTTONDBLCLK) ==> (#[trigger] spec_window_message(hwnd, m, w_param, l_param, os) matches WindowMessage::Mouse(MouseMessage::Button { state, .. })
            && (state == ButtonState::Pressed <==> (w_param as u32) & MK_MBUTTON == MK_MBUTTON)),
        forall|m: u32| (m == WM_RBUTTONDOWN || m == WM_RBUTTONDBLCLK) ==> (#[trigger] spec_window_message(hwnd, m, w_param, l_param, os) matches WindowMessage::Mouse(MouseMessage::Button { state, .. })
            && (state == ButtonState::Pressed <==> (w_param as u32) & MK_RBUTTON == MK_RBUTTON)),
{
}

/// The extended scan code of a key message is its scan code with the prefix
/// `0xE0` in the high byte.
pub proof fn lemma_extended_scan_code(l_param: isize)
    ensures
        high_byte(spec_extended_scan_code(l_param)) == 0xE0,
        low_byte(spec_extended_scan_code(l_param)) as u16 == spec_scan_code(l_param),
{
    let b = low_byte(key_flags(l_param));
    assert(high_byte((0xE000 + (b as u16)) as u16) == 0xE0) by (bit_vector);
    assert(low_byte((0xE000 + (b as u16)) as u16) == b) by (bit_vector);
}

/// A key message whose up flag is set reports the key as released, whatever its
/// repeat flag says.
pub proof fn lemma_key_up_is_released(l_param: isize, os: OsReadings)
    requires
        has16(key_flags(l_param), KF_UP),
    ensures
        spec_keyboard_message(l_param, os) matches WindowMessage::Keyboard(KeyboardMessage::Key { state, .. }) && state == KeyState::Released,
{
}

} // verus!
