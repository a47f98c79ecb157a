use vstd::prelude::*;

verus! {

/// A mouse button.
#[derive(Debug, Copy, Clone, Eq, PartialEq, Structural, Hash)]
pub enum MouseCode {
    Unknown,
    Left,
    Right,
    Middle,
    Back,
    Forward,
}

impl MouseCode {
    /// The button's number: 0 for `Unknown`, then 1 to 5 in declaration order.
    pub open spec fn spec_value(self) -> u16 {
        match self {
            MouseCode::Unknown => 0,
            MouseCode::Left => 1,
            MouseCode::Right => 2,
            MouseCode::Middle => 3,
            MouseCode::Back => 4,
            MouseCode::Forward => 5,
        }
    }

    /// The button's number: 0 for `Unknown`, then 1 to 5 in declaration order.
    pub fn value(&self) -> (v: u16)
        ensures
            v == self.spec_value(),
    {
        match self {
            MouseCode::Unknown => 0,
            MouseCode::Left => 1,
            MouseCode::Right => 2,
            MouseCode::Middle => 3,
            MouseCode::Back => 4,
            MouseCode::Forward => 5,
        }
    }
}

/// Whether a mouse button went down or up.
#[derive(Debug, Copy, Clone, Eq, PartialEq, Structural, Hash)]
pub enum ButtonState {
    Pressed,
    Released,
}

/// Whether a key went down, is held down (with the repeat count of the
/// message), or went up.
#[derive(Debug, Copy, Clone, Eq, PartialEq, Structural, Hash)]
pub enum KeyState {
    Pressed,
    Held { repeat_count: u16 },
    Released,
}

/// A key, by its Win32 virtual-key code.
#[derive(Debug, Copy, Clone, Eq, PartialEq, Structural, Hash)]
pub struct KeyCode(pub u16);

/// How many virtual-key codes the keyboard state tracks (codes 0 to 255).
pub const KEY_COUNT: usize = 256;

/// How many mouse buttons the mouse state tracks (one per [`MouseCode`]).
pub const MOUSE_BUTTON_COUNT: usize = 6;

/// The last reported state of every key and mouse button.
pub struct Input {
    keys: Vec<KeyState>,
    mouse_buttons: Vec<ButtonState>,
}

impl Input {
    /// Both tables have their full length.
    pub open spec fn wf(&self) -> bool {
        self.spec_keys().len() == KEY_COUNT && self.spec_mouse_buttons().len() == MOUSE_BUTTON_COUNT
    }

    /// The state of each virtual key, by code.
    pub closed spec fn spec_keys(&self) -> Seq<KeyState> {
        self.keys@
    }

    /// The state of each mouse button, by [`MouseCode::spec_value`].
    pub closed spec fn spec_mouse_buttons(&self) -> Seq<ButtonState> {
        self.mouse_buttons@
    }

    /// The last reported state of `key_code`; keys outside the tracked range are
    /// never reported and read as released.
    pub open spec fn spec_key(&self, key_code: KeyCode) -> KeyState {
        if (key_code.0 as int) < KEY_COUNT {
            self.spec_keys()[key_code.0 as int]
        } else {
            KeyState::Released
        }
    }

    /// The last reported state of `mouse_code`.
    pub open spec fn spec_mouse_button(&self, mouse_code: MouseCode) -> ButtonState {
        self.spec_mouse_buttons()[mouse_code.spec_value() as int]
    }

    /// Every key and every mouse button released.
    pub fn new() -> (input: Input)
        ensures
            input.wf(),
            forall|k: KeyCode| #[trigger] input.spec_key(k) == KeyState::Released,
            forall|m: MouseCode| #[trigger] input.spec_mouse_button(m) == ButtonState::Released,
    {
        let mut keys: Vec<KeyState> = Vec::new();
        let mut i: usize = 0;
        while i < KEY_COUNT
            invariant
                i <= KEY_COUNT,
                keys@.len() == i,
                forall|j: int| 0 <= j < i ==> keys@[j] == KeyState::Released,
            decreases KEY_COUNT - i,
        {
            keys.push(KeyState::Released);
            i = i + 1;
        }
        let mut mouse_buttons: Vec<ButtonState> = Vec::new();
        let mut i: usize = 0;
        while i < MOUSE_BUTTON_COUNT
            invariant
                i <= MOUSE_BUTTON_COUNT,
                mouse_buttons@.len() == i,
                forall|j: int| 0 <= j < i ==> mouse_buttons@[j] == ButtonState::Released,
            decreases MOUSE_BUTTON_COUNT - i,
        {
            mouse_buttons.push(ButtonState::Released);
            i = i + 1;
        }
        Input { keys, mouse_buttons }
    }

    /// The last reported state of `key_code`.
    pub fn key(&self, key_code: KeyCode) -> (state: KeyState)
        requires
            self.wf(),
        ensures
            state == self.spec_key(key_code),
    {
        if (key_code.0 as usize) < KEY_COUNT {
            self.keys[key_code.0 as usize]
        } else {
            KeyState::Released
        }
    }

    /// The last reported state of `mouse_code`.
    pub fn mouse_button(&self, mouse_code: MouseCode) -> (state: ButtonState)
        requires
            self.wf(),
        ensures
            state == self.spec_mouse_button(mouse_code),
    {
        self.mouse_buttons[mouse_code.value() as usize]
    }

    /// Records that `key_code` is now in `state`; keys outside the tracked range
    /// are not recorded.
    pub fn update_keyboard_state(&mut self, key_code: KeyCode, state: KeyState)
        requires
            old(self).wf(),
        ensures
            final(self).wf(),
            (key_code.0 as int) < KEY_COUNT ==> final(self).spec_key(key_code) == state,
            forall|k: KeyCode| k != key_code ==> #[trigger] final(self).spec_key(k) == old(self).spec_key(k),
            forall|m: MouseCode| #[trigger] final(self).spec_mouse_button(m) == old(self).spec_mouse_button(m),
    {
        if (key_code.0 as usize) < KEY_COUNT {
            self.keys.set(key_code.0 as usize, state);
        }
    }

    /// Records that `mouse_code` is now in `state`.
    pub fn update_mouse_button_state(&mut self, mouse_code: MouseCode, state: ButtonState)
        requires
            old(self).wf(),
        ensures
            final(self).wf(),
            final(self).spec_mouse_button(mouse_code) == state,
            forall|m: MouseCode| m != mouse_code ==> #[trigger] final(self).spec_mouse_button(m) == old(self).spec_mouse_button(m),
            forall|k: KeyCode| #[trigger] final(self).spec_key(k) == old(self).spec_key(k),
    {
        self.mouse_buttons.set(mouse_code.value() as usize, state);
    }
}

} // verus!
