use vstd::prelude::*;
use crate::utils::behavior::{ColorMode, Visibility};
use crate::utils::primitives::Dimensions;
use crate::window::input::{Input, KeyCode};
use crate::window::message::{KeyboardMessage, MouseMessage, Rect, StateMessage, WindowMessage};

verus! {

/// Whether a rectangle's width and height fit in an `i32`.
pub open spec fn rect_fits(r: Rect) -> bool {
    i32::MIN <= r.right - r.left <= i32::MAX && i32::MIN <= r.bottom - r.top <= i32::MAX
}

/// The width and height of a rectangle.
pub open spec fn rect_size(r: Rect) -> Dimensions {
    Dimensions { width: (r.right - r.left) as i32, height: (r.bottom - r.top) as i32 }
}

/// The width and height of a rectangle whose size fits in an `i32`.
pub fn size_of_rect(r: Rect) -> (d: Dimensions)
    requires
        rect_fits(r),
    ensures
        d == rect_size(r),
{
    Dimensions { width: r.right - r.left, height: r.bottom - r.top }
}

/// Whether a message can be handled: a resize must report rectangles whose sizes
/// fit in an `i32`.
pub open spec fn message_fits(m: WindowMessage) -> bool {
    m matches WindowMessage::State(StateMessage::Resized { window_rect, client_rect }) ==> rect_fits(
        window_rect,
    ) && rect_fits(client_rect)
}

/// What a window knows of itself.
pub struct WindowState {
    pub hwnd: isize,
    pub hinstance: isize,
    pub size: Dimensions,
    pub inner_size: Dimensions,
    pub title: String,
    pub color_mode: ColorMode,
    pub visibility: Visibility,
    pub input: Input,
}

/// Where a window is in its life.
#[derive(Debug, Copy, Clone, PartialEq, Eq, Structural)]
pub enum Stage {
    Looping,
    Exiting,
    ExitLoop,
}

/// What the window thread has handed over, if anything.
#[derive(Debug, Clone, PartialEq, Eq, Structural)]
pub enum Received {
    Message(WindowMessage),
    Empty,
    Disconnected,
}

/// Outside work that the caller performs after [`WindowCore::next_message`].
#[derive(Debug, Copy, Clone, PartialEq, Eq, Structural)]
pub enum WindowAction {
    Nothing,
    /// Ask the window thread to close the window, and join it.
    CloseAndJoin,
}

/// The decisions of a window: its state and where it is in its life. The caller
/// receives from the window thread and performs the returned actions.
pub struct WindowCore {
    pub state: WindowState,
    pub current_stage: Stage,
}

/// What handling `message` does to a window: a close request starts closing,
/// a resize records the new window and client sizes, and key and mouse-button
/// messages record the new state of their key or button; nothing else changes.
pub open spec fn handled(before: WindowCore, message: WindowMessage, after: WindowCore) -> bool {
    &&& after.stage() == (if message == WindowMessage::State(StateMessage::CloseRequested) {
        Stage::Exiting
    } else {
        before.stage()
    })
    &&& after.state.size == (match message {
        WindowMessage::State(StateMessage::Resized { window_rect, .. }) => rect_size(window_rect),
        _ => before.state.size,
    })
    &&& after.state.inner_size == (match message {
        WindowMessage::State(StateMessage::Resized { client_rect, .. }) => rect_size(client_rect),
        _ => before.state.inner_size,
    })
    &&& forall|k: KeyCode| #[trigger] after.state.input.spec_key(k) == (match message {
        WindowMessage::Keyboard(KeyboardMessage::Key { key_code, state, .. }) => if k == key_code && (k.0 as int) < crate::window::input::KEY_COUNT {
            state
        } else {
            before.state.input.spec_key(k)
        },
        _ => before.state.input.spec_key(k),
    })
    &&& forall|m: crate::window::input::MouseCode| #[trigger] after.state.input.spec_mouse_button(m) == (match message {
        WindowMessage::Mouse(MouseMessage::Button { mouse_code, state, .. }) => if m == mouse_code {
            state
        } else {
            before.state.input.spec_mouse_button(m)
        },
        _ => before.state.input.spec_mouse_button(m),
    })
    &&& after.state.title == before.state.title
    &&& after.state.color_mode == before.state.color_mode
    &&& after.state.visibility == before.state.visibility
    &&& after.state.hwnd == before.state.hwnd
    &&& after.state.hinstance == before.state.hinstance
}

/// One step of the window loop, from the stage and what the window thread
/// handed over, to the message handed on, the action asked of the caller and
/// the new stage.
pub open spec fn spec_stage_step(stage: Stage, received: Option<Received>) -> (Option<WindowMessage>, WindowAction, Stage) {
    match stage {
        Stage::Looping => match received {
            Some(Received::Message(m)) => (
                Some(m),
                WindowAction::Nothing,
                if m == WindowMessage::State(StateMessage::CloseRequested) {
                    Stage::Exiting
                } else {
                    Stage::Looping
                },
            ),
            Some(Received::Disconnected) => (Some(WindowMessage::Empty), WindowAction::Nothing, Stage::Exiting),
            _ => (Some(WindowMessage::Empty), WindowAction::Nothing, Stage::Looping),
        },
        Stage::Exiting => (Some(WindowMessage::State(StateMessage::Closing)), WindowAction::Nothing, Stage::ExitLoop),
        Stage::ExitLoop => (None, WindowAction::CloseAndJoin, Stage::ExitLoop),
    }
}

/// A close request ends the window loop in two more steps, whatever the window
/// thread hands over meanwhile: the next step reports the window as closing, and
/// every step after that ends the loop and asks for the window to be closed and
/// its thread joined.
pub proof fn lemma_close_request_ends_loop(r1: Option<Received>, r2: Option<Received>, r3: Option<Received>)
    ensures
        ({
            let (m0, a0, s0) = spec_stage_step(Stage::Looping, Some(Received::Message(WindowMessage::State(StateMessage::CloseRequested))));
            let (m1, a1, s1) = spec_stage_step(s0, r1);
            let (m2, a2, s2) = spec_stage_step(s1, r2);
            let (m3, a3, s3) = spec_stage_step(s2, r3);
            &&& m0 == Some(WindowMessage::State(StateMessage::CloseRequested)) && a0 == WindowAction::Nothing
            &&& m1 == Some(WindowMessage::State(StateMessage::Closing)) && a1 == WindowAction::Nothing
            &&& m2 is None && a2 == WindowAction::CloseAndJoin
            &&& m3 is None && a3 == WindowAction::CloseAndJoin && s3 == Stage::ExitLoop
        }),
{
}

/// The window never makes its caller wait: when nothing is waiting from the
/// window thread, a looping window answers at once with an empty message and
/// keeps looping; and it answers `None` exactly once the loop has ended.
pub proof fn lemma_next_message_never_waits(stage: Stage, received: Option<Received>)
    ensures
        stage == Stage::Looping && (received is None || received == Some(Received::Empty)) ==> spec_stage_step(stage, received)
            == (Some(WindowMessage::Empty), WindowAction::Nothing, Stage::Looping),
        spec_stage_step(stage, received).0 is None <==> stage == Stage::ExitLoop,
{
}

/// Once the loop has ended it stays ended.
pub proof fn lemma_exit_loop_absorbing(received: Option<Received>)
    ensures
        spec_stage_step(Stage::ExitLoop, received) == (None::<WindowMessage>, WindowAction::CloseAndJoin, Stage::ExitLoop),
{
}

/// The window's handles from the first message of the window thread: only a
/// `Ready` message opens a window; any other first message is invalid.
pub fn ready_handles(first: &WindowMessage) -> (r: Option<(isize, isize)>)
    ensures
        match *first {
            WindowMessage::State(StateMessage::Ready { hwnd, hinstance }) => r == Some((hwnd, hinstance)),
            _ => r is None,
        },
{
    match first {
        WindowMessage::State(StateMessage::Ready { hwnd, hinstance }) => Some((*hwnd, *hinstance)),
        _ => None,
    }
}

impl WindowState {
    /// The state of a window that has just reported itself ready, with its
    /// window and client rectangles.
    pub fn new(
        hwnd: isize,
        hinstance: isize,
        window_rect: Rect,
        client_rect: Rect,
        title: String,
        color_mode: ColorMode,
        visibility: Visibility,
    ) -> (s: WindowState)
        requires
            rect_fits(window_rect),
            rect_fits(client_rect),
        ensures
            s.hwnd == hwnd,
            s.hinstance == hinstance,
            s.size == rect_size(window_rect),
            s.inner_size == rect_size(client_rect),
            s.title@ == title@,
            s.color_mode == color_mode,
            s.visibility == visibility,
            s.input.wf(),
            forall|k: KeyCode| #[trigger] s.input.spec_key(k) == crate::window::input::KeyState::Released,
    {
        WindowState {
            hwnd,
            hinstance,
            size: size_of_rect(window_rect),
            inner_size: size_of_rect(client_rect),
            title,
            color_mode,
            visibility,
            input: Input::new(),
        }
    }
}

impl WindowCore {
    /// The stage the window is in.
    pub open spec fn stage(&self) -> Stage {
        self.current_stage
    }

    /// The input tables have their full length.
    pub open spec fn wf(&self) -> bool {
        self.state.input.wf()
    }

    /// A window in its main loop.
    pub fn new(state: WindowState) -> (w: WindowCore)
        requires
            state.input.wf(),
        ensures
            w.wf(),
            w.state == state,
            w.stage() == Stage::Looping,
    {
        WindowCore { state, current_stage: Stage::Looping }
    }

    /// The stage the window is in.
    pub fn current_stage(&self) -> (s: Stage)
        ensures
            s == self.stage(),
    {
        self.current_stage
    }

    /// The window's title.
    pub fn title(&self) -> (t: &String)
        ensures
            t@ == self.state.title@,
    {
        &self.state.title
    }

    /// The size of the whole window.
    pub fn size(&self) -> (d: Dimensions)
        ensures
            d == self.state.size,
    {
        self.state.size
    }

    /// The size of the client area.
    pub fn inner_size(&self) -> (d: Dimensions)
        ensures
            d == self.state.inner_size,
    {
        self.state.inner_size
    }

    /// Records the new visibility; the caller shows or hides the window.
    pub fn set_visibility(&mut self, visibility: Visibility)
        ensures
            final(self).state.visibility == visibility,
            final(self).state.color_mode == old(self).state.color_mode,
            final(self).state.size == old(self).state.size,
            final(self).stage() == old(self).stage(),
    {
        self.state.visibility = visibility;
    }

    /// Records the new color mode; the caller applies it to the window.
    pub fn set_color_mode(&mut self, color_mode: ColorMode)
        ensures
            final(self).state.color_mode == color_mode,
            final(self).state.visibility == old(self).state.visibility,
            final(self).state.size == old(self).state.size,
            final(self).stage() == old(self).stage(),
    {
        self.state.color_mode = color_mode;
    }

    /// Starts closing the window.
    pub fn close(&mut self)
        ensures
            final(self).stage() == Stage::Exiting,
            final(self).state == old(self).state,
    {
        self.current_stage = Stage::Exiting;
    }

    /// Applies a message to the window's state and hands it on: a close request
    /// starts closing, a resize records the new sizes, and key and mouse-button
    /// messages update the input state.
    pub fn handle_message(&mut self, message: WindowMessage) -> (r: Option<WindowMessage>)
        requires
            old(self).wf(),
            message_fits(message),
        ensures
            final(self).wf(),
            r == Some(message),
            handled(*old(self), message, *final(self)),
    {
        match &message {
            WindowMessage::State(StateMessage::CloseRequested) => {
                self.close();
            },
            WindowMessage::State(StateMessage::Resized { window_rect, client_rect }) => {
                self.state.size = size_of_rect(*window_rect);
                self.state.inner_size = size_of_rect(*client_rect);
            },
            WindowMessage::Keyboard(KeyboardMessage::Key { key_code, state, .. }) => {
                self.state.input.update_keyboard_state(*key_code, *state);
            },
            WindowMessage::Mouse(MouseMessage::Button { mouse_code, state, .. }) => {
                self.state.input.update_mouse_button_state(*mouse_code, *state);
            },
            _ => {},
        }
        Some(message)
    }

    /// The next message of the window loop. In the main loop it hands on (and
    /// applies, see [`WindowCore::handle_message`]) what the window thread handed
    /// over, or an empty message when nothing came; a lost window thread starts
    /// closing. Once closing, it reports the window as closing, and after that
    /// ends the loop (`None`) and asks the caller to close the window and join its
    /// thread; see [`spec_stage_step`].
    pub fn next_message(&mut self, received: Option<Received>) -> (r: (Option<WindowMessage>, WindowAction))
        requires
            old(self).wf(),
            received matches Some(Received::Message(m)) ==> message_fits(m),
        ensures
            final(self).wf(),
            (r.0, r.1, final(self).stage()) == spec_stage_step(old(self).stage(), received),
            !(old(self).stage() == Stage::Looping && received is Some && received->Some_0 is Message) ==> final(self).state == old(self).state,
            old(self).stage() == Stage::Looping && received is Some && received->Some_0 is Message ==> handled(*old(self), received->Some_0->Message_0, *final(self)),
    {
        match self.current_stage {
            Stage::Looping => match received {
                Some(Received::Message(message)) => (self.handle_message(message), WindowAction::Nothing),
                Some(Received::Disconnected) => {
                    self.current_stage = Stage::Exiting;
                    (Some(WindowMessage::Empty), WindowAction::Nothing)
                },
                _ => (Some(WindowMessage::Empty), WindowAction::Nothing),
            },
            Stage::Exiting => {
                self.current_stage = Stage::ExitLoop;
                (Some(WindowMessage::State(StateMessage::Closing)), WindowAction::Nothing)
            },
            Stage::ExitLoop => (None, WindowAction::CloseAndJoin),
        }
    }
}

} // verus!
