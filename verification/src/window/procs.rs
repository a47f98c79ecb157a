use vstd::prelude::*;
use crossbeam::channel::Sender;
use crate::utils::mailbox::crossbeam_send;
use crate::window::message::{WindowMessage, WM_CLOSE, WM_DESTROY};

verus! {

/// How a window procedure answers the operating system after a message.
#[derive(Debug, Copy, Clone, PartialEq, Eq, Structural)]
pub enum ProcReply {
    /// Return 0: the message is handled.
    Handled,
    /// Post the quit message, then return 0.
    QuitAndHandled,
    /// Leave the message to the default procedure.
    DefaultProc,
}

/// The window class's procedure: a close request is swallowed (the window
/// closes only when the main thread asks), everything else goes to the default
/// procedure.
pub open spec fn spec_window_proc_reply(message: u32) -> ProcReply {
    if message == WM_CLOSE {
        ProcReply::Handled
    } else {
        ProcReply::DefaultProc
    }
}

/// The subclass procedure: a close request is swallowed, the destruction of the
/// window ends the thread's message loop, everything else goes to the default
/// procedure.
pub open spec fn spec_subclass_reply(message: u32) -> ProcReply {
    if message == WM_CLOSE {
        ProcReply::Handled
    } else if message == WM_DESTROY {
        ProcReply::QuitAndHandled
    } else {
        ProcReply::DefaultProc
    }
}

/// How the window class's procedure answers `message`.
pub fn window_proc_reply(message: u32) -> (r: ProcReply)
    ensures
        r == spec_window_proc_reply(message),
{
    if message == WM_CLOSE {
        ProcReply::Handled
    } else {
        ProcReply::DefaultProc
    }
}

/// What the subclass procedure of a window holds: where it sends the messages
/// the window receives.
pub struct SubclassWindowData {
    pub sender: Sender<WindowMessage>,
}

impl SubclassWindowData {
    /// The data of a subclass procedure sending to `sender`.
    pub fn new(sender: Sender<WindowMessage>) -> (d: Self)
        ensures
            d.sender == sender,
    {
        SubclassWindowData { sender }
    }

    /// The subclass procedure's work on a message: `decoded` (the message as the
    /// window decodes it) is sent on, a failed send being dropped, and the answer
    /// to the operating system follows from the raw message number.
    pub fn handle(&self, decoded: WindowMessage, message: u32) -> (r: ProcReply)
        ensures
            r == spec_subclass_reply(message),
    {
        let _ = crossbeam_send(&self.sender, decoded);
        if message == WM_CLOSE {
            ProcReply::Handled
        } else if message == WM_DESTROY {
            ProcReply::QuitAndHandled
        } else {
            ProcReply::DefaultProc
        }
    }
}

} // verus!
