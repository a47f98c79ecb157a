use vstd::prelude::*;
use crossbeam::channel::Sender;
use crate::utils::mailbox::{Mailbox, MessagingError};
use crate::window::builder::{HasSize, HasTitle, WindowCreateInfo};
use crate::window::message::{StateMessage, WindowMessage, WM_USER};

verus! {

/// The message by which the window thread reports that its loop has ended.
pub const MSG_EXIT_LOOP: u32 = WM_USER + 69;

/// The message by which the main thread asks the window thread to close.
pub const MSG_MAIN_CLOSE_REQ: u32 = WM_USER + 11;

/// The id under which the window's subclass procedure is installed.
pub const WINDOW_SUBCLASS_ID: usize = 0;

/// The name of the window thread.
pub const WINDOW_THREAD_ID: &'static str = "window";

/// What the main thread tells the window thread.
#[derive(Debug, Copy, Clone, PartialEq, Eq, Structural)]
pub enum MainMessage {
    Empty,
    Close,
    DestroyWindow { hwnd: isize },
    Exit,
}

/// What the window thread needs to open the window: what to open, and where its
/// procedures send the messages they receive (urgent ones first).
pub struct WindowThreadCreateInfo {
    pub create_info: WindowCreateInfo<HasTitle, HasSize>,
    pub priority_proc_sender: Sender<WindowMessage>,
    pub proc_sender: Sender<WindowMessage>,
}

impl WindowThreadCreateInfo {
    /// Everything the window thread needs, as given.
    pub fn new(
        create_info: WindowCreateInfo<HasTitle, HasSize>,
        priority_proc_sender: Sender<WindowMessage>,
        proc_sender: Sender<WindowMessage>,
    ) -> (info: Self)
        ensures
            info.create_info == create_info,
            info.priority_proc_sender == priority_proc_sender,
            info.proc_sender == proc_sender,
    {
        WindowThreadCreateInfo { create_info, priority_proc_sender, proc_sender }
    }
}

/// What the window thread does after a message of its operating-system loop.
#[derive(Debug, Copy, Clone, PartialEq, Eq, Structural)]
pub enum WindowThreadAction {
    /// Wait for the next message.
    Continue,
    /// Destroy the window, leave the loop and report the end to the main thread.
    DestroyAndExit,
}

/// How far the window thread has reported to the main thread.
#[derive(Debug, Copy, Clone, PartialEq, Eq, Structural)]
pub enum ReportStage {
    /// Nothing reported yet.
    Opening,
    /// The window was reported ready.
    Running,
    /// The end of the loop was reported.
    Ended,
}

/// Whether a report says that the window is open.
pub open spec fn is_ready_report(message: WindowMessage) -> bool {
    message matches WindowMessage::State(StateMessage::Ready { .. })
}

/// Whether a message is the main thread's request to close the window.
pub open spec fn is_main_close_request(message: WindowMessage) -> bool {
    message matches WindowMessage::Other { message: m, .. } && m == MSG_MAIN_CLOSE_REQ
}

/// The window thread's side of its mailbox with the main thread, with a record
/// of what it has reported. The thread itself (the operating-system message
/// loop) is run by the caller, which asks this value what to do with each
/// message: it reports `Ready` first and `ExitLoop` last.
pub struct WindowLoop {
    mailbox: Mailbox<WindowMessage, MainMessage>,
    stage: ReportStage,
    reports: Ghost<Seq<WindowMessage>>,
}

impl WindowLoop {
    /// The mailbox the loop reports through.
    pub closed spec fn spec_mailbox(&self) -> Mailbox<WindowMessage, MainMessage> {
        self.mailbox
    }

    /// The reports handed to the mailbox so far, oldest first.
    pub closed spec fn reports(&self) -> Seq<WindowMessage> {
        self.reports@
    }

    /// How far the loop has reported.
    pub closed spec fn stage(&self) -> ReportStage {
        self.stage
    }

    /// The reports follow the stage: none while opening, the `Ready` message
    /// once running, and `Ready` then `ExitLoop` once ended.
    pub closed spec fn wf(&self) -> bool {
        &&& self.stage == ReportStage::Opening ==> self.reports@.len() == 0
        &&& self.stage == ReportStage::Running ==> (self.reports@.len() == 1 && is_ready_report(self.reports@[0]))
        &&& self.stage == ReportStage::Ended ==> (self.reports@.len() == 2 && is_ready_report(self.reports@[0])
            && self.reports@[1] == WindowMessage::ExitLoop)
    }

    /// A window loop that reports through `mailbox` and has reported nothing.
    pub fn new(mailbox: Mailbox<WindowMessage, MainMessage>) -> (l: Self)
        ensures
            l.wf(),
            l.spec_mailbox() == mailbox,
            l.stage() == ReportStage::Opening,
            l.reports() == Seq::<WindowMessage>::empty(),
    {
        WindowLoop { mailbox, stage: ReportStage::Opening, reports: Ghost(Seq::empty()) }
    }

    /// How far the loop has reported.
    pub fn current_stage(&self) -> (s: ReportStage)
        ensures
            s == self.stage(),
    {
        self.stage
    }

    /// What to do after `message`: the main thread's close request destroys the
    /// window and ends the loop; every other message keeps it going.
    pub fn action_for(message: &WindowMessage) -> (a: WindowThreadAction)
        ensures
            a == (if is_main_close_request(*message) {
                WindowThreadAction::DestroyAndExit
            } else {
                WindowThreadAction::Continue
            }),
    {
        match message {
            WindowMessage::Other { message: m, .. } => {
                if *m == MSG_MAIN_CLOSE_REQ {
                    WindowThreadAction::DestroyAndExit
                } else {
                    WindowThreadAction::Continue
                }
            },
            _ => WindowThreadAction::Continue,
        }
    }

    /// Tells the main thread that the window is open, with its handles: the
    /// first report of the loop. On failure the message comes back in the error.
    pub fn report_ready(&mut self, hwnd: isize, hinstance: isize) -> (r: Result<(), MessagingError<WindowMessage>>)
        requires
            old(self).wf(),
            old(self).stage() == ReportStage::Opening,
        ensures
            final(self).wf(),
            final(self).stage() == ReportStage::Running,
            final(self).reports() == seq![WindowMessage::State(StateMessage::Ready { hwnd, hinstance })],
            final(self).spec_mailbox() == old(self).spec_mailbox(),
            r matches Err(e) ==> e == (MessagingError::SendError {
                message: WindowMessage::State(StateMessage::Ready { hwnd, hinstance }),
            }),
    {
        let r = self.mailbox.send(WindowMessage::State(StateMessage::Ready { hwnd, hinstance }));
        self.stage = ReportStage::Running;
        proof {
            self.reports@ = self.reports@.push(WindowMessage::State(StateMessage::Ready { hwnd, hinstance }));
        }
        r
    }

    /// Tells the main thread that the loop has ended: the last report, after the
    /// window was reported ready. On failure the message comes back in the error.
    pub fn report_exit(&mut self) -> (r: Result<(), MessagingError<WindowMessage>>)
        requires
            old(self).wf(),
            old(self).stage() == ReportStage::Running,
        ensures
            final(self).wf(),
            final(self).stage() == ReportStage::Ended,
            final(self).reports() == old(self).reports().push(WindowMessage::ExitLoop),
            final(self).spec_mailbox() == old(self).spec_mailbox(),
            r matches Err(e) ==> e == (MessagingError::SendError { message: WindowMessage::ExitLoop }),
    {
        let r = self.mailbox.send(WindowMessage::ExitLoop);
        self.stage = ReportStage::Ended;
        proof {
            self.reports@ = self.reports@.push(WindowMessage::ExitLoop);
        }
        r
    }
}

/// The window thread's reports come in order: the window is reported ready
/// before anything else, and the end of the loop is reported last; once ended,
/// exactly those two reports were made.
pub proof fn lemma_reports_in_order(l: WindowLoop)
    requires
        l.wf(),
    ensures
        l.reports().len() > 0 ==> is_ready_report(l.reports()[0]),
        forall|i: int| 0 <= i < l.reports().len() && l.reports()[i] == WindowMessage::ExitLoop ==> i == l.reports().len() - 1,
        l.stage() == ReportStage::Ended ==> l.reports().len() == 2 && l.reports()[1] == WindowMessage::ExitLoop,
{
}

} // verus!
