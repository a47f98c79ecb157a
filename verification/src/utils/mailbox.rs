use vstd::prelude::*;
use crossbeam::channel::{Receiver, Sender};
use crate::messaging::PollFailure;

verus! {

#[verifier::external_type_specification]
#[verifier::external_body]
#[verifier::reject_recursive_types(T)]
pub struct ExCrossbeamSender<T>(Sender<T>);

#[verifier::external_type_specification]
#[verifier::external_body]
#[verifier::reject_recursive_types(T)]
pub struct ExCrossbeamReceiver<T>(Receiver<T>);

/// `Clone` of a crossbeam sender: another handle to the same channel. Nothing
/// is promised of the new handle.
pub assume_specification<T>[ <Sender<T> as Clone>::clone ](sender: &Sender<T>) -> Sender<T>;

/// `Clone` of a crossbeam receiver: another handle to the same channel. Nothing
/// is promised of the new handle.
pub assume_specification<T>[ <Receiver<T> as Clone>::clone ](receiver: &Receiver<T>) -> Receiver<T>;

/// `crossbeam::channel::unbounded`: a new unbounded channel. Nothing is promised
/// of the two ends beyond their types.
#[verifier::external_body]
pub(crate) fn unbounded<T>() -> (Sender<T>, Receiver<T>) {
    crossbeam::channel::unbounded()
}

/// `crossbeam::channel::Sender::send`. It fails only when every receiver is gone,
/// and then hands the message back; which outcome comes depends on other threads.
#[verifier::external_body]
pub(crate) fn crossbeam_send<T>(sender: &Sender<T>, message: T) -> (r: Result<(), T>)
    ensures
        r matches Err(m) ==> m == message,
{
    match sender.send(message) {
        Ok(()) => Ok(()),
        Err(e) => Err(e.0),
    }
}

/// `crossbeam::channel::Receiver::recv`: blocks until a message comes (`Some`)
/// or every sender is gone (`None`). What comes depends on other threads.
#[verifier::external_body]
pub(crate) fn crossbeam_recv<T>(receiver: &Receiver<T>) -> Option<T> {
    receiver.recv().ok()
}

/// `crossbeam::channel::Receiver::try_recv`: a waiting message, or why there is
/// none. What comes depends on other threads.
#[verifier::external_body]
pub(crate) fn crossbeam_try_recv<T>(receiver: &Receiver<T>) -> Result<T, PollFailure> {
    match receiver.try_recv() {
        Ok(m) => Ok(m),
        Err(crossbeam::channel::TryRecvError::Empty) => Err(PollFailure::Empty),
        Err(crossbeam::channel::TryRecvError::Disconnected) => Err(PollFailure::Disconnected),
    }
}

/// Why a mailbox operation failed.
#[derive(Debug)]
pub enum MessagingError<SenderMessage> {
    /// The other mailbox is gone; the message that could not be sent.
    SendError { message: SenderMessage },
    /// Nothing could be taken without waiting.
    TryRecvError { error: PollFailure },
    /// The other mailbox is gone and no message is left.
    RecvError,
}

/// One end of a two-way channel: it sends `SenderMessage`s and receives
/// `ReceiverMessage`s.
#[verifier::reject_recursive_types(SenderMessage)]
#[verifier::reject_recursive_types(ReceiverMessage)]
#[derive(Clone)]
pub struct Mailbox<SenderMessage, ReceiverMessage> {
    sender: Sender<SenderMessage>,
    receiver: Receiver<ReceiverMessage>,
    peer: Ghost<Option<Sender<ReceiverMessage>>>,
}

impl<MessageA, MessageB> Mailbox<MessageA, MessageB> {
    /// Two mailboxes joined by two new channels: what one sends, the other
    /// receives. Each mailbox's receiving end was created together with the
    /// other mailbox's sending end.
    pub fn new_entangled_pair() -> (pair: (Mailbox<MessageA, MessageB>, Mailbox<MessageB, MessageA>))
        ensures
            pair.0.peer() == Some(pair.1.sender()),
            pair.1.peer() == Some(pair.0.sender()),
    {
        let (sender_a, receiver_a) = unbounded::<MessageA>();
        let (sender_b, receiver_b) = unbounded::<MessageB>();
        let ghost end_a = sender_a;
        let ghost end_b = sender_b;
        let mailbox_a = Mailbox { sender: sender_a, receiver: receiver_b, peer: Ghost(Some(end_b)) };
        let mailbox_b = Mailbox { sender: sender_b, receiver: receiver_a, peer: Ghost(Some(end_a)) };
        (mailbox_a, mailbox_b)
    }
}

impl<SenderMessage, ReceiverMessage> Mailbox<SenderMessage, ReceiverMessage> {
    /// The sending end.
    pub closed spec fn sender(&self) -> Sender<SenderMessage> {
        self.sender
    }

    /// The receiving end.
    pub closed spec fn receiver(&self) -> Receiver<ReceiverMessage> {
        self.receiver
    }

    /// The sending end created together with this mailbox's receiving end, when
    /// the mailbox was made with its channels; `None` for given ends.
    pub closed spec fn peer(&self) -> Option<Sender<ReceiverMessage>> {
        self.peer@
    }

    /// A mailbox over the given ends.
    pub fn new(sender: Sender<SenderMessage>, receiver: Receiver<ReceiverMessage>) -> (m: Self)
        ensures
            m.sender() == sender,
            m.receiver() == receiver,
            m.peer() is None,
    {
        Mailbox { sender, receiver, peer: Ghost(None) }
    }

    /// Sends `message`; on failure the message comes back in the error.
    pub fn send(&self, message: SenderMessage) -> (r: Result<(), MessagingError<SenderMessage>>)
        ensures
            r matches Err(e) ==> e == (MessagingError::SendError { message }),
    {
        match crossbeam_send(&self.sender, message) {
            Ok(()) => Ok(()),
            Err(message) => Err(MessagingError::SendError { message }),
        }
    }

    /// Waits for the next message.
    pub fn recv(&self) -> (r: Result<ReceiverMessage, MessagingError<SenderMessage>>)
        ensures
            r matches Err(e) ==> e is RecvError,
    {
        match crossbeam_recv(&self.receiver) {
            Some(m) => Ok(m),
            None => Err(MessagingError::RecvError),
        }
    }

    /// Takes the next message if one is waiting.
    pub fn try_recv(&self) -> (r: Result<ReceiverMessage, MessagingError<SenderMessage>>)
        ensures
            r matches Err(e) ==> e is TryRecvError,
    {
        match crossbeam_try_recv(&self.receiver) {
            Ok(m) => Ok(m),
            Err(error) => Err(MessagingError::TryRecvError { error }),
        }
    }

    /// Sends `message`, then waits for the next message; a failed send is
    /// returned without waiting.
    pub fn send_and_recv(&self, message: SenderMessage) -> (r: Result<ReceiverMessage, MessagingError<SenderMessage>>)
        ensures
            r matches Err(e) ==> (e == (MessagingError::SendError { message }) || e is RecvError),
    {
        match self.send(message) {
            Ok(()) => self.recv(),
            Err(e) => Err(e),
        }
    }
}

} // verus!
