use vstd::prelude::*;
use std::sync::mpsc::{Receiver, Sender};

verus! {

#[verifier::external_type_specification]
#[verifier::external_body]
#[verifier::reject_recursive_types(T)]
pub struct ExStdSender<T>(Sender<T>);

#[verifier::external_type_specification]
#[verifier::external_body]
#[verifier::reject_recursive_types(T)]
pub struct ExStdReceiver<T>(Receiver<T>);

/// Why nothing could be taken from a channel without waiting.
#[derive(Debug, Copy, Clone, PartialEq, Eq, Structural)]
pub enum PollFailure {
    /// No message is waiting, and the sending side is still connected.
    Empty,
    /// The sending side is gone and no message is left.
    Disconnected,
}

/// `std::sync::mpsc::channel`: a new unbounded channel. Nothing is promised of
/// the two ends beyond their types.
#[verifier::external_body]
pub(crate) fn channel<T>() -> (Sender<T>, Receiver<T>) {
    std::sync::mpsc::channel()
}

/// `std::sync::mpsc::Sender::send`. It fails only when the receiving side is gone,
/// and then hands the message back; whether it is gone depends on another thread,
/// so nothing is promised of which outcome comes.
#[verifier::external_body]
pub(crate) fn channel_send<T>(sender: &Sender<T>, message: T) -> (r: Result<(), T>)
    ensures
        r matches Err(m) ==> m == message,
{
    match sender.send(message) {
        Ok(()) => Ok(()),
        Err(e) => Err(e.0),
    }
}

/// `std::sync::mpsc::Receiver::recv`: blocks until a message comes (`Some`) or the
/// sending side is gone (`None`). What comes depends on another thread.
#[verifier::external_body]
pub(crate) fn channel_recv<T>(receiver: &Receiver<T>) -> Option<T> {
    receiver.recv().ok()
}

/// `std::sync::mpsc::Receiver::try_recv`: a waiting message, or why there is none.
/// What comes depends on another thread.
#[verifier::external_body]
pub(crate) fn channel_try_recv<T>(receiver: &Receiver<T>) -> Result<T, PollFailure> {
    match receiver.try_recv() {
        Ok(m) => Ok(m),
        Err(std::sync::mpsc::TryRecvError::Empty) => Err(PollFailure::Empty),
        Err(std::sync::mpsc::TryRecvError::Disconnected) => Err(PollFailure::Disconnected),
    }
}

/// Why a mailbox operation failed.
#[derive(Debug)]
pub enum MessagingError<SenderMessage> {
    /// The other mailbox is gone; the message that could not be sent.
    SendError { message: SenderMessage },
    /// Nothing could be taken without waiting.
    PollError { error: PollFailure },
    /// The other mailbox is gone and no message is left.
    WaitError,
}

/// One end of a two-way channel: it sends `SenderMessage`s and receives
/// `ReceiverMessage`s.
#[verifier::reject_recursive_types(SenderMessage)]
#[verifier::reject_recursive_types(ReceiverMessage)]
pub struct Mailbox<SenderMessage, ReceiverMessage> {
    sender: Sender<SenderMessage>,
    receiver: Receiver<ReceiverMessage>,
    peer: Ghost<Option<Sender<ReceiverMessage>>>,
    received_log: Ghost<Seq<ReceiverMessage>>,
    hang_ups: Ghost<nat>,
}

impl<MessageA, MessageB> Mailbox<MessageA, MessageB> {
    /// Two mailboxes joined by two new channels: what one sends, the other
    /// receives. Each mailbox's receiving end was created together with the
    /// other mailbox's sending end, and neither has received anything.
    pub fn new_entangled_pair() -> (pair: (Mailbox<MessageA, MessageB>, Mailbox<MessageB, MessageA>))
        ensures
            pair.0.peer() == Some(pair.1.sender()),
            pair.1.peer() == Some(pair.0.sender()),
            pair.0.received() == Seq::<MessageB>::empty(),
            pair.1.received() == Seq::<MessageA>::empty(),
            pair.0.hang_ups_seen() == 0,
            pair.1.hang_ups_seen() == 0,
    {
        let (sender_a, receiver_a) = channel::<MessageA>();
        let (sender_b, receiver_b) = channel::<MessageB>();
        let ghost end_a = sender_a;
        let ghost end_b = sender_b;
        let mailbox_a = Mailbox {
            sender: sender_a,
            receiver: receiver_b,
            peer: Ghost(Some(end_b)),
            received_log: Ghost(Seq::empty()),
            hang_ups: Ghost(0),
        };
        let mailbox_b = Mailbox {
            sender: sender_b,
            receiver: receiver_a,
            peer: Ghost(Some(end_a)),
            received_log: Ghost(Seq::empty()),
            hang_ups: Ghost(0),
        };
        (mailbox_a, mailbox_b)
    }
}

impl<SenderMessage, ReceiverMessage> Mailbox<SenderMessage, ReceiverMessage> {
    /// The sending end.
    pub closed spec fn sender(&self) -> Sender<SenderMessage> {
        self.sender
    }

    /// The receiving end.
    pub closed spec fn receiver(&self) -> Receiver<ReceiverMessage> {
        self.receiver
    }

    /// The sending end created together with this mailbox's receiving end, when
    /// the mailbox was made with its channels; `None` for given ends.
    pub closed spec fn peer(&self) -> Option<Sender<ReceiverMessage>> {
        self.peer@
    }

    /// Every message taken from the receiving end, oldest first.
    pub closed spec fn received(&self) -> Seq<ReceiverMessage> {
        self.received_log@
    }

    /// How many times this mailbox found the sending side of its receiving end
    /// gone with no message left.
    pub closed spec fn hang_ups_seen(&self) -> nat {
        self.hang_ups@
    }

    /// What a blocking wait does: it takes the next message, or, only when the
    /// other side has hung up and nothing is left, fails with `WaitError`. The
    /// ends stay the same.
    pub open spec fn wait_outcome(
        before: Self,
        after: Self,
        r: Result<ReceiverMessage, MessagingError<SenderMessage>>,
    ) -> bool {
        &&& after.same_ends(&before)
        &&& match r {
            Ok(m) => {
                &&& after.received() == before.received().push(m)
                &&& after.hang_ups_seen() == before.hang_ups_seen()
            },
            Err(e) => {
                &&& e is WaitError
                &&& after.received() == before.received()
                &&& after.hang_ups_seen() == before.hang_ups_seen() + 1
            },
        }
    }

    /// Whether `other` is the same mailbox apart from what it has received.
    pub open spec fn same_ends(&self, other: &Self) -> bool {
        &&& self.sender() == other.sender()
        &&& self.receiver() == other.receiver()
        &&& self.peer() == other.peer()
    }

    /// A mailbox over the given ends, that has received nothing.
    pub fn new(sender: Sender<SenderMessage>, receiver: Receiver<ReceiverMessage>) -> (m: Self)
        ensures
            m.sender() == sender,
            m.receiver() == receiver,
            m.peer() is None,
            m.received() == Seq::<ReceiverMessage>::empty(),
            m.hang_ups_seen() == 0,
    {
        Mailbox {
            sender,
            receiver,
            peer: Ghost(None),
            received_log: Ghost(Seq::empty()),
            hang_ups: Ghost(0),
        }
    }

    /// Sends `message`; on failure the message comes back in the error.
    pub fn send(&self, message: SenderMessage) -> (r: Result<(), MessagingError<SenderMessage>>)
        ensures
            r matches Err(e) ==> e == (MessagingError::SendError { message }),
    {
        match channel_send(&self.sender, message) {
            Ok(()) => Ok(()),
            Err(message) => Err(MessagingError::SendError { message }),
        }
    }

    /// Waits for the next message and records it as received.
    pub fn wait(&mut self) -> (r: Result<ReceiverMessage, MessagingError<SenderMessage>>)
        ensures
            final(self).same_ends(old(self)),
            r matches Ok(m) ==> final(self).received() == old(self).received().push(m),
            r is Err ==> r == Err::<ReceiverMessage, MessagingError<SenderMessage>>(MessagingError::WaitError),
            r is Err ==> final(self).received() == old(self).received(),
            Self::wait_outcome(*old(self), *final(self), r),
    {
        match channel_recv(&self.receiver) {
            Some(m) => {
                proof {
                    self.received_log@ = self.received_log@.push(m);
                }
                Ok(m)
            },
            None => {
                proof {
                    self.hang_ups@ = self.hang_ups@ + 1;
                }
                Err(MessagingError::WaitError)
            },
        }
    }

    /// Takes the next message if one is waiting, and records it as received.
    pub fn poll(&mut self) -> (r: Result<ReceiverMessage, MessagingError<SenderMessage>>)
        ensures
            final(self).same_ends(old(self)),
            r matches Ok(m) ==> final(self).received() == old(self).received().push(m),
            r matches Err(e) ==> e is PollError,
            r is Err ==> final(self).received() == old(self).received(),
            r matches Err(MessagingError::PollError { error }) && error is Disconnected
                ==> final(self).hang_ups_seen() == old(self).hang_ups_seen() + 1,
            !(r matches Err(MessagingError::PollError { error }) && error is Disconnected)
                ==> final(self).hang_ups_seen() == old(self).hang_ups_seen(),
    {
        match channel_try_recv(&self.receiver) {
            Ok(m) => {
                proof {
                    self.received_log@ = self.received_log@.push(m);
                }
                Ok(m)
            },
            Err(PollFailure::Empty) => Err(MessagingError::PollError { error: PollFailure::Empty }),
            Err(PollFailure::Disconnected) => {
                proof {
                    self.hang_ups@ = self.hang_ups@ + 1;
                }
                Err(MessagingError::PollError { error: PollFailure::Disconnected })
            },
        }
    }

    /// Sends `message`, then waits for the next message; a failed send is
    /// returned without waiting, so nothing is received then.
    pub fn send_and_wait(&mut self, message: SenderMessage) -> (r: Result<ReceiverMessage, MessagingError<SenderMessage>>)
        ensures
            final(self).same_ends(old(self)),
            r matches Ok(m) ==> final(self).received() == old(self).received().push(m),
            r matches Err(e) ==> (e == (MessagingError::SendError { message }) || e is WaitError),
            r is Err ==> final(self).received() == old(self).received(),
            r matches Err(e) && e is SendError ==> *final(self) == *old(self),
            !(r matches Err(e) && e is SendError) ==> Self::wait_outcome(*old(self), *final(self), r),
    {
        match self.send(message) {
            Ok(()) => self.wait(),
            Err(e) => Err(e),
        }
    }
}

/// A blocking wait fails only because the other side hung up with nothing
/// left: never merely because no message had come yet. Then it fails with
/// `WaitError` and has seen one more hang-up; otherwise it has received one
/// more message.
pub proof fn lemma_wait_fails_only_on_hang_up<S, R>(
    before: Mailbox<S, R>,
    after: Mailbox<S, R>,
    r: Result<R, MessagingError<S>>,
)
    requires
        Mailbox::wait_outcome(before, after, r),
    ensures
        r is Err <==> after.hang_ups_seen() == before.hang_ups_seen() + 1,
        r is Err ==> r matches Err(MessagingError::WaitError),
        r is Ok <==> after.received().len() == before.received().len() + 1,
{
}

} // verus!
