use vstd::prelude::*;
use std::sync::mpsc::{Receiver, Sender};
use crate::messaging::{channel_recv, channel_send};

verus! {

/// What the render loop tells the game loop.
#[derive(Debug, Copy, Clone, PartialEq, Eq, Structural)]
pub enum RenderLoopMessage {
    SyncWithGame,
}

/// What the game loop tells the render loop.
#[derive(Debug, Copy, Clone, PartialEq, Eq, Structural)]
pub enum GameLoopMessage {
    SyncWithRenderer,
    RenderData {},
    Exit,
}

/// The other side of a messenger is gone and no reply is left.
#[derive(Debug, Copy, Clone, PartialEq, Eq, Structural)]
pub struct Disconnected;

/// Whether the render loop stops on this reply of the game loop: only on `Exit`.
pub open spec fn is_exit_reply(reply: GameLoopMessage) -> bool {
    reply == GameLoopMessage::Exit
}

/// Whether the render loop stops on this reply of the game loop: only on `Exit`;
/// a sync or new render data keeps it going.
pub fn renderer_should_exit(reply: &GameLoopMessage) -> (r: bool)
    ensures
        r == is_exit_reply(*reply),
{
    match reply {
        GameLoopMessage::Exit => true,
        _ => false,
    }
}

/// The render loop's end of the channels between the two loops, with a
/// record of what it has handed to its sender and taken from its receiver.
pub struct RendererMessenger {
    sender: Sender<RenderLoopMessage>,
    reciever: Receiver<GameLoopMessage>,
    sent_log: Ghost<Seq<RenderLoopMessage>>,
    received_log: Ghost<Seq<GameLoopMessage>>,
}

impl RendererMessenger {
    /// The sending end.
    pub closed spec fn sender(&self) -> Sender<RenderLoopMessage> {
        self.sender
    }

    /// The receiving end.
    pub closed spec fn reciever(&self) -> Receiver<GameLoopMessage> {
        self.reciever
    }

    /// The messenger's own record of every message it handed over to its
    /// sending end, oldest first;
    /// whether it reached the game loop is not recorded.
    pub closed spec fn sent(&self) -> Seq<RenderLoopMessage> {
        self.sent_log@
    }

    /// The messenger's own record of every message it took from its receiving
    /// end, oldest first.
    pub closed spec fn received(&self) -> Seq<GameLoopMessage> {
        self.received_log@
    }

    /// A messenger over the given ends, that has sent and received nothing.
    pub fn new(sender: Sender<RenderLoopMessage>, reciever: Receiver<GameLoopMessage>) -> (m: Self)
        ensures
            m.sender() == sender,
            m.reciever() == reciever,
            m.sent() == Seq::<RenderLoopMessage>::empty(),
            m.received() == Seq::<GameLoopMessage>::empty(),
    {
        RendererMessenger { sender, reciever, sent_log: Ghost(Seq::empty()), received_log: Ghost(Seq::empty()) }
    }

    /// Sends `message`; a failed send (the game loop is gone) is dropped.
    pub fn send(&mut self, message: RenderLoopMessage)
        ensures
            final(self).sender() == old(self).sender(),
            final(self).reciever() == old(self).reciever(),
            final(self).sent() == old(self).sent().push(message),
            final(self).received() == old(self).received(),
    {
        let ghost handed = message;
        let _ = channel_send(&self.sender, message);
        proof {
            self.sent_log@ = self.sent_log@.push(handed);
        }
    }

    /// Sends `message` (a failed send is dropped), then waits for the game
    /// loop's reply, which it returns; fails when the game loop is gone and no
    /// reply is left.
    pub fn send_and_sync(&mut self, message: RenderLoopMessage) -> (r: Result<GameLoopMessage, Disconnected>)
        ensures
            final(self).sender() == old(self).sender(),
            final(self).reciever() == old(self).reciever(),
            final(self).sent() == old(self).sent().push(message),
            r matches Ok(reply) ==> final(self).received() == old(self).received().push(reply),
            r is Err ==> final(self).received() == old(self).received(),
    {
        self.send(message);
        match channel_recv(&self.reciever) {
            Some(reply) => {
                proof {
                    self.received_log@ = self.received_log@.push(reply);
                }
                Ok(reply)
            },
            None => Err(Disconnected),
        }
    }

    /// Asks the game loop to sync (`SyncWithGame`) and waits for its reply.
    pub fn sync_and_recieve(&mut self) -> (r: Result<GameLoopMessage, Disconnected>)
        ensures
            final(self).sender() == old(self).sender(),
            final(self).reciever() == old(self).reciever(),
            final(self).sent() == old(self).sent().push(RenderLoopMessage::SyncWithGame),
            r matches Ok(reply) ==> final(self).received() == old(self).received().push(reply),
            r is Err ==> final(self).received() == old(self).received(),
    {
        self.send_and_sync(RenderLoopMessage::SyncWithGame)
    }
}

/// The game loop's end of the channels between the two loops, with a
/// record of what it has handed to its sender and taken from its receiver.
pub struct GameMessenger {
    sender: Sender<GameLoopMessage>,
    reciever: Receiver<RenderLoopMessage>,
    sent_log: Ghost<Seq<GameLoopMessage>>,
    received_log: Ghost<Seq<RenderLoopMessage>>,
}

impl GameMessenger {
    /// The sending end.
    pub closed spec fn sender(&self) -> Sender<GameLoopMessage> {
        self.sender
    }

    /// The receiving end.
    pub closed spec fn reciever(&self) -> Receiver<RenderLoopMessage> {
        self.reciever
    }

    /// The messenger's own record of every message it handed over to its
    /// sending end, oldest first;
    /// whether it reached the render loop is not recorded.
    pub closed spec fn sent(&self) -> Seq<GameLoopMessage> {
        self.sent_log@
    }

    /// The messenger's own record of every message it took from its receiving
    /// end, oldest first.
    pub closed spec fn received(&self) -> Seq<RenderLoopMessage> {
        self.received_log@
    }

    /// A messenger over the given ends, that has sent and received nothing.
    pub fn new(sender: Sender<GameLoopMessage>, reciever: Receiver<RenderLoopMessage>) -> (m: Self)
        ensures
            m.sender() == sender,
            m.reciever() == reciever,
            m.sent() == Seq::<GameLoopMessage>::empty(),
            m.received() == Seq::<RenderLoopMessage>::empty(),
    {
        GameMessenger { sender, reciever, sent_log: Ghost(Seq::empty()), received_log: Ghost(Seq::empty()) }
    }

    /// Sends `message`; a failed send (the render loop is gone) is dropped.
    pub fn send(&mut self, message: GameLoopMessage)
        ensures
            final(self).sender() == old(self).sender(),
            final(self).reciever() == old(self).reciever(),
            final(self).sent() == old(self).sent().push(message),
            final(self).received() == old(self).received(),
    {
        let ghost handed = message;
        let _ = channel_send(&self.sender, message);
        proof {
            self.sent_log@ = self.sent_log@.push(handed);
        }
    }

    /// Sends `message` (a failed send is dropped), then waits for the render
    /// loop's reply, which it returns; fails when the render loop is gone and no
    /// reply is left.
    pub fn send_and_sync(&mut self, message: GameLoopMessage) -> (r: Result<RenderLoopMessage, Disconnected>)
        ensures
            final(self).sender() == old(self).sender(),
            final(self).reciever() == old(self).reciever(),
            final(self).sent() == old(self).sent().push(message),
            r matches Ok(reply) ==> final(self).received() == old(self).received().push(reply),
            r is Err ==> final(self).received() == old(self).received(),
    {
        self.send(message);
        match channel_recv(&self.reciever) {
            Some(reply) => {
                proof {
                    self.received_log@ = self.received_log@.push(reply);
                }
                Ok(reply)
            },
            None => Err(Disconnected),
        }
    }

    /// Asks the render loop to sync (`SyncWithRenderer`) and waits for its reply.
    pub fn sync_and_recieve(&mut self) -> (r: Result<RenderLoopMessage, Disconnected>)
        ensures
            final(self).sender() == old(self).sender(),
            final(self).reciever() == old(self).reciever(),
            final(self).sent() == old(self).sent().push(GameLoopMessage::SyncWithRenderer),
            r matches Ok(reply) ==> final(self).received() == old(self).received().push(reply),
            r is Err ==> final(self).received() == old(self).received(),
    {
        self.send_and_sync(GameLoopMessage::SyncWithRenderer)
    }
}

} // verus!
