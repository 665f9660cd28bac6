//! The hand-off channel: a first-in, first-out queue of tooltip texts that
//! decouples the sampling cadence from the cadence of the UI loop.
//!
//! Neither end ever blocks. The producer appends, the consumer polls. Once
//! the consumer end is gone the channel refuses what it is sent and hands
//! the text back.

use std::collections::VecDeque;
use vstd::prelude::*;

verus! {

/// The text that could not be sent because the consumer end is gone.
#[derive(Debug, PartialEq, Eq)]
pub struct SendError {
    /// The rejected message, handed back to the sender.
    pub message: String,
}

/// A queue of tooltip texts between one consumer and its producers.
pub struct HandoffChannel {
    queue: VecDeque<String>,
    connected: bool,
}

/// The pending messages after `message` has been sent.
pub open spec fn queue_after_send(queue: Seq<Seq<char>>, connected: bool, message: Seq<char>) -> Seq<
    Seq<char>,
> {
    if connected {
        queue.push(message)
    } else {
        queue
    }
}

/// What one poll hands out: the oldest pending message, if there is any.
pub open spec fn polled(queue: Seq<Seq<char>>) -> Option<Seq<char>> {
    if queue.len() > 0 {
        Some(queue[0])
    } else {
        None
    }
}

/// The pending messages after one poll: at most one message leaves.
pub open spec fn queue_after_poll(queue: Seq<Seq<char>>) -> Seq<Seq<char>> {
    if queue.len() > 0 {
        queue.drop_first()
    } else {
        queue
    }
}

impl View for HandoffChannel {
    type V = Seq<Seq<char>>;

    /// The messages sent and not yet received, in send order.
    closed spec fn view(&self) -> Seq<Seq<char>> {
        self.queue.deep_view()
    }
}

impl HandoffChannel {
    /// Whether the consumer end is still there.
    pub closed spec fn connected(&self) -> bool {
        self.connected
    }

    /// A channel with nothing pending and its consumer in place.
    pub fn new() -> (channel: HandoffChannel)
        ensures
            channel@ == Seq::<Seq<char>>::empty(),
            channel.connected(),
    {
        let channel = HandoffChannel { queue: VecDeque::new(), connected: true };
        channel
    }

    /// Whether the consumer end is still there.
    pub fn is_connected(&self) -> (connected: bool)
        ensures
            connected == self.connected(),
    {
        self.connected
    }

    /// The number of messages sent and not yet received.
    pub fn pending(&self) -> (count: usize)
        ensures
            count == self@.len(),
    {
        self.queue.len()
    }

    /// Appends `message` behind everything already pending. Fails only when
    /// the consumer end is gone: the channel is then left as it was and the
    /// message comes back in the error.
    pub fn send(&mut self, message: String) -> (sent: Result<(), SendError>)
        ensures
            sent is Ok <==> old(self).connected(),
            sent is Err ==> sent->Err_0.message == message,
            final(self)@ == queue_after_send(old(self)@, old(self).connected(), message@),
            final(self).connected() == old(self).connected(),
    {
        if self.connected {
            self.queue.push_back(message);
            Ok(())
        } else {
            Err(SendError { message })
        }
    }

    /// Takes the oldest pending message, if there is one. Never waits.
    pub fn try_receive(&mut self) -> (received: Option<String>)
        ensures
            (match received {
                Some(message) => polled(old(self)@) == Some(message@),
                None => polled(old(self)@) is None,
            }),
            final(self)@ == queue_after_poll(old(self)@),
            final(self).connected() == old(self).connected(),
    {
        let received = self.queue.pop_front();
        received
    }

    /// Drops the consumer end. What was pending is lost with it, and every
    /// later send fails.
    pub fn disconnect(&mut self)
        ensures
            !final(self).connected(),
            final(self)@ == Seq::<Seq<char>>::empty(),
    {
        self.queue.clear();
        self.connected = false;
    }
}

/// One use of a connected channel, by either end.
pub enum ChannelOp {
    /// The producer sends a message.
    Send { message: Seq<char> },
    /// The consumer polls once.
    Poll,
}

/// The messages that `ops` send, in order.
pub open spec fn sent_by(ops: Seq<ChannelOp>) -> Seq<Seq<char>>
    decreases ops.len(),
{
    if ops.len() == 0 {
        Seq::empty()
    } else {
        match ops.last() {
            ChannelOp::Send { message } => sent_by(ops.drop_last()).push(message),
            ChannelOp::Poll => sent_by(ops.drop_last()),
        }
    }
}

/// What is pending after `ops` have run on a connected channel that held `queue`.
pub open spec fn pending_after(queue: Seq<Seq<char>>, ops: Seq<ChannelOp>) -> Seq<Seq<char>>
    decreases ops.len(),
{
    if ops.len() == 0 {
        queue
    } else {
        let before = pending_after(queue, ops.drop_last());
        match ops.last() {
            ChannelOp::Send { message } => queue_after_send(before, true, message),
            ChannelOp::Poll => queue_after_poll(before),
        }
    }
}

/// The messages that the polls among `ops` hand out, in order, on a
/// connected channel that held `queue`.
pub open spec fn received_by(queue: Seq<Seq<char>>, ops: Seq<ChannelOp>) -> Seq<Seq<char>>
    decreases ops.len(),
{
    if ops.len() == 0 {
        Seq::empty()
    } else {
        let earlier = received_by(queue, ops.drop_last());
        match ops.last() {
            ChannelOp::Send { .. } => earlier,
            ChannelOp::Poll => match polled(pending_after(queue, ops.drop_last())) {
                Some(message) => earlier.push(message),
                None => earlier,
            },
        }
    }
}

/// Delivery is in send order. However sends and polls interleave, what the
/// consumer has received, followed by what is still pending, is what the
/// channel held at first followed by what was sent since: no message is
/// lost, doubled or overtaken.
pub proof fn lemma_delivery_in_send_order(queue: Seq<Seq<char>>, ops: Seq<ChannelOp>)
    ensures
        received_by(queue, ops) + pending_after(queue, ops) == queue + sent_by(ops),
    decreases ops.len(),
{
    if ops.len() > 0 {
        let earlier = ops.drop_last();
        lemma_delivery_in_send_order(queue, earlier);
        match ops.last() {
            ChannelOp::Send { message } => {
                let got = received_by(queue, earlier);
                let before = pending_after(queue, earlier);
                assert(got + before.push(message) =~= (got + before).push(message));
            },
            ChannelOp::Poll => {},
        }
    }
}

} // verus!
