//! The writer: the one path by which a node speaks, and the table of replies
//! that it waits for.
//!
//! A writer performs no I/O. What it is asked to send it queues as lines, for
//! the host to write out in order. A request sent with a callback registers
//! the callback under the request's id; the reply that names that id is handed
//! to the callback, once, and the entry is gone.

use crate::json::Members;
use crate::message::{Message, MessageModel};
use crate::wire::{encode_line, message_line, Fields};
use std::collections::HashMap;
use std::sync::mpsc::Sender;
use vstd::prelude::*;

verus! {

/// `std::sync::mpsc::Sender`, the sending half of a channel. A sender is only
/// kept and handed on; nothing is claimed of it.
#[verifier::external_type_specification]
#[verifier::external_body]
#[verifier::reject_recursive_types(T)]
pub struct ExSender<T>(Sender<T>);

/// Why a message could not be sent.
#[derive(Debug, Clone, Copy, PartialEq, Eq)]
pub enum WriteError {
    /// The message could not be written as text.
    Encode,
    /// The outbound stream refused the line.
    Sink,
}

/// What a node is given to speak with.
pub trait MessageWriter<Payload> {
    /// Sends a message.
    fn write(&mut self, message: &Message<Payload>) -> Result<(), WriteError>;

    /// Sends a request and registers `callback` for its reply.
    fn write_with_callback(
        &mut self,
        message: &Message<Payload>,
        callback: Sender<Message<Payload>>,
    ) -> Result<(), WriteError>
        requires
            message.body.id is Some,
    ;

    /// Whether a callback waits for this message.
    fn callback_exists(&self, message: &Message<Payload>) -> bool;

    /// Hands the message to the callback that waits for it, if one does.
    fn send_callback(&mut self, message: Message<Payload>) -> Result<(), WriteError>;
}

/// Whether a message that answers `in_reply_to` is awaited.
pub open spec fn is_awaited<W>(pending: Map<usize, W>, in_reply_to: Option<usize>) -> bool {
    in_reply_to matches Some(id) && pending.contains_key(id)
}

/// The table once a message that answers `in_reply_to` has been delivered:
/// without the entry that waited for it, or unchanged where none did.
pub open spec fn after_delivery<W>(pending: Map<usize, W>, in_reply_to: Option<usize>) -> Map<
    usize,
    W,
> {
    match in_reply_to {
        Some(id) => pending.remove(id),
        None => pending,
    }
}

/// The lines of a queue.
pub open spec fn lines_view(lines: Seq<String>) -> Seq<Seq<char>> {
    Seq::new(lines.len(), |i: int| lines[i]@)
}

/// The queue once a message has been written to it: one line longer, or
/// unchanged where the message has no text.
pub open spec fn after_write(outbound: Seq<Seq<char>>, message: MessageModel<Members>) -> Seq<
    Seq<char>,
> {
    match message_line(message) {
        Some(line) => outbound.push(line),
        None => outbound,
    }
}

/// Hands `message` to `callback` with `std::sync::mpsc::Sender::send`, which
/// does not block, and drops what `send` returns: a receiver that has gone
/// away is no error.
#[verifier::external_body]
fn hand_over<T>(callback: Sender<T>, message: T) {
    let _ = callback.send(message);
}

/// A writer that queues its lines for the standard output. What is sent comes
/// with its payload as wire fields; `Payload` is the payload of the replies
/// that the callbacks receive.
#[verifier::reject_recursive_types(Payload)]
pub struct StdoutWriter<Payload> {
    callbacks: HashMap<usize, Sender<Message<Payload>>>,
    outbox: Vec<String>,
}

impl<Payload> StdoutWriter<Payload> {
    /// The callbacks that wait, each under the id of its request.
    pub closed spec fn pending(&self) -> Map<usize, Sender<Message<Payload>>> {
        self.callbacks@
    }

    /// The lines queued and not yet taken, oldest first.
    pub closed spec fn outbound(&self) -> Seq<Seq<char>> {
        lines_view(self.outbox@)
    }

    /// A writer with nothing pending and nothing queued.
    pub fn new() -> (writer: Self)
        ensures
            writer.pending() == Map::<usize, Sender<Message<Payload>>>::empty(),
            writer.outbound() == Seq::<Seq<char>>::empty(),
    {
        let writer = StdoutWriter { callbacks: HashMap::new(), outbox: Vec::new() };
        assert(writer.outbound() =~= Seq::<Seq<char>>::empty());
        writer
    }

    /// Queues the line of `message`. Fails, and queues nothing, where the
    /// message has no text.
    pub fn write(&mut self, message: &Message<Fields>) -> (outcome: Result<(), WriteError>)
        ensures
            final(self).pending() == old(self).pending(),
            final(self).outbound() == after_write(old(self).outbound(), message@),
            match outcome {
                Ok(_) => message_line(message@) is Some,
                Err(error) => error == WriteError::Encode && message_line(message@) is None,
            },
    {
        match encode_line(message) {
            Some(line) => {
                self.outbox.push(line);
                assert(self.outbound() =~= old(self).outbound().push(line@));
                Ok(())
            },
            None => Err(WriteError::Encode),
        }
    }

    /// Registers `callback` under the id of `message`, then queues the line of
    /// `message` as `write` does. The callback is registered whether or not
    /// the line could be queued, and takes the place of one registered before
    /// under the same id.
    pub fn write_with_callback(
        &mut self,
        message: &Message<Fields>,
        callback: Sender<Message<Payload>>,
    ) -> (outcome: Result<(), WriteError>)
        requires
            message.body.id is Some,
        ensures
            final(self).pending() == old(self).pending().insert(message.body.id->0, callback),
            final(self).outbound() == after_write(old(self).outbound(), message@),
            match outcome {
                Ok(_) => message_line(message@) is Some,
                Err(error) => error == WriteError::Encode && message_line(message@) is None,
            },
    {
        match message.body.id {
            Some(id) => {
                self.callbacks.insert(id, callback);
                self.write(message)
            },
            None => Err(WriteError::Encode),
        }
    }

    /// Whether `message` answers a request whose callback still waits.
    pub fn callback_exists(&self, message: &Message<Payload>) -> (exists: bool)
        ensures
            exists == is_awaited(self.pending(), message.body.in_reply_to),
    {
        match message.body.in_reply_to {
            Some(id) => self.callbacks.contains_key(&id),
            None => false,
        }
    }

    /// Takes the callback that waits for `message` out of the table.
    pub fn take_callback(&mut self, message: &Message<Payload>) -> (callback: Option<
        Sender<Message<Payload>>,
    >)
        ensures
            final(self).outbound() == old(self).outbound(),
            final(self).pending() == after_delivery(old(self).pending(), message.body.in_reply_to),
            match callback {
                Some(callback) => is_awaited(old(self).pending(), message.body.in_reply_to)
                    && callback == old(self).pending()[message.body.in_reply_to->0],
                None => !is_awaited(old(self).pending(), message.body.in_reply_to),
            },
    {
        match message.body.in_reply_to {
            Some(id) => self.callbacks.remove(&id),
            None => None,
        }
    }

    /// Delivers a reply: where a callback waits for `message`, takes it out of
    /// the table and hands it the message; otherwise does nothing. Never
    /// fails.
    pub fn send_callback(&mut self, message: Message<Payload>) -> (outcome: Result<
        (),
        WriteError,
    >)
        ensures
            outcome is Ok,
            final(self).outbound() == old(self).outbound(),
            final(self).pending() == after_delivery(old(self).pending(), message.body.in_reply_to),
    {
        match self.take_callback(&message) {
            Some(callback) => {
                hand_over(callback, message);
            },
            None => {},
        }
        Ok(())
    }

    /// Queues a line as it stands.
    pub(crate) fn queue(&mut self, line: String)
        ensures
            final(self).pending() == old(self).pending(),
            final(self).outbound() == old(self).outbound().push(line@),
    {
        self.outbox.push(line);
        assert(self.outbound() =~= old(self).outbound().push(line@));
    }

    /// Takes the queued lines, oldest first, and leaves the queue empty.
    pub fn drain(&mut self) -> (lines: Vec<String>)
        ensures
            lines_view(lines@) == old(self).outbound(),
            final(self).outbound() == Seq::<Seq<char>>::empty(),
            final(self).pending() == old(self).pending(),
    {
        let mut lines: Vec<String> = Vec::new();
        std::mem::swap(&mut self.outbox, &mut lines);
        assert(self.outbound() =~= Seq::<Seq<char>>::empty());
        lines
    }
}

impl MessageWriter<Fields> for StdoutWriter<Fields> {
    fn write(&mut self, message: &Message<Fields>) -> (outcome: Result<(), WriteError>)
        ensures
            final(self).pending() == old(self).pending(),
            final(self).outbound() == after_write(old(self).outbound(), message@),
            match outcome {
                Ok(_) => message_line(message@) is Some,
                Err(error) => error == WriteError::Encode && message_line(message@) is None,
            },
    {
        StdoutWriter::write(self, message)
    }

    fn write_with_callback(
        &mut self,
        message: &Message<Fields>,
        callback: Sender<Message<Fields>>,
    ) -> (outcome: Result<(), WriteError>)
        ensures
            final(self).pending() == old(self).pending().insert(message.body.id->0, callback),
            final(self).outbound() == after_write(old(self).outbound(), message@),
            match outcome {
                Ok(_) => message_line(message@) is Some,
                Err(error) => error == WriteError::Encode && message_line(message@) is None,
            },
    {
        StdoutWriter::write_with_callback(self, message, callback)
    }

    fn callback_exists(&self, message: &Message<Fields>) -> (exists: bool)
        ensures
            exists == is_awaited(self.pending(), message.body.in_reply_to),
    {
        StdoutWriter::callback_exists(self, message)
    }

    fn send_callback(&mut self, message: Message<Fields>) -> (outcome: Result<(), WriteError>)
        ensures
            outcome is Ok,
            final(self).outbound() == old(self).outbound(),
            final(self).pending() == after_delivery(old(self).pending(), message.body.in_reply_to),
    {
        StdoutWriter::send_callback(self, message)
    }
}

/// Delivering a message that nothing waits for leaves the table as it was.
pub proof fn lemma_unawaited_delivery<W>(pending: Map<usize, W>, in_reply_to: Option<usize>)
    requires
        !is_awaited(pending, in_reply_to),
    ensures
        after_delivery(pending, in_reply_to) == pending,
{
    assert(after_delivery(pending, in_reply_to) =~= pending);
}

/// Correlation exactness. Once a callback is registered under `id`: a message
/// that answers `id` is awaited; after its delivery a second one is not, and
/// delivering that one changes nothing; and the delivery of a message that
/// answers another id leaves the callback waiting.
pub proof fn lemma_correlation_exactness<W>(pending: Map<usize, W>, id: usize, callback: W)
    ensures
        ({
            let registered = pending.insert(id, callback);
            let delivered = after_delivery(registered, Some(id));
            &&& is_awaited(registered, Some(id))
            &&& registered[id] == callback
            &&& !is_awaited(delivered, Some(id))
            &&& after_delivery(delivered, Some(id)) == delivered
            &&& forall|other: usize|
                other != id ==> is_awaited(
                    #[trigger] after_delivery(registered, Some(other)),
                    Some(id),
                )
        }),
{
    let registered = pending.insert(id, callback);
    let delivered = after_delivery(registered, Some(id));
    assert(after_delivery(delivered, Some(id)) =~= delivered);
}

} // verus!
