//! The envelope that travels on the wire, and the events a node reacts to.

use vstd::prelude::*;

verus! {

/// A transmitted unit: who sent it, whom it is for, and what it says.
#[derive(Debug, Clone, PartialEq, Eq)]
pub struct Message<Payload> {
    pub src: String,
    pub dst: String,
    pub body: Body<Payload>,
}

/// The payload of an envelope with its correlation ids: `id` is the sender's
/// own number for this message, `in_reply_to` the number of the message that
/// it answers.
#[derive(Debug, Clone, PartialEq, Eq)]
pub struct Body<Payload> {
    pub id: Option<usize>,
    pub in_reply_to: Option<usize>,
    pub payload: Payload,
}

/// Everything a node may be asked to react to.
#[derive(Debug, Clone, PartialEq, Eq)]
pub enum Event<Payload, InjectedPayload = ()> {
    Message(Message<Payload>),
    Injected(InjectedPayload),
    EOF,
}

/// What the handshake tells a node: its own identity and the roster.
#[derive(Debug, Clone, PartialEq, Eq)]
pub struct Init {
    pub node_id: String,
    pub node_ids: Vec<String>,
}

/// The mathematical value of a [`Body`].
pub ghost struct BodyModel<P> {
    pub id: Option<usize>,
    pub in_reply_to: Option<usize>,
    pub payload: P,
}

/// The mathematical value of a [`Message`].
pub ghost struct MessageModel<P> {
    pub src: Seq<char>,
    pub dst: Seq<char>,
    pub body: BodyModel<P>,
}

/// The mathematical value of an [`Init`].
pub ghost struct InitModel {
    pub node_id: Seq<char>,
    pub node_ids: Seq<Seq<char>>,
}

impl<Payload: View> View for Body<Payload> {
    type V = BodyModel<Payload::V>;

    open spec fn view(&self) -> BodyModel<Payload::V> {
        BodyModel { id: self.id, in_reply_to: self.in_reply_to, payload: self.payload@ }
    }
}

impl<Payload: View> View for Message<Payload> {
    type V = MessageModel<Payload::V>;

    open spec fn view(&self) -> MessageModel<Payload::V> {
        MessageModel { src: self.src@, dst: self.dst@, body: self.body@ }
    }
}

impl View for Init {
    type V = InitModel;

    open spec fn view(&self) -> InitModel {
        InitModel {
            node_id: self.node_id@,
            node_ids: Seq::new(self.node_ids@.len(), |i: int| self.node_ids@[i]@),
        }
    }
}

/// The reply to `request`: source and destination swapped, `in_reply_to` set
/// to the request's id, the payload kept, and `id` as given.
pub open spec fn reply_to<P>(request: Message<P>, id: Option<usize>) -> Message<P> {
    Message {
        src: request.dst,
        dst: request.src,
        body: Body { id, in_reply_to: request.body.id, payload: request.body.payload },
    }
}

impl<Payload> Message<Payload> {
    /// Turns a request into its reply. Where a counter is supplied, the reply
    /// takes the counter's value as its id and the counter moves on by one.
    pub fn into_reply(self, id: Option<&mut usize>) -> (reply: Self)
        requires
            id matches Some(counter) ==> *counter < usize::MAX,
        ensures
            match id {
                Some(counter) => reply == reply_to(self, Some(*counter)) && *final(counter)
                    == *counter + 1,
                None => reply == reply_to(self, None),
            },
    {
        let reply_id = match id {
            Some(counter) => {
                let current: usize = *counter;
                *counter = current + 1;
                Some(current)
            },
            None => None,
        };
        Message {
            src: self.dst,
            dst: self.src,
            body: Body { id: reply_id, in_reply_to: self.body.id, payload: self.body.payload },
        }
    }
}

} // verus!
