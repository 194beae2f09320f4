//! The runtime's decisions: what becomes of every inbound line.
//!
//! A runtime passes through three phases. It begins in the handshake, which
//! the first line completes or fails. While it runs, every inbound envelope is
//! either a reply that a callback waits for, and is handed to that callback,
//! or an event for the node, and is forwarded; the order of the forwarded
//! events is the order of arrival. The end of input is forwarded once, and
//! closes the runtime.
//!
//! The host owns the streams and the threads. It reads the lines, asks the
//! runtime what to do with each, passes forwarded events to the node one at a
//! time, and writes out the lines that the writer queued.

use crate::handshake::{init_outcome, run_init, InitError};
use crate::message::{Event, Init, Message};
use crate::wire::{decode_line, line_message, DecodeError, Fields};
use crate::writers::{
    after_delivery, is_awaited, lemma_unawaited_delivery, MessageWriter, StdoutWriter, WriteError,
};
use std::sync::mpsc::Sender;
use vstd::prelude::*;

verus! {

/// Why the runtime, or a node, stopped.
#[derive(Debug, Clone, PartialEq, Eq)]
pub enum Error {
    /// The handshake failed.
    Startup(InitError),
    /// An inbound line is not an envelope.
    Decode(DecodeError),
    /// A message could not be sent.
    Write(WriteError),
    /// The runtime was asked for a step that its phase does not allow.
    OutOfPhase,
    /// A node gave up; the text says why.
    Node(String),
}

/// A node of the protocol: built from the handshake, then fed one event at a
/// time.
pub trait Node<S, Payload, InjectedPayload = ()>: Sized {
    /// Builds the node from what the handshake told it. Events sent through
    /// `inject` reach the node like those from its peers.
    fn from_init(
        state: S,
        init: Init,
        inject: Sender<Event<Payload, InjectedPayload>>,
    ) -> Result<Self, Error>;

    /// Reacts to one event, speaking through `writer`.
    fn step<Writer: MessageWriter<Payload>>(
        &mut self,
        input: Event<Payload, InjectedPayload>,
        writer: &mut Writer,
    ) -> Result<(), Error>;
}

/// Where a runtime stands.
#[derive(Debug, Clone, Copy, PartialEq, Eq)]
pub enum Phase {
    /// Nothing was read yet; the first line must be the `init` request.
    Handshake,
    /// The handshake is made; inbound envelopes are routed.
    Running,
    /// The input ended, or a fatal error occurred; nothing more is forwarded.
    Closed,
}

/// What arrives on the inbound stream once the handshake is made.
pub ghost enum Inbound<Payload> {
    /// An envelope.
    Message(Message<Payload>),
    /// The end of the stream.
    End,
}

/// The state that routing depends on: the phase, and the table of callbacks.
pub ghost struct RoutingState<W> {
    pub phase: Phase,
    pub pending: Map<usize, W>,
}

/// The event that one arrival forwards to the node, if it forwards one.
pub open spec fn forwarded_by<W, Payload, InjectedPayload>(
    state: RoutingState<W>,
    arrival: Inbound<Payload>,
) -> Option<Event<Payload, InjectedPayload>> {
    match state.phase {
        Phase::Running => match arrival {
            Inbound::Message(message) => if is_awaited(state.pending, message.body.in_reply_to) {
                None
            } else {
                Some(Event::Message(message))
            },
            Inbound::End => Some(Event::EOF),
        },
        _ => None,
    }
}

/// The state after one arrival.
pub open spec fn state_after<W, Payload>(
    state: RoutingState<W>,
    arrival: Inbound<Payload>,
) -> RoutingState<W> {
    match state.phase {
        Phase::Running => match arrival {
            Inbound::Message(message) => RoutingState {
                phase: Phase::Running,
                pending: after_delivery(state.pending, message.body.in_reply_to),
            },
            Inbound::End => RoutingState { phase: Phase::Closed, pending: state.pending },
        },
        _ => state,
    }
}

/// The events that a sequence of arrivals forwards to the node, in order.
pub open spec fn forwarded<W, Payload, InjectedPayload>(
    state: RoutingState<W>,
    arrivals: Seq<Inbound<Payload>>,
) -> Seq<Event<Payload, InjectedPayload>>
    decreases arrivals.len(),
{
    if arrivals.len() == 0 {
        Seq::empty()
    } else {
        let rest = forwarded::<W, Payload, InjectedPayload>(
            state_after(state, arrivals[0]),
            arrivals.skip(1),
        );
        match forwarded_by::<W, Payload, InjectedPayload>(state, arrivals[0]) {
            Some(event) => seq![event] + rest,
            None => rest,
        }
    }
}

/// The state after a sequence of arrivals.
pub open spec fn state_after_all<W, Payload>(
    state: RoutingState<W>,
    arrivals: Seq<Inbound<Payload>>,
) -> RoutingState<W>
    decreases arrivals.len(),
{
    if arrivals.len() == 0 {
        state
    } else {
        state_after_all(state_after(state, arrivals[0]), arrivals.skip(1))
    }
}

/// Envelopes as arrivals.
pub open spec fn arrivals_of<Payload>(messages: Seq<Message<Payload>>) -> Seq<Inbound<Payload>> {
    Seq::new(messages.len(), |i: int| Inbound::Message(messages[i]))
}

/// Envelopes as events.
pub open spec fn events_of<Payload, InjectedPayload>(messages: Seq<Message<Payload>>) -> Seq<
    Event<Payload, InjectedPayload>,
> {
    Seq::new(messages.len(), |i: int| Event::Message(messages[i]))
}

/// The runtime's phase. The writer it works on is the caller's.
pub struct Runtime {
    phase: Phase,
}

impl Runtime {
    /// Where the runtime stands.
    pub closed spec fn phase(&self) -> Phase {
        self.phase
    }

    /// The state that routing depends on, given the writer's table.
    pub open spec fn routing<W>(&self, pending: Map<usize, W>) -> RoutingState<W> {
        RoutingState { phase: self.phase(), pending }
    }

    /// A runtime that waits for the handshake.
    pub fn new() -> (runtime: Self)
        ensures
            runtime.phase() == Phase::Handshake,
    {
        Runtime { phase: Phase::Handshake }
    }

    /// Where the runtime stands.
    pub fn current_phase(&self) -> (phase: Phase)
        ensures
            phase == self.phase(),
    {
        self.phase
    }

    /// Makes the handshake on the first line of input. Where it succeeds, the
    /// acknowledgment is queued in `writer` and the runtime runs. Where it
    /// fails, nothing is queued and the runtime is closed. Outside the
    /// handshake phase it changes nothing.
    pub fn start<Payload>(&mut self, writer: &mut StdoutWriter<Payload>, line: &str) -> (outcome:
        Result<Init, Error>)
        ensures
            final(writer).pending() == old(writer).pending(),
            old(self).phase() != Phase::Handshake ==> {
                &&& outcome == Err::<Init, Error>(Error::OutOfPhase)
                &&& final(self).phase() == old(self).phase()
                &&& final(writer).outbound() == old(writer).outbound()
            },
            old(self).phase() == Phase::Handshake ==> match init_outcome(line@) {
                Ok((init, reply)) => {
                    &&& outcome matches Ok(told) && told@ == init
                    &&& final(self).phase() == Phase::Running
                    &&& final(writer).outbound() == old(writer).outbound().push(reply)
                },
                Err(error) => {
                    &&& outcome == Err::<Init, Error>(Error::Startup(error))
                    &&& final(self).phase() == Phase::Closed
                    &&& final(writer).outbound() == old(writer).outbound()
                },
            },
    {
        match self.phase {
            Phase::Handshake => match run_init(line) {
                Ok((init, reply)) => {
                    writer.queue(reply);
                    self.phase = Phase::Running;
                    Ok(init)
                },
                Err(error) => {
                    self.phase = Phase::Closed;
                    Err(Error::Startup(error))
                },
            },
            _ => Err(Error::OutOfPhase),
        }
    }

    /// Routes one inbound envelope. A reply that a callback waits for is
    /// handed to that callback and forwards nothing; any other envelope is
    /// forwarded as an event. Outside the running phase the envelope is
    /// refused.
    pub fn route<Payload, InjectedPayload>(
        &mut self,
        writer: &mut StdoutWriter<Payload>,
        input: Message<Payload>,
    ) -> (outcome: Result<Option<Event<Payload, InjectedPayload>>, Error>)
        ensures
            final(self).phase() == old(self).phase(),
            final(writer).outbound() == old(writer).outbound(),
            final(self).routing(final(writer).pending()) == state_after(
                old(self).routing(old(writer).pending()),
                Inbound::Message(input),
            ),
            match outcome {
                Ok(event) => old(self).phase() == Phase::Running && event == forwarded_by::<
                    Sender<Message<Payload>>,
                    Payload,
                    InjectedPayload,
                >(old(self).routing(old(writer).pending()), Inbound::Message(input)),
                Err(error) => old(self).phase() != Phase::Running && error == Error::OutOfPhase,
            },
    {
        match self.phase {
            Phase::Running => {
                if writer.callback_exists(&input) {
                    let _ = writer.send_callback(input);
                    Ok(None)
                } else {
                    proof {
                        lemma_unawaited_delivery(writer.pending(), input.body.in_reply_to);
                    }
                    Ok(Some(Event::Message(input)))
                }
            },
            _ => Err(Error::OutOfPhase),
        }
    }

    /// Decodes one inbound line and routes the envelope. A line that is no
    /// envelope is fatal: it closes the runtime.
    pub fn ingest<InjectedPayload>(&mut self, writer: &mut StdoutWriter<Fields>, line: &str) -> (
        outcome: Result<Option<Event<Fields, InjectedPayload>>, Error>)
        ensures
            final(writer).outbound() == old(writer).outbound(),
            old(self).phase() != Phase::Running ==> {
                &&& outcome matches Err(Error::OutOfPhase)
                &&& final(self).phase() == old(self).phase()
                &&& final(writer).pending() == old(writer).pending()
            },
            old(self).phase() == Phase::Running ==> match line_message(line@) {
                Err(error) => {
                    &&& outcome matches Err(Error::Decode(found)) && found == error
                    &&& final(self).phase() == Phase::Closed
                    &&& final(writer).pending() == old(writer).pending()
                },
                Ok(message) => {
                    &&& final(self).phase() == Phase::Running
                    &&& final(writer).pending() == after_delivery(
                        old(writer).pending(),
                        message.body.in_reply_to,
                    )
                    &&& if is_awaited(old(writer).pending(), message.body.in_reply_to) {
                        outcome matches Ok(None)
                    } else {
                        outcome matches Ok(Some(Event::Message(forwarded))) && forwarded@
                            == message
                    }
                },
            },
    {
        match self.phase {
            Phase::Running => match decode_line(line) {
                Ok(message) => self.route(writer, message),
                Err(error) => {
                    self.phase = Phase::Closed;
                    Err(Error::Decode(error))
                },
            },
            _ => Err(Error::OutOfPhase),
        }
    }

    /// Takes note that the input has ended. A running runtime forwards the
    /// end of input and closes; in any other phase nothing is forwarded.
    pub fn finish<Payload, InjectedPayload>(&mut self) -> (event: Option<
        Event<Payload, InjectedPayload>,
    >)
        ensures
            old(self).phase() == Phase::Running ==> {
                &&& event == Some(Event::<Payload, InjectedPayload>::EOF)
                &&& final(self).phase() == Phase::Closed
            },
            old(self).phase() != Phase::Running ==> {
                &&& event is None
                &&& final(self).phase() == old(self).phase()
            },
    {
        match self.phase {
            Phase::Running => {
                self.phase = Phase::Closed;
                Some(Event::EOF)
            },
            _ => None,
        }
    }
}

/// What a run forwards splits where the arrivals split.
pub proof fn lemma_forwarded_append<W, Payload, InjectedPayload>(
    state: RoutingState<W>,
    first: Seq<Inbound<Payload>>,
    second: Seq<Inbound<Payload>>,
)
    ensures
        forwarded::<W, Payload, InjectedPayload>(state, first + second) == forwarded::<
            W,
            Payload,
            InjectedPayload,
        >(state, first) + forwarded::<W, Payload, InjectedPayload>(
            state_after_all(state, first),
            second,
        ),
        state_after_all(state, first + second) == state_after_all(
            state_after_all(state, first),
            second,
        ),
    decreases first.len(),
{
    if first.len() == 0 {
        assert(first + second =~= second);
        assert(forwarded::<W, Payload, InjectedPayload>(state, first) =~= Seq::empty());
        assert(Seq::<Event<Payload, InjectedPayload>>::empty() + forwarded::<
            W,
            Payload,
            InjectedPayload,
        >(state, second) =~= forwarded::<W, Payload, InjectedPayload>(state, second));
    } else {
        let next = state_after(state, first[0]);
        assert((first + second)[0] == first[0]);
        assert((first + second).skip(1) =~= first.skip(1) + second);
        lemma_forwarded_append::<W, Payload, InjectedPayload>(next, first.skip(1), second);
        let rest_first = forwarded::<W, Payload, InjectedPayload>(next, first.skip(1));
        let rest_second = forwarded::<W, Payload, InjectedPayload>(
            state_after_all(state, first),
            second,
        );
        match forwarded_by::<W, Payload, InjectedPayload>(state, first[0]) {
            Some(event) => {
                assert(seq![event] + (rest_first + rest_second) =~= (seq![event] + rest_first)
                    + rest_second);
            },
            None => {},
        }
    }
}

/// Handshake gating: before the handshake is made, nothing is forwarded,
/// whatever arrives. Nor is anything forwarded once the runtime is closed.
pub proof fn lemma_nothing_forwarded_out_of_phase<W, Payload, InjectedPayload>(
    state: RoutingState<W>,
    arrivals: Seq<Inbound<Payload>>,
)
    requires
        state.phase != Phase::Running,
    ensures
        forwarded::<W, Payload, InjectedPayload>(state, arrivals) == Seq::<
            Event<Payload, InjectedPayload>,
        >::empty(),
        state_after_all(state, arrivals) == state,
    decreases arrivals.len(),
{
    if arrivals.len() > 0 {
        lemma_nothing_forwarded_out_of_phase::<W, Payload, InjectedPayload>(
            state,
            arrivals.skip(1),
        );
    }
}

/// Envelopes that answer no pending request are all forwarded, in the order
/// in which they arrived, and leave the table as it was.
pub proof fn lemma_ordinary_messages_pass<W, Payload, InjectedPayload>(
    pending: Map<usize, W>,
    messages: Seq<Message<Payload>>,
)
    requires
        forall|i: int|
            0 <= i < messages.len() ==> !is_awaited(
                pending,
                (#[trigger] messages[i]).body.in_reply_to,
            ),
    ensures
        forwarded::<W, Payload, InjectedPayload>(
            RoutingState { phase: Phase::Running, pending },
            arrivals_of(messages),
        ) == events_of::<Payload, InjectedPayload>(messages),
        state_after_all(RoutingState { phase: Phase::Running, pending }, arrivals_of(messages))
            == (RoutingState { phase: Phase::Running, pending }),
    decreases messages.len(),
{
    let state = RoutingState { phase: Phase::Running, pending };
    let arrivals = arrivals_of(messages);
    if messages.len() == 0 {
        assert(forwarded::<W, Payload, InjectedPayload>(state, arrivals) =~= events_of::<
            Payload,
            InjectedPayload,
        >(messages));
    } else {
        let tail = messages.skip(1);
        assert(arrivals.skip(1) =~= arrivals_of(tail));
        assert(arrivals[0] == Inbound::Message(messages[0]));
        lemma_unawaited_delivery(pending, messages[0].body.in_reply_to);
        assert forall|i: int| 0 <= i < tail.len() implies !is_awaited(
            pending,
            (#[trigger] tail[i]).body.in_reply_to,
        ) by {
            assert(tail[i] == messages[i + 1]);
        }
        lemma_ordinary_messages_pass::<W, Payload, InjectedPayload>(pending, tail);
        assert(state_after(state, arrivals[0]) == state);
        assert(seq![Event::<Payload, InjectedPayload>::Message(messages[0])] + events_of::<
            Payload,
            InjectedPayload,
        >(tail) =~= events_of::<Payload, InjectedPayload>(messages));
    }
}

/// Ordering: of an ordinary envelope, a reply that a callback waits for, and
/// another ordinary envelope, the node is given the first and the third, in
/// that order; the reply never reaches it, and its callback waits no more.
pub proof fn lemma_reply_is_diverted<W, Payload, InjectedPayload>(
    pending: Map<usize, W>,
    before: Message<Payload>,
    reply: Message<Payload>,
    after: Message<Payload>,
)
    requires
        !is_awaited(pending, before.body.in_reply_to),
        is_awaited(pending, reply.body.in_reply_to),
        !is_awaited(after_delivery(pending, reply.body.in_reply_to), after.body.in_reply_to),
    ensures
        forwarded::<W, Payload, InjectedPayload>(
            RoutingState { phase: Phase::Running, pending },
            seq![Inbound::Message(before), Inbound::Message(reply), Inbound::Message(after)],
        ) == seq![
            Event::<Payload, InjectedPayload>::Message(before),
            Event::<Payload, InjectedPayload>::Message(after),
        ],
        state_after_all(
            RoutingState { phase: Phase::Running, pending },
            seq![Inbound::Message(before), Inbound::Message(reply), Inbound::Message(after)],
        ) == (RoutingState {
            phase: Phase::Running,
            pending: after_delivery(pending, reply.body.in_reply_to),
        }),
{
    let state = RoutingState { phase: Phase::Running, pending };
    let diverted = RoutingState {
        phase: Phase::Running,
        pending: after_delivery(pending, reply.body.in_reply_to),
    };
    let arrivals = seq![Inbound::Message(before), Inbound::Message(reply), Inbound::Message(after)];
    let two = seq![Inbound::Message(reply), Inbound::Message(after)];
    let one = seq![Inbound::Message(after)];
    let none = Seq::<Inbound<Payload>>::empty();
    lemma_unawaited_delivery(pending, before.body.in_reply_to);
    lemma_unawaited_delivery(diverted.pending, after.body.in_reply_to);
    assert(arrivals.skip(1) =~= two);
    assert(two.skip(1) =~= one);
    assert(one.skip(1) =~= none);
    assert(state_after(state, arrivals[0]) == state);
    assert(state_after(state, two[0]) == diverted);
    assert(state_after(diverted, one[0]) == diverted);
    assert(forwarded::<W, Payload, InjectedPayload>(diverted, none) =~= Seq::empty());
    assert(forwarded::<W, Payload, InjectedPayload>(diverted, one) =~= seq![
        Event::<Payload, InjectedPayload>::Message(after),
    ]);
    assert(forwarded::<W, Payload, InjectedPayload>(state, two) =~= seq![
        Event::<Payload, InjectedPayload>::Message(after),
    ]);
    assert(forwarded::<W, Payload, InjectedPayload>(state, arrivals) =~= seq![
        Event::<Payload, InjectedPayload>::Message(before),
        Event::<Payload, InjectedPayload>::Message(after),
    ]);
    assert(state_after_all(diverted, none) == diverted);
    assert(state_after_all(diverted, one) == diverted);
    assert(state_after_all(state, two) == diverted);
}

/// Clean shutdown: where ordinary envelopes arrive and then the input ends,
/// the node is given exactly those envelopes, in order, and then the end of
/// input, once; the runtime is closed, and whatever the host hands in after
/// that forwards nothing.
pub proof fn lemma_clean_shutdown<W, Payload, InjectedPayload>(
    pending: Map<usize, W>,
    messages: Seq<Message<Payload>>,
    later: Seq<Inbound<Payload>>,
)
    requires
        forall|i: int|
            0 <= i < messages.len() ==> !is_awaited(
                pending,
                (#[trigger] messages[i]).body.in_reply_to,
            ),
    ensures
        forwarded::<W, Payload, InjectedPayload>(
            RoutingState { phase: Phase::Running, pending },
            arrivals_of(messages) + seq![Inbound::End] + later,
        ) == events_of::<Payload, InjectedPayload>(messages) + seq![
            Event::<Payload, InjectedPayload>::EOF,
        ],
        state_after_all(
            RoutingState { phase: Phase::Running, pending },
            arrivals_of(messages) + seq![Inbound::End] + later,
        ).phase == Phase::Closed,
{
    let state = RoutingState { phase: Phase::Running, pending };
    let closed = RoutingState { phase: Phase::Closed, pending };
    let end = seq![Inbound::<Payload>::End];
    let none = Seq::<Inbound<Payload>>::empty();
    lemma_ordinary_messages_pass::<W, Payload, InjectedPayload>(pending, messages);
    lemma_forwarded_append::<W, Payload, InjectedPayload>(state, arrivals_of(messages), end);
    lemma_forwarded_append::<W, Payload, InjectedPayload>(
        state,
        arrivals_of(messages) + end,
        later,
    );
    lemma_nothing_forwarded_out_of_phase::<W, Payload, InjectedPayload>(closed, later);
    assert(end.skip(1) =~= none);
    assert(state_after(state, end[0]) == closed);
    assert(forwarded::<W, Payload, InjectedPayload>(closed, none) =~= Seq::empty());
    assert(forwarded::<W, Payload, InjectedPayload>(state, end) =~= seq![
        Event::<Payload, InjectedPayload>::EOF,
    ]);
    assert(state_after_all(closed, none) == closed);
    assert(state_after_all(state, end) == closed);
    let events = events_of::<Payload, InjectedPayload>(messages) + seq![
        Event::<Payload, InjectedPayload>::EOF,
    ];
    assert(events + Seq::<Event<Payload, InjectedPayload>>::empty() =~= events);
}

} // verus!
