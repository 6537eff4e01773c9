//! The producer side of a streamed answer, as a machine: it says which
//! message to send next and when to close the channel, and is told what
//! became of each send. Whoever owns the channel does the sending.

use vstd::prelude::*;

verus! {

/// What the producer is told.
#[derive(Clone, Copy, Debug, PartialEq, Eq)]
pub enum Event {
    /// The channel is open and nothing has been sent yet.
    Begin,
    /// The consumer took the message last sent.
    Accepted,
    /// The consumer is gone: the message last sent was not taken.
    Refused,
    /// The call was called off: nothing more is to be sent.
    Cancelled,
}

/// What the producer does next.
#[derive(Clone, Copy, Debug, PartialEq, Eq)]
pub enum Step {
    /// Send the message at this position, then report what became of it.
    Send(usize),
    /// Close the channel: the sequence is at its end, or nobody listens.
    Close,
}

/// Progress through one streamed answer of `total` messages, of which the
/// first `sent` have been taken.
#[derive(Clone, Copy, Debug, PartialEq, Eq)]
pub struct Emitter {
    pub total: usize,
    pub sent: usize,
    pub closed: bool,
}

/// How many messages have been taken once `event` has come in.
pub open spec fn sent_after(state: Emitter, event: Event) -> usize {
    if !state.closed && event == Event::Accepted && state.sent < state.total {
        (state.sent + 1) as usize
    } else {
        state.sent
    }
}

/// Whether the channel is closed once `event` has come in: it stays closed,
/// a refusal or a cancellation closes it, and so does the end of the
/// sequence.
pub open spec fn closed_after(state: Emitter, event: Event) -> bool {
    ||| state.closed
    ||| event == Event::Refused
    ||| event == Event::Cancelled
    ||| sent_after(state, event) >= state.total
}

/// What the producer does on `event`.
pub open spec fn step_after(state: Emitter, event: Event) -> Step {
    if closed_after(state, event) {
        Step::Close
    } else {
        Step::Send(sent_after(state, event))
    }
}

impl Emitter {
    /// No message is lost or sent ahead of its turn.
    pub open spec fn well_formed(&self) -> bool {
        self.sent <= self.total
    }

    /// A producer for `total` messages, none sent.
    pub fn new(total: usize) -> (emitter: Emitter)
        ensures
            emitter == (Emitter { total, sent: 0, closed: false }),
            emitter.well_formed(),
    {
        Emitter { total, sent: 0, closed: false }
    }

    /// Takes `event` in and says what to do next. Messages go out one by
    /// one in their order; a refusal ends the stream with no second try, and
    /// so does a cancellation.
    pub fn step(&mut self, event: Event) -> (step: Step)
        ensures
            old(self).well_formed() ==> final(self).well_formed(),
            final(self).total == old(self).total,
            final(self).sent == sent_after(*old(self), event),
            final(self).closed == closed_after(*old(self), event),
            step == step_after(*old(self), event),
    {
        if self.closed {
            return Step::Close;
        }
        match event {
            Event::Refused | Event::Cancelled => {
                self.closed = true;
                return Step::Close;
            },
            Event::Accepted => {
                if self.sent < self.total {
                    self.sent = self.sent + 1;
                }
            },
            Event::Begin => {},
        }
        if self.sent >= self.total {
            self.closed = true;
            Step::Close
        } else {
            Step::Send(self.sent)
        }
    }
}

/// A stream of no messages closes at once, with nothing sent.
pub proof fn empty_stream_closes_at_once(event: Event)
    ensures
        step_after(Emitter { total: 0, sent: 0, closed: false }, event) == Step::Close,
        sent_after(Emitter { total: 0, sent: 0, closed: false }, event) == 0,
{
}

/// While the consumer takes what it is sent, the messages go out in order
/// and each once: after a send of position `p` is taken, the next step is
/// the send of `p + 1`, or the close when `p` was the last.
pub proof fn messages_go_out_in_order(state: Emitter)
    requires
        state.well_formed(),
        !state.closed,
        state.sent < state.total,
    ensures
        step_after(state, Event::Begin) == Step::Send(state.sent),
        state.sent + 1 < state.total ==> step_after(state, Event::Accepted) == Step::Send(
            (state.sent + 1) as usize,
        ),
        state.sent + 1 == state.total ==> step_after(state, Event::Accepted) == Step::Close,
        step_after(state, Event::Refused) == Step::Close,
        step_after(state, Event::Cancelled) == Step::Close,
{
}

} // verus!
