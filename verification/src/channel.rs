//! The ordered message channel between one producer and one consumer.
//!
//! The model keeps the full log of sent messages and the count of messages
//! already handed to the consumer. Receiving hands out exactly the next
//! unread entry of the log, so what the consumer has seen is at every moment
//! a prefix of what was sent, in send order. Closing the channel is the
//! termination signal, not an error: once the log is drained and the channel
//! closed, receiving reports closure.

use vstd::prelude::*;

verus! {

/// What one receive attempt yields.
pub enum RecvOutcome {
    /// The next message, in send order.
    Message(String),
    /// Nothing pending and no sender left: the termination signal.
    Closed,
    /// Nothing pending but the producer may still send; a real consumer
    /// blocks here.
    Pending,
}

/// A first-in-first-out channel that hands messages from a producer to a
/// consumer in send order.
pub struct Channel {
    sent: Vec<String>,
    taken: usize,
    closed: bool,
}

impl Channel {
    /// The log of every message sent so far, in send order.
    pub closed spec fn sent_log(self) -> Seq<String> {
        self.sent@
    }

    /// How many messages the consumer has already received.
    pub closed spec fn received_count(self) -> int {
        self.taken as int
    }

    /// Whether the producer has dropped its end.
    pub closed spec fn is_closed(self) -> bool {
        self.closed
    }

    /// The consumer never runs ahead of the producer.
    pub open spec fn wf(self) -> bool {
        0 <= self.received_count() <= self.sent_log().len()
    }

    /// Everything the consumer has received so far: by construction the
    /// prefix of the send log of length `received_count()`.
    pub open spec fn received_log(self) -> Seq<String> {
        self.sent_log().subrange(0, self.received_count())
    }

    /// A fresh channel: nothing sent, nothing received, producer attached.
    pub fn new() -> (c: Channel)
        ensures
            c.sent_log() == Seq::<String>::empty(),
            c.received_count() == 0,
            !c.is_closed(),
            c.wf(),
    {
        Channel { sent: Vec::new(), taken: 0, closed: false }
    }

    /// The producer appends one message to the log. Nothing already sent or
    /// received moves.
    pub fn send(&mut self, msg: String)
        requires
            old(self).wf(),
            !old(self).is_closed(),
        ensures
            final(self).sent_log() == old(self).sent_log().push(msg),
            final(self).received_count() == old(self).received_count(),
            !final(self).is_closed(),
            final(self).wf(),
    {
        self.sent.push(msg);
    }

    /// The producer drops its end: no further message will come, and the
    /// consumer will read closure once the log is drained.
    pub fn close(&mut self)
        requires
            old(self).wf(),
        ensures
            final(self).sent_log() == old(self).sent_log(),
            final(self).received_count() == old(self).received_count(),
            final(self).is_closed(),
            final(self).wf(),
    {
        self.closed = true;
    }

    /// One receive attempt: exactly the next unread message when one is
    /// pending, closure when the log is drained and the producer is gone,
    /// and a blocking wait otherwise. The state moves only when a message
    /// is handed out.
    pub fn recv(&mut self) -> (r: RecvOutcome)
        requires
            old(self).wf(),
        ensures
            final(self).wf(),
            final(self).sent_log() == old(self).sent_log(),
            final(self).is_closed() == old(self).is_closed(),
            old(self).received_count() < old(self).sent_log().len() ==> r
                == RecvOutcome::Message(old(self).sent_log()[old(self).received_count()])
                && final(self).received_count() == old(self).received_count() + 1,
            old(self).received_count() == old(self).sent_log().len() && old(self).is_closed()
                ==> r == RecvOutcome::Closed && *final(self) == *old(self),
            old(self).received_count() == old(self).sent_log().len() && !old(self).is_closed()
                ==> r == RecvOutcome::Pending && *final(self) == *old(self),
    {
        if self.taken < self.sent.len() {
            let msg = self.sent[self.taken].clone();
            self.taken = self.taken + 1;
            RecvOutcome::Message(msg)
        } else if self.closed {
            RecvOutcome::Closed
        } else {
            RecvOutcome::Pending
        }
    }

    /// The consumer's terminal loop: receives until the closure signal and
    /// returns every message it was handed — exactly the unread remainder
    /// of the send log, in send order.
    pub fn drain(&mut self) -> (msgs: Vec<String>)
        requires
            old(self).wf(),
            old(self).is_closed(),
        ensures
            final(self).wf(),
            final(self).sent_log() == old(self).sent_log(),
            final(self).received_count() == final(self).sent_log().len(),
            msgs@ == old(self).sent_log().subrange(
                old(self).received_count(),
                old(self).sent_log().len() as int,
            ),
    {
        let mut msgs: Vec<String> = Vec::new();
        loop
            invariant
                self.wf(),
                self.is_closed(),
                self.sent_log() == old(self).sent_log(),
                old(self).received_count() <= self.received_count(),
                msgs@ == old(self).sent_log().subrange(
                    old(self).received_count(),
                    self.received_count(),
                ),
            ensures
                self.received_count() == self.sent_log().len(),
                msgs@ == old(self).sent_log().subrange(
                    old(self).received_count(),
                    old(self).sent_log().len() as int,
                ),
            decreases self.sent_log().len() - self.received_count(),
        {
            let r = self.recv();
            match r {
                RecvOutcome::Message(m) => {
                    msgs.push(m);
                    proof {
                        assert(msgs@ =~= old(self).sent_log().subrange(
                            old(self).received_count(),
                            self.received_count(),
                        ));
                    }
                },
                RecvOutcome::Closed => {
                    break;
                },
                RecvOutcome::Pending => {
                    break;
                },
            }
        }
        msgs
    }
}

/// The in-order delivery law: at every moment, what the consumer has
/// received is exactly the first `received_count()` sent messages — the
/// `i`-th message received was the `i`-th message sent, and never more than
/// was sent. Once the channel is drained, the received log and the send log
/// coincide.
pub proof fn lemma_received_in_send_order(c: Channel)
    requires
        c.wf(),
    ensures
        c.received_log().len() == c.received_count(),
        forall|i: int| 0 <= i < c.received_count() ==> c.received_log()[i] == c.sent_log()[i],
        c.received_count() == c.sent_log().len() ==> c.received_log() == c.sent_log(),
{
    if c.received_count() == c.sent_log().len() {
        assert(c.received_log() =~= c.sent_log());
    }
}

} // verus!
