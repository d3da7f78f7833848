use vstd::prelude::*;
use crate::message::Message;

verus! {

/// The slot's contents as a sequence: empty, or the one pending message.
pub open spec fn pending_seq(slot: Option<Message>) -> Seq<Message> {
    match slot {
        Option::None => Seq::empty(),
        Option::Some(m) => seq![m],
    }
}

/// A single-producer/single-consumer rendezvous mailbox of capacity exactly
/// one, the sole hand-off point between the sampling context and the
/// rendering context.
///
/// `try_send` and `try_receive` are the slot discipline itself. A caller that
/// must block retries after suspending its context: a refused `try_send`
/// models the producer suspending while the previous message is unconsumed,
/// never dropping or overwriting it; a refused `try_receive` models the
/// consumer suspending while no message is pending.
pub struct Mailbox {
    slot: Option<Message>,
    sent: Ghost<Seq<Message>>,
    received: Ghost<Seq<Message>>,
}

impl Mailbox {
    /// The message in flight, if any.
    pub closed spec fn pending(self) -> Option<Message> {
        self.slot
    }

    /// Every message deposited so far, oldest first.
    pub closed spec fn sent_log(self) -> Seq<Message> {
        self.sent@
    }

    /// Every message removed so far, oldest first.
    pub closed spec fn received_log(self) -> Seq<Message> {
        self.received@
    }

    /// The mailbox's invariant: the send log is exactly the receive log
    /// followed by whatever still sits in the slot.
    pub closed spec fn wf(self) -> bool {
        self.sent@ == self.received@ + pending_seq(self.slot)
    }

    /// Creates an empty mailbox with empty logs.
    pub fn new() -> (m: Mailbox)
        ensures
            m.wf(),
            m.pending() is None,
            m.sent_log() == Seq::<Message>::empty(),
            m.received_log() == Seq::<Message>::empty(),
    {
        let m = Mailbox {
            slot: Option::None,
            sent: Ghost(Seq::empty()),
            received: Ghost(Seq::empty()),
        };
        proof {
            assert(m.sent@ =~= m.received@ + pending_seq(m.slot));
        }
        m
    }

    /// Deposits `msg` if the slot is free; otherwise hands it back untouched
    /// and changes nothing, so the caller can suspend and retry with the very
    /// same message. A second send before a receive is thus refused, never
    /// absorbed: no message is dropped or overwritten.
    pub fn try_send(&mut self, msg: Message) -> (r: Result<(), Message>)
        requires
            old(self).wf(),
        ensures
            final(self).wf(),
            old(self).pending() is None ==> {
                &&& r is Ok
                &&& final(self).pending() == Some(msg)
                &&& final(self).sent_log() == old(self).sent_log().push(msg)
                &&& final(self).received_log() == old(self).received_log()
            },
            old(self).pending() is Some ==> {
                &&& r == Result::<(), Message>::Err(msg)
                &&& *final(self) == *old(self)
            },
    {
        match self.slot {
            Option::None => {
                self.slot = Option::Some(msg);
                proof {
                    self.sent@ = self.sent@.push(msg);
                    assert(self.sent@ =~= self.received@ + pending_seq(self.slot));
                }
                Result::Ok(())
            },
            Option::Some(_) => Result::Err(msg),
        }
    }

    /// Removes and returns the pending message, if any; otherwise changes
    /// nothing, and the caller suspends until a message arrives. The message
    /// returned is always the oldest send not yet received: receives happen
    /// in send order.
    pub fn try_receive(&mut self) -> (r: Option<Message>)
        requires
            old(self).wf(),
        ensures
            final(self).wf(),
            old(self).pending() is Some ==> {
                &&& r == old(self).pending()
                &&& r == Some(old(self).sent_log()[old(self).received_log().len() as int])
                &&& final(self).pending() is None
                &&& final(self).sent_log() == old(self).sent_log()
                &&& final(self).received_log() == old(self).received_log() + pending_seq(
                    old(self).pending(),
                )
            },
            old(self).pending() is None ==> {
                &&& r is None
                &&& *final(self) == *old(self)
            },
    {
        match self.slot {
            Option::Some(m) => {
                self.slot = Option::None;
                proof {
                    self.received@ = self.received@.push(m);
                    assert(self.sent@ =~= self.received@ + pending_seq(self.slot));
                    assert(self.sent@[self.received@.len() - 1] == m);
                }
                Option::Some(m)
            },
            Option::None => Option::None,
        }
    }
}

/// FIFO with depth one: at any point, the messages received so far are
/// exactly the oldest sends, in send order, and `try_receive`'s contract
/// returns the next send after them. No message is duplicated, lost or
/// reordered.
pub proof fn lemma_receive_order(m: Mailbox)
    requires
        m.wf(),
    ensures
        m.received_log().len() <= m.sent_log().len(),
        m.received_log() =~= m.sent_log().take(m.received_log().len() as int),
{
}

/// Capacity one: the mailbox never holds more than one in-flight message, so
/// the send log never runs more than one message ahead of the receive log.
pub proof fn lemma_capacity_one(m: Mailbox)
    requires
        m.wf(),
    ensures
        m.sent_log().len() - m.received_log().len() <= 1,
        m.sent_log().len() - m.received_log().len() == pending_seq(m.pending()).len(),
{
}

} // verus!
