//! What the callback bridge does with each engine event: the connect
//! signal, and the fan-out of inbound messages to the subscriber.
use vstd::prelude::*;
use async_channel::{Receiver, Sender};
use crate::channel::offer;
use crate::correlation::Outcome;
use crate::message::{Message, MessageId, QoS};
use crate::status::ConnectionStatus;

verus! {

/// The completion signal of a pending connect, if one is armed.
pub struct ConnectSlot {
    waiter: Option<Sender<ConnectionStatus>>,
    /// Every status that went to a waiting connect, in order.
    delivered: Ghost<Seq<ConnectionStatus>>,
}

impl ConnectSlot {
    /// Whether a connect is waiting for the broker's answer.
    pub closed spec fn armed(&self) -> bool {
        self.waiter is Some
    }

    /// Every status that went to a waiting connect, in order.
    pub closed spec fn answers(&self) -> Seq<ConnectionStatus> {
        self.delivered@
    }

    /// A slot with no pending connect.
    pub fn new() -> (r: ConnectSlot)
        ensures
            !r.armed(),
            r.answers() == Seq::<ConnectionStatus>::empty(),
    {
        ConnectSlot { waiter: None, delivered: Ghost(Seq::empty()) }
    }

    /// Whether a connect is waiting for the broker's answer.
    pub fn is_armed(&self) -> (r: bool)
        ensures
            r == self.armed(),
    {
        self.waiter.is_some()
    }

    /// Arm a new completion signal for a connect, before the connect is
    /// issued, and return the end that the caller awaits. A signal armed
    /// before is dropped, so its caller sees a closed signal.
    pub fn arm(&mut self) -> (r: Receiver<ConnectionStatus>)
        ensures
            final(self).armed(),
            final(self).answers() == old(self).answers(),
    {
        let (tx, rx) = async_channel::bounded(1);
        self.waiter = Some(tx);
        rx
    }

    /// Deliver the broker's answer to the armed connect, at most once. If
    /// the caller has gone away the session is of no use: disconnect.
    pub fn on_connect(&mut self, status: ConnectionStatus) -> (r: Outcome)
        ensures
            !final(self).armed(),
            !old(self).armed() ==> r == Outcome::Unmatched,
            old(self).armed() ==> (r == Outcome::Delivered || r == Outcome::Disconnect),
            r == Outcome::Delivered ==> final(self).answers() == old(self).answers().push(status),
            r != Outcome::Delivered ==> final(self).answers() == old(self).answers(),
    {
        match self.waiter.take() {
            Some(tx) => {
                if offer(&tx, status) {
                    proof {
                        self.delivered@ = self.delivered@.push(status);
                    }
                    Outcome::Delivered
                } else {
                    Outcome::Disconnect
                }
            },
            None => Outcome::Unmatched,
        }
    }
}

impl Message {
    /// A message built from what the engine's message callback hands over;
    /// the payload is copied out of the engine's buffer.
    pub fn new(mid: MessageId, topic: String, payload: &[u8], qos: QoS, retain: bool) -> (r: Message)
        ensures
            r.mid == mid,
            r.topic@ == topic@,
            r.payload@ == payload@,
            r.qos == qos,
            r.retain == retain,
    {
        Message { topic, payload: vstd::slice::slice_to_vec(payload), qos, retain, mid }
    }
}

/// Whether a call of `subscriber` hands out the receiver, given whether it
/// had been taken before.
pub open spec fn subscriber_yields(taken: bool) -> bool {
    !taken
}

/// Whether the receiver has been taken after a call of `subscriber`.
pub open spec fn taken_after_subscriber(taken: bool) -> bool {
    true
}

/// Taking the subscriber is idempotent: whatever the state, once
/// `subscriber` has been called, a further call yields nothing and changes
/// nothing, so there is never a second live receiver.
pub proof fn lemma_subscriber_taken_once(taken: bool)
    ensures
        !subscriber_yields(taken_after_subscriber(taken)),
        taken_after_subscriber(taken_after_subscriber(taken)) == taken_after_subscriber(taken),
{
}

/// The unbounded channel that carries inbound messages to the subscriber.
pub struct Fanout {
    tx: Sender<Message>,
    rx: Option<Receiver<Message>>,
    /// Every message that went into the channel, in order.
    sent: Ghost<Seq<Message>>,
}

impl Fanout {
    /// Whether the receiving end has been handed out.
    pub closed spec fn taken(&self) -> bool {
        self.rx is None
    }

    /// Every message that went into the channel, in order: the subscriber
    /// receives them in this order.
    pub closed spec fn stream(&self) -> Seq<Message> {
        self.sent@
    }

    /// A fan-out whose receiving end is still to be handed out.
    pub fn new() -> (r: Fanout)
        ensures
            !r.taken(),
            r.stream() == Seq::<Message>::empty(),
    {
        let (tx, rx) = async_channel::unbounded();
        Fanout { tx, rx: Some(rx), sent: Ghost(Seq::empty()) }
    }

    /// Whether the receiving end has been handed out.
    pub fn is_taken(&self) -> (r: bool)
        ensures
            r == self.taken(),
    {
        self.rx.is_none()
    }

    /// Hand out the receiving end: the first call gets it, every later call
    /// gets `None`, so there is never a second live receiver.
    pub fn subscriber(&mut self) -> (r: Option<Receiver<Message>>)
        ensures
            r is Some <==> subscriber_yields(old(self).taken()),
            final(self).taken() == taken_after_subscriber(old(self).taken()),
            final(self).stream() == old(self).stream(),
    {
        self.rx.take()
    }

    /// Hand an inbound message to the subscriber. If no consumer is left the
    /// session is of no use: disconnect.
    pub fn on_message(&mut self, msg: Message) -> (r: Outcome)
        ensures
            r == Outcome::Delivered || r == Outcome::Disconnect,
            r == Outcome::Delivered ==> final(self).stream() == old(self).stream().push(msg),
            r == Outcome::Disconnect ==> final(self).stream() == old(self).stream(),
            final(self).taken() == old(self).taken(),
    {
        let ghost m = msg;
        if offer(&self.tx, msg) {
            proof {
                self.sent@ = self.sent@.push(m);
            }
            Outcome::Delivered
        } else {
            Outcome::Disconnect
        }
    }
}

} // verus!
