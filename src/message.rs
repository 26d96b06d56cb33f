//! Delivery levels, operation identifiers and inbound messages.
use vstd::prelude::*;

verus! {

/// An operation identifier that the engine assigns to an accepted command.
/// It is unique only among the outstanding operations and may be reused.
pub type MessageId = i32;

/// The MQTT delivery guarantee of a message.
#[derive(Debug, Clone, Copy, PartialEq, Eq, Structural)]
pub enum QoS {
    /// The message is sent once, with no acknowledgement from the broker.
    AtMostOnce,
    /// The message is re-sent until the broker acknowledges it, so it may
    /// arrive more than once.
    AtLeastOnce,
    /// A four-way handshake makes sure that the message arrives exactly once.
    ExactlyOnce,
}

/// The integer that the protocol uses for each level.
pub open spec fn qos_code(q: QoS) -> int {
    match q {
        QoS::AtMostOnce => 0,
        QoS::AtLeastOnce => 1,
        QoS::ExactlyOnce => 2,
    }
}

/// The level that the engine's integer `i` stands for; anything above the
/// known levels is read as the highest one.
pub open spec fn qos_of_int(i: i32) -> QoS {
    if i == 0 {
        QoS::AtMostOnce
    } else if i == 1 {
        QoS::AtLeastOnce
    } else {
        QoS::ExactlyOnce
    }
}

impl Default for QoS {
    fn default() -> (r: QoS)
        ensures
            r == QoS::AtMostOnce,
    {
        QoS::AtMostOnce
    }
}

impl QoS {
    /// The level for an integer that the engine reports.
    pub fn from_int(i: i32) -> (r: QoS)
        ensures
            r == qos_of_int(i),
    {
        match i {
            0 => QoS::AtMostOnce,
            1 => QoS::AtLeastOnce,
            _ => QoS::ExactlyOnce,
        }
    }

    /// The integer that the engine expects for this level.
    pub fn code(self) -> (r: i32)
        ensures
            r == qos_code(self),
    {
        match self {
            QoS::AtMostOnce => 0,
            QoS::AtLeastOnce => 1,
            QoS::ExactlyOnce => 2,
        }
    }
}

/// A received message that matches one or more of the client's
/// subscription patterns.
#[derive(Debug, Clone, PartialEq, Eq)]
pub struct Message {
    /// The destination topic
    pub topic: String,
    /// The data payload bytes
    pub payload: Vec<u8>,
    /// The qos level at which the message was sent
    pub qos: QoS,
    /// Whether the message is a retained message.
    /// The broker will preserve the last retained
    /// message and send it to a subscriber at subscribe
    /// time.
    pub retain: bool,
    /// The message id
    pub mid: MessageId,
}

impl Default for Message {
    fn default() -> (r: Message)
        ensures
            r.topic@ == Seq::<char>::empty(),
            r.payload@ == Seq::<u8>::empty(),
            r.qos == QoS::AtMostOnce,
            !r.retain,
            r.mid == 0,
    {
        Message {
            topic: String::new(),
            payload: Vec::new(),
            qos: QoS::AtMostOnce,
            retain: false,
            mid: 0,
        }
    }
}

} // verus!
