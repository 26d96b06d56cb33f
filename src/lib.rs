//! An asynchronous correlation layer for a callback-driven MQTT client engine.
//!
//! The verified library holds the parts that decide: how engine return
//! codes map to errors, how commands are checked before they are issued,
//! how acknowledgements are matched to the operations that wait for them,
//! and how unsolicited messages are fanned out to the subscriber.
pub mod bridge;
pub mod channel;
pub mod command;
pub mod correlation;
pub mod error;
pub mod facade;
pub mod message;
pub mod options;
pub mod router;
pub mod status;

pub use bridge::{ConnectSlot, Fanout};
pub use correlation::{Outcome, PendingTable};
pub use error::{Error, MosqErr};
pub use facade::{finish_connect, finish_operation};
pub use message::{Message, MessageId, QoS};
pub use options::{ClientOption, MosqOpt, OptionValue, ProtocolVersion};
pub use router::{route_to_topic, Params, Payload, State, Topic};
pub use status::{ConnectionStatus, LibraryVersion, ReasonCode};
