//! The one-shot completion signals and the fan-out stream are channels of
//! the `async_channel` crate; these are the items of it that the library uses.
use vstd::prelude::*;
use async_channel::{Receiver, Sender};

verus! {

/// The sending half of a channel: opaque to the library.
#[verifier::external_type_specification]
#[verifier::external_body]
#[verifier::reject_recursive_types(T)]
pub struct ExSender<T>(Sender<T>);

/// The receiving half of a channel: opaque to the library.
#[verifier::external_type_specification]
#[verifier::external_body]
#[verifier::reject_recursive_types(T)]
pub struct ExReceiver<T>(Receiver<T>);

/// Relies on `async_channel::bounded`, which panics on a capacity of zero.
pub assume_specification<T>[ async_channel::bounded::<T> ](cap: usize) -> (Sender<T>, Receiver<T>)
    requires
        cap > 0,
;

/// Relies on `async_channel::unbounded`.
pub assume_specification<T>[ async_channel::unbounded::<T> ]() -> (Sender<T>, Receiver<T>);

/// Relies on `async_channel::Sender::try_send`: true when the message went
/// into the channel, false when the channel was full or closed. Which one
/// happens depends on the receivers, so nothing is promised of it.
#[verifier::external_body]
pub(crate) fn offer<T>(tx: &Sender<T>, msg: T) -> (sent: bool) {
    tx.try_send(msg).is_ok()
}

} // verus!
