//! Declarations, believed without proof, for the outside crates the bridge
//! is built on: crossbeam-channel carries commands and replies between
//! threads, and serde_json's `Value` is the structured host value that
//! crosses the bridge opaquely.

use vstd::prelude::*;

verus! {

/// serde_json's structured value. The bridge never looks inside one: it is
/// carried from callers to the engine glue (as call arguments) and back
/// (as call results) as an opaque, owned host value.
#[verifier::external_type_specification]
#[verifier::external_body]
pub struct ExValue(serde_json::Value);

/// crossbeam-channel's sender half of a multi-producer channel.
#[verifier::external_type_specification]
#[verifier::external_body]
#[verifier::reject_recursive_types(T)]
pub struct ExSender<T>(crossbeam_channel::Sender<T>);

/// crossbeam-channel's receiver half.
#[verifier::external_type_specification]
#[verifier::external_body]
#[verifier::reject_recursive_types(T)]
pub struct ExReceiver<T>(crossbeam_channel::Receiver<T>);

/// crossbeam-channel's error for a send on a disconnected channel; it
/// carries the undelivered message, which this library drops.
#[verifier::external_type_specification]
#[verifier::external_body]
#[verifier::reject_recursive_types(T)]
pub struct ExSendError<T>(crossbeam_channel::SendError<T>);

/// crossbeam-channel's error for a receive on an empty, disconnected channel.
#[verifier::external_type_specification]
#[verifier::external_body]
pub struct ExRecvError(crossbeam_channel::RecvError);

/// Relies on crossbeam_channel::unbounded: returns the two halves of a
/// fresh unbounded channel. What later travels through it cannot be stated
/// here; each use states what holds of every receive outcome.
pub assume_specification<T>[ crossbeam_channel::unbounded::<T> ]() -> (r: (
    crossbeam_channel::Sender<T>,
    crossbeam_channel::Receiver<T>,
));

/// Relies on crossbeam_channel::Sender::send: on an unbounded channel it
/// never blocks, and it returns `Err` exactly when every receiver has been
/// dropped. Which of the two outcomes occurs depends on the other side's
/// state, so nothing is promised of the result.
pub assume_specification<T>[ crossbeam_channel::Sender::<T>::send ](
    s: &crossbeam_channel::Sender<T>,
    msg: T,
) -> (r: Result<(), crossbeam_channel::SendError<T>>);

/// Relies on crossbeam_channel::Receiver::recv: blocks until a message
/// arrives or every sender has been dropped, and returns `Err` only in the
/// latter case. Which outcome occurs depends on the senders, so nothing is
/// promised of the result.
pub assume_specification<T>[ crossbeam_channel::Receiver::<T>::recv ](
    r: &crossbeam_channel::Receiver<T>,
) -> (res: Result<T, crossbeam_channel::RecvError>);

/// Relies on crossbeam_channel::Sender's Clone: yields another sender
/// connected to the same channel.
pub assume_specification<T>[ <crossbeam_channel::Sender<T> as Clone>::clone ](
    s: &crossbeam_channel::Sender<T>,
) -> (r: crossbeam_channel::Sender<T>);

} // verus!
