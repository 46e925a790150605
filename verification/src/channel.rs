//! The queue primitive under the protocol: the channels of `crossbeam_channel`.
//!
//! Nothing in this file is proved. A channel's ends are opaque to the
//! verifier, and what a send or a receive yields depends on what other
//! threads do, so the contracts below promise nothing about results; they only
//! keep out the arguments on which the channel implementation panics. What
//! the protocol relies on beyond that is said in [`crate::protocol`]: the
//! inbox hands signals out in the order in which it took them, and refuses
//! them once its receiving end is gone.

use vstd::prelude::*;
use crossbeam_channel::{Receiver, RecvError, SendError, Sender};

verus! {

/// The sending end of a channel.
#[verifier::external_type_specification]
#[verifier::external_body]
#[verifier::reject_recursive_types(T)]
pub struct ExSender<T>(Sender<T>);

/// The receiving end of a channel.
#[verifier::external_type_specification]
#[verifier::external_body]
#[verifier::reject_recursive_types(T)]
pub struct ExReceiver<T>(Receiver<T>);

/// The error of `Sender::send`, which holds the message that was not sent.
#[verifier::external_type_specification]
#[verifier::external_body]
#[verifier::reject_recursive_types(T)]
pub struct ExSendError<T>(SendError<T>);

/// The error of `Receiver::recv`.
#[verifier::external_type_specification]
#[verifier::external_body]
pub struct ExRecvError(RecvError);

/// `crossbeam_channel::unbounded` creates a channel that holds any number of
/// messages. Nothing is claimed of the two ends.
pub assume_specification<T>[ crossbeam_channel::unbounded::<T> ]() -> (ends: (
    Sender<T>,
    Receiver<T>,
));

/// `crossbeam_channel::bounded` creates a channel that holds at most `cap`
/// messages, and panics where `cap` is too large for its buffer. With at most
/// one slot neither its capacity arithmetic nor the buffer's size can
/// overflow, whatever the message type. Nothing is claimed of the two ends.
pub assume_specification<T>[ crossbeam_channel::bounded::<T> ](cap: usize) -> (ends: (
    Sender<T>,
    Receiver<T>,
))
    requires
        cap <= 1,
;

/// `Sender::send` puts a message in the channel. It blocks while the channel
/// is full, which one without bound never is, and fails once every receiver
/// is gone. Nothing is claimed of whether it succeeds.
pub assume_specification<T>[ Sender::<T>::send ](tx: &Sender<T>, msg: T) -> (sent: Result<
    (),
    SendError<T>,
>);

/// `Receiver::recv` takes the oldest message out of the channel. It blocks
/// until there is one, for as long as that takes, and fails once the channel
/// is empty and every sender is gone. Nothing is claimed of what is received.
pub assume_specification<T>[ Receiver::<T>::recv ](rx: &Receiver<T>) -> (received: Result<
    T,
    RecvError,
>);

/// `Sender::clone` makes another sender on the same channel. Nothing is
/// claimed of it here. (It ends the process rather than let the count of
/// senders overflow, which takes more clones than memory can hold.)
pub assume_specification<T>[ <Sender<T> as Clone>::clone ](tx: &Sender<T>) -> (other: Sender<T>);

} // verus!
