//! The one-shot wake signal of a running countdown, taken from tokio.
//!
//! Nothing in this file is proved: it tells the verifier which tokio items
//! the engine uses and what it may rely on.

use vstd::prelude::*;
use tokio::sync::oneshot::{Receiver, Sender};

verus! {

/// `tokio::sync::oneshot::Sender`: the sending half of a one-shot channel.
/// The engine stores it and hands it to `send`; it never looks inside.
#[verifier::external_type_specification]
#[verifier::external_body]
#[verifier::reject_recursive_types(T)]
pub struct ExSender<T>(Sender<T>);

/// `tokio::sync::oneshot::Receiver`: the receiving half, which the host
/// awaits. The engine only passes it on.
#[verifier::external_type_specification]
#[verifier::external_body]
#[verifier::reject_recursive_types(T)]
pub struct ExReceiver<T>(Receiver<T>);

/// `tokio::sync::oneshot::error::RecvError`: what awaiting the receiving
/// half yields when the sender went away without sending. The engine never
/// makes or reads one; the verifier asks for the type because the receiving
/// half names it.
#[verifier::external_type_specification]
#[verifier::external_body]
pub struct ExRecvError(tokio::sync::oneshot::error::RecvError);

/// `tokio::sync::oneshot::channel` makes a connected pair of halves. It
/// takes no input and does not fail; nothing is claimed of the pair.
pub assume_specification<T>[ tokio::sync::oneshot::channel::<T> ]() -> (pair: (
    Sender<T>,
    Receiver<T>,
));

/// `tokio::sync::oneshot::Sender::send` consumes the sender and never
/// waits. Whether the value arrives depends on the receiving half, so the
/// outcome is left open; a value that could not be sent comes back as it
/// went in.
pub assume_specification<T>[ tokio::sync::oneshot::Sender::<T>::send ](
    sender: Sender<T>,
    t: T,
) -> (sent: Result<(), T>)
    ensures
        sent matches Err(back) ==> back == t,
;

} // verus!
