//! Trusted surface of the single-resolution notification channel.
//!
//! Each pending request owns the sending half of a tokio oneshot channel; the
//! suspended submit call owns the receiving half. The awaiting itself is
//! asynchronous and happens outside the library; only the synchronous calls
//! (creating a pair, sending the one value) are made here.

use vstd::prelude::*;

verus! {

#[verifier::external_type_specification]
#[verifier::external_body]
#[verifier::reject_recursive_types(T)]
pub struct ExSender<T>(tokio::sync::oneshot::Sender<T>);

#[verifier::external_type_specification]
#[verifier::external_body]
#[verifier::reject_recursive_types(T)]
pub struct ExReceiver<T>(tokio::sync::oneshot::Receiver<T>);

#[verifier::external_type_specification]
#[verifier::external_body]
pub struct ExRecvError(tokio::sync::oneshot::error::RecvError);

/// Relies on tokio::sync::oneshot::channel: a fresh pair whose sender can
/// deliver exactly one value to the receiver.
pub assume_specification<T>[ tokio::sync::oneshot::channel::<T> ]() -> (r: (
    tokio::sync::oneshot::Sender<T>,
    tokio::sync::oneshot::Receiver<T>,
));

/// Relies on tokio::sync::oneshot::Sender::send: the sender is consumed, so
/// at most one value ever crosses the channel; when the receiver is already
/// gone the value comes back unchanged in the error.
pub assume_specification<T>[ tokio::sync::oneshot::Sender::<T>::send ](
    s: tokio::sync::oneshot::Sender<T>,
    t: T,
) -> (r: Result<(), T>)
    ensures
        r matches Err(v) ==> v == t,
;

} // verus!
