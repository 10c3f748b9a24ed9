//! The trusted boundary to tokio's one-shot channels.
//!
//! A one-shot channel is the reply slot of the correlator and of the
//! completion waiter: the sending half is consumed by its single `send`,
//! the receiving half is awaited outside the verified core.

use tokio::sync::oneshot;
use vstd::prelude::*;

verus! {

#[verifier::external_type_specification]
#[verifier::external_body]
#[verifier::reject_recursive_types(T)]
pub struct ExOneshotSender<T>(oneshot::Sender<T>);

#[verifier::external_type_specification]
#[verifier::external_body]
#[verifier::reject_recursive_types(T)]
pub struct ExOneshotReceiver<T>(oneshot::Receiver<T>);

#[verifier::external_type_specification]
#[verifier::external_body]
pub struct ExOneshotRecvError(oneshot::error::RecvError);

/// Relies on tokio::sync::oneshot::channel: returns a fresh connected
/// sender/receiver pair.
pub assume_specification<T>[ oneshot::channel::<T> ]() -> (r: (
    oneshot::Sender<T>,
    oneshot::Receiver<T>,
));

/// Relies on tokio::sync::oneshot::Sender::send: consumes the sender and
/// delivers `t` to the receiver; when the receiver is already gone the
/// value comes back as `Err(t)`.
pub assume_specification<T>[ oneshot::Sender::<T>::send ](s: oneshot::Sender<T>, t: T) -> (r:
    Result<(), T>)
    ensures
        r matches Err(v) ==> v == t,
;

} // verus!
