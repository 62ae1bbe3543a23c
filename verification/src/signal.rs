//! The cancellation signal of a supervisor: a channel that carries one
//! message, once.

use vstd::prelude::*;

verus! {

/// The sending half of a one-shot channel of `futures`. Sending consumes
/// it, so a signal cannot be sent twice.
#[verifier::external_type_specification]
#[verifier::external_body]
#[verifier::reject_recursive_types(T)]
pub struct ExSender<T>(futures::channel::oneshot::Sender<T>);

/// The receiving half of a one-shot channel of `futures`.
#[verifier::external_type_specification]
#[verifier::external_body]
#[verifier::reject_recursive_types(T)]
pub struct ExReceiver<T>(futures::channel::oneshot::Receiver<T>);

/// What the receiving half of a one-shot channel of `futures` yields where
/// the sending half was dropped without sending.
#[verifier::external_type_specification]
#[verifier::external_body]
pub struct ExCanceled(futures::channel::oneshot::Canceled);

/// `futures::channel::oneshot::channel` makes the two halves of a new
/// channel. Nothing is claimed of them.
pub assume_specification<T>[ futures::channel::oneshot::channel::<T> ]() -> (out: (
    futures::channel::oneshot::Sender<T>,
    futures::channel::oneshot::Receiver<T>,
));

/// `futures::channel::oneshot::Sender::send` hands the message to the
/// receiving half. Whether it succeeds depends on whether that half still
/// exists, so only this is claimed: a message that could not be handed over
/// comes back unchanged.
pub assume_specification<T>[ futures::channel::oneshot::Sender::<T>::send ](
    sender: futures::channel::oneshot::Sender<T>,
    t: T,
) -> (out: Result<(), T>)
    ensures
        out is Err ==> out->Err_0 == t,
;

} // verus!
