//! The channels between the handles of a connection and its actor.
//!
//! The channels are those of `tokio::sync`. What is believed of them stands here.

use std::sync::atomic::AtomicU8;
use std::sync::Arc;

use tokio::sync::{mpsc, oneshot};
use vstd::prelude::*;

use crate::service::{CallResult, Command, DisconnectResult};

verus! {

/// `tokio::sync::mpsc::Sender`: the end of a channel at which values are queued.
#[verifier::external_type_specification]
#[verifier::external_body]
#[verifier::reject_recursive_types(T)]
pub struct ExMpscSender<T>(mpsc::Sender<T>);

/// `tokio::sync::mpsc::Receiver`: the end of a channel at which queued values come
/// out.
#[verifier::external_type_specification]
#[verifier::external_body]
#[verifier::reject_recursive_types(T)]
pub struct ExMpscReceiver<T>(mpsc::Receiver<T>);

/// `tokio::sync::oneshot::Sender`: the right to give one answer.
#[verifier::external_type_specification]
#[verifier::external_body]
#[verifier::reject_recursive_types(T)]
pub struct ExOneshotSender<T>(oneshot::Sender<T>);

/// `tokio::sync::oneshot::Receiver`: where the one answer comes out.
#[verifier::external_type_specification]
#[verifier::external_body]
#[verifier::reject_recursive_types(T)]
pub struct ExOneshotReceiver<T>(oneshot::Receiver<T>);

/// `tokio::sync::oneshot::error::RecvError`: the news that no answer will come. It is
/// part of what awaiting a `Receiver` gives, so that type cannot be declared without it.
#[verifier::external_type_specification]
#[verifier::external_body]
pub struct ExRecvError(oneshot::error::RecvError);

/// How many commands the channel behind `tx` was made to hold.
pub uninterp spec fn capacity(tx: mpsc::Sender<Command>) -> nat;

/// Whether what is queued at `tx` comes out at `rx`.
pub uninterp spec fn feeds(tx: mpsc::Sender<Command>, rx: mpsc::Receiver<Command>) -> bool;

/// Whether the answer to a call that is given at `tx` comes out at `rx`.
pub uninterp spec fn answers_call(
    tx: oneshot::Sender<CallResult>,
    rx: oneshot::Receiver<CallResult>,
) -> bool;

/// Whether the answer to a disconnect that is given at `tx` comes out at `rx`.
pub uninterp spec fn answers_disconnect(
    tx: oneshot::Sender<DisconnectResult>,
    rx: oneshot::Receiver<DisconnectResult>,
) -> bool;

/// Whether answers to a call that come out at `rx` are given at `tx` and nowhere else.
pub open spec fn pairs_call(
    tx: oneshot::Sender<CallResult>,
    rx: oneshot::Receiver<CallResult>,
) -> bool {
    &&& answers_call(tx, rx)
    &&& forall|other: oneshot::Sender<CallResult>| #[trigger]
        answers_call(other, rx) ==> other == tx
}

/// Whether answers to a disconnect that come out at `rx` are given at `tx` and nowhere
/// else.
pub open spec fn pairs_disconnect(
    tx: oneshot::Sender<DisconnectResult>,
    rx: oneshot::Receiver<DisconnectResult>,
) -> bool {
    &&& answers_disconnect(tx, rx)
    &&& forall|other: oneshot::Sender<DisconnectResult>| #[trigger]
        answers_disconnect(other, rx) ==> other == tx
}

/// `tokio::sync::mpsc::channel`: a new channel that holds at most `bound` commands,
/// by its two ends. It panics on a bound of zero and on one over
/// `Semaphore::MAX_PERMITS`, which is an eighth of `usize::MAX`.
#[verifier::external_body]
pub(crate) fn command_channel(bound: usize) -> (res: (
    mpsc::Sender<Command>,
    mpsc::Receiver<Command>,
))
    requires
        0 < bound <= usize::MAX / 8,
    ensures
        capacity(res.0) == bound,
        feeds(res.0, res.1),
{
    mpsc::channel(bound)
}

/// `tokio::sync::mpsc::Sender::clone`: another sender for the same channel.
#[verifier::external_body]
pub(crate) fn clone_sender(tx: &mpsc::Sender<Command>) -> (res: mpsc::Sender<Command>)
    ensures
        capacity(res) == capacity(*tx),
        forall|rx: mpsc::Receiver<Command>| #[trigger] feeds(res, rx) == feeds(*tx, rx),
{
    tx.clone()
}

/// `tokio::sync::oneshot::channel`: a new channel for the answer to a call, by its
/// two ends. The receiver has this one sender, which cannot be cloned.
#[verifier::external_body]
pub(crate) fn call_channel() -> (res: (oneshot::Sender<CallResult>, oneshot::Receiver<CallResult>))
    ensures
        answers_call(res.0, res.1),
        forall|other: oneshot::Sender<CallResult>| #[trigger]
            answers_call(other, res.1) ==> other == res.0,
{
    oneshot::channel()
}

/// `tokio::sync::oneshot::channel`: a new channel for the answer to a disconnect,
/// by its two ends. The receiver has this one sender, which cannot be cloned.
#[verifier::external_body]
pub(crate) fn disconnect_channel() -> (res: (
    oneshot::Sender<DisconnectResult>,
    oneshot::Receiver<DisconnectResult>,
))
    ensures
        answers_disconnect(res.0, res.1),
        forall|other: oneshot::Sender<DisconnectResult>| #[trigger]
            answers_disconnect(other, res.1) ==> other == res.0,
{
    oneshot::channel()
}

/// `tokio::sync::oneshot::Sender::send`: gives the answer, or hands it back if it
/// is known that nobody will receive it. Which of the two comes depends on whether
/// the receiver is still there.
pub assume_specification<T>[ oneshot::Sender::<T>::send ](
    tx: oneshot::Sender<T>,
    t: T,
) -> (res: Result<(), T>)
    ensures
        res matches Err(refused) ==> refused == t,
;

/// `std::sync::Arc::clone`: another pointer to the same number.
#[verifier::external_body]
pub(crate) fn share(cell: &Arc<AtomicU8>) -> (res: Arc<AtomicU8>)
    ensures
        res == *cell,
{
    Arc::clone(cell)
}

} // verus!
