//! Handles on a connection and the commands that they queue for its actor.

use std::sync::atomic::{AtomicU8, Ordering};
use std::sync::Arc;

use tokio::sync::{mpsc, oneshot};
use vstd::prelude::*;

use crate::error::{Error, IoError, IoErrorCause, IoErrorKind};
use crate::frame::{ExceptionCode, Request, Response};
use crate::service::channel;
use crate::slave::Slave;

verus! {

/// Bound of the command channel between a [`Handle`] and its actor.
///
/// Acts as backpressure: at most this many commands can be queued ahead of the one
/// currently being processed before a handle has to wait.
pub const REQUEST_CHANNEL_BOUND: usize = 32;

/// What a call comes to: the answer of the device, or why there is none.
pub type CallResult = Result<Result<Response, ExceptionCode>, Error>;

/// What a disconnect comes to.
pub type DisconnectResult = Result<(), IoError>;

/// A command sent from a [`Handle`] to its connection actor.
#[derive(Debug)]
#[allow(inconsistent_fields)]
pub enum Command {
    /// Invoke a _Modbus_ function against `slave` and reply on `response_tx`.
    Call {
        request: Request<'static>,
        slave: Slave,
        response_tx: oneshot::Sender<CallResult>,
    },
    /// Gracefully shut down the connection; the actor exits afterwards.
    Disconnect { response_tx: oneshot::Sender<DisconnectResult> },
}

/// What became of a command that was offered to the actor.
#[derive(Debug)]
pub enum Delivery<T> {
    /// The actor is gone: the command could not be queued.
    Refused,
    /// The command was queued, but its sender was dropped without an answer.
    Dropped,
    /// The actor answered.
    Answered(T),
}

/// Transport-independent, cloneable client handle backed by a connection actor.
///
/// The selected slave is a number that a handle shares with its clones: made when the
/// handle is, stored by [`Handle::set_slave`], and loaded for each call. Any of the
/// handles may store at any time, so which value a load gives is not stated.
#[derive(Debug)]
pub struct Handle {
    command_tx: mpsc::Sender<Command>,
    // Per-handle slave selection, snapshotted into each `Call` command. Shared
    // between clones so `set_slave` on one is visible to the others.
    slave: Arc<AtomicU8>,
}

impl Handle {
    /// The end of the command channel at which this handle queues.
    pub closed spec fn sender(self) -> mpsc::Sender<Command> {
        self.command_tx
    }

    /// The shared number that holds the selected slave.
    pub closed spec fn selection(self) -> Arc<AtomicU8> {
        self.slave
    }

    /// A handle that queues at `command_tx`, with `slave` selected until another is.
    pub fn new(command_tx: mpsc::Sender<Command>, slave: Slave) -> (res: Self)
        ensures
            res.sender() == command_tx,
            call_ensures(AtomicU8::new, (slave.0,), *res.selection()),
    {
        Handle { command_tx, slave: Arc::new(AtomicU8::new(slave.0)) }
    }

    /// A handle on a new command channel, with `slave` selected until another is, and the
    /// end at which its commands come out.
    pub fn open(slave: Slave) -> (res: (Self, mpsc::Receiver<Command>))
        ensures
            channel::capacity(res.0.sender()) == REQUEST_CHANNEL_BOUND,
            channel::feeds(res.0.sender(), res.1),
            call_ensures(AtomicU8::new, (slave.0,), *res.0.selection()),
    {
        let (command_tx, command_rx) = channel::command_channel(REQUEST_CHANNEL_BOUND);
        (Handle::new(command_tx, slave), command_rx)
    }

    /// The end of the command channel at which this handle queues. The selection is not
    /// touched.
    pub fn command_tx(&self) -> (res: &mpsc::Sender<Command>)
        ensures
            *res == self.sender(),
        opens_invariants none
    {
        &self.command_tx
    }

    /// Selects the slave that later calls address, with this handle and its clones: its
    /// number is stored where all of them load it from.
    pub fn set_slave(&self, slave: Slave)
        ensures
            call_ensures(AtomicU8::store, (&*self.selection(), slave.0, Ordering::Relaxed), ()),
    {
        self.slave.store(slave.0, Ordering::Relaxed);
    }

    /// The command for a call of the currently selected slave, whose number is loaded
    /// here and now, and where its answer comes out.
    pub fn prepare_call(&self, request: Request<'_>) -> (res: (
        Command,
        oneshot::Receiver<CallResult>,
    ))
        ensures
            res.0 matches Command::Call { request: queued, slave: addressed, response_tx }
                && queued@ == request@ && channel::pairs_call(response_tx, res.1)
                && call_ensures(
                AtomicU8::load,
                (&*self.selection(), Ordering::Relaxed),
                addressed.0,
            ),
    {
        let slave = Slave(self.slave.load(Ordering::Relaxed));
        call_command(request, slave)
    }

    /// The command for a disconnect, and where its answer comes out.
    pub fn prepare_disconnect(&self) -> (res: (Command, oneshot::Receiver<DisconnectResult>))
        ensures
            res.0 matches Command::Disconnect { response_tx } && channel::pairs_disconnect(
                response_tx,
                res.1,
            ),
    {
        let (response_tx, response_rx) = channel::disconnect_channel();
        (Command::Disconnect { response_tx }, response_rx)
    }
}

impl Clone for Handle {
    fn clone(&self) -> (res: Self)
        ensures
            res.selection() == self.selection(),
            channel::capacity(res.sender()) == channel::capacity(self.sender()),
            forall|rx: mpsc::Receiver<Command>| #[trigger]
                channel::feeds(res.sender(), rx) == channel::feeds(self.sender(), rx),
    {
        Handle {
            command_tx: channel::clone_sender(&self.command_tx),
            slave: channel::share(&self.slave),
        }
    }
}

/// The command for a call of `slave`, and where its answer comes out.
pub fn call_command(request: Request<'_>, slave: Slave) -> (res: (
    Command,
    oneshot::Receiver<CallResult>,
))
    ensures
        res.0 matches Command::Call { request: queued, slave: addressed, response_tx }
            && queued@ == request@ && addressed == slave && channel::pairs_call(
            response_tx,
            res.1,
        ),
{
    let (response_tx, response_rx) = channel::call_channel();
    let command = Command::Call { request: request.into_owned(), slave, response_tx };
    (command, response_rx)
}

/// The failure of a call when the actor is gone or never replied.
pub open spec fn is_disconnected(err: Error) -> bool {
    &&& err matches Error::Transport(io)
    &&& io.kind == IoErrorKind::NotConnected
    &&& io.cause matches IoErrorCause::Message(text)
    &&& text@ == "disconnected"@
}

/// Error returned when the actor is gone (channel closed) or never replied.
pub fn disconnected() -> (res: Error)
    ensures
        is_disconnected(res),
{
    Error::Transport(
        IoError {
            kind: IoErrorKind::NotConnected,
            cause: IoErrorCause::Message("disconnected"),
        },
    )
}

/// Whether `res` is what a caller is told of a call that came to `delivery`.
pub open spec fn is_call_outcome(delivery: Delivery<CallResult>, res: CallResult) -> bool {
    match delivery {
        Delivery::Refused | Delivery::Dropped => res matches Err(err) && is_disconnected(err),
        Delivery::Answered(answer) => res == answer,
    }
}

/// Whether `res` is what a caller is told of a disconnect that came to `delivery`.
pub open spec fn is_disconnect_outcome(
    delivery: Delivery<DisconnectResult>,
    res: DisconnectResult,
) -> bool {
    match delivery {
        Delivery::Refused | Delivery::Dropped => res == DisconnectResult::Ok(()),
        Delivery::Answered(answer) => res == answer,
    }
}

/// What a caller is told of a call. Without an actor to answer it, a call fails.
pub fn call_outcome(delivery: Delivery<CallResult>) -> (res: CallResult)
    ensures
        is_call_outcome(delivery, res),
{
    match delivery {
        Delivery::Refused => Err(disconnected()),
        Delivery::Dropped => Err(disconnected()),
        Delivery::Answered(answer) => answer,
    }
}

/// What a caller is told of a disconnect. Without an actor the connection is
/// already down, which is what was asked for.
pub fn disconnect_outcome(delivery: Delivery<DisconnectResult>) -> (res: DisconnectResult)
    ensures
        is_disconnect_outcome(delivery, res),
{
    match delivery {
        Delivery::Refused => Ok(()),
        Delivery::Dropped => Ok(()),
        Delivery::Answered(answer) => answer,
    }
}

} // verus!
