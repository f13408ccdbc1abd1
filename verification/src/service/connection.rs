//! The decisions of a connection actor.
//!
//! The actor owns the connection and serves its commands one at a time. Each of its
//! stages is a type of its own, and is used up by the event that ends it:
//!
//! - [`Actor`] waits for a command,
//! - [`Sending`] waits until the request of a call is written,
//! - [`Receiving`] waits for the reply to it,
//! - [`Closing`] waits until the transport is shut down.

use tokio::sync::oneshot;
use vstd::prelude::*;

use crate::error::{Error, IoError, ProtocolError};
use crate::frame::{
    ExceptionResponse, FrameHeader, FunctionCode, Request, RequestAdu, RequestPdu, ResponseAdu,
    ResponsePdu,
};
use crate::service::{
    disconnect, verify_response_header, CallResult, Command, DisconnectResult,
};
use crate::slave::Slave;

verus! {

/// How a kind of transport frames its requests.
pub trait Framing: Sized {
    /// The header of its frames.
    type Hdr: FrameHeader;

    /// What is known when a stream of replies ends.
    type End;

    /// The header of the next request, if it goes to `slave`.
    spec fn header(self, slave: Slave) -> Self::Hdr;

    /// The framing after one more request.
    spec fn advanced(self) -> Self;

    /// How a call fails when the replies end before its own.
    spec fn end_error(end: Self::End) -> IoError;

    /// Takes the header for the next request, which goes to `slave`.
    fn next_header(&mut self, slave: Slave) -> (res: Self::Hdr)
        ensures
            res == old(self).header(slave),
            *final(self) == old(self).advanced(),
    ;

    /// How a call fails when the replies end before its own.
    fn end_of_stream(end: Self::End) -> (res: IoError)
        ensures
            res == Self::end_error(end),
    ;
}

/// What is remembered of a request until its reply is there.
#[derive(Debug)]
pub struct Exchange<H> {
    pub hdr: H,
    pub function: FunctionCode,
}

/// Whether `res` is what a call comes to when `adu` is received.
///
/// A reply to the request gives the answer that it carries. Anything else is a
/// protocol error, about the header before the function, and keeps the answer.
pub open spec fn concludes<H: FrameHeader>(
    exchange: Exchange<H>,
    adu: ResponseAdu<H>,
    res: CallResult,
) -> bool {
    if adu.hdr != exchange.hdr {
        &&& res matches Err(Error::Protocol(ProtocolError::HeaderMismatch { message, result }))
        &&& message@ == crate::service::mismatch_message(exchange.hdr, adu.hdr)
        &&& result == adu.pdu.0
    } else if crate::frame::answered_function(adu.pdu.0) != exchange.function {
        res == CallResult::Err(
            Error::Protocol(
                ProtocolError::FunctionCodeMismatch {
                    request: exchange.function,
                    result: adu.pdu.0,
                },
            ),
        )
    } else {
        match adu.pdu.0 {
            Ok(response) => res == CallResult::Ok(Ok(response)),
            Err(refusal) => res == CallResult::Ok(Err(refusal.exception)),
        }
    }
}

impl<H: FrameHeader> Exchange<H> {
    /// Frames `req` under `hdr`.
    pub fn begin(hdr: H, req: Request<'static>) -> (res: (RequestAdu<'static, H>, Self))
        ensures
            res.0.hdr == hdr,
            res.0.pdu.0 == req,
            res.1.hdr == hdr,
            res.1.function == req@.function(),
    {
        let req_function_code = req.function_code();
        let req_adu = RequestAdu { hdr, pdu: RequestPdu::from(req) };
        (req_adu, Exchange { hdr, function: req_function_code })
    }

    /// What the call comes to when `res_adu` is received.
    pub fn conclude(self, res_adu: ResponseAdu<H>) -> (res: CallResult)
        ensures
            concludes(self, res_adu, res),
    {
        let ResponseAdu { hdr: res_hdr, pdu: res_pdu } = res_adu;
        let ResponsePdu(result) = res_pdu;

        // Match headers of request and response.
        if let Err(message) = verify_response_header(&self.hdr, &res_hdr) {
            return Err(Error::Protocol(ProtocolError::HeaderMismatch { message, result }));
        }
        // Match function codes of request and response.
        let rsp_function_code = match &result {
            Ok(response) => response.function_code(),
            Err(ExceptionResponse { function, .. }) => *function,
        };
        if self.function != rsp_function_code {
            return Err(
                Error::Protocol(
                    ProtocolError::FunctionCodeMismatch { request: self.function, result },
                ),
            );
        }
        match result {
            Ok(response) => Ok(Ok(response)),
            Err(ExceptionResponse { function: _, exception }) => Ok(Err(exception)),
        }
    }
}

/// An answer and the one to whom it is due.
#[derive(Debug)]
#[verifier::reject_recursive_types(T)]
pub struct Reply<T> {
    pub response_tx: oneshot::Sender<T>,
    pub value: T,
}

impl<T> Reply<T> {
    /// Gives the answer, or hands it back if nobody waits for it any more. The result is
    /// that of sending this answer to the one to whom it is due.
    pub fn deliver(self) -> (res: Result<(), T>)
        ensures
            call_ensures(oneshot::Sender::<T>::send, (self.response_tx, self.value), res),
            res matches Err(undelivered) ==> undelivered == self.value,
    {
        self.response_tx.send(self.value)
    }
}

/// An actor between two commands.
#[derive(Debug)]
pub struct Actor<F> {
    pub framing: F,
}

/// An actor that writes the request of a call.
pub struct Sending<F: Framing> {
    pub framing: F,
    pub exchange: Exchange<F::Hdr>,
    pub response_tx: oneshot::Sender<CallResult>,
}

/// An actor that waits for the reply to a call.
pub struct Receiving<F: Framing> {
    pub framing: F,
    pub exchange: Exchange<F::Hdr>,
    pub response_tx: oneshot::Sender<CallResult>,
}

/// An actor that shuts its transport down.
#[derive(Debug)]
pub struct Closing {
    pub response_tx: oneshot::Sender<DisconnectResult>,
}

/// What an actor does about a command.
pub enum Served<F: Framing> {
    /// Forget what has been received so far, then write `adu`.
    Call { adu: RequestAdu<'static, F::Hdr>, sending: Sending<F> },
    /// Shut the transport down.
    Disconnect(Closing),
    /// All handles are gone: drop the connection and exit.
    Finished,
}

/// What an actor does when a request has been written, or could not be.
pub enum Sent<F: Framing> {
    /// Wait for the reply.
    Receive(Receiving<F>),
    /// Answer the call, then wait for the next command.
    Answer(Answered<F>),
}

/// What was read in place of a reply.
pub enum Received<F: Framing> {
    /// A frame.
    Frame(ResponseAdu<F::Hdr>),
    /// Reading or decoding failed.
    Failed(IoError),
    /// There is nothing more to read.
    End(F::End),
}

/// The answer to a call, and the actor after it.
pub struct Answered<F> {
    pub reply: Reply<CallResult>,
    pub actor: Actor<F>,
}

/// Whether `res` is what a call comes to when `received` is read.
pub open spec fn results_in<F: Framing>(
    exchange: Exchange<F::Hdr>,
    received: Received<F>,
    res: CallResult,
) -> bool {
    match received {
        Received::Frame(adu) => concludes(exchange, adu, res),
        Received::Failed(err) => res == CallResult::Err(Error::Transport(err)),
        Received::End(end) => res == CallResult::Err(Error::Transport(F::end_error(end))),
    }
}

/// Whether `served` is what `actor` does about `command`.
pub open spec fn serves<F: Framing>(
    actor: Actor<F>,
    command: Option<Command>,
    served: Served<F>,
) -> bool {
    match command {
        Some(Command::Call { request, slave, response_tx }) => {
            &&& served matches Served::Call { adu, sending }
            &&& adu.hdr == actor.framing.header(slave)
            &&& adu.pdu.0 == request
            &&& sending.framing == actor.framing.advanced()
            &&& sending.exchange.hdr == adu.hdr
            &&& sending.exchange.function == request@.function()
            &&& sending.response_tx == response_tx
        },
        Some(Command::Disconnect { response_tx }) => served == Served::<F>::Disconnect(
            Closing { response_tx },
        ),
        None => served == Served::<F>::Finished,
    }
}

/// Whether `next` is what `sending` does when writing came to `result`.
pub open spec fn proceeds<F: Framing>(
    sending: Sending<F>,
    result: Result<(), IoError>,
    next: Sent<F>,
) -> bool {
    match result {
        Ok(()) => next == Sent::Receive(
            Receiving {
                framing: sending.framing,
                exchange: sending.exchange,
                response_tx: sending.response_tx,
            },
        ),
        Err(err) => next == Sent::Answer(
            Answered {
                reply: Reply {
                    response_tx: sending.response_tx,
                    value: CallResult::Err(Error::Transport(err)),
                },
                actor: Actor { framing: sending.framing },
            },
        ),
    }
}

/// Whether `answered` is what `receiving` does when `received` is read.
pub open spec fn answers<F: Framing>(
    receiving: Receiving<F>,
    received: Received<F>,
    answered: Answered<F>,
) -> bool {
    &&& answered.reply.response_tx == receiving.response_tx
    &&& answered.actor == (Actor { framing: receiving.framing })
    &&& results_in(receiving.exchange, received, answered.reply.value)
}

impl<F: Framing> Actor<F> {
    /// An actor that has served no command yet.
    pub fn new(framing: F) -> (res: Self)
        ensures
            res.framing == framing,
    {
        Actor { framing }
    }

    /// Serves the next command, or the news that there will be none.
    pub fn serve(self, command: Option<Command>) -> (res: Served<F>)
        ensures
            serves(self, command, res),
    {
        match command {
            Some(Command::Call { request, slave, response_tx }) => {
                let mut framing = self.framing;
                let hdr = framing.next_header(slave);
                let (adu, exchange) = Exchange::begin(hdr, request);
                Served::Call { adu, sending: Sending { framing, exchange, response_tx } }
            },
            Some(Command::Disconnect { response_tx }) => Served::Disconnect(
                Closing { response_tx },
            ),
            None => Served::Finished,
        }
    }
}

impl<F: Framing> Sending<F> {
    /// Goes on when the request has been written, or could not be.
    pub fn sent(self, result: Result<(), IoError>) -> (res: Sent<F>)
        ensures
            proceeds(self, result, res),
    {
        match result {
            Ok(()) => Sent::Receive(
                Receiving {
                    framing: self.framing,
                    exchange: self.exchange,
                    response_tx: self.response_tx,
                },
            ),
            Err(err) => Sent::Answer(
                Answered {
                    reply: Reply {
                        response_tx: self.response_tx,
                        value: Err(Error::Transport(err)),
                    },
                    actor: Actor { framing: self.framing },
                },
            ),
        }
    }
}

impl<F: Framing> Receiving<F> {
    /// Answers the call.
    pub fn received(self, received: Received<F>) -> (res: Answered<F>)
        ensures
            answers(self, received, res),
    {
        let value = match received {
            Received::Frame(res_adu) => self.exchange.conclude(res_adu),
            Received::Failed(err) => Err(Error::Transport(err)),
            Received::End(end) => Err(Error::Transport(F::end_of_stream(end))),
        };
        Answered {
            reply: Reply { response_tx: self.response_tx, value },
            actor: Actor { framing: self.framing },
        }
    }
}

impl Closing {
    /// Answers the disconnect. The actor is gone after that.
    pub fn shut_down(self, shutdown: Result<(), IoError>) -> (res: Reply<DisconnectResult>)
        ensures
            res.response_tx == self.response_tx,
            res.value == crate::service::shutdown_result(shutdown),
    {
        Reply { response_tx: self.response_tx, value: disconnect(shutdown) }
    }
}

} // verus!
