//! What calls of the service's functions give, and how calls relate to each other.
//!
//! Each law speaks of a result that a function can give for some arguments.

use std::sync::atomic::{AtomicU8, Ordering};
use std::sync::Arc;

use tokio::sync::{mpsc, oneshot};
use vstd::prelude::*;

use crate::error::{Error, IoError, IoErrorKind};
use crate::frame::{FrameHeader, FunctionCode, Request, RequestAdu, Response, ResponseAdu};
use crate::service::connection::{
    Actor, Answered, Closing, Exchange, Framing, Received, Receiving, Reply, Sending, Sent, Served,
};
use crate::service::laws::{Phase, Run, Step};
use crate::service::tcp::TransactionIdGenerator;
use crate::service::{CallResult, Command, Delivery, DisconnectResult, Handle};
use crate::slave::Slave;

verus! {

/// Serving a command is a step from the idle stage.
pub proof fn law_serving_is_a_step<F: Framing>(
    actor: Actor<F>,
    command: Option<Command>,
    served: Served<F>,
)
    requires
        call_ensures(Actor::<F>::serve, (actor, command), served),
    ensures
        crate::service::laws::takes(
            Phase::Idle(actor),
            Step::Serve { command, served },
            match served {
                Served::Call { adu: _, sending } => Phase::Sending(sending),
                Served::Disconnect(closing) => Phase::Closing(closing),
                Served::Finished => Phase::Stopped,
            },
        ),
{
}

/// Going on after writing a request is a step from the sending stage.
pub proof fn law_sending_is_a_step<F: Framing>(
    sending: Sending<F>,
    result: Result<(), IoError>,
    next: Sent<F>,
)
    requires
        call_ensures(Sending::<F>::sent, (sending, result), next),
    ensures
        crate::service::laws::takes(
            Phase::Sending(sending),
            Step::Send { result, next },
            match next {
                Sent::Receive(receiving) => Phase::Receiving(receiving),
                Sent::Answer(answered) => Phase::Idle(answered.actor),
            },
        ),
{
}

/// Answering a call is a step from the receiving stage back to the idle one.
pub proof fn law_receiving_is_a_step<F: Framing>(
    receiving: Receiving<F>,
    received: Received<F>,
    answered: Answered<F>,
)
    requires
        call_ensures(Receiving::<F>::received, (receiving, received), answered),
    ensures
        crate::service::laws::takes(
            Phase::Receiving(receiving),
            Step::Receive { received, answered },
            Phase::Idle(answered.actor),
        ),
{
}

/// Answering a disconnect is a step from the closing stage, and the last one.
pub proof fn law_closing_is_a_step<F: Framing>(
    closing: Closing,
    shutdown: Result<(), IoError>,
    reply: Reply<DisconnectResult>,
)
    requires
        call_ensures(Closing::shut_down, (closing, shutdown), reply),
    ensures
        crate::service::laws::takes(
            Phase::Closing(closing),
            Step::<F>::ShutDown { shutdown, reply },
            Phase::Stopped,
        ),
{
}

/// On a new TCP connection the calls take the transaction ids from zero on, and start
/// over after the greatest.
pub proof fn law_new_connection_counts_from_zero(
    actor: Actor<TransactionIdGenerator>,
    run: Run<TransactionIdGenerator>,
    i: int,
)
    requires
        call_ensures(crate::service::tcp::new_actor, (), actor),
        run.valid(),
        run.phases[0] == Phase::Idle(actor),
        run.calls(i),
    ensures
        run.request(i).hdr.transaction_id == run.call_count(i) % 0x1_0000,
{
    crate::service::laws::law_transaction_ids_are_consecutive(run, i);
}

/// The command for a call says what the request says, addresses the slave given, and is
/// answered where the caller is told to wait.
pub proof fn law_call_command_says_what_the_caller_says(
    request: Request<'_>,
    slave: Slave,
    command: Command,
    response_rx: oneshot::Receiver<CallResult>,
)
    requires
        call_ensures(
            crate::service::actor::call_command,
            (request, slave),
            (command, response_rx),
        ),
    ensures
        command matches Command::Call { request: queued, slave: addressed, response_tx } && {
            &&& queued@ == request@
            &&& addressed.0 == slave.0
            &&& crate::service::channel::answers_call(response_tx, response_rx)
        },
{
}

/// The command that a handle makes for a call says what the request says and is answered
/// where the caller is told to wait.
pub proof fn law_prepared_call_says_what_the_caller_says(
    handle: Handle,
    request: Request<'_>,
    command: Command,
    response_rx: oneshot::Receiver<CallResult>,
)
    requires
        call_ensures(Handle::prepare_call, (&handle, request), (command, response_rx)),
    ensures
        command matches Command::Call { request: queued, slave: _, response_tx } && {
            &&& queued@ == request@
            &&& crate::service::channel::answers_call(response_tx, response_rx)
        },
{
}

/// The command that a handle makes for a disconnect is answered where the caller is told
/// to wait.
pub proof fn law_prepared_disconnect_is_answered_to_its_caller(
    handle: Handle,
    command: Command,
    response_rx: oneshot::Receiver<DisconnectResult>,
)
    requires
        call_ensures(Handle::prepare_disconnect, (&handle,), (command, response_rx)),
    ensures
        command matches Command::Disconnect { response_tx }
            && crate::service::channel::answers_disconnect(response_tx, response_rx),
{
}

/// A clone queues for the same actor as the handle that it is a clone of, and shares its
/// selection.
pub proof fn law_clone_serves_the_same_connection(
    handle: Handle,
    clone: Handle,
    command_rx: mpsc::Receiver<Command>,
)
    requires
        call_ensures(Handle::clone, (&handle,), clone),
    ensures
        clone.selection() == handle.selection(),
        crate::service::channel::capacity(clone.sender()) == crate::service::channel::capacity(
            handle.sender(),
        ),
        crate::service::channel::feeds(clone.sender(), command_rx)
            == crate::service::channel::feeds(handle.sender(), command_rx),
{
}

/// Delivering a reply sends its own value to the one to whom it is due, and an
/// undelivered value comes back unchanged.
pub proof fn law_delivery_sends_the_reply<T>(reply: Reply<T>, res: Result<(), T>)
    requires
        call_ensures(Reply::<T>::deliver, (reply,), res),
    ensures
        call_ensures(oneshot::Sender::<T>::send, (reply.response_tx, reply.value), res),
        res matches Err(undelivered) ==> undelivered == reply.value,
{
}

/// A handle queues at the sender that it is given, and its selection is made with the
/// number of the slave that it is given.
pub proof fn law_new_handle_is_made_of_what_it_is_given(
    command_tx: mpsc::Sender<Command>,
    slave: Slave,
    handle: Handle,
)
    requires
        call_ensures(Handle::new, (command_tx, slave), handle),
    ensures
        handle.sender() == command_tx,
        call_ensures(AtomicU8::new, (slave.0,), *handle.selection()),
{
}

/// A handle on a new connection queues for the actor of this connection, up to a bound of
/// thirty-two commands, and its selection is made with the number of the slave that it is
/// given.
pub proof fn law_open_handle_feeds_its_actor(
    slave: Slave,
    handle: Handle,
    command_rx: mpsc::Receiver<Command>,
)
    requires
        call_ensures(Handle::open, (slave,), (handle, command_rx)),
    ensures
        crate::service::channel::capacity(handle.sender()) == 32,
        crate::service::channel::feeds(handle.sender(), command_rx),
        call_ensures(AtomicU8::new, (slave.0,), *handle.selection()),
{
}

/// The number that a handle loads for a call comes from the place where a clone of it
/// stores the number of the slave that is selected there.
pub proof fn law_clones_store_and_load_in_one_place(
    handle: Handle,
    clone: Handle,
    slave: Slave,
    request: Request<'_>,
    command: Command,
    response_rx: oneshot::Receiver<CallResult>,
)
    requires
        call_ensures(Handle::clone, (&handle,), clone),
        call_ensures(Handle::set_slave, (&clone, slave), ()),
        call_ensures(Handle::prepare_call, (&handle, request), (command, response_rx)),
    ensures
        exists|place: Arc<AtomicU8>|
            {
                &&& place == handle.selection()
                &&& #[trigger] call_ensures(
                    AtomicU8::store,
                    (&*place, slave.0, Ordering::Relaxed),
                    (),
                )
                &&& command matches Command::Call { slave: addressed, .. } && call_ensures(
                    AtomicU8::load,
                    (&*place, Ordering::Relaxed),
                    addressed.0,
                )
            },
{
    assert(call_ensures(
        AtomicU8::store,
        (&*handle.selection(), slave.0, Ordering::Relaxed),
        (),
    ));
}

/// A framed request holds the header and the request given, and what is remembered of it
/// is this header and its function.
pub proof fn law_exchange_begins_with_the_request_given<H: FrameHeader>(
    hdr: H,
    request: Request<'static>,
    adu: RequestAdu<'static, H>,
    exchange: Exchange<H>,
)
    requires
        call_ensures(Exchange::<H>::begin, (hdr, request), (adu, exchange)),
    ensures
        adu.hdr == hdr,
        adu.pdu.0 == request,
        exchange.hdr == hdr,
        exchange.function == request@.function(),
{
}

/// A request that is framed and then answered, under its own header, with a response of
/// its kind comes to this response, whatever the two hold.
pub proof fn law_exchange_comes_to_the_response<H: FrameHeader>(
    hdr: H,
    request: Request<'static>,
    adu: RequestAdu<'static, H>,
    exchange: Exchange<H>,
    reply: ResponseAdu<H>,
    response: Response,
    res: CallResult,
)
    requires
        call_ensures(Exchange::<H>::begin, (hdr, request), (adu, exchange)),
        reply.hdr == adu.hdr,
        reply.pdu.0 == Ok::<_, crate::frame::ExceptionResponse>(response),
        crate::frame::laws::same_kind(request@, response),
        call_ensures(Exchange::<H>::conclude, (exchange, reply), res),
    ensures
        res == CallResult::Ok(Ok(response)),
{
    crate::service::laws::law_response_is_passed_on_within_its_kind(
        exchange,
        request@,
        reply,
        res,
    );
}

/// A request that is framed and then answered under another header comes to no answer of
/// a device, whatever the frame carries.
pub proof fn law_exchange_rejects_other_headers<H: FrameHeader>(
    hdr: H,
    request: Request<'static>,
    adu: RequestAdu<'static, H>,
    exchange: Exchange<H>,
    reply: ResponseAdu<H>,
    res: CallResult,
)
    requires
        call_ensures(Exchange::<H>::begin, (hdr, request), (adu, exchange)),
        reply.hdr != adu.hdr,
        call_ensures(Exchange::<H>::conclude, (exchange, reply), res),
    ensures
        res is Err,
{
    crate::service::laws::law_wrong_header_is_reported(exchange, reply, res);
}

/// A request and a response give the function codes of their kinds.
pub proof fn law_function_codes_agree_exactly_within_a_kind(
    request: Request<'_>,
    response: Response,
    asked: FunctionCode,
    answered: FunctionCode,
)
    requires
        call_ensures(Request::function_code, (&request,), asked),
        call_ensures(Response::function_code, (&response,), answered),
    ensures
        asked == answered <==> crate::frame::laws::same_kind(request@, response),
{
    crate::frame::laws::law_functions_agree_exactly_within_a_kind(request@, response);
}

/// Owning a request changes nothing that it says.
pub proof fn law_owned_request_says_the_same(request: Request<'_>, owned: Request<'static>)
    requires
        call_ensures(Request::into_owned, (request,), owned),
    ensures
        owned@ == request@,
{
}

/// Headers are accepted exactly if they are the same. The message about others describes
/// the header of the request and then that of the response.
pub proof fn law_only_the_same_header_is_accepted<H: FrameHeader>(
    req_hdr: H,
    rsp_hdr: H,
    res: Result<(), String>,
)
    requires
        call_ensures(crate::service::verify_response_header::<H>, (&req_hdr, &rsp_hdr), res),
    ensures
        req_hdr == rsp_hdr <==> res is Ok,
        res matches Err(message) ==> message@ == "expected/request = "@ + req_hdr.description()
            + ", actual/response = "@ + rsp_hdr.description(),
{
}

/// Whether a call came to nothing because there is no connection.
pub open spec fn finds_no_connection(res: CallResult) -> bool {
    res matches Err(Error::Transport(err)) && err.kind == IoErrorKind::NotConnected
}

/// A call is told its answer unchanged. Without one, it finds no connection.
pub proof fn law_call_is_told_its_answer(delivery: Delivery<CallResult>, res: CallResult)
    requires
        call_ensures(crate::service::actor::call_outcome, (delivery,), res),
    ensures
        delivery matches Delivery::Answered(answer) ==> res == answer,
        !(delivery is Answered) ==> finds_no_connection(res),
{
}

/// A disconnect is told its answer unchanged. Without one, all is well.
pub proof fn law_disconnect_is_told_its_answer(
    delivery: Delivery<DisconnectResult>,
    res: DisconnectResult,
)
    requires
        call_ensures(crate::service::actor::disconnect_outcome, (delivery,), res),
    ensures
        delivery matches Delivery::Answered(answer) ==> res == answer,
        !(delivery is Answered) ==> res is Ok,
{
}

/// Shutting the transport down counts as a failure exactly if it fails for another reason
/// than that the transport is down already, and then with this very failure.
pub proof fn law_disconnect_fails_only_for_other_reasons(
    shutdown: Result<(), IoError>,
    res: DisconnectResult,
)
    requires
        call_ensures(crate::service::disconnect, (shutdown,), res),
    ensures
        res is Err <==> shutdown is Err && shutdown->Err_0.kind == IoErrorKind::Other,
        res is Err ==> res == shutdown,
{
}

} // verus!
