use std::io;

use modbus_service::error::{Error, IoError, IoErrorCause, IoErrorKind, ProtocolError};
use modbus_service::frame::{
    rtu, tcp, Answer, ExceptionCode, ExceptionResponse, FunctionCode, Request, RequestAdu, Response,
    ResponseAdu, ResponsePdu,
};
use modbus_service::service::connection::{
    Actor, Answered, Exchange, Framing, Received, Sending, Sent, Served,
};
use modbus_service::service::rtu::RtuFraming;
use modbus_service::service::tcp::{TransactionIdGenerator, INITIAL_TRANSACTION_ID};
use modbus_service::service::{
    call_command, call_outcome, disconnect_outcome, Command, Delivery, Handle,
};
use modbus_service::slave::Slave;
use tokio::sync::oneshot::error::TryRecvError;

fn native(kind: IoErrorKind) -> IoError {
    IoError {
        kind,
        cause: IoErrorCause::Native(io::Error::from(io::ErrorKind::TimedOut)),
    }
}

fn serve_call<F: Framing>(
    actor: Actor<F>,
    command: Command,
) -> (RequestAdu<'static, F::Hdr>, Sending<F>) {
    match actor.serve(Some(command)) {
        Served::Call { adu, sending } => (adu, sending),
        _ => panic!("a call was to be served"),
    }
}

fn receive<F: Framing>(sending: Sending<F>, received: Received<F>) -> Answered<F> {
    match sending.sent(Ok(())) {
        Sent::Receive(receiving) => receiving.received(received),
        Sent::Answer(_) => panic!("a reply was to be received"),
    }
}

fn frame<H>(hdr: H, answer: Answer) -> ResponseAdu<H> {
    ResponseAdu {
        hdr,
        pdu: ResponsePdu(answer),
    }
}

#[test]
fn handle_broken_pipe() {
    let (client, mut command_rx) = Handle::open(Slave::broadcast());
    let (command, mut response_rx) = client.prepare_call(Request::ReadCoils(0x00, 5));
    client.command_tx().try_send(command).unwrap();

    let actor = modbus_service::service::rtu::new_actor();
    let (_, sending) = serve_call(actor, command_rx.try_recv().unwrap());
    let answered = receive(sending, Received::End(()));
    assert!(answered.reply.deliver().is_ok());

    let res = call_outcome(Delivery::Answered(response_rx.try_recv().unwrap()));
    assert!(res.is_err());
    let err = res.err().unwrap();
    assert!(matches!(err, Error::Transport(err) if err.kind == IoErrorKind::BrokenPipe));
}

#[test]
fn exceptions_reach_the_caller_across_calls() {
    let actor = modbus_service::service::tcp::new_actor();

    let (command, mut response_rx) = call_command(Request::ReadHoldingRegisters(0x00, 2), Slave(1));
    let (adu, sending) = serve_call(actor, command);
    let answer = Err(ExceptionResponse {
        function: FunctionCode::ReadHoldingRegisters,
        exception: ExceptionCode::IllegalFunction,
    });
    let answered = receive(sending, Received::Frame(frame(adu.hdr, answer)));
    assert!(answered.reply.deliver().is_ok());
    let response = response_rx.try_recv().unwrap().expect("communication failed");
    assert!(matches!(response, Err(ExceptionCode::IllegalFunction)));

    let (command, mut response_rx) = call_command(Request::WriteSingleRegister(0x00, 42), Slave(1));
    let (adu, sending) = serve_call(answered.actor, command);
    let answer = Err(ExceptionResponse {
        function: FunctionCode::WriteSingleRegister,
        exception: ExceptionCode::MemoryParityError,
    });
    let answered = receive(sending, Received::Frame(frame(adu.hdr, answer)));
    assert!(answered.reply.deliver().is_ok());
    let response = response_rx.try_recv().unwrap().expect("communication failed");
    assert!(matches!(response, Err(ExceptionCode::MemoryParityError)));
}

#[test]
fn requests_are_framed_for_their_slave() {
    let (command, _rx) = call_command(Request::ReadCoils(7, 1), Slave(4));
    let (adu, _) = serve_call(modbus_service::service::rtu::new_actor(), command);
    assert_eq!(adu.hdr, rtu::Header { slave_id: 4 });
    assert!(matches!(adu.pdu.0, Request::ReadCoils(7, 1)));

    let (command, _rx) = call_command(Request::ReadCoils(7, 1), Slave(4));
    let (adu, _) = serve_call(modbus_service::service::tcp::new_actor(), command);
    assert_eq!(
        adu.hdr,
        tcp::Header {
            transaction_id: 0,
            unit_id: 4
        }
    );
    assert!(matches!(adu.pdu.0, Request::ReadCoils(7, 1)));
}

#[test]
fn matching_responses_are_passed_on() {
    let hdr = rtu::Header { slave_id: 3 };
    let (adu, exchange) = Exchange::begin(hdr, Request::ReadCoils(0, 1));
    assert_eq!(adu.hdr, hdr);
    let result = exchange.conclude(frame(hdr, Ok(Response::ReadCoils(vec![true]))));
    assert_eq!(result.unwrap(), Ok(Response::ReadCoils(vec![true])));
}

#[test]
fn wrong_headers_are_reported_before_wrong_functions() {
    let hdr = rtu::Header { slave_id: 3 };
    let (_, exchange) = Exchange::begin(hdr, Request::ReadCoils(0, 1));
    let other = rtu::Header { slave_id: 4 };
    let result = exchange.conclude(frame(other, Ok(Response::WriteSingleRegister(1, 2))));
    match result {
        Err(Error::Protocol(ProtocolError::HeaderMismatch { message, result })) => {
            assert_eq!(
                message,
                "expected/request = Header { slave_id: 3 }, \
                 actual/response = Header { slave_id: 4 }"
            );
            assert_eq!(result, Ok(Response::WriteSingleRegister(1, 2)));
        }
        other => panic!("unexpected {other:?}"),
    }
}

#[test]
fn wrong_functions_are_reported() {
    let hdr = rtu::Header { slave_id: 3 };
    let refusal = ExceptionResponse {
        function: FunctionCode::ReadDiscreteInputs,
        exception: ExceptionCode::ServerDeviceBusy,
    };
    for answer in [Ok(Response::WriteSingleRegister(1, 2)), Err(refusal)] {
        let expected = match &answer {
            Ok(_) => Ok(Response::WriteSingleRegister(1, 2)),
            Err(_) => Err(refusal),
        };
        let (_, exchange) = Exchange::begin(hdr, Request::ReadCoils(0, 1));
        match exchange.conclude(frame(hdr, answer)) {
            Err(Error::Protocol(ProtocolError::FunctionCodeMismatch { request, result })) => {
                assert_eq!(request, FunctionCode::ReadCoils);
                assert_eq!(result, expected);
            }
            other => panic!("unexpected {other:?}"),
        }
    }
}

#[test]
fn failed_writes_are_answered_at_once() {
    let (command, mut response_rx) = call_command(Request::ReadCoils(0, 1), Slave(1));
    let (_, sending) = serve_call(modbus_service::service::rtu::new_actor(), command);
    match sending.sent(Err(native(IoErrorKind::Other))) {
        Sent::Answer(answered) => {
            assert!(answered.reply.deliver().is_ok());
            assert_eq!(answered.actor.framing, RtuFraming);
        }
        Sent::Receive(_) => panic!("there is nothing to receive"),
    }
    let err = response_rx.try_recv().unwrap().unwrap_err();
    assert!(matches!(err, Error::Transport(err) if err.kind == IoErrorKind::Other));
}

#[test]
fn failed_reads_are_answered() {
    let (command, mut response_rx) = call_command(Request::ReadCoils(0, 1), Slave(1));
    let (_, sending) = serve_call(modbus_service::service::rtu::new_actor(), command);
    let answered = receive(sending, Received::Failed(native(IoErrorKind::NotConnected)));
    assert!(answered.reply.deliver().is_ok());
    let err = response_rx.try_recv().unwrap().unwrap_err();
    assert!(matches!(err, Error::Transport(err) if err.kind == IoErrorKind::NotConnected));
}

#[test]
fn tcp_streams_end_with_the_last_os_error() {
    let (command, mut response_rx) = call_command(Request::ReadCoils(0, 1), Slave(1));
    let (_, sending) = serve_call(modbus_service::service::tcp::new_actor(), command);
    let answered = receive(sending, Received::End(native(IoErrorKind::Other)));
    assert!(answered.reply.deliver().is_ok());
    let err = response_rx.try_recv().unwrap().unwrap_err();
    assert!(matches!(
        err,
        Error::Transport(IoError { cause: IoErrorCause::Native(err), .. })
            if err.kind() == io::ErrorKind::TimedOut
    ));
}

#[test]
fn the_actor_goes_on_when_a_caller_has_left() {
    let actor = modbus_service::service::tcp::new_actor();
    let (command, response_rx) = call_command(Request::ReadCoils(0, 1), Slave(1));
    drop(response_rx);
    let (adu, sending) = serve_call(actor, command);
    let answer = Ok(Response::ReadCoils(vec![false]));
    let answered = receive(sending, Received::Frame(frame(adu.hdr, answer)));
    let undelivered = answered.reply.deliver().unwrap_err();
    assert_eq!(undelivered.unwrap(), Ok(Response::ReadCoils(vec![false])));

    let (command, _rx) = call_command(Request::ReadCoils(0, 1), Slave(1));
    let (adu, _) = serve_call(answered.actor, command);
    assert_eq!(adu.hdr.transaction_id, 1);
}

#[test]
fn callers_are_told_their_own_answers() {
    let (first, mut command_rx) = Handle::open(Slave(1));
    let second = first.clone();
    let (command, mut first_rx) = first.prepare_call(Request::ReadCoils(0, 1));
    first.command_tx().try_send(command).unwrap();
    let (command, mut second_rx) = second.prepare_call(Request::WriteSingleRegister(3, 42));
    second.command_tx().try_send(command).unwrap();
    let (command, third_rx) = first.prepare_call(Request::ReadCoils(7, 1));
    first.command_tx().try_send(command).unwrap();
    drop(third_rx);

    let mut actor = modbus_service::service::tcp::new_actor();
    while let Ok(command) = command_rx.try_recv() {
        let (adu, sending) = serve_call(actor, command);
        let response = match adu.pdu.0 {
            Request::ReadCoils(..) => Response::ReadCoils(vec![true]),
            Request::WriteSingleRegister(address, word) => {
                Response::WriteSingleRegister(address, word)
            }
            other => panic!("unexpected {other:?}"),
        };
        let answered = receive(sending, Received::Frame(frame(adu.hdr, Ok(response))));
        drop(answered.reply.deliver());
        actor = answered.actor;
    }

    let answer = call_outcome(Delivery::Answered(second_rx.try_recv().unwrap()));
    assert_eq!(answer.unwrap(), Ok(Response::WriteSingleRegister(3, 42)));
    let answer = call_outcome(Delivery::Answered(first_rx.try_recv().unwrap()));
    assert_eq!(answer.unwrap(), Ok(Response::ReadCoils(vec![true])));
    assert_eq!(first_rx.try_recv().unwrap_err(), TryRecvError::Closed);
}

#[test]
fn stale_replies_are_rejected() {
    let (command, first_rx) = call_command(Request::ReadCoils(0, 1), Slave(1));
    let (first, sending) = serve_call(modbus_service::service::tcp::new_actor(), command);
    let answered = receive(sending, Received::Failed(native(IoErrorKind::Other)));
    drop(first_rx);

    let (command, _rx) = call_command(Request::ReadCoils(0, 1), Slave(1));
    let (_, sending) = serve_call(answered.actor, command);
    let late = frame(first.hdr, Ok(Response::ReadCoils(vec![true])));
    let answered = receive(sending, Received::Frame(late));
    assert!(matches!(
        answered.reply.value,
        Err(Error::Protocol(ProtocolError::HeaderMismatch { .. }))
    ));
}

#[test]
fn disconnecting_answers_and_ends_the_actor() {
    for (kind, ok) in [
        (None, true),
        (Some(IoErrorKind::NotConnected), true),
        (Some(IoErrorKind::BrokenPipe), true),
        (Some(IoErrorKind::Other), false),
    ] {
        let (handle, _command_rx) = Handle::open(Slave(1));
        let (command, mut response_rx) = handle.prepare_disconnect();
        let shutdown = match kind {
            None => Ok(()),
            Some(kind) => Err(native(kind)),
        };
        match modbus_service::service::rtu::new_actor().serve(Some(command)) {
            Served::Disconnect(closing) => {
                assert!(closing.shut_down(shutdown).deliver().is_ok());
            }
            _ => panic!("a disconnect was to be served"),
        }
        assert_eq!(response_rx.try_recv().unwrap().is_ok(), ok);
    }
}

#[test]
fn commands_after_a_disconnect_find_no_connection() {
    let (handle, mut command_rx) = Handle::open(Slave(1));
    let clone = handle.clone();
    let (command, mut first_rx) = handle.prepare_disconnect();
    handle.command_tx().try_send(command).unwrap();
    // Queued behind the disconnect.
    let (command, mut call_rx) = clone.prepare_call(Request::ReadCoils(0, 1));
    clone.command_tx().try_send(command).unwrap();
    let (command, mut second_rx) = clone.prepare_disconnect();
    clone.command_tx().try_send(command).unwrap();

    let actor = modbus_service::service::tcp::new_actor();
    match actor.serve(command_rx.try_recv().ok()) {
        Served::Disconnect(closing) => {
            let shutdown = Err(native(IoErrorKind::Other));
            assert!(closing.shut_down(shutdown).deliver().is_ok());
        }
        _ => panic!("a disconnect was to be served"),
    }
    drop(command_rx);
    assert!(first_rx.try_recv().unwrap().is_err());

    assert_eq!(call_rx.try_recv().unwrap_err(), TryRecvError::Closed);
    assert!(matches!(
        call_outcome(Delivery::Dropped),
        Err(Error::Transport(err)) if err.kind == IoErrorKind::NotConnected
    ));
    assert_eq!(second_rx.try_recv().unwrap_err(), TryRecvError::Closed);
    assert!(disconnect_outcome(Delivery::Dropped).is_ok());

    // Made after the disconnect.
    let (command, _rx) = handle.prepare_call(Request::ReadCoils(0, 1));
    assert!(handle.command_tx().try_send(command).is_err());
    assert!(matches!(
        call_outcome(Delivery::Refused),
        Err(Error::Transport(err)) if err.kind == IoErrorKind::NotConnected
    ));
    let (command, _rx) = handle.prepare_disconnect();
    assert!(handle.command_tx().try_send(command).is_err());
    assert!(disconnect_outcome(Delivery::Refused).is_ok());
}

#[test]
fn the_actor_exits_without_handles() {
    assert!(matches!(
        modbus_service::service::rtu::new_actor().serve(None),
        Served::Finished
    ));
    assert!(matches!(
        modbus_service::service::tcp::new_actor().serve(None),
        Served::Finished
    ));
}

#[test]
fn transaction_ids_are_consecutive_and_start_over() {
    let mut generator = TransactionIdGenerator::new();
    assert_eq!(INITIAL_TRANSACTION_ID, 0);
    for id in 0..=u16::MAX {
        assert_eq!(generator.next(), id);
    }
    assert_eq!(generator.next(), 0);
    assert_eq!(generator.next(), 1);
}

#[test]
fn calls_take_consecutive_transaction_ids() {
    let mut actor = modbus_service::service::tcp::new_actor();
    for n in 0..70_000u32 {
        let (command, _rx) = call_command(Request::ReadCoils(0, 1), Slave(1));
        let (adu, sending) = serve_call(actor, command);
        assert_eq!(u32::from(adu.hdr.transaction_id), n % 65_536);
        actor = receive(sending, Received::Failed(native(IoErrorKind::Other))).actor;
    }
}
