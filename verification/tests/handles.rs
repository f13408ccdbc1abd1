use std::io;

use modbus_service::error::{Error, IoError, IoErrorCause, IoErrorKind};
use modbus_service::frame::{ExceptionCode, Request, Response};
use modbus_service::service::{
    call_command, call_outcome, disconnect, disconnect_outcome, disconnected, Command, Delivery,
    Handle, REQUEST_CHANNEL_BOUND,
};
use modbus_service::slave::Slave;
use tokio::sync::mpsc;

fn addressed(handle: &Handle) -> Slave {
    match handle.prepare_call(Request::ReportServerId) {
        (Command::Call { slave, .. }, _) => slave,
        (Command::Disconnect { .. }, _) => panic!("a call was prepared"),
    }
}

fn native(kind: IoErrorKind) -> IoError {
    IoError {
        kind,
        cause: IoErrorCause::Native(io::Error::from(io::ErrorKind::TimedOut)),
    }
}

#[test]
fn command_channel_is_bounded() {
    let (handle, mut command_rx) = Handle::open(Slave(1));
    assert_eq!(REQUEST_CHANNEL_BOUND, 32);
    assert_eq!(command_rx.max_capacity(), 32);
    assert_eq!(handle.command_tx().max_capacity(), 32);
    assert_eq!(handle.clone().command_tx().max_capacity(), 32);
    for _ in 0..32 {
        let (command, _) = handle.prepare_call(Request::ReadCoils(0, 5));
        assert!(handle.command_tx().try_send(command).is_ok());
    }
    let (command, _) = handle.prepare_call(Request::ReadCoils(0, 5));
    assert!(handle.command_tx().try_send(command).is_err());
    assert!(command_rx.try_recv().is_ok());
    let (command, _) = handle.prepare_call(Request::ReadCoils(0, 5));
    assert!(handle.command_tx().try_send(command).is_ok());
}

#[test]
fn clones_feed_the_same_actor() {
    let (handle, mut command_rx) = Handle::open(Slave(1));
    let clone = handle.clone();
    drop(handle);
    let (command, _) = clone.prepare_disconnect();
    assert!(clone.command_tx().try_send(command).is_ok());
    assert!(matches!(
        command_rx.try_recv(),
        Ok(Command::Disconnect { .. })
    ));
    drop(clone);
    assert_eq!(
        command_rx.try_recv().unwrap_err(),
        mpsc::error::TryRecvError::Disconnected
    );
}

#[test]
fn slave_selection_is_shared_between_clones() {
    let (handle, _command_rx) = Handle::open(Slave(3));
    let clone = handle.clone();
    assert_eq!(addressed(&handle), Slave(3));
    assert_eq!(addressed(&clone), Slave(3));
    clone.set_slave(Slave(9));
    assert_eq!(addressed(&handle), Slave(9));
    handle.set_slave(Slave::broadcast());
    assert_eq!(addressed(&clone), Slave(0));
}

#[test]
fn slave_selection_is_taken_when_the_call_is_made() {
    let (handle, _command_rx) = Handle::open(Slave(3));
    let (command, _) = handle.prepare_call(Request::ReadCoils(0, 5));
    handle.set_slave(Slave(9));
    assert!(matches!(
        command,
        Command::Call {
            request: Request::ReadCoils(0, 5),
            slave: Slave(3),
            ..
        }
    ));
}

#[test]
fn separate_handles_select_for_themselves() {
    let (tx, _rx) = mpsc::channel(1);
    let first = Handle::new(tx.clone(), Slave(1));
    let second = Handle::new(tx, Slave(2));
    first.set_slave(Slave(5));
    assert_eq!(addressed(&first), Slave(5));
    assert_eq!(addressed(&second), Slave(2));
}

#[test]
fn a_call_is_answered_on_its_own_channel() {
    let (command, mut response_rx) = call_command(Request::ReadCoils(7, 1), Slave(4));
    match command {
        Command::Call {
            request,
            slave,
            response_tx,
        } => {
            assert!(matches!(request, Request::ReadCoils(7, 1)));
            assert_eq!(slave, Slave(4));
            assert!(response_tx
                .send(Ok(Ok(Response::ReadCoils(vec![true]))))
                .is_ok());
        }
        Command::Disconnect { .. } => panic!("a call was prepared"),
    }
    assert_eq!(
        response_rx.try_recv().unwrap().unwrap(),
        Ok(Response::ReadCoils(vec![true]))
    );
}

#[test]
fn a_disconnect_is_answered_on_its_own_channel() {
    let (handle, _command_rx) = Handle::open(Slave(1));
    let (command, mut response_rx) = handle.prepare_disconnect();
    match command {
        Command::Disconnect { response_tx } => assert!(response_tx.send(Ok(())).is_ok()),
        Command::Call { .. } => panic!("a disconnect was prepared"),
    }
    assert!(response_rx.try_recv().unwrap().is_ok());
}

#[test]
fn disconnected_is_a_transport_error() {
    assert!(matches!(
        disconnected(),
        Error::Transport(IoError {
            kind: IoErrorKind::NotConnected,
            cause: IoErrorCause::Message("disconnected"),
        })
    ));
}

#[test]
fn calls_fail_without_an_actor() {
    for delivery in [Delivery::Refused, Delivery::Dropped] {
        assert!(matches!(
            call_outcome(delivery),
            Err(Error::Transport(IoError {
                kind: IoErrorKind::NotConnected,
                cause: IoErrorCause::Message("disconnected"),
            }))
        ));
    }
    assert!(matches!(
        call_outcome(Delivery::Answered(Ok(Err(ExceptionCode::Acknowledge)))),
        Ok(Err(ExceptionCode::Acknowledge))
    ));
}

#[test]
fn disconnecting_without_an_actor_is_fine() {
    assert!(disconnect_outcome(Delivery::Refused).is_ok());
    assert!(disconnect_outcome(Delivery::Dropped).is_ok());
    assert!(disconnect_outcome(Delivery::Answered(Ok(()))).is_ok());
    let err = disconnect_outcome(Delivery::Answered(Err(native(IoErrorKind::Other)))).unwrap_err();
    assert_eq!(err.kind, IoErrorKind::Other);
}

#[test]
fn a_transport_that_is_down_already_counts_as_disconnected() {
    assert!(disconnect(Ok(())).is_ok());
    assert!(disconnect(Err(native(IoErrorKind::NotConnected))).is_ok());
    assert!(disconnect(Err(native(IoErrorKind::BrokenPipe))).is_ok());
    let err = disconnect(Err(native(IoErrorKind::Other))).unwrap_err();
    assert!(matches!(
        err.cause,
        IoErrorCause::Native(err) if err.kind() == io::ErrorKind::TimedOut
    ));
}
