use std::borrow::Cow;

use modbus_service::frame::{FunctionCode, Request, RequestPdu, Response};
use modbus_service::slave::{Slave, SlaveId};

#[test]
fn request_function_codes() {
    let cases = [
        (Request::ReadCoils(0, 1), FunctionCode::ReadCoils),
        (
            Request::ReadDiscreteInputs(0, 1),
            FunctionCode::ReadDiscreteInputs,
        ),
        (
            Request::WriteSingleCoil(0, true),
            FunctionCode::WriteSingleCoil,
        ),
        (
            Request::WriteMultipleCoils(0, Cow::Borrowed(&[true])),
            FunctionCode::WriteMultipleCoils,
        ),
        (
            Request::ReadInputRegisters(0, 1),
            FunctionCode::ReadInputRegisters,
        ),
        (
            Request::ReadHoldingRegisters(0, 1),
            FunctionCode::ReadHoldingRegisters,
        ),
        (
            Request::WriteSingleRegister(0, 1),
            FunctionCode::WriteSingleRegister,
        ),
        (
            Request::WriteMultipleRegisters(0, Cow::Borrowed(&[1])),
            FunctionCode::WriteMultipleRegisters,
        ),
        (Request::ReportServerId, FunctionCode::ReportServerId),
        (
            Request::MaskWriteRegister(0, 1, 2),
            FunctionCode::MaskWriteRegister,
        ),
        (
            Request::ReadWriteMultipleRegisters(0, 1, 2, Cow::Borrowed(&[3])),
            FunctionCode::ReadWriteMultipleRegisters,
        ),
        (
            Request::Custom(0x64, Cow::Borrowed(&[3])),
            FunctionCode::Custom(0x64),
        ),
    ];
    for (request, code) in cases {
        assert_eq!(request.function_code(), code);
        assert_eq!(request.into_owned().function_code(), code);
    }
}

#[test]
fn response_function_codes() {
    let cases = [
        (Response::ReadCoils(vec![true]), FunctionCode::ReadCoils),
        (
            Response::ReadDiscreteInputs(vec![]),
            FunctionCode::ReadDiscreteInputs,
        ),
        (
            Response::WriteSingleCoil(0, true),
            FunctionCode::WriteSingleCoil,
        ),
        (
            Response::WriteMultipleCoils(0, 1),
            FunctionCode::WriteMultipleCoils,
        ),
        (
            Response::ReadInputRegisters(vec![1]),
            FunctionCode::ReadInputRegisters,
        ),
        (
            Response::ReadHoldingRegisters(vec![1]),
            FunctionCode::ReadHoldingRegisters,
        ),
        (
            Response::WriteSingleRegister(0, 1),
            FunctionCode::WriteSingleRegister,
        ),
        (
            Response::WriteMultipleRegisters(0, 1),
            FunctionCode::WriteMultipleRegisters,
        ),
        (
            Response::ReportServerId(1, true, vec![]),
            FunctionCode::ReportServerId,
        ),
        (
            Response::MaskWriteRegister(0, 1, 2),
            FunctionCode::MaskWriteRegister,
        ),
        (
            Response::ReadWriteMultipleRegisters(vec![]),
            FunctionCode::ReadWriteMultipleRegisters,
        ),
        (
            Response::Custom(0x64, vec![3]),
            FunctionCode::Custom(0x64),
        ),
    ];
    for (response, code) in cases {
        assert_eq!(response.function_code(), code);
    }
}

#[test]
fn owned_requests_say_the_same() {
    let words = [1, 2, 3];
    let owned = Request::WriteMultipleRegisters(7, Cow::Borrowed(&words)).into_owned();
    match owned {
        Request::WriteMultipleRegisters(7, Cow::Owned(data)) => assert_eq!(data, [1, 2, 3]),
        other => panic!("unexpected {other:?}"),
    }
    let owned = Request::Custom(0x41, Cow::Owned(vec![9])).into_owned();
    match owned {
        Request::Custom(0x41, Cow::Owned(data)) => assert_eq!(data, [9]),
        other => panic!("unexpected {other:?}"),
    }
}

#[test]
fn pdus_hold_their_request() {
    let RequestPdu(request) = RequestPdu::from(Request::ReadCoils(3, 4));
    assert!(matches!(request, Request::ReadCoils(3, 4)));
}

#[test]
fn slaves_have_numbers() {
    assert_eq!(Slave::broadcast(), Slave(0));
    let id: SlaveId = Slave(17).into();
    assert_eq!(id, 17);
}
