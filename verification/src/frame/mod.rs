//! Requests, responses and the frames that carry them.

use std::borrow::Cow;

use vstd::prelude::*;

pub mod laws;
pub mod rtu;
pub mod tcp;

verus! {

/// The address of a coil or register.
pub type Address = u16;

/// A number of coils or registers.
pub type Quantity = u16;

/// The state of a coil.
pub type Coil = bool;

/// The contents of a register.
pub type Word = u16;

/// What a request asks a device to do.
#[derive(Debug, Clone, Copy, PartialEq, Eq, Structural)]
pub enum FunctionCode {
    ReadCoils,
    ReadDiscreteInputs,
    WriteSingleCoil,
    WriteMultipleCoils,
    ReadInputRegisters,
    ReadHoldingRegisters,
    WriteSingleRegister,
    WriteMultipleRegisters,
    ReportServerId,
    MaskWriteRegister,
    ReadWriteMultipleRegisters,
    Custom(u8),
}

/// Why a device refused a request.
#[derive(Debug, Clone, Copy, PartialEq, Eq, Structural)]
pub enum ExceptionCode {
    IllegalFunction,
    IllegalDataAddress,
    IllegalDataValue,
    ServerDeviceFailure,
    Acknowledge,
    ServerDeviceBusy,
    MemoryParityError,
    GatewayPathUnavailable,
    GatewayTargetDevice,
    Custom(u8),
}

/// A device's refusal of a request.
#[derive(Debug, Clone, Copy, PartialEq, Eq, Structural)]
pub struct ExceptionResponse {
    /// The function that was refused.
    pub function: FunctionCode,
    /// The reason.
    pub exception: ExceptionCode,
}

/// A request to a device. Bulk data may be borrowed from the caller.
#[derive(Debug)]
pub enum Request<'a> {
    ReadCoils(Address, Quantity),
    ReadDiscreteInputs(Address, Quantity),
    WriteSingleCoil(Address, Coil),
    WriteMultipleCoils(Address, Cow<'a, [Coil]>),
    ReadInputRegisters(Address, Quantity),
    ReadHoldingRegisters(Address, Quantity),
    WriteSingleRegister(Address, Word),
    WriteMultipleRegisters(Address, Cow<'a, [Word]>),
    ReportServerId,
    MaskWriteRegister(Address, Word, Word),
    ReadWriteMultipleRegisters(Address, Quantity, Address, Cow<'a, [Word]>),
    Custom(u8, Cow<'a, [u8]>),
}

/// What a request says, whoever owns its data.
pub enum RequestView {
    ReadCoils(Address, Quantity),
    ReadDiscreteInputs(Address, Quantity),
    WriteSingleCoil(Address, Coil),
    WriteMultipleCoils(Address, Seq<Coil>),
    ReadInputRegisters(Address, Quantity),
    ReadHoldingRegisters(Address, Quantity),
    WriteSingleRegister(Address, Word),
    WriteMultipleRegisters(Address, Seq<Word>),
    ReportServerId,
    MaskWriteRegister(Address, Word, Word),
    ReadWriteMultipleRegisters(Address, Quantity, Address, Seq<Word>),
    Custom(u8, Seq<u8>),
}

impl RequestView {
    /// The function that the request asks for.
    pub open spec fn function(self) -> FunctionCode {
        match self {
            RequestView::ReadCoils(_, _) => FunctionCode::ReadCoils,
            RequestView::ReadDiscreteInputs(_, _) => FunctionCode::ReadDiscreteInputs,
            RequestView::WriteSingleCoil(_, _) => FunctionCode::WriteSingleCoil,
            RequestView::WriteMultipleCoils(_, _) => FunctionCode::WriteMultipleCoils,
            RequestView::ReadInputRegisters(_, _) => FunctionCode::ReadInputRegisters,
            RequestView::ReadHoldingRegisters(_, _) => FunctionCode::ReadHoldingRegisters,
            RequestView::WriteSingleRegister(_, _) => FunctionCode::WriteSingleRegister,
            RequestView::WriteMultipleRegisters(_, _) => FunctionCode::WriteMultipleRegisters,
            RequestView::ReportServerId => FunctionCode::ReportServerId,
            RequestView::MaskWriteRegister(_, _, _) => FunctionCode::MaskWriteRegister,
            RequestView::ReadWriteMultipleRegisters(_, _, _, _) =>
                FunctionCode::ReadWriteMultipleRegisters,
            RequestView::Custom(code, _) => FunctionCode::Custom(code),
        }
    }
}

impl<'a> View for Request<'a> {
    type V = RequestView;

    open spec fn view(&self) -> RequestView {
        match *self {
            Request::ReadCoils(address, quantity) => RequestView::ReadCoils(address, quantity),
            Request::ReadDiscreteInputs(address, quantity) => RequestView::ReadDiscreteInputs(
                address,
                quantity,
            ),
            Request::WriteSingleCoil(address, coil) => RequestView::WriteSingleCoil(address, coil),
            Request::WriteMultipleCoils(address, coils) => RequestView::WriteMultipleCoils(
                address,
                coils@,
            ),
            Request::ReadInputRegisters(address, quantity) => RequestView::ReadInputRegisters(
                address,
                quantity,
            ),
            Request::ReadHoldingRegisters(address, quantity) => RequestView::ReadHoldingRegisters(
                address,
                quantity,
            ),
            Request::WriteSingleRegister(address, word) => RequestView::WriteSingleRegister(
                address,
                word,
            ),
            Request::WriteMultipleRegisters(address, words) => RequestView::WriteMultipleRegisters(
                address,
                words@,
            ),
            Request::ReportServerId => RequestView::ReportServerId,
            Request::MaskWriteRegister(address, and_mask, or_mask) =>
                RequestView::MaskWriteRegister(address, and_mask, or_mask),
            Request::ReadWriteMultipleRegisters(read, quantity, write, words) =>
                RequestView::ReadWriteMultipleRegisters(read, quantity, write, words@),
            Request::Custom(code, bytes) => RequestView::Custom(code, bytes@),
        }
    }
}

/// Takes ownership of possibly borrowed data.
fn own<T: Copy + View>(data: Cow<'_, [T]>) -> (res: Cow<'static, [T]>)
    ensures
        res@ == data@,
{
    match data {
        Cow::Borrowed(slice) => Cow::Owned(vstd::slice::slice_to_vec(slice)),
        Cow::Owned(vec) => Cow::Owned(vec),
    }
}

impl<'a> Request<'a> {
    /// The function that the request asks for.
    pub fn function_code(&self) -> (res: FunctionCode)
        ensures
            res == self@.function(),
    {
        match self {
            Request::ReadCoils(_, _) => FunctionCode::ReadCoils,
            Request::ReadDiscreteInputs(_, _) => FunctionCode::ReadDiscreteInputs,
            Request::WriteSingleCoil(_, _) => FunctionCode::WriteSingleCoil,
            Request::WriteMultipleCoils(_, _) => FunctionCode::WriteMultipleCoils,
            Request::ReadInputRegisters(_, _) => FunctionCode::ReadInputRegisters,
            Request::ReadHoldingRegisters(_, _) => FunctionCode::ReadHoldingRegisters,
            Request::WriteSingleRegister(_, _) => FunctionCode::WriteSingleRegister,
            Request::WriteMultipleRegisters(_, _) => FunctionCode::WriteMultipleRegisters,
            Request::ReportServerId => FunctionCode::ReportServerId,
            Request::MaskWriteRegister(_, _, _) => FunctionCode::MaskWriteRegister,
            Request::ReadWriteMultipleRegisters(_, _, _, _) =>
                FunctionCode::ReadWriteMultipleRegisters,
            Request::Custom(code, _) => FunctionCode::Custom(*code),
        }
    }

    /// The same request, independent of borrowed data.
    pub fn into_owned(self) -> (res: Request<'static>)
        ensures
            res@ == self@,
    {
        match self {
            Request::ReadCoils(address, quantity) => Request::ReadCoils(address, quantity),
            Request::ReadDiscreteInputs(address, quantity) => Request::ReadDiscreteInputs(
                address,
                quantity,
            ),
            Request::WriteSingleCoil(address, coil) => Request::WriteSingleCoil(address, coil),
            Request::WriteMultipleCoils(address, coils) => Request::WriteMultipleCoils(
                address,
                own(coils),
            ),
            Request::ReadInputRegisters(address, quantity) => Request::ReadInputRegisters(
                address,
                quantity,
            ),
            Request::ReadHoldingRegisters(address, quantity) => Request::ReadHoldingRegisters(
                address,
                quantity,
            ),
            Request::WriteSingleRegister(address, word) => Request::WriteSingleRegister(
                address,
                word,
            ),
            Request::WriteMultipleRegisters(address, words) => Request::WriteMultipleRegisters(
                address,
                own(words),
            ),
            Request::ReportServerId => Request::ReportServerId,
            Request::MaskWriteRegister(address, and_mask, or_mask) => Request::MaskWriteRegister(
                address,
                and_mask,
                or_mask,
            ),
            Request::ReadWriteMultipleRegisters(read, quantity, write, words) =>
                Request::ReadWriteMultipleRegisters(read, quantity, write, own(words)),
            Request::Custom(code, bytes) => Request::Custom(code, own(bytes)),
        }
    }
}

/// A device's answer to a request that it carried out.
#[derive(Debug, PartialEq, Eq)]
pub enum Response {
    ReadCoils(Vec<Coil>),
    ReadDiscreteInputs(Vec<Coil>),
    WriteSingleCoil(Address, Coil),
    WriteMultipleCoils(Address, Quantity),
    ReadInputRegisters(Vec<Word>),
    ReadHoldingRegisters(Vec<Word>),
    WriteSingleRegister(Address, Word),
    WriteMultipleRegisters(Address, Quantity),
    ReportServerId(u8, bool, Vec<u8>),
    MaskWriteRegister(Address, Word, Word),
    ReadWriteMultipleRegisters(Vec<Word>),
    Custom(u8, Vec<u8>),
}

impl Response {
    /// The function that the response answers.
    pub open spec fn function(self) -> FunctionCode {
        match self {
            Response::ReadCoils(_) => FunctionCode::ReadCoils,
            Response::ReadDiscreteInputs(_) => FunctionCode::ReadDiscreteInputs,
            Response::WriteSingleCoil(_, _) => FunctionCode::WriteSingleCoil,
            Response::WriteMultipleCoils(_, _) => FunctionCode::WriteMultipleCoils,
            Response::ReadInputRegisters(_) => FunctionCode::ReadInputRegisters,
            Response::ReadHoldingRegisters(_) => FunctionCode::ReadHoldingRegisters,
            Response::WriteSingleRegister(_, _) => FunctionCode::WriteSingleRegister,
            Response::WriteMultipleRegisters(_, _) => FunctionCode::WriteMultipleRegisters,
            Response::ReportServerId(_, _, _) => FunctionCode::ReportServerId,
            Response::MaskWriteRegister(_, _, _) => FunctionCode::MaskWriteRegister,
            Response::ReadWriteMultipleRegisters(_) => FunctionCode::ReadWriteMultipleRegisters,
            Response::Custom(code, _) => FunctionCode::Custom(code),
        }
    }

    /// The function that the response answers.
    pub fn function_code(&self) -> (res: FunctionCode)
        ensures
            res == self.function(),
    {
        match self {
            Response::ReadCoils(_) => FunctionCode::ReadCoils,
            Response::ReadDiscreteInputs(_) => FunctionCode::ReadDiscreteInputs,
            Response::WriteSingleCoil(_, _) => FunctionCode::WriteSingleCoil,
            Response::WriteMultipleCoils(_, _) => FunctionCode::WriteMultipleCoils,
            Response::ReadInputRegisters(_) => FunctionCode::ReadInputRegisters,
            Response::ReadHoldingRegisters(_) => FunctionCode::ReadHoldingRegisters,
            Response::WriteSingleRegister(_, _) => FunctionCode::WriteSingleRegister,
            Response::WriteMultipleRegisters(_, _) => FunctionCode::WriteMultipleRegisters,
            Response::ReportServerId(_, _, _) => FunctionCode::ReportServerId,
            Response::MaskWriteRegister(_, _, _) => FunctionCode::MaskWriteRegister,
            Response::ReadWriteMultipleRegisters(_) => FunctionCode::ReadWriteMultipleRegisters,
            Response::Custom(code, _) => FunctionCode::Custom(*code),
        }
    }
}

/// The transport-independent part of a frame that carries a request.
#[derive(Debug)]
pub struct RequestPdu<'a>(pub Request<'a>);

impl<'a> From<Request<'a>> for RequestPdu<'a> {
    fn from(request: Request<'a>) -> (res: RequestPdu<'a>) {
        RequestPdu(request)
    }
}

impl<'a> vstd::std_specs::convert::FromSpecImpl<Request<'a>> for RequestPdu<'a> {
    open spec fn obeys_from_spec() -> bool {
        true
    }

    open spec fn from_spec(request: Request<'a>) -> RequestPdu<'a> {
        RequestPdu(request)
    }
}

/// What a device answers: a response or a refusal.
pub type Answer = Result<Response, ExceptionResponse>;

/// The transport-independent part of a frame that carries an answer.
#[derive(Debug, PartialEq, Eq)]
pub struct ResponsePdu(pub Answer);

/// The function that an answer belongs to.
pub open spec fn answered_function(answer: Answer) -> FunctionCode {
    match answer {
        Ok(response) => response.function(),
        Err(refusal) => refusal.function,
    }
}

/// The transport-dependent part of a frame, by which a reply is matched with its
/// request.
pub trait FrameHeader: Copy {
    /// The text that describes the header to a reader of an error message.
    spec fn description(self) -> Seq<char>;

    /// Whether two headers are the same.
    fn same(&self, other: &Self) -> (res: bool)
        ensures
            res == (*self == *other),
    ;

    /// Appends the description of the header to `out`.
    fn describe(&self, out: &mut String)
        ensures
            final(out)@ == old(out)@ + self.description(),
    ;
}

/// A frame that carries a request to a device.
#[derive(Debug)]
pub struct RequestAdu<'a, H> {
    pub hdr: H,
    pub pdu: RequestPdu<'a>,
}

/// A frame that carries an answer from a device.
#[derive(Debug, PartialEq, Eq)]
pub struct ResponseAdu<H> {
    pub hdr: H,
    pub pdu: ResponsePdu,
}

} // verus!
