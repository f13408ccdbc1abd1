//! What requests, responses and their frames say.

use vstd::prelude::*;

use crate::frame::{
    Answer, FrameHeader, FunctionCode, Request, RequestPdu, RequestView, Response,
};
use crate::slave::{Slave, SlaveId};

verus! {

/// The view of a request keeps its kind and everything that it holds.
pub proof fn law_view_keeps_the_request(request: Request<'_>)
    ensures
        match request {
            Request::ReadCoils(address, quantity) => request@ == RequestView::ReadCoils(
                address,
                quantity,
            ),
            Request::ReadDiscreteInputs(address, quantity) => request@
                == RequestView::ReadDiscreteInputs(address, quantity),
            Request::WriteSingleCoil(address, coil) => request@ == RequestView::WriteSingleCoil(
                address,
                coil,
            ),
            Request::WriteMultipleCoils(address, coils) => request@
                == RequestView::WriteMultipleCoils(address, coils@),
            Request::ReadInputRegisters(address, quantity) => request@
                == RequestView::ReadInputRegisters(address, quantity),
            Request::ReadHoldingRegisters(address, quantity) => request@
                == RequestView::ReadHoldingRegisters(address, quantity),
            Request::WriteSingleRegister(address, word) => request@
                == RequestView::WriteSingleRegister(address, word),
            Request::WriteMultipleRegisters(address, words) => request@
                == RequestView::WriteMultipleRegisters(address, words@),
            Request::ReportServerId => request@ == RequestView::ReportServerId,
            Request::MaskWriteRegister(address, and_mask, or_mask) => request@
                == RequestView::MaskWriteRegister(address, and_mask, or_mask),
            Request::ReadWriteMultipleRegisters(read, quantity, write, words) => request@
                == RequestView::ReadWriteMultipleRegisters(read, quantity, write, words@),
            Request::Custom(code, bytes) => request@ == RequestView::Custom(code, bytes@),
        },
{
}

/// The function of a request goes by its kind, whatever addresses and data it holds. A
/// custom request has the function that its code names.
pub proof fn law_request_function_goes_by_kind(request: RequestView)
    ensures
        request is ReadCoils <==> request.function() == FunctionCode::ReadCoils,
        request is ReadDiscreteInputs <==> request.function() == FunctionCode::ReadDiscreteInputs,
        request is WriteSingleCoil <==> request.function() == FunctionCode::WriteSingleCoil,
        request is WriteMultipleCoils <==> request.function() == FunctionCode::WriteMultipleCoils,
        request is ReadInputRegisters <==> request.function() == FunctionCode::ReadInputRegisters,
        request is ReadHoldingRegisters <==> request.function()
            == FunctionCode::ReadHoldingRegisters,
        request is WriteSingleRegister <==> request.function() == FunctionCode::WriteSingleRegister,
        request is WriteMultipleRegisters <==> request.function()
            == FunctionCode::WriteMultipleRegisters,
        request is ReportServerId <==> request.function() == FunctionCode::ReportServerId,
        request is MaskWriteRegister <==> request.function() == FunctionCode::MaskWriteRegister,
        request is ReadWriteMultipleRegisters <==> request.function()
            == FunctionCode::ReadWriteMultipleRegisters,
        request matches RequestView::Custom(code, _) ==> request.function()
            == FunctionCode::Custom(code),
{
}

/// The function of a response goes by its kind, whatever data it holds. A custom
/// response has the function that its code names.
pub proof fn law_response_function_goes_by_kind(response: Response)
    ensures
        response is ReadCoils <==> response.function() == FunctionCode::ReadCoils,
        response is ReadDiscreteInputs <==> response.function() == FunctionCode::ReadDiscreteInputs,
        response is WriteSingleCoil <==> response.function() == FunctionCode::WriteSingleCoil,
        response is WriteMultipleCoils <==> response.function() == FunctionCode::WriteMultipleCoils,
        response is ReadInputRegisters <==> response.function() == FunctionCode::ReadInputRegisters,
        response is ReadHoldingRegisters <==> response.function()
            == FunctionCode::ReadHoldingRegisters,
        response is WriteSingleRegister <==> response.function()
            == FunctionCode::WriteSingleRegister,
        response is WriteMultipleRegisters <==> response.function()
            == FunctionCode::WriteMultipleRegisters,
        response is ReportServerId <==> response.function() == FunctionCode::ReportServerId,
        response is MaskWriteRegister <==> response.function() == FunctionCode::MaskWriteRegister,
        response is ReadWriteMultipleRegisters <==> response.function()
            == FunctionCode::ReadWriteMultipleRegisters,
        response matches Response::Custom(code, _) ==> response.function()
            == FunctionCode::Custom(code),
{
}

/// An answer belongs to the function of the response, or to the one that a refusal
/// names.
pub proof fn law_answers_belong_to_the_function_they_name(answer: Answer)
    ensures
        answer matches Ok(response) ==> crate::frame::answered_function(answer)
            == response.function(),
        answer matches Err(refusal) ==> crate::frame::answered_function(answer)
            == refusal.function,
{
}

/// Whether a response is of the kind that a request asks for. Custom requests and
/// responses are of one kind if they have the same code.
pub open spec fn same_kind(request: RequestView, response: Response) -> bool {
    ||| request is ReadCoils && response is ReadCoils
    ||| request is ReadDiscreteInputs && response is ReadDiscreteInputs
    ||| request is WriteSingleCoil && response is WriteSingleCoil
    ||| request is WriteMultipleCoils && response is WriteMultipleCoils
    ||| request is ReadInputRegisters && response is ReadInputRegisters
    ||| request is ReadHoldingRegisters && response is ReadHoldingRegisters
    ||| request is WriteSingleRegister && response is WriteSingleRegister
    ||| request is WriteMultipleRegisters && response is WriteMultipleRegisters
    ||| request is ReportServerId && response is ReportServerId
    ||| request is MaskWriteRegister && response is MaskWriteRegister
    ||| request is ReadWriteMultipleRegisters && response is ReadWriteMultipleRegisters
    ||| request is Custom && response is Custom && request->Custom_0 == response->Custom_0
}

/// A response answers the function of a request exactly if it is of the same kind.
pub proof fn law_functions_agree_exactly_within_a_kind(request: RequestView, response: Response)
    ensures
        request.function() == response.function() <==> same_kind(request, response),
{
}

/// A frame's inner part holds the request that it is made of, unchanged.
pub proof fn law_pdu_holds_its_request(request: Request<'_>)
    ensures
        <RequestPdu<'_> as vstd::std_specs::convert::FromSpec<Request<'_>>>::from_spec(request).0
            == request,
{
}

/// A slave converts to its own number.
pub proof fn law_slave_converts_to_its_number(slave: Slave)
    ensures
        <SlaveId as vstd::std_specs::convert::FromSpec<Slave>>::from_spec(slave) == slave.0,
{
}

/// A header on a serial line is described by the decimal text of its slave.
pub proof fn law_rtu_description(hdr: crate::frame::rtu::Header)
    ensures
        hdr.description() == "Header { slave_id: "@ + crate::text::decimal(hdr.slave_id as nat)
            + " }"@,
{
}

/// A header on a TCP connection is described by the decimal texts of its transaction id
/// and its unit, in this order.
pub proof fn law_tcp_description(hdr: crate::frame::tcp::Header)
    ensures
        hdr.description() == "Header { transaction_id: "@ + crate::text::decimal(
            hdr.transaction_id as nat,
        ) + ", unit_id: "@ + crate::text::decimal(hdr.unit_id as nat) + " }"@,
{
}

} // verus!
