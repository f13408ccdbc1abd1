//! The connection service.

use vstd::prelude::*;
use vstd::string::StringExecFns;

use crate::error::{IoError, IoErrorKind};
use crate::frame::FrameHeader;

pub mod actor;
pub mod channel;
pub mod connection;
pub mod function_laws;
pub mod laws;
pub mod rtu;
pub mod tcp;

pub use actor::{
    call_command, call_outcome, disconnect_outcome, disconnected, CallResult, Command, Delivery,
    DisconnectResult, Handle, REQUEST_CHANNEL_BOUND,
};

verus! {

/// Whether a transport that failed to shut down with `err` was down already.
pub open spec fn already_down(err: IoError) -> bool {
    err.kind == IoErrorKind::NotConnected || err.kind == IoErrorKind::BrokenPipe
}

/// What a disconnect comes to when shutting the transport down came to `shutdown`.
pub open spec fn shutdown_result(shutdown: Result<(), IoError>) -> DisconnectResult {
    match shutdown {
        Ok(()) => Ok(()),
        Err(err) => if already_down(err) {
            Ok(())
        } else {
            Err(err)
        },
    }
}

/// What a disconnect comes to, given what shutting down the transport came to. A
/// transport that was down already counts as disconnected.
pub fn disconnect(shutdown: Result<(), IoError>) -> (res: DisconnectResult)
    ensures
        res == shutdown_result(shutdown),
{
    match shutdown {
        Ok(()) => Ok(()),
        Err(err) => match err.kind {
            IoErrorKind::NotConnected | IoErrorKind::BrokenPipe => Ok(()),
            IoErrorKind::Other => Err(err),
        },
    }
}

/// The message about a reply whose header is not that of its request.
pub open spec fn mismatch_message<H: FrameHeader>(req_hdr: H, rsp_hdr: H) -> Seq<char> {
    "expected/request = "@ + req_hdr.description() + ", actual/response = "@
        + rsp_hdr.description()
}

/// Check that `req_hdr` is the same `Header` as `rsp_hdr`.
///
/// # Errors
///
/// If the 2 headers are different, an error message with the details will be returned.
pub fn verify_response_header<H: FrameHeader>(req_hdr: &H, rsp_hdr: &H) -> (res: Result<(), String>)
    ensures
        res is Ok <==> *req_hdr == *rsp_hdr,
        res matches Err(message) ==> message@ == mismatch_message(*req_hdr, *rsp_hdr),
{
    if !req_hdr.same(rsp_hdr) {
        let mut message = String::new();
        message.append("expected/request = ");
        req_hdr.describe(&mut message);
        message.append(", actual/response = ");
        rsp_hdr.describe(&mut message);
        assert(message@ == mismatch_message(*req_hdr, *rsp_hdr));
        return Err(message);
    }
    Ok(())
}

} // verus!
