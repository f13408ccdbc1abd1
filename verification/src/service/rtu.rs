//! The service over a serial line.

use vstd::prelude::*;

use crate::error::{IoError, IoErrorCause, IoErrorKind};
use crate::frame::rtu::Header;
use crate::service::connection::{Actor, Framing};
use crate::slave::{Slave, SlaveId};

verus! {

/// Framing on a serial line: a header names the device and nothing else.
#[derive(Debug, Clone, Copy, PartialEq, Eq, Structural)]
pub struct RtuFraming;

impl Framing for RtuFraming {
    type Hdr = Header;

    type End = ();

    open spec fn header(self, slave: Slave) -> Header {
        Header { slave_id: slave.0 }
    }

    open spec fn advanced(self) -> Self {
        self
    }

    open spec fn end_error(end: ()) -> IoError {
        IoError { kind: IoErrorKind::BrokenPipe, cause: IoErrorCause::Bare }
    }

    fn next_header(&mut self, slave: Slave) -> (res: Header) {
        let slave_id: SlaveId = slave.into();
        Header { slave_id }
    }

    fn end_of_stream(end: ()) -> (res: IoError) {
        IoError { kind: IoErrorKind::BrokenPipe, cause: IoErrorCause::Bare }
    }
}

/// The actor of a new connection.
pub fn new_actor() -> (res: Actor<RtuFraming>)
    ensures
        res.framing == RtuFraming,
{
    Actor::new(RtuFraming)
}

} // verus!
