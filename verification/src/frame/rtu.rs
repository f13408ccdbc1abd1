//! Frames on a serial line.

use vstd::prelude::*;
use vstd::string::StringExecFns;

use crate::frame::FrameHeader;
use crate::slave::SlaveId;

verus! {

/// The header of a frame on a serial line.
#[derive(Debug, Clone, Copy, PartialEq, Eq, Structural)]
pub struct Header {
    pub slave_id: SlaveId,
}

impl FrameHeader for Header {
    open spec fn description(self) -> Seq<char> {
        "Header { slave_id: "@ + crate::text::decimal(self.slave_id as nat) + " }"@
    }

    fn same(&self, other: &Self) -> (res: bool) {
        *self == *other
    }

    fn describe(&self, out: &mut String) {
        out.append("Header { slave_id: ");
        crate::text::push_decimal(out, self.slave_id as u16);
        out.append(" }");
    }
}

/// A request on a serial line.
pub type RequestAdu<'a> = crate::frame::RequestAdu<'a, Header>;

/// An answer on a serial line.
pub type ResponseAdu = crate::frame::ResponseAdu<Header>;

/// Different headers have different descriptions.
pub proof fn law_description_identifies_header(a: Header, b: Header)
    requires
        a.description() == b.description(),
    ensures
        a == b,
{
    reveal_strlit("Header { slave_id: ");
    reveal_strlit(" }");
    let start = "Header { slave_id: "@;
    let end = " }"@;
    let text_a = crate::text::decimal(a.slave_id as nat);
    let text_b = crate::text::decimal(b.slave_id as nat);
    assert(text_a + end == a.description().skip(start.len() as int));
    assert(text_b + end == b.description().skip(start.len() as int));
    crate::text::lemma_decimal_prefix(a.slave_id as nat, end, b.slave_id as nat, end);
}

} // verus!
