//! Frames on a TCP connection.

use vstd::prelude::*;
use vstd::string::StringExecFns;

use crate::frame::FrameHeader;
use crate::slave::SlaveId;

verus! {

/// The number by which a request and its reply are matched.
pub type TransactionId = u16;

/// The number of a device behind a TCP connection.
pub type UnitId = SlaveId;

/// The header of a frame on a TCP connection.
#[derive(Debug, Clone, Copy, PartialEq, Eq, Structural)]
pub struct Header {
    pub transaction_id: TransactionId,
    pub unit_id: UnitId,
}

impl FrameHeader for Header {
    open spec fn description(self) -> Seq<char> {
        "Header { transaction_id: "@ + crate::text::decimal(self.transaction_id as nat)
            + ", unit_id: "@ + crate::text::decimal(self.unit_id as nat) + " }"@
    }

    fn same(&self, other: &Self) -> (res: bool) {
        *self == *other
    }

    fn describe(&self, out: &mut String) {
        out.append("Header { transaction_id: ");
        crate::text::push_decimal(out, self.transaction_id);
        out.append(", unit_id: ");
        crate::text::push_decimal(out, self.unit_id as u16);
        out.append(" }");
    }
}

/// A request on a TCP connection.
pub type RequestAdu<'a> = crate::frame::RequestAdu<'a, Header>;

/// An answer on a TCP connection.
pub type ResponseAdu = crate::frame::ResponseAdu<Header>;

/// Different headers have different descriptions.
pub proof fn law_description_identifies_header(a: Header, b: Header)
    requires
        a.description() == b.description(),
    ensures
        a == b,
{
    reveal_strlit("Header { transaction_id: ");
    reveal_strlit(", unit_id: ");
    reveal_strlit(" }");
    let start = "Header { transaction_id: "@;
    let middle = ", unit_id: "@;
    let end = " }"@;
    let id_a = crate::text::decimal(a.transaction_id as nat);
    let id_b = crate::text::decimal(b.transaction_id as nat);
    let unit_a = crate::text::decimal(a.unit_id as nat) + end;
    let unit_b = crate::text::decimal(b.unit_id as nat) + end;
    assert(id_a + (middle + unit_a) == a.description().skip(start.len() as int));
    assert(id_b + (middle + unit_b) == b.description().skip(start.len() as int));
    crate::text::lemma_decimal_prefix(
        a.transaction_id as nat,
        middle + unit_a,
        b.transaction_id as nat,
        middle + unit_b,
    );
    assert(unit_a == (middle + unit_a).skip(middle.len() as int));
    assert(unit_b == (middle + unit_b).skip(middle.len() as int));
    crate::text::lemma_decimal_prefix(a.unit_id as nat, end, b.unit_id as nat, end);
}

} // verus!
