//! Addressing of _Modbus_ devices.

use vstd::prelude::*;

verus! {

/// The number of a device on its bus.
pub type SlaveId = u8;

/// A device on a _Modbus_ bus, known by its number.
#[derive(Debug, Clone, Copy, PartialEq, Eq, Structural)]
pub struct Slave(pub SlaveId);

impl Slave {
    /// The address that every device on the bus listens to.
    pub fn broadcast() -> (res: Self)
        ensures
            res == Slave(0),
    {
        Slave(0)
    }
}

impl From<Slave> for SlaveId {
    fn from(slave: Slave) -> (res: SlaveId) {
        slave.0
    }
}

impl vstd::std_specs::convert::FromSpecImpl<Slave> for SlaveId {
    open spec fn obeys_from_spec() -> bool {
        true
    }

    open spec fn from_spec(slave: Slave) -> SlaveId {
        slave.0
    }
}

} // verus!
