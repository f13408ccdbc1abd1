//! The service over a TCP connection.

use vstd::prelude::*;

use crate::error::IoError;
use crate::frame::tcp::{Header, TransactionId, UnitId};
use crate::service::connection::{Actor, Framing};
use crate::slave::Slave;

verus! {

/// The transaction id of the first request on a connection.
pub const INITIAL_TRANSACTION_ID: TransactionId = 0;

/// The transaction id of the request that comes `n` requests after the one with
/// `id`. Ids start over when they run out.
pub open spec fn id_after(id: TransactionId, n: nat) -> TransactionId {
    ((id + n) % 0x1_0000) as TransactionId
}

/// Generates the per-request transaction ids.
///
/// Owned exclusively by the connection actor, so a plain counter suffices.
#[derive(Debug)]
pub struct TransactionIdGenerator {
    next_transaction_id: TransactionId,
}

impl TransactionIdGenerator {
    /// The id of the next request.
    pub closed spec fn upcoming(self) -> TransactionId {
        self.next_transaction_id
    }

    /// A generator for a new connection.
    pub fn new() -> (res: Self)
        ensures
            res.upcoming() == INITIAL_TRANSACTION_ID,
    {
        TransactionIdGenerator { next_transaction_id: INITIAL_TRANSACTION_ID }
    }

    /// Takes the id for the next request.
    pub fn next(&mut self) -> (res: TransactionId)
        ensures
            res == old(self).upcoming(),
            final(self).upcoming() == id_after(old(self).upcoming(), 1),
            *final(self) == old(self).advanced(),
    {
        let next_transaction_id: TransactionId = self.next_transaction_id;
        self.next_transaction_id = next_transaction_id.wrapping_add(1);
        next_transaction_id
    }
}

impl Framing for TransactionIdGenerator {
    type Hdr = Header;

    /// The last error of the operating system at the end of the stream.
    type End = IoError;

    open spec fn header(self, slave: Slave) -> Header {
        Header { transaction_id: self.upcoming(), unit_id: slave.0 }
    }

    closed spec fn advanced(self) -> Self {
        TransactionIdGenerator {
            next_transaction_id: id_after(self.next_transaction_id, 1),
        }
    }

    open spec fn end_error(last_os_error: IoError) -> IoError {
        last_os_error
    }

    fn next_header(&mut self, slave: Slave) -> (res: Header) {
        let unit_id: UnitId = slave.into();
        Header { transaction_id: self.next(), unit_id }
    }

    fn end_of_stream(last_os_error: IoError) -> (res: IoError) {
        last_os_error
    }
}

/// The actor of a new connection.
pub fn new_actor() -> (res: Actor<TransactionIdGenerator>)
    ensures
        res.framing.upcoming() == INITIAL_TRANSACTION_ID,
{
    Actor::new(TransactionIdGenerator::new())
}

/// Each request advances the transaction id by one, and starts over after the last.
pub proof fn lemma_advanced(generator: TransactionIdGenerator)
    ensures
        generator.advanced().upcoming() == id_after(generator.upcoming(), 1),
{
}

} // verus!
