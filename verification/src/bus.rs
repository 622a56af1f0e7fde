//! The transport capabilities the driver consumes: a transactional byte
//! bus and a blocking millisecond delay. Users of the driver implement
//! both for their platform.
//!
//! A bus keeps a ghost log of the transactions issued through it, so
//! that contracts can speak about which transactions an operation
//! performs and about the bytes a read handed back.

use vstd::prelude::*;

verus! {

/// One bus transaction, as recorded in the ghost transaction log.
pub enum BusOp {
    /// An outgoing transaction: `bytes` sent to the device at `addr`.
    Write { addr: u8, bytes: Seq<u8> },
    /// An outgoing-then-incoming transaction: `bytes` sent to the device
    /// at `addr`, then `data` read back. On a failed transaction `data`
    /// records whatever partial bytes the bus produced.
    WriteRead { addr: u8, bytes: Seq<u8>, data: Seq<u8> },
}

/// A transactional byte bus. The driver always sends the register
/// address as the first outgoing byte.
///
/// Nothing is promised of the bytes a read returns beyond their number:
/// they come from the device. A failure is reported verbatim through
/// the associated error type; the methods never retry.
pub trait Bus: Sized {
    /// The transport's own failure type.
    type BusError;

    /// The ghost log of all transactions issued so far.
    spec fn ops(&self) -> Seq<BusOp>;

    /// Issues one outgoing transaction sending `bytes` to the device at
    /// address `addr`.
    fn write(&mut self, addr: u8, bytes: &Vec<u8>) -> (r: Result<(), Self::BusError>)
        ensures
            final(self).ops() == old(self).ops().push(
                BusOp::Write { addr, bytes: bytes@ },
            ),
    ;

    /// Issues one outgoing-then-incoming transaction: sends `bytes` to
    /// the device at address `addr`, then reads exactly `read_len` bytes
    /// back.
    fn write_then_read(&mut self, addr: u8, bytes: &Vec<u8>, read_len: usize) -> (r: Result<
        Vec<u8>,
        Self::BusError,
    >)
        ensures
            r matches Ok(data) ==> data@.len() == read_len && final(self).ops() == old(
                self,
            ).ops().push(BusOp::WriteRead { addr, bytes: bytes@, data: data@ }),
            r is Err ==> exists|data: Seq<u8>|
                final(self).ops() == old(self).ops().push(
                    BusOp::WriteRead { addr, bytes: bytes@, data },
                ),
    ;
}

/// A blocking millisecond delay.
pub trait Delay: Sized {
    /// Blocks for at least `ms` milliseconds.
    fn delay_ms(&mut self, ms: u32);
}

/// A transaction log never loses what one more transaction appends.
pub proof fn lemma_push_extends_log(pre: Seq<BusOp>, op: BusOp)
    ensures
        pre.is_prefix_of(pre.push(op)),
{
    assert(pre =~= pre.push(op).subrange(0, pre.len() as int));
}

} // verus!
