//! Transactions on the I2C bus, and the record that the device keeps of them.
use vstd::prelude::*;
use embedded_hal::i2c::{ErrorKind, I2c};

verus! {

/// The kind of a bus error, as embedded_hal classifies the errors of every bus.
#[verifier::external_type_specification]
#[verifier::external_body]
pub struct ExErrorKind(ErrorKind);

/// One bus transaction as the driver issued it: the peripheral address, the
/// bytes written, how many bytes were read back, and the outcome: the bytes
/// read, or the kind of error that the bus reported.
pub ghost struct Transfer {
    pub address: u8,
    pub bytes: Seq<u8>,
    pub read_len: nat,
    pub reply: Result<Seq<u8>, ErrorKind>,
}

/// `after` is `before` with one more transaction, addressed to `address`,
/// that wrote `bytes` and read `read_len` bytes.
pub open spec fn issued(before: Seq<Transfer>, after: Seq<Transfer>, address: u8, bytes: Seq<u8>, read_len: nat) -> bool {
    &&& after == before.push(after.last())
    &&& after.last().address == address
    &&& after.last().bytes == bytes
    &&& after.last().read_len == read_len
    &&& (after.last().reply matches Ok(b) ==> b.len() == read_len)
}

/// Relies on embedded_hal's `I2c::write`: one write transaction of `bytes` to
/// `address`; an error is handed back as its `Error::kind`.
#[verifier::external_body]
pub(crate) fn bus_write<I2C: I2c>(i2c: &mut I2C, address: u8, bytes: &[u8]) -> (r: Result<(), ErrorKind>)
{
    match i2c.write(address, bytes) {
        Ok(()) => Ok(()),
        Err(e) => Err(embedded_hal::i2c::Error::kind(&e)),
    }
}

/// Relies on embedded_hal's `I2c::write_read`: one transaction that writes
/// `bytes` to `address` and then reads `N` bytes into `read`; an error is
/// handed back as its `Error::kind`.
#[verifier::external_body]
pub(crate) fn bus_write_read<I2C: I2c, const N: usize>(
    i2c: &mut I2C,
    address: u8,
    bytes: &[u8],
    read: &mut [u8; N],
) -> (r: Result<(), ErrorKind>)
{
    match i2c.write_read(address, bytes, read) {
        Ok(()) => Ok(()),
        Err(e) => Err(embedded_hal::i2c::Error::kind(&e)),
    }
}

} // verus!
