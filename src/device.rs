//! The device handle and its register operations, one bus transaction each.
use vstd::prelude::*;
use embedded_hal::i2c::{ErrorKind, I2c};
use crate::bus::{Transfer, issued, bus_write, bus_write_read};
use crate::flags::{CmdFlags, RegSelectFlags};

verus! {

/// Errors of the driver.
#[derive(Debug)]
pub enum Ads1119Err<I2CE> {
    /// No conversion became ready within the timeout, given in milliseconds.
    ConversionTimeout(u128),
    /// The bus reported an error; `source` says which.
    I2CError { source: I2CE },
}

/// The value of two bytes read as a big-endian two's-complement 16-bit integer.
pub open spec fn be_i16(hi: u8, lo: u8) -> int {
    let raw = hi as int * 256 + lo as int;
    if raw >= 32768 { raw - 65536 } else { raw }
}

/// The sample that a two-byte reply encodes.
pub open spec fn sample_of(reply: Seq<u8>) -> int {
    be_i16(reply[0], reply[1])
}

/// Reads two bytes as a big-endian two's-complement 16-bit integer.
pub fn sample_from_be_bytes(bytes: [u8; 2]) -> (r: i16)
    ensures
        r as int == be_i16(bytes@[0], bytes@[1]),
{
    let hi: i32 = bytes[0] as i32;
    let lo: i32 = bytes[1] as i32;
    let raw: i32 = hi * 256 + lo;
    if raw >= 32768 {
        (raw - 65536) as i16
    } else {
        raw as i16
    }
}

/// A handle on one ADS1119: it owns the bus and the device's 7-bit address,
/// and keeps, for its contracts only, a record of the transactions it issued.
pub struct Ads1119<I2C> {
    i2c: I2C,
    address: u8,
    transfers: Ghost<Seq<Transfer>>,
}

impl<I2C: I2c> Ads1119<I2C> {
    /// The bus that the handle owns.
    pub closed spec fn bus(&self) -> I2C {
        self.i2c
    }

    /// The address of the device on the bus.
    pub closed spec fn address(&self) -> u8 {
        self.address
    }

    /// The transactions that this handle has issued, oldest first.
    pub closed spec fn transfers(&self) -> Seq<Transfer> {
        self.transfers@
    }

    /// Takes the bus over for the device at `i2c_address`; no transaction is issued.
    pub fn new(i2c: I2C, i2c_address: u8) -> (r: Self)
        ensures
            r.bus() == i2c,
            r.address() == i2c_address,
            r.transfers() == Seq::<Transfer>::empty(),
    {
        Ads1119 { i2c, address: i2c_address, transfers: Ghost(Seq::empty()) }
    }

    /// Gives the bus back; no transaction is issued.
    pub fn destroy(self) -> (r: I2C)
        ensures
            r == self.bus(),
    {
        self.i2c
    }

    /// One write transaction, recorded.
    fn write(&mut self, bytes: &[u8]) -> (r: Result<(), ErrorKind>)
        ensures
            final(self).address() == old(self).address(),
            issued(old(self).transfers(), final(self).transfers(), old(self).address(), bytes@, 0),
            r is Ok <==> final(self).transfers().last().reply is Ok,
            r matches Err(e) ==> final(self).transfers().last().reply == Err::<Seq<u8>, ErrorKind>(e),
    {
        let r = bus_write(&mut self.i2c, self.address, bytes);
        let ghost reply: Result<Seq<u8>, ErrorKind> = match r {
            Ok(()) => Ok(Seq::empty()),
            Err(e) => Err(e),
        };
        self.transfers = Ghost(self.transfers@.push(Transfer { address: self.address, bytes: bytes@, read_len: 0, reply }));
        r
    }

    /// One write-then-read transaction of `N` bytes, recorded.
    fn write_read<const N: usize>(&mut self, bytes: &[u8], read: &mut [u8; N]) -> (r: Result<(), ErrorKind>)
        ensures
            final(self).address() == old(self).address(),
            issued(old(self).transfers(), final(self).transfers(), old(self).address(), bytes@, N as nat),
            r is Ok <==> final(self).transfers().last().reply is Ok,
            r matches Err(e) ==> final(self).transfers().last().reply == Err::<Seq<u8>, ErrorKind>(e),
            r is Ok ==> final(self).transfers().last().reply == Ok::<Seq<u8>, ErrorKind>(final(read)@),
    {
        let r = bus_write_read(&mut self.i2c, self.address, bytes, read);
        let ghost reply: Result<Seq<u8>, ErrorKind> = match r {
            Ok(()) => Ok(read@),
            Err(e) => Err(e),
        };
        self.transfers = Ghost(self.transfers@.push(Transfer { address: self.address, bytes: bytes@, read_len: N as nat, reply }));
        r
    }

    /// Reads the configuration register; the byte read is returned as it is.
    pub fn read_config(&mut self) -> (r: Result<u8, ErrorKind>)
        ensures
            final(self).address() == old(self).address(),
            issued(old(self).transfers(), final(self).transfers(), old(self).address(),
                seq![CmdFlags::RREG | RegSelectFlags::CONFIG], 1),
            r is Ok <==> final(self).transfers().last().reply is Ok,
            r matches Err(e) ==> final(self).transfers().last().reply == Err::<Seq<u8>, ErrorKind>(e),
            r matches Ok(v) ==> final(self).transfers().last().reply == Ok::<Seq<u8>, ErrorKind>(seq![v]),
    {
        let cmd: [u8; 1] = [CmdFlags::RREG | RegSelectFlags::CONFIG];
        let mut read_buffer: [u8; 1] = [0];
        assert(cmd@ =~= seq![CmdFlags::RREG | RegSelectFlags::CONFIG]);
        match self.write_read(&cmd, &mut read_buffer) {
            Ok(()) => {
                assert(read_buffer@ =~= seq![read_buffer[0]]);
                Ok(read_buffer[0])
            },
            Err(e) => Err(e),
        }
    }

    /// Writes `value` to the configuration register: the write command and the
    /// value go out in one transaction.
    pub fn write_config(&mut self, value: u8) -> (r: Result<(), ErrorKind>)
        ensures
            final(self).address() == old(self).address(),
            issued(old(self).transfers(), final(self).transfers(), old(self).address(),
                seq![CmdFlags::WREG | RegSelectFlags::CONFIG, value], 0),
            r is Ok <==> final(self).transfers().last().reply is Ok,
            r matches Err(e) ==> final(self).transfers().last().reply == Err::<Seq<u8>, ErrorKind>(e),
    {
        let cmd: [u8; 2] = [CmdFlags::WREG | RegSelectFlags::CONFIG, value];
        assert(cmd@ =~= seq![CmdFlags::WREG | RegSelectFlags::CONFIG, value]);
        self.write(&cmd)
    }

    /// Reads the status register; only its bit 7, the ready flag, has a meaning.
    pub fn read_status(&mut self) -> (r: Result<u8, ErrorKind>)
        ensures
            final(self).address() == old(self).address(),
            issued(old(self).transfers(), final(self).transfers(), old(self).address(),
                seq![CmdFlags::RREG | RegSelectFlags::STATUS], 1),
            r is Ok <==> final(self).transfers().last().reply is Ok,
            r matches Err(e) ==> final(self).transfers().last().reply == Err::<Seq<u8>, ErrorKind>(e),
            r matches Ok(v) ==> final(self).transfers().last().reply == Ok::<Seq<u8>, ErrorKind>(seq![v]),
    {
        let cmd: [u8; 1] = [CmdFlags::RREG | RegSelectFlags::STATUS];
        let mut read_buffer: [u8; 1] = [0];
        assert(cmd@ =~= seq![CmdFlags::RREG | RegSelectFlags::STATUS]);
        match self.write_read(&cmd, &mut read_buffer) {
            Ok(()) => {
                assert(read_buffer@ =~= seq![read_buffer[0]]);
                Ok(read_buffer[0])
            },
            Err(e) => Err(e),
        }
    }

    /// Starts a single-shot conversion on the input that the configuration selects.
    pub fn start_sync(&mut self) -> (r: Result<(), ErrorKind>)
        ensures
            final(self).address() == old(self).address(),
            issued(old(self).transfers(), final(self).transfers(), old(self).address(),
                seq![CmdFlags::START_SYNC], 0),
            r is Ok <==> final(self).transfers().last().reply is Ok,
            r matches Err(e) ==> final(self).transfers().last().reply == Err::<Seq<u8>, ErrorKind>(e),
    {
        let cmd: [u8; 1] = [CmdFlags::START_SYNC];
        assert(cmd@ =~= seq![CmdFlags::START_SYNC]);
        self.write(&cmd)
    }

    /// Resets the device to its default state.
    pub fn reset(&mut self) -> (r: Result<(), ErrorKind>)
        ensures
            final(self).address() == old(self).address(),
            issued(old(self).transfers(), final(self).transfers(), old(self).address(),
                seq![CmdFlags::RESET], 0),
            r is Ok <==> final(self).transfers().last().reply is Ok,
            r matches Err(e) ==> final(self).transfers().last().reply == Err::<Seq<u8>, ErrorKind>(e),
    {
        let cmd: [u8; 1] = [CmdFlags::RESET];
        assert(cmd@ =~= seq![CmdFlags::RESET]);
        self.write(&cmd)
    }

    /// Reads the last conversion result: two bytes, big-endian two's complement.
    pub fn read_data(&mut self) -> (r: Result<i16, ErrorKind>)
        ensures
            final(self).address() == old(self).address(),
            issued(old(self).transfers(), final(self).transfers(), old(self).address(),
                seq![CmdFlags::RDATA], 2),
            r is Ok <==> final(self).transfers().last().reply is Ok,
            r matches Err(e) ==> final(self).transfers().last().reply == Err::<Seq<u8>, ErrorKind>(e),
            r matches Ok(v) ==> v as int == sample_of(final(self).transfers().last().reply->Ok_0),
    {
        let cmd: [u8; 1] = [CmdFlags::RDATA];
        let mut read_buffer: [u8; 2] = [0, 0];
        assert(cmd@ =~= seq![CmdFlags::RDATA]);
        match self.write_read(&cmd, &mut read_buffer) {
            Ok(()) => Ok(sample_from_be_bytes(read_buffer)),
            Err(e) => Err(e),
        }
    }
}

} // verus!
