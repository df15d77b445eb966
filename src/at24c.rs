//! The logic of the AT24C128C / AT24C256C serial EEPROM driver: address and
//! size checks, the framing of a page write, and the write-cycle wait. The bus
//! transfers themselves are made by the caller.
use vstd::prelude::*;
use crate::model::elapsed;

verus! {

/// 7-bit bus address of the memory.
pub const DEVICE_ADDRESS: u8 = 0b1010000;

/// Largest sequential read or page write, in bytes.
pub const MAX_TRANSFER: usize = 64;

/// Length of a page-write frame: two address bytes and a full page.
pub const FRAME_LEN: usize = 66;

/// Time the memory needs after a write before it takes another request, in microseconds.
pub const WRITE_CYCLE_US: u32 = 5000;

/// A failed bus transfer.
#[derive(Clone, Copy, Debug, PartialEq, Eq, Structural)]
pub enum I2cError {
    ReadError,
    WriteError,
}

#[derive(Clone, Copy, Debug, PartialEq, Eq, Structural)]
pub enum At24cError {
    I2cError(I2cError),
    /// A transfer of more than 64 bytes was asked for.
    InvalidSize,
    AddressOutOfRange,
}

impl From<I2cError> for At24cError {
    fn from(e: I2cError) -> (r: At24cError)
        ensures
            r == At24cError::I2cError(e),
    {
        At24cError::I2cError(e)
    }
}

impl vstd::std_specs::convert::FromSpecImpl<I2cError> for At24cError {
    open spec fn obeys_from_spec() -> bool {
        true
    }

    open spec fn from_spec(e: I2cError) -> At24cError {
        At24cError::I2cError(e)
    }
}

/// The two memory sizes, in kilobits.
#[derive(Clone, Copy, Debug, PartialEq, Eq, Structural)]
pub enum At24cMemSize {
    Kb128,
    Kb256,
}

/// Number of byte addresses of a memory of the given size.
pub open spec fn capacity(size: At24cMemSize) -> int {
    match size {
        At24cMemSize::Kb128 => 16_384,
        At24cMemSize::Kb256 => 32_768,
    }
}

/// The check made before every read or write: the address first, then the length.
pub open spec fn spec_check_transfer(size: At24cMemSize, address: u16, len: int) -> Result<
    (),
    At24cError,
> {
    if address >= capacity(size) {
        Err(At24cError::AddressOutOfRange)
    } else if len > MAX_TRANSFER {
        Err(At24cError::InvalidSize)
    } else {
        Ok(())
    }
}

/// Checks that `address` lies within a memory of the given size.
pub fn is_address_valid(size: At24cMemSize, address: u16) -> (r: Result<(), At24cError>)
    ensures
        r == (if address < capacity(size) {
            Ok(())
        } else {
            Err(At24cError::AddressOutOfRange)
        }),
{
    match size {
        At24cMemSize::Kb128 => {
            if address >= 16_384 {
                return Err(At24cError::AddressOutOfRange);
            }
        },
        At24cMemSize::Kb256 => {
            if address >= 32_768 {
                return Err(At24cError::AddressOutOfRange);
            }
        },
    }
    Ok(())
}

/// Checks a transfer of `len` bytes at `address`.
pub fn check_transfer(size: At24cMemSize, address: u16, len: usize) -> (r: Result<(), At24cError>)
    ensures
        r == spec_check_transfer(size, address, len as int),
{
    is_address_valid(size, address)?;
    if len > MAX_TRANSFER {
        return Err(At24cError::InvalidSize);
    }
    Ok(())
}

/// The two address bytes sent before a transfer, high byte first.
pub fn address_bytes(address: u16) -> (r: [u8; 2])
    ensures
        r@ == seq![(address / 0x100) as u8, (address % 0x100) as u8],
{
    let hi = ((address & 0xFF00) >> 8u16) as u8;
    let lo = (address & 0x00FF) as u8;
    assert((address & 0xFF00) >> 8u16 == address / 0x100) by (bit_vector);
    assert(address & 0x00FF == address % 0x100) by (bit_vector);
    let r = [hi, lo];
    assert(r@ =~= seq![(address / 0x100) as u8, (address % 0x100) as u8]);
    r
}

/// Whether a new request may be made at `now` after a write at `last_write`.
pub open spec fn spec_write_cycle_done(now: u32, last_write: u32) -> bool {
    elapsed(now, last_write) >= WRITE_CYCLE_US
}

/// The driver's state apart from the bus: the memory size, the page-write
/// frame, and when the last write finished.
pub struct At24cState {
    size: At24cMemSize,
    tx_buffer: Vec<u8>,
    last_write: u32,
}

impl At24cState {
    /// The frame that the next page write sends.
    pub closed spec fn frame(&self) -> Seq<u8> {
        self.tx_buffer@
    }

    /// The size of the memory.
    pub closed spec fn mem_size(&self) -> At24cMemSize {
        self.size
    }

    /// When the last write finished.
    pub closed spec fn last_write(&self) -> u32 {
        self.last_write
    }

    pub closed spec fn wf(&self) -> bool {
        self.tx_buffer@.len() == FRAME_LEN
    }

    pub fn new(size: At24cMemSize) -> (r: Self)
        ensures
            r.wf(),
            r.mem_size() == size,
            r.frame() == Seq::new(FRAME_LEN as nat, |i: int| 0u8),
            r.last_write() == 0,
    {
        let mut tx_buffer: Vec<u8> = Vec::new();
        let mut i: usize = 0;
        while i < FRAME_LEN
            invariant
                i <= FRAME_LEN,
                tx_buffer@ == Seq::new(i as nat, |j: int| 0u8),
            decreases FRAME_LEN - i,
        {
            tx_buffer.push(0);
            i = i + 1;
            assert(tx_buffer@ =~= Seq::new(i as nat, |j: int| 0u8));
        }
        At24cState { size, tx_buffer, last_write: 0 }
    }

    /// The size of the memory.
    pub fn size(&self) -> (r: At24cMemSize)
        ensures
            r == self.mem_size(),
    {
        self.size
    }

    /// Whether the memory takes a new request at `now`.
    pub fn write_cycle_done(&self, now: u32) -> (r: bool)
        ensures
            r == spec_write_cycle_done(now, self.last_write()),
    {
        now.wrapping_sub(self.last_write) >= WRITE_CYCLE_US
    }

    /// Checks a page write of `buf` at `address` and, if it is allowed, puts
    /// the address and the data at the front of the frame; the rest of the
    /// frame keeps what it held.
    pub fn stage_write(&mut self, address: u16, buf: &[u8]) -> (r: Result<(), At24cError>)
        requires
            old(self).wf(),
        ensures
            final(self).wf(),
            final(self).mem_size() == old(self).mem_size(),
            final(self).last_write() == old(self).last_write(),
            r == spec_check_transfer(old(self).mem_size(), address, buf@.len() as int),
            r is Err ==> final(self).frame() == old(self).frame(),
            r is Ok ==> final(self).frame() == seq![(address / 0x100) as u8, (address % 0x100) as u8]
                + buf@ + old(self).frame().skip(2 + buf@.len() as int),
    {
        check_transfer(self.size, address, buf.len())?;
        let mut i: usize = 0;
        while i < buf.len()
            invariant
                self.tx_buffer@.len() == FRAME_LEN,
                buf@.len() <= MAX_TRANSFER,
                i <= buf@.len(),
                self.size == old(self).size,
                self.last_write == old(self).last_write,
                forall|j: int| 0 <= j < i ==> self.tx_buffer@[2 + j] == buf@[j],
                forall|j: int| 2 + i <= j < FRAME_LEN ==> self.tx_buffer@[j] == old(self).tx_buffer@[j],
            decreases buf@.len() - i,
        {
            self.tx_buffer.set(2 + i, buf[i]);
            i = i + 1;
        }
        let addr = address_bytes(address);
        self.tx_buffer.set(0, addr[0]);
        self.tx_buffer.set(1, addr[1]);
        assert(self.tx_buffer@ =~= seq![(address / 0x100) as u8, (address % 0x100) as u8] + buf@
            + old(self).frame().skip(2 + buf@.len() as int));
        Ok(())
    }

    /// The frame that the next page write sends.
    pub fn tx_frame(&self) -> (r: &[u8])
        ensures
            r@ == self.frame(),
    {
        self.tx_buffer.as_slice()
    }

    /// Records a page write that the memory took at `now`, and clears the frame.
    pub fn complete_write(&mut self, now: u32)
        requires
            old(self).wf(),
        ensures
            final(self).wf(),
            final(self).mem_size() == old(self).mem_size(),
            final(self).last_write() == now,
            final(self).frame() == Seq::new(FRAME_LEN as nat, |i: int| 0u8),
    {
        self.last_write = now;
        let mut i: usize = 0;
        while i < FRAME_LEN
            invariant
                self.tx_buffer@.len() == FRAME_LEN,
                i <= FRAME_LEN,
                self.size == old(self).size,
                self.last_write == now,
                forall|j: int| 0 <= j < i ==> self.tx_buffer@[j] == 0u8,
            decreases FRAME_LEN - i,
        {
            self.tx_buffer.set(i, 0);
            i = i + 1;
        }
        assert(self.tx_buffer@ =~= Seq::new(FRAME_LEN as nat, |i: int| 0u8));
    }
}

} // verus!
