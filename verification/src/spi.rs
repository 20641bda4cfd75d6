//! SPI framing of the AD9361.
use vstd::prelude::*;

verus! {

/// Read bit of the SPI header.
pub const AD_READ: u16 = 0;

/// Write bit of the SPI header.
pub const AD_WRITE: u16 = 0x8000;

/// Two byte header in front of every SPI transfer: the write bit in bit 15, the number of
/// bytes minus one in bits 12 to 14 and the address of the first register in bits 0 to 9.
#[derive(Debug, Clone, Copy, PartialEq, Eq, Structural)]
pub struct SpiHeader {
    raw: u16,
}

/// Raw value of an SPI header with the given fields.
pub open spec fn spi_header_value(write_bit: bool, count: int, addr: int) -> int {
    (if write_bit { 0x8000int } else { 0int }) + count * 0x1000 + addr
}

impl SpiHeader {
    /// Raw 16 bit header value.
    pub closed spec fn raw(self) -> u16 {
        self.raw
    }

    /// Whether the transfer is a write: bit 15.
    pub open spec fn write_bit_spec(self) -> bool {
        self.raw() >= 0x8000
    }

    /// Number of bytes transferred minus one: bits 12 to 14.
    pub open spec fn count_spec(self) -> int {
        (self.raw() / 0x1000) as int % 8
    }

    /// Address of the first register: bits 0 to 9.
    pub open spec fn addr_spec(self) -> int {
        self.raw() as int % 1024
    }

    /// Creates a header from its fields.
    pub fn new(write_bit: bool, count: u8, addr: u16) -> (r: Self)
        requires
            count < 8,
            addr < 1024,
        ensures
            r.raw() == spi_header_value(write_bit, count as int, addr as int),
            r.write_bit_spec() == write_bit,
            r.count_spec() == count,
            r.addr_spec() == addr,
    {
        let w: u16 = if write_bit {
            0x8000
        } else {
            0
        };
        SpiHeader { raw: w + count as u16 * 0x1000 + addr }
    }

    /// Wraps a raw header value.
    pub fn new_with_raw_value(raw: u16) -> (r: Self)
        ensures
            r.raw() == raw,
    {
        SpiHeader { raw }
    }

    /// Raw 16 bit header value.
    pub fn raw_value(&self) -> (r: u16)
        ensures
            r == self.raw(),
    {
        self.raw
    }

    /// Whether the transfer is a write.
    pub fn write_bit(&self) -> (r: bool)
        ensures
            r == self.write_bit_spec(),
    {
        self.raw >= 0x8000
    }

    /// Number of bytes transferred minus one.
    pub fn count(&self) -> (r: u8)
        ensures
            r == self.count_spec(),
    {
        ((self.raw / 0x1000) % 8) as u8
    }

    /// Address of the first register.
    pub fn addr(&self) -> (r: u16)
        ensures
            r == self.addr_spec(),
    {
        self.raw % 1024
    }
}

/// The header of a transfer is what the fields give back: decoding the header of a
/// transfer yields its direction, count and address.
pub proof fn lemma_spi_header_roundtrip(write_bit: bool, count: int, addr: int)
    requires
        0 <= count < 8,
        0 <= addr < 1024,
    ensures
        ({
            let v = spi_header_value(write_bit, count, addr);
            &&& 0 <= v < 0x1_0000
            &&& (v >= 0x8000) == write_bit
            &&& (v / 0x1000) % 8 == count
            &&& v % 1024 == addr
        }),
{
}

/// Bytes of the transfer header: the header value in big endian order.
pub open spec fn header_bytes(write_bit: bool, length: u8, reg: u16) -> (u8, u8) {
    let v = spi_header_value(write_bit, length - 1, reg as int);
    ((v / 256) as u8, (v % 256) as u8)
}

/// Writes the header of a transfer of `length` bytes starting at `reg` to the start of `buf`
/// and returns the number of payload bytes, which follow the header at `buf[2..2 + r]`. Nothing
/// is written and 0 is returned if `length` is 0.
fn prepare_spi_transfer(buf: &mut [u8], write_bit: bool, reg: u16, length: u8) -> (r: usize)
    requires
        reg < 1024,
        length < 8,
        length > 0 ==> old(buf)@.len() >= 2 + length,
    ensures
        r == length,
        final(buf)@.len() == old(buf)@.len(),
        length == 0 ==> final(buf)@ == old(buf)@,
        length > 0 ==> final(buf)@ == old(buf)@.update(0, header_bytes(write_bit, length, reg).0).update(
            1,
            header_bytes(write_bit, length, reg).1,
        ),
{
    if length == 0 {
        return 0;
    }
    let header = SpiHeader::new(write_bit, length - 1, reg).raw_value();
    buf[0] = (header / 256) as u8;
    buf[1] = (header % 256) as u8;
    length as usize
}

/// Writes the header of a read of `length` bytes starting at `reg` to the start of `buf` and
/// returns the number of payload bytes, which follow the header at `buf[2..2 + r]`. Nothing is
/// written and 0 is returned if `length` is 0.
pub fn prepare_spi_read(buf: &mut [u8], reg: u16, length: u8) -> (r: usize)
    requires
        reg < 1024,
        length < 8,
        length > 0 ==> old(buf)@.len() >= 2 + length,
    ensures
        r == length,
        final(buf)@.len() == old(buf)@.len(),
        length == 0 ==> final(buf)@ == old(buf)@,
        length > 0 ==> final(buf)@ == old(buf)@.update(0, header_bytes(false, length, reg).0).update(
            1,
            header_bytes(false, length, reg).1,
        ),
{
    prepare_spi_transfer(buf, false, reg, length)
}

/// Writes the header of a write of `length` bytes starting at `reg` to the start of `buf` and
/// returns the number of payload bytes, which follow the header at `buf[2..2 + r]`. Nothing is
/// written and 0 is returned if `length` is 0.
pub fn prepare_spi_write(buf: &mut [u8], reg: u16, length: u8) -> (r: usize)
    requires
        reg < 1024,
        length < 8,
        length > 0 ==> old(buf)@.len() >= 2 + length,
    ensures
        r == length,
        final(buf)@.len() == old(buf)@.len(),
        length == 0 ==> final(buf)@ == old(buf)@,
        length > 0 ==> final(buf)@ == old(buf)@.update(0, header_bytes(true, length, reg).0).update(
            1,
            header_bytes(true, length, reg).1,
        ),
{
    prepare_spi_transfer(buf, true, reg, length)
}

/// `SpiConf` value that soft resets the chip: the soft reset bit 7 and its mirror, bit 0.
pub const SPI_CONF_SOFT_RESET: u8 = 0x81;

/// The three bytes of a single register write: the header of a one byte write to `reg`, then
/// the value.
pub fn register_write_frame(reg: u16, value: u8) -> (r: [u8; 3])
    requires
        reg < 1024,
    ensures
        r@ == seq![header_bytes(true, 1, reg).0, header_bytes(true, 1, reg).1, value],
{
    let mut buf = [0u8; 3];
    let _ = prepare_spi_write(&mut buf, reg, 1);
    buf[2] = value;
    assert(buf@ =~= seq![header_bytes(true, 1, reg).0, header_bytes(true, 1, reg).1, value]);
    buf
}

/// The three bytes of a single register read: the header of a one byte read of `reg`, then a
/// placeholder for the byte clocked in.
pub fn register_read_frame(reg: u16) -> (r: [u8; 3])
    requires
        reg < 1024,
    ensures
        r@ == seq![header_bytes(false, 1, reg).0, header_bytes(false, 1, reg).1, 0u8],
{
    let mut buf = [0u8; 3];
    let _ = prepare_spi_read(&mut buf, reg, 1);
    assert(buf@ =~= seq![header_bytes(false, 1, reg).0, header_bytes(false, 1, reg).1, 0u8]);
    buf
}

/// The bytes of a write of 1 to 7 bytes to the registers from `start_reg` down: the header,
/// then the payload.
pub fn multi_write_frame(start_reg: u16, payload: &[u8]) -> (r: Vec<u8>)
    requires
        start_reg < 1024,
        1 <= payload@.len() < 8,
    ensures
        r@ == seq![
            header_bytes(true, payload@.len() as u8, start_reg).0,
            header_bytes(true, payload@.len() as u8, start_reg).1,
        ] + payload@,
{
    let len = payload.len() as u8;
    let mut header = [0u8; 9];
    let _ = prepare_spi_write(&mut header, start_reg, len);
    let mut v: Vec<u8> = Vec::new();
    v.push(header[0]);
    v.push(header[1]);
    let mut i: usize = 0;
    while i < payload.len()
        invariant
            i <= payload@.len(),
            v@ == seq![
                header_bytes(true, len, start_reg).0,
                header_bytes(true, len, start_reg).1,
            ] + payload@.take(i as int),
        decreases payload@.len() - i,
    {
        v.push(payload[i]);
        proof {
            assert(payload@.take(i + 1) =~= payload@.take(i as int).push(payload@[i as int]));
        }
        i = i + 1;
    }
    proof {
        assert(payload@.take(payload@.len() as int) =~= payload@);
    }
    v
}

} // verus!
