//! The chip's address space: configuration registers, status registers,
//! command strobes and the FIFO, each with its header bytes.

pub mod config;
pub mod status;

use vstd::prelude::*;
use crate::lowlevel::access::{header_byte, Access, Mode, ADDRESS_MAX, BURST_BIT, READ_BIT};
use crate::lowlevel::fields::{extract_after_insert, inserts_commute};
use crate::lowlevel::registers::config::{DEVIATN, MDMCFG4};

verus! {

/// Base address through which both FIFOs are reached: the TX FIFO by a
/// write, the RX FIFO by a read.
pub const FIFO: u8 = 0x3F;

/// Configuration registers, readable and writable.
#[allow(non_camel_case_types)]
#[derive(Clone, Copy, Debug, PartialEq, Eq, Structural)]
pub enum Config {
    /// GDO2 output pin configuration.
    IOCFG2,
    /// GDO1 output pin configuration.
    IOCFG1,
    /// GDO0 output pin configuration.
    IOCFG0,
    /// RX FIFO and TX FIFO thresholds.
    FIFOTHR,
    /// Sync word, high byte.
    SYNC1,
    /// Sync word, low byte.
    SYNC0,
    /// Packet length.
    PKTLEN,
    /// Packet automation control.
    PKTCTRL1,
    /// Packet automation control.
    PKTCTRL0,
    /// Device address.
    ADDR,
    /// Channel number.
    CHANNR,
    /// Frequency synthesizer control.
    FSCTRL1,
    /// Frequency synthesizer control.
    FSCTRL0,
    /// Frequency control word, high byte.
    FREQ2,
    /// Frequency control word, middle byte.
    FREQ1,
    /// Frequency control word, low byte.
    FREQ0,
    /// Modem configuration.
    MDMCFG4,
    /// Modem configuration.
    MDMCFG3,
    /// Modem configuration.
    MDMCFG2,
    /// Modem configuration.
    MDMCFG1,
    /// Modem configuration.
    MDMCFG0,
    /// Modem deviation setting.
    DEVIATN,
    /// Main radio control state machine configuration.
    MCSM2,
    /// Main radio control state machine configuration.
    MCSM1,
    /// Main radio control state machine configuration.
    MCSM0,
    /// Frequency offset compensation configuration.
    FOCCFG,
    /// Bit synchronization configuration.
    BSCFG,
    /// AGC control.
    AGCCTRL2,
    /// AGC control.
    AGCCTRL1,
    /// AGC control.
    AGCCTRL0,
    /// High byte event 0 timeout.
    WOREVT1,
    /// Low byte event 0 timeout.
    WOREVT0,
    /// Wake on radio control.
    WORCTRL,
    /// Front end RX configuration.
    FREND1,
    /// Front end TX configuration.
    FREND0,
    /// Frequency synthesizer calibration.
    FSCAL3,
    /// Frequency synthesizer calibration.
    FSCAL2,
    /// Frequency synthesizer calibration.
    FSCAL1,
    /// Frequency synthesizer calibration.
    FSCAL0,
    /// RC oscillator configuration.
    RCCTRL1,
    /// RC oscillator configuration.
    RCCTRL0,
    /// Frequency synthesizer calibration control.
    FSTEST,
    /// Production test.
    PTEST,
    /// AGC test.
    AGCTEST,
    /// Various test settings.
    TEST2,
    /// Various test settings.
    TEST1,
    /// Various test settings.
    TEST0,
}

impl Config {
    /// The base address, before any header bit is set.
    pub open spec fn base(self) -> u8 {
        match self {
            Config::IOCFG2 => 0x00,
            Config::IOCFG1 => 0x01,
            Config::IOCFG0 => 0x02,
            Config::FIFOTHR => 0x03,
            Config::SYNC1 => 0x04,
            Config::SYNC0 => 0x05,
            Config::PKTLEN => 0x06,
            Config::PKTCTRL1 => 0x07,
            Config::PKTCTRL0 => 0x08,
            Config::ADDR => 0x09,
            Config::CHANNR => 0x0A,
            Config::FSCTRL1 => 0x0B,
            Config::FSCTRL0 => 0x0C,
            Config::FREQ2 => 0x0D,
            Config::FREQ1 => 0x0E,
            Config::FREQ0 => 0x0F,
            Config::MDMCFG4 => 0x10,
            Config::MDMCFG3 => 0x11,
            Config::MDMCFG2 => 0x12,
            Config::MDMCFG1 => 0x13,
            Config::MDMCFG0 => 0x14,
            Config::DEVIATN => 0x15,
            Config::MCSM2 => 0x16,
            Config::MCSM1 => 0x17,
            Config::MCSM0 => 0x18,
            Config::FOCCFG => 0x19,
            Config::BSCFG => 0x1A,
            Config::AGCCTRL2 => 0x1B,
            Config::AGCCTRL1 => 0x1C,
            Config::AGCCTRL0 => 0x1D,
            Config::WOREVT1 => 0x1E,
            Config::WOREVT0 => 0x1F,
            Config::WORCTRL => 0x20,
            Config::FREND1 => 0x21,
            Config::FREND0 => 0x22,
            Config::FSCAL3 => 0x23,
            Config::FSCAL2 => 0x24,
            Config::FSCAL1 => 0x25,
            Config::FSCAL0 => 0x26,
            Config::RCCTRL1 => 0x27,
            Config::RCCTRL0 => 0x28,
            Config::FSTEST => 0x29,
            Config::PTEST => 0x2A,
            Config::AGCTEST => 0x2B,
            Config::TEST2 => 0x2C,
            Config::TEST1 => 0x2D,
            Config::TEST0 => 0x2E,
        }
    }

    /// The base address, before any header bit is set.
    pub fn addr(self) -> (base: u8)
        ensures
            base == self.base(),
            base <= ADDRESS_MAX,
    {
        match self {
            Config::IOCFG2 => 0x00,
            Config::IOCFG1 => 0x01,
            Config::IOCFG0 => 0x02,
            Config::FIFOTHR => 0x03,
            Config::SYNC1 => 0x04,
            Config::SYNC0 => 0x05,
            Config::PKTLEN => 0x06,
            Config::PKTCTRL1 => 0x07,
            Config::PKTCTRL0 => 0x08,
            Config::ADDR => 0x09,
            Config::CHANNR => 0x0A,
            Config::FSCTRL1 => 0x0B,
            Config::FSCTRL0 => 0x0C,
            Config::FREQ2 => 0x0D,
            Config::FREQ1 => 0x0E,
            Config::FREQ0 => 0x0F,
            Config::MDMCFG4 => 0x10,
            Config::MDMCFG3 => 0x11,
            Config::MDMCFG2 => 0x12,
            Config::MDMCFG1 => 0x13,
            Config::MDMCFG0 => 0x14,
            Config::DEVIATN => 0x15,
            Config::MCSM2 => 0x16,
            Config::MCSM1 => 0x17,
            Config::MCSM0 => 0x18,
            Config::FOCCFG => 0x19,
            Config::BSCFG => 0x1A,
            Config::AGCCTRL2 => 0x1B,
            Config::AGCCTRL1 => 0x1C,
            Config::AGCCTRL0 => 0x1D,
            Config::WOREVT1 => 0x1E,
            Config::WOREVT0 => 0x1F,
            Config::WORCTRL => 0x20,
            Config::FREND1 => 0x21,
            Config::FREND0 => 0x22,
            Config::FSCAL3 => 0x23,
            Config::FSCAL2 => 0x24,
            Config::FSCAL1 => 0x25,
            Config::FSCAL0 => 0x26,
            Config::RCCTRL1 => 0x27,
            Config::RCCTRL0 => 0x28,
            Config::FSTEST => 0x29,
            Config::PTEST => 0x2A,
            Config::AGCTEST => 0x2B,
            Config::TEST2 => 0x2C,
            Config::TEST1 => 0x2D,
            Config::TEST0 => 0x2E,
        }
    }
}

/// Status registers, read only.
#[allow(non_camel_case_types)]
#[derive(Clone, Copy, Debug, PartialEq, Eq, Structural)]
pub enum Status {
    /// Part number.
    PARTNUM,
    /// Current version number.
    VERSION,
    /// Frequency offset estimate.
    FREQEST,
    /// Demodulator estimate for link quality.
    LQI,
    /// Received signal strength indication.
    RSSI,
    /// Control state machine state.
    MARCSTATE,
    /// High byte of WOR timer.
    WORTIME1,
    /// Low byte of WOR timer.
    WORTIME0,
    /// Current GDOx status and packet status.
    PKTSTATUS,
    /// Current setting from PLL calibration module.
    VCO_VC_DAC,
    /// Underflow and number of bytes in the TX FIFO.
    TXBYTES,
    /// Overflow and number of bytes in the RX FIFO.
    RXBYTES,
    /// Last RC oscillator calibration result.
    RCCTRL1_STATUS,
    /// Last RC oscillator calibration result.
    RCCTRL0_STATUS,
}

impl Status {
    /// The base address, before any header bit is set.
    pub open spec fn base(self) -> u8 {
        match self {
            Status::PARTNUM => 0x30,
            Status::VERSION => 0x31,
            Status::FREQEST => 0x32,
            Status::LQI => 0x33,
            Status::RSSI => 0x34,
            Status::MARCSTATE => 0x35,
            Status::WORTIME1 => 0x36,
            Status::WORTIME0 => 0x37,
            Status::PKTSTATUS => 0x38,
            Status::VCO_VC_DAC => 0x39,
            Status::TXBYTES => 0x3A,
            Status::RXBYTES => 0x3B,
            Status::RCCTRL1_STATUS => 0x3C,
            Status::RCCTRL0_STATUS => 0x3D,
        }
    }

    /// The base address, before any header bit is set.
    pub fn addr(self) -> (base: u8)
        ensures
            base == self.base(),
            base <= ADDRESS_MAX,
    {
        match self {
            Status::PARTNUM => 0x30,
            Status::VERSION => 0x31,
            Status::FREQEST => 0x32,
            Status::LQI => 0x33,
            Status::RSSI => 0x34,
            Status::MARCSTATE => 0x35,
            Status::WORTIME1 => 0x36,
            Status::WORTIME0 => 0x37,
            Status::PKTSTATUS => 0x38,
            Status::VCO_VC_DAC => 0x39,
            Status::TXBYTES => 0x3A,
            Status::RXBYTES => 0x3B,
            Status::RCCTRL1_STATUS => 0x3C,
            Status::RCCTRL0_STATUS => 0x3D,
        }
    }
}

/// Command strobes: a single header byte that makes the chip act at once.
#[allow(non_camel_case_types)]
#[derive(Clone, Copy, Debug, PartialEq, Eq, Structural)]
pub enum Command {
    /// Reset chip.
    SRES,
    /// Enable and calibrate frequency synthesizer.
    SFSTXON,
    /// Turn off crystal oscillator.
    SXOFF,
    /// Calibrate frequency synthesizer and turn it off.
    SCAL,
    /// Enable RX.
    SRX,
    /// Enable TX.
    STX,
    /// Exit RX / TX, turn off frequency synthesizer.
    SIDLE,
    /// Start automatic RX polling sequence.
    SWOR,
    /// Enter power down mode when chip select goes high.
    SPWD,
    /// Flush the RX FIFO buffer.
    SFRX,
    /// Flush the TX FIFO buffer.
    SFTX,
    /// Reset real time clock to Event1 value.
    SWORRST,
    /// No operation.
    SNOP,
}

impl Command {
    /// The base address, before any header bit is set.
    pub open spec fn base(self) -> u8 {
        match self {
            Command::SRES => 0x30,
            Command::SFSTXON => 0x31,
            Command::SXOFF => 0x32,
            Command::SCAL => 0x33,
            Command::SRX => 0x34,
            Command::STX => 0x35,
            Command::SIDLE => 0x36,
            Command::SWOR => 0x38,
            Command::SPWD => 0x39,
            Command::SFRX => 0x3A,
            Command::SFTX => 0x3B,
            Command::SWORRST => 0x3C,
            Command::SNOP => 0x3D,
        }
    }

    /// The base address, before any header bit is set.
    pub fn addr(self) -> (base: u8)
        ensures
            base == self.base(),
            base <= ADDRESS_MAX,
    {
        match self {
            Command::SRES => 0x30,
            Command::SFSTXON => 0x31,
            Command::SXOFF => 0x32,
            Command::SCAL => 0x33,
            Command::SRX => 0x34,
            Command::STX => 0x35,
            Command::SIDLE => 0x36,
            Command::SWOR => 0x38,
            Command::SPWD => 0x39,
            Command::SFRX => 0x3A,
            Command::SFTX => 0x3B,
            Command::SWORRST => 0x3C,
            Command::SNOP => 0x3D,
        }
    }
}

/// Any location of the address space.
#[derive(Clone, Copy, Debug, PartialEq, Eq, Structural)]
pub enum Register {
    /// A configuration register.
    Config(Config),
    /// A status register.
    Status(Status),
    /// A command strobe.
    Command(Command),
    /// The FIFO access point.
    Fifo,
}

impl Register {
    /// The base address, before any header bit is set.
    pub open spec fn base(self) -> u8 {
        match self {
            Register::Config(r) => r.base(),
            Register::Status(r) => r.base(),
            Register::Command(r) => r.base(),
            Register::Fifo => FIFO,
        }
    }

    /// Whether the location is only reached with the burst bit set. The
    /// status registers share their base addresses with the command
    /// strobes, and the burst bit tells them apart.
    pub open spec fn needs_burst_bit(self) -> bool {
        self is Status
    }

    /// Header byte that writes one byte to the location.
    pub open spec fn write_address(self) -> u8 {
        if self.needs_burst_bit() {
            self.base() | BURST_BIT
        } else {
            self.base()
        }
    }

    /// Header byte that reads one byte from the location.
    pub open spec fn read_address(self) -> u8 {
        self.write_address() | READ_BIT
    }

    /// Header byte that writes a run of bytes starting at the location.
    pub open spec fn burst_write_address(self) -> u8 {
        self.write_address() | BURST_BIT
    }

    /// Header byte that reads a run of bytes starting at the location.
    pub open spec fn burst_read_address(self) -> u8 {
        self.read_address() | BURST_BIT
    }

    /// The base address, before any header bit is set.
    pub fn addr(self) -> (base: u8)
        ensures
            base == self.base(),
            base <= ADDRESS_MAX,
    {
        match self {
            Register::Config(r) => r.addr(),
            Register::Status(r) => r.addr(),
            Register::Command(r) => r.addr(),
            Register::Fifo => FIFO,
        }
    }

    /// Header byte that writes one byte to the location.
    pub fn waddr(self) -> (header: u8)
        ensures
            header == self.write_address(),
    {
        match self {
            Register::Status(r) => r.addr() | BURST_BIT,
            _ => self.addr(),
        }
    }

    /// Header byte that reads one byte from the location.
    pub fn raddr(self) -> (header: u8)
        ensures
            header == self.read_address(),
    {
        self.waddr() | READ_BIT
    }

    /// Header byte that writes a run of bytes starting at the location.
    pub fn burst_waddr(self) -> (header: u8)
        ensures
            header == self.burst_write_address(),
    {
        self.waddr() | BURST_BIT
    }

    /// Header byte that reads a run of bytes starting at the location.
    pub fn burst_raddr(self) -> (header: u8)
        ensures
            header == self.burst_read_address(),
    {
        self.raddr() | BURST_BIT
    }
}

impl From<Config> for Register {
    fn from(register: Config) -> (location: Register) {
        Register::Config(register)
    }
}

impl vstd::std_specs::convert::FromSpecImpl<Config> for Register {
    open spec fn obeys_from_spec() -> bool {
        true
    }

    open spec fn from_spec(register: Config) -> Register {
        Register::Config(register)
    }
}

impl From<Status> for Register {
    fn from(register: Status) -> (location: Register) {
        Register::Status(register)
    }
}

impl vstd::std_specs::convert::FromSpecImpl<Status> for Register {
    open spec fn obeys_from_spec() -> bool {
        true
    }

    open spec fn from_spec(register: Status) -> Register {
        Register::Status(register)
    }
}

impl From<Command> for Register {
    fn from(strobe: Command) -> (location: Register) {
        Register::Command(strobe)
    }
}

impl vstd::std_specs::convert::FromSpecImpl<Command> for Register {
    open spec fn obeys_from_spec() -> bool {
        true
    }

    open spec fn from_spec(strobe: Command) -> Register {
        Register::Command(strobe)
    }
}

/// Every base address lies inside the six-bit address space.
pub proof fn base_in_range(location: Register)
    ensures
        location.base() <= ADDRESS_MAX,
{
}

/// The read header and the write header of a location differ in the read
/// bit and in nothing else: the write header has it clear, the read header
/// has it set.
pub proof fn direction_bit_only(location: Register)
    ensures
        location.write_address() & READ_BIT == 0,
        location.read_address() & READ_BIT == READ_BIT,
        location.read_address() ^ location.write_address() == READ_BIT,
        location.read_address() & !READ_BIT == location.write_address(),
{
    let b = location.base();
    assert(b <= 0x3F ==> {
        &&& b & 0x80 == 0
        &&& (b | 0x80) & 0x80 == 0x80
        &&& (b | 0x80) ^ b == 0x80
        &&& (b | 0x80) & !0x80u8 == b
        &&& (b | 0x40) & 0x80 == 0
        &&& ((b | 0x40) | 0x80) & 0x80 == 0x80
        &&& ((b | 0x40) | 0x80) ^ (b | 0x40) == 0x80
        &&& ((b | 0x40) | 0x80) & !0x80u8 == (b | 0x40)
    }) by (bit_vector);
}

/// A burst header differs from the single-byte header of the same
/// direction in the burst bit at most. Where the location can be reached
/// without the burst bit, the two differ in exactly that bit.
pub proof fn burst_bit_only(location: Register)
    ensures
        location.burst_write_address() & !BURST_BIT == location.write_address() & !BURST_BIT,
        location.burst_read_address() & !BURST_BIT == location.read_address() & !BURST_BIT,
        location.burst_write_address() & BURST_BIT == BURST_BIT,
        location.burst_read_address() & BURST_BIT == BURST_BIT,
        !location.needs_burst_bit() ==> {
            &&& location.burst_write_address() ^ location.write_address() == BURST_BIT
            &&& location.burst_read_address() ^ location.read_address() == BURST_BIT
        },
{
    let b = location.base();
    assert(b <= 0x3F ==> {
        &&& (b | 0x40) & !0x40u8 == b & !0x40u8
        &&& ((b | 0x80) | 0x40) & !0x40u8 == (b | 0x80) & !0x40u8
        &&& (b | 0x40) & 0x40 == 0x40
        &&& ((b | 0x80) | 0x40) & 0x40 == 0x40
        &&& (b | 0x40) ^ b == 0x40
        &&& ((b | 0x80) | 0x40) ^ (b | 0x80) == 0x40
        &&& ((b | 0x40) | 0x40) == (b | 0x40)
        &&& (((b | 0x40) | 0x80) | 0x40) == ((b | 0x40) | 0x80)
        &&& ((b | 0x40) | 0x80) & 0x40 == 0x40
    }) by (bit_vector);
}

/// Every header is the base address with the bit of its direction and the
/// bit of its mode: single-byte headers of a status register have the mode
/// burst, those of every other location the mode single, and burst headers
/// have the mode burst.
pub proof fn headers_by_access_and_mode(location: Register)
    ensures
        ({
            let mode = if location.needs_burst_bit() {
                Mode::Burst
            } else {
                Mode::Single
            };
            &&& location.write_address() == header_byte(location.base(), Access::Write, mode)
            &&& location.read_address() == header_byte(location.base(), Access::Read, mode)
            &&& location.burst_write_address() == header_byte(
                location.base(),
                Access::Write,
                Mode::Burst,
            )
            &&& location.burst_read_address() == header_byte(
                location.base(),
                Access::Read,
                Mode::Burst,
            )
        }),
{
    let b = location.base();
    assert({
        &&& b | 0x00 | 0x00 == b
        &&& b | 0x00 | 0x40 == b | 0x40
        &&& b | 0x80 | 0x00 == b | 0x80
        &&& b | 0x80 | 0x40 == (b | 0x40) | 0x80
        &&& b | 0x80 | 0x40 == (b | 0x80) | 0x40
        &&& (b | 0x40) | 0x40 == b | 0x40
        &&& ((b | 0x40) | 0x80) | 0x40 == (b | 0x40) | 0x80
    }) by (bit_vector);
}

/// The four headers of the FIFO: direction and burst bit choose between
/// writing one byte to the TX FIFO, writing a run of bytes to it, reading
/// one byte from the RX FIFO and reading a run of bytes from it.
pub proof fn fifo_headers()
    ensures
        Register::Fifo.write_address() == 0x3F,
        Register::Fifo.burst_write_address() == 0x7F,
        Register::Fifo.read_address() == 0xBF,
        Register::Fifo.burst_read_address() == 0xFF,
{
    assert(0x3Fu8 | 0x40 == 0x7F && 0x3Fu8 | 0x80 == 0xBF && (0x3Fu8 | 0x80) | 0x40 == 0xFF)
        by (bit_vector);
}

/// A command strobe is sent as its bare base address: neither the read
/// bit nor the burst bit is set in it.
pub proof fn strobe_header_is_bare(strobe: Command)
    ensures
        Register::Command(strobe).write_address() == strobe.base(),
        strobe.base() & READ_BIT == 0,
        strobe.base() & BURST_BIT == 0,
{
    let b = strobe.base();
    assert(b <= 0x3F ==> b & 0x80 == 0 && b & 0x40 == 0) by (bit_vector);
}

/// Mantissa and exponent of the deviation share DEVIATN without touching
/// each other: written in either order they give the same byte, and each
/// reads back as written.
pub proof fn deviation_fields_independent(raw: u8, m: u8, e: u8)
    requires
        m <= 7,
        e <= 7,
    ensures
        ({
            let mantissa = DEVIATN::deviation_m_field();
            let exponent = DEVIATN::deviation_e_field();
            let written = exponent.insert(mantissa.insert(raw, m), e);
            &&& written == mantissa.insert(exponent.insert(raw, e), m)
            &&& mantissa.extract(written) == m
            &&& exponent.extract(written) == e
        }),
{
    let mantissa = DEVIATN::deviation_m_field();
    let exponent = DEVIATN::deviation_e_field();
    inserts_commute(mantissa, exponent, raw, m, e);
    extract_after_insert(mantissa, raw, m);
    inserts_commute(mantissa, exponent, mantissa.insert(raw, m), m, e);
    extract_after_insert(exponent, mantissa.insert(raw, m), e);
}

/// The three fields of MDMCFG4, the mantissa and the exponent of the
/// channel bandwidth and the exponent of the data rate, do not touch each
/// other: each reads back as written whatever is written to the others.
pub proof fn modem_fields_independent(raw: u8, m: u8, e: u8, d: u8)
    requires
        m <= 3,
        e <= 3,
        d <= 15,
    ensures
        ({
            let mantissa = MDMCFG4::chanbw_m_field();
            let exponent = MDMCFG4::chanbw_e_field();
            let rate = MDMCFG4::drate_e_field();
            let written = rate.insert(exponent.insert(mantissa.insert(raw, m), e), d);
            &&& written == mantissa.insert(exponent.insert(rate.insert(raw, d), e), m)
            &&& mantissa.extract(written) == m
            &&& exponent.extract(written) == e
            &&& rate.extract(written) == d
        }),
{
    let mantissa = MDMCFG4::chanbw_m_field();
    let exponent = MDMCFG4::chanbw_e_field();
    let rate = MDMCFG4::drate_e_field();
    let one = mantissa.insert(raw, m);
    let two = exponent.insert(one, e);
    // The three writes in the other order.
    inserts_commute(mantissa, exponent, raw, m, e);
    inserts_commute(mantissa, rate, exponent.insert(raw, e), m, d);
    inserts_commute(exponent, rate, raw, e, d);
    // Each field read back through the writes that came after it.
    extract_after_insert(mantissa, raw, m);
    inserts_commute(mantissa, exponent, one, m, e);
    inserts_commute(mantissa, rate, two, m, d);
    extract_after_insert(exponent, one, e);
    inserts_commute(exponent, rate, two, e, d);
    extract_after_insert(rate, two, d);
}

/// Two different locations never share a header byte: the configuration
/// registers, the command strobes and the FIFO have base addresses of their
/// own, and the burst bit keeps the status registers apart from the command
/// strobes whose base addresses they share.
pub proof fn headers_distinct(a: Register, b: Register)
    requires
        a != b,
    ensures
        a.read_address() != b.read_address(),
        a.write_address() != b.write_address(),
{
    let x = a.base();
    let y = b.base();
    assert(a.needs_burst_bit() == b.needs_burst_bit() ==> x != y);
    assert(x <= 0x3F && y <= 0x3F ==> {
        &&& (x != y ==> (x | 0x80) != (y | 0x80))
        &&& (x != y ==> ((x | 0x40) | 0x80) != ((y | 0x40) | 0x80))
        &&& (x != y ==> (x | 0x40) != (y | 0x40))
        &&& (x | 0x40) != y
        &&& (y | 0x40) != x
        &&& ((x | 0x40) | 0x80) != (y | 0x80)
        &&& ((y | 0x40) | 0x80) != (x | 0x80)
    }) by (bit_vector);
}

} // verus!
