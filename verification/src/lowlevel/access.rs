//! Header bits that choose the direction and the mode of a bus access.

use vstd::prelude::*;

verus! {

/// Header bit of a read. A write leaves it clear.
pub const READ_BIT: u8 = 0x80;

/// Header bit of a burst access, in which the chip steps to the next
/// address after every byte.
pub const BURST_BIT: u8 = 0x40;

/// Highest base address of the chip's address space.
pub const ADDRESS_MAX: u8 = 0x3F;

/// Direction of an access.
#[derive(Clone, Copy, Debug, PartialEq, Eq, Structural)]
pub enum Access {
    /// Data flows to the chip.
    Write,
    /// Data flows from the chip.
    Read,
}

/// Number of data bytes that one header byte announces.
#[derive(Clone, Copy, Debug, PartialEq, Eq, Structural)]
pub enum Mode {
    /// One data byte.
    Single,
    /// Any number of data bytes, until the chip is deselected.
    Burst,
}

impl Access {
    /// The header bit that this direction sets.
    pub open spec fn bit(self) -> u8 {
        match self {
            Access::Write => 0x00,
            Access::Read => READ_BIT,
        }
    }

    /// The header bit that this direction sets.
    pub fn offset(self) -> (bit: u8)
        ensures
            bit == self.bit(),
    {
        match self {
            Access::Write => 0x00,
            Access::Read => READ_BIT,
        }
    }
}

impl Mode {
    /// The header bit that this mode sets.
    pub open spec fn bit(self) -> u8 {
        match self {
            Mode::Single => 0x00,
            Mode::Burst => BURST_BIT,
        }
    }

    /// The header bit that this mode sets.
    pub fn offset(self) -> (bit: u8)
        ensures
            bit == self.bit(),
    {
        match self {
            Mode::Single => 0x00,
            Mode::Burst => BURST_BIT,
        }
    }
}

/// The header byte for a base address, a direction and a mode.
pub open spec fn header_byte(base: u8, access: Access, mode: Mode) -> u8 {
    base | access.bit() | mode.bit()
}

/// Builds the header byte for a base address, a direction and a mode.
pub fn header(base: u8, access: Access, mode: Mode) -> (byte: u8)
    ensures
        byte == header_byte(base, access, mode),
{
    base | access.offset() | mode.offset()
}

/// For a base address inside the address space the header byte carries
/// the base address in its low six bits, the read bit exactly for a read
/// and the burst bit exactly for a burst.
pub proof fn header_fields(base: u8, access: Access, mode: Mode)
    requires
        base <= ADDRESS_MAX,
    ensures
        header_byte(base, access, mode) & ADDRESS_MAX == base,
        (header_byte(base, access, mode) & READ_BIT == READ_BIT) == (access == Access::Read),
        (header_byte(base, access, mode) & BURST_BIT == BURST_BIT) == (mode == Mode::Burst),
{
    let a = access.bit();
    let m = mode.bit();
    assert(a == 0x00 || a == 0x80);
    assert(m == 0x00 || m == 0x40);
    assert(base <= 0x3F && (a == 0x00 || a == 0x80) && (m == 0x00 || m == 0x40) ==> {
        &&& (base | a | m) & 0x3F == base
        &&& ((base | a | m) & 0x80 == 0x80) == (a == 0x80)
        &&& ((base | a | m) & 0x40 == 0x40) == (m == 0x40)
    }) by (bit_vector);
}

} // verus!
