//! Contents of the status registers, by field. Each type wraps the raw
//! byte as it was read from the chip.

use vstd::prelude::*;
use crate::lowlevel::fields::Field;

verus! {

/// Demodulator estimate for link quality.
#[derive(Clone, Copy, Debug, PartialEq, Eq, Structural)]
pub struct LQI(pub u8);

impl LQI {
    /// Bit 7: whether the CRC of the last packet matched.
    #[verifier::allow_in_spec]
    pub fn crc_ok_field() -> Field
        returns
            (Field { offset: 7, width: 1 }),
    {
        Field { offset: 7, width: 1 }
    }

    /// Reads bit 7: whether the CRC of the last packet matched.
    pub fn crc_ok(self) -> (value: u8)
        ensures
            value == Self::crc_ok_field().extract(self.0),
            value <= Self::crc_ok_field().max(),
    {
        Self::crc_ok_field().extract(self.0)
    }

    /// Bits 6:0: the link quality estimate, lower for a better link.
    #[verifier::allow_in_spec]
    pub fn lqi_field() -> Field
        returns
            (Field { offset: 0, width: 7 }),
    {
        Field { offset: 0, width: 7 }
    }

    /// Reads bits 6:0: the link quality estimate, lower for a better link.
    pub fn lqi(self) -> (value: u8)
        ensures
            value == Self::lqi_field().extract(self.0),
            value <= Self::lqi_field().max(),
    {
        Self::lqi_field().extract(self.0)
    }

    /// The raw byte.
    pub fn bits(self) -> (raw: u8)
        ensures
            raw == self.0,
    {
        self.0
    }
}

/// Main radio control state machine state.
#[derive(Clone, Copy, Debug, PartialEq, Eq, Structural)]
pub struct MARCSTATE(pub u8);

impl MARCSTATE {
    /// Bits 4:0: the state of the main radio control state machine.
    #[verifier::allow_in_spec]
    pub fn marc_state_field() -> Field
        returns
            (Field { offset: 0, width: 5 }),
    {
        Field { offset: 0, width: 5 }
    }

    /// Reads bits 4:0: the state of the main radio control state machine.
    pub fn marc_state(self) -> (value: u8)
        ensures
            value == Self::marc_state_field().extract(self.0),
            value <= Self::marc_state_field().max(),
    {
        Self::marc_state_field().extract(self.0)
    }

    /// The raw byte.
    pub fn bits(self) -> (raw: u8)
        ensures
            raw == self.0,
    {
        self.0
    }
}

/// Current GDOx status and packet status.
#[derive(Clone, Copy, Debug, PartialEq, Eq, Structural)]
pub struct PKTSTATUS(pub u8);

impl PKTSTATUS {
    /// Bit 7: whether the CRC of the last packet matched.
    #[verifier::allow_in_spec]
    pub fn crc_ok_field() -> Field
        returns
            (Field { offset: 7, width: 1 }),
    {
        Field { offset: 7, width: 1 }
    }

    /// Reads bit 7: whether the CRC of the last packet matched.
    pub fn crc_ok(self) -> (value: u8)
        ensures
            value == Self::crc_ok_field().extract(self.0),
            value <= Self::crc_ok_field().max(),
    {
        Self::crc_ok_field().extract(self.0)
    }

    /// Bit 6: carrier sense.
    #[verifier::allow_in_spec]
    pub fn cs_field() -> Field
        returns
            (Field { offset: 6, width: 1 }),
    {
        Field { offset: 6, width: 1 }
    }

    /// Reads bit 6: carrier sense.
    pub fn cs(self) -> (value: u8)
        ensures
            value == Self::cs_field().extract(self.0),
            value <= Self::cs_field().max(),
    {
        Self::cs_field().extract(self.0)
    }

    /// Bit 5: whether the preamble quality threshold is reached.
    #[verifier::allow_in_spec]
    pub fn pqt_reached_field() -> Field
        returns
            (Field { offset: 5, width: 1 }),
    {
        Field { offset: 5, width: 1 }
    }

    /// Reads bit 5: whether the preamble quality threshold is reached.
    pub fn pqt_reached(self) -> (value: u8)
        ensures
            value == Self::pqt_reached_field().extract(self.0),
            value <= Self::pqt_reached_field().max(),
    {
        Self::pqt_reached_field().extract(self.0)
    }

    /// Bit 4: whether the channel is clear.
    #[verifier::allow_in_spec]
    pub fn cca_field() -> Field
        returns
            (Field { offset: 4, width: 1 }),
    {
        Field { offset: 4, width: 1 }
    }

    /// Reads bit 4: whether the channel is clear.
    pub fn cca(self) -> (value: u8)
        ensures
            value == Self::cca_field().extract(self.0),
            value <= Self::cca_field().max(),
    {
        Self::cca_field().extract(self.0)
    }

    /// Bit 3: whether a sync word has been received.
    #[verifier::allow_in_spec]
    pub fn sfd_field() -> Field
        returns
            (Field { offset: 3, width: 1 }),
    {
        Field { offset: 3, width: 1 }
    }

    /// Reads bit 3: whether a sync word has been received.
    pub fn sfd(self) -> (value: u8)
        ensures
            value == Self::sfd_field().extract(self.0),
            value <= Self::sfd_field().max(),
    {
        Self::sfd_field().extract(self.0)
    }

    /// Bit 2: the level of the GDO2 line.
    #[verifier::allow_in_spec]
    pub fn gdo2_field() -> Field
        returns
            (Field { offset: 2, width: 1 }),
    {
        Field { offset: 2, width: 1 }
    }

    /// Reads bit 2: the level of the GDO2 line.
    pub fn gdo2(self) -> (value: u8)
        ensures
            value == Self::gdo2_field().extract(self.0),
            value <= Self::gdo2_field().max(),
    {
        Self::gdo2_field().extract(self.0)
    }

    /// Bit 0: the level of the GDO0 line.
    #[verifier::allow_in_spec]
    pub fn gdo0_field() -> Field
        returns
            (Field { offset: 0, width: 1 }),
    {
        Field { offset: 0, width: 1 }
    }

    /// Reads bit 0: the level of the GDO0 line.
    pub fn gdo0(self) -> (value: u8)
        ensures
            value == Self::gdo0_field().extract(self.0),
            value <= Self::gdo0_field().max(),
    {
        Self::gdo0_field().extract(self.0)
    }

    /// The raw byte.
    pub fn bits(self) -> (raw: u8)
        ensures
            raw == self.0,
    {
        self.0
    }
}

/// Underflow and number of bytes in the TX FIFO.
#[derive(Clone, Copy, Debug, PartialEq, Eq, Structural)]
pub struct TXBYTES(pub u8);

impl TXBYTES {
    /// Bit 7: whether the TX FIFO has underflowed.
    #[verifier::allow_in_spec]
    pub fn txfifo_underflow_field() -> Field
        returns
            (Field { offset: 7, width: 1 }),
    {
        Field { offset: 7, width: 1 }
    }

    /// Reads bit 7: whether the TX FIFO has underflowed.
    pub fn txfifo_underflow(self) -> (value: u8)
        ensures
            value == Self::txfifo_underflow_field().extract(self.0),
            value <= Self::txfifo_underflow_field().max(),
    {
        Self::txfifo_underflow_field().extract(self.0)
    }

    /// Bits 6:0: the number of bytes in the TX FIFO.
    #[verifier::allow_in_spec]
    pub fn num_txbytes_field() -> Field
        returns
            (Field { offset: 0, width: 7 }),
    {
        Field { offset: 0, width: 7 }
    }

    /// Reads bits 6:0: the number of bytes in the TX FIFO.
    pub fn num_txbytes(self) -> (value: u8)
        ensures
            value == Self::num_txbytes_field().extract(self.0),
            value <= Self::num_txbytes_field().max(),
    {
        Self::num_txbytes_field().extract(self.0)
    }

    /// The raw byte.
    pub fn bits(self) -> (raw: u8)
        ensures
            raw == self.0,
    {
        self.0
    }
}

/// Overflow and number of bytes in the RX FIFO.
#[derive(Clone, Copy, Debug, PartialEq, Eq, Structural)]
pub struct RXBYTES(pub u8);

impl RXBYTES {
    /// Bit 7: whether the RX FIFO has overflowed.
    #[verifier::allow_in_spec]
    pub fn rxfifo_overflow_field() -> Field
        returns
            (Field { offset: 7, width: 1 }),
    {
        Field { offset: 7, width: 1 }
    }

    /// Reads bit 7: whether the RX FIFO has overflowed.
    pub fn rxfifo_overflow(self) -> (value: u8)
        ensures
            value == Self::rxfifo_overflow_field().extract(self.0),
            value <= Self::rxfifo_overflow_field().max(),
    {
        Self::rxfifo_overflow_field().extract(self.0)
    }

    /// Bits 6:0: the number of bytes in the RX FIFO.
    #[verifier::allow_in_spec]
    pub fn num_rxbytes_field() -> Field
        returns
            (Field { offset: 0, width: 7 }),
    {
        Field { offset: 0, width: 7 }
    }

    /// Reads bits 6:0: the number of bytes in the RX FIFO.
    pub fn num_rxbytes(self) -> (value: u8)
        ensures
            value == Self::num_rxbytes_field().extract(self.0),
            value <= Self::num_rxbytes_field().max(),
    {
        Self::num_rxbytes_field().extract(self.0)
    }

    /// The raw byte.
    pub fn bits(self) -> (raw: u8)
        ensures
            raw == self.0,
    {
        self.0
    }
}

} // verus!
