//! Named values of register fields.

use vstd::prelude::*;

verus! {

/// Sync word qualifier mode, the `sync_mode` field of MDMCFG2.
#[allow(non_camel_case_types)]
#[derive(Clone, Copy, Debug, PartialEq, Eq, Structural)]
pub enum SyncCheck {
    /// No preamble or sync word.
    DISABLED,
    /// 15 of 16 sync word bits must match.
    CHECK_15_16,
    /// 16 of 16 sync word bits must match.
    CHECK_16_16,
    /// 30 of 32 bits of the repeated sync word must match.
    CHECK_30_32,
    /// No preamble or sync word, carrier sense above threshold.
    CHECK_0_0_CS,
    /// 15 of 16 sync word bits and carrier sense above threshold.
    CHECK_15_16_CS,
    /// 16 of 16 sync word bits and carrier sense above threshold.
    CHECK_16_16_CS,
    /// 30 of 32 bits of the repeated sync word and carrier sense above threshold.
    CHECK_30_32_CS,
}

impl SyncCheck {
    /// The value as the register field holds it.
    pub open spec fn code(self) -> u8 {
        match self {
            SyncCheck::DISABLED => 0x00,
            SyncCheck::CHECK_15_16 => 0x01,
            SyncCheck::CHECK_16_16 => 0x02,
            SyncCheck::CHECK_30_32 => 0x03,
            SyncCheck::CHECK_0_0_CS => 0x04,
            SyncCheck::CHECK_15_16_CS => 0x05,
            SyncCheck::CHECK_16_16_CS => 0x06,
            SyncCheck::CHECK_30_32_CS => 0x07,
        }
    }

    /// The value as the register field holds it.
    pub fn value(self) -> (code: u8)
        ensures
            code == self.code(),
    {
        match self {
            SyncCheck::DISABLED => 0x00,
            SyncCheck::CHECK_15_16 => 0x01,
            SyncCheck::CHECK_16_16 => 0x02,
            SyncCheck::CHECK_30_32 => 0x03,
            SyncCheck::CHECK_0_0_CS => 0x04,
            SyncCheck::CHECK_15_16_CS => 0x05,
            SyncCheck::CHECK_16_16_CS => 0x06,
            SyncCheck::CHECK_30_32_CS => 0x07,
        }
    }
}

/// Modulation format, the `mod_format` field of MDMCFG2.
#[allow(non_camel_case_types)]
#[derive(Clone, Copy, Debug, PartialEq, Eq, Structural)]
pub enum ModFormat {
    /// 2-FSK.
    MOD_2FSK,
    /// GFSK.
    MOD_GFSK,
    /// ASK or OOK.
    MOD_ASK_OOK,
    /// 4-FSK.
    MOD_4FSK,
    /// MSK.
    MOD_MSK,
}

impl ModFormat {
    /// The value as the register field holds it.
    pub open spec fn code(self) -> u8 {
        match self {
            ModFormat::MOD_2FSK => 0x00,
            ModFormat::MOD_GFSK => 0x01,
            ModFormat::MOD_ASK_OOK => 0x03,
            ModFormat::MOD_4FSK => 0x04,
            ModFormat::MOD_MSK => 0x07,
        }
    }

    /// The value as the register field holds it.
    pub fn value(self) -> (code: u8)
        ensures
            code == self.code(),
    {
        match self {
            ModFormat::MOD_2FSK => 0x00,
            ModFormat::MOD_GFSK => 0x01,
            ModFormat::MOD_ASK_OOK => 0x03,
            ModFormat::MOD_4FSK => 0x04,
            ModFormat::MOD_MSK => 0x07,
        }
    }
}

/// Address check of received packets, the `adr_chk` field of PKTCTRL1.
#[allow(non_camel_case_types)]
#[derive(Clone, Copy, Debug, PartialEq, Eq, Structural)]
pub enum AddressCheck {
    /// No address check.
    DISABLED,
    /// Address check, no broadcast.
    SELF,
    /// Address check and broadcast to address 0x00.
    SELF_LOW_BROADCAST,
    /// Address check and broadcast to addresses 0x00 and 0xFF.
    SELF_HIGH_LOW_BROADCAST,
}

impl AddressCheck {
    /// The value as the register field holds it.
    pub open spec fn code(self) -> u8 {
        match self {
            AddressCheck::DISABLED => 0x00,
            AddressCheck::SELF => 0x01,
            AddressCheck::SELF_LOW_BROADCAST => 0x02,
            AddressCheck::SELF_HIGH_LOW_BROADCAST => 0x03,
        }
    }

    /// The value as the register field holds it.
    pub fn value(self) -> (code: u8)
        ensures
            code == self.code(),
    {
        match self {
            AddressCheck::DISABLED => 0x00,
            AddressCheck::SELF => 0x01,
            AddressCheck::SELF_LOW_BROADCAST => 0x02,
            AddressCheck::SELF_HIGH_LOW_BROADCAST => 0x03,
        }
    }
}

/// Packet length mode, the `length_config` field of PKTCTRL0.
#[allow(non_camel_case_types)]
#[derive(Clone, Copy, Debug, PartialEq, Eq, Structural)]
pub enum LengthConfig {
    /// Fixed packet length, set in PKTLEN.
    FIXED,
    /// Variable packet length, taken from the first byte after the sync word.
    VARIABLE,
    /// Infinite packet length.
    INFINITE,
}

impl LengthConfig {
    /// The value as the register field holds it.
    pub open spec fn code(self) -> u8 {
        match self {
            LengthConfig::FIXED => 0x00,
            LengthConfig::VARIABLE => 0x01,
            LengthConfig::INFINITE => 0x02,
        }
    }

    /// The value as the register field holds it.
    pub fn value(self) -> (code: u8)
        ensures
            code == self.code(),
    {
        match self {
            LengthConfig::FIXED => 0x00,
            LengthConfig::VARIABLE => 0x01,
            LengthConfig::INFINITE => 0x02,
        }
    }
}

/// When the frequency synthesizer calibrates itself, the `fs_autocal` field of MCSM0.
#[allow(non_camel_case_types)]
#[derive(Clone, Copy, Debug, PartialEq, Eq, Structural)]
pub enum AutoCalibration {
    /// Never, calibration is started by hand.
    DISABLED,
    /// When going from IDLE to RX or TX.
    FROM_IDLE,
    /// When going from RX or TX back to IDLE.
    TO_IDLE,
    /// Every fourth time when going from RX or TX back to IDLE.
    TO_IDLE_EVERY_4TH,
}

impl AutoCalibration {
    /// The value as the register field holds it.
    pub open spec fn code(self) -> u8 {
        match self {
            AutoCalibration::DISABLED => 0x00,
            AutoCalibration::FROM_IDLE => 0x01,
            AutoCalibration::TO_IDLE => 0x02,
            AutoCalibration::TO_IDLE_EVERY_4TH => 0x03,
        }
    }

    /// The value as the register field holds it.
    pub fn value(self) -> (code: u8)
        ensures
            code == self.code(),
    {
        match self {
            AutoCalibration::DISABLED => 0x00,
            AutoCalibration::FROM_IDLE => 0x01,
            AutoCalibration::TO_IDLE => 0x02,
            AutoCalibration::TO_IDLE_EVERY_4TH => 0x03,
        }
    }
}

/// State of the main radio control state machine, the `marc_state` field of MARCSTATE.
#[allow(non_camel_case_types)]
#[derive(Clone, Copy, Debug, PartialEq, Eq, Structural)]
pub enum MachineState {
    /// Sleep.
    SLEEP,
    /// Idle.
    IDLE,
    /// Crystal oscillator off.
    XOFF,
    /// Manual calibration, oscillator on.
    VCOON_MC,
    /// Manual calibration, regulator on.
    REGON_MC,
    /// Manual calibration.
    MANCAL,
    /// Frequency synthesizer wake up, oscillator on.
    VCOON,
    /// Frequency synthesizer wake up, regulator on.
    REGON,
    /// Calibration starts.
    STARTCAL,
    /// Settling, bandwidth boost.
    BWBOOST,
    /// Settling, synthesizer lock.
    FS_LOCK,
    /// Settling, converter on.
    IFADCON,
    /// Calibration ends.
    ENDCAL,
    /// Receive.
    RX,
    /// Receive ends.
    RX_END,
    /// Receive restarts.
    RX_RST,
    /// Switching from TX to RX.
    TXRX_SWITCH,
    /// RX FIFO overflowed.
    RXFIFO_OVERFLOW,
    /// Fast TX ready.
    FSTXON,
    /// Transmit.
    TX,
    /// Transmit ends.
    TX_END,
    /// Switching from RX to TX.
    RXTX_SWITCH,
    /// TX FIFO underflowed.
    TXFIFO_UNDERFLOW,
}

impl MachineState {
    /// The value as the register field holds it.
    pub open spec fn code(self) -> u8 {
        match self {
            MachineState::SLEEP => 0x00,
            MachineState::IDLE => 0x01,
            MachineState::XOFF => 0x02,
            MachineState::VCOON_MC => 0x03,
            MachineState::REGON_MC => 0x04,
            MachineState::MANCAL => 0x05,
            MachineState::VCOON => 0x06,
            MachineState::REGON => 0x07,
            MachineState::STARTCAL => 0x08,
            MachineState::BWBOOST => 0x09,
            MachineState::FS_LOCK => 0x0A,
            MachineState::IFADCON => 0x0B,
            MachineState::ENDCAL => 0x0C,
            MachineState::RX => 0x0D,
            MachineState::RX_END => 0x0E,
            MachineState::RX_RST => 0x0F,
            MachineState::TXRX_SWITCH => 0x10,
            MachineState::RXFIFO_OVERFLOW => 0x11,
            MachineState::FSTXON => 0x12,
            MachineState::TX => 0x13,
            MachineState::TX_END => 0x14,
            MachineState::RXTX_SWITCH => 0x15,
            MachineState::TXFIFO_UNDERFLOW => 0x16,
        }
    }

    /// The value as the register field holds it.
    pub fn value(self) -> (code: u8)
        ensures
            code == self.code(),
    {
        match self {
            MachineState::SLEEP => 0x00,
            MachineState::IDLE => 0x01,
            MachineState::XOFF => 0x02,
            MachineState::VCOON_MC => 0x03,
            MachineState::REGON_MC => 0x04,
            MachineState::MANCAL => 0x05,
            MachineState::VCOON => 0x06,
            MachineState::REGON => 0x07,
            MachineState::STARTCAL => 0x08,
            MachineState::BWBOOST => 0x09,
            MachineState::FS_LOCK => 0x0A,
            MachineState::IFADCON => 0x0B,
            MachineState::ENDCAL => 0x0C,
            MachineState::RX => 0x0D,
            MachineState::RX_END => 0x0E,
            MachineState::RX_RST => 0x0F,
            MachineState::TXRX_SWITCH => 0x10,
            MachineState::RXFIFO_OVERFLOW => 0x11,
            MachineState::FSTXON => 0x12,
            MachineState::TX => 0x13,
            MachineState::TX_END => 0x14,
            MachineState::RXTX_SWITCH => 0x15,
            MachineState::TXFIFO_UNDERFLOW => 0x16,
        }
    }
}

} // verus!
