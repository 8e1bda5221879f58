//! Contents of the configuration registers, by field. Each type wraps the
//! raw byte; `default` gives the contents after a chip reset, the `with_`
//! methods write one field each, and `bits` hands the byte back.

use vstd::prelude::*;
use crate::lowlevel::fields::Field;

verus! {

/// GDO2 output pin configuration.
#[derive(Clone, Copy, Debug, PartialEq, Eq, Structural)]
pub struct IOCFG2(pub u8);

impl IOCFG2 {
    /// The contents after a chip reset.
    pub const RESET: u8 = 0x29;

    /// Bit 6: inverts the output, so that the line is active low.
    #[verifier::allow_in_spec]
    pub fn gdo2_inv_field() -> Field
        returns
            (Field { offset: 6, width: 1 }),
    {
        Field { offset: 6, width: 1 }
    }

    /// Reads bit 6: inverts the output, so that the line is active low.
    pub fn gdo2_inv(self) -> (value: u8)
        ensures
            value == Self::gdo2_inv_field().extract(self.0),
            value <= Self::gdo2_inv_field().max(),
    {
        Self::gdo2_inv_field().extract(self.0)
    }

    /// Writes bit 6: inverts the output, so that the line is active low.
    pub fn with_gdo2_inv(self, value: u8) -> (changed: Self)
        ensures
            changed.0 == Self::gdo2_inv_field().insert(self.0, value),
    {
        IOCFG2(Self::gdo2_inv_field().insert(self.0, value))
    }

    /// Bits 5:0: the signal that the line carries.
    #[verifier::allow_in_spec]
    pub fn gdo2_cfg_field() -> Field
        returns
            (Field { offset: 0, width: 6 }),
    {
        Field { offset: 0, width: 6 }
    }

    /// Reads bits 5:0: the signal that the line carries.
    pub fn gdo2_cfg(self) -> (value: u8)
        ensures
            value == Self::gdo2_cfg_field().extract(self.0),
            value <= Self::gdo2_cfg_field().max(),
    {
        Self::gdo2_cfg_field().extract(self.0)
    }

    /// Writes bits 5:0: the signal that the line carries.
    pub fn with_gdo2_cfg(self, value: u8) -> (changed: Self)
        ensures
            changed.0 == Self::gdo2_cfg_field().insert(self.0, value),
    {
        IOCFG2(Self::gdo2_cfg_field().insert(self.0, value))
    }

    /// The raw byte.
    pub fn bits(self) -> (raw: u8)
        ensures
            raw == self.0,
    {
        self.0
    }
}

impl Default for IOCFG2 {
    /// The contents after a chip reset.
    fn default() -> (reset: Self)
        ensures
            reset.0 == IOCFG2::RESET,
    {
        IOCFG2(IOCFG2::RESET)
    }
}

/// GDO1 output pin configuration.
#[derive(Clone, Copy, Debug, PartialEq, Eq, Structural)]
pub struct IOCFG1(pub u8);

impl IOCFG1 {
    /// The contents after a chip reset.
    pub const RESET: u8 = 0x2E;

    /// Bit 7: high output drive strength on the GDO lines.
    #[verifier::allow_in_spec]
    pub fn gdo_ds_field() -> Field
        returns
            (Field { offset: 7, width: 1 }),
    {
        Field { offset: 7, width: 1 }
    }

    /// Reads bit 7: high output drive strength on the GDO lines.
    pub fn gdo_ds(self) -> (value: u8)
        ensures
            value == Self::gdo_ds_field().extract(self.0),
            value <= Self::gdo_ds_field().max(),
    {
        Self::gdo_ds_field().extract(self.0)
    }

    /// Writes bit 7: high output drive strength on the GDO lines.
    pub fn with_gdo_ds(self, value: u8) -> (changed: Self)
        ensures
            changed.0 == Self::gdo_ds_field().insert(self.0, value),
    {
        IOCFG1(Self::gdo_ds_field().insert(self.0, value))
    }

    /// Bit 6: inverts the output, so that the line is active low.
    #[verifier::allow_in_spec]
    pub fn gdo1_inv_field() -> Field
        returns
            (Field { offset: 6, width: 1 }),
    {
        Field { offset: 6, width: 1 }
    }

    /// Reads bit 6: inverts the output, so that the line is active low.
    pub fn gdo1_inv(self) -> (value: u8)
        ensures
            value == Self::gdo1_inv_field().extract(self.0),
            value <= Self::gdo1_inv_field().max(),
    {
        Self::gdo1_inv_field().extract(self.0)
    }

    /// Writes bit 6: inverts the output, so that the line is active low.
    pub fn with_gdo1_inv(self, value: u8) -> (changed: Self)
        ensures
            changed.0 == Self::gdo1_inv_field().insert(self.0, value),
    {
        IOCFG1(Self::gdo1_inv_field().insert(self.0, value))
    }

    /// Bits 5:0: the signal that the line carries.
    #[verifier::allow_in_spec]
    pub fn gdo1_cfg_field() -> Field
        returns
            (Field { offset: 0, width: 6 }),
    {
        Field { offset: 0, width: 6 }
    }

    /// Reads bits 5:0: the signal that the line carries.
    pub fn gdo1_cfg(self) -> (value: u8)
        ensures
            value == Self::gdo1_cfg_field().extract(self.0),
            value <= Self::gdo1_cfg_field().max(),
    {
        Self::gdo1_cfg_field().extract(self.0)
    }

    /// Writes bits 5:0: the signal that the line carries.
    pub fn with_gdo1_cfg(self, value: u8) -> (changed: Self)
        ensures
            changed.0 == Self::gdo1_cfg_field().insert(self.0, value),
    {
        IOCFG1(Self::gdo1_cfg_field().insert(self.0, value))
    }

    /// The raw byte.
    pub fn bits(self) -> (raw: u8)
        ensures
            raw == self.0,
    {
        self.0
    }
}

impl Default for IOCFG1 {
    /// The contents after a chip reset.
    fn default() -> (reset: Self)
        ensures
            reset.0 == IOCFG1::RESET,
    {
        IOCFG1(IOCFG1::RESET)
    }
}

/// GDO0 output pin configuration.
#[derive(Clone, Copy, Debug, PartialEq, Eq, Structural)]
pub struct IOCFG0(pub u8);

impl IOCFG0 {
    /// The contents after a chip reset.
    pub const RESET: u8 = 0x3F;

    /// Bit 7: enables the analog temperature sensor.
    #[verifier::allow_in_spec]
    pub fn temp_sensor_enable_field() -> Field
        returns
            (Field { offset: 7, width: 1 }),
    {
        Field { offset: 7, width: 1 }
    }

    /// Reads bit 7: enables the analog temperature sensor.
    pub fn temp_sensor_enable(self) -> (value: u8)
        ensures
            value == Self::temp_sensor_enable_field().extract(self.0),
            value <= Self::temp_sensor_enable_field().max(),
    {
        Self::temp_sensor_enable_field().extract(self.0)
    }

    /// Writes bit 7: enables the analog temperature sensor.
    pub fn with_temp_sensor_enable(self, value: u8) -> (changed: Self)
        ensures
            changed.0 == Self::temp_sensor_enable_field().insert(self.0, value),
    {
        IOCFG0(Self::temp_sensor_enable_field().insert(self.0, value))
    }

    /// Bit 6: inverts the output, so that the line is active low.
    #[verifier::allow_in_spec]
    pub fn gdo0_inv_field() -> Field
        returns
            (Field { offset: 6, width: 1 }),
    {
        Field { offset: 6, width: 1 }
    }

    /// Reads bit 6: inverts the output, so that the line is active low.
    pub fn gdo0_inv(self) -> (value: u8)
        ensures
            value == Self::gdo0_inv_field().extract(self.0),
            value <= Self::gdo0_inv_field().max(),
    {
        Self::gdo0_inv_field().extract(self.0)
    }

    /// Writes bit 6: inverts the output, so that the line is active low.
    pub fn with_gdo0_inv(self, value: u8) -> (changed: Self)
        ensures
            changed.0 == Self::gdo0_inv_field().insert(self.0, value),
    {
        IOCFG0(Self::gdo0_inv_field().insert(self.0, value))
    }

    /// Bits 5:0: the signal that the line carries.
    #[verifier::allow_in_spec]
    pub fn gdo0_cfg_field() -> Field
        returns
            (Field { offset: 0, width: 6 }),
    {
        Field { offset: 0, width: 6 }
    }

    /// Reads bits 5:0: the signal that the line carries.
    pub fn gdo0_cfg(self) -> (value: u8)
        ensures
            value == Self::gdo0_cfg_field().extract(self.0),
            value <= Self::gdo0_cfg_field().max(),
    {
        Self::gdo0_cfg_field().extract(self.0)
    }

    /// Writes bits 5:0: the signal that the line carries.
    pub fn with_gdo0_cfg(self, value: u8) -> (changed: Self)
        ensures
            changed.0 == Self::gdo0_cfg_field().insert(self.0, value),
    {
        IOCFG0(Self::gdo0_cfg_field().insert(self.0, value))
    }

    /// The raw byte.
    pub fn bits(self) -> (raw: u8)
        ensures
            raw == self.0,
    {
        self.0
    }
}

impl Default for IOCFG0 {
    /// The contents after a chip reset.
    fn default() -> (reset: Self)
        ensures
            reset.0 == IOCFG0::RESET,
    {
        IOCFG0(IOCFG0::RESET)
    }
}

/// RX FIFO and TX FIFO thresholds.
#[derive(Clone, Copy, Debug, PartialEq, Eq, Structural)]
pub struct FIFOTHR(pub u8);

impl FIFOTHR {
    /// The contents after a chip reset.
    pub const RESET: u8 = 0x07;

    /// Bit 6: keeps the analog to digital converter settings when waking from sleep.
    #[verifier::allow_in_spec]
    pub fn adc_retention_field() -> Field
        returns
            (Field { offset: 6, width: 1 }),
    {
        Field { offset: 6, width: 1 }
    }

    /// Reads bit 6: keeps the analog to digital converter settings when waking from sleep.
    pub fn adc_retention(self) -> (value: u8)
        ensures
            value == Self::adc_retention_field().extract(self.0),
            value <= Self::adc_retention_field().max(),
    {
        Self::adc_retention_field().extract(self.0)
    }

    /// Writes bit 6: keeps the analog to digital converter settings when waking from sleep.
    pub fn with_adc_retention(self, value: u8) -> (changed: Self)
        ensures
            changed.0 == Self::adc_retention_field().insert(self.0, value),
    {
        FIFOTHR(Self::adc_retention_field().insert(self.0, value))
    }

    /// Bits 5:4: RX attenuation for close-in reception.
    #[verifier::allow_in_spec]
    pub fn close_in_rx_field() -> Field
        returns
            (Field { offset: 4, width: 2 }),
    {
        Field { offset: 4, width: 2 }
    }

    /// Reads bits 5:4: RX attenuation for close-in reception.
    pub fn close_in_rx(self) -> (value: u8)
        ensures
            value == Self::close_in_rx_field().extract(self.0),
            value <= Self::close_in_rx_field().max(),
    {
        Self::close_in_rx_field().extract(self.0)
    }

    /// Writes bits 5:4: RX attenuation for close-in reception.
    pub fn with_close_in_rx(self, value: u8) -> (changed: Self)
        ensures
            changed.0 == Self::close_in_rx_field().insert(self.0, value),
    {
        FIFOTHR(Self::close_in_rx_field().insert(self.0, value))
    }

    /// Bits 3:0: the threshold of the TX FIFO and the RX FIFO.
    #[verifier::allow_in_spec]
    pub fn fifo_thr_field() -> Field
        returns
            (Field { offset: 0, width: 4 }),
    {
        Field { offset: 0, width: 4 }
    }

    /// Reads bits 3:0: the threshold of the TX FIFO and the RX FIFO.
    pub fn fifo_thr(self) -> (value: u8)
        ensures
            value == Self::fifo_thr_field().extract(self.0),
            value <= Self::fifo_thr_field().max(),
    {
        Self::fifo_thr_field().extract(self.0)
    }

    /// Writes bits 3:0: the threshold of the TX FIFO and the RX FIFO.
    pub fn with_fifo_thr(self, value: u8) -> (changed: Self)
        ensures
            changed.0 == Self::fifo_thr_field().insert(self.0, value),
    {
        FIFOTHR(Self::fifo_thr_field().insert(self.0, value))
    }

    /// The raw byte.
    pub fn bits(self) -> (raw: u8)
        ensures
            raw == self.0,
    {
        self.0
    }
}

impl Default for FIFOTHR {
    /// The contents after a chip reset.
    fn default() -> (reset: Self)
        ensures
            reset.0 == FIFOTHR::RESET,
    {
        FIFOTHR(FIFOTHR::RESET)
    }
}

/// Sync word, high byte.
#[derive(Clone, Copy, Debug, PartialEq, Eq, Structural)]
pub struct SYNC1(pub u8);

impl SYNC1 {
    /// The contents after a chip reset.
    pub const RESET: u8 = 0xD3;

    /// Bits 7:0: the eight high bits of the sync word.
    #[verifier::allow_in_spec]
    pub fn sync_field() -> Field
        returns
            (Field { offset: 0, width: 8 }),
    {
        Field { offset: 0, width: 8 }
    }

    /// Reads bits 7:0: the eight high bits of the sync word.
    pub fn sync(self) -> (value: u8)
        ensures
            value == Self::sync_field().extract(self.0),
            value <= Self::sync_field().max(),
    {
        Self::sync_field().extract(self.0)
    }

    /// Writes bits 7:0: the eight high bits of the sync word.
    pub fn with_sync(self, value: u8) -> (changed: Self)
        ensures
            changed.0 == Self::sync_field().insert(self.0, value),
    {
        SYNC1(Self::sync_field().insert(self.0, value))
    }

    /// The raw byte.
    pub fn bits(self) -> (raw: u8)
        ensures
            raw == self.0,
    {
        self.0
    }
}

impl Default for SYNC1 {
    /// The contents after a chip reset.
    fn default() -> (reset: Self)
        ensures
            reset.0 == SYNC1::RESET,
    {
        SYNC1(SYNC1::RESET)
    }
}

/// Sync word, low byte.
#[derive(Clone, Copy, Debug, PartialEq, Eq, Structural)]
pub struct SYNC0(pub u8);

impl SYNC0 {
    /// The contents after a chip reset.
    pub const RESET: u8 = 0x91;

    /// Bits 7:0: the eight low bits of the sync word.
    #[verifier::allow_in_spec]
    pub fn sync_field() -> Field
        returns
            (Field { offset: 0, width: 8 }),
    {
        Field { offset: 0, width: 8 }
    }

    /// Reads bits 7:0: the eight low bits of the sync word.
    pub fn sync(self) -> (value: u8)
        ensures
            value == Self::sync_field().extract(self.0),
            value <= Self::sync_field().max(),
    {
        Self::sync_field().extract(self.0)
    }

    /// Writes bits 7:0: the eight low bits of the sync word.
    pub fn with_sync(self, value: u8) -> (changed: Self)
        ensures
            changed.0 == Self::sync_field().insert(self.0, value),
    {
        SYNC0(Self::sync_field().insert(self.0, value))
    }

    /// The raw byte.
    pub fn bits(self) -> (raw: u8)
        ensures
            raw == self.0,
    {
        self.0
    }
}

impl Default for SYNC0 {
    /// The contents after a chip reset.
    fn default() -> (reset: Self)
        ensures
            reset.0 == SYNC0::RESET,
    {
        SYNC0(SYNC0::RESET)
    }
}

/// Packet length.
#[derive(Clone, Copy, Debug, PartialEq, Eq, Structural)]
pub struct PKTLEN(pub u8);

impl PKTLEN {
    /// The contents after a chip reset.
    pub const RESET: u8 = 0xFF;

    /// Bits 7:0: the packet length in fixed length mode, the longest packet allowed in variable length mode.
    #[verifier::allow_in_spec]
    pub fn packet_length_field() -> Field
        returns
            (Field { offset: 0, width: 8 }),
    {
        Field { offset: 0, width: 8 }
    }

    /// Reads bits 7:0: the packet length in fixed length mode, the longest packet allowed in variable length mode.
    pub fn packet_length(self) -> (value: u8)
        ensures
            value == Self::packet_length_field().extract(self.0),
            value <= Self::packet_length_field().max(),
    {
        Self::packet_length_field().extract(self.0)
    }

    /// Writes bits 7:0: the packet length in fixed length mode, the longest packet allowed in variable length mode.
    pub fn with_packet_length(self, value: u8) -> (changed: Self)
        ensures
            changed.0 == Self::packet_length_field().insert(self.0, value),
    {
        PKTLEN(Self::packet_length_field().insert(self.0, value))
    }

    /// The raw byte.
    pub fn bits(self) -> (raw: u8)
        ensures
            raw == self.0,
    {
        self.0
    }
}

impl Default for PKTLEN {
    /// The contents after a chip reset.
    fn default() -> (reset: Self)
        ensures
            reset.0 == PKTLEN::RESET,
    {
        PKTLEN(PKTLEN::RESET)
    }
}

/// Packet automation control.
#[derive(Clone, Copy, Debug, PartialEq, Eq, Structural)]
pub struct PKTCTRL1(pub u8);

impl PKTCTRL1 {
    /// The contents after a chip reset.
    pub const RESET: u8 = 0x04;

    /// Bits 7:5: the preamble quality estimator threshold.
    #[verifier::allow_in_spec]
    pub fn pqt_field() -> Field
        returns
            (Field { offset: 5, width: 3 }),
    {
        Field { offset: 5, width: 3 }
    }

    /// Reads bits 7:5: the preamble quality estimator threshold.
    pub fn pqt(self) -> (value: u8)
        ensures
            value == Self::pqt_field().extract(self.0),
            value <= Self::pqt_field().max(),
    {
        Self::pqt_field().extract(self.0)
    }

    /// Writes bits 7:5: the preamble quality estimator threshold.
    pub fn with_pqt(self, value: u8) -> (changed: Self)
        ensures
            changed.0 == Self::pqt_field().insert(self.0, value),
    {
        PKTCTRL1(Self::pqt_field().insert(self.0, value))
    }

    /// Bit 3: flushes the RX FIFO when the CRC of a packet is wrong.
    #[verifier::allow_in_spec]
    pub fn crc_autoflush_field() -> Field
        returns
            (Field { offset: 3, width: 1 }),
    {
        Field { offset: 3, width: 1 }
    }

    /// Reads bit 3: flushes the RX FIFO when the CRC of a packet is wrong.
    pub fn crc_autoflush(self) -> (value: u8)
        ensures
            value == Self::crc_autoflush_field().extract(self.0),
            value <= Self::crc_autoflush_field().max(),
    {
        Self::crc_autoflush_field().extract(self.0)
    }

    /// Writes bit 3: flushes the RX FIFO when the CRC of a packet is wrong.
    pub fn with_crc_autoflush(self, value: u8) -> (changed: Self)
        ensures
            changed.0 == Self::crc_autoflush_field().insert(self.0, value),
    {
        PKTCTRL1(Self::crc_autoflush_field().insert(self.0, value))
    }

    /// Bit 2: appends two status bytes, with RSSI, LQI and the CRC verdict, to the payload.
    #[verifier::allow_in_spec]
    pub fn append_status_field() -> Field
        returns
            (Field { offset: 2, width: 1 }),
    {
        Field { offset: 2, width: 1 }
    }

    /// Reads bit 2: appends two status bytes, with RSSI, LQI and the CRC verdict, to the payload.
    pub fn append_status(self) -> (value: u8)
        ensures
            value == Self::append_status_field().extract(self.0),
            value <= Self::append_status_field().max(),
    {
        Self::append_status_field().extract(self.0)
    }

    /// Writes bit 2: appends two status bytes, with RSSI, LQI and the CRC verdict, to the payload.
    pub fn with_append_status(self, value: u8) -> (changed: Self)
        ensures
            changed.0 == Self::append_status_field().insert(self.0, value),
    {
        PKTCTRL1(Self::append_status_field().insert(self.0, value))
    }

    /// Bits 1:0: how the address of a received packet is checked.
    #[verifier::allow_in_spec]
    pub fn adr_chk_field() -> Field
        returns
            (Field { offset: 0, width: 2 }),
    {
        Field { offset: 0, width: 2 }
    }

    /// Reads bits 1:0: how the address of a received packet is checked.
    pub fn adr_chk(self) -> (value: u8)
        ensures
            value == Self::adr_chk_field().extract(self.0),
            value <= Self::adr_chk_field().max(),
    {
        Self::adr_chk_field().extract(self.0)
    }

    /// Writes bits 1:0: how the address of a received packet is checked.
    pub fn with_adr_chk(self, value: u8) -> (changed: Self)
        ensures
            changed.0 == Self::adr_chk_field().insert(self.0, value),
    {
        PKTCTRL1(Self::adr_chk_field().insert(self.0, value))
    }

    /// The raw byte.
    pub fn bits(self) -> (raw: u8)
        ensures
            raw == self.0,
    {
        self.0
    }
}

impl Default for PKTCTRL1 {
    /// The contents after a chip reset.
    fn default() -> (reset: Self)
        ensures
            reset.0 == PKTCTRL1::RESET,
    {
        PKTCTRL1(PKTCTRL1::RESET)
    }
}

/// Packet automation control.
#[derive(Clone, Copy, Debug, PartialEq, Eq, Structural)]
pub struct PKTCTRL0(pub u8);

impl PKTCTRL0 {
    /// The contents after a chip reset.
    pub const RESET: u8 = 0x45;

    /// Bit 6: turns data whitening on.
    #[verifier::allow_in_spec]
    pub fn white_data_field() -> Field
        returns
            (Field { offset: 6, width: 1 }),
    {
        Field { offset: 6, width: 1 }
    }

    /// Reads bit 6: turns data whitening on.
    pub fn white_data(self) -> (value: u8)
        ensures
            value == Self::white_data_field().extract(self.0),
            value <= Self::white_data_field().max(),
    {
        Self::white_data_field().extract(self.0)
    }

    /// Writes bit 6: turns data whitening on.
    pub fn with_white_data(self, value: u8) -> (changed: Self)
        ensures
            changed.0 == Self::white_data_field().insert(self.0, value),
    {
        PKTCTRL0(Self::white_data_field().insert(self.0, value))
    }

    /// Bits 5:4: the format of RX and TX data.
    #[verifier::allow_in_spec]
    pub fn pkt_format_field() -> Field
        returns
            (Field { offset: 4, width: 2 }),
    {
        Field { offset: 4, width: 2 }
    }

    /// Reads bits 5:4: the format of RX and TX data.
    pub fn pkt_format(self) -> (value: u8)
        ensures
            value == Self::pkt_format_field().extract(self.0),
            value <= Self::pkt_format_field().max(),
    {
        Self::pkt_format_field().extract(self.0)
    }

    /// Writes bits 5:4: the format of RX and TX data.
    pub fn with_pkt_format(self, value: u8) -> (changed: Self)
        ensures
            changed.0 == Self::pkt_format_field().insert(self.0, value),
    {
        PKTCTRL0(Self::pkt_format_field().insert(self.0, value))
    }

    /// Bit 2: turns CRC calculation in TX and CRC check in RX on.
    #[verifier::allow_in_spec]
    pub fn crc_en_field() -> Field
        returns
            (Field { offset: 2, width: 1 }),
    {
        Field { offset: 2, width: 1 }
    }

    /// Reads bit 2: turns CRC calculation in TX and CRC check in RX on.
    pub fn crc_en(self) -> (value: u8)
        ensures
            value == Self::crc_en_field().extract(self.0),
            value <= Self::crc_en_field().max(),
    {
        Self::crc_en_field().extract(self.0)
    }

    /// Writes bit 2: turns CRC calculation in TX and CRC check in RX on.
    pub fn with_crc_en(self, value: u8) -> (changed: Self)
        ensures
            changed.0 == Self::crc_en_field().insert(self.0, value),
    {
        PKTCTRL0(Self::crc_en_field().insert(self.0, value))
    }

    /// Bits 1:0: how the packet length is set.
    #[verifier::allow_in_spec]
    pub fn length_config_field() -> Field
        returns
            (Field { offset: 0, width: 2 }),
    {
        Field { offset: 0, width: 2 }
    }

    /// Reads bits 1:0: how the packet length is set.
    pub fn length_config(self) -> (value: u8)
        ensures
            value == Self::length_config_field().extract(self.0),
            value <= Self::length_config_field().max(),
    {
        Self::length_config_field().extract(self.0)
    }

    /// Writes bits 1:0: how the packet length is set.
    pub fn with_length_config(self, value: u8) -> (changed: Self)
        ensures
            changed.0 == Self::length_config_field().insert(self.0, value),
    {
        PKTCTRL0(Self::length_config_field().insert(self.0, value))
    }

    /// The raw byte.
    pub fn bits(self) -> (raw: u8)
        ensures
            raw == self.0,
    {
        self.0
    }
}

impl Default for PKTCTRL0 {
    /// The contents after a chip reset.
    fn default() -> (reset: Self)
        ensures
            reset.0 == PKTCTRL0::RESET,
    {
        PKTCTRL0(PKTCTRL0::RESET)
    }
}

/// Device address.
#[derive(Clone, Copy, Debug, PartialEq, Eq, Structural)]
pub struct ADDR(pub u8);

impl ADDR {
    /// The contents after a chip reset.
    pub const RESET: u8 = 0x00;

    /// Bits 7:0: the address used for packet filtration.
    #[verifier::allow_in_spec]
    pub fn device_addr_field() -> Field
        returns
            (Field { offset: 0, width: 8 }),
    {
        Field { offset: 0, width: 8 }
    }

    /// Reads bits 7:0: the address used for packet filtration.
    pub fn device_addr(self) -> (value: u8)
        ensures
            value == Self::device_addr_field().extract(self.0),
            value <= Self::device_addr_field().max(),
    {
        Self::device_addr_field().extract(self.0)
    }

    /// Writes bits 7:0: the address used for packet filtration.
    pub fn with_device_addr(self, value: u8) -> (changed: Self)
        ensures
            changed.0 == Self::device_addr_field().insert(self.0, value),
    {
        ADDR(Self::device_addr_field().insert(self.0, value))
    }

    /// The raw byte.
    pub fn bits(self) -> (raw: u8)
        ensures
            raw == self.0,
    {
        self.0
    }
}

impl Default for ADDR {
    /// The contents after a chip reset.
    fn default() -> (reset: Self)
        ensures
            reset.0 == ADDR::RESET,
    {
        ADDR(ADDR::RESET)
    }
}

/// Channel number.
#[derive(Clone, Copy, Debug, PartialEq, Eq, Structural)]
pub struct CHANNR(pub u8);

impl CHANNR {
    /// The contents after a chip reset.
    pub const RESET: u8 = 0x00;

    /// Bits 7:0: the channel number, which is multiplied by the channel spacing and added to the base frequency.
    #[verifier::allow_in_spec]
    pub fn chan_field() -> Field
        returns
            (Field { offset: 0, width: 8 }),
    {
        Field { offset: 0, width: 8 }
    }

    /// Reads bits 7:0: the channel number, which is multiplied by the channel spacing and added to the base frequency.
    pub fn chan(self) -> (value: u8)
        ensures
            value == Self::chan_field().extract(self.0),
            value <= Self::chan_field().max(),
    {
        Self::chan_field().extract(self.0)
    }

    /// Writes bits 7:0: the channel number, which is multiplied by the channel spacing and added to the base frequency.
    pub fn with_chan(self, value: u8) -> (changed: Self)
        ensures
            changed.0 == Self::chan_field().insert(self.0, value),
    {
        CHANNR(Self::chan_field().insert(self.0, value))
    }

    /// The raw byte.
    pub fn bits(self) -> (raw: u8)
        ensures
            raw == self.0,
    {
        self.0
    }
}

impl Default for CHANNR {
    /// The contents after a chip reset.
    fn default() -> (reset: Self)
        ensures
            reset.0 == CHANNR::RESET,
    {
        CHANNR(CHANNR::RESET)
    }
}

/// Frequency synthesizer control.
#[derive(Clone, Copy, Debug, PartialEq, Eq, Structural)]
pub struct FSCTRL1(pub u8);

impl FSCTRL1 {
    /// The contents after a chip reset.
    pub const RESET: u8 = 0x0F;

    /// Bits 4:0: the intermediate frequency used in RX.
    #[verifier::allow_in_spec]
    pub fn freq_if_field() -> Field
        returns
            (Field { offset: 0, width: 5 }),
    {
        Field { offset: 0, width: 5 }
    }

    /// Reads bits 4:0: the intermediate frequency used in RX.
    pub fn freq_if(self) -> (value: u8)
        ensures
            value == Self::freq_if_field().extract(self.0),
            value <= Self::freq_if_field().max(),
    {
        Self::freq_if_field().extract(self.0)
    }

    /// Writes bits 4:0: the intermediate frequency used in RX.
    pub fn with_freq_if(self, value: u8) -> (changed: Self)
        ensures
            changed.0 == Self::freq_if_field().insert(self.0, value),
    {
        FSCTRL1(Self::freq_if_field().insert(self.0, value))
    }

    /// The raw byte.
    pub fn bits(self) -> (raw: u8)
        ensures
            raw == self.0,
    {
        self.0
    }
}

impl Default for FSCTRL1 {
    /// The contents after a chip reset.
    fn default() -> (reset: Self)
        ensures
            reset.0 == FSCTRL1::RESET,
    {
        FSCTRL1(FSCTRL1::RESET)
    }
}

/// Frequency synthesizer control.
#[derive(Clone, Copy, Debug, PartialEq, Eq, Structural)]
pub struct FSCTRL0(pub u8);

impl FSCTRL0 {
    /// The contents after a chip reset.
    pub const RESET: u8 = 0x00;

    /// Bits 7:0: the frequency offset added to the base frequency, in two's complement.
    #[verifier::allow_in_spec]
    pub fn freqoff_field() -> Field
        returns
            (Field { offset: 0, width: 8 }),
    {
        Field { offset: 0, width: 8 }
    }

    /// Reads bits 7:0: the frequency offset added to the base frequency, in two's complement.
    pub fn freqoff(self) -> (value: u8)
        ensures
            value == Self::freqoff_field().extract(self.0),
            value <= Self::freqoff_field().max(),
    {
        Self::freqoff_field().extract(self.0)
    }

    /// Writes bits 7:0: the frequency offset added to the base frequency, in two's complement.
    pub fn with_freqoff(self, value: u8) -> (changed: Self)
        ensures
            changed.0 == Self::freqoff_field().insert(self.0, value),
    {
        FSCTRL0(Self::freqoff_field().insert(self.0, value))
    }

    /// The raw byte.
    pub fn bits(self) -> (raw: u8)
        ensures
            raw == self.0,
    {
        self.0
    }
}

impl Default for FSCTRL0 {
    /// The contents after a chip reset.
    fn default() -> (reset: Self)
        ensures
            reset.0 == FSCTRL0::RESET,
    {
        FSCTRL0(FSCTRL0::RESET)
    }
}

/// Frequency control word, high byte.
#[derive(Clone, Copy, Debug, PartialEq, Eq, Structural)]
pub struct FREQ2(pub u8);

impl FREQ2 {
    /// The contents after a chip reset.
    pub const RESET: u8 = 0x1E;

    /// Bits 5:0: bits 21 to 16 of the frequency control word.
    #[verifier::allow_in_spec]
    pub fn freq_field() -> Field
        returns
            (Field { offset: 0, width: 6 }),
    {
        Field { offset: 0, width: 6 }
    }

    /// Reads bits 5:0: bits 21 to 16 of the frequency control word.
    pub fn freq(self) -> (value: u8)
        ensures
            value == Self::freq_field().extract(self.0),
            value <= Self::freq_field().max(),
    {
        Self::freq_field().extract(self.0)
    }

    /// Writes bits 5:0: bits 21 to 16 of the frequency control word.
    pub fn with_freq(self, value: u8) -> (changed: Self)
        ensures
            changed.0 == Self::freq_field().insert(self.0, value),
    {
        FREQ2(Self::freq_field().insert(self.0, value))
    }

    /// The raw byte.
    pub fn bits(self) -> (raw: u8)
        ensures
            raw == self.0,
    {
        self.0
    }
}

impl Default for FREQ2 {
    /// The contents after a chip reset.
    fn default() -> (reset: Self)
        ensures
            reset.0 == FREQ2::RESET,
    {
        FREQ2(FREQ2::RESET)
    }
}

/// Frequency control word, middle byte.
#[derive(Clone, Copy, Debug, PartialEq, Eq, Structural)]
pub struct FREQ1(pub u8);

impl FREQ1 {
    /// The contents after a chip reset.
    pub const RESET: u8 = 0xC4;

    /// Bits 7:0: bits 15 to 8 of the frequency control word.
    #[verifier::allow_in_spec]
    pub fn freq_field() -> Field
        returns
            (Field { offset: 0, width: 8 }),
    {
        Field { offset: 0, width: 8 }
    }

    /// Reads bits 7:0: bits 15 to 8 of the frequency control word.
    pub fn freq(self) -> (value: u8)
        ensures
            value == Self::freq_field().extract(self.0),
            value <= Self::freq_field().max(),
    {
        Self::freq_field().extract(self.0)
    }

    /// Writes bits 7:0: bits 15 to 8 of the frequency control word.
    pub fn with_freq(self, value: u8) -> (changed: Self)
        ensures
            changed.0 == Self::freq_field().insert(self.0, value),
    {
        FREQ1(Self::freq_field().insert(self.0, value))
    }

    /// The raw byte.
    pub fn bits(self) -> (raw: u8)
        ensures
            raw == self.0,
    {
        self.0
    }
}

impl Default for FREQ1 {
    /// The contents after a chip reset.
    fn default() -> (reset: Self)
        ensures
            reset.0 == FREQ1::RESET,
    {
        FREQ1(FREQ1::RESET)
    }
}

/// Frequency control word, low byte.
#[derive(Clone, Copy, Debug, PartialEq, Eq, Structural)]
pub struct FREQ0(pub u8);

impl FREQ0 {
    /// The contents after a chip reset.
    pub const RESET: u8 = 0xEC;

    /// Bits 7:0: bits 7 to 0 of the frequency control word.
    #[verifier::allow_in_spec]
    pub fn freq_field() -> Field
        returns
            (Field { offset: 0, width: 8 }),
    {
        Field { offset: 0, width: 8 }
    }

    /// Reads bits 7:0: bits 7 to 0 of the frequency control word.
    pub fn freq(self) -> (value: u8)
        ensures
            value == Self::freq_field().extract(self.0),
            value <= Self::freq_field().max(),
    {
        Self::freq_field().extract(self.0)
    }

    /// Writes bits 7:0: bits 7 to 0 of the frequency control word.
    pub fn with_freq(self, value: u8) -> (changed: Self)
        ensures
            changed.0 == Self::freq_field().insert(self.0, value),
    {
        FREQ0(Self::freq_field().insert(self.0, value))
    }

    /// The raw byte.
    pub fn bits(self) -> (raw: u8)
        ensures
            raw == self.0,
    {
        self.0
    }
}

impl Default for FREQ0 {
    /// The contents after a chip reset.
    fn default() -> (reset: Self)
        ensures
            reset.0 == FREQ0::RESET,
    {
        FREQ0(FREQ0::RESET)
    }
}

/// Modem configuration: channel filter bandwidth and data rate exponent.
#[derive(Clone, Copy, Debug, PartialEq, Eq, Structural)]
pub struct MDMCFG4(pub u8);

impl MDMCFG4 {
    /// The contents after a chip reset.
    pub const RESET: u8 = 0x8C;

    /// Bits 7:6: the exponent of the channel filter bandwidth.
    #[verifier::allow_in_spec]
    pub fn chanbw_e_field() -> Field
        returns
            (Field { offset: 6, width: 2 }),
    {
        Field { offset: 6, width: 2 }
    }

    /// Reads bits 7:6: the exponent of the channel filter bandwidth.
    pub fn chanbw_e(self) -> (value: u8)
        ensures
            value == Self::chanbw_e_field().extract(self.0),
            value <= Self::chanbw_e_field().max(),
    {
        Self::chanbw_e_field().extract(self.0)
    }

    /// Writes bits 7:6: the exponent of the channel filter bandwidth.
    pub fn with_chanbw_e(self, value: u8) -> (changed: Self)
        ensures
            changed.0 == Self::chanbw_e_field().insert(self.0, value),
    {
        MDMCFG4(Self::chanbw_e_field().insert(self.0, value))
    }

    /// Bits 5:4: the mantissa of the channel filter bandwidth.
    #[verifier::allow_in_spec]
    pub fn chanbw_m_field() -> Field
        returns
            (Field { offset: 4, width: 2 }),
    {
        Field { offset: 4, width: 2 }
    }

    /// Reads bits 5:4: the mantissa of the channel filter bandwidth.
    pub fn chanbw_m(self) -> (value: u8)
        ensures
            value == Self::chanbw_m_field().extract(self.0),
            value <= Self::chanbw_m_field().max(),
    {
        Self::chanbw_m_field().extract(self.0)
    }

    /// Writes bits 5:4: the mantissa of the channel filter bandwidth.
    pub fn with_chanbw_m(self, value: u8) -> (changed: Self)
        ensures
            changed.0 == Self::chanbw_m_field().insert(self.0, value),
    {
        MDMCFG4(Self::chanbw_m_field().insert(self.0, value))
    }

    /// Bits 3:0: the exponent of the data rate.
    #[verifier::allow_in_spec]
    pub fn drate_e_field() -> Field
        returns
            (Field { offset: 0, width: 4 }),
    {
        Field { offset: 0, width: 4 }
    }

    /// Reads bits 3:0: the exponent of the data rate.
    pub fn drate_e(self) -> (value: u8)
        ensures
            value == Self::drate_e_field().extract(self.0),
            value <= Self::drate_e_field().max(),
    {
        Self::drate_e_field().extract(self.0)
    }

    /// Writes bits 3:0: the exponent of the data rate.
    pub fn with_drate_e(self, value: u8) -> (changed: Self)
        ensures
            changed.0 == Self::drate_e_field().insert(self.0, value),
    {
        MDMCFG4(Self::drate_e_field().insert(self.0, value))
    }

    /// The raw byte.
    pub fn bits(self) -> (raw: u8)
        ensures
            raw == self.0,
    {
        self.0
    }
}

impl Default for MDMCFG4 {
    /// The contents after a chip reset.
    fn default() -> (reset: Self)
        ensures
            reset.0 == MDMCFG4::RESET,
    {
        MDMCFG4(MDMCFG4::RESET)
    }
}

/// Modem configuration: data rate mantissa.
#[derive(Clone, Copy, Debug, PartialEq, Eq, Structural)]
pub struct MDMCFG3(pub u8);

impl MDMCFG3 {
    /// The contents after a chip reset.
    pub const RESET: u8 = 0x22;

    /// Bits 7:0: the mantissa of the data rate.
    #[verifier::allow_in_spec]
    pub fn drate_m_field() -> Field
        returns
            (Field { offset: 0, width: 8 }),
    {
        Field { offset: 0, width: 8 }
    }

    /// Reads bits 7:0: the mantissa of the data rate.
    pub fn drate_m(self) -> (value: u8)
        ensures
            value == Self::drate_m_field().extract(self.0),
            value <= Self::drate_m_field().max(),
    {
        Self::drate_m_field().extract(self.0)
    }

    /// Writes bits 7:0: the mantissa of the data rate.
    pub fn with_drate_m(self, value: u8) -> (changed: Self)
        ensures
            changed.0 == Self::drate_m_field().insert(self.0, value),
    {
        MDMCFG3(Self::drate_m_field().insert(self.0, value))
    }

    /// The raw byte.
    pub fn bits(self) -> (raw: u8)
        ensures
            raw == self.0,
    {
        self.0
    }
}

impl Default for MDMCFG3 {
    /// The contents after a chip reset.
    fn default() -> (reset: Self)
        ensures
            reset.0 == MDMCFG3::RESET,
    {
        MDMCFG3(MDMCFG3::RESET)
    }
}

/// Modem configuration: modulation and sync word qualification.
#[derive(Clone, Copy, Debug, PartialEq, Eq, Structural)]
pub struct MDMCFG2(pub u8);

impl MDMCFG2 {
    /// The contents after a chip reset.
    pub const RESET: u8 = 0x02;

    /// Bit 7: turns the digital DC blocking filter before the demodulator off.
    #[verifier::allow_in_spec]
    pub fn dem_dcfilt_off_field() -> Field
        returns
            (Field { offset: 7, width: 1 }),
    {
        Field { offset: 7, width: 1 }
    }

    /// Reads bit 7: turns the digital DC blocking filter before the demodulator off.
    pub fn dem_dcfilt_off(self) -> (value: u8)
        ensures
            value == Self::dem_dcfilt_off_field().extract(self.0),
            value <= Self::dem_dcfilt_off_field().max(),
    {
        Self::dem_dcfilt_off_field().extract(self.0)
    }

    /// Writes bit 7: turns the digital DC blocking filter before the demodulator off.
    pub fn with_dem_dcfilt_off(self, value: u8) -> (changed: Self)
        ensures
            changed.0 == Self::dem_dcfilt_off_field().insert(self.0, value),
    {
        MDMCFG2(Self::dem_dcfilt_off_field().insert(self.0, value))
    }

    /// Bits 6:4: the modulation format.
    #[verifier::allow_in_spec]
    pub fn mod_format_field() -> Field
        returns
            (Field { offset: 4, width: 3 }),
    {
        Field { offset: 4, width: 3 }
    }

    /// Reads bits 6:4: the modulation format.
    pub fn mod_format(self) -> (value: u8)
        ensures
            value == Self::mod_format_field().extract(self.0),
            value <= Self::mod_format_field().max(),
    {
        Self::mod_format_field().extract(self.0)
    }

    /// Writes bits 6:4: the modulation format.
    pub fn with_mod_format(self, value: u8) -> (changed: Self)
        ensures
            changed.0 == Self::mod_format_field().insert(self.0, value),
    {
        MDMCFG2(Self::mod_format_field().insert(self.0, value))
    }

    /// Bit 3: turns Manchester encoding on.
    #[verifier::allow_in_spec]
    pub fn manchester_en_field() -> Field
        returns
            (Field { offset: 3, width: 1 }),
    {
        Field { offset: 3, width: 1 }
    }

    /// Reads bit 3: turns Manchester encoding on.
    pub fn manchester_en(self) -> (value: u8)
        ensures
            value == Self::manchester_en_field().extract(self.0),
            value <= Self::manchester_en_field().max(),
    {
        Self::manchester_en_field().extract(self.0)
    }

    /// Writes bit 3: turns Manchester encoding on.
    pub fn with_manchester_en(self, value: u8) -> (changed: Self)
        ensures
            changed.0 == Self::manchester_en_field().insert(self.0, value),
    {
        MDMCFG2(Self::manchester_en_field().insert(self.0, value))
    }

    /// Bits 2:0: the sync word qualifier mode.
    #[verifier::allow_in_spec]
    pub fn sync_mode_field() -> Field
        returns
            (Field { offset: 0, width: 3 }),
    {
        Field { offset: 0, width: 3 }
    }

    /// Reads bits 2:0: the sync word qualifier mode.
    pub fn sync_mode(self) -> (value: u8)
        ensures
            value == Self::sync_mode_field().extract(self.0),
            value <= Self::sync_mode_field().max(),
    {
        Self::sync_mode_field().extract(self.0)
    }

    /// Writes bits 2:0: the sync word qualifier mode.
    pub fn with_sync_mode(self, value: u8) -> (changed: Self)
        ensures
            changed.0 == Self::sync_mode_field().insert(self.0, value),
    {
        MDMCFG2(Self::sync_mode_field().insert(self.0, value))
    }

    /// The raw byte.
    pub fn bits(self) -> (raw: u8)
        ensures
            raw == self.0,
    {
        self.0
    }
}

impl Default for MDMCFG2 {
    /// The contents after a chip reset.
    fn default() -> (reset: Self)
        ensures
            reset.0 == MDMCFG2::RESET,
    {
        MDMCFG2(MDMCFG2::RESET)
    }
}

/// Modem configuration: forward error correction, preamble and channel spacing exponent.
#[derive(Clone, Copy, Debug, PartialEq, Eq, Structural)]
pub struct MDMCFG1(pub u8);

impl MDMCFG1 {
    /// The contents after a chip reset.
    pub const RESET: u8 = 0x22;

    /// Bit 7: turns forward error correction with interleaving on.
    #[verifier::allow_in_spec]
    pub fn fec_en_field() -> Field
        returns
            (Field { offset: 7, width: 1 }),
    {
        Field { offset: 7, width: 1 }
    }

    /// Reads bit 7: turns forward error correction with interleaving on.
    pub fn fec_en(self) -> (value: u8)
        ensures
            value == Self::fec_en_field().extract(self.0),
            value <= Self::fec_en_field().max(),
    {
        Self::fec_en_field().extract(self.0)
    }

    /// Writes bit 7: turns forward error correction with interleaving on.
    pub fn with_fec_en(self, value: u8) -> (changed: Self)
        ensures
            changed.0 == Self::fec_en_field().insert(self.0, value),
    {
        MDMCFG1(Self::fec_en_field().insert(self.0, value))
    }

    /// Bits 6:4: the least number of preamble bytes transmitted.
    #[verifier::allow_in_spec]
    pub fn num_preamble_field() -> Field
        returns
            (Field { offset: 4, width: 3 }),
    {
        Field { offset: 4, width: 3 }
    }

    /// Reads bits 6:4: the least number of preamble bytes transmitted.
    pub fn num_preamble(self) -> (value: u8)
        ensures
            value == Self::num_preamble_field().extract(self.0),
            value <= Self::num_preamble_field().max(),
    {
        Self::num_preamble_field().extract(self.0)
    }

    /// Writes bits 6:4: the least number of preamble bytes transmitted.
    pub fn with_num_preamble(self, value: u8) -> (changed: Self)
        ensures
            changed.0 == Self::num_preamble_field().insert(self.0, value),
    {
        MDMCFG1(Self::num_preamble_field().insert(self.0, value))
    }

    /// Bits 1:0: the exponent of the channel spacing.
    #[verifier::allow_in_spec]
    pub fn chanspc_e_field() -> Field
        returns
            (Field { offset: 0, width: 2 }),
    {
        Field { offset: 0, width: 2 }
    }

    /// Reads bits 1:0: the exponent of the channel spacing.
    pub fn chanspc_e(self) -> (value: u8)
        ensures
            value == Self::chanspc_e_field().extract(self.0),
            value <= Self::chanspc_e_field().max(),
    {
        Self::chanspc_e_field().extract(self.0)
    }

    /// Writes bits 1:0: the exponent of the channel spacing.
    pub fn with_chanspc_e(self, value: u8) -> (changed: Self)
        ensures
            changed.0 == Self::chanspc_e_field().insert(self.0, value),
    {
        MDMCFG1(Self::chanspc_e_field().insert(self.0, value))
    }

    /// The raw byte.
    pub fn bits(self) -> (raw: u8)
        ensures
            raw == self.0,
    {
        self.0
    }
}

impl Default for MDMCFG1 {
    /// The contents after a chip reset.
    fn default() -> (reset: Self)
        ensures
            reset.0 == MDMCFG1::RESET,
    {
        MDMCFG1(MDMCFG1::RESET)
    }
}

/// Modem configuration: channel spacing mantissa.
#[derive(Clone, Copy, Debug, PartialEq, Eq, Structural)]
pub struct MDMCFG0(pub u8);

impl MDMCFG0 {
    /// The contents after a chip reset.
    pub const RESET: u8 = 0xF8;

    /// Bits 7:0: the mantissa of the channel spacing.
    #[verifier::allow_in_spec]
    pub fn chanspc_m_field() -> Field
        returns
            (Field { offset: 0, width: 8 }),
    {
        Field { offset: 0, width: 8 }
    }

    /// Reads bits 7:0: the mantissa of the channel spacing.
    pub fn chanspc_m(self) -> (value: u8)
        ensures
            value == Self::chanspc_m_field().extract(self.0),
            value <= Self::chanspc_m_field().max(),
    {
        Self::chanspc_m_field().extract(self.0)
    }

    /// Writes bits 7:0: the mantissa of the channel spacing.
    pub fn with_chanspc_m(self, value: u8) -> (changed: Self)
        ensures
            changed.0 == Self::chanspc_m_field().insert(self.0, value),
    {
        MDMCFG0(Self::chanspc_m_field().insert(self.0, value))
    }

    /// The raw byte.
    pub fn bits(self) -> (raw: u8)
        ensures
            raw == self.0,
    {
        self.0
    }
}

impl Default for MDMCFG0 {
    /// The contents after a chip reset.
    fn default() -> (reset: Self)
        ensures
            reset.0 == MDMCFG0::RESET,
    {
        MDMCFG0(MDMCFG0::RESET)
    }
}

/// Modem deviation setting.
#[derive(Clone, Copy, Debug, PartialEq, Eq, Structural)]
pub struct DEVIATN(pub u8);

impl DEVIATN {
    /// The contents after a chip reset.
    pub const RESET: u8 = 0x47;

    /// Bits 6:4: the exponent of the deviation.
    #[verifier::allow_in_spec]
    pub fn deviation_e_field() -> Field
        returns
            (Field { offset: 4, width: 3 }),
    {
        Field { offset: 4, width: 3 }
    }

    /// Reads bits 6:4: the exponent of the deviation.
    pub fn deviation_e(self) -> (value: u8)
        ensures
            value == Self::deviation_e_field().extract(self.0),
            value <= Self::deviation_e_field().max(),
    {
        Self::deviation_e_field().extract(self.0)
    }

    /// Writes bits 6:4: the exponent of the deviation.
    pub fn with_deviation_e(self, value: u8) -> (changed: Self)
        ensures
            changed.0 == Self::deviation_e_field().insert(self.0, value),
    {
        DEVIATN(Self::deviation_e_field().insert(self.0, value))
    }

    /// Bits 2:0: the mantissa of the deviation.
    #[verifier::allow_in_spec]
    pub fn deviation_m_field() -> Field
        returns
            (Field { offset: 0, width: 3 }),
    {
        Field { offset: 0, width: 3 }
    }

    /// Reads bits 2:0: the mantissa of the deviation.
    pub fn deviation_m(self) -> (value: u8)
        ensures
            value == Self::deviation_m_field().extract(self.0),
            value <= Self::deviation_m_field().max(),
    {
        Self::deviation_m_field().extract(self.0)
    }

    /// Writes bits 2:0: the mantissa of the deviation.
    pub fn with_deviation_m(self, value: u8) -> (changed: Self)
        ensures
            changed.0 == Self::deviation_m_field().insert(self.0, value),
    {
        DEVIATN(Self::deviation_m_field().insert(self.0, value))
    }

    /// The raw byte.
    pub fn bits(self) -> (raw: u8)
        ensures
            raw == self.0,
    {
        self.0
    }
}

impl Default for DEVIATN {
    /// The contents after a chip reset.
    fn default() -> (reset: Self)
        ensures
            reset.0 == DEVIATN::RESET,
    {
        DEVIATN(DEVIATN::RESET)
    }
}

/// Main radio control state machine configuration.
#[derive(Clone, Copy, Debug, PartialEq, Eq, Structural)]
pub struct MCSM2(pub u8);

impl MCSM2 {
    /// The contents after a chip reset.
    pub const RESET: u8 = 0x07;

    /// Bit 4: ends RX on the first RSSI measurement without carrier sense.
    #[verifier::allow_in_spec]
    pub fn rx_time_rssi_field() -> Field
        returns
            (Field { offset: 4, width: 1 }),
    {
        Field { offset: 4, width: 1 }
    }

    /// Reads bit 4: ends RX on the first RSSI measurement without carrier sense.
    pub fn rx_time_rssi(self) -> (value: u8)
        ensures
            value == Self::rx_time_rssi_field().extract(self.0),
            value <= Self::rx_time_rssi_field().max(),
    {
        Self::rx_time_rssi_field().extract(self.0)
    }

    /// Writes bit 4: ends RX on the first RSSI measurement without carrier sense.
    pub fn with_rx_time_rssi(self, value: u8) -> (changed: Self)
        ensures
            changed.0 == Self::rx_time_rssi_field().insert(self.0, value),
    {
        MCSM2(Self::rx_time_rssi_field().insert(self.0, value))
    }

    /// Bit 3: how the RX timeout checks for a sync word or a preamble.
    #[verifier::allow_in_spec]
    pub fn rx_time_qual_field() -> Field
        returns
            (Field { offset: 3, width: 1 }),
    {
        Field { offset: 3, width: 1 }
    }

    /// Reads bit 3: how the RX timeout checks for a sync word or a preamble.
    pub fn rx_time_qual(self) -> (value: u8)
        ensures
            value == Self::rx_time_qual_field().extract(self.0),
            value <= Self::rx_time_qual_field().max(),
    {
        Self::rx_time_qual_field().extract(self.0)
    }

    /// Writes bit 3: how the RX timeout checks for a sync word or a preamble.
    pub fn with_rx_time_qual(self, value: u8) -> (changed: Self)
        ensures
            changed.0 == Self::rx_time_qual_field().insert(self.0, value),
    {
        MCSM2(Self::rx_time_qual_field().insert(self.0, value))
    }

    /// Bits 2:0: the timeout for the sync word search in RX.
    #[verifier::allow_in_spec]
    pub fn rx_time_field() -> Field
        returns
            (Field { offset: 0, width: 3 }),
    {
        Field { offset: 0, width: 3 }
    }

    /// Reads bits 2:0: the timeout for the sync word search in RX.
    pub fn rx_time(self) -> (value: u8)
        ensures
            value == Self::rx_time_field().extract(self.0),
            value <= Self::rx_time_field().max(),
    {
        Self::rx_time_field().extract(self.0)
    }

    /// Writes bits 2:0: the timeout for the sync word search in RX.
    pub fn with_rx_time(self, value: u8) -> (changed: Self)
        ensures
            changed.0 == Self::rx_time_field().insert(self.0, value),
    {
        MCSM2(Self::rx_time_field().insert(self.0, value))
    }

    /// The raw byte.
    pub fn bits(self) -> (raw: u8)
        ensures
            raw == self.0,
    {
        self.0
    }
}

impl Default for MCSM2 {
    /// The contents after a chip reset.
    fn default() -> (reset: Self)
        ensures
            reset.0 == MCSM2::RESET,
    {
        MCSM2(MCSM2::RESET)
    }
}

/// Main radio control state machine configuration.
#[derive(Clone, Copy, Debug, PartialEq, Eq, Structural)]
pub struct MCSM1(pub u8);

impl MCSM1 {
    /// The contents after a chip reset.
    pub const RESET: u8 = 0x30;

    /// Bits 5:4: how clear channel is indicated.
    #[verifier::allow_in_spec]
    pub fn cca_mode_field() -> Field
        returns
            (Field { offset: 4, width: 2 }),
    {
        Field { offset: 4, width: 2 }
    }

    /// Reads bits 5:4: how clear channel is indicated.
    pub fn cca_mode(self) -> (value: u8)
        ensures
            value == Self::cca_mode_field().extract(self.0),
            value <= Self::cca_mode_field().max(),
    {
        Self::cca_mode_field().extract(self.0)
    }

    /// Writes bits 5:4: how clear channel is indicated.
    pub fn with_cca_mode(self, value: u8) -> (changed: Self)
        ensures
            changed.0 == Self::cca_mode_field().insert(self.0, value),
    {
        MCSM1(Self::cca_mode_field().insert(self.0, value))
    }

    /// Bits 3:2: the state entered when a packet has been received.
    #[verifier::allow_in_spec]
    pub fn rxoff_mode_field() -> Field
        returns
            (Field { offset: 2, width: 2 }),
    {
        Field { offset: 2, width: 2 }
    }

    /// Reads bits 3:2: the state entered when a packet has been received.
    pub fn rxoff_mode(self) -> (value: u8)
        ensures
            value == Self::rxoff_mode_field().extract(self.0),
            value <= Self::rxoff_mode_field().max(),
    {
        Self::rxoff_mode_field().extract(self.0)
    }

    /// Writes bits 3:2: the state entered when a packet has been received.
    pub fn with_rxoff_mode(self, value: u8) -> (changed: Self)
        ensures
            changed.0 == Self::rxoff_mode_field().insert(self.0, value),
    {
        MCSM1(Self::rxoff_mode_field().insert(self.0, value))
    }

    /// Bits 1:0: the state entered when a packet has been sent.
    #[verifier::allow_in_spec]
    pub fn txoff_mode_field() -> Field
        returns
            (Field { offset: 0, width: 2 }),
    {
        Field { offset: 0, width: 2 }
    }

    /// Reads bits 1:0: the state entered when a packet has been sent.
    pub fn txoff_mode(self) -> (value: u8)
        ensures
            value == Self::txoff_mode_field().extract(self.0),
            value <= Self::txoff_mode_field().max(),
    {
        Self::txoff_mode_field().extract(self.0)
    }

    /// Writes bits 1:0: the state entered when a packet has been sent.
    pub fn with_txoff_mode(self, value: u8) -> (changed: Self)
        ensures
            changed.0 == Self::txoff_mode_field().insert(self.0, value),
    {
        MCSM1(Self::txoff_mode_field().insert(self.0, value))
    }

    /// The raw byte.
    pub fn bits(self) -> (raw: u8)
        ensures
            raw == self.0,
    {
        self.0
    }
}

impl Default for MCSM1 {
    /// The contents after a chip reset.
    fn default() -> (reset: Self)
        ensures
            reset.0 == MCSM1::RESET,
    {
        MCSM1(MCSM1::RESET)
    }
}

/// Main radio control state machine configuration.
#[derive(Clone, Copy, Debug, PartialEq, Eq, Structural)]
pub struct MCSM0(pub u8);

impl MCSM0 {
    /// The contents after a chip reset.
    pub const RESET: u8 = 0x04;

    /// Bits 5:4: when the frequency synthesizer calibrates itself.
    #[verifier::allow_in_spec]
    pub fn fs_autocal_field() -> Field
        returns
            (Field { offset: 4, width: 2 }),
    {
        Field { offset: 4, width: 2 }
    }

    /// Reads bits 5:4: when the frequency synthesizer calibrates itself.
    pub fn fs_autocal(self) -> (value: u8)
        ensures
            value == Self::fs_autocal_field().extract(self.0),
            value <= Self::fs_autocal_field().max(),
    {
        Self::fs_autocal_field().extract(self.0)
    }

    /// Writes bits 5:4: when the frequency synthesizer calibrates itself.
    pub fn with_fs_autocal(self, value: u8) -> (changed: Self)
        ensures
            changed.0 == Self::fs_autocal_field().insert(self.0, value),
    {
        MCSM0(Self::fs_autocal_field().insert(self.0, value))
    }

    /// Bits 3:2: how long the chip waits for the crystal oscillator to settle.
    #[verifier::allow_in_spec]
    pub fn po_timeout_field() -> Field
        returns
            (Field { offset: 2, width: 2 }),
    {
        Field { offset: 2, width: 2 }
    }

    /// Reads bits 3:2: how long the chip waits for the crystal oscillator to settle.
    pub fn po_timeout(self) -> (value: u8)
        ensures
            value == Self::po_timeout_field().extract(self.0),
            value <= Self::po_timeout_field().max(),
    {
        Self::po_timeout_field().extract(self.0)
    }

    /// Writes bits 3:2: how long the chip waits for the crystal oscillator to settle.
    pub fn with_po_timeout(self, value: u8) -> (changed: Self)
        ensures
            changed.0 == Self::po_timeout_field().insert(self.0, value),
    {
        MCSM0(Self::po_timeout_field().insert(self.0, value))
    }

    /// Bit 1: turns the pin radio control option on.
    #[verifier::allow_in_spec]
    pub fn pin_ctrl_en_field() -> Field
        returns
            (Field { offset: 1, width: 1 }),
    {
        Field { offset: 1, width: 1 }
    }

    /// Reads bit 1: turns the pin radio control option on.
    pub fn pin_ctrl_en(self) -> (value: u8)
        ensures
            value == Self::pin_ctrl_en_field().extract(self.0),
            value <= Self::pin_ctrl_en_field().max(),
    {
        Self::pin_ctrl_en_field().extract(self.0)
    }

    /// Writes bit 1: turns the pin radio control option on.
    pub fn with_pin_ctrl_en(self, value: u8) -> (changed: Self)
        ensures
            changed.0 == Self::pin_ctrl_en_field().insert(self.0, value),
    {
        MCSM0(Self::pin_ctrl_en_field().insert(self.0, value))
    }

    /// Bit 0: keeps the crystal oscillator on in the sleep state.
    #[verifier::allow_in_spec]
    pub fn xosc_force_on_field() -> Field
        returns
            (Field { offset: 0, width: 1 }),
    {
        Field { offset: 0, width: 1 }
    }

    /// Reads bit 0: keeps the crystal oscillator on in the sleep state.
    pub fn xosc_force_on(self) -> (value: u8)
        ensures
            value == Self::xosc_force_on_field().extract(self.0),
            value <= Self::xosc_force_on_field().max(),
    {
        Self::xosc_force_on_field().extract(self.0)
    }

    /// Writes bit 0: keeps the crystal oscillator on in the sleep state.
    pub fn with_xosc_force_on(self, value: u8) -> (changed: Self)
        ensures
            changed.0 == Self::xosc_force_on_field().insert(self.0, value),
    {
        MCSM0(Self::xosc_force_on_field().insert(self.0, value))
    }

    /// The raw byte.
    pub fn bits(self) -> (raw: u8)
        ensures
            raw == self.0,
    {
        self.0
    }
}

impl Default for MCSM0 {
    /// The contents after a chip reset.
    fn default() -> (reset: Self)
        ensures
            reset.0 == MCSM0::RESET,
    {
        MCSM0(MCSM0::RESET)
    }
}

/// Frequency offset compensation configuration.
#[derive(Clone, Copy, Debug, PartialEq, Eq, Structural)]
pub struct FOCCFG(pub u8);

impl FOCCFG {
    /// The contents after a chip reset.
    pub const RESET: u8 = 0x36;

    /// Bit 5: freezes the compensation until carrier sense goes high.
    #[verifier::allow_in_spec]
    pub fn foc_bs_cs_gate_field() -> Field
        returns
            (Field { offset: 5, width: 1 }),
    {
        Field { offset: 5, width: 1 }
    }

    /// Reads bit 5: freezes the compensation until carrier sense goes high.
    pub fn foc_bs_cs_gate(self) -> (value: u8)
        ensures
            value == Self::foc_bs_cs_gate_field().extract(self.0),
            value <= Self::foc_bs_cs_gate_field().max(),
    {
        Self::foc_bs_cs_gate_field().extract(self.0)
    }

    /// Writes bit 5: freezes the compensation until carrier sense goes high.
    pub fn with_foc_bs_cs_gate(self, value: u8) -> (changed: Self)
        ensures
            changed.0 == Self::foc_bs_cs_gate_field().insert(self.0, value),
    {
        FOCCFG(Self::foc_bs_cs_gate_field().insert(self.0, value))
    }

    /// Bits 4:3: the loop gain before a sync word is detected.
    #[verifier::allow_in_spec]
    pub fn foc_pre_k_field() -> Field
        returns
            (Field { offset: 3, width: 2 }),
    {
        Field { offset: 3, width: 2 }
    }

    /// Reads bits 4:3: the loop gain before a sync word is detected.
    pub fn foc_pre_k(self) -> (value: u8)
        ensures
            value == Self::foc_pre_k_field().extract(self.0),
            value <= Self::foc_pre_k_field().max(),
    {
        Self::foc_pre_k_field().extract(self.0)
    }

    /// Writes bits 4:3: the loop gain before a sync word is detected.
    pub fn with_foc_pre_k(self, value: u8) -> (changed: Self)
        ensures
            changed.0 == Self::foc_pre_k_field().insert(self.0, value),
    {
        FOCCFG(Self::foc_pre_k_field().insert(self.0, value))
    }

    /// Bit 2: the loop gain after a sync word is detected.
    #[verifier::allow_in_spec]
    pub fn foc_post_k_field() -> Field
        returns
            (Field { offset: 2, width: 1 }),
    {
        Field { offset: 2, width: 1 }
    }

    /// Reads bit 2: the loop gain after a sync word is detected.
    pub fn foc_post_k(self) -> (value: u8)
        ensures
            value == Self::foc_post_k_field().extract(self.0),
            value <= Self::foc_post_k_field().max(),
    {
        Self::foc_post_k_field().extract(self.0)
    }

    /// Writes bit 2: the loop gain after a sync word is detected.
    pub fn with_foc_post_k(self, value: u8) -> (changed: Self)
        ensures
            changed.0 == Self::foc_post_k_field().insert(self.0, value),
    {
        FOCCFG(Self::foc_post_k_field().insert(self.0, value))
    }

    /// Bits 1:0: the saturation point of the compensation.
    #[verifier::allow_in_spec]
    pub fn foc_limit_field() -> Field
        returns
            (Field { offset: 0, width: 2 }),
    {
        Field { offset: 0, width: 2 }
    }

    /// Reads bits 1:0: the saturation point of the compensation.
    pub fn foc_limit(self) -> (value: u8)
        ensures
            value == Self::foc_limit_field().extract(self.0),
            value <= Self::foc_limit_field().max(),
    {
        Self::foc_limit_field().extract(self.0)
    }

    /// Writes bits 1:0: the saturation point of the compensation.
    pub fn with_foc_limit(self, value: u8) -> (changed: Self)
        ensures
            changed.0 == Self::foc_limit_field().insert(self.0, value),
    {
        FOCCFG(Self::foc_limit_field().insert(self.0, value))
    }

    /// The raw byte.
    pub fn bits(self) -> (raw: u8)
        ensures
            raw == self.0,
    {
        self.0
    }
}

impl Default for FOCCFG {
    /// The contents after a chip reset.
    fn default() -> (reset: Self)
        ensures
            reset.0 == FOCCFG::RESET,
    {
        FOCCFG(FOCCFG::RESET)
    }
}

/// Bit synchronization configuration.
#[derive(Clone, Copy, Debug, PartialEq, Eq, Structural)]
pub struct BSCFG(pub u8);

impl BSCFG {
    /// The contents after a chip reset.
    pub const RESET: u8 = 0x6C;

    /// Bits 7:6: the clock recovery integral gain before a sync word is detected.
    #[verifier::allow_in_spec]
    pub fn bs_pre_ki_field() -> Field
        returns
            (Field { offset: 6, width: 2 }),
    {
        Field { offset: 6, width: 2 }
    }

    /// Reads bits 7:6: the clock recovery integral gain before a sync word is detected.
    pub fn bs_pre_ki(self) -> (value: u8)
        ensures
            value == Self::bs_pre_ki_field().extract(self.0),
            value <= Self::bs_pre_ki_field().max(),
    {
        Self::bs_pre_ki_field().extract(self.0)
    }

    /// Writes bits 7:6: the clock recovery integral gain before a sync word is detected.
    pub fn with_bs_pre_ki(self, value: u8) -> (changed: Self)
        ensures
            changed.0 == Self::bs_pre_ki_field().insert(self.0, value),
    {
        BSCFG(Self::bs_pre_ki_field().insert(self.0, value))
    }

    /// Bits 5:4: the clock recovery proportional gain before a sync word is detected.
    #[verifier::allow_in_spec]
    pub fn bs_pre_kp_field() -> Field
        returns
            (Field { offset: 4, width: 2 }),
    {
        Field { offset: 4, width: 2 }
    }

    /// Reads bits 5:4: the clock recovery proportional gain before a sync word is detected.
    pub fn bs_pre_kp(self) -> (value: u8)
        ensures
            value == Self::bs_pre_kp_field().extract(self.0),
            value <= Self::bs_pre_kp_field().max(),
    {
        Self::bs_pre_kp_field().extract(self.0)
    }

    /// Writes bits 5:4: the clock recovery proportional gain before a sync word is detected.
    pub fn with_bs_pre_kp(self, value: u8) -> (changed: Self)
        ensures
            changed.0 == Self::bs_pre_kp_field().insert(self.0, value),
    {
        BSCFG(Self::bs_pre_kp_field().insert(self.0, value))
    }

    /// Bit 3: the clock recovery integral gain after a sync word is detected.
    #[verifier::allow_in_spec]
    pub fn bs_post_ki_field() -> Field
        returns
            (Field { offset: 3, width: 1 }),
    {
        Field { offset: 3, width: 1 }
    }

    /// Reads bit 3: the clock recovery integral gain after a sync word is detected.
    pub fn bs_post_ki(self) -> (value: u8)
        ensures
            value == Self::bs_post_ki_field().extract(self.0),
            value <= Self::bs_post_ki_field().max(),
    {
        Self::bs_post_ki_field().extract(self.0)
    }

    /// Writes bit 3: the clock recovery integral gain after a sync word is detected.
    pub fn with_bs_post_ki(self, value: u8) -> (changed: Self)
        ensures
            changed.0 == Self::bs_post_ki_field().insert(self.0, value),
    {
        BSCFG(Self::bs_post_ki_field().insert(self.0, value))
    }

    /// Bit 2: the clock recovery proportional gain after a sync word is detected.
    #[verifier::allow_in_spec]
    pub fn bs_post_kp_field() -> Field
        returns
            (Field { offset: 2, width: 1 }),
    {
        Field { offset: 2, width: 1 }
    }

    /// Reads bit 2: the clock recovery proportional gain after a sync word is detected.
    pub fn bs_post_kp(self) -> (value: u8)
        ensures
            value == Self::bs_post_kp_field().extract(self.0),
            value <= Self::bs_post_kp_field().max(),
    {
        Self::bs_post_kp_field().extract(self.0)
    }

    /// Writes bit 2: the clock recovery proportional gain after a sync word is detected.
    pub fn with_bs_post_kp(self, value: u8) -> (changed: Self)
        ensures
            changed.0 == Self::bs_post_kp_field().insert(self.0, value),
    {
        BSCFG(Self::bs_post_kp_field().insert(self.0, value))
    }

    /// Bits 1:0: the saturation point of the data rate offset compensation.
    #[verifier::allow_in_spec]
    pub fn bs_limit_field() -> Field
        returns
            (Field { offset: 0, width: 2 }),
    {
        Field { offset: 0, width: 2 }
    }

    /// Reads bits 1:0: the saturation point of the data rate offset compensation.
    pub fn bs_limit(self) -> (value: u8)
        ensures
            value == Self::bs_limit_field().extract(self.0),
            value <= Self::bs_limit_field().max(),
    {
        Self::bs_limit_field().extract(self.0)
    }

    /// Writes bits 1:0: the saturation point of the data rate offset compensation.
    pub fn with_bs_limit(self, value: u8) -> (changed: Self)
        ensures
            changed.0 == Self::bs_limit_field().insert(self.0, value),
    {
        BSCFG(Self::bs_limit_field().insert(self.0, value))
    }

    /// The raw byte.
    pub fn bits(self) -> (raw: u8)
        ensures
            raw == self.0,
    {
        self.0
    }
}

impl Default for BSCFG {
    /// The contents after a chip reset.
    fn default() -> (reset: Self)
        ensures
            reset.0 == BSCFG::RESET,
    {
        BSCFG(BSCFG::RESET)
    }
}

/// AGC control.
#[derive(Clone, Copy, Debug, PartialEq, Eq, Structural)]
pub struct AGCCTRL2(pub u8);

impl AGCCTRL2 {
    /// The contents after a chip reset.
    pub const RESET: u8 = 0x03;

    /// Bits 7:6: the highest digital variable gain amplifier setting allowed.
    #[verifier::allow_in_spec]
    pub fn max_dvga_gain_field() -> Field
        returns
            (Field { offset: 6, width: 2 }),
    {
        Field { offset: 6, width: 2 }
    }

    /// Reads bits 7:6: the highest digital variable gain amplifier setting allowed.
    pub fn max_dvga_gain(self) -> (value: u8)
        ensures
            value == Self::max_dvga_gain_field().extract(self.0),
            value <= Self::max_dvga_gain_field().max(),
    {
        Self::max_dvga_gain_field().extract(self.0)
    }

    /// Writes bits 7:6: the highest digital variable gain amplifier setting allowed.
    pub fn with_max_dvga_gain(self, value: u8) -> (changed: Self)
        ensures
            changed.0 == Self::max_dvga_gain_field().insert(self.0, value),
    {
        AGCCTRL2(Self::max_dvga_gain_field().insert(self.0, value))
    }

    /// Bits 5:3: the highest low noise amplifier gain allowed.
    #[verifier::allow_in_spec]
    pub fn max_lna_gain_field() -> Field
        returns
            (Field { offset: 3, width: 3 }),
    {
        Field { offset: 3, width: 3 }
    }

    /// Reads bits 5:3: the highest low noise amplifier gain allowed.
    pub fn max_lna_gain(self) -> (value: u8)
        ensures
            value == Self::max_lna_gain_field().extract(self.0),
            value <= Self::max_lna_gain_field().max(),
    {
        Self::max_lna_gain_field().extract(self.0)
    }

    /// Writes bits 5:3: the highest low noise amplifier gain allowed.
    pub fn with_max_lna_gain(self, value: u8) -> (changed: Self)
        ensures
            changed.0 == Self::max_lna_gain_field().insert(self.0, value),
    {
        AGCCTRL2(Self::max_lna_gain_field().insert(self.0, value))
    }

    /// Bits 2:0: the target amplitude on the digital channel.
    #[verifier::allow_in_spec]
    pub fn magn_target_field() -> Field
        returns
            (Field { offset: 0, width: 3 }),
    {
        Field { offset: 0, width: 3 }
    }

    /// Reads bits 2:0: the target amplitude on the digital channel.
    pub fn magn_target(self) -> (value: u8)
        ensures
            value == Self::magn_target_field().extract(self.0),
            value <= Self::magn_target_field().max(),
    {
        Self::magn_target_field().extract(self.0)
    }

    /// Writes bits 2:0: the target amplitude on the digital channel.
    pub fn with_magn_target(self, value: u8) -> (changed: Self)
        ensures
            changed.0 == Self::magn_target_field().insert(self.0, value),
    {
        AGCCTRL2(Self::magn_target_field().insert(self.0, value))
    }

    /// The raw byte.
    pub fn bits(self) -> (raw: u8)
        ensures
            raw == self.0,
    {
        self.0
    }
}

impl Default for AGCCTRL2 {
    /// The contents after a chip reset.
    fn default() -> (reset: Self)
        ensures
            reset.0 == AGCCTRL2::RESET,
    {
        AGCCTRL2(AGCCTRL2::RESET)
    }
}

/// AGC control.
#[derive(Clone, Copy, Debug, PartialEq, Eq, Structural)]
pub struct AGCCTRL1(pub u8);

impl AGCCTRL1 {
    /// The contents after a chip reset.
    pub const RESET: u8 = 0x40;

    /// Bit 6: which of the two low noise amplifier gains is lowered first.
    #[verifier::allow_in_spec]
    pub fn agc_lna_priority_field() -> Field
        returns
            (Field { offset: 6, width: 1 }),
    {
        Field { offset: 6, width: 1 }
    }

    /// Reads bit 6: which of the two low noise amplifier gains is lowered first.
    pub fn agc_lna_priority(self) -> (value: u8)
        ensures
            value == Self::agc_lna_priority_field().extract(self.0),
            value <= Self::agc_lna_priority_field().max(),
    {
        Self::agc_lna_priority_field().extract(self.0)
    }

    /// Writes bit 6: which of the two low noise amplifier gains is lowered first.
    pub fn with_agc_lna_priority(self, value: u8) -> (changed: Self)
        ensures
            changed.0 == Self::agc_lna_priority_field().insert(self.0, value),
    {
        AGCCTRL1(Self::agc_lna_priority_field().insert(self.0, value))
    }

    /// Bits 5:4: the relative change threshold for carrier sense.
    #[verifier::allow_in_spec]
    pub fn carrier_sense_rel_thr_field() -> Field
        returns
            (Field { offset: 4, width: 2 }),
    {
        Field { offset: 4, width: 2 }
    }

    /// Reads bits 5:4: the relative change threshold for carrier sense.
    pub fn carrier_sense_rel_thr(self) -> (value: u8)
        ensures
            value == Self::carrier_sense_rel_thr_field().extract(self.0),
            value <= Self::carrier_sense_rel_thr_field().max(),
    {
        Self::carrier_sense_rel_thr_field().extract(self.0)
    }

    /// Writes bits 5:4: the relative change threshold for carrier sense.
    pub fn with_carrier_sense_rel_thr(self, value: u8) -> (changed: Self)
        ensures
            changed.0 == Self::carrier_sense_rel_thr_field().insert(self.0, value),
    {
        AGCCTRL1(Self::carrier_sense_rel_thr_field().insert(self.0, value))
    }

    /// Bits 3:0: the absolute RSSI threshold for carrier sense.
    #[verifier::allow_in_spec]
    pub fn carrier_sense_abs_thr_field() -> Field
        returns
            (Field { offset: 0, width: 4 }),
    {
        Field { offset: 0, width: 4 }
    }

    /// Reads bits 3:0: the absolute RSSI threshold for carrier sense.
    pub fn carrier_sense_abs_thr(self) -> (value: u8)
        ensures
            value == Self::carrier_sense_abs_thr_field().extract(self.0),
            value <= Self::carrier_sense_abs_thr_field().max(),
    {
        Self::carrier_sense_abs_thr_field().extract(self.0)
    }

    /// Writes bits 3:0: the absolute RSSI threshold for carrier sense.
    pub fn with_carrier_sense_abs_thr(self, value: u8) -> (changed: Self)
        ensures
            changed.0 == Self::carrier_sense_abs_thr_field().insert(self.0, value),
    {
        AGCCTRL1(Self::carrier_sense_abs_thr_field().insert(self.0, value))
    }

    /// The raw byte.
    pub fn bits(self) -> (raw: u8)
        ensures
            raw == self.0,
    {
        self.0
    }
}

impl Default for AGCCTRL1 {
    /// The contents after a chip reset.
    fn default() -> (reset: Self)
        ensures
            reset.0 == AGCCTRL1::RESET,
    {
        AGCCTRL1(AGCCTRL1::RESET)
    }
}

/// AGC control.
#[derive(Clone, Copy, Debug, PartialEq, Eq, Structural)]
pub struct AGCCTRL0(pub u8);

impl AGCCTRL0 {
    /// The contents after a chip reset.
    pub const RESET: u8 = 0x91;

    /// Bits 7:6: the hysteresis on the magnitude deviation.
    #[verifier::allow_in_spec]
    pub fn hyst_level_field() -> Field
        returns
            (Field { offset: 6, width: 2 }),
    {
        Field { offset: 6, width: 2 }
    }

    /// Reads bits 7:6: the hysteresis on the magnitude deviation.
    pub fn hyst_level(self) -> (value: u8)
        ensures
            value == Self::hyst_level_field().extract(self.0),
            value <= Self::hyst_level_field().max(),
    {
        Self::hyst_level_field().extract(self.0)
    }

    /// Writes bits 7:6: the hysteresis on the magnitude deviation.
    pub fn with_hyst_level(self, value: u8) -> (changed: Self)
        ensures
            changed.0 == Self::hyst_level_field().insert(self.0, value),
    {
        AGCCTRL0(Self::hyst_level_field().insert(self.0, value))
    }

    /// Bits 5:4: the number of samples awaited after a gain adjustment.
    #[verifier::allow_in_spec]
    pub fn wait_time_field() -> Field
        returns
            (Field { offset: 4, width: 2 }),
    {
        Field { offset: 4, width: 2 }
    }

    /// Reads bits 5:4: the number of samples awaited after a gain adjustment.
    pub fn wait_time(self) -> (value: u8)
        ensures
            value == Self::wait_time_field().extract(self.0),
            value <= Self::wait_time_field().max(),
    {
        Self::wait_time_field().extract(self.0)
    }

    /// Writes bits 5:4: the number of samples awaited after a gain adjustment.
    pub fn with_wait_time(self, value: u8) -> (changed: Self)
        ensures
            changed.0 == Self::wait_time_field().insert(self.0, value),
    {
        AGCCTRL0(Self::wait_time_field().insert(self.0, value))
    }

    /// Bits 3:2: when the gain is frozen.
    #[verifier::allow_in_spec]
    pub fn agc_freeze_field() -> Field
        returns
            (Field { offset: 2, width: 2 }),
    {
        Field { offset: 2, width: 2 }
    }

    /// Reads bits 3:2: when the gain is frozen.
    pub fn agc_freeze(self) -> (value: u8)
        ensures
            value == Self::agc_freeze_field().extract(self.0),
            value <= Self::agc_freeze_field().max(),
    {
        Self::agc_freeze_field().extract(self.0)
    }

    /// Writes bits 3:2: when the gain is frozen.
    pub fn with_agc_freeze(self, value: u8) -> (changed: Self)
        ensures
            changed.0 == Self::agc_freeze_field().insert(self.0, value),
    {
        AGCCTRL0(Self::agc_freeze_field().insert(self.0, value))
    }

    /// Bits 1:0: the averaging length of the amplitude, or the OOK decision boundary.
    #[verifier::allow_in_spec]
    pub fn filter_length_field() -> Field
        returns
            (Field { offset: 0, width: 2 }),
    {
        Field { offset: 0, width: 2 }
    }

    /// Reads bits 1:0: the averaging length of the amplitude, or the OOK decision boundary.
    pub fn filter_length(self) -> (value: u8)
        ensures
            value == Self::filter_length_field().extract(self.0),
            value <= Self::filter_length_field().max(),
    {
        Self::filter_length_field().extract(self.0)
    }

    /// Writes bits 1:0: the averaging length of the amplitude, or the OOK decision boundary.
    pub fn with_filter_length(self, value: u8) -> (changed: Self)
        ensures
            changed.0 == Self::filter_length_field().insert(self.0, value),
    {
        AGCCTRL0(Self::filter_length_field().insert(self.0, value))
    }

    /// The raw byte.
    pub fn bits(self) -> (raw: u8)
        ensures
            raw == self.0,
    {
        self.0
    }
}

impl Default for AGCCTRL0 {
    /// The contents after a chip reset.
    fn default() -> (reset: Self)
        ensures
            reset.0 == AGCCTRL0::RESET,
    {
        AGCCTRL0(AGCCTRL0::RESET)
    }
}

/// High byte of the event 0 timeout.
#[derive(Clone, Copy, Debug, PartialEq, Eq, Structural)]
pub struct WOREVT1(pub u8);

impl WOREVT1 {
    /// The contents after a chip reset.
    pub const RESET: u8 = 0x87;

    /// Bits 7:0: the eight high bits of the event 0 timeout.
    #[verifier::allow_in_spec]
    pub fn event0_field() -> Field
        returns
            (Field { offset: 0, width: 8 }),
    {
        Field { offset: 0, width: 8 }
    }

    /// Reads bits 7:0: the eight high bits of the event 0 timeout.
    pub fn event0(self) -> (value: u8)
        ensures
            value == Self::event0_field().extract(self.0),
            value <= Self::event0_field().max(),
    {
        Self::event0_field().extract(self.0)
    }

    /// Writes bits 7:0: the eight high bits of the event 0 timeout.
    pub fn with_event0(self, value: u8) -> (changed: Self)
        ensures
            changed.0 == Self::event0_field().insert(self.0, value),
    {
        WOREVT1(Self::event0_field().insert(self.0, value))
    }

    /// The raw byte.
    pub fn bits(self) -> (raw: u8)
        ensures
            raw == self.0,
    {
        self.0
    }
}

impl Default for WOREVT1 {
    /// The contents after a chip reset.
    fn default() -> (reset: Self)
        ensures
            reset.0 == WOREVT1::RESET,
    {
        WOREVT1(WOREVT1::RESET)
    }
}

/// Low byte of the event 0 timeout.
#[derive(Clone, Copy, Debug, PartialEq, Eq, Structural)]
pub struct WOREVT0(pub u8);

impl WOREVT0 {
    /// The contents after a chip reset.
    pub const RESET: u8 = 0x6B;

    /// Bits 7:0: the eight low bits of the event 0 timeout.
    #[verifier::allow_in_spec]
    pub fn event0_field() -> Field
        returns
            (Field { offset: 0, width: 8 }),
    {
        Field { offset: 0, width: 8 }
    }

    /// Reads bits 7:0: the eight low bits of the event 0 timeout.
    pub fn event0(self) -> (value: u8)
        ensures
            value == Self::event0_field().extract(self.0),
            value <= Self::event0_field().max(),
    {
        Self::event0_field().extract(self.0)
    }

    /// Writes bits 7:0: the eight low bits of the event 0 timeout.
    pub fn with_event0(self, value: u8) -> (changed: Self)
        ensures
            changed.0 == Self::event0_field().insert(self.0, value),
    {
        WOREVT0(Self::event0_field().insert(self.0, value))
    }

    /// The raw byte.
    pub fn bits(self) -> (raw: u8)
        ensures
            raw == self.0,
    {
        self.0
    }
}

impl Default for WOREVT0 {
    /// The contents after a chip reset.
    fn default() -> (reset: Self)
        ensures
            reset.0 == WOREVT0::RESET,
    {
        WOREVT0(WOREVT0::RESET)
    }
}

/// Wake on radio control.
#[derive(Clone, Copy, Debug, PartialEq, Eq, Structural)]
pub struct WORCTRL(pub u8);

impl WORCTRL {
    /// The contents after a chip reset.
    pub const RESET: u8 = 0xF8;

    /// Bit 7: powers the RC oscillator down.
    #[verifier::allow_in_spec]
    pub fn rc_pd_field() -> Field
        returns
            (Field { offset: 7, width: 1 }),
    {
        Field { offset: 7, width: 1 }
    }

    /// Reads bit 7: powers the RC oscillator down.
    pub fn rc_pd(self) -> (value: u8)
        ensures
            value == Self::rc_pd_field().extract(self.0),
            value <= Self::rc_pd_field().max(),
    {
        Self::rc_pd_field().extract(self.0)
    }

    /// Writes bit 7: powers the RC oscillator down.
    pub fn with_rc_pd(self, value: u8) -> (changed: Self)
        ensures
            changed.0 == Self::rc_pd_field().insert(self.0, value),
    {
        WORCTRL(Self::rc_pd_field().insert(self.0, value))
    }

    /// Bits 6:4: the timeout of event 1.
    #[verifier::allow_in_spec]
    pub fn event1_field() -> Field
        returns
            (Field { offset: 4, width: 3 }),
    {
        Field { offset: 4, width: 3 }
    }

    /// Reads bits 6:4: the timeout of event 1.
    pub fn event1(self) -> (value: u8)
        ensures
            value == Self::event1_field().extract(self.0),
            value <= Self::event1_field().max(),
    {
        Self::event1_field().extract(self.0)
    }

    /// Writes bits 6:4: the timeout of event 1.
    pub fn with_event1(self, value: u8) -> (changed: Self)
        ensures
            changed.0 == Self::event1_field().insert(self.0, value),
    {
        WORCTRL(Self::event1_field().insert(self.0, value))
    }

    /// Bit 3: turns the RC oscillator calibration on.
    #[verifier::allow_in_spec]
    pub fn rc_cal_field() -> Field
        returns
            (Field { offset: 3, width: 1 }),
    {
        Field { offset: 3, width: 1 }
    }

    /// Reads bit 3: turns the RC oscillator calibration on.
    pub fn rc_cal(self) -> (value: u8)
        ensures
            value == Self::rc_cal_field().extract(self.0),
            value <= Self::rc_cal_field().max(),
    {
        Self::rc_cal_field().extract(self.0)
    }

    /// Writes bit 3: turns the RC oscillator calibration on.
    pub fn with_rc_cal(self, value: u8) -> (changed: Self)
        ensures
            changed.0 == Self::rc_cal_field().insert(self.0, value),
    {
        WORCTRL(Self::rc_cal_field().insert(self.0, value))
    }

    /// Bits 1:0: the resolution of event 0.
    #[verifier::allow_in_spec]
    pub fn wor_res_field() -> Field
        returns
            (Field { offset: 0, width: 2 }),
    {
        Field { offset: 0, width: 2 }
    }

    /// Reads bits 1:0: the resolution of event 0.
    pub fn wor_res(self) -> (value: u8)
        ensures
            value == Self::wor_res_field().extract(self.0),
            value <= Self::wor_res_field().max(),
    {
        Self::wor_res_field().extract(self.0)
    }

    /// Writes bits 1:0: the resolution of event 0.
    pub fn with_wor_res(self, value: u8) -> (changed: Self)
        ensures
            changed.0 == Self::wor_res_field().insert(self.0, value),
    {
        WORCTRL(Self::wor_res_field().insert(self.0, value))
    }

    /// The raw byte.
    pub fn bits(self) -> (raw: u8)
        ensures
            raw == self.0,
    {
        self.0
    }
}

impl Default for WORCTRL {
    /// The contents after a chip reset.
    fn default() -> (reset: Self)
        ensures
            reset.0 == WORCTRL::RESET,
    {
        WORCTRL(WORCTRL::RESET)
    }
}

/// Front end RX configuration.
#[derive(Clone, Copy, Debug, PartialEq, Eq, Structural)]
pub struct FREND1(pub u8);

impl FREND1 {
    /// The contents after a chip reset.
    pub const RESET: u8 = 0x56;

    /// Bits 7:6: the low noise amplifier current.
    #[verifier::allow_in_spec]
    pub fn lna_current_field() -> Field
        returns
            (Field { offset: 6, width: 2 }),
    {
        Field { offset: 6, width: 2 }
    }

    /// Reads bits 7:6: the low noise amplifier current.
    pub fn lna_current(self) -> (value: u8)
        ensures
            value == Self::lna_current_field().extract(self.0),
            value <= Self::lna_current_field().max(),
    {
        Self::lna_current_field().extract(self.0)
    }

    /// Writes bits 7:6: the low noise amplifier current.
    pub fn with_lna_current(self, value: u8) -> (changed: Self)
        ensures
            changed.0 == Self::lna_current_field().insert(self.0, value),
    {
        FREND1(Self::lna_current_field().insert(self.0, value))
    }

    /// Bits 5:4: the current at the low noise amplifier output.
    #[verifier::allow_in_spec]
    pub fn lna2mix_current_field() -> Field
        returns
            (Field { offset: 4, width: 2 }),
    {
        Field { offset: 4, width: 2 }
    }

    /// Reads bits 5:4: the current at the low noise amplifier output.
    pub fn lna2mix_current(self) -> (value: u8)
        ensures
            value == Self::lna2mix_current_field().extract(self.0),
            value <= Self::lna2mix_current_field().max(),
    {
        Self::lna2mix_current_field().extract(self.0)
    }

    /// Writes bits 5:4: the current at the low noise amplifier output.
    pub fn with_lna2mix_current(self, value: u8) -> (changed: Self)
        ensures
            changed.0 == Self::lna2mix_current_field().insert(self.0, value),
    {
        FREND1(Self::lna2mix_current_field().insert(self.0, value))
    }

    /// Bits 3:2: the current in the RX oscillator buffer.
    #[verifier::allow_in_spec]
    pub fn lodiv_buf_current_rx_field() -> Field
        returns
            (Field { offset: 2, width: 2 }),
    {
        Field { offset: 2, width: 2 }
    }

    /// Reads bits 3:2: the current in the RX oscillator buffer.
    pub fn lodiv_buf_current_rx(self) -> (value: u8)
        ensures
            value == Self::lodiv_buf_current_rx_field().extract(self.0),
            value <= Self::lodiv_buf_current_rx_field().max(),
    {
        Self::lodiv_buf_current_rx_field().extract(self.0)
    }

    /// Writes bits 3:2: the current in the RX oscillator buffer.
    pub fn with_lodiv_buf_current_rx(self, value: u8) -> (changed: Self)
        ensures
            changed.0 == Self::lodiv_buf_current_rx_field().insert(self.0, value),
    {
        FREND1(Self::lodiv_buf_current_rx_field().insert(self.0, value))
    }

    /// Bits 1:0: the current in the mixer.
    #[verifier::allow_in_spec]
    pub fn mix_current_field() -> Field
        returns
            (Field { offset: 0, width: 2 }),
    {
        Field { offset: 0, width: 2 }
    }

    /// Reads bits 1:0: the current in the mixer.
    pub fn mix_current(self) -> (value: u8)
        ensures
            value == Self::mix_current_field().extract(self.0),
            value <= Self::mix_current_field().max(),
    {
        Self::mix_current_field().extract(self.0)
    }

    /// Writes bits 1:0: the current in the mixer.
    pub fn with_mix_current(self, value: u8) -> (changed: Self)
        ensures
            changed.0 == Self::mix_current_field().insert(self.0, value),
    {
        FREND1(Self::mix_current_field().insert(self.0, value))
    }

    /// The raw byte.
    pub fn bits(self) -> (raw: u8)
        ensures
            raw == self.0,
    {
        self.0
    }
}

impl Default for FREND1 {
    /// The contents after a chip reset.
    fn default() -> (reset: Self)
        ensures
            reset.0 == FREND1::RESET,
    {
        FREND1(FREND1::RESET)
    }
}

/// Front end TX configuration.
#[derive(Clone, Copy, Debug, PartialEq, Eq, Structural)]
pub struct FREND0(pub u8);

impl FREND0 {
    /// The contents after a chip reset.
    pub const RESET: u8 = 0x10;

    /// Bits 5:4: the current in the TX oscillator buffer.
    #[verifier::allow_in_spec]
    pub fn lodiv_buf_current_tx_field() -> Field
        returns
            (Field { offset: 4, width: 2 }),
    {
        Field { offset: 4, width: 2 }
    }

    /// Reads bits 5:4: the current in the TX oscillator buffer.
    pub fn lodiv_buf_current_tx(self) -> (value: u8)
        ensures
            value == Self::lodiv_buf_current_tx_field().extract(self.0),
            value <= Self::lodiv_buf_current_tx_field().max(),
    {
        Self::lodiv_buf_current_tx_field().extract(self.0)
    }

    /// Writes bits 5:4: the current in the TX oscillator buffer.
    pub fn with_lodiv_buf_current_tx(self, value: u8) -> (changed: Self)
        ensures
            changed.0 == Self::lodiv_buf_current_tx_field().insert(self.0, value),
    {
        FREND0(Self::lodiv_buf_current_tx_field().insert(self.0, value))
    }

    /// Bits 2:0: the index into the power amplifier table.
    #[verifier::allow_in_spec]
    pub fn pa_power_field() -> Field
        returns
            (Field { offset: 0, width: 3 }),
    {
        Field { offset: 0, width: 3 }
    }

    /// Reads bits 2:0: the index into the power amplifier table.
    pub fn pa_power(self) -> (value: u8)
        ensures
            value == Self::pa_power_field().extract(self.0),
            value <= Self::pa_power_field().max(),
    {
        Self::pa_power_field().extract(self.0)
    }

    /// Writes bits 2:0: the index into the power amplifier table.
    pub fn with_pa_power(self, value: u8) -> (changed: Self)
        ensures
            changed.0 == Self::pa_power_field().insert(self.0, value),
    {
        FREND0(Self::pa_power_field().insert(self.0, value))
    }

    /// The raw byte.
    pub fn bits(self) -> (raw: u8)
        ensures
            raw == self.0,
    {
        self.0
    }
}

impl Default for FREND0 {
    /// The contents after a chip reset.
    fn default() -> (reset: Self)
        ensures
            reset.0 == FREND0::RESET,
    {
        FREND0(FREND0::RESET)
    }
}

/// Frequency synthesizer calibration.
#[derive(Clone, Copy, Debug, PartialEq, Eq, Structural)]
pub struct FSCAL3(pub u8);

impl FSCAL3 {
    /// The contents after a chip reset.
    pub const RESET: u8 = 0xA9;

    /// Bits 7:6: the calibration configuration.
    #[verifier::allow_in_spec]
    pub fn fscal3_hi_field() -> Field
        returns
            (Field { offset: 6, width: 2 }),
    {
        Field { offset: 6, width: 2 }
    }

    /// Reads bits 7:6: the calibration configuration.
    pub fn fscal3_hi(self) -> (value: u8)
        ensures
            value == Self::fscal3_hi_field().extract(self.0),
            value <= Self::fscal3_hi_field().max(),
    {
        Self::fscal3_hi_field().extract(self.0)
    }

    /// Writes bits 7:6: the calibration configuration.
    pub fn with_fscal3_hi(self, value: u8) -> (changed: Self)
        ensures
            changed.0 == Self::fscal3_hi_field().insert(self.0, value),
    {
        FSCAL3(Self::fscal3_hi_field().insert(self.0, value))
    }

    /// Bits 5:4: turns the charge pump calibration stage on.
    #[verifier::allow_in_spec]
    pub fn chp_curr_cal_en_field() -> Field
        returns
            (Field { offset: 4, width: 2 }),
    {
        Field { offset: 4, width: 2 }
    }

    /// Reads bits 5:4: turns the charge pump calibration stage on.
    pub fn chp_curr_cal_en(self) -> (value: u8)
        ensures
            value == Self::chp_curr_cal_en_field().extract(self.0),
            value <= Self::chp_curr_cal_en_field().max(),
    {
        Self::chp_curr_cal_en_field().extract(self.0)
    }

    /// Writes bits 5:4: turns the charge pump calibration stage on.
    pub fn with_chp_curr_cal_en(self, value: u8) -> (changed: Self)
        ensures
            changed.0 == Self::chp_curr_cal_en_field().insert(self.0, value),
    {
        FSCAL3(Self::chp_curr_cal_en_field().insert(self.0, value))
    }

    /// Bits 3:0: the calibration result.
    #[verifier::allow_in_spec]
    pub fn fscal3_lo_field() -> Field
        returns
            (Field { offset: 0, width: 4 }),
    {
        Field { offset: 0, width: 4 }
    }

    /// Reads bits 3:0: the calibration result.
    pub fn fscal3_lo(self) -> (value: u8)
        ensures
            value == Self::fscal3_lo_field().extract(self.0),
            value <= Self::fscal3_lo_field().max(),
    {
        Self::fscal3_lo_field().extract(self.0)
    }

    /// Writes bits 3:0: the calibration result.
    pub fn with_fscal3_lo(self, value: u8) -> (changed: Self)
        ensures
            changed.0 == Self::fscal3_lo_field().insert(self.0, value),
    {
        FSCAL3(Self::fscal3_lo_field().insert(self.0, value))
    }

    /// The raw byte.
    pub fn bits(self) -> (raw: u8)
        ensures
            raw == self.0,
    {
        self.0
    }
}

impl Default for FSCAL3 {
    /// The contents after a chip reset.
    fn default() -> (reset: Self)
        ensures
            reset.0 == FSCAL3::RESET,
    {
        FSCAL3(FSCAL3::RESET)
    }
}

/// Frequency synthesizer calibration.
#[derive(Clone, Copy, Debug, PartialEq, Eq, Structural)]
pub struct FSCAL2(pub u8);

impl FSCAL2 {
    /// The contents after a chip reset.
    pub const RESET: u8 = 0x0A;

    /// Bit 5: chooses the high oscillator core.
    #[verifier::allow_in_spec]
    pub fn vco_core_h_en_field() -> Field
        returns
            (Field { offset: 5, width: 1 }),
    {
        Field { offset: 5, width: 1 }
    }

    /// Reads bit 5: chooses the high oscillator core.
    pub fn vco_core_h_en(self) -> (value: u8)
        ensures
            value == Self::vco_core_h_en_field().extract(self.0),
            value <= Self::vco_core_h_en_field().max(),
    {
        Self::vco_core_h_en_field().extract(self.0)
    }

    /// Writes bit 5: chooses the high oscillator core.
    pub fn with_vco_core_h_en(self, value: u8) -> (changed: Self)
        ensures
            changed.0 == Self::vco_core_h_en_field().insert(self.0, value),
    {
        FSCAL2(Self::vco_core_h_en_field().insert(self.0, value))
    }

    /// Bits 4:0: the calibration result.
    #[verifier::allow_in_spec]
    pub fn fscal2_field() -> Field
        returns
            (Field { offset: 0, width: 5 }),
    {
        Field { offset: 0, width: 5 }
    }

    /// Reads bits 4:0: the calibration result.
    pub fn fscal2(self) -> (value: u8)
        ensures
            value == Self::fscal2_field().extract(self.0),
            value <= Self::fscal2_field().max(),
    {
        Self::fscal2_field().extract(self.0)
    }

    /// Writes bits 4:0: the calibration result.
    pub fn with_fscal2(self, value: u8) -> (changed: Self)
        ensures
            changed.0 == Self::fscal2_field().insert(self.0, value),
    {
        FSCAL2(Self::fscal2_field().insert(self.0, value))
    }

    /// The raw byte.
    pub fn bits(self) -> (raw: u8)
        ensures
            raw == self.0,
    {
        self.0
    }
}

impl Default for FSCAL2 {
    /// The contents after a chip reset.
    fn default() -> (reset: Self)
        ensures
            reset.0 == FSCAL2::RESET,
    {
        FSCAL2(FSCAL2::RESET)
    }
}

/// Frequency synthesizer calibration.
#[derive(Clone, Copy, Debug, PartialEq, Eq, Structural)]
pub struct FSCAL1(pub u8);

impl FSCAL1 {
    /// The contents after a chip reset.
    pub const RESET: u8 = 0x20;

    /// Bits 5:0: the calibration result.
    #[verifier::allow_in_spec]
    pub fn fscal1_field() -> Field
        returns
            (Field { offset: 0, width: 6 }),
    {
        Field { offset: 0, width: 6 }
    }

    /// Reads bits 5:0: the calibration result.
    pub fn fscal1(self) -> (value: u8)
        ensures
            value == Self::fscal1_field().extract(self.0),
            value <= Self::fscal1_field().max(),
    {
        Self::fscal1_field().extract(self.0)
    }

    /// Writes bits 5:0: the calibration result.
    pub fn with_fscal1(self, value: u8) -> (changed: Self)
        ensures
            changed.0 == Self::fscal1_field().insert(self.0, value),
    {
        FSCAL1(Self::fscal1_field().insert(self.0, value))
    }

    /// The raw byte.
    pub fn bits(self) -> (raw: u8)
        ensures
            raw == self.0,
    {
        self.0
    }
}

impl Default for FSCAL1 {
    /// The contents after a chip reset.
    fn default() -> (reset: Self)
        ensures
            reset.0 == FSCAL1::RESET,
    {
        FSCAL1(FSCAL1::RESET)
    }
}

/// Frequency synthesizer calibration.
#[derive(Clone, Copy, Debug, PartialEq, Eq, Structural)]
pub struct FSCAL0(pub u8);

impl FSCAL0 {
    /// The contents after a chip reset.
    pub const RESET: u8 = 0x0D;

    /// Bits 6:0: the calibration control word.
    #[verifier::allow_in_spec]
    pub fn fscal0_field() -> Field
        returns
            (Field { offset: 0, width: 7 }),
    {
        Field { offset: 0, width: 7 }
    }

    /// Reads bits 6:0: the calibration control word.
    pub fn fscal0(self) -> (value: u8)
        ensures
            value == Self::fscal0_field().extract(self.0),
            value <= Self::fscal0_field().max(),
    {
        Self::fscal0_field().extract(self.0)
    }

    /// Writes bits 6:0: the calibration control word.
    pub fn with_fscal0(self, value: u8) -> (changed: Self)
        ensures
            changed.0 == Self::fscal0_field().insert(self.0, value),
    {
        FSCAL0(Self::fscal0_field().insert(self.0, value))
    }

    /// The raw byte.
    pub fn bits(self) -> (raw: u8)
        ensures
            raw == self.0,
    {
        self.0
    }
}

impl Default for FSCAL0 {
    /// The contents after a chip reset.
    fn default() -> (reset: Self)
        ensures
            reset.0 == FSCAL0::RESET,
    {
        FSCAL0(FSCAL0::RESET)
    }
}

} // verus!
