use cc1101::lowlevel::access::{header, Access, Mode, BURST_BIT, READ_BIT};
use cc1101::lowlevel::fields::{Field, Patch};
use cc1101::lowlevel::registers::config::{
    AGCCTRL2, DEVIATN, FSCTRL1, MCSM0, MDMCFG2, MDMCFG3, MDMCFG4, PKTCTRL0, PKTCTRL1, SYNC0, SYNC1,
};
use cc1101::lowlevel::registers::status::{LQI, MARCSTATE, RXBYTES};
use cc1101::lowlevel::registers::{Command, Config, Register, Status, FIFO};
use cc1101::lowlevel::types::{
    AddressCheck, AutoCalibration, LengthConfig, MachineState, ModFormat, SyncCheck,
};

fn every_config() -> Vec<Config> {
    vec![
        Config::IOCFG2, Config::IOCFG1, Config::IOCFG0, Config::FIFOTHR, Config::SYNC1,
        Config::SYNC0, Config::PKTLEN, Config::PKTCTRL1, Config::PKTCTRL0, Config::ADDR,
        Config::CHANNR, Config::FSCTRL1, Config::FSCTRL0, Config::FREQ2, Config::FREQ1,
        Config::FREQ0, Config::MDMCFG4, Config::MDMCFG3, Config::MDMCFG2, Config::MDMCFG1,
        Config::MDMCFG0, Config::DEVIATN, Config::MCSM2, Config::MCSM1, Config::MCSM0,
        Config::FOCCFG, Config::BSCFG, Config::AGCCTRL2, Config::AGCCTRL1, Config::AGCCTRL0,
        Config::WOREVT1, Config::WOREVT0, Config::WORCTRL, Config::FREND1, Config::FREND0,
        Config::FSCAL3, Config::FSCAL2, Config::FSCAL1, Config::FSCAL0, Config::RCCTRL1,
        Config::RCCTRL0, Config::FSTEST, Config::PTEST, Config::AGCTEST, Config::TEST2,
        Config::TEST1, Config::TEST0,
    ]
}

fn every_status() -> Vec<Status> {
    vec![
        Status::PARTNUM, Status::VERSION, Status::FREQEST, Status::LQI, Status::RSSI,
        Status::MARCSTATE, Status::WORTIME1, Status::WORTIME0, Status::PKTSTATUS,
        Status::VCO_VC_DAC, Status::TXBYTES, Status::RXBYTES, Status::RCCTRL1_STATUS,
        Status::RCCTRL0_STATUS,
    ]
}

fn every_command() -> Vec<Command> {
    vec![
        Command::SRES, Command::SFSTXON, Command::SXOFF, Command::SCAL, Command::SRX,
        Command::STX, Command::SIDLE, Command::SWOR, Command::SPWD, Command::SFRX,
        Command::SFTX, Command::SWORRST, Command::SNOP,
    ]
}

fn every_location() -> Vec<Register> {
    let mut all: Vec<Register> = Vec::new();
    for r in every_config() {
        all.push(Register::Config(r));
    }
    for r in every_status() {
        all.push(Register::Status(r));
    }
    for r in every_command() {
        all.push(Register::Command(r));
    }
    all.push(Register::Fifo);
    all
}

#[test]
fn config_addresses_run_from_zero() {
    for (index, register) in every_config().into_iter().enumerate() {
        assert_eq!(register.addr() as usize, index);
    }
    assert_eq!(Config::IOCFG0.addr(), 0x02);
    assert_eq!(Config::FREQ2.addr(), 0x0D);
    assert_eq!(Config::MDMCFG4.addr(), 0x10);
    assert_eq!(Config::DEVIATN.addr(), 0x15);
    assert_eq!(Config::TEST0.addr(), 0x2E);
}

#[test]
fn status_and_command_addresses() {
    assert_eq!(Status::PARTNUM.addr(), 0x30);
    assert_eq!(Status::VERSION.addr(), 0x31);
    assert_eq!(Status::LQI.addr(), 0x33);
    assert_eq!(Status::RSSI.addr(), 0x34);
    assert_eq!(Status::MARCSTATE.addr(), 0x35);
    assert_eq!(Status::RXBYTES.addr(), 0x3B);
    assert_eq!(Status::RCCTRL0_STATUS.addr(), 0x3D);
    assert_eq!(Command::SRES.addr(), 0x30);
    assert_eq!(Command::SRX.addr(), 0x34);
    assert_eq!(Command::STX.addr(), 0x35);
    assert_eq!(Command::SIDLE.addr(), 0x36);
    assert_eq!(Command::SWOR.addr(), 0x38);
    assert_eq!(Command::SFRX.addr(), 0x3A);
    assert_eq!(Command::SFTX.addr(), 0x3B);
    assert_eq!(Command::SNOP.addr(), 0x3D);
    assert_eq!(FIFO, 0x3F);
}

#[test]
fn headers_of_known_locations() {
    assert_eq!(Register::Config(Config::FREQ0).waddr(), 0x0F);
    assert_eq!(Register::Config(Config::FREQ0).raddr(), 0x8F);
    assert_eq!(Register::Config(Config::FREQ0).burst_waddr(), 0x4F);
    assert_eq!(Register::Config(Config::FREQ0).burst_raddr(), 0xCF);
    assert_eq!(Register::Status(Status::PARTNUM).raddr(), 0xF0);
    assert_eq!(Register::Status(Status::MARCSTATE).raddr(), 0xF5);
    assert_eq!(Register::Status(Status::RXBYTES).raddr(), 0xFB);
    assert_eq!(Register::Command(Command::SRES).waddr(), 0x30);
    assert_eq!(Register::Fifo.waddr(), 0x3F);
    assert_eq!(Register::Fifo.raddr(), 0xBF);
    assert_eq!(Register::Fifo.burst_waddr(), 0x7F);
    assert_eq!(Register::Fifo.burst_raddr(), 0xFF);
    assert_eq!(Register::from(Config::ADDR), Register::Config(Config::ADDR));
    assert_eq!(Register::from(Status::LQI), Register::Status(Status::LQI));
    assert_eq!(Register::from(Command::SNOP), Register::Command(Command::SNOP));
}

#[test]
fn read_and_write_headers_differ_in_the_read_bit_only() {
    for location in every_location() {
        assert_eq!(location.raddr() ^ location.waddr(), READ_BIT);
        assert_eq!(location.waddr() & READ_BIT, 0);
        assert_eq!(location.raddr() & READ_BIT, READ_BIT);
        assert!(location.addr() <= 0x3F);
    }
}

#[test]
fn burst_headers_differ_in_the_burst_bit_only() {
    for location in every_location() {
        assert_eq!(location.burst_waddr() & !BURST_BIT, location.waddr() & !BURST_BIT);
        assert_eq!(location.burst_raddr() & !BURST_BIT, location.raddr() & !BURST_BIT);
        assert_eq!(location.burst_waddr() & BURST_BIT, BURST_BIT);
        match location {
            Register::Status(_) => {
                assert_eq!(location.burst_waddr(), location.waddr());
            }
            _ => {
                assert_eq!(location.burst_waddr() ^ location.waddr(), BURST_BIT);
                assert_eq!(location.burst_raddr() ^ location.raddr(), BURST_BIT);
            }
        }
    }
}

#[test]
fn headers_are_distinct() {
    let all = every_location();
    for (i, a) in all.iter().enumerate() {
        for (j, b) in all.iter().enumerate() {
            if i != j {
                assert_ne!(a.raddr(), b.raddr());
                assert_ne!(a.waddr(), b.waddr());
            }
        }
    }
}

#[test]
fn header_bits() {
    assert_eq!(header(0x0D, Access::Write, Mode::Single), 0x0D);
    assert_eq!(header(0x0D, Access::Read, Mode::Single), 0x8D);
    assert_eq!(header(0x0D, Access::Write, Mode::Burst), 0x4D);
    assert_eq!(header(0x3F, Access::Read, Mode::Burst), 0xFF);
    assert_eq!(Access::Read.offset(), 0x80);
    assert_eq!(Access::Write.offset(), 0x00);
    assert_eq!(Mode::Burst.offset(), 0x40);
    assert_eq!(Mode::Single.offset(), 0x00);
}

#[test]
fn field_extract_and_insert() {
    let field = Field { offset: 4, width: 3 };
    assert_eq!(field.mask(), 0x70);
    assert_eq!(field.limit(), 0x07);
    assert_eq!(field.extract(0b1011_0101), 0b011);
    assert_eq!(field.insert(0b1000_0101, 0b110), 0b1110_0101);
    assert_eq!(field.insert(0xFF, 0), 0x8F);
    // A value too wide for the field loses its high bits.
    assert_eq!(field.insert(0x00, 0xFF), 0x70);
    let whole = Field { offset: 0, width: 8 };
    assert_eq!(whole.mask(), 0xFF);
    assert_eq!(whole.insert(0x12, 0x34), 0x34);
    assert_eq!(whole.extract(0xA5), 0xA5);
    let top = Field { offset: 7, width: 1 };
    assert_eq!(top.mask(), 0x80);
    assert_eq!(top.extract(0x85), 1);
    assert_eq!(top.extract(0x7F), 0);
}

#[test]
fn field_round_trip_for_every_field_and_value() {
    for offset in 0..8u8 {
        for width in 1..=(8 - offset) {
            let field = Field { offset, width };
            for raw in [0x00u8, 0xFF, 0xA5, 0x5A, 0x3C] {
                for value in 0..=field.limit() {
                    let written = field.insert(raw, value);
                    assert_eq!(field.extract(written), value);
                    assert_eq!(written & !field.mask(), raw & !field.mask());
                    assert_eq!(field.insert(field.insert(raw, 0), value), written);
                }
            }
        }
    }
}

#[test]
fn writes_to_different_fields_commute() {
    for raw in [0x00u8, 0xFF, 0x8C] {
        for m in 0..4u8 {
            for e in 0..4u8 {
                for d in 0..16u8 {
                    let one = MDMCFG4(raw).with_chanbw_m(m).with_chanbw_e(e).with_drate_e(d);
                    let other = MDMCFG4(raw).with_drate_e(d).with_chanbw_e(e).with_chanbw_m(m);
                    assert_eq!(one.bits(), other.bits());
                    assert_eq!(one.chanbw_m(), m);
                    assert_eq!(one.chanbw_e(), e);
                    assert_eq!(one.drate_e(), d);
                }
            }
        }
    }
    for m in 0..8u8 {
        for e in 0..8u8 {
            let one = DEVIATN::default().with_deviation_m(m).with_deviation_e(e);
            let other = DEVIATN::default().with_deviation_e(e).with_deviation_m(m);
            assert_eq!(one, other);
            assert_eq!(one.deviation_m(), m);
            assert_eq!(one.deviation_e(), e);
            assert_eq!(one.bits(), (e << 4) | m);
        }
    }
}

#[test]
fn last_write_to_a_field_wins() {
    assert_eq!(
        MDMCFG2::default().with_mod_format(7).with_mod_format(3).bits(),
        MDMCFG2::default().with_mod_format(3).bits()
    );
    assert_eq!(MDMCFG2::default().with_mod_format(3).bits(), 0x32);
    assert_eq!(MDMCFG2::default().with_sync_mode(0).bits(), 0x00);
}

#[test]
fn reset_values() {
    assert_eq!(SYNC1::default().bits(), 0xD3);
    assert_eq!(SYNC0::default().bits(), 0x91);
    assert_eq!(PKTCTRL1::default().bits(), 0x04);
    assert_eq!(PKTCTRL0::default().bits(), 0x45);
    assert_eq!(FSCTRL1::default().bits(), 0x0F);
    assert_eq!(MDMCFG4::default().bits(), 0x8C);
    assert_eq!(MDMCFG3::default().bits(), 0x22);
    assert_eq!(MDMCFG2::default().bits(), 0x02);
    assert_eq!(DEVIATN::default().bits(), 0x47);
    assert_eq!(MCSM0::default().bits(), 0x04);
    assert_eq!(AGCCTRL2::default().bits(), 0x03);
    assert_eq!(PKTCTRL0::default().white_data(), 1);
    assert_eq!(PKTCTRL0::default().crc_en(), 1);
    assert_eq!(PKTCTRL0::default().length_config(), LengthConfig::VARIABLE.value());
    assert_eq!(MDMCFG2::default().sync_mode(), SyncCheck::CHECK_16_16.value());
    assert_eq!(MDMCFG4::default().drate_e(), 12);
    assert_eq!(DEVIATN::default().deviation_e(), 4);
    assert_eq!(DEVIATN::default().deviation_m(), 7);
}

#[test]
fn baseline_register_values() {
    assert_eq!(PKTCTRL0::default().with_white_data(0).bits(), 0x05);
    assert_eq!(FSCTRL1::default().with_freq_if(0x08).bits(), 0x08);
    assert_eq!(MDMCFG2::default().with_dem_dcfilt_off(1).bits(), 0x82);
    assert_eq!(
        MCSM0::default().with_fs_autocal(AutoCalibration::FROM_IDLE.value()).bits(),
        0x14
    );
    assert_eq!(AGCCTRL2::default().with_max_lna_gain(0x04).bits(), 0x23);
}

#[test]
fn lqi_byte_splits_into_flag_and_quality() {
    assert_eq!(LQI(0x85).crc_ok(), 1);
    assert_eq!(LQI(0x85).lqi(), 0x05);
    assert_eq!(LQI(0x7F).crc_ok(), 0);
    assert_eq!(LQI(0x7F).lqi(), 0x7F);
    assert_eq!(LQI(0x80).lqi(), 0);
}

#[test]
fn status_fields() {
    assert_eq!(MARCSTATE(0x01).marc_state(), MachineState::IDLE.value());
    assert_eq!(MARCSTATE(0xED).marc_state(), MachineState::RX.value());
    assert_eq!(MARCSTATE(0x13).marc_state(), MachineState::TX.value());
    assert_eq!(RXBYTES(0x84).rxfifo_overflow(), 1);
    assert_eq!(RXBYTES(0x84).num_rxbytes(), 4);
    assert_eq!(RXBYTES(0x04).rxfifo_overflow(), 0);
    assert_eq!(RXBYTES(0x7F).num_rxbytes(), 127);
}

#[test]
fn named_field_values() {
    assert_eq!(SyncCheck::DISABLED.value(), 0);
    assert_eq!(SyncCheck::CHECK_15_16.value(), 1);
    assert_eq!(SyncCheck::CHECK_16_16.value(), 2);
    assert_eq!(SyncCheck::CHECK_30_32.value(), 3);
    assert_eq!(ModFormat::MOD_2FSK.value(), 0);
    assert_eq!(ModFormat::MOD_GFSK.value(), 1);
    assert_eq!(ModFormat::MOD_ASK_OOK.value(), 3);
    assert_eq!(ModFormat::MOD_4FSK.value(), 4);
    assert_eq!(ModFormat::MOD_MSK.value(), 7);
    assert_eq!(AddressCheck::DISABLED.value(), 0);
    assert_eq!(AddressCheck::SELF.value(), 1);
    assert_eq!(AddressCheck::SELF_LOW_BROADCAST.value(), 2);
    assert_eq!(AddressCheck::SELF_HIGH_LOW_BROADCAST.value(), 3);
    assert_eq!(LengthConfig::FIXED.value(), 0);
    assert_eq!(LengthConfig::VARIABLE.value(), 1);
    assert_eq!(LengthConfig::INFINITE.value(), 2);
    assert_eq!(AutoCalibration::FROM_IDLE.value(), 1);
    assert_eq!(MachineState::IDLE.value(), 0x01);
    assert_eq!(MachineState::RX.value(), 0x0D);
    assert_eq!(MachineState::TX.value(), 0x13);
    assert_eq!(MachineState::RXFIFO_OVERFLOW.value(), 0x11);
    assert_eq!(MachineState::TXFIFO_UNDERFLOW.value(), 0x16);
}

#[test]
fn patches_do_what_the_writes_do() {
    let m = MDMCFG4::chanbw_m_field();
    let e = MDMCFG4::chanbw_e_field();
    let patch = Patch::field(m, 2).followed_by(Patch::field(e, 1));
    assert_eq!(patch.mask, 0xF0);
    for raw in [0x00u8, 0xFF, 0x8C, 0x5A] {
        assert_eq!(patch.apply(raw), MDMCFG4(raw).with_chanbw_m(2).with_chanbw_e(1).bits());
        assert_eq!(patch.apply(raw) & 0x0F, raw & 0x0F);
        assert_eq!(Patch::none().apply(raw), raw);
        assert_eq!(
            Patch::field(m, 3).followed_by(Patch::field(m, 1)).apply(raw),
            Patch::field(m, 1).apply(raw)
        );
    }
    assert_eq!(patch.apply(0x8C), 0x6C);
}
