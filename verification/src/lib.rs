//! Driver for the CC1101 sub-GHz transceiver, without the transport: every
//! operation is begun by a call that loads a plan and hands out the first
//! request to the transport, and carried on by handing each reply to
//! `resume`, until the result comes out. Whoever owns the serial bus and the
//! lines performs the requests in between.

pub mod lowlevel;
pub mod rssi;
pub mod sequence;

use vstd::prelude::*;
use crate::lowlevel::bus::{copy_bytes, Level, Progress, Reply, RequestView, Signal};
use crate::lowlevel::convert::{
    chanbw_encoding, deviation_encoding, drate_encoding, frequency_bytes, from_chanbw,
    from_deviation, from_drate, from_frequency,
};
use crate::lowlevel::fields::Patch;
use crate::lowlevel::registers::config::{
    ADDR, AGCCTRL2, DEVIATN, FSCTRL1, MCSM0, MDMCFG2, MDMCFG3, MDMCFG4, PKTCTRL0, PKTCTRL1, PKTLEN,
    SYNC0, SYNC1,
};
use crate::lowlevel::registers::{Command, Config, Status};
use crate::lowlevel::types::{
    AddressCheck, AutoCalibration, LengthConfig, MachineState, ModFormat, SyncCheck,
};
use crate::sequence::{machine, Goal, Machine, Outcome, OutcomeView, Sequence, Sequencer, Step};

verus! {

/// What can go wrong in an operation of the driver.
#[derive(Debug, PartialEq, Eq)]
pub enum Error<SpiE, GpioE> {
    /// The RX FIFO overflowed before a packet could be read from it.
    RxOverflow,
    /// The packet received has a wrong CRC.
    CrcMismatch,
    /// The serial bus failed.
    Spi(SpiE),
    /// A digital line failed.
    Gpio(GpioE),
}

/// The fault of the low level as an error of the driver.
pub open spec fn lifted<SpiE, GpioE>(fault: lowlevel::Error<SpiE, GpioE>) -> Error<SpiE, GpioE> {
    match fault {
        lowlevel::Error::Spi(inner) => Error::Spi(inner),
        lowlevel::Error::Gpio(inner) => Error::Gpio(inner),
    }
}

impl<SpiE, GpioE> From<lowlevel::Error<SpiE, GpioE>> for Error<SpiE, GpioE> {
    fn from(e: lowlevel::Error<SpiE, GpioE>) -> (error: Self) {
        match e {
            lowlevel::Error::Spi(inner) => Error::Spi(inner),
            lowlevel::Error::Gpio(inner) => Error::Gpio(inner),
        }
    }
}

impl<SpiE, GpioE> vstd::std_specs::convert::FromSpecImpl<lowlevel::Error<SpiE, GpioE>> for Error<SpiE, GpioE> {
    open spec fn obeys_from_spec() -> bool {
        true
    }

    open spec fn from_spec(e: lowlevel::Error<SpiE, GpioE>) -> Self {
        lifted(e)
    }
}

/// Modulation format.
#[derive(Clone, Copy, Debug, PartialEq, Eq, Structural)]
pub enum Modulation {
    /// 2-FSK.
    BinaryFrequencyShiftKeying,
    /// GFSK.
    GaussianFrequencyShiftKeying,
    /// ASK or OOK.
    OnOffKeying,
    /// 4-FSK.
    FourFrequencyShiftKeying,
    /// MSK.
    MinimumShiftKeying,
}

/// Packet length mode.
#[derive(Clone, Copy, Debug, PartialEq, Eq, Structural)]
pub enum PacketLength {
    /// Every packet has this length.
    Fixed(u8),
    /// The length comes with each packet and is at most this.
    Variable(u8),
    /// Packets do not end: streaming.
    Infinite,
}

/// Address check of received packets.
#[derive(Clone, Copy, Debug, PartialEq, Eq, Structural)]
pub enum AddressFilter {
    /// No address check.
    Disabled,
    /// Packets to this address only.
    Device(u8),
    /// Packets to this address and to the broadcast address 0x00.
    DeviceLowBroadcast(u8),
    /// Packets to this address and to the broadcast addresses 0x00 and
    /// 0xFF.
    DeviceHighLowBroadcast(u8),
}

/// Operating mode of the radio.
#[derive(Clone, Copy, Debug, PartialEq, Eq, Structural)]
pub enum RadioMode {
    /// Listening.
    Receive,
    /// Sending.
    Transmit,
    /// Neither.
    Idle,
}

/// Sync word and how strictly it is matched.
#[derive(Clone, Copy, Debug, PartialEq, Eq, Structural)]
pub enum SyncMode {
    /// No sync word.
    Disabled,
    /// 15 of the 16 bits of this word must match.
    MatchPartial(u16),
    /// 30 of the 32 bits of this word, repeated, must match.
    MatchPartialRepeated(u16),
    /// All 16 bits of this word must match.
    MatchFull(u16),
}

/// Shortest payload that `transmit` sends.
pub const MIN_TX: u8 = 1;

/// Longest payload that `transmit` sends: the 64 bytes of the TX FIFO less
/// the length byte, with two to spare.
pub const MAX_TX: u8 = 61;

/// Line function written to IOCFG0 before the TX FIFO is filled.
pub const LINE_BEFORE_FILL: u8 = 0x09;

/// Line function written to IOCFG0 before the packet is sent: the line
/// rises when the sync word has gone out and falls at the end of the
/// packet.
pub const LINE_SYNC_TO_END: u8 = 0x06;

/// The plan that sets the carrier frequency: the three bytes of the
/// frequency control word, low byte first.
pub open spec fn frequency_plan(hz: u64) -> Seq<Step> {
    let bytes = frequency_bytes(hz);
    seq![
        Step::Write(Config::FREQ0, bytes.0),
        Step::Write(Config::FREQ1, bytes.1),
        Step::Write(Config::FREQ2, bytes.2),
    ]
}

/// The plan that sets the deviation: DEVIATN as after reset, with mantissa
/// and exponent of the deviation.
pub open spec fn deviation_plan(deviation: u64) -> Seq<Step> {
    let code = deviation_encoding(deviation);
    seq![
        Step::Write(
            Config::DEVIATN,
            DEVIATN::deviation_e_field().insert(
                DEVIATN::deviation_m_field().insert(DEVIATN::RESET, code.0 as u8),
                code.1 as u8,
            ),
        ),
    ]
}

/// The plan that sets the data rate: the exponent is patched into MDMCFG4,
/// and MDMCFG3 is written as after reset with the mantissa.
pub open spec fn data_rate_plan(baud: u64) -> Seq<Step> {
    let code = drate_encoding(baud);
    seq![
        Step::Modify(Config::MDMCFG4, Patch::field(MDMCFG4::drate_e_field(), code.1 as u8)),
        Step::Write(Config::MDMCFG3, MDMCFG3::drate_m_field().insert(MDMCFG3::RESET, code.0 as u8)),
    ]
}

/// The plan that sets the channel filter bandwidth: mantissa and exponent
/// are patched into MDMCFG4 in one go.
pub open spec fn chanbw_plan(bandwidth: u64) -> Seq<Step> {
    let code = chanbw_encoding(bandwidth);
    seq![
        Step::Modify(
            Config::MDMCFG4,
            Patch::field(MDMCFG4::chanbw_m_field(), code.0 as u8).followed_by(
                Patch::field(MDMCFG4::chanbw_e_field(), code.1 as u8),
            ),
        ),
    ]
}

/// The plan that reads the part number, then the version.
pub open spec fn hw_info_plan() -> Seq<Step> {
    seq![Step::Read(Status::PARTNUM), Step::Read(Status::VERSION)]
}

/// The plan that reads one status register.
pub open spec fn read_plan(register: Status) -> Seq<Step> {
    seq![Step::Read(register)]
}

/// The plan that waits for a chip state.
pub open spec fn await_plan(target: MachineState) -> Seq<Step> {
    seq![Step::Await(target)]
}

/// The plan that waits for a stable count of received bytes.
pub open spec fn rx_bytes_plan() -> Seq<Step> {
    seq![Step::AwaitRxBytes]
}

/// The sync word that the chip has after reset.
pub open spec fn reset_sync_word() -> u16 {
    ((SYNC1::RESET as u16) << 8) | (SYNC0::RESET as u16)
}

/// How a sync mode has the chip check the sync word.
pub open spec fn sync_check(sync_mode: SyncMode) -> SyncCheck {
    match sync_mode {
        SyncMode::Disabled => SyncCheck::DISABLED,
        SyncMode::MatchPartial(_) => SyncCheck::CHECK_15_16,
        SyncMode::MatchPartialRepeated(_) => SyncCheck::CHECK_30_32,
        SyncMode::MatchFull(_) => SyncCheck::CHECK_16_16,
    }
}

/// The sync word of a sync mode; without one, the word that the chip has
/// after reset.
pub open spec fn sync_word(sync_mode: SyncMode) -> u16 {
    match sync_mode {
        SyncMode::Disabled => reset_sync_word(),
        SyncMode::MatchPartial(word) => word,
        SyncMode::MatchPartialRepeated(word) => word,
        SyncMode::MatchFull(word) => word,
    }
}

/// The plan that sets the sync mode: the check is patched into MDMCFG2,
/// then the high and the low byte of the word are written.
pub open spec fn sync_mode_plan(sync_mode: SyncMode) -> Seq<Step> {
    let word = sync_word(sync_mode);
    seq![
        Step::Modify(
            Config::MDMCFG2,
            Patch::field(MDMCFG2::sync_mode_field(), sync_check(sync_mode).code()),
        ),
        Step::Write(Config::SYNC1, ((word >> 8) & 0xff) as u8),
        Step::Write(Config::SYNC0, (word & 0xff) as u8),
    ]
}

/// The register value of a modulation format.
pub open spec fn mod_format(format: Modulation) -> ModFormat {
    match format {
        Modulation::BinaryFrequencyShiftKeying => ModFormat::MOD_2FSK,
        Modulation::GaussianFrequencyShiftKeying => ModFormat::MOD_GFSK,
        Modulation::OnOffKeying => ModFormat::MOD_ASK_OOK,
        Modulation::FourFrequencyShiftKeying => ModFormat::MOD_4FSK,
        Modulation::MinimumShiftKeying => ModFormat::MOD_MSK,
    }
}

/// The plan that sets the modulation: the format is patched into MDMCFG2.
pub open spec fn modulation_plan(format: Modulation) -> Seq<Step> {
    seq![
        Step::Modify(
            Config::MDMCFG2,
            Patch::field(MDMCFG2::mod_format_field(), mod_format(format).code()),
        ),
    ]
}

/// The register value of an address filter.
pub open spec fn address_check(filter: AddressFilter) -> AddressCheck {
    match filter {
        AddressFilter::Disabled => AddressCheck::DISABLED,
        AddressFilter::Device(_) => AddressCheck::SELF,
        AddressFilter::DeviceLowBroadcast(_) => AddressCheck::SELF_LOW_BROADCAST,
        AddressFilter::DeviceHighLowBroadcast(_) => AddressCheck::SELF_HIGH_LOW_BROADCAST,
    }
}

/// The device address of an address filter; without one, the address that
/// the chip has after reset.
pub open spec fn filter_address(filter: AddressFilter) -> u8 {
    match filter {
        AddressFilter::Disabled => ADDR::RESET,
        AddressFilter::Device(addr) => addr,
        AddressFilter::DeviceLowBroadcast(addr) => addr,
        AddressFilter::DeviceHighLowBroadcast(addr) => addr,
    }
}

/// The plan that sets the address filter: the check is patched into
/// PKTCTRL1, then the address is written.
pub open spec fn address_filter_plan(filter: AddressFilter) -> Seq<Step> {
    seq![
        Step::Modify(
            Config::PKTCTRL1,
            Patch::field(PKTCTRL1::adr_chk_field(), address_check(filter).code()),
        ),
        Step::Write(Config::ADDR, filter_address(filter)),
    ]
}

/// The register value of a packet length mode.
pub open spec fn length_config(length: PacketLength) -> LengthConfig {
    match length {
        PacketLength::Fixed(_) => LengthConfig::FIXED,
        PacketLength::Variable(_) => LengthConfig::VARIABLE,
        PacketLength::Infinite => LengthConfig::INFINITE,
    }
}

/// The length of a packet length mode; without one, the length that the
/// chip has after reset.
pub open spec fn length_limit(length: PacketLength) -> u8 {
    match length {
        PacketLength::Fixed(limit) => limit,
        PacketLength::Variable(limit) => limit,
        PacketLength::Infinite => PKTLEN::RESET,
    }
}

/// The plan that sets the packet length: the mode is patched into
/// PKTCTRL0, then the length is written.
pub open spec fn packet_length_plan(length: PacketLength) -> Seq<Step> {
    seq![
        Step::Modify(
            Config::PKTCTRL0,
            Patch::field(PKTCTRL0::length_config_field(), length_config(length).code()),
        ),
        Step::Write(Config::PKTLEN, length_limit(length)),
    ]
}

/// The plan that takes the chip to IDLE: the strobe, then the wait until
/// the chip reports the state.
pub open spec fn idle_plan() -> Seq<Step> {
    seq![Step::Strobe(Command::SIDLE), Step::Await(MachineState::IDLE)]
}

/// The plan that takes the chip to a mode. Receive and transmit are
/// reached by way of IDLE, so that nothing of an earlier state is left;
/// each strobe is followed by the wait until the chip reports the state.
pub open spec fn radio_mode_plan(radio_mode: RadioMode) -> Seq<Step> {
    match radio_mode {
        RadioMode::Idle => idle_plan(),
        RadioMode::Receive => idle_plan() + seq![
            Step::Strobe(Command::SRX),
            Step::Await(MachineState::RX),
        ],
        RadioMode::Transmit => idle_plan() + seq![
            Step::Strobe(Command::STX),
            Step::Await(MachineState::TX),
        ],
    }
}

/// The plan that resets the chip and writes the baseline settings: no
/// data whitening, an intermediate frequency of 8 units, no DC blocking
/// filter, calibration when leaving IDLE, and a lowered LNA gain limit.
/// Each register is written as after reset but for the one field.
pub open spec fn defaults_plan() -> Seq<Step> {
    seq![
        Step::Strobe(Command::SRES),
        Step::Write(Config::PKTCTRL0, PKTCTRL0::white_data_field().insert(PKTCTRL0::RESET, 0)),
        Step::Write(Config::FSCTRL1, FSCTRL1::freq_if_field().insert(FSCTRL1::RESET, 0x08)),
        Step::Write(Config::MDMCFG2, MDMCFG2::dem_dcfilt_off_field().insert(MDMCFG2::RESET, 1)),
        Step::Write(
            Config::MCSM0,
            MCSM0::fs_autocal_field().insert(MCSM0::RESET, AutoCalibration::FROM_IDLE.code()),
        ),
        Step::Write(Config::AGCCTRL2, AGCCTRL2::max_lna_gain_field().insert(AGCCTRL2::RESET, 0x04)),
    ]
}

/// The plan that receives a packet: wait for a stable count of received
/// bytes, read the FIFO in one burst, read the link quality, take the chip
/// to IDLE, and flush the RX FIFO.
pub open spec fn receive_plan() -> Seq<Step> {
    seq![Step::AwaitRxBytes, Step::ReadFifo, Step::Read(Status::LQI)] + idle_plan() + seq![
        Step::Strobe(Command::SFRX),
    ]
}

/// What is done in place of the rest of `receive_plan` once the RX FIFO
/// has overflowed: the FIFO is flushed.
pub open spec fn receive_recovery() -> Seq<Step> {
    seq![Step::Strobe(Command::SFRX)]
}

/// Whether `transmit` sends a payload of this length.
pub open spec fn sendable(len: u8) -> bool {
    MIN_TX <= len <= MAX_TX
}

/// The bytes that `transmit` puts into the TX FIFO: the length, then that
/// many bytes of the payload.
pub open spec fn transmit_frame(payload: Seq<u8>, len: u8) -> Seq<u8> {
    seq![len] + payload.subrange(0, len as int)
}

/// The plan that sends a frame: set the line function, go to IDLE, flush
/// the TX FIFO, go to receive for a moment to listen before talking, fill
/// the FIFO, set the line function for sending, go to transmit, wait for
/// the status line to rise, which tells that the sync word has gone out,
/// and to fall, which tells that the packet has, and go back to IDLE. A
/// fault of the status line ends either wait, like any other fault of the
/// transport.
pub open spec fn transmit_plan() -> Seq<Step> {
    seq![Step::Write(Config::IOCFG0, LINE_BEFORE_FILL)] + idle_plan() + seq![
        Step::Strobe(Command::SFTX),
    ] + radio_mode_plan(RadioMode::Receive) + seq![
        Step::LoadFifo,
        Step::Write(Config::IOCFG0, LINE_SYNC_TO_END),
    ] + radio_mode_plan(RadioMode::Transmit) + seq![
        Step::AwaitLine(Level::High),
        Step::AwaitLine(Level::Low),
    ] + idle_plan()
}

/// The bytes that the baseline settings come to.
pub proof fn defaults_plan_bytes()
    ensures
        defaults_plan() == seq![
            Step::Strobe(Command::SRES),
            Step::Write(Config::PKTCTRL0, 0x05),
            Step::Write(Config::FSCTRL1, 0x08),
            Step::Write(Config::MDMCFG2, 0x82),
            Step::Write(Config::MCSM0, 0x14),
            Step::Write(Config::AGCCTRL2, 0x23),
        ],
{
    let pktctrl0 = PKTCTRL0::white_data_field().insert(PKTCTRL0::RESET, 0);
    let fsctrl1 = FSCTRL1::freq_if_field().insert(FSCTRL1::RESET, 0x08);
    let mdmcfg2 = MDMCFG2::dem_dcfilt_off_field().insert(MDMCFG2::RESET, 1);
    let mcsm0 = MCSM0::fs_autocal_field().insert(MCSM0::RESET, AutoCalibration::FROM_IDLE.code());
    let agcctrl2 = AGCCTRL2::max_lna_gain_field().insert(AGCCTRL2::RESET, 0x04);
    assert(pktctrl0 == 0x05 && fsctrl1 == 0x08 && mdmcfg2 == 0x82 && mcsm0 == 0x14 && agcctrl2
        == 0x23) by (bit_vector)
        requires
            pktctrl0 == (0x45u8 & !(0x01u8 << 6u8)) | ((0u8 << 6u8) & (0x01u8 << 6u8)),
            fsctrl1 == (0x0Fu8 & !(0x1Fu8 << 0u8)) | ((0x08u8 << 0u8) & (0x1Fu8 << 0u8)),
            mdmcfg2 == (0x02u8 & !(0x01u8 << 7u8)) | ((1u8 << 7u8) & (0x01u8 << 7u8)),
            mcsm0 == (0x04u8 & !(0x03u8 << 4u8)) | ((1u8 << 4u8) & (0x03u8 << 4u8)),
            agcctrl2 == (0x03u8 & !(0x07u8 << 3u8)) | ((0x04u8 << 3u8) & (0x07u8 << 3u8)),
    ;
    assert(defaults_plan() =~= seq![
        Step::Strobe(Command::SRES),
        Step::Write(Config::PKTCTRL0, 0x05),
        Step::Write(Config::FSCTRL1, 0x08),
        Step::Write(Config::MDMCFG2, 0x82),
        Step::Write(Config::MCSM0, 0x14),
        Step::Write(Config::AGCCTRL2, 0x23),
    ]);
}

/// The sync word after reset.
pub proof fn reset_sync_word_value()
    ensures
        reset_sync_word() == 0xD391,
{
    assert(((0xD3u8 as u16) << 8) | (0x91u8 as u16) == 0xD391u16) by (bit_vector);
}

/// The steps of a reception, one by one.
pub proof fn receive_plan_steps()
    ensures
        receive_plan() == seq![
            Step::AwaitRxBytes,
            Step::ReadFifo,
            Step::Read(Status::LQI),
            Step::Strobe(Command::SIDLE),
            Step::Await(MachineState::IDLE),
            Step::Strobe(Command::SFRX),
        ],
{
    assert(receive_plan() =~= seq![
        Step::AwaitRxBytes,
        Step::ReadFifo,
        Step::Read(Status::LQI),
        Step::Strobe(Command::SIDLE),
        Step::Await(MachineState::IDLE),
        Step::Strobe(Command::SFRX),
    ]);
}

/// The steps of a transmission, one by one. The strobes come in the order
/// IDLE, flush TX, IDLE, receive, the FIFO is filled, IDLE, transmit, and
/// after both waits for the status line, IDLE; each strobe that changes the
/// chip's state is followed by the wait for that state.
pub proof fn transmit_plan_steps()
    ensures
        transmit_plan() == seq![
            Step::Write(Config::IOCFG0, 0x09),
            Step::Strobe(Command::SIDLE),
            Step::Await(MachineState::IDLE),
            Step::Strobe(Command::SFTX),
            Step::Strobe(Command::SIDLE),
            Step::Await(MachineState::IDLE),
            Step::Strobe(Command::SRX),
            Step::Await(MachineState::RX),
            Step::LoadFifo,
            Step::Write(Config::IOCFG0, 0x06),
            Step::Strobe(Command::SIDLE),
            Step::Await(MachineState::IDLE),
            Step::Strobe(Command::STX),
            Step::Await(MachineState::TX),
            Step::AwaitLine(Level::High),
            Step::AwaitLine(Level::Low),
            Step::Strobe(Command::SIDLE),
            Step::Await(MachineState::IDLE),
        ],
{
    assert(transmit_plan() =~= seq![
        Step::Write(Config::IOCFG0, 0x09),
        Step::Strobe(Command::SIDLE),
        Step::Await(MachineState::IDLE),
        Step::Strobe(Command::SFTX),
        Step::Strobe(Command::SIDLE),
        Step::Await(MachineState::IDLE),
        Step::Strobe(Command::SRX),
        Step::Await(MachineState::RX),
        Step::LoadFifo,
        Step::Write(Config::IOCFG0, 0x06),
        Step::Strobe(Command::SIDLE),
        Step::Await(MachineState::IDLE),
        Step::Strobe(Command::STX),
        Step::Await(MachineState::TX),
        Step::AwaitLine(Level::High),
        Step::AwaitLine(Level::Low),
        Step::Strobe(Command::SIDLE),
        Step::Await(MachineState::IDLE),
    ]);
}

/// The frame of a transmission has the length in front and is one byte
/// longer than the payload sent.
pub proof fn transmit_frame_layout(payload: Seq<u8>, len: u8)
    requires
        len <= payload.len(),
    ensures
        transmit_frame(payload, len).len() == len + 1,
        transmit_frame(payload, len)[0] == len,
        forall|i: int| 0 <= i < len ==> #[trigger] transmit_frame(payload, len)[i + 1] == payload[i],
{
}

/// The step that fills the TX FIFO writes, in one burst to the FIFO's
/// burst write header 0x7F, the length followed by the payload.
pub proof fn fifo_fill_of_transmission(payload: Seq<u8>, len: u8)
    ensures
        ({
            let sequence = Sequence {
                tx: transmit_frame(payload, len),
                ..Sequence::loaded(transmit_plan(), Goal::Done)
            };
            sequence.operation(Step::LoadFifo) == lowlevel::OperationView::Write {
                frame: seq![0x7Fu8, len] + payload.subrange(0, len as int),
            }
        }),
{
    crate::lowlevel::registers::fifo_headers();
    assert(seq![0x7Fu8] + transmit_frame(payload, len) =~= seq![0x7Fu8, len] + payload.subrange(
        0,
        len as int,
    ));
}

/// A fault of the status line during either wait of a transmission, the
/// one for the line to rise and the one for it to fall, ends the
/// transmission with that fault: the line is not sampled again and the chip
/// is not taken back to IDLE.
pub proof fn transmit_line_fault<SpiE, GpioE>(machine: Machine, fault: GpioE)
    requires
        machine.sequence.plan == transmit_plan(),
        machine.sequence.at == 14 || machine.sequence.at == 15,
    ensures
        machine.sequence.step() == Step::AwaitLine(
            if machine.sequence.at == 14 {
                Level::High
            } else {
                Level::Low
            },
        ),
        machine.next(Reply::<SpiE, GpioE>::LineFault(fault)) == (
            Machine { sequence: Sequence::idle(), ..machine },
            Signal::<OutcomeView, Error<SpiE, GpioE>>::Complete(Err(Error::Gpio(fault))),
        ),
{
    transmit_plan_steps();
}

/// The lengths that `transmit` sends are those from 1 to 61.
pub proof fn sendable_lengths(len: u8)
    ensures
        sendable(len) <==> 0 < len < 62,
{
}

/// A reception whose first poll of RXBYTES shows an overflow reads
/// nothing from the FIFO: the poll is followed by the strobe that flushes
/// the RX FIFO, and then the operation ends with `RxOverflow`.
pub proof fn receive_overflow_on_first_poll<SpiE, GpioE>(
    before: lowlevel::Transaction,
    fill: Seq<u8>,
    poll: Vec<u8>,
)
    requires
        poll@.len() == 2,
        poll@[1] >= 0x80,
    ensures
        ({
            let loaded = Sequence {
                recovery: receive_recovery(),
                rx: fill,
                ..Sequence::loaded(receive_plan(), Goal::Receive)
            };
            let begun = Machine { sequence: loaded, transaction: before }.start::<SpiE, GpioE>();
            let selected = begun.0.next(Reply::<SpiE, GpioE>::Done);
            let polled = selected.0.next(Reply::<SpiE, GpioE>::Data(poll));
            let released = polled.0.next(Reply::<SpiE, GpioE>::Done);
            let again = released.0.next(Reply::<SpiE, GpioE>::Done);
            let flushed = again.0.next(Reply::<SpiE, GpioE>::Done);
            let ended = flushed.0.next(Reply::<SpiE, GpioE>::Done);
            &&& begun.1 == Signal::<OutcomeView, Error<SpiE, GpioE>>::Pending(RequestView::Select)
            &&& selected.1 == Signal::<OutcomeView, Error<SpiE, GpioE>>::Pending(
                RequestView::Transfer(seq![0xFBu8, 0u8]),
            )
            &&& polled.1 == Signal::<OutcomeView, Error<SpiE, GpioE>>::Pending(
                RequestView::Deselect,
            )
            &&& released.1 == Signal::<OutcomeView, Error<SpiE, GpioE>>::Pending(
                RequestView::Select,
            )
            &&& again.1 == Signal::<OutcomeView, Error<SpiE, GpioE>>::Pending(
                RequestView::Write(seq![0x3Au8]),
            )
            &&& flushed.1 == Signal::<OutcomeView, Error<SpiE, GpioE>>::Pending(
                RequestView::Deselect,
            )
            &&& ended == (
                Machine::idle(),
                Signal::<OutcomeView, Error<SpiE, GpioE>>::Complete(Err(Error::RxOverflow)),
            )
        }),
{
    receive_plan_steps();
    crate::sequence::status_fields_by_mask(poll@[1]);
    crate::lowlevel::registers::headers_by_access_and_mode(
        crate::lowlevel::registers::Register::Status(Status::RXBYTES),
    );
    assert(0x3Bu8 | 0x80 | 0x40 == 0xFB) by (bit_vector);
}

/// The driver. It owns the transport by way of its low level, and keeps
/// the plan of the operation under way.
pub struct Cc1101<SPI, CS, GDO2> {
    /// The low level, with the transport handles.
    pub lowlevel: lowlevel::Cc1101<SPI, CS, GDO2>,
    /// The plan under way.
    pub sequencer: Sequencer,
}

impl<SPI, CS, GDO2> Cc1101<SPI, CS, GDO2> {
    /// The state of the driver.
    pub open spec fn state(&self) -> Machine {
        machine(&self.sequencer, &self.lowlevel)
    }

    /// Whether the call that made `after` of `before` began the plan of
    /// `sequence` and told the caller `signal`: the plan is loaded in place
    /// of whatever was under way, its first step is begun, and the transport
    /// handles stay.
    pub open spec fn begins<SpiE, GpioE>(
        before: &Self,
        after: &Self,
        sequence: Sequence,
        signal: Signal<OutcomeView, Error<SpiE, GpioE>>,
    ) -> bool {
        let begun = Machine { sequence, transaction: before.lowlevel.transaction() }.start::<
            SpiE,
            GpioE,
        >();
        &&& after.state() == begun.0
        &&& signal == begun.1
        &&& after.lowlevel.same_handles(&before.lowlevel)
    }

    /// Takes hold of the transport. Nothing is under way.
    pub fn new<SpiE, GpioE>(spi: SPI, cs: CS, gdo2: GDO2) -> (made: Result<
        Self,
        Error<SpiE, GpioE>,
    >)
        ensures
            made matches Ok(driver) && driver.state() == Machine::idle() && driver.lowlevel.spi
                == spi && driver.lowlevel.cs == cs && driver.lowlevel.gdo2 == gdo2,
    {
        match lowlevel::Cc1101::new::<SpiE, GpioE>(spi, cs, gdo2) {
            Ok(lowlevel) => Ok(Cc1101 { lowlevel, sequencer: Sequencer::new() }),
            Err(fault) => Err(Error::from(fault)),
        }
    }

    /// Loads a plan and begins its first step.
    fn run<SpiE, GpioE>(&mut self, plan: Vec<Step>, goal: Goal) -> (progress: Progress<
        Outcome,
        Error<SpiE, GpioE>,
    >)
        ensures
            Self::begins(old(self), final(self), Sequence::loaded(plan@, goal), progress@),
    {
        self.run_with(plan, Vec::new(), goal, Vec::new(), Vec::new())
    }

    /// Loads a plan with what goes with it and begins its first step.
    fn run_with<SpiE, GpioE>(
        &mut self,
        plan: Vec<Step>,
        recovery: Vec<Step>,
        goal: Goal,
        tx: Vec<u8>,
        rx: Vec<u8>,
    ) -> (progress: Progress<Outcome, Error<SpiE, GpioE>>)
        ensures
            Self::begins(
                old(self),
                final(self),
                Sequence { recovery: recovery@, tx: tx@, rx: rx@, ..Sequence::loaded(plan@, goal) },
                progress@,
            ),
    {
        self.sequencer.load(plan, recovery, goal, tx, rx);
        self.sequencer.start(&mut self.lowlevel)
    }

    /// Takes the transport's reply to the outstanding request and says how
    /// the operation goes on: with another request, or no further, with the
    /// operation's result.
    pub fn resume<SpiE, GpioE>(&mut self, reply: Reply<SpiE, GpioE>) -> (progress: Progress<
        Outcome,
        Error<SpiE, GpioE>,
    >)
        ensures
            final(self).state() == old(self).state().next(reply).0,
            progress@ == old(self).state().next(reply).1,
            final(self).lowlevel.same_handles(&old(self).lowlevel),
    {
        self.sequencer.resume(&mut self.lowlevel, reply)
    }

    /// Begins to set the carrier frequency, in Hz.
    pub fn set_frequency<SpiE, GpioE>(&mut self, hz: u64) -> (progress: Progress<
        Outcome,
        Error<SpiE, GpioE>,
    >)
        ensures
            Self::begins(
                old(self),
                final(self),
                Sequence::loaded(frequency_plan(hz), Goal::Done),
                progress@,
            ),
    {
        let (freq0, freq1, freq2) = from_frequency(hz);
        let plan = vec![
            Step::Write(Config::FREQ0, freq0),
            Step::Write(Config::FREQ1, freq1),
            Step::Write(Config::FREQ2, freq2),
        ];
        assert(plan@ =~= frequency_plan(hz));
        self.run(plan, Goal::Done)
    }

    /// Begins to set the frequency deviation, in Hz.
    pub fn set_deviation<SpiE, GpioE>(&mut self, deviation: u64) -> (progress: Progress<
        Outcome,
        Error<SpiE, GpioE>,
    >)
        ensures
            Self::begins(
                old(self),
                final(self),
                Sequence::loaded(deviation_plan(deviation), Goal::Done),
                progress@,
            ),
    {
        let (mantissa, exponent) = from_deviation(deviation);
        let value = DEVIATN::default().with_deviation_m(mantissa).with_deviation_e(exponent).bits();
        let plan = vec![Step::Write(Config::DEVIATN, value)];
        assert(plan@ =~= deviation_plan(deviation));
        self.run(plan, Goal::Done)
    }

    /// Begins to set the data rate, in baud.
    pub fn set_data_rate<SpiE, GpioE>(&mut self, baud: u64) -> (progress: Progress<
        Outcome,
        Error<SpiE, GpioE>,
    >)
        ensures
            Self::begins(
                old(self),
                final(self),
                Sequence::loaded(data_rate_plan(baud), Goal::Done),
                progress@,
            ),
    {
        let (mantissa, exponent) = from_drate(baud);
        let plan = vec![
            Step::Modify(Config::MDMCFG4, Patch::field(MDMCFG4::drate_e_field(), exponent)),
            Step::Write(Config::MDMCFG3, MDMCFG3::default().with_drate_m(mantissa).bits()),
        ];
        assert(plan@ =~= data_rate_plan(baud));
        self.run(plan, Goal::Done)
    }

    /// Begins to set the channel filter bandwidth, in Hz.
    pub fn set_chanbw<SpiE, GpioE>(&mut self, bandwidth: u64) -> (progress: Progress<
        Outcome,
        Error<SpiE, GpioE>,
    >)
        ensures
            Self::begins(
                old(self),
                final(self),
                Sequence::loaded(chanbw_plan(bandwidth), Goal::Done),
                progress@,
            ),
    {
        let (mantissa, exponent) = from_chanbw(bandwidth);
        let patch = Patch::field(MDMCFG4::chanbw_m_field(), mantissa).followed_by(
            Patch::field(MDMCFG4::chanbw_e_field(), exponent),
        );
        let plan = vec![Step::Modify(Config::MDMCFG4, patch)];
        assert(plan@ =~= chanbw_plan(bandwidth));
        self.run(plan, Goal::Done)
    }

    /// Begins to read the part number and the version of the chip.
    pub fn get_hw_info<SpiE, GpioE>(&mut self) -> (progress: Progress<Outcome, Error<SpiE, GpioE>>)
        ensures
            Self::begins(
                old(self),
                final(self),
                Sequence::loaded(hw_info_plan(), Goal::HwInfo),
                progress@,
            ),
    {
        let plan = vec![Step::Read(Status::PARTNUM), Step::Read(Status::VERSION)];
        assert(plan@ =~= hw_info_plan());
        self.run(plan, Goal::HwInfo)
    }

    /// Begins to read the received signal strength, an estimate of the
    /// signal power in the channel, in dBm.
    pub fn get_rssi_dbm<SpiE, GpioE>(&mut self) -> (progress: Progress<Outcome, Error<SpiE, GpioE>>)
        ensures
            Self::begins(
                old(self),
                final(self),
                Sequence::loaded(read_plan(Status::RSSI), Goal::Rssi),
                progress@,
            ),
    {
        let plan = vec![Step::Read(Status::RSSI)];
        assert(plan@ =~= read_plan(Status::RSSI));
        self.run(plan, Goal::Rssi)
    }

    /// Begins to read the link quality indicator of the signal received
    /// last, without the CRC flag that shares its register.
    pub fn get_lqi<SpiE, GpioE>(&mut self) -> (progress: Progress<Outcome, Error<SpiE, GpioE>>)
        ensures
            Self::begins(
                old(self),
                final(self),
                Sequence::loaded(read_plan(Status::LQI), Goal::Lqi),
                progress@,
            ),
    {
        let plan = vec![Step::Read(Status::LQI)];
        assert(plan@ =~= read_plan(Status::LQI));
        self.run(plan, Goal::Lqi)
    }

    /// Begins to set the sync word and how strictly it is matched.
    pub fn set_sync_mode<SpiE, GpioE>(&mut self, sync_mode: SyncMode) -> (progress: Progress<
        Outcome,
        Error<SpiE, GpioE>,
    >)
        ensures
            Self::begins(
                old(self),
                final(self),
                Sequence::loaded(sync_mode_plan(sync_mode), Goal::Done),
                progress@,
            ),
    {
        let reset: u16 = ((SYNC1::default().bits() as u16) << 8) | (SYNC0::default().bits() as u16);
        let (mode, word) = match sync_mode {
            SyncMode::Disabled => (SyncCheck::DISABLED, reset),
            SyncMode::MatchPartial(word) => (SyncCheck::CHECK_15_16, word),
            SyncMode::MatchPartialRepeated(word) => (SyncCheck::CHECK_30_32, word),
            SyncMode::MatchFull(word) => (SyncCheck::CHECK_16_16, word),
        };
        let plan = vec![
            Step::Modify(Config::MDMCFG2, Patch::field(MDMCFG2::sync_mode_field(), mode.value())),
            Step::Write(Config::SYNC1, ((word >> 8) & 0xff) as u8),
            Step::Write(Config::SYNC0, (word & 0xff) as u8),
        ];
        assert(plan@ =~= sync_mode_plan(sync_mode));
        self.run(plan, Goal::Done)
    }

    /// Begins to set the modulation.
    pub fn set_modulation<SpiE, GpioE>(&mut self, format: Modulation) -> (progress: Progress<
        Outcome,
        Error<SpiE, GpioE>,
    >)
        ensures
            Self::begins(
                old(self),
                final(self),
                Sequence::loaded(modulation_plan(format), Goal::Done),
                progress@,
            ),
    {
        let value = match format {
            Modulation::BinaryFrequencyShiftKeying => ModFormat::MOD_2FSK,
            Modulation::GaussianFrequencyShiftKeying => ModFormat::MOD_GFSK,
            Modulation::OnOffKeying => ModFormat::MOD_ASK_OOK,
            Modulation::FourFrequencyShiftKeying => ModFormat::MOD_4FSK,
            Modulation::MinimumShiftKeying => ModFormat::MOD_MSK,
        };
        let plan = vec![
            Step::Modify(Config::MDMCFG2, Patch::field(MDMCFG2::mod_format_field(), value.value())),
        ];
        assert(plan@ =~= modulation_plan(format));
        self.run(plan, Goal::Done)
    }

    /// Begins to set the device address and how received packets are
    /// filtered by it.
    pub fn set_address_filter<SpiE, GpioE>(&mut self, filter: AddressFilter) -> (progress: Progress<
        Outcome,
        Error<SpiE, GpioE>,
    >)
        ensures
            Self::begins(
                old(self),
                final(self),
                Sequence::loaded(address_filter_plan(filter), Goal::Done),
                progress@,
            ),
    {
        let (mode, addr) = match filter {
            AddressFilter::Disabled => (AddressCheck::DISABLED, ADDR::default().bits()),
            AddressFilter::Device(addr) => (AddressCheck::SELF, addr),
            AddressFilter::DeviceLowBroadcast(addr) => (AddressCheck::SELF_LOW_BROADCAST, addr),
            AddressFilter::DeviceHighLowBroadcast(addr) => (
                AddressCheck::SELF_HIGH_LOW_BROADCAST,
                addr,
            ),
        };
        let plan = vec![
            Step::Modify(Config::PKTCTRL1, Patch::field(PKTCTRL1::adr_chk_field(), mode.value())),
            Step::Write(Config::ADDR, addr),
        ];
        assert(plan@ =~= address_filter_plan(filter));
        self.run(plan, Goal::Done)
    }

    /// Begins to set the packet length mode and the length.
    pub fn set_packet_length<SpiE, GpioE>(&mut self, length: PacketLength) -> (progress: Progress<
        Outcome,
        Error<SpiE, GpioE>,
    >)
        ensures
            Self::begins(
                old(self),
                final(self),
                Sequence::loaded(packet_length_plan(length), Goal::Done),
                progress@,
            ),
    {
        let (format, pktlen) = match length {
            PacketLength::Fixed(limit) => (LengthConfig::FIXED, limit),
            PacketLength::Variable(max_limit) => (LengthConfig::VARIABLE, max_limit),
            PacketLength::Infinite => (LengthConfig::INFINITE, PKTLEN::default().bits()),
        };
        let plan = vec![
            Step::Modify(
                Config::PKTCTRL0,
                Patch::field(PKTCTRL0::length_config_field(), format.value()),
            ),
            Step::Write(Config::PKTLEN, pktlen),
        ];
        assert(plan@ =~= packet_length_plan(length));
        self.run(plan, Goal::Done)
    }

    /// Begins to take the radio to receive, transmit or idle mode.
    pub fn set_radio_mode<SpiE, GpioE>(&mut self, radio_mode: RadioMode) -> (progress: Progress<
        Outcome,
        Error<SpiE, GpioE>,
    >)
        ensures
            Self::begins(
                old(self),
                final(self),
                Sequence::loaded(radio_mode_plan(radio_mode), Goal::Done),
                progress@,
            ),
    {
        let mut plan = vec![Step::Strobe(Command::SIDLE), Step::Await(MachineState::IDLE)];
        match radio_mode {
            RadioMode::Receive => {
                plan.push(Step::Strobe(Command::SRX));
                plan.push(Step::Await(MachineState::RX));
            },
            RadioMode::Transmit => {
                plan.push(Step::Strobe(Command::STX));
                plan.push(Step::Await(MachineState::TX));
            },
            RadioMode::Idle => {},
        }
        assert(plan@ =~= radio_mode_plan(radio_mode));
        self.run(plan, Goal::Done)
    }

    /// Begins to reset the chip and to write the baseline settings.
    pub fn set_defaults<SpiE, GpioE>(&mut self) -> (progress: Progress<Outcome, Error<SpiE, GpioE>>)
        ensures
            Self::begins(
                old(self),
                final(self),
                Sequence::loaded(defaults_plan(), Goal::Done),
                progress@,
            ),
    {
        let plan = vec![
            Step::Strobe(Command::SRES),
            Step::Write(Config::PKTCTRL0, PKTCTRL0::default().with_white_data(0).bits()),
            Step::Write(Config::FSCTRL1, FSCTRL1::default().with_freq_if(0x08).bits()),
            Step::Write(Config::MDMCFG2, MDMCFG2::default().with_dem_dcfilt_off(1).bits()),
            Step::Write(
                Config::MCSM0,
                MCSM0::default().with_fs_autocal(AutoCalibration::FROM_IDLE.value()).bits(),
            ),
            Step::Write(Config::AGCCTRL2, AGCCTRL2::default().with_max_lna_gain(0x04).bits()),
        ];
        assert(plan@ =~= defaults_plan());
        self.run(plan, Goal::Done)
    }

    /// Begins to wait until the chip reports the state `target`. There is
    /// no timeout: the wait lasts as long as the chip reports another
    /// state.
    pub fn await_machine_state<SpiE, GpioE>(&mut self, target: MachineState) -> (progress: Progress<
        Outcome,
        Error<SpiE, GpioE>,
    >)
        ensures
            Self::begins(
                old(self),
                final(self),
                Sequence::loaded(await_plan(target), Goal::Done),
                progress@,
            ),
    {
        let plan = vec![Step::Await(target)];
        assert(plan@ =~= await_plan(target));
        self.run(plan, Goal::Done)
    }

    /// Begins to wait until the chip reports the same number of received
    /// bytes, not zero, in two polls in a row, which is the result. An
    /// overflow of the RX FIFO ends the wait with that error.
    pub fn rx_bytes_available<SpiE, GpioE>(&mut self) -> (progress: Progress<
        Outcome,
        Error<SpiE, GpioE>,
    >)
        ensures
            Self::begins(
                old(self),
                final(self),
                Sequence::loaded(rx_bytes_plan(), Goal::RxBytes),
                progress@,
            ),
    {
        let plan = vec![Step::AwaitRxBytes];
        assert(plan@ =~= rx_bytes_plan());
        self.run(plan, Goal::RxBytes)
    }

    /// Begins to receive one packet. As many payload bytes are read as
    /// `buf` holds, and the bytes of `buf` are what is sent meanwhile. The
    /// result is the packet, with its length and address bytes, or
    /// `CrcMismatch` where the link quality byte has the CRC flag clear. On
    /// an overflow the RX FIFO is flushed and the result is `RxOverflow`.
    pub fn receive<SpiE, GpioE>(&mut self, buf: &[u8]) -> (progress: Progress<
        Outcome,
        Error<SpiE, GpioE>,
    >)
        ensures
            Self::begins(
                old(self),
                final(self),
                Sequence {
                    recovery: receive_recovery(),
                    rx: buf@,
                    ..Sequence::loaded(receive_plan(), Goal::Receive)
                },
                progress@,
            ),
    {
        let plan = vec![
            Step::AwaitRxBytes,
            Step::ReadFifo,
            Step::Read(Status::LQI),
            Step::Strobe(Command::SIDLE),
            Step::Await(MachineState::IDLE),
            Step::Strobe(Command::SFRX),
        ];
        let recovery = vec![Step::Strobe(Command::SFRX)];
        assert(plan@ =~= receive_plan());
        assert(recovery@ =~= receive_recovery());
        self.run_with(plan, recovery, Goal::Receive, Vec::new(), copy_bytes(buf))
    }

    /// Begins to send the first `len` bytes of `payload` as one packet. A
    /// length of 0 or above 61 is not sent: nothing is begun, no request is
    /// made, and the result is there at once.
    pub fn transmit<SpiE, GpioE>(&mut self, payload: &[u8], len: u8) -> (progress: Progress<
        Outcome,
        Error<SpiE, GpioE>,
    >)
        requires
            sendable(len) ==> len <= payload@.len(),
        ensures
            sendable(len) ==> Self::begins(
                old(self),
                final(self),
                Sequence {
                    tx: transmit_frame(payload@, len),
                    ..Sequence::loaded(transmit_plan(), Goal::Done)
                },
                progress@,
            ),
            !sendable(len) ==> *final(self) == *old(self) && progress@ == Signal::<
                OutcomeView,
                Error<SpiE, GpioE>,
            >::Complete(Ok(OutcomeView::Done)),
    {
        if len < MIN_TX || len > MAX_TX {
            return Progress::Complete(Ok(Outcome::Done));
        }
        let mut frame: Vec<u8> = Vec::new();
        frame.push(len);
        let mut at: usize = 0;
        while at < len as usize
            invariant
                at <= len <= payload@.len(),
                frame@ == seq![len] + payload@.subrange(0, at as int),
            decreases len - at,
        {
            frame.push(payload[at]);
            at = at + 1;
            assert(frame@ =~= seq![len] + payload@.subrange(0, at as int));
        }
        let plan = vec![
            Step::Write(Config::IOCFG0, LINE_BEFORE_FILL),
            Step::Strobe(Command::SIDLE),
            Step::Await(MachineState::IDLE),
            Step::Strobe(Command::SFTX),
            Step::Strobe(Command::SIDLE),
            Step::Await(MachineState::IDLE),
            Step::Strobe(Command::SRX),
            Step::Await(MachineState::RX),
            Step::LoadFifo,
            Step::Write(Config::IOCFG0, LINE_SYNC_TO_END),
            Step::Strobe(Command::SIDLE),
            Step::Await(MachineState::IDLE),
            Step::Strobe(Command::STX),
            Step::Await(MachineState::TX),
            Step::AwaitLine(Level::High),
            Step::AwaitLine(Level::Low),
            Step::Strobe(Command::SIDLE),
            Step::Await(MachineState::IDLE),
        ];
        assert(plan@ =~= transmit_plan());
        self.run_with(plan, Vec::new(), Goal::Done, frame, Vec::new())
    }
}

} // verus!
