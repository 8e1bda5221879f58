use cc1101::lowlevel::bus::{Level, Progress, Reply, Request};
use cc1101::lowlevel::fields::{Field, Patch};
use cc1101::lowlevel::registers::{Command, Config, Status};
use cc1101::lowlevel::Packet;
use cc1101::sequence::{Goal, Outcome, Sequencer};
use cc1101::{
    AddressFilter, Cc1101, Error, Modulation, PacketLength, RadioMode, SyncMode,
};
use std::collections::VecDeque;

type Fault = &'static str;
type Driver = Cc1101<(), (), ()>;
type Step = Progress<Outcome, Error<Fault, Fault>>;

/// What the chip saw, one entry for each transaction or line sample.
#[derive(Debug, PartialEq, Eq, Clone)]
enum Seen {
    Strobe(u8),
    Write(u8, u8),
    Burst(u8, Vec<u8>),
    Read(u8),
    FifoRead(Vec<u8>),
    Line,
}

/// A chip that answers from scripts: each status register has a queue of
/// bytes, of which the last one repeats, and so has the status line.
struct Chip {
    selected: bool,
    frames: Vec<Vec<u8>>,
    transfers: usize,
    registers: Vec<(u8, VecDeque<u8>)>,
    line: VecDeque<Level>,
    fifo: Vec<u8>,
    seen: Vec<Seen>,
}

impl Chip {
    fn new() -> Chip {
        Chip {
            selected: false,
            frames: Vec::new(),
            transfers: 0,
            registers: Vec::new(),
            line: VecDeque::new(),
            fifo: Vec::new(),
            seen: Vec::new(),
        }
    }

    fn script(mut self, header: u8, bytes: &[u8]) -> Chip {
        self.registers.push((header, bytes.iter().copied().collect()));
        self
    }

    fn lines(mut self, levels: &[Level]) -> Chip {
        self.line = levels.iter().copied().collect();
        self
    }

    fn fifo(mut self, bytes: &[u8]) -> Chip {
        self.fifo = bytes.to_vec();
        self
    }

    fn register(&mut self, header: u8) -> u8 {
        for (known, queue) in self.registers.iter_mut() {
            if *known == header {
                if queue.len() > 1 {
                    return queue.pop_front().unwrap();
                }
                return *queue.front().unwrap();
            }
        }
        // The chip is in whatever state it is asked about.
        0
    }

    fn perform(&mut self, request: Request) -> Reply<Fault, Fault> {
        match request {
            Request::Select => {
                assert!(!self.selected, "selected twice");
                self.selected = true;
                self.frames.clear();
                self.transfers = 0;
                Reply::Done
            }
            Request::Deselect => {
                assert!(self.selected, "deselected while not selected");
                self.selected = false;
                Reply::Done
            }
            Request::Write(bytes) => {
                assert!(self.selected, "written while not selected");
                let header = bytes[0];
                if bytes.len() == 1 {
                    self.seen.push(Seen::Strobe(header));
                } else if header & 0x40 != 0 {
                    self.seen.push(Seen::Burst(header, bytes[1..].to_vec()));
                } else {
                    assert_eq!(bytes.len(), 2);
                    self.seen.push(Seen::Write(header, bytes[1]));
                }
                Reply::Done
            }
            Request::Transfer(bytes) => {
                assert!(self.selected, "transferred while not selected");
                self.transfers += 1;
                if self.transfers == 1 && bytes[0] == 0xFF {
                    assert_eq!(bytes.len(), 3);
                    return Reply::Data(vec![0x0F, self.fifo[0], self.fifo[1]]);
                }
                if self.transfers == 2 {
                    let mut payload = self.fifo[2..].to_vec();
                    payload.resize(bytes.len(), 0);
                    self.seen.push(Seen::FifoRead(bytes));
                    return Reply::Data(payload);
                }
                assert_eq!(bytes.len(), 2);
                assert_eq!(bytes[1], 0);
                self.seen.push(Seen::Read(bytes[0]));
                let byte = self.register(bytes[0]);
                Reply::Data(vec![0x0F, byte])
            }
            Request::ReadLine => {
                assert!(!self.selected, "line sampled inside a transaction");
                self.seen.push(Seen::Line);
                let level = if self.line.len() > 1 {
                    self.line.pop_front().unwrap()
                } else {
                    *self.line.front().unwrap()
                };
                Reply::Line(level)
            }
        }
    }

    fn strobes(&self) -> Vec<u8> {
        self.seen
            .iter()
            .filter_map(|seen| match seen {
                Seen::Strobe(header) => Some(*header),
                _ => None,
            })
            .collect()
    }

    /// The transactions without the polls of MARCSTATE.
    fn without_state_polls(&self) -> Vec<Seen> {
        self.seen.iter().filter(|seen| **seen != Seen::Read(MARCSTATE)).cloned().collect()
    }
}

const MARCSTATE: u8 = 0xF5;
const RXBYTES: u8 = 0xFB;
const LQI: u8 = 0xF3;
const SRES: u8 = 0x30;
const SRX: u8 = 0x34;
const STX: u8 = 0x35;
const SIDLE: u8 = 0x36;
const SFRX: u8 = 0x3A;
const SFTX: u8 = 0x3B;

fn driver() -> Driver {
    let made: Result<Driver, Error<Fault, Fault>> = Cc1101::new((), (), ());
    made.unwrap()
}

/// A chip whose state register reports each state as soon as it is asked
/// for: IDLE, RX, IDLE, TX, IDLE for a transmission.
fn obedient(states: &[u8]) -> Chip {
    Chip::new().script(MARCSTATE, states)
}

fn run(driver: &mut Driver, chip: &mut Chip, first: Step) -> Result<Outcome, Error<Fault, Fault>> {
    let mut step = first;
    let mut requests = 0;
    loop {
        match step {
            Progress::Pending(request) => {
                requests += 1;
                assert!(requests < 10_000, "the operation does not end");
                let reply = chip.perform(request);
                step = driver.resume(reply);
            }
            Progress::Complete(result) => {
                assert!(!chip.selected, "the chip was left selected");
                let after: Step = driver.resume(Reply::Done);
                assert_eq!(after, Progress::Idle);
                return result;
            }
            Progress::Idle => panic!("nothing under way"),
        }
    }
}

#[test]
fn new_driver_is_idle() {
    let mut driver = driver();
    let step: Step = driver.resume(Reply::Done);
    assert_eq!(step, Progress::Idle);
    let step: Step = driver.resume(Reply::Line(Level::Low));
    assert_eq!(step, Progress::Idle);
}

#[test]
fn set_frequency_writes_three_registers_low_byte_first() {
    let mut driver = driver();
    let mut chip = Chip::new();
    let first = driver.set_frequency(433_000_000);
    assert_eq!(first, Progress::Pending(Request::Select));
    assert_eq!(run(&mut driver, &mut chip, first), Ok(Outcome::Done));
    assert_eq!(
        chip.seen,
        vec![Seen::Write(0x0F, 0x62), Seen::Write(0x0E, 0xA7), Seen::Write(0x0D, 0x10)]
    );
}

#[test]
fn set_deviation_writes_the_reset_value_with_both_fields() {
    let mut driver = driver();
    let mut chip = Chip::new();
    let first = driver.set_deviation(20_630);
    assert_eq!(run(&mut driver, &mut chip, first), Ok(Outcome::Done));
    assert_eq!(chip.seen, vec![Seen::Write(0x15, 0x35)]);
}

#[test]
fn set_data_rate_patches_the_exponent_and_writes_the_mantissa() {
    let mut driver = driver();
    let mut chip = Chip::new().script(0x90, &[0xCA]);
    let first = driver.set_data_rate(115_200);
    assert_eq!(run(&mut driver, &mut chip, first), Ok(Outcome::Done));
    assert_eq!(
        chip.seen,
        vec![Seen::Read(0x90), Seen::Write(0x10, 0xCC), Seen::Write(0x11, 34)]
    );
}

#[test]
fn set_chanbw_patches_both_fields_in_one_write() {
    let mut driver = driver();
    let mut chip = Chip::new().script(0x90, &[0x8C]);
    let first = driver.set_chanbw(325_000);
    assert_eq!(run(&mut driver, &mut chip, first), Ok(Outcome::Done));
    assert_eq!(chip.seen, vec![Seen::Read(0x90), Seen::Write(0x10, 0x5C)]);
}

#[test]
fn get_hw_info_reads_part_number_then_version() {
    let mut driver = driver();
    let mut chip = Chip::new().script(0xF0, &[0x00]).script(0xF1, &[0x14]);
    let first = driver.get_hw_info();
    assert_eq!(
        run(&mut driver, &mut chip, first),
        Ok(Outcome::HwInfo { partnum: 0x00, version: 0x14 })
    );
    assert_eq!(chip.seen, vec![Seen::Read(0xF0), Seen::Read(0xF1)]);
}

#[test]
fn get_rssi_dbm_converts_the_register() {
    let mut driver = driver();
    let mut chip = Chip::new().script(0xF4, &[204]);
    let first = driver.get_rssi_dbm();
    assert_eq!(run(&mut driver, &mut chip, first), Ok(Outcome::Rssi(-100)));
    assert_eq!(chip.seen, vec![Seen::Read(0xF4)]);
}

#[test]
fn get_lqi_drops_the_crc_flag() {
    let mut driver = driver();
    let mut chip = Chip::new().script(LQI, &[0x85]);
    let first = driver.get_lqi();
    assert_eq!(run(&mut driver, &mut chip, first), Ok(Outcome::Lqi(0x05)));
    assert_eq!(chip.seen, vec![Seen::Read(LQI)]);
}

#[test]
fn set_sync_mode_patches_the_check_and_writes_the_word() {
    let mut driver = driver();
    let mut chip = Chip::new().script(0x92, &[0x32]);
    let first = driver.set_sync_mode(SyncMode::MatchPartialRepeated(0xBEEF));
    assert_eq!(run(&mut driver, &mut chip, first), Ok(Outcome::Done));
    assert_eq!(
        chip.seen,
        vec![
            Seen::Read(0x92),
            Seen::Write(0x12, 0x33),
            Seen::Write(0x04, 0xBE),
            Seen::Write(0x05, 0xEF)
        ]
    );

    let mut chip = Chip::new().script(0x92, &[0x32]);
    let first = driver.set_sync_mode(SyncMode::MatchPartial(0x1234));
    assert_eq!(run(&mut driver, &mut chip, first), Ok(Outcome::Done));
    assert_eq!(chip.seen[1], Seen::Write(0x12, 0x31));

    let mut chip = Chip::new().script(0x92, &[0x37]);
    let first = driver.set_sync_mode(SyncMode::MatchFull(0x1234));
    assert_eq!(run(&mut driver, &mut chip, first), Ok(Outcome::Done));
    assert_eq!(chip.seen[1], Seen::Write(0x12, 0x32));
}

#[test]
fn set_sync_mode_disabled_restores_the_reset_word() {
    let mut driver = driver();
    let mut chip = Chip::new().script(0x92, &[0x32]);
    let first = driver.set_sync_mode(SyncMode::Disabled);
    assert_eq!(run(&mut driver, &mut chip, first), Ok(Outcome::Done));
    assert_eq!(
        chip.seen,
        vec![
            Seen::Read(0x92),
            Seen::Write(0x12, 0x30),
            Seen::Write(0x04, 0xD3),
            Seen::Write(0x05, 0x91)
        ]
    );
}

#[test]
fn set_modulation_patches_the_format() {
    let cases = [
        (Modulation::BinaryFrequencyShiftKeying, 0x02),
        (Modulation::GaussianFrequencyShiftKeying, 0x12),
        (Modulation::OnOffKeying, 0x32),
        (Modulation::FourFrequencyShiftKeying, 0x42),
        (Modulation::MinimumShiftKeying, 0x72),
    ];
    for (format, written) in cases {
        let mut driver = driver();
        let mut chip = Chip::new().script(0x92, &[0x52]);
        let first = driver.set_modulation(format);
        assert_eq!(run(&mut driver, &mut chip, first), Ok(Outcome::Done));
        assert_eq!(chip.seen, vec![Seen::Read(0x92), Seen::Write(0x12, written)]);
    }
}

#[test]
fn set_address_filter_patches_the_check_and_writes_the_address() {
    let cases = [
        (AddressFilter::Disabled, 0x04, 0x00),
        (AddressFilter::Device(0x42), 0x05, 0x42),
        (AddressFilter::DeviceLowBroadcast(0x43), 0x06, 0x43),
        (AddressFilter::DeviceHighLowBroadcast(0x44), 0x07, 0x44),
    ];
    for (filter, control, addr) in cases {
        let mut driver = driver();
        let mut chip = Chip::new().script(0x87, &[0x07]);
        let first = driver.set_address_filter(filter);
        assert_eq!(run(&mut driver, &mut chip, first), Ok(Outcome::Done));
        assert_eq!(
            chip.seen,
            vec![Seen::Read(0x87), Seen::Write(0x07, control), Seen::Write(0x09, addr)]
        );
    }
}

#[test]
fn set_packet_length_patches_the_mode_and_writes_the_length() {
    let cases = [
        (PacketLength::Fixed(20), 0x44, 20),
        (PacketLength::Variable(61), 0x45, 61),
        (PacketLength::Infinite, 0x46, 0xFF),
    ];
    for (length, control, limit) in cases {
        let mut driver = driver();
        let mut chip = Chip::new().script(0x88, &[0x45]);
        let first = driver.set_packet_length(length);
        assert_eq!(run(&mut driver, &mut chip, first), Ok(Outcome::Done));
        assert_eq!(
            chip.seen,
            vec![Seen::Read(0x88), Seen::Write(0x08, control), Seen::Write(0x06, limit)]
        );
    }
}

#[test]
fn set_radio_mode_idle_strobes_and_polls_until_idle() {
    let mut driver = driver();
    let mut chip = Chip::new().script(MARCSTATE, &[0x0D, 0x0E, 0x01]);
    let first = driver.set_radio_mode(RadioMode::Idle);
    assert_eq!(run(&mut driver, &mut chip, first), Ok(Outcome::Done));
    assert_eq!(
        chip.seen,
        vec![
            Seen::Strobe(SIDLE),
            Seen::Read(MARCSTATE),
            Seen::Read(MARCSTATE),
            Seen::Read(MARCSTATE)
        ]
    );
}

#[test]
fn set_radio_mode_receive_goes_through_idle() {
    let mut driver = driver();
    let mut chip = Chip::new().script(MARCSTATE, &[0x01, 0x08, 0x0D]);
    let first = driver.set_radio_mode(RadioMode::Receive);
    assert_eq!(run(&mut driver, &mut chip, first), Ok(Outcome::Done));
    assert_eq!(
        chip.seen,
        vec![
            Seen::Strobe(SIDLE),
            Seen::Read(MARCSTATE),
            Seen::Strobe(SRX),
            Seen::Read(MARCSTATE),
            Seen::Read(MARCSTATE)
        ]
    );
}

#[test]
fn set_radio_mode_transmit_goes_through_idle() {
    let mut driver = driver();
    let mut chip = Chip::new().script(MARCSTATE, &[0x01, 0x13]);
    let first = driver.set_radio_mode(RadioMode::Transmit);
    assert_eq!(run(&mut driver, &mut chip, first), Ok(Outcome::Done));
    assert_eq!(
        chip.seen,
        vec![Seen::Strobe(SIDLE), Seen::Read(MARCSTATE), Seen::Strobe(STX), Seen::Read(MARCSTATE)]
    );
}

#[test]
fn machine_state_is_read_from_the_low_five_bits() {
    let mut driver = driver();
    let mut chip = Chip::new().script(MARCSTATE, &[0x21, 0xE1]);
    let first = driver.await_machine_state(cc1101::lowlevel::types::MachineState::IDLE);
    assert_eq!(run(&mut driver, &mut chip, first), Ok(Outcome::Done));
    assert_eq!(chip.seen, vec![Seen::Read(MARCSTATE)]);
}

#[test]
fn set_defaults_resets_and_writes_the_baseline() {
    let mut driver = driver();
    let mut chip = Chip::new();
    let first = driver.set_defaults();
    assert_eq!(run(&mut driver, &mut chip, first), Ok(Outcome::Done));
    assert_eq!(
        chip.seen,
        vec![
            Seen::Strobe(SRES),
            Seen::Write(0x08, 0x05),
            Seen::Write(0x0B, 0x08),
            Seen::Write(0x12, 0x82),
            Seen::Write(0x18, 0x14),
            Seen::Write(0x1B, 0x23)
        ]
    );
}

#[test]
fn rx_bytes_available_waits_for_a_stable_count() {
    let mut driver = driver();
    let mut chip = Chip::new().script(RXBYTES, &[0, 0, 3, 5, 5]);
    let first = driver.rx_bytes_available();
    assert_eq!(run(&mut driver, &mut chip, first), Ok(Outcome::RxBytes(5)));
    assert_eq!(chip.seen, vec![Seen::Read(RXBYTES); 5]);
}

#[test]
fn rx_bytes_available_reports_an_overflow() {
    let mut driver = driver();
    let mut chip = Chip::new().script(RXBYTES, &[2, 0x82]);
    let first = driver.rx_bytes_available();
    assert_eq!(run(&mut driver, &mut chip, first), Err(Error::RxOverflow));
    assert_eq!(chip.seen, vec![Seen::Read(RXBYTES); 2]);
}

#[test]
fn receive_reads_one_burst_after_a_stable_count() {
    let mut driver = driver();
    let mut chip = Chip::new()
        .script(RXBYTES, &[0, 4, 4])
        .script(LQI, &[0x85])
        .script(MARCSTATE, &[0x0D, 0x01])
        .fifo(&[4, 0x2A, 0xDE, 0xAD, 0xBE, 0xEF]);
    let first = driver.receive(&[0, 0, 0, 0]);
    assert_eq!(
        run(&mut driver, &mut chip, first),
        Ok(Outcome::Packet(Packet { length: 4, addr: 0x2A, payload: vec![0xDE, 0xAD, 0xBE, 0xEF] }))
    );
    assert_eq!(
        chip.seen,
        vec![
            Seen::Read(RXBYTES),
            Seen::Read(RXBYTES),
            Seen::Read(RXBYTES),
            Seen::FifoRead(vec![0, 0, 0, 0]),
            Seen::Read(LQI),
            Seen::Strobe(SIDLE),
            Seen::Read(MARCSTATE),
            Seen::Read(MARCSTATE),
            Seen::Strobe(SFRX)
        ]
    );
    let bursts = chip.seen.iter().filter(|seen| matches!(seen, Seen::FifoRead(_))).count();
    assert_eq!(bursts, 1);
    assert_eq!(chip.strobes().last(), Some(&SFRX));
}

#[test]
fn receive_overflow_flushes_and_fails() {
    let mut driver = driver();
    let mut chip = Chip::new().script(RXBYTES, &[0x80]);
    let first = driver.receive(&[0; 8]);
    assert_eq!(run(&mut driver, &mut chip, first), Err(Error::RxOverflow));
    assert_eq!(chip.seen, vec![Seen::Read(RXBYTES), Seen::Strobe(SFRX)]);
}

#[test]
fn receive_overflow_after_some_polls_flushes_and_fails() {
    let mut driver = driver();
    let mut chip = Chip::new().script(RXBYTES, &[0, 7, 0xC0]);
    let first = driver.receive(&[0; 8]);
    assert_eq!(run(&mut driver, &mut chip, first), Err(Error::RxOverflow));
    assert_eq!(chip.strobes(), vec![SFRX]);
    assert!(!chip.seen.iter().any(|seen| matches!(seen, Seen::FifoRead(_))));
}

#[test]
fn receive_with_failed_crc_flushes_and_fails() {
    let mut driver = driver();
    let mut chip = Chip::new()
        .script(RXBYTES, &[6, 6])
        .script(LQI, &[0x05])
        .script(MARCSTATE, &[0x01])
        .fifo(&[3, 0x01, 1, 2, 3]);
    let first = driver.receive(&[0xAA, 0xBB, 0xCC]);
    assert_eq!(run(&mut driver, &mut chip, first), Err(Error::CrcMismatch));
    assert_eq!(chip.strobes(), vec![SIDLE, SFRX]);
    assert!(chip.seen.contains(&Seen::FifoRead(vec![0xAA, 0xBB, 0xCC])));
}

#[test]
fn receive_passes_a_bus_fault_on() {
    let mut driver = driver();
    let first: Step = driver.receive(&[0; 4]);
    assert_eq!(first, Progress::Pending(Request::Select));
    let step: Step = driver.resume(Reply::Done);
    assert_eq!(step, Progress::Pending(Request::Transfer(vec![RXBYTES, 0])));
    let step: Step = driver.resume(Reply::SpiFault("bus"));
    assert_eq!(step, Progress::Complete(Err(Error::Spi("bus"))));
    let step: Step = driver.resume(Reply::Done);
    assert_eq!(step, Progress::Idle);

    let first: Step = driver.receive(&[0; 4]);
    assert_eq!(first, Progress::Pending(Request::Select));
    let step: Step = driver.resume(Reply::LineFault("cs"));
    assert_eq!(step, Progress::Complete(Err(Error::Gpio("cs"))));
}

#[test]
fn receive_overflow_with_a_failing_flush_reports_the_fault() {
    let mut driver = driver();
    let _: Step = driver.receive(&[0; 4]);
    let _: Step = driver.resume(Reply::Done);
    let _: Step = driver.resume(Reply::Data(vec![0x0F, 0x80]));
    let step: Step = driver.resume(Reply::Done);
    assert_eq!(step, Progress::Pending(Request::Select));
    let step: Step = driver.resume(Reply::Done);
    assert_eq!(step, Progress::Pending(Request::Write(vec![SFRX])));
    let step: Step = driver.resume(Reply::SpiFault("bus"));
    assert_eq!(step, Progress::Complete(Err(Error::Spi("bus"))));
}

#[test]
fn transmit_fills_the_fifo_and_sequences_the_strobes() {
    let mut driver = driver();
    let mut chip = obedient(&[0x01, 0x01, 0x0D, 0x01, 0x13, 0x01])
        .lines(&[Level::Low, Level::Low, Level::High, Level::High, Level::Low]);
    let payload = [1u8, 2, 3, 4, 5, 6, 7, 8, 9, 10];
    let first = driver.transmit(&payload, 10);
    assert_eq!(first, Progress::Pending(Request::Select));
    assert_eq!(run(&mut driver, &mut chip, first), Ok(Outcome::Done));
    assert_eq!(
        chip.without_state_polls(),
        vec![
            Seen::Write(0x02, 0x09),
            Seen::Strobe(SIDLE),
            Seen::Strobe(SFTX),
            Seen::Strobe(SIDLE),
            Seen::Strobe(SRX),
            Seen::Burst(0x7F, vec![10, 1, 2, 3, 4, 5, 6, 7, 8, 9, 10]),
            Seen::Write(0x02, 0x06),
            Seen::Strobe(SIDLE),
            Seen::Strobe(STX),
            Seen::Line,
            Seen::Line,
            Seen::Line,
            Seen::Line,
            Seen::Line,
            Seen::Strobe(SIDLE)
        ]
    );
    // Leaving out the passes through IDLE that every change to receive or
    // transmit begins with: IDLE, flush, receive, transmit, IDLE.
    assert_eq!(chip.strobes(), vec![SIDLE, SFTX, SIDLE, SRX, SIDLE, STX, SIDLE]);
    // Every strobe is followed by polls of the state register.
    assert_eq!(chip.seen.iter().filter(|seen| **seen == Seen::Read(MARCSTATE)).count(), 6);
}

#[test]
fn transmit_sends_only_the_length_asked_for() {
    let mut driver = driver();
    let mut chip = obedient(&[0x01, 0x01, 0x0D, 0x01, 0x13, 0x01]).lines(&[Level::High, Level::Low]);
    let first = driver.transmit(&[9, 8, 7, 6, 5], 2);
    assert_eq!(run(&mut driver, &mut chip, first), Ok(Outcome::Done));
    assert!(chip.seen.contains(&Seen::Burst(0x7F, vec![2, 9, 8])));
}

#[test]
fn transmit_of_the_longest_and_shortest_payload() {
    let payload = [0x55u8; 61];
    let mut driver = driver();
    let mut chip = obedient(&[0x01, 0x01, 0x0D, 0x01, 0x13, 0x01]).lines(&[Level::High, Level::Low]);
    let first = driver.transmit(&payload, 61);
    assert_eq!(run(&mut driver, &mut chip, first), Ok(Outcome::Done));
    let mut frame = vec![61u8];
    frame.extend_from_slice(&payload);
    assert!(chip.seen.contains(&Seen::Burst(0x7F, frame)));

    let mut chip = obedient(&[0x01, 0x01, 0x0D, 0x01, 0x13, 0x01]).lines(&[Level::High, Level::Low]);
    let first = driver.transmit(&payload, 1);
    assert_eq!(run(&mut driver, &mut chip, first), Ok(Outcome::Done));
    assert!(chip.seen.contains(&Seen::Burst(0x7F, vec![1, 0x55])));
}

#[test]
fn transmit_rejects_length_0_and_62_without_a_request() {
    let payload = [0u8; 64];
    for len in [0u8, 62, 63, 64, 255] {
        let mut driver = driver();
        let step: Step = driver.transmit(&payload, len);
        assert_eq!(step, Progress::Complete(Ok(Outcome::Done)));
        let step: Step = driver.resume(Reply::Done);
        assert_eq!(step, Progress::Idle);
    }
    let mut driver = driver();
    let step: Step = driver.transmit(&[], 0);
    assert_eq!(step, Progress::Complete(Ok(Outcome::Done)));
}

#[test]
fn transmit_rejected_leaves_an_operation_under_way_alone() {
    let mut driver = driver();
    let first: Step = driver.get_lqi();
    assert_eq!(first, Progress::Pending(Request::Select));
    let step: Step = driver.transmit(&[0u8; 64], 62);
    assert_eq!(step, Progress::Complete(Ok(Outcome::Done)));
    let step: Step = driver.resume(Reply::Done);
    assert_eq!(step, Progress::Pending(Request::Transfer(vec![LQI, 0])));
}

/// Runs a transmission of one byte up to its first sample of the status
/// line.
fn transmission_at_the_line(chip: &mut Chip) -> Driver {
    let mut driver = driver();
    let mut step: Step = driver.transmit(&[7], 1);
    loop {
        match step {
            Progress::Pending(Request::ReadLine) => return driver,
            Progress::Pending(request) => step = driver.resume(chip.perform(request)),
            other => panic!("ended early: {:?}", other),
        }
    }
}

#[test]
fn transmit_samples_the_line_until_it_rises_and_falls() {
    let mut chip = obedient(&[0x01, 0x01, 0x0D, 0x01, 0x13]);
    let mut driver = transmission_at_the_line(&mut chip);
    // Wait for high: low and a reply out of place both sample again.
    let step: Step = driver.resume(Reply::Line(Level::Low));
    assert_eq!(step, Progress::Pending(Request::ReadLine));
    let step: Step = driver.resume(Reply::Done);
    assert_eq!(step, Progress::Pending(Request::ReadLine));
    let step: Step = driver.resume(Reply::SpiFault("bus"));
    assert_eq!(step, Progress::Pending(Request::ReadLine));
    let step: Step = driver.resume(Reply::Line(Level::High));
    assert_eq!(step, Progress::Pending(Request::ReadLine));
    // Wait for low.
    let step: Step = driver.resume(Reply::Line(Level::High));
    assert_eq!(step, Progress::Pending(Request::ReadLine));
    let step: Step = driver.resume(Reply::Line(Level::Low));
    assert_eq!(step, Progress::Pending(Request::Select));
    let step: Step = driver.resume(Reply::Done);
    assert_eq!(step, Progress::Pending(Request::Write(vec![SIDLE])));
}

#[test]
fn transmit_ends_on_a_fault_of_the_line_while_waiting_for_high() {
    let mut chip = obedient(&[0x01, 0x01, 0x0D, 0x01, 0x13]);
    let mut driver = transmission_at_the_line(&mut chip);
    let strobes = chip.strobes();
    let step: Step = driver.resume(Reply::Line(Level::Low));
    assert_eq!(step, Progress::Pending(Request::ReadLine));
    let step: Step = driver.resume(Reply::LineFault("gdo2"));
    assert_eq!(step, Progress::Complete(Err(Error::Gpio("gdo2"))));
    // Nothing is retried and nothing more is asked of the transport.
    let step: Step = driver.resume(Reply::Line(Level::High));
    assert_eq!(step, Progress::Idle);
    assert_eq!(chip.strobes(), strobes);
    assert_eq!(strobes, vec![SIDLE, SFTX, SIDLE, SRX, SIDLE, STX]);
}

#[test]
fn transmit_ends_on_a_fault_of_the_line_while_waiting_for_low() {
    let mut chip = obedient(&[0x01, 0x01, 0x0D, 0x01, 0x13]);
    let mut driver = transmission_at_the_line(&mut chip);
    let step: Step = driver.resume(Reply::Line(Level::High));
    assert_eq!(step, Progress::Pending(Request::ReadLine));
    let step: Step = driver.resume(Reply::LineFault("gdo2"));
    assert_eq!(step, Progress::Complete(Err(Error::Gpio("gdo2"))));
    let step: Step = driver.resume(Reply::Done);
    assert_eq!(step, Progress::Idle);
}

#[test]
fn transmit_with_a_line_that_fails_at_once_ends_with_the_fault() {
    let mut chip = obedient(&[0x01, 0x01, 0x0D, 0x01, 0x13]);
    let mut driver = transmission_at_the_line(&mut chip);
    let step: Step = driver.resume(Reply::LineFault("gdo2"));
    assert_eq!(step, Progress::Complete(Err(Error::Gpio("gdo2"))));
}

#[test]
fn a_bus_fault_ends_any_operation() {
    let mut driver = driver();
    let _: Step = driver.set_frequency(868_000_000);
    let _: Step = driver.resume(Reply::Done);
    let step: Step = driver.resume(Reply::SpiFault("bus"));
    assert_eq!(step, Progress::Complete(Err(Error::Spi("bus"))));
    let step: Step = driver.resume(Reply::Done);
    assert_eq!(step, Progress::Idle);
}

#[test]
fn errors_of_the_low_level_keep_their_origin() {
    let spi: Error<u8, u16> = Error::from(cc1101::lowlevel::Error::Spi(7));
    assert_eq!(spi, Error::Spi(7));
    let gpio: Error<u8, u16> = Error::from(cc1101::lowlevel::Error::Gpio(9));
    assert_eq!(gpio, Error::Gpio(9));
}

#[test]
fn handles_are_kept() {
    let made: Result<Cc1101<u8, u16, u32>, Error<(), ()>> = Cc1101::new(1, 2, 3);
    let mut driver = made.unwrap();
    let _: Progress<Outcome, Error<(), ()>> = driver.get_hw_info();
    let _: Progress<Outcome, Error<(), ()>> = driver.resume(Reply::Done);
    assert_eq!(driver.lowlevel.spi, 1);
    assert_eq!(driver.lowlevel.cs, 2);
    assert_eq!(driver.lowlevel.gdo2, 3);
}

#[test]
fn a_plan_of_ones_own_runs_step_by_step() {
    let made: Result<cc1101::lowlevel::Cc1101<(), (), ()>, cc1101::lowlevel::Error<(), ()>> =
        cc1101::lowlevel::Cc1101::new((), (), ());
    let mut low = made.unwrap();
    let mut sequencer = Sequencer::new();
    let idle: Step = sequencer.resume(&mut low, Reply::Done);
    assert_eq!(idle, Progress::Idle);

    let patch = Patch::field(Field { offset: 0, width: 4 }, 0x0A);
    sequencer.load(
        vec![
            cc1101::sequence::Step::Strobe(Command::SNOP),
            cc1101::sequence::Step::Modify(Config::FIFOTHR, patch),
            cc1101::sequence::Step::AwaitLine(Level::Low),
            cc1101::sequence::Step::Read(Status::VERSION),
            cc1101::sequence::Step::Read(Status::PARTNUM),
        ],
        Vec::new(),
        Goal::HwInfo,
        Vec::new(),
        Vec::new(),
    );
    let mut chip = Chip::new()
        .script(0x83, &[0x47])
        .script(0xF1, &[0x14])
        .script(0xF0, &[0x80])
        .lines(&[Level::High, Level::Low]);
    let mut step: Step = sequencer.start(&mut low);
    let result = loop {
        match step {
            Progress::Pending(request) => step = sequencer.resume(&mut low, chip.perform(request)),
            Progress::Complete(result) => break result,
            Progress::Idle => panic!("nothing under way"),
        }
    };
    // The bytes come out in the order in which they were read.
    assert_eq!(result, Ok(Outcome::HwInfo { partnum: 0x14, version: 0x80 }));
    assert_eq!(
        chip.seen,
        vec![
            Seen::Strobe(0x3D),
            Seen::Read(0x83),
            Seen::Write(0x03, 0x4A),
            Seen::Line,
            Seen::Line,
            Seen::Read(0xF1),
            Seen::Read(0xF0)
        ]
    );
}

#[test]
fn an_empty_plan_ends_at_once() {
    let made: Result<cc1101::lowlevel::Cc1101<(), (), ()>, cc1101::lowlevel::Error<(), ()>> =
        cc1101::lowlevel::Cc1101::new((), (), ());
    let mut low = made.unwrap();
    let mut sequencer = Sequencer::new();
    sequencer.load(Vec::new(), Vec::new(), Goal::Rssi, Vec::new(), Vec::new());
    let step: Step = sequencer.start(&mut low);
    // No byte was read: the register counts as 0.
    assert_eq!(step, Progress::Complete(Ok(Outcome::Rssi(-74))));
}
