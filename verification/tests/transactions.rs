use cc1101::lowlevel::bus::{copy_bytes, Level, Progress, Reply, Request};
use cc1101::lowlevel::fields::{Field, Patch};
use cc1101::lowlevel::registers::{Command, Config, Register, Status};
use cc1101::lowlevel::{Cc1101, Error, Packet, Response};

type Low = Cc1101<u8, u8, u8>;
type Step = Progress<Response, Error<&'static str, &'static str>>;

fn low() -> Low {
    let made: Result<Low, Error<(), ()>> = Cc1101::new(1, 2, 3);
    made.unwrap()
}

fn done() -> Reply<&'static str, &'static str> {
    Reply::Done
}

fn data(bytes: &[u8]) -> Reply<&'static str, &'static str> {
    Reply::Data(bytes.to_vec())
}

#[test]
fn new_low_level_is_idle_and_keeps_the_handles() {
    let mut driver = low();
    assert_eq!((driver.spi, driver.cs, driver.gdo2), (1, 2, 3));
    assert_eq!(driver.pending(), None);
    let step: Step = driver.resume(done());
    assert_eq!(step, Progress::Idle);
}

#[test]
fn read_register_exchanges_header_and_filler() {
    let mut driver = low();
    assert_eq!(driver.read_register(Register::Config(Config::PKTLEN)), Request::Select);
    assert_eq!(driver.pending(), Some(Request::Select));
    let step: Step = driver.resume(done());
    assert_eq!(step, Progress::Pending(Request::Transfer(vec![0x86, 0x00])));
    let step: Step = driver.resume(data(&[0x0F, 0x3D]));
    assert_eq!(step, Progress::Pending(Request::Deselect));
    let step: Step = driver.resume(done());
    assert_eq!(step, Progress::Complete(Ok(Response::Byte(0x3D))));
    assert_eq!(driver.pending(), None);
    assert_eq!((driver.spi, driver.cs, driver.gdo2), (1, 2, 3));
}

#[test]
fn read_of_a_status_register_sets_the_burst_bit() {
    let mut driver = low();
    driver.read_register(Register::Status(Status::VERSION));
    let step: Step = driver.resume(done());
    assert_eq!(step, Progress::Pending(Request::Transfer(vec![0xF1, 0x00])));
}

#[test]
fn write_strobe_sends_one_byte() {
    let mut driver = low();
    assert_eq!(driver.write_strobe(Command::SFRX), Request::Select);
    let step: Step = driver.resume(done());
    assert_eq!(step, Progress::Pending(Request::Write(vec![0x3A])));
    let step: Step = driver.resume(done());
    assert_eq!(step, Progress::Pending(Request::Deselect));
    let step: Step = driver.resume(done());
    assert_eq!(step, Progress::Complete(Ok(Response::Done)));
}

#[test]
fn write_register_sends_header_and_byte() {
    let mut driver = low();
    assert_eq!(driver.write_register(Register::Config(Config::FREQ1), 0xA7), Request::Select);
    let step: Step = driver.resume(done());
    assert_eq!(step, Progress::Pending(Request::Write(vec![0x0E, 0xA7])));
    let step: Step = driver.resume(done());
    assert_eq!(step, Progress::Pending(Request::Deselect));
    let step: Step = driver.resume(done());
    assert_eq!(step, Progress::Complete(Ok(Response::Done)));
}

#[test]
fn write_burst_sends_every_byte_after_the_burst_header() {
    let mut driver = low();
    assert_eq!(driver.write_burst(Register::Fifo, &[3, 0xAA, 0xBB, 0xCC]), Request::Select);
    let step: Step = driver.resume(done());
    assert_eq!(step, Progress::Pending(Request::Write(vec![0x7F, 3, 0xAA, 0xBB, 0xCC])));
    let step: Step = driver.resume(done());
    assert_eq!(step, Progress::Pending(Request::Deselect));
    let step: Step = driver.resume(done());
    assert_eq!(step, Progress::Complete(Ok(Response::Done)));

    driver.write_burst(Register::Config(Config::FREQ2), &[]);
    let step: Step = driver.resume(done());
    assert_eq!(step, Progress::Pending(Request::Write(vec![0x4D])));
}

#[test]
fn read_fifo_reads_length_address_and_payload_in_one_transaction() {
    let mut driver = low();
    assert_eq!(driver.read_fifo(&[0x11, 0x22, 0x33, 0x44]), Request::Select);
    let step: Step = driver.resume(done());
    assert_eq!(step, Progress::Pending(Request::Transfer(vec![0xFF, 0x00, 0x00])));
    let step: Step = driver.resume(data(&[0x0F, 4, 0x77]));
    assert_eq!(step, Progress::Pending(Request::Transfer(vec![0x11, 0x22, 0x33, 0x44])));
    let step: Step = driver.resume(data(&[9, 8, 7, 6]));
    assert_eq!(step, Progress::Pending(Request::Deselect));
    let step: Step = driver.resume(done());
    assert_eq!(
        step,
        Progress::Complete(Ok(Response::Packet(Packet {
            length: 4,
            addr: 0x77,
            payload: vec![9, 8, 7, 6]
        })))
    );
}

#[test]
fn modify_register_writes_back_the_patched_byte() {
    let mut driver = low();
    let patch = Patch::field(Field { offset: 4, width: 3 }, 0b011);
    assert_eq!(driver.modify_register(Register::Config(Config::MDMCFG2), patch), Request::Select);
    let step: Step = driver.resume(done());
    assert_eq!(step, Progress::Pending(Request::Transfer(vec![0x92, 0x00])));
    let step: Step = driver.resume(data(&[0x00, 0b1100_0101]));
    assert_eq!(step, Progress::Pending(Request::Deselect));
    let step: Step = driver.resume(done());
    assert_eq!(step, Progress::Pending(Request::Select));
    let step: Step = driver.resume(done());
    assert_eq!(step, Progress::Pending(Request::Write(vec![0x12, 0b1011_0101])));
    let step: Step = driver.resume(done());
    assert_eq!(step, Progress::Pending(Request::Deselect));
    let step: Step = driver.resume(done());
    assert_eq!(step, Progress::Complete(Ok(Response::Done)));
}

#[test]
fn a_fault_ends_the_operation_and_is_tagged_by_origin() {
    let mut driver = low();
    driver.read_register(Register::Status(Status::RSSI));
    let step: Step = driver.resume(Reply::LineFault("cs"));
    assert_eq!(step, Progress::Complete(Err(Error::Gpio("cs"))));
    assert_eq!(driver.pending(), None);

    driver.read_register(Register::Status(Status::RSSI));
    let _: Step = driver.resume(done());
    let step: Step = driver.resume(Reply::SpiFault("bus"));
    assert_eq!(step, Progress::Complete(Err(Error::Spi("bus"))));
    let step: Step = driver.resume(done());
    assert_eq!(step, Progress::Idle);

    driver.write_strobe(Command::SNOP);
    let _: Step = driver.resume(done());
    let _: Step = driver.resume(done());
    let step: Step = driver.resume(Reply::LineFault("release"));
    assert_eq!(step, Progress::Complete(Err(Error::Gpio("release"))));
}

#[test]
fn a_reply_that_does_not_answer_leaves_the_request_outstanding() {
    let mut driver = low();
    driver.read_register(Register::Status(Status::RSSI));
    let step: Step = driver.resume(data(&[1, 2]));
    assert_eq!(step, Progress::Pending(Request::Select));
    let step: Step = driver.resume(Reply::SpiFault("bus"));
    assert_eq!(step, Progress::Pending(Request::Select));
    let step: Step = driver.resume(Reply::Line(Level::High));
    assert_eq!(step, Progress::Pending(Request::Select));
    let _: Step = driver.resume(done());
    // A transfer is answered by as many bytes as it sent, and by nothing
    // else.
    let step: Step = driver.resume(data(&[1]));
    assert_eq!(step, Progress::Pending(Request::Transfer(vec![0xF4, 0x00])));
    let step: Step = driver.resume(data(&[1, 2, 3]));
    assert_eq!(step, Progress::Pending(Request::Transfer(vec![0xF4, 0x00])));
    let step: Step = driver.resume(done());
    assert_eq!(step, Progress::Pending(Request::Transfer(vec![0xF4, 0x00])));
    let step: Step = driver.resume(Reply::LineFault("cs"));
    assert_eq!(step, Progress::Pending(Request::Transfer(vec![0xF4, 0x00])));
    let step: Step = driver.resume(data(&[1, 2]));
    assert_eq!(step, Progress::Pending(Request::Deselect));
}

#[test]
fn a_new_operation_replaces_the_one_under_way() {
    let mut driver = low();
    driver.read_register(Register::Status(Status::RSSI));
    let _: Step = driver.resume(done());
    driver.write_strobe(Command::SIDLE);
    assert_eq!(driver.pending(), Some(Request::Select));
    let step: Step = driver.resume(done());
    assert_eq!(step, Progress::Pending(Request::Write(vec![0x36])));
}

#[test]
fn copy_bytes_copies() {
    assert_eq!(copy_bytes(&[]), Vec::<u8>::new());
    assert_eq!(copy_bytes(&[1, 2, 3]), vec![1, 2, 3]);
}
