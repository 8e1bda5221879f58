//! Operations of the driver as plans: a plan is a list of steps, each one
//! low level operation or one wait, and the sequencer walks the plan one
//! reply of the transport at a time.

use vstd::prelude::*;
use crate::lowlevel::bus::{copy_bytes, Level, Progress, Reply, Request, RequestView, Signal};
use crate::lowlevel::fields::Patch;
use crate::lowlevel::registers::status::{LQI, MARCSTATE, RXBYTES};
use crate::lowlevel::registers::{Command, Config, Register, Status};
use crate::lowlevel::types::MachineState;
use crate::lowlevel::{Exchange, OperationView, Packet, PacketView, Response, ResponseView, Transaction};
use crate::rssi::{rssi_dbm, rssi_to_dbm};
use crate::{lifted, Error};

verus! {

/// One step of a plan.
#[derive(Clone, Copy, Debug, PartialEq, Eq, Structural)]
pub enum Step {
    /// Issue a command strobe.
    Strobe(Command),
    /// Write a byte to a configuration register.
    Write(Config, u8),
    /// Read a configuration register, patch the byte and write it back.
    Modify(Config, Patch),
    /// Read a status register and keep the byte for the result.
    Read(Status),
    /// Write the staged frame to the TX FIFO in a burst.
    LoadFifo,
    /// Read length, address and payload from the RX FIFO in a burst.
    ReadFifo,
    /// Read MARCSTATE again and again until the chip reports this state.
    Await(MachineState),
    /// Read RXBYTES again and again until it reports the same number of
    /// bytes, not zero, twice in a row, or an overflow.
    AwaitRxBytes,
    /// Sample the status line again and again until it is at this level.
    /// A fault of the line ends the wait and the plan.
    AwaitLine(Level),
}

/// What is made of the bytes read when a plan has run to its end.
#[derive(Clone, Copy, Debug, PartialEq, Eq, Structural)]
pub enum Goal {
    /// Nothing.
    Done,
    /// Part number and version, from the first two bytes read.
    HwInfo,
    /// The signal strength in dBm, from the first byte read.
    Rssi,
    /// The link quality, from the first byte read.
    Lqi,
    /// The number of bytes waiting in the RX FIFO.
    RxBytes,
    /// The packet read from the FIFO, if the first byte read, the link
    /// quality byte, has the CRC flag set.
    Receive,
}

/// What an operation yields.
#[derive(Debug, PartialEq, Eq)]
pub enum Outcome {
    /// Nothing: the operation configured or commanded.
    Done,
    /// Part number and version of the chip.
    HwInfo { partnum: u8, version: u8 },
    /// Signal strength in dBm.
    Rssi(i16),
    /// Link quality estimate.
    Lqi(u8),
    /// Number of bytes waiting in the RX FIFO.
    RxBytes(u8),
    /// A received packet.
    Packet(Packet),
}

/// An `Outcome` as a value of specifications.
pub enum OutcomeView {
    /// Nothing.
    Done,
    /// Part number and version of the chip.
    HwInfo { partnum: u8, version: u8 },
    /// Signal strength in dBm.
    Rssi(i16),
    /// Link quality estimate.
    Lqi(u8),
    /// Number of bytes waiting in the RX FIFO.
    RxBytes(u8),
    /// A received packet.
    Packet(PacketView),
}

impl View for Outcome {
    type V = OutcomeView;

    open spec fn view(&self) -> OutcomeView {
        match self {
            Outcome::Done => OutcomeView::Done,
            Outcome::HwInfo { partnum, version } => OutcomeView::HwInfo {
                partnum: *partnum,
                version: *version,
            },
            Outcome::Rssi(dbm) => OutcomeView::Rssi(*dbm),
            Outcome::Lqi(quality) => OutcomeView::Lqi(*quality),
            Outcome::RxBytes(count) => OutcomeView::RxBytes(*count),
            Outcome::Packet(packet) => OutcomeView::Packet(packet@),
        }
    }
}

/// The byte at `index`, or 0 where there is none.
pub open spec fn byte_at(bytes: Seq<u8>, index: int) -> u8 {
    if 0 <= index < bytes.len() {
        bytes[index]
    } else {
        0
    }
}

/// The byte that a response carries, or 0 where it carries none.
pub open spec fn byte_of(response: ResponseView) -> u8 {
    match response {
        ResponseView::Byte(byte) => byte,
        _ => 0,
    }
}

/// The packet that a response carries, or an empty one where it carries
/// none.
pub open spec fn packet_of(response: ResponseView) -> PacketView {
    match response {
        ResponseView::Packet(packet) => packet,
        _ => PacketView { length: 0, addr: 0, payload: Seq::empty() },
    }
}

/// The state of a plan under way.
pub struct Sequence {
    /// The steps.
    pub plan: Seq<Step>,
    /// The number of steps done.
    pub at: nat,
    /// The steps taken in place of the rest once the RX FIFO has
    /// overflowed.
    pub recovery: Seq<Step>,
    /// What the result is made of.
    pub goal: Goal,
    /// Whether the RX FIFO has overflowed.
    pub overflowed: bool,
    /// The bytes that `Read` steps have read, in order.
    pub captured: Seq<u8>,
    /// The number of bytes that the last poll of RXBYTES reported.
    pub last: u8,
    /// The frame that `LoadFifo` writes, after the header.
    pub tx: Seq<u8>,
    /// The bytes that `ReadFifo` sends while the payload comes in.
    pub rx: Seq<u8>,
    /// What `ReadFifo` has read.
    pub packet: PacketView,
}

impl Sequence {
    /// The state in which nothing is under way.
    pub open spec fn idle() -> Sequence {
        Sequence {
            plan: Seq::empty(),
            at: 0,
            recovery: Seq::empty(),
            goal: Goal::Done,
            overflowed: false,
            captured: Seq::empty(),
            last: 0,
            tx: Seq::empty(),
            rx: Seq::empty(),
            packet: PacketView { length: 0, addr: 0, payload: Seq::empty() },
        }
    }

    /// The state with `plan` loaded and no step done.
    pub open spec fn loaded(plan: Seq<Step>, goal: Goal) -> Sequence {
        Sequence { plan, goal, ..Sequence::idle() }
    }

    /// Whether a step is under way.
    pub open spec fn busy(self) -> bool {
        self.at < self.plan.len()
    }

    /// The step under way.
    pub open spec fn step(self) -> Step
        recommends
            self.busy(),
    {
        self.plan[self.at as int]
    }

    /// The low level operation that carries a step out. A wait for the
    /// status line needs none.
    pub open spec fn operation(self, step: Step) -> OperationView {
        match step {
            Step::Strobe(strobe) => OperationView::Write { frame: seq![strobe.base()] },
            Step::Write(register, byte) => OperationView::Write {
                frame: seq![Register::Config(register).write_address(), byte],
            },
            Step::Modify(register, patch) => OperationView::Modify {
                read: Register::Config(register).read_address(),
                write: Register::Config(register).write_address(),
                patch,
            },
            Step::Read(register) => OperationView::ReadRegister {
                header: Register::Status(register).read_address(),
            },
            Step::LoadFifo => OperationView::Write {
                frame: seq![Register::Fifo.burst_write_address()] + self.tx,
            },
            Step::ReadFifo => OperationView::ReadFifo { fill: self.rx },
            Step::Await(_) => OperationView::ReadRegister {
                header: Register::Status(Status::MARCSTATE).read_address(),
            },
            Step::AwaitRxBytes => OperationView::ReadRegister {
                header: Register::Status(Status::RXBYTES).read_address(),
            },
            Step::AwaitLine(_) => OperationView::Idle,
        }
    }

    /// The result of a plan that has run to its end. After an overflow of
    /// the RX FIFO it is that error, whatever the goal.
    pub open spec fn result<SpiE, GpioE>(self) -> Result<OutcomeView, Error<SpiE, GpioE>> {
        let byte = byte_at(self.captured, 0);
        if self.overflowed {
            Err(Error::RxOverflow)
        } else {
            match self.goal {
                Goal::Done => Ok(OutcomeView::Done),
                Goal::HwInfo => Ok(
                    OutcomeView::HwInfo { partnum: byte, version: byte_at(self.captured, 1) },
                ),
                Goal::Rssi => Ok(OutcomeView::Rssi(rssi_dbm(byte) as i16)),
                Goal::Lqi => Ok(OutcomeView::Lqi(LQI::lqi_field().extract(byte))),
                Goal::RxBytes => Ok(OutcomeView::RxBytes(self.last)),
                Goal::Receive => if LQI::crc_ok_field().extract(byte) == 1 {
                    Ok(OutcomeView::Packet(self.packet))
                } else {
                    Err(Error::CrcMismatch)
                },
            }
        }
    }
}

/// The state of the driver: the plan under way and, below it, the low
/// level operation under way.
pub struct Machine {
    /// The plan under way.
    pub sequence: Sequence,
    /// The low level operation under way.
    pub transaction: Transaction,
}

impl Machine {
    /// The state in which nothing is under way.
    pub open spec fn idle() -> Machine {
        Machine { sequence: Sequence::idle(), transaction: Transaction::idle() }
    }

    /// Begins the step that is next in the plan, which leaves the first
    /// request of its low level operation outstanding, or ends the plan
    /// where no step is left.
    pub open spec fn start<SpiE, GpioE>(self) -> (Machine, Signal<OutcomeView, Error<SpiE, GpioE>>) {
        if !self.sequence.busy() {
            (
                Machine { sequence: Sequence::idle(), ..self },
                Signal::Complete(self.sequence.result()),
            )
        } else if self.sequence.step() is AwaitLine {
            (self, Signal::Pending(RequestView::ReadLine))
        } else {
            (
                Machine {
                    transaction: Transaction::begun(self.sequence.operation(self.sequence.step())),
                    ..self
                },
                Signal::Pending(RequestView::Select),
            )
        }
    }

    /// Moves on to the step after the one under way.
    pub open spec fn proceed<SpiE, GpioE>(self) -> (Machine, Signal<OutcomeView, Error<SpiE, GpioE>>) {
        Machine { sequence: Sequence { at: self.sequence.at + 1, ..self.sequence }, ..self }.start()
    }

    /// What follows when the low level operation of `step` has yielded
    /// `response`. A read keeps its byte. A wait for a chip state moves on
    /// if MARCSTATE reports that state and asks again if not. A wait for
    /// received bytes gives the plan up for the recovery steps if RXBYTES
    /// reports an overflow, moves on if it reports the same number as the
    /// poll before and not zero, and else notes the number and asks again.
    pub open spec fn absorb<SpiE, GpioE>(self, step: Step, response: ResponseView) -> (
        Machine,
        Signal<OutcomeView, Error<SpiE, GpioE>>,
    ) {
        let byte = byte_of(response);
        let sequence = self.sequence;
        match step {
            Step::Read(_) => Machine {
                sequence: Sequence { captured: sequence.captured.push(byte), ..sequence },
                ..self
            }.proceed(),
            Step::ReadFifo => Machine {
                sequence: Sequence { packet: packet_of(response), ..sequence },
                ..self
            }.proceed(),
            Step::Await(state) => if MARCSTATE::marc_state_field().extract(byte) == state.code() {
                self.proceed()
            } else {
                self.start()
            },
            Step::AwaitRxBytes => {
                let count = RXBYTES::num_rxbytes_field().extract(byte);
                if RXBYTES::rxfifo_overflow_field().extract(byte) == 1 {
                    Machine {
                        sequence: Sequence {
                            plan: sequence.recovery,
                            at: 0,
                            overflowed: true,
                            ..sequence
                        },
                        ..self
                    }.start()
                } else if count > 0 && count == sequence.last {
                    self.proceed()
                } else {
                    Machine { sequence: Sequence { last: count, ..sequence }, ..self }.start()
                }
            },
            _ => self.proceed(),
        }
    }

    /// The request that is outstanding: the sample of the status line
    /// during a wait for the line, and else the request of the low level.
    pub open spec fn outstanding(self) -> RequestView
        recommends
            self.sequence.busy(),
    {
        if self.sequence.step() is AwaitLine {
            RequestView::ReadLine
        } else {
            self.transaction.outstanding()
        }
    }

    /// One step of the driver: the state after `reply`, and what the
    /// caller is told. With nothing under way nothing happens. During a
    /// wait for the status line, the level waited for moves on, a fault of
    /// the line ends the plan with that fault, and anything else samples
    /// the line again. Otherwise the reply goes to the low level: a fault
    /// there ends the plan with that fault, a result there is taken in as
    /// the step says, and anything else is passed up.
    pub open spec fn next<SpiE, GpioE>(self, reply: Reply<SpiE, GpioE>) -> (
        Machine,
        Signal<OutcomeView, Error<SpiE, GpioE>>,
    ) {
        if !self.sequence.busy() {
            (self, Signal::Idle)
        } else {
            match self.sequence.step() {
                Step::AwaitLine(level) => match reply {
                    Reply::Line(seen) if seen == level => self.proceed(),
                    Reply::LineFault(fault) => (
                        Machine { sequence: Sequence::idle(), ..self },
                        Signal::Complete(Err(Error::Gpio(fault))),
                    ),
                    _ => (self, Signal::Pending(RequestView::ReadLine)),
                },
                step => {
                    let below = self.transaction.next(reply);
                    let moved = Machine { transaction: below.0, ..self };
                    match below.1 {
                        Signal::Idle => (moved, Signal::Idle),
                        Signal::Pending(request) => (moved, Signal::Pending(request)),
                        Signal::Complete(Err(fault)) => (
                            Machine { sequence: Sequence::idle(), ..moved },
                            Signal::Complete(Err(lifted(fault))),
                        ),
                        Signal::Complete(Ok(response)) => moved.absorb(step, response),
                    }
                },
            }
        }
    }
}

/// The status fields that steer a plan, by shift and mask: the CRC flag is
/// the top bit of the link quality byte and the quality its low seven bits;
/// the chip state is the low five bits of MARCSTATE; the overflow flag is
/// the top bit of RXBYTES and the byte count its low seven bits.
pub proof fn status_fields_by_mask(byte: u8)
    ensures
        LQI::crc_ok_field().extract(byte) == byte >> 7,
        LQI::lqi_field().extract(byte) == byte & 0x7F,
        MARCSTATE::marc_state_field().extract(byte) == byte & 0x1F,
        RXBYTES::rxfifo_overflow_field().extract(byte) == byte >> 7,
        RXBYTES::num_rxbytes_field().extract(byte) == byte & 0x7F,
        (byte >> 7 == 1) == (byte >= 0x80),
{
    assert((byte >> 7) & 0x01 == byte >> 7 && (byte >> 0) & 0x7F == byte & 0x7F && (byte >> 0)
        & 0x1F == byte & 0x1F && ((byte >> 7 == 1) == (byte >= 0x80))) by (bit_vector);
}

/// A step that reads a register runs the three requests of the read and
/// then takes the byte in as the step says, when nothing fails.
pub proof fn read_step_runs<SpiE, GpioE>(machine: Machine, header: u8, data: Vec<u8>)
    requires
        machine.sequence.busy(),
        !(machine.sequence.step() is AwaitLine),
        machine.transaction == Transaction::begun(OperationView::ReadRegister { header }),
        data@.len() == 2,
    ensures
        ({
            let selected = machine.next(Reply::<SpiE, GpioE>::Done);
            let read = selected.0.next(Reply::<SpiE, GpioE>::Data(data));
            let released = read.0.next(Reply::<SpiE, GpioE>::Done);
            &&& selected.1 == Signal::<OutcomeView, Error<SpiE, GpioE>>::Pending(
                RequestView::Transfer(seq![header, 0u8]),
            )
            &&& read.1 == Signal::<OutcomeView, Error<SpiE, GpioE>>::Pending(
                RequestView::Deselect,
            )
            &&& released == Machine { transaction: Transaction::idle(), ..machine }.absorb::<
                SpiE,
                GpioE,
            >(machine.sequence.step(), ResponseView::Byte(data@[1]))
        }),
{
    crate::lowlevel::read_register_runs::<SpiE, GpioE>(header, data);
}

/// A step that writes runs the three requests of the write and then moves
/// on, when nothing fails.
pub proof fn write_step_runs<SpiE, GpioE>(machine: Machine, frame: Seq<u8>)
    requires
        machine.sequence.busy(),
        !(machine.sequence.step() is AwaitLine),
        machine.transaction == Transaction::begun(OperationView::Write { frame }),
    ensures
        ({
            let selected = machine.next(Reply::<SpiE, GpioE>::Done);
            let written = selected.0.next(Reply::<SpiE, GpioE>::Done);
            let released = written.0.next(Reply::<SpiE, GpioE>::Done);
            &&& selected.1 == Signal::<OutcomeView, Error<SpiE, GpioE>>::Pending(
                RequestView::Write(frame),
            )
            &&& written.1 == Signal::<OutcomeView, Error<SpiE, GpioE>>::Pending(
                RequestView::Deselect,
            )
            &&& released == Machine { transaction: Transaction::idle(), ..machine }.absorb::<
                SpiE,
                GpioE,
            >(machine.sequence.step(), ResponseView::Done)
        }),
{
    crate::lowlevel::write_runs::<SpiE, GpioE>(frame);
}

/// The step that reads the FIFO runs the four requests of the burst read
/// and then takes the packet in, when nothing fails.
pub proof fn fifo_step_runs<SpiE, GpioE>(
    machine: Machine,
    fill: Seq<u8>,
    head: Vec<u8>,
    payload: Vec<u8>,
)
    requires
        machine.sequence.busy(),
        !(machine.sequence.step() is AwaitLine),
        machine.transaction == Transaction::begun(OperationView::ReadFifo { fill }),
        head@.len() == 3,
        payload@.len() == fill.len(),
    ensures
        ({
            let selected = machine.next(Reply::<SpiE, GpioE>::Done);
            let headed = selected.0.next(Reply::<SpiE, GpioE>::Data(head));
            let read = headed.0.next(Reply::<SpiE, GpioE>::Data(payload));
            let released = read.0.next(Reply::<SpiE, GpioE>::Done);
            &&& selected.1 == Signal::<OutcomeView, Error<SpiE, GpioE>>::Pending(
                RequestView::Transfer(seq![crate::lowlevel::FIFO_BURST_READ, 0u8, 0u8]),
            )
            &&& headed.1 == Signal::<OutcomeView, Error<SpiE, GpioE>>::Pending(
                RequestView::Transfer(fill),
            )
            &&& read.1 == Signal::<OutcomeView, Error<SpiE, GpioE>>::Pending(
                RequestView::Deselect,
            )
            &&& released == Machine { transaction: Transaction::idle(), ..machine }.absorb::<
                SpiE,
                GpioE,
            >(
                machine.sequence.step(),
                ResponseView::Packet(
                    PacketView { length: head@[1], addr: head@[2], payload: payload@ },
                ),
            )
        }),
{
    crate::lowlevel::read_fifo_runs::<SpiE, GpioE>(fill, head, payload);
}

/// A fault of the transport ends the plan at once with that fault, tagged
/// by its origin, whatever the plan and the goal: nothing is retried and
/// no further request is made. This holds of every request, the sample of
/// the status line among them: a line that fails ends the wait for it.
pub proof fn fault_ends_plan<SpiE, GpioE>(machine: Machine, reply: Reply<SpiE, GpioE>)
    requires
        machine.sequence.busy(),
        machine.sequence.step() is AwaitLine || machine.transaction.busy(),
        crate::lowlevel::bus::refuses(machine.outstanding(), reply),
    ensures
        machine.next(reply).0.sequence == Sequence::idle(),
        !(machine.sequence.step() is AwaitLine) ==> machine.next(reply).0 == Machine::idle(),
        machine.sequence.step() is AwaitLine ==> machine.next(reply).0.transaction
            == machine.transaction,
        match reply {
            Reply::SpiFault(fault) => machine.next(reply).1 == Signal::<
                OutcomeView,
                Error<SpiE, GpioE>,
            >::Complete(Err(Error::Spi(fault))),
            Reply::LineFault(fault) => machine.next(reply).1 == Signal::<
                OutcomeView,
                Error<SpiE, GpioE>,
            >::Complete(Err(Error::Gpio(fault))),
            _ => false,
        },
{
    if !(machine.sequence.step() is AwaitLine) {
        crate::lowlevel::fault_ends_operation(machine.transaction, reply);
    }
}

/// A wait for the status line has three ways to go on. The level waited
/// for moves on to the next step. A fault of the line ends the plan with
/// that fault, as a fault of the chip-select line does. Any other reply,
/// the other level among them, has the line sampled again; there is no
/// limit to the number of samples.
pub proof fn line_wait_outcomes<SpiE, GpioE>(
    machine: Machine,
    level: Level,
    reply: Reply<SpiE, GpioE>,
)
    requires
        machine.sequence.busy(),
        machine.sequence.step() == Step::AwaitLine(level),
    ensures
        match reply {
            Reply::Line(seen) => if seen == level {
                machine.next(reply) == machine.proceed::<SpiE, GpioE>()
            } else {
                machine.next(reply) == (
                    machine,
                    Signal::<OutcomeView, Error<SpiE, GpioE>>::Pending(RequestView::ReadLine),
                )
            },
            Reply::LineFault(fault) => machine.next(reply) == (
                Machine { sequence: Sequence::idle(), ..machine },
                Signal::<OutcomeView, Error<SpiE, GpioE>>::Complete(Err(Error::Gpio(fault))),
            ),
            _ => machine.next(reply) == (
                machine,
                Signal::<OutcomeView, Error<SpiE, GpioE>>::Pending(RequestView::ReadLine),
            ),
        },
        crate::lowlevel::bus::answers(machine.outstanding(), reply) <==> reply is Line,
        crate::lowlevel::bus::refuses(machine.outstanding(), reply) <==> reply is LineFault,
{
}

/// A wait for a chip state asks again, with the same read of MARCSTATE, as
/// long as the chip reports another state, and moves on as soon as it
/// reports the state waited for. There is no limit to the number of reads.
pub proof fn state_wait_repeats_until_reached<SpiE, GpioE>(
    machine: Machine,
    state: MachineState,
    byte: u8,
)
    requires
        machine.sequence.busy(),
        machine.sequence.step() == Step::Await(state),
    ensures
        byte & 0x1F == state.code() ==> machine.absorb::<SpiE, GpioE>(
            Step::Await(state),
            ResponseView::Byte(byte),
        ) == machine.proceed::<SpiE, GpioE>(),
        byte & 0x1F != state.code() ==> machine.absorb::<SpiE, GpioE>(
            Step::Await(state),
            ResponseView::Byte(byte),
        ) == (
            Machine {
                transaction: Transaction::begun(
                    OperationView::ReadRegister {
                        header: Register::Status(Status::MARCSTATE).read_address(),
                    },
                ),
                ..machine
            },
            Signal::<OutcomeView, Error<SpiE, GpioE>>::Pending(RequestView::Select),
        ),
{
    status_fields_by_mask(byte);
}

/// A wait for received bytes ends in one of two ways. When RXBYTES has its
/// top bit set, the rest of the plan is dropped for the recovery steps and
/// the result of the operation will be `RxOverflow`, whatever comes
/// after. When it reports the count of the poll before, and that is not
/// zero, the plan moves on. In every other case the count is noted and
/// RXBYTES is read again.
pub proof fn rx_wait_outcomes<SpiE, GpioE>(machine: Machine, byte: u8)
    requires
        machine.sequence.busy(),
        machine.sequence.step() == Step::AwaitRxBytes,
    ensures
        ({
            let after = machine.absorb::<SpiE, GpioE>(Step::AwaitRxBytes, ResponseView::Byte(byte));
            let count = byte & 0x7F;
            if byte >= 0x80 {
                &&& after == Machine {
                    sequence: Sequence {
                        plan: machine.sequence.recovery,
                        at: 0,
                        overflowed: true,
                        ..machine.sequence
                    },
                    ..machine
                }.start::<SpiE, GpioE>()
                &&& machine.sequence.recovery.len() == 0 ==> after.1 == Signal::<
                    OutcomeView,
                    Error<SpiE, GpioE>,
                >::Complete(Err(Error::RxOverflow))
            } else if count > 0 && count == machine.sequence.last {
                after == machine.proceed::<SpiE, GpioE>()
            } else {
                after == Machine {
                    sequence: Sequence { last: count, ..machine.sequence },
                    ..machine
                }.start::<SpiE, GpioE>()
            }
        }),
{
    status_fields_by_mask(byte);
}

/// Once the RX FIFO has overflowed, the result of the plan is that error,
/// whatever the goal and whatever was read.
pub proof fn overflow_decides_the_result<SpiE, GpioE>(sequence: Sequence)
    requires
        sequence.overflowed,
    ensures
        sequence.result::<SpiE, GpioE>() == Err::<OutcomeView, Error<SpiE, GpioE>>(
            Error::RxOverflow,
        ),
{
}

/// What a plan yields that ran to its end without an overflow, by goal.
/// The link quality is the low seven bits of the byte read; a packet is
/// the result exactly when the top bit of the link quality byte, the CRC
/// flag, is set.
pub proof fn results_by_goal<SpiE, GpioE>(sequence: Sequence)
    requires
        !sequence.overflowed,
        sequence.captured.len() >= 2,
    ensures
        ({
            let first = sequence.captured[0];
            let result = sequence.result::<SpiE, GpioE>();
            match sequence.goal {
                Goal::Done => result == Ok::<OutcomeView, Error<SpiE, GpioE>>(OutcomeView::Done),
                Goal::HwInfo => result == Ok::<OutcomeView, Error<SpiE, GpioE>>(
                    OutcomeView::HwInfo { partnum: first, version: sequence.captured[1] },
                ),
                Goal::Rssi => result == Ok::<OutcomeView, Error<SpiE, GpioE>>(
                    OutcomeView::Rssi(rssi_dbm(first) as i16),
                ) && -138 <= rssi_dbm(first) <= -11,
                Goal::Lqi => result == Ok::<OutcomeView, Error<SpiE, GpioE>>(
                    OutcomeView::Lqi(first & 0x7F),
                ),
                Goal::RxBytes => result == Ok::<OutcomeView, Error<SpiE, GpioE>>(
                    OutcomeView::RxBytes(sequence.last),
                ),
                Goal::Receive => if first >= 0x80 {
                    result == Ok::<OutcomeView, Error<SpiE, GpioE>>(
                        OutcomeView::Packet(sequence.packet),
                    )
                } else {
                    result == Err::<OutcomeView, Error<SpiE, GpioE>>(Error::CrcMismatch)
                },
            }
        }),
{
    status_fields_by_mask(sequence.captured[0]);
}

/// The executable state of a plan under way.
pub struct Sequencer {
    plan: Vec<Step>,
    at: usize,
    recovery: Vec<Step>,
    goal: Goal,
    overflowed: bool,
    captured: Vec<u8>,
    last: u8,
    tx: Vec<u8>,
    rx: Vec<u8>,
    packet: Packet,
}

impl View for Sequencer {
    type V = Sequence;

    closed spec fn view(&self) -> Sequence {
        Sequence {
            plan: self.plan@,
            at: self.at as nat,
            recovery: self.recovery@,
            goal: self.goal,
            overflowed: self.overflowed,
            captured: self.captured@,
            last: self.last,
            tx: self.tx@,
            rx: self.rx@,
            packet: self.packet@,
        }
    }
}

/// The state of the driver that a sequencer and a low level make up.
pub open spec fn machine<SPI, CS, GDO2>(
    sequencer: &Sequencer,
    low: &crate::lowlevel::Cc1101<SPI, CS, GDO2>,
) -> Machine {
    Machine { sequence: sequencer@, transaction: low.transaction() }
}

impl Sequencer {
    /// A sequencer with nothing under way.
    pub fn new() -> (made: Sequencer)
        ensures
            made@ == Sequence::idle(),
    {
        Sequencer {
            plan: Vec::new(),
            at: 0,
            recovery: Vec::new(),
            goal: Goal::Done,
            overflowed: false,
            captured: Vec::new(),
            last: 0,
            tx: Vec::new(),
            rx: Vec::new(),
            packet: Packet { length: 0, addr: 0, payload: Vec::new() },
        }
    }

    /// Loads a plan in place of whatever was under way. `recovery` is run
    /// after an overflow of the RX FIFO, `tx` is the frame for `LoadFifo`
    /// and `rx` what `ReadFifo` sends.
    pub fn load(&mut self, plan: Vec<Step>, recovery: Vec<Step>, goal: Goal, tx: Vec<u8>, rx: Vec<u8>)
        ensures
            final(self)@ == (Sequence {
                recovery: recovery@,
                tx: tx@,
                rx: rx@,
                ..Sequence::loaded(plan@, goal)
            }),
    {
        self.plan = plan;
        self.at = 0;
        self.recovery = recovery;
        self.goal = goal;
        self.overflowed = false;
        self.captured = Vec::new();
        self.last = 0;
        self.tx = tx;
        self.rx = rx;
        self.packet = Packet { length: 0, addr: 0, payload: Vec::new() };
    }

    /// Forgets the plan.
    fn clear(&mut self)
        ensures
            final(self)@ == Sequence::idle(),
    {
        self.load(Vec::new(), Vec::new(), Goal::Done, Vec::new(), Vec::new());
    }

    /// Makes the result of a plan that has run to its end, and forgets the
    /// plan.
    fn finish<SpiE, GpioE>(&mut self) -> (result: Result<Outcome, Error<SpiE, GpioE>>)
        ensures
            final(self)@ == Sequence::idle(),
            match result {
                Ok(outcome) => old(self)@.result::<SpiE, GpioE>() == Ok::<
                    OutcomeView,
                    Error<SpiE, GpioE>,
                >(outcome@),
                Err(error) => old(self)@.result::<SpiE, GpioE>() == Err::<
                    OutcomeView,
                    Error<SpiE, GpioE>,
                >(error),
            },
    {
        let byte: u8 = if self.captured.len() > 0 {
            self.captured[0]
        } else {
            0
        };
        let second: u8 = if self.captured.len() > 1 {
            self.captured[1]
        } else {
            0
        };
        let mut packet = Packet { length: 0, addr: 0, payload: Vec::new() };
        core::mem::swap(&mut packet, &mut self.packet);
        let result = if self.overflowed {
            Err(Error::RxOverflow)
        } else {
            match self.goal {
                Goal::Done => Ok(Outcome::Done),
                Goal::HwInfo => Ok(Outcome::HwInfo { partnum: byte, version: second }),
                Goal::Rssi => Ok(Outcome::Rssi(rssi_to_dbm(byte))),
                Goal::Lqi => Ok(Outcome::Lqi(LQI(byte).lqi())),
                Goal::RxBytes => Ok(Outcome::RxBytes(self.last)),
                Goal::Receive => if LQI(byte).crc_ok() == 1 {
                    Ok(Outcome::Packet(packet))
                } else {
                    Err(Error::CrcMismatch)
                },
            }
        };
        self.clear();
        result
    }

    /// Begins the step that is next in the plan, or ends the plan where no
    /// step is left.
    pub fn start<SPI, CS, GDO2, SpiE, GpioE>(
        &mut self,
        low: &mut crate::lowlevel::Cc1101<SPI, CS, GDO2>,
    ) -> (progress: Progress<Outcome, Error<SpiE, GpioE>>)
        ensures
            machine(final(self), final(low)) == machine(old(self), old(low)).start::<
                SpiE,
                GpioE,
            >().0,
            progress@ == machine(old(self), old(low)).start::<SpiE, GpioE>().1,
            final(low).same_handles(old(low)),
    {
        if self.at >= self.plan.len() {
            return Progress::Complete(self.finish());
        }
        let request = match self.plan[self.at] {
            Step::Strobe(strobe) => low.write_strobe(strobe),
            Step::Write(register, byte) => low.write_register(Register::Config(register), byte),
            Step::Modify(register, patch) => low.modify_register(Register::Config(register), patch),
            Step::Read(register) => low.read_register(Register::Status(register)),
            Step::LoadFifo => low.write_burst(Register::Fifo, self.tx.as_slice()),
            Step::ReadFifo => low.read_fifo(self.rx.as_slice()),
            Step::Await(_) => low.read_register(Register::Status(Status::MARCSTATE)),
            Step::AwaitRxBytes => low.read_register(Register::Status(Status::RXBYTES)),
            Step::AwaitLine(_) => Request::ReadLine,
        };
        Progress::Pending(request)
    }

    /// Moves on to the step after the one under way.
    fn proceed<SPI, CS, GDO2, SpiE, GpioE>(
        &mut self,
        low: &mut crate::lowlevel::Cc1101<SPI, CS, GDO2>,
    ) -> (progress: Progress<Outcome, Error<SpiE, GpioE>>)
        requires
            old(self)@.busy(),
        ensures
            machine(final(self), final(low)) == machine(old(self), old(low)).proceed::<
                SpiE,
                GpioE,
            >().0,
            progress@ == machine(old(self), old(low)).proceed::<SpiE, GpioE>().1,
            final(low).same_handles(old(low)),
    {
        if self.at < self.plan.len() {
            self.at = self.at + 1;
        }
        self.start(low)
    }

    /// Takes in what the low level operation of `step` has yielded.
    fn absorb<SPI, CS, GDO2, SpiE, GpioE>(
        &mut self,
        low: &mut crate::lowlevel::Cc1101<SPI, CS, GDO2>,
        step: Step,
        response: Response,
    ) -> (progress: Progress<Outcome, Error<SpiE, GpioE>>)
        requires
            old(self)@.busy(),
        ensures
            machine(final(self), final(low)) == machine(old(self), old(low)).absorb::<
                SpiE,
                GpioE,
            >(step, response@).0,
            progress@ == machine(old(self), old(low)).absorb::<SpiE, GpioE>(step, response@).1,
            final(low).same_handles(old(low)),
    {
        match step {
            Step::Read(_) => {
                let byte = match response {
                    Response::Byte(byte) => byte,
                    _ => 0,
                };
                self.captured.push(byte);
                self.proceed(low)
            },
            Step::ReadFifo => {
                self.packet = match response {
                    Response::Packet(packet) => packet,
                    _ => Packet { length: 0, addr: 0, payload: Vec::new() },
                };
                self.proceed(low)
            },
            Step::Await(state) => {
                let byte = match response {
                    Response::Byte(byte) => byte,
                    _ => 0,
                };
                if MARCSTATE(byte).marc_state() == state.value() {
                    self.proceed(low)
                } else {
                    self.start(low)
                }
            },
            Step::AwaitRxBytes => {
                let byte = match response {
                    Response::Byte(byte) => byte,
                    _ => 0,
                };
                let count = RXBYTES(byte).num_rxbytes();
                if RXBYTES(byte).rxfifo_overflow() == 1 {
                    let mut recovery: Vec<Step> = Vec::new();
                    core::mem::swap(&mut recovery, &mut self.recovery);
                    self.plan = recovery;
                    self.recovery = copy_steps(&self.plan);
                    self.at = 0;
                    self.overflowed = true;
                    self.start(low)
                } else if count > 0 && count == self.last {
                    self.proceed(low)
                } else {
                    self.last = count;
                    self.start(low)
                }
            },
            _ => self.proceed(low),
        }
    }

    /// Takes the transport's reply to the outstanding request and says how
    /// the operation goes on: with another request, or no further, with the
    /// operation's result.
    pub fn resume<SPI, CS, GDO2, SpiE, GpioE>(
        &mut self,
        low: &mut crate::lowlevel::Cc1101<SPI, CS, GDO2>,
        reply: Reply<SpiE, GpioE>,
    ) -> (progress: Progress<Outcome, Error<SpiE, GpioE>>)
        ensures
            machine(final(self), final(low)) == machine(old(self), old(low)).next(reply).0,
            progress@ == machine(old(self), old(low)).next(reply).1,
            final(low).same_handles(old(low)),
    {
        if self.at >= self.plan.len() {
            return Progress::Idle;
        }
        let step = self.plan[self.at];
        match step {
            Step::AwaitLine(level) => match reply {
                Reply::Line(seen) => {
                    if seen == level {
                        self.proceed(low)
                    } else {
                        Progress::Pending(Request::ReadLine)
                    }
                },
                Reply::LineFault(fault) => {
                    self.clear();
                    Progress::Complete(Err(Error::Gpio(fault)))
                },
                _ => Progress::Pending(Request::ReadLine),
            },
            _ => match low.resume(reply) {
                Progress::Idle => Progress::Idle,
                Progress::Pending(request) => Progress::Pending(request),
                Progress::Complete(Err(fault)) => {
                    self.clear();
                    Progress::Complete(Err(Error::from(fault)))
                },
                Progress::Complete(Ok(response)) => self.absorb(low, step, response),
            },
        }
    }
}

/// Copies a list of steps.
fn copy_steps(steps: &Vec<Step>) -> (copy: Vec<Step>)
    ensures
        copy@ == steps@,
{
    let mut copy: Vec<Step> = Vec::new();
    let mut at: usize = 0;
    while at < steps.len()
        invariant
            at <= steps@.len(),
            copy@ == steps@.subrange(0, at as int),
        decreases steps@.len() - at,
    {
        copy.push(steps[at]);
        at = at + 1;
        assert(copy@ =~= steps@.subrange(0, at as int));
    }
    assert(steps@.subrange(0, at as int) =~= steps@);
    copy
}

} // verus!
