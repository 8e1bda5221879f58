//! Low level access to the chip: one register, strobe or FIFO operation at
//! a time, as a sequence of requests to the transport. Every transaction is
//! framed by selecting and deselecting the chip, and ends at the first
//! fault.

pub mod access;
pub mod bus;
pub mod convert;
pub mod fields;
pub mod registers;
pub mod types;

use vstd::prelude::*;
use crate::lowlevel::access::{BURST_BIT, READ_BIT};
use crate::lowlevel::bus::{answers, copy_bytes, refuses, Progress, Reply, Request, RequestView, Signal};
use crate::lowlevel::fields::Patch;
use crate::lowlevel::registers::{Command, Register, FIFO};

verus! {

/// Frequency of the crystal oscillator in Hz, to which every encoded
/// quantity is relative.
pub const FXOSC: u64 = 26_000_000;

/// Header byte of a burst read from the RX FIFO.
pub const FIFO_BURST_READ: u8 = 0xFF;

/// A fault of the transport, by where it arose.
#[derive(Debug, PartialEq, Eq)]
pub enum Error<SpiE, GpioE> {
    /// The serial bus failed.
    Spi(SpiE),
    /// The chip-select line failed.
    Gpio(GpioE),
}

/// What a burst read of the RX FIFO yields.
#[derive(Debug, PartialEq, Eq)]
pub struct Packet {
    /// The length byte, which the chip puts first.
    pub length: u8,
    /// The address byte, which follows it.
    pub addr: u8,
    /// The bytes after these two, as many as the caller's buffer held.
    pub payload: Vec<u8>,
}

/// A `Packet` as a value of specifications.
pub struct PacketView {
    /// The length byte.
    pub length: u8,
    /// The address byte.
    pub addr: u8,
    /// The bytes after these two.
    pub payload: Seq<u8>,
}

impl View for Packet {
    type V = PacketView;

    open spec fn view(&self) -> PacketView {
        PacketView { length: self.length, addr: self.addr, payload: self.payload@ }
    }
}

/// What an operation that met no fault yields.
#[derive(Debug, PartialEq, Eq)]
pub enum Response {
    /// Nothing: the operation wrote.
    Done,
    /// The byte read from a register.
    Byte(u8),
    /// What was read from the RX FIFO.
    Packet(Packet),
}

/// A `Response` as a value of specifications.
pub enum ResponseView {
    /// Nothing: the operation wrote.
    Done,
    /// The byte read from a register.
    Byte(u8),
    /// What was read from the RX FIFO.
    Packet(PacketView),
}

impl View for Response {
    type V = ResponseView;

    open spec fn view(&self) -> ResponseView {
        match self {
            Response::Done => ResponseView::Done,
            Response::Byte(byte) => ResponseView::Byte(*byte),
            Response::Packet(packet) => ResponseView::Packet(packet@),
        }
    }
}

/// The operations of the low level, as values of specifications.
pub enum OperationView {
    /// No operation.
    Idle,
    /// Read one register: `header` is its read header.
    ReadRegister { header: u8 },
    /// Read the RX FIFO in a burst, sending `fill` while the payload comes
    /// in.
    ReadFifo { fill: Seq<u8> },
    /// Write `frame`, a header followed by data, in one go.
    Write { frame: Seq<u8> },
    /// Read a register through the header `read`, change the byte by
    /// `patch` and write it back through the header `write`.
    Modify { read: u8, write: u8, patch: Patch },
}

/// The state of the low level: the operation under way, how many of its
/// requests have been answered, and what the answers held.
pub struct Transaction {
    /// The operation under way.
    pub operation: OperationView,
    /// The number of requests answered so far.
    pub done: nat,
    /// The register byte read, once it has come.
    pub byte: u8,
    /// The length byte read from the FIFO, once it has come.
    pub length: u8,
    /// The address byte read from the FIFO, once it has come.
    pub addr: u8,
    /// The payload read from the FIFO, once it has come.
    pub payload: Seq<u8>,
}

impl Transaction {
    /// The state in which nothing is under way.
    pub open spec fn idle() -> Transaction {
        Transaction {
            operation: OperationView::Idle,
            done: 0,
            byte: 0,
            length: 0,
            addr: 0,
            payload: Seq::empty(),
        }
    }

    /// The state right after `operation` was begun.
    pub open spec fn begun(operation: OperationView) -> Transaction {
        Transaction { operation, ..Transaction::idle() }
    }

    /// The requests that the operation makes, in order. Each transaction
    /// selects the chip first and deselects it last. A read sends its
    /// header and one filler byte; a FIFO read sends the burst header and
    /// two filler bytes, for the length and the address, and goes on with
    /// the payload without deselecting; a modification is a read followed
    /// by a write of the byte read, patched.
    pub open spec fn script(self) -> Seq<RequestView> {
        match self.operation {
            OperationView::Idle => Seq::empty(),
            OperationView::ReadRegister { header } => seq![
                RequestView::Select,
                RequestView::Transfer(seq![header, 0u8]),
                RequestView::Deselect,
            ],
            OperationView::ReadFifo { fill } => seq![
                RequestView::Select,
                RequestView::Transfer(seq![FIFO_BURST_READ, 0u8, 0u8]),
                RequestView::Transfer(fill),
                RequestView::Deselect,
            ],
            OperationView::Write { frame } => seq![
                RequestView::Select,
                RequestView::Write(frame),
                RequestView::Deselect,
            ],
            OperationView::Modify { read, write, patch } => seq![
                RequestView::Select,
                RequestView::Transfer(seq![read, 0u8]),
                RequestView::Deselect,
                RequestView::Select,
                RequestView::Write(seq![write, patch.apply(self.byte)]),
                RequestView::Deselect,
            ],
        }
    }

    /// Whether a request is outstanding.
    pub open spec fn busy(self) -> bool {
        self.done < self.script().len()
    }

    /// The request that is outstanding.
    pub open spec fn outstanding(self) -> RequestView
        recommends
            self.busy(),
    {
        self.script()[self.done as int]
    }

    /// The state after the bytes of a transfer have come in: a register
    /// read keeps the second byte, a FIFO read the second and third byte of
    /// its first transfer and all of its second.
    pub open spec fn absorb(self, data: Seq<u8>) -> Transaction {
        match self.operation {
            OperationView::ReadRegister { .. } | OperationView::Modify { .. } => if self.done == 1 {
                Transaction { byte: data[1], ..self }
            } else {
                self
            },
            OperationView::ReadFifo { .. } => if self.done == 1 {
                Transaction { length: data[1], addr: data[2], ..self }
            } else if self.done == 2 {
                Transaction { payload: data, ..self }
            } else {
                self
            },
            _ => self,
        }
    }

    /// What the operation yields when all its requests have been answered.
    pub open spec fn response(self) -> ResponseView {
        match self.operation {
            OperationView::ReadRegister { .. } => ResponseView::Byte(self.byte),
            OperationView::ReadFifo { .. } => ResponseView::Packet(
                PacketView { length: self.length, addr: self.addr, payload: self.payload },
            ),
            _ => ResponseView::Done,
        }
    }

    /// The state after `reply` has answered the outstanding request.
    pub open spec fn advance<SpiE, GpioE>(self, reply: Reply<SpiE, GpioE>) -> Transaction {
        let kept = match reply {
            Reply::Data(data) => self.absorb(data@),
            _ => self,
        };
        Transaction { done: self.done + 1, ..kept }
    }

    /// One step: the state after `reply`, and what the caller is told.
    /// With nothing under way nothing happens. A reply that answers the
    /// outstanding request moves on to the next request, or ends the
    /// operation with its result. A reply that reports the request's
    /// failure ends the operation with the fault, tagged by its origin. Any
    /// other reply leaves the request outstanding.
    pub open spec fn next<SpiE, GpioE>(self, reply: Reply<SpiE, GpioE>) -> (
        Transaction,
        Signal<ResponseView, Error<SpiE, GpioE>>,
    ) {
        if !self.busy() {
            (self, Signal::Idle)
        } else if answers(self.outstanding(), reply) {
            let moved = self.advance(reply);
            if moved.busy() {
                (moved, Signal::Pending(moved.outstanding()))
            } else {
                (Transaction::idle(), Signal::Complete(Ok(moved.response())))
            }
        } else {
            match reply {
                Reply::SpiFault(fault) if refuses(self.outstanding(), reply) => (
                    Transaction::idle(),
                    Signal::Complete(Err(Error::Spi(fault))),
                ),
                Reply::LineFault(fault) if refuses(self.outstanding(), reply) => (
                    Transaction::idle(),
                    Signal::Complete(Err(Error::Gpio(fault))),
                ),
                _ => (self, Signal::Pending(self.outstanding())),
            }
        }
    }
}

/// Whether a list of requests keeps to the framing of the bus: the chip
/// is selected before anything is sent, deselected before it is selected
/// again, and deselected at the end; the status line is not sampled in
/// between. `selected` says whether the chip is selected at the start.
pub open spec fn framed(requests: Seq<RequestView>, selected: bool) -> bool
    decreases requests.len(),
{
    if requests.len() == 0 {
        !selected
    } else {
        let rest = requests.subrange(1, requests.len() as int);
        match requests[0] {
            RequestView::Select => !selected && framed(rest, true),
            RequestView::Deselect => selected && framed(rest, false),
            RequestView::Transfer(_) | RequestView::Write(_) => selected && framed(rest, selected),
            RequestView::ReadLine => false,
        }
    }
}

/// Every operation keeps to the framing of the bus, whatever it has read
/// so far.
pub proof fn scripts_are_framed(transaction: Transaction)
    ensures
        framed(transaction.script(), false),
{
    reveal_with_fuel(framed, 8);
    let script = transaction.script();
    if script.len() > 0 {
        let one = script.subrange(1, script.len() as int);
        assert(one.len() == script.len() - 1);
        assert(one[0] == script[1]);
        let two = one.subrange(1, one.len() as int);
        assert(two[0] == script[2]);
        let three = two.subrange(1, two.len() as int);
        if three.len() > 0 {
            assert(three[0] == script[3]);
            let four = three.subrange(1, three.len() as int);
            if four.len() > 0 {
                assert(four[0] == script[4]);
                let five = four.subrange(1, four.len() as int);
                assert(five[0] == script[5]);
                let six = five.subrange(1, five.len() as int);
                assert(six.len() == 0);
            }
        }
    }
}

/// A reply that reports the failure of the outstanding request ends the
/// operation at once, with no further request: not even the chip is
/// deselected. The error is a line fault for a request to select or
/// deselect, and a bus fault for a transfer or a write.
pub proof fn fault_ends_operation<SpiE, GpioE>(transaction: Transaction, reply: Reply<SpiE, GpioE>)
    requires
        transaction.busy(),
        refuses(transaction.outstanding(), reply),
    ensures
        transaction.next(reply).0 == Transaction::idle(),
        match reply {
            Reply::SpiFault(fault) => {
                &&& transaction.next(reply).1 == Signal::<
                    ResponseView,
                    Error<SpiE, GpioE>,
                >::Complete(Err(Error::Spi(fault)))
                &&& transaction.outstanding() is Transfer || transaction.outstanding() is Write
            },
            Reply::LineFault(fault) => {
                &&& transaction.next(reply).1 == Signal::<
                    ResponseView,
                    Error<SpiE, GpioE>,
                >::Complete(Err(Error::Gpio(fault)))
                &&& !(transaction.outstanding() is Transfer) && !(transaction.outstanding()
                    is Write)
            },
            _ => false,
        },
{
}

/// A reply that neither answers the outstanding request nor reports its
/// failure changes nothing: the request stays outstanding.
pub proof fn stray_reply_changes_nothing<SpiE, GpioE>(
    transaction: Transaction,
    reply: Reply<SpiE, GpioE>,
)
    requires
        transaction.busy(),
        !answers(transaction.outstanding(), reply),
        !refuses(transaction.outstanding(), reply),
    ensures
        transaction.next(reply) == (
            transaction,
            Signal::<ResponseView, Error<SpiE, GpioE>>::Pending(transaction.outstanding()),
        ),
{
}

/// A register read that meets no fault selects the chip, sends the header
/// and a filler byte, deselects the chip, and yields the byte that came
/// back in second place.
pub proof fn read_register_runs<SpiE, GpioE>(header: u8, data: Vec<u8>)
    requires
        data@.len() == 2,
    ensures
        ({
            let begun = Transaction::begun(OperationView::ReadRegister { header });
            let selected = begun.next(Reply::<SpiE, GpioE>::Done);
            let read = selected.0.next(Reply::<SpiE, GpioE>::Data(data));
            let released = read.0.next(Reply::<SpiE, GpioE>::Done);
            &&& begun.outstanding() == RequestView::Select
            &&& selected.1 == Signal::<ResponseView, Error<SpiE, GpioE>>::Pending(
                RequestView::Transfer(seq![header, 0u8]),
            )
            &&& read.1 == Signal::<ResponseView, Error<SpiE, GpioE>>::Pending(
                RequestView::Deselect,
            )
            &&& released == (
                Transaction::idle(),
                Signal::<ResponseView, Error<SpiE, GpioE>>::Complete(
                    Ok(ResponseView::Byte(data@[1])),
                ),
            )
        }),
{
}

/// A write that meets no fault selects the chip, sends the frame in one
/// piece and deselects the chip. This is how a strobe, a register write
/// and a burst write run.
pub proof fn write_runs<SpiE, GpioE>(frame: Seq<u8>)
    ensures
        ({
            let begun = Transaction::begun(OperationView::Write { frame });
            let selected = begun.next(Reply::<SpiE, GpioE>::Done);
            let written = selected.0.next(Reply::<SpiE, GpioE>::Done);
            let released = written.0.next(Reply::<SpiE, GpioE>::Done);
            &&& begun.outstanding() == RequestView::Select
            &&& selected.1 == Signal::<ResponseView, Error<SpiE, GpioE>>::Pending(
                RequestView::Write(frame),
            )
            &&& written.1 == Signal::<ResponseView, Error<SpiE, GpioE>>::Pending(
                RequestView::Deselect,
            )
            &&& released == (
                Transaction::idle(),
                Signal::<ResponseView, Error<SpiE, GpioE>>::Complete(Ok(ResponseView::Done)),
            )
        }),
{
}

/// A FIFO read that meets no fault selects the chip once, reads the two
/// bytes after the status byte as length and address, reads as many
/// payload bytes as it sends, and deselects the chip.
pub proof fn read_fifo_runs<SpiE, GpioE>(fill: Seq<u8>, head: Vec<u8>, payload: Vec<u8>)
    requires
        head@.len() == 3,
        payload@.len() == fill.len(),
    ensures
        ({
            let begun = Transaction::begun(OperationView::ReadFifo { fill });
            let selected = begun.next(Reply::<SpiE, GpioE>::Done);
            let headed = selected.0.next(Reply::<SpiE, GpioE>::Data(head));
            let read = headed.0.next(Reply::<SpiE, GpioE>::Data(payload));
            let released = read.0.next(Reply::<SpiE, GpioE>::Done);
            &&& begun.outstanding() == RequestView::Select
            &&& selected.1 == Signal::<ResponseView, Error<SpiE, GpioE>>::Pending(
                RequestView::Transfer(seq![FIFO_BURST_READ, 0u8, 0u8]),
            )
            &&& headed.1 == Signal::<ResponseView, Error<SpiE, GpioE>>::Pending(
                RequestView::Transfer(fill),
            )
            &&& read.1 == Signal::<ResponseView, Error<SpiE, GpioE>>::Pending(
                RequestView::Deselect,
            )
            &&& released == (
                Transaction::idle(),
                Signal::<ResponseView, Error<SpiE, GpioE>>::Complete(
                    Ok(
                        ResponseView::Packet(
                            PacketView { length: head@[1], addr: head@[2], payload: payload@ },
                        ),
                    ),
                ),
            )
        }),
{
}

/// A modification that meets no fault reads the register in one
/// transaction and, in a second one, writes back the byte read with the
/// patch made to it.
pub proof fn modify_runs<SpiE, GpioE>(read: u8, write: u8, patch: Patch, data: Vec<u8>)
    requires
        data@.len() == 2,
    ensures
        ({
            let begun = Transaction::begun(OperationView::Modify { read, write, patch });
            let selected = begun.next(Reply::<SpiE, GpioE>::Done);
            let got = selected.0.next(Reply::<SpiE, GpioE>::Data(data));
            let released = got.0.next(Reply::<SpiE, GpioE>::Done);
            let again = released.0.next(Reply::<SpiE, GpioE>::Done);
            let written = again.0.next(Reply::<SpiE, GpioE>::Done);
            let ended = written.0.next(Reply::<SpiE, GpioE>::Done);
            &&& begun.outstanding() == RequestView::Select
            &&& selected.1 == Signal::<ResponseView, Error<SpiE, GpioE>>::Pending(
                RequestView::Transfer(seq![read, 0u8]),
            )
            &&& got.1 == Signal::<ResponseView, Error<SpiE, GpioE>>::Pending(RequestView::Deselect)
            &&& released.1 == Signal::<ResponseView, Error<SpiE, GpioE>>::Pending(
                RequestView::Select,
            )
            &&& again.1 == Signal::<ResponseView, Error<SpiE, GpioE>>::Pending(
                RequestView::Write(seq![write, patch.apply(data@[1])]),
            )
            &&& written.1 == Signal::<ResponseView, Error<SpiE, GpioE>>::Pending(
                RequestView::Deselect,
            )
            &&& ended == (
                Transaction::idle(),
                Signal::<ResponseView, Error<SpiE, GpioE>>::Complete(Ok(ResponseView::Done)),
            )
        }),
{
}

/// An operation with the bytes it sends.
enum Operation {
    Idle,
    ReadRegister { header: u8 },
    ReadFifo { fill: Vec<u8> },
    Write { frame: Vec<u8> },
    Modify { read: u8, write: u8, patch: Patch },
}

impl View for Operation {
    type V = OperationView;

    closed spec fn view(&self) -> OperationView {
        match self {
            Operation::Idle => OperationView::Idle,
            Operation::ReadRegister { header } => OperationView::ReadRegister { header: *header },
            Operation::ReadFifo { fill } => OperationView::ReadFifo { fill: fill@ },
            Operation::Write { frame } => OperationView::Write { frame: frame@ },
            Operation::Modify { read, write, patch } => OperationView::Modify {
                read: *read,
                write: *write,
                patch: *patch,
            },
        }
    }
}

/// The operation under way with what it has read so far.
pub struct Exchange {
    operation: Operation,
    done: u8,
    byte: u8,
    length: u8,
    addr: u8,
    payload: Vec<u8>,
}

impl View for Exchange {
    type V = Transaction;

    closed spec fn view(&self) -> Transaction {
        Transaction {
            operation: self.operation@,
            done: self.done as nat,
            byte: self.byte,
            length: self.length,
            addr: self.addr,
            payload: self.payload@,
        }
    }
}

impl Exchange {
    /// An exchange with nothing under way.
    pub fn new() -> (made: Exchange)
        ensures
            made@ == Transaction::idle(),
    {
        Exchange {
            operation: Operation::Idle,
            done: 0,
            byte: 0,
            length: 0,
            addr: 0,
            payload: Vec::new(),
        }
    }

    /// Puts `operation` in place of whatever was under way.
    fn begin(&mut self, operation: Operation) -> (request: Request)
        ensures
            final(self)@ == Transaction::begun(operation@),
            request@ == RequestView::Select,
    {
        self.operation = operation;
        self.done = 0;
        self.byte = 0;
        self.length = 0;
        self.addr = 0;
        self.payload = Vec::new();
        Request::Select
    }
}

/// The low level of the driver. It owns the serial bus, the chip-select
/// line and the status line, which it never uses itself, and keeps the
/// state of the operation under way.
pub struct Cc1101<SPI, CS, GDO2> {
    /// The serial bus.
    pub spi: SPI,
    /// The chip-select line.
    pub cs: CS,
    /// The status line.
    pub gdo2: GDO2,
    /// The operation under way.
    pub exchange: Exchange,
}

impl<SPI, CS, GDO2> Cc1101<SPI, CS, GDO2> {
    /// The state of the operation under way.
    pub open spec fn transaction(&self) -> Transaction {
        self.exchange@
    }

    /// Whether the transport handles are those of `other`.
    pub open spec fn same_handles(&self, other: &Self) -> bool {
        self.spi == other.spi && self.cs == other.cs && self.gdo2 == other.gdo2
    }

    /// Takes hold of the transport. Nothing is under way.
    pub fn new<SpiE, GpioE>(spi: SPI, cs: CS, gdo2: GDO2) -> (made: Result<
        Self,
        Error<SpiE, GpioE>,
    >)
        ensures
            made matches Ok(driver) && driver.spi == spi && driver.cs == cs && driver.gdo2 == gdo2
                && driver.transaction() == Transaction::idle(),
    {
        Ok(Cc1101 { spi, cs, gdo2, exchange: Exchange::new() })
    }

    /// Begins the read of one register: select, send the read header and a
    /// filler byte, deselect. The byte that comes back in second place is
    /// the result.
    pub fn read_register(&mut self, reg: Register) -> (request: Request)
        ensures
            final(self).transaction() == Transaction::begun(
                OperationView::ReadRegister { header: reg.read_address() },
            ),
            final(self).same_handles(old(self)),
            request@ == RequestView::Select,
    {
        self.exchange.begin(Operation::ReadRegister { header: reg.raddr() })
    }

    /// Begins a burst read of the RX FIFO: select, send the burst read
    /// header and two filler bytes, which bring the length and the address
    /// back, then as many bytes as `buf` holds, which bring the payload
    /// back, and deselect.
    pub fn read_fifo(&mut self, buf: &[u8]) -> (request: Request)
        ensures
            final(self).transaction() == Transaction::begun(OperationView::ReadFifo { fill: buf@ }),
            final(self).same_handles(old(self)),
            request@ == RequestView::Select,
    {
        self.exchange.begin(Operation::ReadFifo { fill: copy_bytes(buf) })
    }

    /// Begins a command strobe: select, send the one header byte, deselect.
    pub fn write_strobe(&mut self, com: Command) -> (request: Request)
        ensures
            final(self).transaction() == Transaction::begun(
                OperationView::Write { frame: seq![com.base()] },
            ),
            final(self).same_handles(old(self)),
            request@ == RequestView::Select,
    {
        let mut frame: Vec<u8> = Vec::new();
        frame.push(com.addr());
        assert(frame@ =~= seq![com.base()]);
        self.exchange.begin(Operation::Write { frame })
    }

    /// Begins the write of one register: select, send the write header and
    /// the byte, deselect.
    pub fn write_register(&mut self, reg: Register, byte: u8) -> (request: Request)
        ensures
            final(self).transaction() == Transaction::begun(
                OperationView::Write { frame: seq![reg.write_address(), byte] },
            ),
            final(self).same_handles(old(self)),
            request@ == RequestView::Select,
    {
        let mut frame: Vec<u8> = Vec::new();
        frame.push(reg.waddr());
        frame.push(byte);
        assert(frame@ =~= seq![reg.write_address(), byte]);
        self.exchange.begin(Operation::Write { frame })
    }

    /// Begins a burst write: select, send the burst write header followed
    /// by all of `bytes`, deselect.
    pub fn write_burst(&mut self, reg: Register, bytes: &[u8]) -> (request: Request)
        ensures
            final(self).transaction() == Transaction::begun(
                OperationView::Write { frame: seq![reg.burst_write_address()] + bytes@ },
            ),
            final(self).same_handles(old(self)),
            request@ == RequestView::Select,
    {
        let mut frame: Vec<u8> = Vec::new();
        frame.push(reg.burst_waddr());
        let mut at: usize = 0;
        while at < bytes.len()
            invariant
                at <= bytes@.len(),
                frame@ == seq![reg.burst_write_address()] + bytes@.subrange(0, at as int),
            decreases bytes@.len() - at,
        {
            frame.push(bytes[at]);
            at = at + 1;
            assert(frame@ =~= seq![reg.burst_write_address()] + bytes@.subrange(0, at as int));
        }
        assert(bytes@.subrange(0, at as int) =~= bytes@);
        self.exchange.begin(Operation::Write { frame })
    }

    /// Begins a read-modify-write of one register: the register is read,
    /// the byte changed by `patch` and written back, in two transactions.
    /// Nothing keeps another user of the bus from coming in between.
    pub fn modify_register(&mut self, reg: Register, patch: Patch) -> (request: Request)
        ensures
            final(self).transaction() == Transaction::begun(
                OperationView::Modify {
                    read: reg.read_address(),
                    write: reg.write_address(),
                    patch,
                },
            ),
            final(self).same_handles(old(self)),
            request@ == RequestView::Select,
    {
        self.exchange.begin(Operation::Modify { read: reg.raddr(), write: reg.waddr(), patch })
    }

    /// The request that is outstanding, if any.
    pub fn pending(&self) -> (request: Option<Request>)
        ensures
            request is Some == self.transaction().busy(),
            request matches Some(asked) ==> asked@ == self.transaction().outstanding(),
    {
        self.exchange.pending()
    }
}

impl Exchange {
    /// The request that is outstanding, if any.
    pub fn pending(&self) -> (request: Option<Request>)
        ensures
            request is Some == self@.busy(),
            request matches Some(asked) ==> asked@ == self@.outstanding(),
    {
        match &self.operation {
            Operation::Idle => None,
            Operation::ReadRegister { header } => {
                if self.done == 0 {
                    Some(Request::Select)
                } else if self.done == 1 {
                    Some(Request::Transfer(pair(*header, 0)))
                } else if self.done == 2 {
                    Some(Request::Deselect)
                } else {
                    None
                }
            },
            Operation::ReadFifo { fill } => {
                if self.done == 0 {
                    Some(Request::Select)
                } else if self.done == 1 {
                    let mut head = pair(FIFO_BURST_READ, 0);
                    head.push(0);
                    assert(head@ =~= seq![FIFO_BURST_READ, 0u8, 0u8]);
                    Some(Request::Transfer(head))
                } else if self.done == 2 {
                    Some(Request::Transfer(copy_bytes(fill.as_slice())))
                } else if self.done == 3 {
                    Some(Request::Deselect)
                } else {
                    None
                }
            },
            Operation::Write { frame } => {
                if self.done == 0 {
                    Some(Request::Select)
                } else if self.done == 1 {
                    Some(Request::Write(copy_bytes(frame.as_slice())))
                } else if self.done == 2 {
                    Some(Request::Deselect)
                } else {
                    None
                }
            },
            Operation::Modify { read, write, patch } => {
                if self.done == 0 || self.done == 3 {
                    Some(Request::Select)
                } else if self.done == 1 {
                    Some(Request::Transfer(pair(*read, 0)))
                } else if self.done == 2 || self.done == 5 {
                    Some(Request::Deselect)
                } else if self.done == 4 {
                    Some(Request::Write(pair(*write, patch.apply(self.byte))))
                } else {
                    None
                }
            },
        }
    }
}

impl Exchange {
    /// Keeps what a transfer brought in.
    fn keep(&mut self, data: Vec<u8>)
        requires
            old(self)@.busy(),
            old(self)@.outstanding() matches RequestView::Transfer(sent) && sent.len()
                == data@.len(),
        ensures
            final(self)@ == old(self)@.absorb(data@),
    {
        match &self.operation {
            Operation::ReadRegister { .. } | Operation::Modify { .. } => {
                if self.done == 1 {
                    self.byte = data[1];
                }
            },
            Operation::ReadFifo { .. } => {
                if self.done == 1 {
                    self.length = data[1];
                    self.addr = data[2];
                } else if self.done == 2 {
                    self.payload = data;
                }
            },
            _ => {},
        }
    }

    /// Forgets the operation and hands out what it has read.
    fn finish(&mut self) -> (response: Response)
        ensures
            response@ == old(self)@.response(),
            final(self)@ == Transaction::idle(),
    {
        let mut payload: Vec<u8> = Vec::new();
        core::mem::swap(&mut payload, &mut self.payload);
        let response = match &self.operation {
            Operation::ReadRegister { .. } => Response::Byte(self.byte),
            Operation::ReadFifo { .. } => Response::Packet(
                Packet { length: self.length, addr: self.addr, payload },
            ),
            _ => Response::Done,
        };
        self.operation = Operation::Idle;
        self.done = 0;
        self.byte = 0;
        self.length = 0;
        self.addr = 0;
        response
    }

    /// Moves past the request that was just answered: on to the next
    /// request, or to the end of the operation.
    fn step<SpiE, GpioE>(&mut self) -> (progress: Progress<Response, Error<SpiE, GpioE>>)
        requires
            old(self)@.busy(),
        ensures
            ({
                let moved = Transaction { done: old(self)@.done + 1, ..old(self)@ };
                if moved.busy() {
                    final(self)@ == moved && progress@ == Signal::<
                        ResponseView,
                        Error<SpiE, GpioE>,
                    >::Pending(moved.outstanding())
                } else {
                    final(self)@ == Transaction::idle() && progress@ == Signal::<
                        ResponseView,
                        Error<SpiE, GpioE>,
                    >::Complete(Ok(moved.response()))
                }
            }),
    {
        self.done = self.done + 1;
        match self.pending() {
            Some(request) => Progress::Pending(request),
            None => Progress::Complete(Ok(self.finish())),
        }
    }

    /// Takes the transport's reply to the outstanding request and says how
    /// the operation goes on.
    pub fn resume<SpiE, GpioE>(&mut self, reply: Reply<SpiE, GpioE>) -> (progress: Progress<
        Response,
        Error<SpiE, GpioE>,
    >)
        ensures
            final(self)@ == old(self)@.next(reply).0,
            progress@ == old(self)@.next(reply).1,
    {
        let request = match self.pending() {
            None => {
                return Progress::Idle;
            },
            Some(request) => request,
        };
        match reply {
            Reply::Done => match request {
                Request::Select | Request::Deselect | Request::Write(_) => self.step(),
                other => Progress::Pending(other),
            },
            Reply::Data(data) => match request {
                Request::Transfer(sent) => {
                    if data.len() == sent.len() {
                        self.keep(data);
                        self.step()
                    } else {
                        Progress::Pending(Request::Transfer(sent))
                    }
                },
                other => Progress::Pending(other),
            },
            Reply::Line(_) => match request {
                Request::ReadLine => self.step(),
                other => Progress::Pending(other),
            },
            Reply::SpiFault(fault) => match request {
                Request::Transfer(_) | Request::Write(_) => {
                    let _ = self.finish();
                    Progress::Complete(Err(Error::Spi(fault)))
                },
                other => Progress::Pending(other),
            },
            Reply::LineFault(fault) => match request {
                Request::Select | Request::Deselect | Request::ReadLine => {
                    let _ = self.finish();
                    Progress::Complete(Err(Error::Gpio(fault)))
                },
                other => Progress::Pending(other),
            },
        }
    }
}

impl<SPI, CS, GDO2> Cc1101<SPI, CS, GDO2> {
    /// Takes the transport's reply to the outstanding request and says how
    /// the operation goes on: with another request, or no further, with the
    /// operation's result.
    pub fn resume<SpiE, GpioE>(&mut self, reply: Reply<SpiE, GpioE>) -> (progress: Progress<
        Response,
        Error<SpiE, GpioE>,
    >)
        ensures
            final(self).transaction() == old(self).transaction().next(reply).0,
            progress@ == old(self).transaction().next(reply).1,
            final(self).same_handles(old(self)),
    {
        self.exchange.resume(reply)
    }
}

/// A vector of two bytes.
fn pair(first: u8, second: u8) -> (bytes: Vec<u8>)
    ensures
        bytes@ == seq![first, second],
{
    let mut bytes: Vec<u8> = Vec::new();
    bytes.push(first);
    bytes.push(second);
    assert(bytes@ =~= seq![first, second]);
    bytes
}

} // verus!
