//! What the driver and the transport say to each other. The driver never
//! touches the serial bus or a line itself: it hands out one request at a
//! time, and whoever owns the transport performs it and hands back the
//! reply.

use vstd::prelude::*;

verus! {

/// Level of a digital line.
#[derive(Clone, Copy, Debug, PartialEq, Eq, Structural)]
pub enum Level {
    /// The line is low.
    Low,
    /// The line is high.
    High,
}

/// One thing that the driver asks of the transport.
#[derive(Debug, PartialEq, Eq)]
pub enum Request {
    /// Drive the chip-select line low.
    Select,
    /// Drive the chip-select line high.
    Deselect,
    /// Clock these bytes out and hand back the bytes clocked in meanwhile,
    /// as many as were sent.
    Transfer(Vec<u8>),
    /// Clock these bytes out and drop what comes in.
    Write(Vec<u8>),
    /// Sample the status line.
    ReadLine,
}

/// A request as a value of specifications.
pub enum RequestView {
    /// Drive the chip-select line low.
    Select,
    /// Drive the chip-select line high.
    Deselect,
    /// Clock the bytes out and hand back what came in.
    Transfer(Seq<u8>),
    /// Clock the bytes out.
    Write(Seq<u8>),
    /// Sample the status line.
    ReadLine,
}

impl View for Request {
    type V = RequestView;

    open spec fn view(&self) -> RequestView {
        match self {
            Request::Select => RequestView::Select,
            Request::Deselect => RequestView::Deselect,
            Request::Transfer(bytes) => RequestView::Transfer(bytes@),
            Request::Write(bytes) => RequestView::Write(bytes@),
            Request::ReadLine => RequestView::ReadLine,
        }
    }
}

/// What the transport made of a request.
#[derive(Debug, PartialEq, Eq)]
pub enum Reply<SpiE, GpioE> {
    /// The line was driven, or the bytes were written.
    Done,
    /// The bytes that a transfer clocked in.
    Data(Vec<u8>),
    /// The level that the status line was sampled at.
    Line(Level),
    /// The serial bus failed.
    SpiFault(SpiE),
    /// A digital line failed.
    LineFault(GpioE),
}

/// Whether `reply` reports that `request` was carried out. A transfer is
/// carried out only by as many bytes as it sent.
pub open spec fn answers<SpiE, GpioE>(request: RequestView, reply: Reply<SpiE, GpioE>) -> bool {
    match request {
        RequestView::Select | RequestView::Deselect | RequestView::Write(_) => reply is Done,
        RequestView::Transfer(sent) => reply matches Reply::Data(received) && received@.len()
            == sent.len(),
        RequestView::ReadLine => reply is Line,
    }
}

/// Whether `reply` reports that `request` failed: a line fault for a
/// request on a line, a bus fault for one on the serial bus.
pub open spec fn refuses<SpiE, GpioE>(request: RequestView, reply: Reply<SpiE, GpioE>) -> bool {
    match request {
        RequestView::Select | RequestView::Deselect | RequestView::ReadLine => reply is LineFault,
        RequestView::Transfer(_) | RequestView::Write(_) => reply is SpiFault,
    }
}

/// Where an operation stands after a step.
#[derive(Debug, PartialEq, Eq)]
pub enum Progress<T, E> {
    /// No operation is under way.
    Idle,
    /// The operation goes on once this request has been performed.
    Pending(Request),
    /// The operation has ended, with this result.
    Complete(Result<T, E>),
}

/// A `Progress` as a value of specifications.
pub enum Signal<T, E> {
    /// No operation is under way.
    Idle,
    /// The operation goes on once this request has been performed.
    Pending(RequestView),
    /// The operation has ended, with this result.
    Complete(Result<T, E>),
}

impl<T: View, E> View for Progress<T, E> {
    type V = Signal<T::V, E>;

    open spec fn view(&self) -> Signal<T::V, E> {
        match self {
            Progress::Idle => Signal::Idle,
            Progress::Pending(request) => Signal::Pending(request@),
            Progress::Complete(Ok(value)) => Signal::Complete(Ok(value@)),
            Progress::Complete(Err(error)) => Signal::Complete(Err(*error)),
        }
    }
}

/// Copies a run of bytes into a vector of its own.
pub fn copy_bytes(bytes: &[u8]) -> (copy: Vec<u8>)
    ensures
        copy@ == bytes@,
{
    let mut copy: Vec<u8> = Vec::new();
    let mut at: usize = 0;
    while at < bytes.len()
        invariant
            at <= bytes@.len(),
            copy@ == bytes@.subrange(0, at as int),
        decreases bytes@.len() - at,
    {
        copy.push(bytes[at]);
        at = at + 1;
        assert(copy@ =~= bytes@.subrange(0, at as int));
    }
    assert(bytes@.subrange(0, at as int) =~= bytes@);
    copy
}

} // verus!
