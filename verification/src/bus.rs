//! The transport vocabulary: atomic actions performed on the panel's bus
//! and control lines, and their mathematical shape.
//!
//! A lifecycle operation of the driver is a sequence of these actions.
//! The unverified adapter that owns the bus handle and the four control
//! lines replays a sequence in order, aborting at the first transport
//! failure, exactly as the panel's timing contract demands.

use vstd::prelude::*;

verus! {

/// One atomic action of the transport adapter.
#[derive(Clone, PartialEq, Eq, Debug)]
pub enum BusAction {
    /// Drive the reset line low, hold it for the given milliseconds,
    /// then release it high.
    Reset(u8),
    /// Assert chip select, switch the data/command line to command
    /// mode, write this one opcode byte, deassert chip select.
    Command(u8),
    /// Assert chip select, switch the data/command line to data mode,
    /// write these bytes, deassert chip select.
    Data(Vec<u8>),
    /// As `Data`, but one byte repeated the given number of times,
    /// without materializing a buffer of that length.
    DataRepeat(u8, u32),
    /// Block for the given number of milliseconds.
    DelayMs(u8),
    /// Poll the busy line until it reports the idle polarity.
    WaitUntilIdle,
}

/// The mathematical shape of one transport action: payloads are
/// sequences rather than vectors.
#[verifier::ext_equal]
pub enum BusOp {
    Reset(u8),
    Command(u8),
    Data(Seq<u8>),
    DataRepeat(u8, u32),
    DelayMs(u8),
    WaitUntilIdle,
}

impl View for BusAction {
    type V = BusOp;

    open spec fn view(&self) -> BusOp {
        match self {
            BusAction::Reset(ms) => BusOp::Reset(*ms),
            BusAction::Command(b) => BusOp::Command(*b),
            BusAction::Data(d) => BusOp::Data(d@),
            BusAction::DataRepeat(b, n) => BusOp::DataRepeat(*b, *n),
            BusAction::DelayMs(ms) => BusOp::DelayMs(*ms),
            BusAction::WaitUntilIdle => BusOp::WaitUntilIdle,
        }
    }
}

/// The shape of a whole action sequence.
pub open spec fn ops(p: Seq<BusAction>) -> Seq<BusOp> {
    p.map_values(|a: BusAction| a@)
}

/// The bytes one action streams over the bus in data mode.
pub open spec fn op_data(a: BusOp) -> Seq<u8> {
    match a {
        BusOp::Data(d) => d,
        BusOp::DataRepeat(b, n) => Seq::new(n as nat, |i: int| b),
        _ => Seq::empty(),
    }
}

/// All bytes a sequence of actions streams over the bus in data mode,
/// in transmission order.
pub open spec fn data_written(s: Seq<BusOp>) -> Seq<u8>
    decreases s.len(),
{
    if s.len() == 0 {
        Seq::empty()
    } else {
        op_data(s.first()) + data_written(s.drop_first())
    }
}

} // verus!
