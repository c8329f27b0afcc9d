//! The panel driver: the protocol state machine, its fixed command
//! sequences, and the laws that hold of them.
//!
//! Each lifecycle operation returns the exact plan of transport actions
//! the adapter must replay, and its contract pins that plan byte for
//! byte against the spec-level sequence functions below.

use vstd::prelude::*;
use vstd::slice::slice_to_vec;

use crate::bus::{data_written, op_data, ops, BusAction, BusOp};
use crate::color::Color;
use crate::command::Command;

verus! {

/// Width of the panel in pixels.
pub const WIDTH: u32 = 80;

/// Height of the panel in pixels.
pub const HEIGHT: u32 = 128;

/// Bytes of one bit plane: one bit per pixel.
pub const NUM_DISPLAY_BITS: u32 = WIDTH * HEIGHT / 8;

/// The background color a freshly constructed driver holds.
pub const DEFAULT_BACKGROUND_COLOR: Color = Color::White;

/// The busy line's active polarity: the panel holds it low while busy.
pub const IS_BUSY_LOW: bool = true;

/// Milliseconds the reset line is held low during cold init.
pub const RESET_HOLD_MS: u8 = 2;

/// Milliseconds the driver settles after power-on before polling busy.
pub const POWER_ON_SETTLE_MS: u8 = 5;

/// The greyscale waveform table G0, loaded verbatim during cold init.
pub const LUT_W1: [u8; 42] = [
    0x60, 0x5a, 0x5a, 0x00, 0x00, 0x01, 0x84, 0x5a, 0x5a, 0x00, 0x00, 0x01, 0x60, 0x5a, 0x5a,
    0x00, 0x00, 0x01, 0x00, 0x00, 0x00, 0x00, 0x00, 0x00, 0x00, 0x00, 0x00, 0x00, 0x00, 0x00,
    0x00, 0x00, 0x00, 0x00, 0x00, 0x00, 0x00, 0x00, 0x00, 0x00, 0x00, 0x00,
];

/// The greyscale waveform table G1, loaded verbatim during cold init.
pub const LUT_B1: [u8; 42] = [
    0x90, 0x5a, 0x5a, 0x00, 0x00, 0x01, 0x20, 0x5a, 0x5a, 0x00, 0x00, 0x01, 0x90, 0x5a, 0x5a,
    0x00, 0x00, 0x01, 0x00, 0x00, 0x00, 0x00, 0x00, 0x00, 0x00, 0x00, 0x00, 0x00, 0x00, 0x00,
    0x00, 0x00, 0x00, 0x00, 0x00, 0x00, 0x00, 0x00, 0x00, 0x00, 0x00, 0x00,
];

/// A refresh-speed waveform family selector.
///
/// This panel variant has no selectable family, so selecting one is
/// accepted and ignored; the type exists so that callers treating all
/// panel variants uniformly keep compiling.
#[derive(Clone, Copy, PartialEq, Eq, Structural, Debug)]
pub enum RefreshLut {
    /// The full-refresh waveform.
    Full,
    /// The quick-refresh waveform.
    Quick,
}

/// A failure the driver itself signals, as opposed to a transport
/// failure, which only the unverified adapter can observe.
#[derive(Clone, Copy, PartialEq, Eq, Structural, Debug)]
pub enum DriverError {
    /// The requested operation is not supported by this panel variant.
    Unsupported,
    /// A bounded idle wait ran out of polls before the panel reported
    /// idle; distinct from a transport failure on purpose.
    BusyTimeout,
}

/// Whether one sample of the busy line means the panel is busy, held
/// against the panel's polarity.
pub open spec fn spec_is_busy(busy_pin_is_high: bool) -> bool {
    if IS_BUSY_LOW {
        !busy_pin_is_high
    } else {
        busy_pin_is_high
    }
}

/// The plan fragment that sends one opcode followed by parameter bytes.
pub open spec fn cmd_data_ops(c: Command, d: Seq<u8>) -> Seq<BusOp> {
    seq![BusOp::Command(c.spec_address()), BusOp::Data(d)]
}

/// The resolution phase: width packed into the top four bits of one
/// byte (low three bits forced to zero), height as a plain byte.
pub open spec fn resolution_ops() -> Seq<BusOp> {
    seq![
        BusOp::Command(Command::ResolutionSetting.spec_address()),
        BusOp::Data(seq![(WIDTH as u8) & 0b0111_1000]),
        BusOp::Data(seq![HEIGHT as u8]),
    ]
}

/// The LUT-load phase: both greyscale waveform tables, verbatim.
pub open spec fn full_reg_ops() -> Seq<BusOp> {
    cmd_data_ops(Command::LutG0, LUT_W1@) + cmd_data_ops(Command::LutG1, LUT_B1@)
}

/// The cold-init sequence: reset pulse, the fixed register writes in
/// their documented order, resolution, the two LUT loads, power-on,
/// settle delay, then one idle wait.
pub open spec fn init_ops() -> Seq<BusOp> {
    seq![BusOp::Reset(RESET_HOLD_MS)]
        + cmd_data_ops(Command::UnknownInit, seq![0x3fu8])
        + cmd_data_ops(Command::PanelSetting, seq![0x6fu8])
        + cmd_data_ops(Command::PowerSetting, seq![0x03u8, 0x00u8, 0x2bu8, 0x2bu8])
        + cmd_data_ops(Command::ChargePumpSetting, seq![0x3fu8])
        + cmd_data_ops(Command::LutOpt, seq![0x00u8, 0x00u8])
        + cmd_data_ops(Command::PllControl, seq![0x17u8])
        + cmd_data_ops(Command::VcomAndDataIntervalSetting, seq![0x57u8])
        + cmd_data_ops(Command::GateAndSourceNonOverlapPeriod, seq![0x22u8])
        + resolution_ops()
        + cmd_data_ops(Command::VcmDcSetting, seq![0x12u8])
        + cmd_data_ops(Command::PowerSaving, seq![0x33u8])
        + full_reg_ops()
        + seq![
            BusOp::Command(Command::PowerOn.spec_address()),
            BusOp::DelayMs(POWER_ON_SETTLE_MS),
            BusOp::WaitUntilIdle,
        ]
}

/// The sleep sequence: wait idle, power off, wait idle again, then
/// deep sleep with its fixed check byte.
pub open spec fn sleep_ops() -> Seq<BusOp> {
    seq![
        BusOp::WaitUntilIdle,
        BusOp::Command(Command::PowerOff.spec_address()),
        BusOp::WaitUntilIdle,
    ] + cmd_data_ops(Command::DeepSleep, seq![0xa5u8])
}

/// The frame-update sequence for background color `c` and frame bytes
/// `buffer`: flood-fill the chromatic plane with `c`'s byte, wait
/// idle, then stream `buffer` verbatim as the monochrome plane.  The
/// flood must precede the real data; the panel latches in that order.
pub open spec fn update_frame_ops(c: Color, buffer: Seq<u8>) -> Seq<BusOp> {
    seq![
        BusOp::Command(Command::DataStartTransmission1.spec_address()),
        BusOp::DataRepeat(c.spec_byte_value(), NUM_DISPLAY_BITS),
        BusOp::WaitUntilIdle,
    ] + cmd_data_ops(Command::DataStartTransmission2, buffer)
}

/// The refresh sequence: the refresh opcode, then one idle wait.
pub open spec fn display_frame_ops() -> Seq<BusOp> {
    seq![
        BusOp::Command(Command::DisplayRefresh.spec_address()),
        BusOp::WaitUntilIdle,
    ]
}

/// Frame update followed by refresh: the common composite operation.
pub open spec fn update_and_display_frame_ops(c: Color, buffer: Seq<u8>) -> Seq<BusOp> {
    update_frame_ops(c, buffer) + display_frame_ops()
}

/// The clear sequence: wait idle, then flood-fill both planes with the
/// default background color's byte.  Deliberately the default color,
/// not the driver's current one: the asymmetry with `update_frame_ops`
/// is part of the panel contract.
pub open spec fn clear_frame_ops() -> Seq<BusOp> {
    seq![
        BusOp::WaitUntilIdle,
        BusOp::Command(Command::DataStartTransmission1.spec_address()),
        BusOp::DataRepeat(DEFAULT_BACKGROUND_COLOR.spec_byte_value(), NUM_DISPLAY_BITS),
        BusOp::Command(Command::DataStartTransmission2.spec_address()),
        BusOp::DataRepeat(DEFAULT_BACKGROUND_COLOR.spec_byte_value(), NUM_DISPLAY_BITS),
    ]
}

/// The resolution payload is bit-exact for the 80 by 128 panel: the
/// width byte is 0x50 (80 with the low three bits forced to zero) and
/// the height byte is 0x80 (128 as a plain byte).
pub proof fn lemma_resolution_payload_bytes()
    ensures
        resolution_ops() == seq![
            BusOp::Command(Command::ResolutionSetting.spec_address()),
            BusOp::Data(seq![0x50u8]),
            BusOp::Data(seq![0x80u8]),
        ],
{
    assert((80u32 as u8) & 0b0111_1000 == 0x50u8) by (bit_vector);
    assert((128u32 as u8) == 0x80u8) by (bit_vector);
    assert(seq![(WIDTH as u8) & 0b0111_1000] =~= seq![0x50u8]);
    assert(seq![HEIGHT as u8] =~= seq![0x80u8]);
    assert(resolution_ops() =~~= seq![
        BusOp::Command(Command::ResolutionSetting.spec_address()),
        BusOp::Data(seq![0x50u8]),
        BusOp::Data(seq![0x80u8]),
    ]);
}

/// Cold init, written out flat: reset, the register writes with their
/// documented payload bytes in their documented order, the resolution
/// bytes, the two waveform tables, power-on, the settle delay and one
/// idle wait — and nothing else.
pub proof fn lemma_init_sequence()
    ensures
        init_ops() == seq![
            BusOp::Reset(2),
            BusOp::Command(0xd2),
            BusOp::Data(seq![0x3fu8]),
            BusOp::Command(0x00),
            BusOp::Data(seq![0x6fu8]),
            BusOp::Command(0x01),
            BusOp::Data(seq![0x03u8, 0x00u8, 0x2bu8, 0x2bu8]),
            BusOp::Command(0x06),
            BusOp::Data(seq![0x3fu8]),
            BusOp::Command(0x2a),
            BusOp::Data(seq![0x00u8, 0x00u8]),
            BusOp::Command(0x30),
            BusOp::Data(seq![0x17u8]),
            BusOp::Command(0x50),
            BusOp::Data(seq![0x57u8]),
            BusOp::Command(0x60),
            BusOp::Data(seq![0x22u8]),
            BusOp::Command(0x61),
            BusOp::Data(seq![0x50u8]),
            BusOp::Data(seq![0x80u8]),
            BusOp::Command(0x82),
            BusOp::Data(seq![0x12u8]),
            BusOp::Command(0xe3),
            BusOp::Data(seq![0x33u8]),
            BusOp::Command(0x23),
            BusOp::Data(LUT_W1@),
            BusOp::Command(0x24),
            BusOp::Data(LUT_B1@),
            BusOp::Command(0x04),
            BusOp::DelayMs(5),
            BusOp::WaitUntilIdle,
        ],
{
    lemma_resolution_payload_bytes();
    assert(init_ops() =~~= seq![
        BusOp::Reset(2),
        BusOp::Command(0xd2),
        BusOp::Data(seq![0x3fu8]),
        BusOp::Command(0x00),
        BusOp::Data(seq![0x6fu8]),
        BusOp::Command(0x01),
        BusOp::Data(seq![0x03u8, 0x00u8, 0x2bu8, 0x2bu8]),
        BusOp::Command(0x06),
        BusOp::Data(seq![0x3fu8]),
        BusOp::Command(0x2a),
        BusOp::Data(seq![0x00u8, 0x00u8]),
        BusOp::Command(0x30),
        BusOp::Data(seq![0x17u8]),
        BusOp::Command(0x50),
        BusOp::Data(seq![0x57u8]),
        BusOp::Command(0x60),
        BusOp::Data(seq![0x22u8]),
        BusOp::Command(0x61),
        BusOp::Data(seq![0x50u8]),
        BusOp::Data(seq![0x80u8]),
        BusOp::Command(0x82),
        BusOp::Data(seq![0x12u8]),
        BusOp::Command(0xe3),
        BusOp::Data(seq![0x33u8]),
        BusOp::Command(0x23),
        BusOp::Data(LUT_W1@),
        BusOp::Command(0x24),
        BusOp::Data(LUT_B1@),
        BusOp::Command(0x04),
        BusOp::DelayMs(5),
        BusOp::WaitUntilIdle,
    ]);
}

/// Clearing the frame writes exactly `2 * WIDTH * HEIGHT / 8` data
/// bytes, each the default background color's byte, as two equal
/// flood-fills; the driver's current color plays no part.
pub proof fn lemma_clear_frame_floods_default()
    ensures
        data_written(clear_frame_ops()).len() == 2 * NUM_DISPLAY_BITS,
        forall|i: int|
            0 <= i < data_written(clear_frame_ops()).len() ==> data_written(clear_frame_ops())[i]
                == DEFAULT_BACKGROUND_COLOR.spec_byte_value(),
{
    let b = DEFAULT_BACKGROUND_COLOR.spec_byte_value();
    let n = NUM_DISPLAY_BITS;
    let fill = Seq::<u8>::new(n as nat, |i: int| b);
    let s0 = clear_frame_ops();
    let s1 = seq![
        BusOp::Command(Command::DataStartTransmission1.spec_address()),
        BusOp::DataRepeat(b, n),
        BusOp::Command(Command::DataStartTransmission2.spec_address()),
        BusOp::DataRepeat(b, n),
    ];
    let s2 = seq![
        BusOp::DataRepeat(b, n),
        BusOp::Command(Command::DataStartTransmission2.spec_address()),
        BusOp::DataRepeat(b, n),
    ];
    let s3 = seq![
        BusOp::Command(Command::DataStartTransmission2.spec_address()),
        BusOp::DataRepeat(b, n),
    ];
    let s4 = seq![BusOp::DataRepeat(b, n)];
    assert(s0.drop_first() =~= s1);
    assert(s1.drop_first() =~= s2);
    assert(s2.drop_first() =~= s3);
    assert(s3.drop_first() =~= s4);
    assert(s4.drop_first() =~= Seq::<BusOp>::empty());
    assert(data_written(s0) == op_data(s0.first()) + data_written(s1));
    assert(data_written(s1) == op_data(s1.first()) + data_written(s2));
    assert(data_written(s2) == op_data(s2.first()) + data_written(s3));
    assert(data_written(s3) == op_data(s3.first()) + data_written(s4));
    assert(data_written(s4) == op_data(s4.first()) + data_written(Seq::<BusOp>::empty()));
    assert(data_written(Seq::<BusOp>::empty()) == Seq::<u8>::empty());
    assert(data_written(s0) =~= fill + fill);
    assert forall|i: int| 0 <= i < data_written(s0).len() implies data_written(s0)[i] == b by {
        assert((fill + fill)[i] == b);
    }
}

/// A frame update streams exactly `WIDTH * HEIGHT / 8` bytes of the
/// current background color's byte, followed by the caller's buffer
/// verbatim, in that order.
pub proof fn lemma_update_frame_writes(c: Color, buffer: Seq<u8>)
    ensures
        data_written(update_frame_ops(c, buffer)) == Seq::<u8>::new(
            NUM_DISPLAY_BITS as nat,
            |i: int| c.spec_byte_value(),
        ) + buffer,
{
    let b = c.spec_byte_value();
    let n = NUM_DISPLAY_BITS;
    let fill = Seq::<u8>::new(n as nat, |i: int| b);
    let s0 = update_frame_ops(c, buffer);
    let s1 = seq![
        BusOp::DataRepeat(b, n),
        BusOp::WaitUntilIdle,
        BusOp::Command(Command::DataStartTransmission2.spec_address()),
        BusOp::Data(buffer),
    ];
    let s2 = seq![
        BusOp::WaitUntilIdle,
        BusOp::Command(Command::DataStartTransmission2.spec_address()),
        BusOp::Data(buffer),
    ];
    let s3 = seq![
        BusOp::Command(Command::DataStartTransmission2.spec_address()),
        BusOp::Data(buffer),
    ];
    let s4 = seq![BusOp::Data(buffer)];
    assert(s0.drop_first() =~= s1);
    assert(s1.drop_first() =~= s2);
    assert(s2.drop_first() =~= s3);
    assert(s3.drop_first() =~= s4);
    assert(s4.drop_first() =~= Seq::<BusOp>::empty());
    assert(data_written(s0) == op_data(s0.first()) + data_written(s1));
    assert(data_written(s1) == op_data(s1.first()) + data_written(s2));
    assert(data_written(s2) == op_data(s2.first()) + data_written(s3));
    assert(data_written(s3) == op_data(s3.first()) + data_written(s4));
    assert(data_written(s4) == op_data(s4.first()) + data_written(Seq::<BusOp>::empty()));
    assert(data_written(Seq::<BusOp>::empty()) == Seq::<u8>::empty());
    assert(data_written(s0) =~= fill + buffer);
}

/// Appends one action to a plan.
fn push_action(dst: &mut Vec<BusAction>, a: BusAction)
    ensures
        ops(final(dst)@) == ops(old(dst)@).push(a@),
{
    let ghost dst0 = dst@;
    let ghost av = a@;
    dst.push(a);
    proof {
        assert(ops(dst@) =~= ops(dst0).push(av));
    }
}

/// Appends the second plan to the first.
fn append_plan(dst: &mut Vec<BusAction>, src: Vec<BusAction>)
    ensures
        ops(final(dst)@) == ops(old(dst)@) + ops(src@),
{
    let ghost dst0 = dst@;
    let ghost src0 = src@;
    let mut s = src;
    dst.append(&mut s);
    proof {
        assert(ops(dst@) =~= ops(dst0) + ops(src0));
    }
}

/// The panel driver's logical state: the four control lines and the
/// bus handle live with the unverified adapter; the driver holds what
/// the protocol decisions depend on.
pub struct Epd1in02 {
    color: Color,
}

impl Epd1in02 {
    /// The logical background color the driver currently holds.
    pub closed spec fn spec_background_color(self) -> Color {
        self.color
    }

    /// Constructs the driver with the default background color,
    /// together with the cold-init plan that must run before the panel
    /// accepts frame data.
    pub fn new() -> (r: (Epd1in02, Vec<BusAction>))
        ensures
            r.0.spec_background_color() == DEFAULT_BACKGROUND_COLOR,
            ops(r.1@) == init_ops(),
    {
        let epd = Epd1in02 { color: DEFAULT_BACKGROUND_COLOR };
        let p = epd.init();
        (epd, p)
    }

    /// Returns the cold-init plan.
    pub fn init(&self) -> (p: Vec<BusAction>)
        ensures
            ops(p@) == init_ops(),
    {
        let mut p: Vec<BusAction> = Vec::new();
        push_action(&mut p, BusAction::Reset(RESET_HOLD_MS));
        append_plan(&mut p, self.cmd_with_data(Command::UnknownInit, &[0x3f]));
        append_plan(&mut p, self.cmd_with_data(Command::PanelSetting, &[0x6f]));
        append_plan(&mut p, self.cmd_with_data(Command::PowerSetting, &[0x03, 0x00, 0x2b, 0x2b]));
        append_plan(&mut p, self.cmd_with_data(Command::ChargePumpSetting, &[0x3f]));
        append_plan(&mut p, self.cmd_with_data(Command::LutOpt, &[0x00, 0x00]));
        append_plan(&mut p, self.cmd_with_data(Command::PllControl, &[0x17]));
        append_plan(&mut p, self.cmd_with_data(Command::VcomAndDataIntervalSetting, &[0x57]));
        append_plan(&mut p, self.cmd_with_data(Command::GateAndSourceNonOverlapPeriod, &[0x22]));
        append_plan(&mut p, self.send_resolution());
        append_plan(&mut p, self.cmd_with_data(Command::VcmDcSetting, &[0x12]));
        append_plan(&mut p, self.cmd_with_data(Command::PowerSaving, &[0x33]));
        append_plan(&mut p, self.set_full_reg());
        append_plan(&mut p, self.command(Command::PowerOn));
        push_action(&mut p, BusAction::DelayMs(POWER_ON_SETTLE_MS));
        append_plan(&mut p, self.wait_until_idle());
        proof {
            assert(ops(p@) =~~= init_ops());
        }
        p
    }

    /// Returns the sleep plan, which parks the panel in deep sleep.
    pub fn sleep(&self) -> (p: Vec<BusAction>)
        ensures
            ops(p@) == sleep_ops(),
    {
        let mut p = self.wait_until_idle();
        append_plan(&mut p, self.command(Command::PowerOff));
        append_plan(&mut p, self.wait_until_idle());
        append_plan(&mut p, self.cmd_with_data(Command::DeepSleep, &[0xa5]));
        proof {
            assert(ops(p@) =~~= sleep_ops());
        }
        p
    }

    /// Returns the wake plan: the panel has no warm-wake path, so this
    /// is the cold-init sequence again, byte for byte.
    pub fn wake_up(&self) -> (p: Vec<BusAction>)
        ensures
            ops(p@) == init_ops(),
    {
        self.init()
    }

    /// Records the background color used for later frame updates.
    /// Purely logical: no transport action is produced.
    pub fn set_background_color(&mut self, color: Color)
        ensures
            final(self).spec_background_color() == color,
    {
        self.color = color;
    }

    /// Returns the background color the driver currently holds.
    /// Purely logical: no transport action is produced.
    pub fn background_color(&self) -> (r: &Color)
        ensures
            *r == self.spec_background_color(),
    {
        &self.color
    }

    /// Returns the panel width in pixels.
    pub fn width(&self) -> (r: u32)
        ensures
            r == WIDTH,
    {
        WIDTH
    }

    /// Returns the panel height in pixels.
    pub fn height(&self) -> (r: u32)
        ensures
            r == HEIGHT,
    {
        HEIGHT
    }

    /// Returns the frame-update plan for the given monochrome buffer:
    /// a flood-fill of the chromatic plane with the current background
    /// color, an idle wait, then the buffer verbatim.
    pub fn update_frame(&self, buffer: &[u8]) -> (p: Vec<BusAction>)
        ensures
            ops(p@) == update_frame_ops(self.spec_background_color(), buffer@),
    {
        let color = self.color.get_byte_value();
        let mut p = self.command(Command::DataStartTransmission1);
        push_action(&mut p, BusAction::DataRepeat(color, NUM_DISPLAY_BITS));
        append_plan(&mut p, self.wait_until_idle());
        append_plan(&mut p, self.cmd_with_data(Command::DataStartTransmission2, buffer));
        proof {
            assert(ops(p@) =~~= update_frame_ops(self.spec_background_color(), buffer@));
        }
        p
    }

    /// Partial-area refresh is not supported by this panel variant:
    /// the call fails for every argument and produces no transport
    /// action at all.
    pub fn update_partial_frame(
        &self,
        buffer: &[u8],
        x: u32,
        y: u32,
        width: u32,
        height: u32,
    ) -> (r: Result<Vec<BusAction>, DriverError>)
        ensures
            r is Err,
            r->Err_0 == DriverError::Unsupported,
    {
        Err(DriverError::Unsupported)
    }

    /// Returns the refresh plan, the operation that actually drives
    /// the optical update.
    pub fn display_frame(&self) -> (p: Vec<BusAction>)
        ensures
            ops(p@) == display_frame_ops(),
    {
        let mut p = self.command(Command::DisplayRefresh);
        append_plan(&mut p, self.wait_until_idle());
        proof {
            assert(ops(p@) =~~= display_frame_ops());
        }
        p
    }

    /// Returns the frame-update plan followed by the refresh plan.
    pub fn update_and_display_frame(&self, buffer: &[u8]) -> (p: Vec<BusAction>)
        ensures
            ops(p@) == update_and_display_frame_ops(self.spec_background_color(), buffer@),
    {
        let mut p = self.update_frame(buffer);
        append_plan(&mut p, self.display_frame());
        p
    }

    /// Returns the clear plan: both planes flood-filled with the
    /// default background color, not the current one.
    pub fn clear_frame(&self) -> (p: Vec<BusAction>)
        ensures
            ops(p@) == clear_frame_ops(),
    {
        let color = DEFAULT_BACKGROUND_COLOR.get_byte_value();
        let mut p = self.wait_until_idle();
        append_plan(&mut p, self.command(Command::DataStartTransmission1));
        push_action(&mut p, BusAction::DataRepeat(color, NUM_DISPLAY_BITS));
        append_plan(&mut p, self.command(Command::DataStartTransmission2));
        push_action(&mut p, BusAction::DataRepeat(color, NUM_DISPLAY_BITS));
        proof {
            assert(ops(p@) =~~= clear_frame_ops());
        }
        p
    }

    /// Selecting a refresh waveform family succeeds with an empty plan
    /// for every argument: this panel variant has none to select, and
    /// generic callers must not be broken by that.
    pub fn set_lut(&self, refresh_rate: Option<RefreshLut>) -> (r: Result<
        Vec<BusAction>,
        DriverError,
    >)
        ensures
            r is Ok,
            ops(r->Ok_0@) == Seq::<BusOp>::empty(),
    {
        let p: Vec<BusAction> = Vec::new();
        proof {
            assert(ops(p@) =~= Seq::<BusOp>::empty());
        }
        Ok(p)
    }

    /// Decides from one sample of the busy line whether the panel is
    /// still busy, holding the sample against the panel's polarity.
    pub fn is_busy(&self, busy_pin_is_high: bool) -> (r: bool)
        ensures
            r == spec_is_busy(busy_pin_is_high),
    {
        if IS_BUSY_LOW {
            !busy_pin_is_high
        } else {
            busy_pin_is_high
        }
    }

    /// Decides one step of a bounded idle wait, for callers who cannot
    /// afford the unbounded blocking poll: an idle sample ends the
    /// wait at once, a busy sample spends one of the remaining polls,
    /// and a busy sample with none left fails with the timeout signal.
    pub fn poll_step(&self, tries_left: u32, busy_pin_is_high: bool) -> (r: Result<
        Option<u32>,
        DriverError,
    >)
        ensures
            !spec_is_busy(busy_pin_is_high) ==> r == Result::<Option<u32>, DriverError>::Ok(
                None,
            ),
            spec_is_busy(busy_pin_is_high) && tries_left > 0 ==> r == Result::<
                Option<u32>,
                DriverError,
            >::Ok(Some((tries_left - 1) as u32)),
            spec_is_busy(busy_pin_is_high) && tries_left == 0 ==> r == Result::<
                Option<u32>,
                DriverError,
            >::Err(DriverError::BusyTimeout),
    {
        if !self.is_busy(busy_pin_is_high) {
            Ok(None)
        } else if tries_left > 0 {
            Ok(Some(tries_left - 1))
        } else {
            Err(DriverError::BusyTimeout)
        }
    }

    /// Returns the plan that sends one opcode byte in command mode.
    pub fn command(&self, command: Command) -> (p: Vec<BusAction>)
        ensures
            ops(p@) == seq![BusOp::Command(command.spec_address())],
    {
        let mut p: Vec<BusAction> = Vec::new();
        p.push(BusAction::Command(command.address()));
        proof {
            assert(ops(p@) =~= seq![BusOp::Command(command.spec_address())]);
        }
        p
    }

    /// Returns the plan that streams the given bytes in data mode.
    pub fn send_data(&self, data: &[u8]) -> (p: Vec<BusAction>)
        ensures
            ops(p@) == seq![BusOp::Data(data@)],
    {
        let mut p: Vec<BusAction> = Vec::new();
        p.push(BusAction::Data(slice_to_vec(data)));
        proof {
            assert(ops(p@) =~~= seq![BusOp::Data(data@)]);
        }
        p
    }

    /// Returns the plan that sends an opcode followed by its parameter
    /// bytes, as a single logical unit.
    pub fn cmd_with_data(&self, command: Command, data: &[u8]) -> (p: Vec<BusAction>)
        ensures
            ops(p@) == cmd_data_ops(command, data@),
    {
        let mut p: Vec<BusAction> = Vec::new();
        p.push(BusAction::Command(command.address()));
        p.push(BusAction::Data(slice_to_vec(data)));
        proof {
            assert(ops(p@) =~~= cmd_data_ops(command, data@));
        }
        p
    }

    /// Returns the plan that blocks until the busy line reports idle.
    pub fn wait_until_idle(&self) -> (p: Vec<BusAction>)
        ensures
            ops(p@) == seq![BusOp::WaitUntilIdle],
    {
        let mut p: Vec<BusAction> = Vec::new();
        p.push(BusAction::WaitUntilIdle);
        proof {
            assert(ops(p@) =~= seq![BusOp::WaitUntilIdle]);
        }
        p
    }

    /// Returns the resolution phase of cold init.
    pub fn send_resolution(&self) -> (p: Vec<BusAction>)
        ensures
            ops(p@) == resolution_ops(),
    {
        let w = self.width();
        let h = self.height();
        let mut p = self.command(Command::ResolutionSetting);
        append_plan(&mut p, self.send_data(&[(w as u8) & 0b0111_1000]));
        append_plan(&mut p, self.send_data(&[h as u8]));
        proof {
            assert(ops(p@) =~~= resolution_ops());
        }
        p
    }

    /// Returns the LUT-load phase of cold init: both waveform tables.
    pub fn set_full_reg(&self) -> (p: Vec<BusAction>)
        ensures
            ops(p@) == full_reg_ops(),
    {
        let mut p = self.cmd_with_data(Command::LutG0, LUT_W1.as_slice());
        append_plan(&mut p, self.cmd_with_data(Command::LutG1, LUT_B1.as_slice()));
        proof {
            assert(ops(p@) =~~= full_reg_ops());
        }
        p
    }
}

} // verus!

