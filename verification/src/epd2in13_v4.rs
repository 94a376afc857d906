//! Command sequencing for the 2.13" V4 bi-stable panel.
//!
//! The panel is driven over a half-duplex serial bus plus three control
//! lines (data/command select, reset, busy). Every driver operation is a
//! fixed, byte-exact sequence of bus interactions; this module computes
//! those sequences as plans ([`BusOp`] vectors) with contracts that pin each
//! plan down, and a thin unverified executor replays them on the hardware.

use vstd::prelude::*;
use vstd::slice::slice_index_get;
use vstd::slice::slice_to_vec;

use crate::buffer::Color;
use crate::buffer::bytes_per_row_of;
use crate::buffer::fill_byte;

verus! {

/// Milliseconds slept after each busy reading while a `WaitIdle` polls.
pub const BUSY_POLL_MS: u64 = 10;

/// Milliseconds slept once after the busy line first reads idle.
pub const BUSY_SETTLE_MS: u64 = 10;

/// Line numbers of the three control lines, BCM numbering.
#[derive(Debug, Clone, Copy)]
pub struct EpdPins {
    pub busy: u8,
    pub dc: u8,
    pub rst: u8,
}

/// Refresh waveform selected when a display cycle is triggered.
#[derive(Debug, Clone, Copy, PartialEq, Eq, Structural)]
pub enum UpdateMode {
    Normal,
    Fast,
    Partial,
}

/// Failure raised by the driver before any bus traffic: the supplied image
/// does not hold exactly one bit per panel pixel. Transport failures happen
/// only in the executor that replays a plan, outside this library.
#[derive(Debug, Clone, Copy, PartialEq, Eq, Structural)]
pub enum EpdError {
    BufferSize { expected: usize, actual: usize },
}

/// One interaction with the panel, as the executor must replay it.
#[derive(Debug, Clone, PartialEq, Eq)]
pub enum BusOp {
    /// Assert "command" on the data/command line, write one byte.
    Command(u8),
    /// Assert "data" on the data/command line, write the bytes.
    Data(Vec<u8>),
    /// Drive the reset line to the given level.
    SetReset(bool),
    /// Poll the busy line until it reads idle, sleeping `BUSY_POLL_MS`
    /// after each busy reading, then settle for `BUSY_SETTLE_MS`.
    WaitIdle,
    /// Sleep for the given number of milliseconds.
    SleepMs(u64),
}

/// Mathematical model of one bus interaction.
#[verifier::ext_equal]
pub enum BusOpView {
    Command(u8),
    Data(Seq<u8>),
    SetReset(bool),
    WaitIdle,
    SleepMs(u64),
}

impl View for BusOp {
    type V = BusOpView;

    open spec fn view(&self) -> BusOpView {
        match self {
            BusOp::Command(c) => BusOpView::Command(*c),
            BusOp::Data(d) => BusOpView::Data(d@),
            BusOp::SetReset(level) => BusOpView::SetReset(*level),
            BusOp::WaitIdle => BusOpView::WaitIdle,
            BusOp::SleepMs(ms) => BusOpView::SleepMs(*ms),
        }
    }
}

/// Model of a whole plan.
pub open spec fn plan_view(ops: Seq<BusOp>) -> Seq<BusOpView> {
    ops.map_values(|op: BusOp| op@)
}

/// A command byte followed by its parameter bytes.
pub open spec fn command_data_ops(c: u8, d: Seq<u8>) -> Seq<BusOpView> {
    seq![BusOpView::Command(c), BusOpView::Data(d)]
}

/// Reset pulse: high, low, high, with the panel's fixed settle times.
pub open spec fn reset_ops() -> Seq<BusOpView> {
    seq![
        BusOpView::SetReset(true),
        BusOpView::SleepMs(20),
        BusOpView::SetReset(false),
        BusOpView::SleepMs(2),
        BusOpView::SetReset(true),
        BusOpView::SleepMs(20),
    ]
}

/// RAM window registers: byte-granular X (divided by 8), then Y as
/// little-endian 16-bit pairs.
pub open spec fn set_window_ops(x_start: u16, y_start: u16, x_end: u16, y_end: u16) -> Seq<
    BusOpView,
> {
    command_data_ops(0x44, seq![(x_start / 8) as u8, (x_end / 8) as u8]) + command_data_ops(
        0x45,
        seq![
            (y_start & 0xFF) as u8,
            (y_start >> 8) as u8,
            (y_end & 0xFF) as u8,
            (y_end >> 8) as u8,
        ],
    )
}

/// RAM cursor registers: byte-granular X, little-endian 16-bit Y.
pub open spec fn set_cursor_ops(x: u16, y: u16) -> Seq<BusOpView> {
    command_data_ops(0x4E, seq![(x / 8) as u8]) + command_data_ops(
        0x4F,
        seq![(y & 0xFF) as u8, (y >> 8) as u8],
    )
}

/// Update-control-2 parameter selecting the refresh waveform.
pub open spec fn update_control_byte(mode: UpdateMode) -> u8 {
    match mode {
        UpdateMode::Normal => 0xF7,
        UpdateMode::Fast => 0xC7,
        UpdateMode::Partial => 0xFF,
    }
}

/// Display-refresh cycle: update-control-2, master activation, busy-wait.
pub open spec fn turn_on_ops(mode: UpdateMode) -> Seq<BusOpView> {
    command_data_ops(0x22, seq![update_control_byte(mode)]) + seq![
        BusOpView::Command(0x20),
        BusOpView::WaitIdle,
    ]
}

/// One full frame written into the RAM selected by `command`.
pub open spec fn write_image_ops(command: u8, image: Seq<u8>) -> Seq<BusOpView> {
    seq![BusOpView::Command(command), BusOpView::Data(image)]
}

/// Full initialization: reset, software reset, driver-output control,
/// data-entry mode, window and cursor over the whole panel, border
/// waveform, display-update control, internal temperature sensor.
pub open spec fn init_ops() -> Seq<BusOpView> {
    reset_ops() + seq![BusOpView::WaitIdle, BusOpView::Command(0x12), BusOpView::WaitIdle]
        + command_data_ops(0x01, seq![0xF9u8, 0x00u8, 0x00u8]) + command_data_ops(
        0x11,
        seq![0x03u8],
    ) + set_window_ops(0, 0, (Epd2in13V4::WIDTH - 1) as u16, (Epd2in13V4::HEIGHT - 1) as u16)
        + set_cursor_ops(0, 0) + command_data_ops(0x3C, seq![0x05u8]) + command_data_ops(
        0x21,
        seq![0x00u8, 0x80u8],
    ) + command_data_ops(0x18, seq![0x80u8]) + seq![BusOpView::WaitIdle]
}

/// Abbreviated initialization: temperature-sensor LUT load with the
/// two-phase handshake (write control byte, trigger update, wait idle,
/// twice).
pub open spec fn init_fast_ops() -> Seq<BusOpView> {
    reset_ops() + seq![BusOpView::Command(0x12), BusOpView::WaitIdle] + command_data_ops(
        0x18,
        seq![0x80u8],
    ) + command_data_ops(0x11, seq![0x03u8]) + set_window_ops(
        0,
        0,
        (Epd2in13V4::WIDTH - 1) as u16,
        (Epd2in13V4::HEIGHT - 1) as u16,
    ) + set_cursor_ops(0, 0) + command_data_ops(0x22, seq![0xB1u8]) + seq![
        BusOpView::Command(0x20),
        BusOpView::WaitIdle,
    ] + command_data_ops(0x1A, seq![0x64u8, 0x00u8]) + command_data_ops(0x22, seq![0x91u8]) + seq![
        BusOpView::Command(0x20),
        BusOpView::WaitIdle,
    ]
}

/// One solid row of the panel's width, packed.
pub open spec fn solid_row(fill: u8) -> Seq<u8> {
    Seq::new(bytes_per_row_of(Epd2in13V4::WIDTH as int) as nat, |i: int| fill)
}

/// Full-frame solid fill, one data burst per row, then a Normal refresh.
pub open spec fn clear_ops(fill: u8) -> Seq<BusOpView> {
    seq![BusOpView::Command(0x24u8)] + Seq::new(
        Epd2in13V4::HEIGHT as nat,
        |i: int| BusOpView::Data(solid_row(fill)),
    ) + turn_on_ops(UpdateMode::Normal)
}

/// Full-refresh display cycle.
pub open spec fn display_ops(image: Seq<u8>) -> Seq<BusOpView> {
    write_image_ops(0x24, image) + turn_on_ops(UpdateMode::Normal)
}

/// Fast display cycle: same transfer, fast waveform.
pub open spec fn display_fast_ops(image: Seq<u8>) -> Seq<BusOpView> {
    write_image_ops(0x24, image) + turn_on_ops(UpdateMode::Fast)
}

/// Base-frame display cycle: the image goes into both the current and the
/// "previous" frame RAM, seeding artifact-free partial updates.
pub open spec fn display_base_ops(image: Seq<u8>) -> Seq<BusOpView> {
    write_image_ops(0x24, image) + write_image_ops(0x26, image) + turn_on_ops(UpdateMode::Normal)
}

/// Partial-refresh cycle: shortened reset, border and entry-mode
/// reconfiguration, then a partial-waveform refresh.
pub open spec fn display_partial_ops(image: Seq<u8>) -> Seq<BusOpView> {
    reset_ops() + command_data_ops(0x3C, seq![0x80u8]) + command_data_ops(
        0x01,
        seq![0xF9u8, 0x00u8, 0x00u8],
    ) + command_data_ops(0x11, seq![0x03u8]) + set_window_ops(
        0,
        0,
        (Epd2in13V4::WIDTH - 1) as u16,
        (Epd2in13V4::HEIGHT - 1) as u16,
    ) + set_cursor_ops(0, 0) + write_image_ops(0x24, image) + turn_on_ops(UpdateMode::Partial)
}

/// Deep-sleep command followed by the fixed settle time.
pub open spec fn sleep_ops() -> Seq<BusOpView> {
    command_data_ops(0x10, seq![0x01u8]) + seq![BusOpView::SleepMs(100u64)]
}

/// Byte length of a full frame: bytes-per-row times panel height.
pub open spec fn image_len() -> int {
    bytes_per_row_of(Epd2in13V4::WIDTH as int) * (Epd2in13V4::HEIGHT as int)
}

fn push_op(plan: &mut Vec<BusOp>, op: BusOp)
    ensures
        plan_view(final(plan)@) == plan_view(old(plan)@).push(op@),
{
    let ghost prev = plan@;
    let ghost opv = op@;
    plan.push(op);
    proof {
        assert(plan_view(plan@) =~= plan_view(prev).push(opv));
    }
}

fn vec1(b0: u8) -> (v: Vec<u8>)
    ensures
        v@ == seq![b0],
{
    let mut v: Vec<u8> = Vec::new();
    v.push(b0);
    proof {
        assert(v@ =~= seq![b0]);
    }
    v
}

fn vec2(b0: u8, b1: u8) -> (v: Vec<u8>)
    ensures
        v@ == seq![b0, b1],
{
    let mut v = vec1(b0);
    v.push(b1);
    proof {
        assert(v@ =~= seq![b0, b1]);
    }
    v
}

fn vec3(b0: u8, b1: u8, b2: u8) -> (v: Vec<u8>)
    ensures
        v@ == seq![b0, b1, b2],
{
    let mut v = vec2(b0, b1);
    v.push(b2);
    proof {
        assert(v@ =~= seq![b0, b1, b2]);
    }
    v
}

fn vec4(b0: u8, b1: u8, b2: u8, b3: u8) -> (v: Vec<u8>)
    ensures
        v@ == seq![b0, b1, b2, b3],
{
    let mut v = vec3(b0, b1, b2);
    v.push(b3);
    proof {
        assert(v@ =~= seq![b0, b1, b2, b3]);
    }
    v
}

/// Hardware-free driver for the panel's command protocol. Each operation
/// computes the byte-exact plan the panel requires; an executor outside the
/// library owns the bus and line handles and replays plans in order.
pub struct Epd2in13V4 {
    pins: EpdPins,
    bytes_per_row: usize,
}

impl Epd2in13V4 {
    /// Physical panel width in pixels; not a multiple of 8, so rows are
    /// padded to whole bytes.
    pub const WIDTH: u16 = 122;

    /// Physical panel height in pixels.
    pub const HEIGHT: u16 = 250;

    /// The stored row stride matches the panel geometry.
    pub closed spec fn wf(&self) -> bool {
        self.bytes_per_row == bytes_per_row_of(Self::WIDTH as int)
    }

    /// Control-line assignment the executor should honour.
    pub closed spec fn spec_pins(&self) -> EpdPins {
        self.pins
    }

    /// Driver for the fixed panel geometry, with the given line assignment.
    pub fn new(pins: EpdPins) -> (epd: Self)
        ensures
            epd.wf(),
            epd.spec_pins() == pins,
    {
        let bytes_per_row: usize = ((Self::WIDTH as usize) + 7) / 8;
        Epd2in13V4 { pins, bytes_per_row }
    }

    /// The control-line assignment this driver was created with.
    pub fn pins(&self) -> (p: EpdPins)
        ensures
            p == self.spec_pins(),
    {
        self.pins
    }

    fn command(&self, plan: &mut Vec<BusOp>, command: u8)
        ensures
            plan_view(final(plan)@) == plan_view(old(plan)@).push(BusOpView::Command(command)),
    {
        push_op(plan, BusOp::Command(command));
    }

    fn data(&self, plan: &mut Vec<BusOp>, data: Vec<u8>)
        ensures
            plan_view(final(plan)@) == plan_view(old(plan)@).push(BusOpView::Data(data@)),
    {
        push_op(plan, BusOp::Data(data));
    }

    fn command_data(&self, plan: &mut Vec<BusOp>, command: u8, data: Vec<u8>)
        ensures
            plan_view(final(plan)@) == plan_view(old(plan)@) + command_data_ops(command, data@),
    {
        let ghost dv = data@;
        self.command(plan, command);
        self.data(plan, data);
        proof {
            assert(plan_view(plan@) =~= plan_view(old(plan)@) + command_data_ops(command, dv));
        }
    }

    fn reset(&self, plan: &mut Vec<BusOp>)
        ensures
            plan_view(final(plan)@) == plan_view(old(plan)@) + reset_ops(),
    {
        push_op(plan, BusOp::SetReset(true));
        push_op(plan, BusOp::SleepMs(20));
        push_op(plan, BusOp::SetReset(false));
        push_op(plan, BusOp::SleepMs(2));
        push_op(plan, BusOp::SetReset(true));
        push_op(plan, BusOp::SleepMs(20));
        proof {
            assert(plan_view(plan@) =~= plan_view(old(plan)@) + reset_ops());
        }
    }

    fn wait_until_idle(&self, plan: &mut Vec<BusOp>)
        ensures
            plan_view(final(plan)@) == plan_view(old(plan)@).push(BusOpView::WaitIdle),
    {
        push_op(plan, BusOp::WaitIdle);
    }

    fn set_window(&self, plan: &mut Vec<BusOp>, x_start: u16, y_start: u16, x_end: u16, y_end: u16)
        ensures
            plan_view(final(plan)@) == plan_view(old(plan)@) + set_window_ops(
                x_start,
                y_start,
                x_end,
                y_end,
            ),
    {
        self.command_data(plan, 0x44, vec2((x_start / 8) as u8, (x_end / 8) as u8));
        self.command_data(
            plan,
            0x45,
            vec4(
                (y_start & 0xFF) as u8,
                (y_start >> 8) as u8,
                (y_end & 0xFF) as u8,
                (y_end >> 8) as u8,
            ),
        );
        proof {
            assert(plan_view(plan@) =~= plan_view(old(plan)@) + set_window_ops(
                x_start,
                y_start,
                x_end,
                y_end,
            ));
        }
    }

    fn set_cursor(&self, plan: &mut Vec<BusOp>, x: u16, y: u16)
        ensures
            plan_view(final(plan)@) == plan_view(old(plan)@) + set_cursor_ops(x, y),
    {
        self.command_data(plan, 0x4E, vec1((x / 8) as u8));
        self.command_data(plan, 0x4F, vec2((y & 0xFF) as u8, (y >> 8) as u8));
        proof {
            assert(plan_view(plan@) =~= plan_view(old(plan)@) + set_cursor_ops(x, y));
        }
    }

    fn turn_on_display(&self, plan: &mut Vec<BusOp>, mode: UpdateMode)
        ensures
            plan_view(final(plan)@) == plan_view(old(plan)@) + turn_on_ops(mode),
    {
        let control: u8 = match mode {
            UpdateMode::Normal => 0xF7,
            UpdateMode::Fast => 0xC7,
            UpdateMode::Partial => 0xFF,
        };
        self.command_data(plan, 0x22, vec1(control));
        self.command(plan, 0x20);
        self.wait_until_idle(plan);
        proof {
            assert(plan_view(plan@) =~= plan_view(old(plan)@) + turn_on_ops(mode));
        }
    }

    /// Pre-flight validation plus the frame transfer. On a length mismatch
    /// the plan is left untouched and the error names both lengths.
    fn write_image(&self, plan: &mut Vec<BusOp>, command: u8, image: &[u8]) -> (r: Result<
        (),
        EpdError,
    >)
        requires
            self.wf(),
        ensures
            image@.len() == image_len() ==> r is Ok && plan_view(final(plan)@) == plan_view(
                old(plan)@,
            ) + write_image_ops(command, image@),
            image@.len() != image_len() ==> final(plan)@ == old(plan)@ && (r matches Err(e)
                && e matches EpdError::BufferSize { expected, actual } && expected == image_len()
                && actual == image@.len()),
    {
        proof {
            assert(bytes_per_row_of(Self::WIDTH as int) == 16);
        }
        let expected: usize = self.bytes_per_row * (Self::HEIGHT as usize);
        if image.len() != expected {
            return Err(EpdError::BufferSize { expected, actual: image.len() });
        }
        self.command(plan, command);
        let bytes: Vec<u8> = slice_to_vec(image);
        self.data(plan, bytes);
        proof {
            assert(plan_view(plan@) =~= plan_view(old(plan)@) + write_image_ops(command, image@));
        }
        Ok(())
    }

    /// Full reset and waveform/LUT setup sequence.
    pub fn init(&self) -> (plan: Vec<BusOp>)
        ensures
            plan_view(plan@) == init_ops(),
    {
        let mut plan: Vec<BusOp> = Vec::new();
        self.reset(&mut plan);
        self.wait_until_idle(&mut plan);
        self.command(&mut plan, 0x12);  // software reset
        self.wait_until_idle(&mut plan);
        self.command_data(&mut plan, 0x01, vec3(0xF9, 0x00, 0x00));  // driver output control
        self.command_data(&mut plan, 0x11, vec1(0x03));  // data entry mode
        self.set_window(&mut plan, 0, 0, Self::WIDTH - 1, Self::HEIGHT - 1);
        self.set_cursor(&mut plan, 0, 0);
        self.command_data(&mut plan, 0x3C, vec1(0x05));  // border waveform
        self.command_data(&mut plan, 0x21, vec2(0x00, 0x80));  // display update control
        self.command_data(&mut plan, 0x18, vec1(0x80));  // internal temperature sensor
        self.wait_until_idle(&mut plan);
        proof {
            assert(plan_view(plan@) =~= init_ops());
        }
        plan
    }

    /// Abbreviated reset plus temperature-sensor LUT load.
    pub fn init_fast(&self) -> (plan: Vec<BusOp>)
        ensures
            plan_view(plan@) == init_fast_ops(),
    {
        let mut plan: Vec<BusOp> = Vec::new();
        self.reset(&mut plan);
        self.command(&mut plan, 0x12);
        self.wait_until_idle(&mut plan);
        self.command_data(&mut plan, 0x18, vec1(0x80));
        self.command_data(&mut plan, 0x11, vec1(0x03));
        self.set_window(&mut plan, 0, 0, Self::WIDTH - 1, Self::HEIGHT - 1);
        self.set_cursor(&mut plan, 0, 0);
        self.command_data(&mut plan, 0x22, vec1(0xB1));
        self.command(&mut plan, 0x20);
        self.wait_until_idle(&mut plan);
        self.command_data(&mut plan, 0x1A, vec2(0x64, 0x00));
        self.command_data(&mut plan, 0x22, vec1(0x91));
        self.command(&mut plan, 0x20);
        self.wait_until_idle(&mut plan);
        proof {
            assert(plan_view(plan@) =~= init_fast_ops());
        }
        plan
    }

    /// Full-frame solid fill followed by a Normal display-refresh cycle.
    #[verifier::loop_isolation(false)]
    pub fn clear(&self, color: Color) -> (plan: Vec<BusOp>)
        requires
            self.wf(),
        ensures
            plan_view(plan@) == clear_ops(fill_byte(color)),
    {
        let fill: u8 = match color {
            Color::Foreground => 0x00,
            Color::Background => 0xFF,
        };
        let mut plan: Vec<BusOp> = Vec::new();
        self.command(&mut plan, 0x24);
        let mut row: u16 = 0;
        while row < Self::HEIGHT
            invariant
                row <= Self::HEIGHT,
                plan_view(plan@) == seq![BusOpView::Command(0x24u8)] + Seq::new(
                    row as nat,
                    |i: int| BusOpView::Data(solid_row(fill)),
                ),
            decreases Self::HEIGHT - row,
        {
            let line = crate::buffer::filled_vec(self.bytes_per_row, fill);
            proof {
                assert(line@ =~= solid_row(fill));
            }
            self.data(&mut plan, line);
            row = row + 1;
            proof {
                assert(plan_view(plan@) =~= seq![BusOpView::Command(0x24u8)] + Seq::new(
                    row as nat,
                    |i: int| BusOpView::Data(solid_row(fill)),
                ));
            }
        }
        self.turn_on_display(&mut plan, UpdateMode::Normal);
        proof {
            assert(plan_view(plan@) =~= clear_ops(fill_byte(color)));
        }
        plan
    }

    /// Full-refresh cycle: higher flicker, best image quality.
    pub fn display(&self, image: &[u8]) -> (r: Result<Vec<BusOp>, EpdError>)
        requires
            self.wf(),
        ensures
            image@.len() == image_len() ==> (r matches Ok(plan) && plan_view(plan@) == display_ops(
                image@,
            )),
            image@.len() != image_len() ==> (r matches Err(e) && e matches EpdError::BufferSize {
                expected,
                actual,
            } && expected == image_len() && actual == image@.len()),
    {
        let mut plan: Vec<BusOp> = Vec::new();
        match self.write_image(&mut plan, 0x24, image) {
            Ok(()) => {},
            Err(e) => {
                return Err(e);
            },
        }
        self.turn_on_display(&mut plan, UpdateMode::Normal);
        proof {
            assert(plan_view(plan@) =~= display_ops(image@));
        }
        Ok(plan)
    }

    /// Partial waveform reused for the whole frame: faster, more ghosting.
    pub fn display_fast(&self, image: &[u8]) -> (r: Result<Vec<BusOp>, EpdError>)
        requires
            self.wf(),
        ensures
            image@.len() == image_len() ==> (r matches Ok(plan) && plan_view(plan@)
                == display_fast_ops(image@)),
            image@.len() != image_len() ==> (r matches Err(e) && e matches EpdError::BufferSize {
                expected,
                actual,
            } && expected == image_len() && actual == image@.len()),
    {
        let mut plan: Vec<BusOp> = Vec::new();
        match self.write_image(&mut plan, 0x24, image) {
            Ok(()) => {},
            Err(e) => {
                return Err(e);
            },
        }
        self.turn_on_display(&mut plan, UpdateMode::Fast);
        proof {
            assert(plan_view(plan@) =~= display_fast_ops(image@));
        }
        Ok(plan)
    }

    /// Writes the image into both frame RAMs, seeding the baseline that
    /// later partial updates refine.
    pub fn display_base(&self, image: &[u8]) -> (r: Result<Vec<BusOp>, EpdError>)
        requires
            self.wf(),
        ensures
            image@.len() == image_len() ==> (r matches Ok(plan) && plan_view(plan@)
                == display_base_ops(image@)),
            image@.len() != image_len() ==> (r matches Err(e) && e matches EpdError::BufferSize {
                expected,
                actual,
            } && expected == image_len() && actual == image@.len()),
    {
        let mut plan: Vec<BusOp> = Vec::new();
        match self.write_image(&mut plan, 0x24, image) {
            Ok(()) => {},
            Err(e) => {
                return Err(e);
            },
        }
        match self.write_image(&mut plan, 0x26, image) {
            Ok(()) => {},
            Err(e) => {
                return Err(e);
            },
        }
        self.turn_on_display(&mut plan, UpdateMode::Normal);
        proof {
            assert(plan_view(plan@) =~= display_base_ops(image@));
        }
        Ok(plan)
    }

    /// Shortened reset, border and entry-mode reconfiguration, then a
    /// partial-waveform refresh. The panel shows artifacts unless a base
    /// frame was written first; that ordering is the caller's
    /// responsibility and is deliberately not enforced here — the plan is
    /// the same fixed sequence whatever came before.
    pub fn display_partial(&self, image: &[u8]) -> (r: Result<Vec<BusOp>, EpdError>)
        requires
            self.wf(),
        ensures
            image@.len() == image_len() ==> (r matches Ok(plan) && plan_view(plan@)
                == display_partial_ops(image@)),
            image@.len() != image_len() ==> (r matches Err(e) && e matches EpdError::BufferSize {
                expected,
                actual,
            } && expected == image_len() && actual == image@.len()),
    {
        let mut plan: Vec<BusOp> = Vec::new();
        self.reset(&mut plan);
        self.command_data(&mut plan, 0x3C, vec1(0x80));
        self.command_data(&mut plan, 0x01, vec3(0xF9, 0x00, 0x00));
        self.command_data(&mut plan, 0x11, vec1(0x03));
        self.set_window(&mut plan, 0, 0, Self::WIDTH - 1, Self::HEIGHT - 1);
        self.set_cursor(&mut plan, 0, 0);
        match self.write_image(&mut plan, 0x24, image) {
            Ok(()) => {},
            Err(e) => {
                return Err(e);
            },
        }
        self.turn_on_display(&mut plan, UpdateMode::Partial);
        proof {
            assert(plan_view(plan@) =~= display_partial_ops(image@));
        }
        Ok(plan)
    }

    /// Deep-sleep command; the panel must be re-initialized afterwards.
    pub fn sleep(&self) -> (plan: Vec<BusOp>)
        ensures
            plan_view(plan@) == sleep_ops(),
    {
        let mut plan: Vec<BusOp> = Vec::new();
        self.command_data(&mut plan, 0x10, vec1(0x01));
        push_op(&mut plan, BusOp::SleepMs(100));
        proof {
            assert(plan_view(plan@) =~= sleep_ops());
        }
        plan
    }
}

/// Number of busy-line reads one `WaitIdle` performs against the given
/// trace of samples (`true` = busy): the executor reads the line, sleeps,
/// and repeats until a sample reads idle. `None` means the trace never goes
/// idle — the executor would block, which the driver treats as a hardware
/// fault, not a software error. One sleep follows every read: the poll
/// interval after each busy sample, the settle time after the idle one.
#[verifier::loop_isolation(false)]
pub fn busy_poll_reads(samples: &[bool]) -> (r: Option<usize>)
    ensures
        (r is Some) <==> (exists|i: int| 0 <= i < samples@.len() && !samples@[i]),
        r matches Some(n) ==> 1 <= n <= samples@.len() && !samples@[n - 1] && (forall|j: int|
            0 <= j < n - 1 ==> samples@[j]),
{
    let mut i: usize = 0;
    while i < samples.len()
        invariant
            i <= samples@.len(),
            forall|j: int| 0 <= j < i ==> samples@[j],
        decreases samples@.len() - i,
    {
        if !*slice_index_get(samples, i) {
            return Some(i + 1);
        }
        i = i + 1;
    }
    None
}

} // verus!
