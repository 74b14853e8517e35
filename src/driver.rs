//! The display engine: the state of one panel and the operations that drive it.
use vstd::prelude::*;
use core::marker::PhantomData;
use crate::bus::{append_range, cs_step, emit, emit_cs, ops_view, Op, OpView};
use crate::command::Command;
use crate::geometry::{flips_rows, range_bytes, range_params, split_u16, hi, lo, transform, transform_point, Rotate};
use crate::madctl::{
    compose, preset_rotate_0, preset_rotate_180, preset_rotate_270, preset_rotate_90, ColorFormat,
    MemAccCtrlConfig,
};
use crate::stream::{
    be_bytes, chunks, emit_chunks, encode_colors, lemma_be_bytes_index, lemma_be_bytes_len,
    lemma_chunks, lemma_rows_reversed_len, reverse_rows, rows_reversed, writes, CHUNK_SIZE,
};

verus! {

/// Errors of the engine and of the transport that performs its operations.
#[derive(Debug)]
pub enum Error<PinError, SpiError> {
    /// A column range whose start lies past its end.
    InvalidColumnAddress,
    /// A row range whose start lies past its end.
    InvalidRowAddress,
    /// A control line could not be driven.
    Pin(PinError),
    /// A bus write failed.
    Spi(SpiError),
}

/// The control lines of one display: chip-select (optional), data/command select and reset.
pub struct ST7789VConfig<CS, DC, RST> {
    cs: Option<CS>,
    dc: DC,
    rst: RST,
}

impl<CS, DC, RST> ST7789VConfig<CS, DC, RST> {
    /// The chip-select line, if the wiring has one.
    pub closed spec fn cs_pin(&self) -> Option<CS> {
        self.cs
    }

    /// The data/command select line.
    pub closed spec fn dc_pin(&self) -> DC {
        self.dc
    }

    /// The reset line.
    pub closed spec fn rst_pin(&self) -> RST {
        self.rst
    }

    /// A configuration without a chip-select line.
    pub fn new(dc: DC, rst: RST) -> (r: Self)
        ensures
            r.cs_pin() == None::<CS>,
            r.dc_pin() == dc,
            r.rst_pin() == rst,
    {
        ST7789VConfig { cs: None, dc, rst }
    }

    /// A configuration with a chip-select line.
    pub fn with_cs(cs: CS, dc: DC, rst: RST) -> (r: Self)
        ensures
            r.cs_pin() == Some(cs),
            r.dc_pin() == dc,
            r.rst_pin() == rst,
    {
        ST7789VConfig { cs: Some(cs), dc, rst }
    }

    /// Whether the configuration holds a chip-select line.
    pub fn has_cs(&self) -> (r: bool)
        ensures
            r == self.cs_pin().is_some(),
    {
        self.cs.is_some()
    }

    /// Hands back the data/command and reset lines.
    pub fn release(self) -> (r: (DC, RST))
        ensures
            r == (self.dc_pin(), self.rst_pin()),
    {
        (self.dc, self.rst)
    }

    /// Hands back all three lines.
    pub fn into_parts(self) -> (r: (Option<CS>, DC, RST))
        ensures
            r == (self.cs_pin(), self.dc_pin(), self.rst_pin()),
    {
        (self.cs, self.dc, self.rst)
    }
}

/// What the engine knows of its panel.
pub struct EngineState {
    /// Whether a dedicated chip-select line exists.
    pub has_cs: bool,
    /// The current orientation.
    pub rotate: Rotate,
    /// Panel width in pixels.
    pub width: u16,
    /// Panel height in pixels.
    pub height: u16,
}

/// The display engine for one panel.
pub struct ST7789V<PinError, SpiError> {
    has_cs: bool,
    rotate: Rotate,
    width: u16,
    height: u16,
    _pin_err: PhantomData<PinError>,
    _spi_err: PhantomData<SpiError>,
}

impl<PinError, SpiError> View for ST7789V<PinError, SpiError> {
    type V = EngineState;

    closed spec fn view(&self) -> EngineState {
        EngineState { has_cs: self.has_cs, rotate: self.rotate, width: self.width, height: self.height }
    }
}

/// A command without parameters: select the device, command phase, the opcode byte.
/// The device is left selected.
pub open spec fn cmd_ops(has_cs: bool, cmd: Command) -> Seq<OpView> {
    cs_step(has_cs, OpView::CsLow) + seq![OpView::DcLow, OpView::Write(seq![cmd.opcode()])]
}

/// A command with parameters: the command phase, then the data phase with the parameter
/// bytes in one write, then the device is deselected.
pub open spec fn cmd_params_ops(has_cs: bool, cmd: Command, params: Seq<u8>) -> Seq<OpView> {
    cmd_ops(has_cs, cmd) + cs_step(has_cs, OpView::CsLow) + seq![OpView::DcHigh, OpView::Write(params)]
        + cs_step(has_cs, OpView::CsHigh)
}

/// The power-up reset sequence.
pub open spec fn hard_reset_ops(has_cs: bool) -> Seq<OpView> {
    cs_step(has_cs, OpView::CsHigh) + seq![
        OpView::DelayMs(1),
        OpView::RstLow,
        OpView::DelayMs(1),
        OpView::RstHigh,
        OpView::DelayMs(120),
    ]
}

/// Whether `[start, end)` can be sent as a range: `start <= end`, and not the empty range
/// at 0, whose inclusive end `end - 1` would wrap.
pub open spec fn valid_range(start: u16, end: u16) -> bool {
    start <= end && end > 0
}

/// Column range, row range and the memory-write trigger, in that order.
pub open spec fn window_ops(has_cs: bool, xs: u16, rs: u16, xe: u16, re: u16) -> Seq<OpView> {
    cmd_params_ops(has_cs, Command::CASET, range_params(xs, xe)) + cmd_params_ops(
        has_cs,
        Command::RASET,
        range_params(rs, re),
    ) + cmd_ops(has_cs, Command::RAMWR)
}

/// The initialization sequence: hard reset, then the register settings, with an address
/// window that covers the whole panel.
pub open spec fn init_ops(s: EngineState) -> Seq<OpView> {
    let has_cs = s.has_cs;
    hard_reset_ops(has_cs) + cmd_params_ops(has_cs, Command::MADCTL, seq![0x00u8])
        + cmd_params_ops(has_cs, Command::COLMOD, seq![0x05u8]) + cmd_ops(has_cs, Command::INVON)
        + cmd_params_ops(has_cs, Command::CASET, range_params(0, s.width))
        + cmd_params_ops(has_cs, Command::RASET, range_params(0, s.height))
        + cmd_params_ops(has_cs, Command::GCTRL, seq![0x35u8])
        + cmd_params_ops(has_cs, Command::VCOMS, seq![0x1fu8])
        + cmd_params_ops(has_cs, Command::LCMCTRL, seq![0x2cu8])
        + cmd_params_ops(has_cs, Command::VDVVRHEN, seq![0x01u8])
        + cmd_params_ops(has_cs, Command::VRHS, seq![0x12u8])
        + cmd_params_ops(has_cs, Command::VDVS, seq![0x20u8])
        + cmd_params_ops(has_cs, Command::FRCTRL2, seq![0x0fu8])
        + cmd_params_ops(has_cs, Command::PWCTRL1, seq![0xa4u8, 0xa1])
        + cmd_params_ops(
        has_cs,
        Command::E0,
        seq![0xD0u8, 0x08, 0x11, 0x08, 0x0c, 0x15, 0x39, 0x33, 0x50, 0x36, 0x13, 0x14, 0x29, 0x2d],
    ) + cmd_params_ops(
        has_cs,
        Command::E1,
        seq![0xd0u8, 0x08, 0x10, 0x08, 0x06, 0x06, 0x39, 0x44, 0x51, 0x0b, 0x16, 0x14, 0x2f, 0x31],
    ) + cmd_ops(has_cs, Command::INVON) + cmd_ops(has_cs, Command::SLPOUT) + cmd_ops(
        has_cs,
        Command::DISPON,
    )
}

/// The memory-access-control preset that matches an orientation.
pub open spec fn rotation_preset(rotate: Rotate) -> MemAccCtrlConfig {
    match rotate {
        Rotate::Rotate0 => preset_rotate_0(),
        Rotate::Rotate90 => preset_rotate_90(),
        Rotate::Rotate180 => preset_rotate_180(),
        Rotate::Rotate270 => preset_rotate_270(),
    }
}

/// Smaller of two values.
pub open spec fn min16(a: u16, b: u16) -> u16 {
    if a <= b {
        a
    } else {
        b
    }
}

/// Larger of two values.
pub open spec fn max16(a: u16, b: u16) -> u16 {
    if a <= b {
        b
    } else {
        a
    }
}

/// The physical window `(min_x, min_y, max_x, max_y)` spanned by two transformed corners.
pub open spec fn corner_window(s: EngineState, xs: u16, ys: u16, xe: u16, ye: u16) -> (
    u16,
    u16,
    u16,
    u16,
) {
    let (sx, sy) = transform(s.rotate, s.width, s.height, xs, ys);
    let (ex, ey) = transform(s.rotate, s.width, s.height, xe, ye);
    (min16(sx, ex), min16(sy, ey), max16(sx, ex), max16(sy, ey))
}

/// The operations of a single-pixel write at the logical `(x, y)`: the window of the
/// block `[x, x + 1) x [y, y + 1)`, then the memory write of the color, high byte first.
pub open spec fn pixel_ops(s: EngineState, x: u16, y: u16, color: u16) -> Seq<OpView> {
    let (x0, y0, x1, y1) = corner_window(s, x, y, (x + 1) as u16, (y + 1) as u16);
    window_ops(s.has_cs, x0, y0, x1, y1) + cmd_params_ops(s.has_cs, Command::RAMWR, seq![hi(color), lo(color)])
}

/// The payload bytes of a pixel block whose rows hold `cols` pixels: the colors high byte
/// first, with the rows in reverse order where the orientation reverses rows.
pub open spec fn stream_bytes(rotate: Rotate, colors: Seq<u16>, cols: nat) -> Seq<u8> {
    if flips_rows(rotate) && cols > 0 {
        rows_reversed(be_bytes(colors), 2 * cols)
    } else {
        be_bytes(colors)
    }
}

/// The operations of a pixel-block write.
pub open spec fn pixels_ops(s: EngineState, xs: u16, ys: u16, xe: u16, ye: u16, colors: Seq<u16>) -> Seq<
    OpView,
> {
    let (x0, y0, x1, y1) = corner_window(s, xs, ys, xe, ye);
    window_ops(s.has_cs, x0, y0, x1, y1) + cmd_params_ops(s.has_cs, Command::RAMWR, seq![])
        + cs_step(s.has_cs, OpView::CsLow) + seq![OpView::DcHigh] + writes(
        payload_pieces(s, xs, ys, xe, ye, colors),
    ) + cs_step(s.has_cs, OpView::CsHigh)
}

/// The payload of a pixel-block write, cut into pieces of at most 4096 bytes.
pub open spec fn payload_pieces(s: EngineState, xs: u16, ys: u16, xe: u16, ye: u16, colors: Seq<u16>) -> Seq<
    Seq<u8>,
> {
    let (x0, y0, x1, y1) = corner_window(s, xs, ys, xe, ye);
    chunks(stream_bytes(s.rotate, colors, (x1 - x0) as nat), CHUNK_SIZE as nat)
}

impl<PinError, SpiError> ST7789V<PinError, SpiError> {
    /// An engine for a panel of `width` x `height` pixels whose chip-select line is tied low.
    pub fn new(width: u16, height: u16) -> (r: Self)
        ensures
            r@ == (EngineState { has_cs: false, rotate: Rotate::Rotate0, width, height }),
    {
        ST7789V {
            has_cs: false,
            rotate: Rotate::Rotate0,
            width,
            height,
            _pin_err: PhantomData,
            _spi_err: PhantomData,
        }
    }

    /// An engine for a panel with a dedicated chip-select line, which is driven low (device
    /// selected) right away.
    pub fn with_cs(width: u16, height: u16) -> (r: (Self, Vec<Op>))
        ensures
            r.0@ == (EngineState { has_cs: true, rotate: Rotate::Rotate0, width, height }),
            ops_view(r.1@) == seq![OpView::CsLow],
    {
        let mut out: Vec<Op> = Vec::new();
        emit(&mut out, Op::CsLow);
        let d = ST7789V {
            has_cs: true,
            rotate: Rotate::Rotate0,
            width,
            height,
            _pin_err: PhantomData,
            _spi_err: PhantomData,
        };
        (d, out)
    }

    /// An engine for the lines of `cfg`; its chip-select line, if any, is driven low.
    pub fn with_config<CS, DC, RST>(cfg: &ST7789VConfig<CS, DC, RST>, width: u16, height: u16) -> (r: (
        Self,
        Vec<Op>,
    ))
        ensures
            r.0@ == (EngineState { has_cs: cfg.cs_pin().is_some(), rotate: Rotate::Rotate0, width, height }),
            ops_view(r.1@) == cs_step(cfg.cs_pin().is_some(), OpView::CsLow),
    {
        let has_cs = cfg.has_cs();
        let mut out: Vec<Op> = Vec::new();
        emit_cs(&mut out, has_cs, Op::CsLow);
        let d = ST7789V {
            has_cs,
            rotate: Rotate::Rotate0,
            width,
            height,
            _pin_err: PhantomData,
            _spi_err: PhantomData,
        };
        (d, out)
    }

    /// Ends the use of the engine: its chip-select line, if any, is raised.
    pub fn release(self) -> (r: Vec<Op>)
        ensures
            ops_view(r@) == cs_step(self@.has_cs, OpView::CsHigh),
    {
        let mut out: Vec<Op> = Vec::new();
        emit_cs(&mut out, self.has_cs, Op::CsHigh);
        out
    }

    /// Whether the engine drives a dedicated chip-select line.
    pub fn has_cs(&self) -> (r: bool)
        ensures
            r == self@.has_cs,
    {
        self.has_cs
    }

    /// The current orientation.
    pub fn rotation(&self) -> (r: Rotate)
        ensures
            r == self@.rotate,
    {
        self.rotate
    }

    /// Panel width in pixels.
    pub fn width(&self) -> (r: u16)
        ensures
            r == self@.width,
    {
        self.width
    }

    /// Panel height in pixels.
    pub fn height(&self) -> (r: u16)
        ensures
            r == self@.height,
    {
        self.height
    }

    /// Appends a command without parameters.
    fn command(&self, out: &mut Vec<Op>, cmd: Command)
        ensures
            ops_view(final(out)@) == ops_view(old(out)@) + cmd_ops(self@.has_cs, cmd),
    {
        emit_cs(out, self.has_cs, Op::CsLow);
        emit(out, Op::DcLow);
        let w = vec![cmd.value()];
        assert(w@ =~= seq![cmd.opcode()]);
        emit(out, Op::Write(w));
        assert(ops_view(out@) =~= ops_view(old(out)@) + cmd_ops(self@.has_cs, cmd));
    }

    /// Appends a command followed by its parameter bytes.
    fn command_with(&self, out: &mut Vec<Op>, cmd: Command, params: Vec<u8>)
        ensures
            ops_view(final(out)@) == ops_view(old(out)@) + cmd_params_ops(self@.has_cs, cmd, params@),
    {
        let ghost p = params@;
        self.command(out, cmd);
        emit_cs(out, self.has_cs, Op::CsLow);
        emit(out, Op::DcHigh);
        emit(out, Op::Write(params));
        emit_cs(out, self.has_cs, Op::CsHigh);
        assert(ops_view(out@) =~= ops_view(old(out)@) + cmd_params_ops(self@.has_cs, cmd, p));
    }

    /// A single command without parameters.
    fn single(&self, cmd: Command) -> (r: Vec<Op>)
        ensures
            ops_view(r@) == cmd_ops(self@.has_cs, cmd),
    {
        let mut out: Vec<Op> = Vec::new();
        assert(ops_view(out@) =~= seq![]);
        self.command(&mut out, cmd);
        assert(ops_view(out@) =~= cmd_ops(self@.has_cs, cmd));
        out
    }

    /// A single command with parameters.
    fn single_with(&self, cmd: Command, params: Vec<u8>) -> (r: Vec<Op>)
        ensures
            ops_view(r@) == cmd_params_ops(self@.has_cs, cmd, params@),
    {
        let ghost p = params@;
        let mut out: Vec<Op> = Vec::new();
        assert(ops_view(out@) =~= seq![]);
        self.command_with(&mut out, cmd, params);
        assert(ops_view(out@) =~= cmd_params_ops(self@.has_cs, cmd, p));
        out
    }
}

impl<PinError, SpiError> ST7789V<PinError, SpiError> {
    /// Leaves normal mode and enters partial mode.
    pub fn partial_display_mode(&self) -> (r: Vec<Op>)
        ensures
            ops_view(r@) == cmd_ops(self@.has_cs, Command::PTLON),
    {
        self.single(Command::PTLON)
    }

    /// Leaves partial mode and enters normal mode.
    pub fn normal_mode(&self) -> (r: Vec<Op>)
        ensures
            ops_view(r@) == cmd_ops(self@.has_cs, Command::NORON),
    {
        self.single(Command::NORON)
    }

    /// Display inversion off.
    pub fn inversion_off(&self) -> (r: Vec<Op>)
        ensures
            ops_view(r@) == cmd_ops(self@.has_cs, Command::INVOFF),
    {
        self.single(Command::INVOFF)
    }

    /// Display inversion on.
    pub fn inversion_on(&self) -> (r: Vec<Op>)
        ensures
            ops_view(r@) == cmd_ops(self@.has_cs, Command::INVON),
    {
        self.single(Command::INVON)
    }

    /// Display off: frame memory output is disabled and a blank page shown;
    /// the frame memory is unchanged.
    pub fn display_off(&self) -> (r: Vec<Op>)
        ensures
            ops_view(r@) == cmd_ops(self@.has_cs, Command::DISPOFF),
    {
        self.single(Command::DISPOFF)
    }

    /// Display on: frame memory output is enabled.
    pub fn display_on(&self) -> (r: Vec<Op>)
        ensures
            ops_view(r@) == cmd_ops(self@.has_cs, Command::DISPON),
    {
        self.single(Command::DISPON)
    }

    /// Idle mode off.
    pub fn idle_off(&self) -> (r: Vec<Op>)
        ensures
            ops_view(r@) == cmd_ops(self@.has_cs, Command::IDMOFF),
    {
        self.single(Command::IDMOFF)
    }

    /// Idle mode on.
    pub fn idle_on(&self) -> (r: Vec<Op>)
        ensures
            ops_view(r@) == cmd_ops(self@.has_cs, Command::IDMON),
    {
        self.single(Command::IDMON)
    }

    /// Porch setting.
    pub fn porch_setting(&self) -> (r: Vec<Op>)
        ensures
            ops_view(r@) == cmd_params_ops(self@.has_cs, Command::PORCTRL, seq![0x0Cu8, 0x0C, 0x00, 0x33, 0x33]),
    {
        let p = vec![0x0Cu8, 0x0C, 0x00, 0x33, 0x33];
        assert(p@ =~= seq![0x0Cu8, 0x0C, 0x00, 0x33, 0x33]);
        self.single_with(Command::PORCTRL, p)
    }

    /// Gate control.
    pub fn gate_control(&self) -> (r: Vec<Op>)
        ensures
            ops_view(r@) == cmd_params_ops(self@.has_cs, Command::GCTRL, seq![0x35u8]),
    {
        let p = vec![0x35u8];
        assert(p@ =~= seq![0x35u8]);
        self.single_with(Command::GCTRL, p)
    }

    /// VCOM setting.
    pub fn vcoms_setting(&self) -> (r: Vec<Op>)
        ensures
            ops_view(r@) == cmd_params_ops(self@.has_cs, Command::VCOMS, seq![0x35u8]),
    {
        let p = vec![0x35u8];
        assert(p@ =~= seq![0x35u8]);
        self.single_with(Command::VCOMS, p)
    }

    /// Sets the interface color format, then waits 10 ms.
    pub fn color_mode(&self, color_format: ColorFormat) -> (r: Vec<Op>)
        ensures
            ops_view(r@) == cmd_params_ops(self@.has_cs, Command::COLMOD, seq![color_format.bits()])
                + seq![OpView::DelayMs(10)],
    {
        let p = vec![color_format.value()];
        assert(p@ =~= seq![color_format.bits()]);
        let mut out = self.single_with(Command::COLMOD, p);
        emit(&mut out, Op::DelayMs(10));
        out
    }

    /// Enters minimum power consumption mode, then waits 5 ms.
    pub fn sleep_in(&self) -> (r: Vec<Op>)
        ensures
            ops_view(r@) == cmd_ops(self@.has_cs, Command::SLPIN) + seq![OpView::DelayMs(5)],
    {
        let mut out = self.single(Command::SLPIN);
        emit(&mut out, Op::DelayMs(5));
        out
    }

    /// Leaves sleep mode, then waits 120 ms.
    pub fn sleep_out(&self) -> (r: Vec<Op>)
        ensures
            ops_view(r@) == cmd_ops(self@.has_cs, Command::SLPOUT) + seq![OpView::DelayMs(120)],
    {
        let mut out = self.single(Command::SLPOUT);
        emit(&mut out, Op::DelayMs(120));
        out
    }

    /// Software reset, then waits 150 ms. Registers take their reset defaults; frame memory
    /// is kept.
    pub fn soft_reset(&self) -> (r: Vec<Op>)
        ensures
            ops_view(r@) == cmd_ops(self@.has_cs, Command::SWRESET) + seq![OpView::DelayMs(150)],
    {
        let mut out = self.single(Command::SWRESET);
        emit(&mut out, Op::DelayMs(150));
        out
    }

    /// Writes the memory-access-control register.
    pub fn memory_access_control(&self, config: MemAccCtrlConfig) -> (r: Vec<Op>)
        ensures
            ops_view(r@) == cmd_params_ops(self@.has_cs, Command::MADCTL, seq![compose(config)]),
    {
        let p = vec![config.value()];
        assert(p@ =~= seq![compose(config)]);
        self.single_with(Command::MADCTL, p)
    }

    /// LCM control and the power settings that go with it.
    pub fn lcm_control(&self) -> (r: Vec<Op>)
        ensures
            ops_view(r@) == cmd_params_ops(self@.has_cs, Command::LCMCTRL, seq![0x2Cu8])
                + cmd_params_ops(self@.has_cs, Command::VDVVRHEN, seq![0x01u8])
                + cmd_params_ops(self@.has_cs, Command::VRHS, seq![0x13u8])
                + cmd_params_ops(self@.has_cs, Command::VDVS, seq![0x20u8])
                + cmd_params_ops(self@.has_cs, Command::FRCTRL2, seq![0x0Fu8])
                + cmd_params_ops(self@.has_cs, Command::PWCTRL1, seq![0xA4u8, 0xA1])
                + cmd_params_ops(self@.has_cs, Command::UNKNOWN_D6, seq![0xA1u8]),
    {
        let mut out: Vec<Op> = Vec::new();
        assert(ops_view(out@) =~= seq![]);
        let p = vec![0x2Cu8];
        assert(p@ =~= seq![0x2Cu8]);
        self.command_with(&mut out, Command::LCMCTRL, p);
        let p = vec![0x01u8];
        assert(p@ =~= seq![0x01u8]);
        self.command_with(&mut out, Command::VDVVRHEN, p);
        let p = vec![0x13u8];
        assert(p@ =~= seq![0x13u8]);
        self.command_with(&mut out, Command::VRHS, p);
        let p = vec![0x20u8];
        assert(p@ =~= seq![0x20u8]);
        self.command_with(&mut out, Command::VDVS, p);
        let p = vec![0x0Fu8];
        assert(p@ =~= seq![0x0Fu8]);
        self.command_with(&mut out, Command::FRCTRL2, p);
        let p = vec![0xA4u8, 0xA1];
        assert(p@ =~= seq![0xA4u8, 0xA1]);
        self.command_with(&mut out, Command::PWCTRL1, p);
        let p = vec![0xA1u8];
        assert(p@ =~= seq![0xA1u8]);
        self.command_with(&mut out, Command::UNKNOWN_D6, p);
        out
    }

    /// Appends the power-up reset sequence.
    fn emit_hard_reset(&self, out: &mut Vec<Op>)
        ensures
            ops_view(final(out)@) == ops_view(old(out)@) + hard_reset_ops(self@.has_cs),
    {
        emit_cs(out, self.has_cs, Op::CsHigh);
        emit(out, Op::DelayMs(1));
        emit(out, Op::RstLow);
        emit(out, Op::DelayMs(1));
        emit(out, Op::RstHigh);
        emit(out, Op::DelayMs(120));
        assert(ops_view(out@) =~= ops_view(old(out)@) + hard_reset_ops(self@.has_cs));
    }

    /// Hard reset: deselect, pulse the reset line low for 1 ms, then wait 120 ms.
    /// The display has to be initialized afterwards.
    pub fn hard_reset(&self) -> (r: Vec<Op>)
        ensures
            ops_view(r@) == hard_reset_ops(self@.has_cs),
    {
        let mut out: Vec<Op> = Vec::new();
        assert(ops_view(out@) =~= seq![]);
        self.emit_hard_reset(&mut out);
        assert(ops_view(out@) =~= hard_reset_ops(self@.has_cs));
        out
    }
}

impl<PinError, SpiError> ST7789V<PinError, SpiError> {
    /// Initializes the display: hard reset, then orientation, color mode, inversion, an
    /// initial address window, the gamma, power, porch and gate settings, sleep-out and
    /// display-on.
    pub fn init(&self) -> (r: Vec<Op>)
        ensures
            ops_view(r@) == init_ops(self@),
    {
        let mut out: Vec<Op> = Vec::new();
        assert(ops_view(out@) =~= seq![]);
        self.emit_hard_reset(&mut out);
        let p = vec![0x00u8];
        assert(p@ =~= seq![0x00u8]);
        self.command_with(&mut out, Command::MADCTL, p);
        let p = vec![0x05u8];
        assert(p@ =~= seq![0x05u8]);
        self.command_with(&mut out, Command::COLMOD, p);
        self.command(&mut out, Command::INVON);
        self.command_with(&mut out, Command::CASET, range_bytes(0, self.width));
        self.command_with(&mut out, Command::RASET, range_bytes(0, self.height));
        let p = vec![0x35u8];
        assert(p@ =~= seq![0x35u8]);
        self.command_with(&mut out, Command::GCTRL, p);
        let p = vec![0x1fu8];
        assert(p@ =~= seq![0x1fu8]);
        self.command_with(&mut out, Command::VCOMS, p);
        let p = vec![0x2cu8];
        assert(p@ =~= seq![0x2cu8]);
        self.command_with(&mut out, Command::LCMCTRL, p);
        let p = vec![0x01u8];
        assert(p@ =~= seq![0x01u8]);
        self.command_with(&mut out, Command::VDVVRHEN, p);
        let p = vec![0x12u8];
        assert(p@ =~= seq![0x12u8]);
        self.command_with(&mut out, Command::VRHS, p);
        let p = vec![0x20u8];
        assert(p@ =~= seq![0x20u8]);
        self.command_with(&mut out, Command::VDVS, p);
        let p = vec![0x0fu8];
        assert(p@ =~= seq![0x0fu8]);
        self.command_with(&mut out, Command::FRCTRL2, p);
        let p = vec![0xa4u8, 0xa1];
        assert(p@ =~= seq![0xa4u8, 0xa1]);
        self.command_with(&mut out, Command::PWCTRL1, p);
        let p = vec![0xD0u8, 0x08, 0x11, 0x08, 0x0c, 0x15, 0x39, 0x33, 0x50, 0x36, 0x13, 0x14, 0x29, 0x2d];
        assert(p@ =~= seq![0xD0u8, 0x08, 0x11, 0x08, 0x0c, 0x15, 0x39, 0x33, 0x50, 0x36, 0x13, 0x14, 0x29, 0x2d]);
        self.command_with(&mut out, Command::E0, p);
        let p = vec![0xd0u8, 0x08, 0x10, 0x08, 0x06, 0x06, 0x39, 0x44, 0x51, 0x0b, 0x16, 0x14, 0x2f, 0x31];
        assert(p@ =~= seq![0xd0u8, 0x08, 0x10, 0x08, 0x06, 0x06, 0x39, 0x44, 0x51, 0x0b, 0x16, 0x14, 0x2f, 0x31]);
        self.command_with(&mut out, Command::E1, p);
        self.command(&mut out, Command::INVON);
        self.command(&mut out, Command::SLPOUT);
        self.command(&mut out, Command::DISPON);
        out
    }
}

impl<PinError, SpiError> ST7789V<PinError, SpiError> {
    /// Sets the column range `[xs, xe)` of the address window. Fails with
    /// `InvalidColumnAddress`, and yields nothing to send, when the range is not valid:
    /// `xs > xe`, or the empty range at 0, whose inclusive end would wrap.
    pub fn column_address(&self, xs: u16, xe: u16) -> (r: Result<Vec<Op>, Error<PinError, SpiError>>)
        ensures
            match r {
                Ok(v) => valid_range(xs, xe) && ops_view(v@) == cmd_params_ops(
                    self@.has_cs,
                    Command::CASET,
                    range_params(xs, xe),
                ),
                Err(e) => !valid_range(xs, xe) && e == Error::<PinError, SpiError>::InvalidColumnAddress,
            },
    {
        if xs > xe || xe == 0 {
            return Err(Error::InvalidColumnAddress);
        }
        Ok(self.single_with(Command::CASET, range_bytes(xs, xe)))
    }

    /// Sets the row range `[rs, re)` of the address window. Fails with
    /// `InvalidRowAddress`, and yields nothing to send, when the range is not valid:
    /// `rs > re`, or the empty range at 0, whose inclusive end would wrap.
    pub fn row_address(&self, rs: u16, re: u16) -> (r: Result<Vec<Op>, Error<PinError, SpiError>>)
        ensures
            match r {
                Ok(v) => valid_range(rs, re) && ops_view(v@) == cmd_params_ops(
                    self@.has_cs,
                    Command::RASET,
                    range_params(rs, re),
                ),
                Err(e) => !valid_range(rs, re) && e == Error::<PinError, SpiError>::InvalidRowAddress,
            },
    {
        if rs > re || re == 0 {
            return Err(Error::InvalidRowAddress);
        }
        Ok(self.single_with(Command::RASET, range_bytes(rs, re)))
    }

    /// Appends the address window `[xs, xe) x [rs, re)` and the memory-write trigger.
    fn emit_window(&self, out: &mut Vec<Op>, xs: u16, rs: u16, xe: u16, re: u16)
        ensures
            ops_view(final(out)@) == ops_view(old(out)@) + window_ops(self@.has_cs, xs, rs, xe, re),
    {
        self.command_with(out, Command::CASET, range_bytes(xs, xe));
        self.command_with(out, Command::RASET, range_bytes(rs, re));
        self.command(out, Command::RAMWR);
        assert(ops_view(out@) =~= ops_view(old(out)@) + window_ops(self@.has_cs, xs, rs, xe, re));
    }

    /// Sets the address window to columns `[xs, xe)` and rows `[rs, re)`, then starts a
    /// memory write. An invalid column range fails with `InvalidColumnAddress`, else an
    /// invalid row range with `InvalidRowAddress`; either way nothing is sent.
    pub fn address_window(&self, xs: u16, rs: u16, xe: u16, re: u16) -> (r: Result<
        Vec<Op>,
        Error<PinError, SpiError>,
    >)
        ensures
            match r {
                Ok(v) => valid_range(xs, xe) && valid_range(rs, re) && ops_view(v@) == window_ops(
                    self@.has_cs,
                    xs,
                    rs,
                    xe,
                    re,
                ),
                Err(e) => (!valid_range(xs, xe) && e == Error::<PinError, SpiError>::InvalidColumnAddress)
                    || (valid_range(xs, xe) && !valid_range(rs, re) && e
                    == Error::<PinError, SpiError>::InvalidRowAddress),
            },
    {
        if xs > xe || xe == 0 {
            return Err(Error::InvalidColumnAddress);
        }
        if rs > re || re == 0 {
            return Err(Error::InvalidRowAddress);
        }
        let mut out: Vec<Op> = Vec::new();
        assert(ops_view(out@) =~= seq![]);
        self.emit_window(&mut out, xs, rs, xe, re);
        assert(ops_view(out@) =~= window_ops(self@.has_cs, xs, rs, xe, re));
        Ok(out)
    }

    /// Selects the orientation, and writes the memory-access-control preset that matches it.
    pub fn set_rotate(&mut self, rotate: Rotate) -> (r: Vec<Op>)
        ensures
            final(self)@ == (EngineState { rotate, ..old(self)@ }),
            ops_view(r@) == cmd_params_ops(
                old(self)@.has_cs,
                Command::MADCTL,
                seq![compose(rotation_preset(rotate))],
            ),
    {
        let config = match rotate {
            Rotate::Rotate0 => MemAccCtrlConfig::rotate_0(),
            Rotate::Rotate90 => MemAccCtrlConfig::rotate_90(),
            Rotate::Rotate180 => MemAccCtrlConfig::rotate_180(),
            Rotate::Rotate270 => MemAccCtrlConfig::rotate_270(),
        };
        let out = self.memory_access_control(config);
        self.rotate = rotate;
        out
    }

    /// The physical coordinate of the logical `(x, y)` in the current orientation.
    pub fn transfer_x_y(&self, x: u16, y: u16) -> (r: (u16, u16))
        ensures
            r == transform(self@.rotate, self@.width, self@.height, x, y),
    {
        transform_point(self.rotate, self.width, self.height, x, y)
    }

    /// Writes `data` to frame memory: the memory-write command with `data` as parameters.
    pub fn mem_write(&self, data: &[u8]) -> (r: Vec<Op>)
        ensures
            ops_view(r@) == cmd_params_ops(self@.has_cs, Command::RAMWR, data@),
    {
        let mut p: Vec<u8> = Vec::new();
        append_range(&mut p, data, 0, data.len());
        assert(p@ =~= data@);
        self.single_with(Command::RAMWR, p)
    }

    /// The physical window spanned by the logical corners `(xs, ys)` and `(xe, ye)`.
    fn window_of(&self, xs: u16, ys: u16, xe: u16, ye: u16) -> (r: (u16, u16, u16, u16))
        ensures
            r == corner_window(self@, xs, ys, xe, ye),
    {
        let (sx, sy) = self.transfer_x_y(xs, ys);
        let (ex, ey) = self.transfer_x_y(xe, ye);
        let (x0, x1) = if sx > ex {
            (ex, sx)
        } else {
            (sx, ex)
        };
        let (y0, y1) = if sy > ey {
            (ey, sy)
        } else {
            (sy, ey)
        };
        (x0, y0, x1, y1)
    }

    /// Sets the pixel at the logical `(x, y)` to `color`: the block write of one color over
    /// `[x, x + 1) x [y, y + 1)`, whose window is the physical single point, then the color
    /// high byte first. Fails when `x + 1` (`InvalidColumnAddress`) or else `y + 1`
    /// (`InvalidRowAddress`) does not fit in 16 bits; nothing is sent then.
    pub fn pixel(&self, x: u16, y: u16, color: u16) -> (r: Result<Vec<Op>, Error<PinError, SpiError>>)
        ensures
            match r {
                Ok(v) => x < 0xFFFF && y < 0xFFFF && ops_view(v@) == pixel_ops(self@, x, y, color),
                Err(e) => (x == 0xFFFF && e == Error::<PinError, SpiError>::InvalidColumnAddress) || (x
                    < 0xFFFF && y == 0xFFFF && e == Error::<PinError, SpiError>::InvalidRowAddress),
            },
    {
        if x == 0xFFFF {
            return Err(Error::InvalidColumnAddress);
        }
        if y == 0xFFFF {
            return Err(Error::InvalidRowAddress);
        }
        let (x0, y0, x1, y1) = self.window_of(x, y, x + 1, y + 1);
        let mut out: Vec<Op> = Vec::new();
        assert(ops_view(out@) =~= seq![]);
        self.emit_window(&mut out, x0, y0, x1, y1);
        let (h, l) = split_u16(color);
        let p = vec![h, l];
        assert(p@ =~= seq![hi(color), lo(color)]);
        self.command_with(&mut out, Command::RAMWR, p);
        assert(ops_view(out@) =~= pixel_ops(self@, x, y, color));
        Ok(out)
    }
}

impl<PinError, SpiError> ST7789V<PinError, SpiError> {
    /// Writes a block of pixels. Both corners are mapped to physical coordinates, the window
    /// spans from their smaller to their larger coordinates, and a memory write follows. A
    /// window whose column (else row) range is the empty range at 0 fails with
    /// `InvalidColumnAddress` (else `InvalidRowAddress`), and nothing is sent. The
    /// colors are then sent high byte first, in writes of at most 4096 bytes, with the rows
    /// in reverse order where the orientation reverses rows.
    pub fn pixels(&self, xs: u16, ys: u16, xe: u16, ye: u16, colors: &[u16]) -> (r: Result<
        Vec<Op>,
        Error<PinError, SpiError>,
    >)
        requires
            colors@.len() * 2 <= usize::MAX,
        ensures
            ({
                let (x0, y0, x1, y1) = corner_window(self@, xs, ys, xe, ye);
                match r {
                    Ok(v) => x1 > 0 && y1 > 0 && ops_view(v@) == pixels_ops(self@, xs, ys, xe, ye, colors@),
                    Err(e) => (x1 == 0 && e == Error::<PinError, SpiError>::InvalidColumnAddress) || (x1
                        > 0 && y1 == 0 && e == Error::<PinError, SpiError>::InvalidRowAddress),
                }
            }),
    {
        let (x0, y0, x1, y1) = self.window_of(xs, ys, xe, ye);
        if x1 == 0 {
            return Err(Error::InvalidColumnAddress);
        }
        if y1 == 0 {
            return Err(Error::InvalidRowAddress);
        }
        let mut out: Vec<Op> = Vec::new();
        assert(ops_view(out@) =~= seq![]);
        self.emit_window(&mut out, x0, y0, x1, y1);
        let empty: Vec<u8> = Vec::new();
        assert(empty@ =~= seq![]);
        self.command_with(&mut out, Command::RAMWR, empty);
        emit_cs(&mut out, self.has_cs, Op::CsLow);
        emit(&mut out, Op::DcHigh);
        let bytes = encode_colors(colors);
        let cols: usize = (x1 - x0) as usize;
        let flip = match self.rotate {
            Rotate::Rotate180 | Rotate::Rotate270 => true,
            _ => false,
        };
        let payload = if flip && cols > 0 {
            reverse_rows(&bytes, 2 * cols)
        } else {
            bytes
        };
        emit_chunks(&mut out, &payload, CHUNK_SIZE);
        emit_cs(&mut out, self.has_cs, Op::CsHigh);
        assert(ops_view(out@) =~= pixels_ops(self@, xs, ys, xe, ye, colors@));
        Ok(out)
    }
}

/// A pixel-block write of `N` colors frames its payload as the window, the memory-write
/// trigger and the data phase, then sends `ceil(2N / 4096)` bus writes of 1 to 4096 bytes
/// each. Their concatenation is the colors high byte first, in order, or that with its rows
/// (as wide as the window) in reverse order where the orientation reverses rows.
pub proof fn lemma_pixels_payload(s: EngineState, xs: u16, ys: u16, xe: u16, ye: u16, colors: Seq<u16>)
    ensures
        ({
            let (x0, y0, x1, y1) = corner_window(s, xs, ys, xe, ye);
            let cols = (x1 - x0) as nat;
            let pieces = payload_pieces(s, xs, ys, xe, ye, colors);
            &&& pixels_ops(s, xs, ys, xe, ye, colors) == window_ops(s.has_cs, x0, y0, x1, y1)
                + cmd_params_ops(s.has_cs, Command::RAMWR, seq![]) + cs_step(s.has_cs, OpView::CsLow)
                + seq![OpView::DcHigh] + writes(pieces) + cs_step(s.has_cs, OpView::CsHigh)
            &&& pieces.len() == (2 * colors.len() + 4095) / 4096
            &&& forall|i: int| 0 <= i < pieces.len() ==> 0 < #[trigger] pieces[i].len() <= 4096
            &&& pieces.flatten() == if flips_rows(s.rotate) && cols > 0 {
                rows_reversed(be_bytes(colors), 2 * cols)
            } else {
                be_bytes(colors)
            }
            &&& be_bytes(colors).len() == 2 * colors.len()
            &&& forall|i: int| 0 <= i < colors.len() ==> #[trigger] be_bytes(colors)[2 * i] == hi(colors[i])
                && be_bytes(colors)[2 * i + 1] == lo(colors[i])
        }),
{
    let (x0, y0, x1, y1) = corner_window(s, xs, ys, xe, ye);
    let cols = (x1 - x0) as nat;
    let bytes = stream_bytes(s.rotate, colors, cols);
    lemma_be_bytes_len(colors);
    lemma_be_bytes_index(colors);
    lemma_rows_reversed_len(be_bytes(colors), 2 * cols);
    lemma_chunks(bytes, CHUNK_SIZE as nat);
}

} // verus!
