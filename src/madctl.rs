//! Register values: the color format and the memory-access-control bitfield.
use vstd::prelude::*;

verus! {

/// RGB and control interface color format (COLMOD register).
#[allow(non_camel_case_types)]
#[derive(Clone, Copy, Debug, PartialEq, Eq)]
pub enum ColorFormat {
    /// RGB interface 65K, 8-bit data but for 16 bit/pixel
    RGB65K_CI8Bit,
    /// RGB interface 65K, control interface 12 bit/pixel
    RGB65K_CI12Bit,
    /// RGB interface 65K, control interface 16 bit/pixel
    RGB65K_CI16Bit,
    /// RGB interface 65K, control interface 18 bit/pixel
    RGB65K_CI18Bit,
    /// RGB interface 65K, control interface 16M truncated
    RGB65K_CI16MTrunc,
    /// RGB interface 262K, control interface 12 bit/pixel
    RGB262K_CI12Bit,
    /// RGB interface 262K, control interface 16 bit/pixel
    RGB262K_CI16Bit,
    /// RGB interface 262K, control interface 18 bit/pixel
    RGB262K_CI18Bit,
    /// RGB interface 262K, control interface 16M truncated
    RGB262K_CI16MTrunc,
}

impl ColorFormat {
    /// The bit pattern of this option.
    pub open spec fn bits(self) -> u8 {
        match self {
            ColorFormat::RGB65K_CI8Bit => 0b0000_0101,
            ColorFormat::RGB65K_CI12Bit => 0b0101_0011,
            ColorFormat::RGB65K_CI16Bit => 0b0101_0101,
            ColorFormat::RGB65K_CI18Bit => 0b0101_0110,
            ColorFormat::RGB65K_CI16MTrunc => 0b0101_0111,
            ColorFormat::RGB262K_CI12Bit => 0b0110_0011,
            ColorFormat::RGB262K_CI16Bit => 0b0110_0101,
            ColorFormat::RGB262K_CI18Bit => 0b0110_0110,
            ColorFormat::RGB262K_CI16MTrunc => 0b0110_0111,
        }
    }

    /// The bit pattern of this option, as written to the register.
    pub fn value(self) -> (r: u8)
        ensures
            r == self.bits(),
    {
        match self {
            ColorFormat::RGB65K_CI8Bit => 0b0000_0101,
            ColorFormat::RGB65K_CI12Bit => 0b0101_0011,
            ColorFormat::RGB65K_CI16Bit => 0b0101_0101,
            ColorFormat::RGB65K_CI18Bit => 0b0101_0110,
            ColorFormat::RGB65K_CI16MTrunc => 0b0101_0111,
            ColorFormat::RGB262K_CI12Bit => 0b0110_0011,
            ColorFormat::RGB262K_CI16Bit => 0b0110_0101,
            ColorFormat::RGB262K_CI18Bit => 0b0110_0110,
            ColorFormat::RGB262K_CI16MTrunc => 0b0110_0111,
        }
    }
}

/// Page address order (MY bit).
#[derive(Clone, Copy, Debug, PartialEq, Eq)]
pub enum PageAddressOrder {
    TopToBottom,
    BottomToTop,
}

impl PageAddressOrder {
    /// The bit pattern of this option.
    pub open spec fn bits(self) -> u8 {
        match self {
            PageAddressOrder::TopToBottom => 0b0000_0000,
            PageAddressOrder::BottomToTop => 0b1000_0000,
        }
    }

    /// The bit pattern of this option, as written to the register.
    pub fn value(self) -> (r: u8)
        ensures
            r == self.bits(),
    {
        match self {
            PageAddressOrder::TopToBottom => 0b0000_0000,
            PageAddressOrder::BottomToTop => 0b1000_0000,
        }
    }
}

/// Column address order (MX bit).
#[derive(Clone, Copy, Debug, PartialEq, Eq)]
pub enum ColumnAddressOrder {
    RightToLeft,
    LeftToRight,
}

impl ColumnAddressOrder {
    /// The bit pattern of this option.
    pub open spec fn bits(self) -> u8 {
        match self {
            ColumnAddressOrder::RightToLeft => 0b0000_0000,
            ColumnAddressOrder::LeftToRight => 0b0100_0000,
        }
    }

    /// The bit pattern of this option, as written to the register.
    pub fn value(self) -> (r: u8)
        ensures
            r == self.bits(),
    {
        match self {
            ColumnAddressOrder::RightToLeft => 0b0000_0000,
            ColumnAddressOrder::LeftToRight => 0b0100_0000,
        }
    }
}

/// Page/column exchange (MV bit).
#[derive(Clone, Copy, Debug, PartialEq, Eq)]
pub enum PageColumnOrder {
    NormalMode,
    ReverseMode,
}

impl PageColumnOrder {
    /// The bit pattern of this option.
    pub open spec fn bits(self) -> u8 {
        match self {
            PageColumnOrder::NormalMode => 0b0000_0000,
            PageColumnOrder::ReverseMode => 0b0010_0000,
        }
    }

    /// The bit pattern of this option, as written to the register.
    pub fn value(self) -> (r: u8)
        ensures
            r == self.bits(),
    {
        match self {
            PageColumnOrder::NormalMode => 0b0000_0000,
            PageColumnOrder::ReverseMode => 0b0010_0000,
        }
    }
}

/// Line address order (ML bit).
#[derive(Clone, Copy, Debug, PartialEq, Eq)]
pub enum LineAddressOrder {
    TopToBottom,
    BottomToTop,
}

impl LineAddressOrder {
    /// The bit pattern of this option.
    pub open spec fn bits(self) -> u8 {
        match self {
            LineAddressOrder::TopToBottom => 0b0000_0000,
            LineAddressOrder::BottomToTop => 0b0001_0000,
        }
    }

    /// The bit pattern of this option, as written to the register.
    pub fn value(self) -> (r: u8)
        ensures
            r == self.bits(),
    {
        match self {
            LineAddressOrder::TopToBottom => 0b0000_0000,
            LineAddressOrder::BottomToTop => 0b0001_0000,
        }
    }
}

/// Color order (RGB bit).
#[derive(Clone, Copy, Debug, PartialEq, Eq)]
pub enum ColorOrder {
    Rgb,
    Bgr,
}

impl ColorOrder {
    /// The bit pattern of this option.
    pub open spec fn bits(self) -> u8 {
        match self {
            ColorOrder::Rgb => 0b0000_0000,
            ColorOrder::Bgr => 0b0000_1000,
        }
    }

    /// The bit pattern of this option, as written to the register.
    pub fn value(self) -> (r: u8)
        ensures
            r == self.bits(),
    {
        match self {
            ColorOrder::Rgb => 0b0000_0000,
            ColorOrder::Bgr => 0b0000_1000,
        }
    }
}

/// Display data latch order (MH bit).
#[derive(Clone, Copy, Debug, PartialEq, Eq)]
pub enum LatchOrder {
    LeftToRight,
    RightToLeft,
}

impl LatchOrder {
    /// The bit pattern of this option.
    pub open spec fn bits(self) -> u8 {
        match self {
            LatchOrder::LeftToRight => 0b0000_0000,
            LatchOrder::RightToLeft => 0b0000_0100,
        }
    }

    /// The bit pattern of this option, as written to the register.
    pub fn value(self) -> (r: u8)
        ensures
            r == self.bits(),
    {
        match self {
            LatchOrder::LeftToRight => 0b0000_0000,
            LatchOrder::RightToLeft => 0b0000_0100,
        }
    }
}

/// The six fields of the memory-access-control register.
#[derive(Clone, Copy, Debug, PartialEq, Eq)]
pub struct MemAccCtrlConfig {
    pub color_order: ColorOrder,
    pub latch_order: LatchOrder,
    pub line_order: LineAddressOrder,
    pub page_order: PageAddressOrder,
    pub page_column_order: PageColumnOrder,
    pub column_order: ColumnAddressOrder,
}

/// The register byte of a configuration: the OR of its six fields.
pub open spec fn compose(c: MemAccCtrlConfig) -> u8 {
    c.color_order.bits() | c.latch_order.bits() | c.line_order.bits() | c.page_order.bits()
        | c.page_column_order.bits() | c.column_order.bits()
}

/// The fields of [`MemAccCtrlConfig::default`].
pub open spec fn preset_default() -> MemAccCtrlConfig {
    MemAccCtrlConfig {
        color_order: ColorOrder::Rgb,
        latch_order: LatchOrder::RightToLeft,
        line_order: LineAddressOrder::TopToBottom,
        page_order: PageAddressOrder::BottomToTop,
        page_column_order: PageColumnOrder::ReverseMode,
        column_order: ColumnAddressOrder::RightToLeft,
    }
}

/// The fields of [`MemAccCtrlConfig::rotate_0`].
pub open spec fn preset_rotate_0() -> MemAccCtrlConfig {
    MemAccCtrlConfig {
        color_order: ColorOrder::Rgb,
        latch_order: LatchOrder::LeftToRight,
        line_order: LineAddressOrder::TopToBottom,
        page_order: PageAddressOrder::TopToBottom,
        page_column_order: PageColumnOrder::NormalMode,
        column_order: ColumnAddressOrder::RightToLeft,
    }
}

/// The fields of [`MemAccCtrlConfig::rotate_90`].
pub open spec fn preset_rotate_90() -> MemAccCtrlConfig {
    MemAccCtrlConfig {
        color_order: ColorOrder::Rgb,
        latch_order: LatchOrder::LeftToRight,
        line_order: LineAddressOrder::TopToBottom,
        page_order: PageAddressOrder::BottomToTop,
        page_column_order: PageColumnOrder::NormalMode,
        column_order: ColumnAddressOrder::RightToLeft,
    }
}

/// The fields of [`MemAccCtrlConfig::rotate_180`].
pub open spec fn preset_rotate_180() -> MemAccCtrlConfig {
    MemAccCtrlConfig {
        color_order: ColorOrder::Rgb,
        latch_order: LatchOrder::LeftToRight,
        line_order: LineAddressOrder::TopToBottom,
        page_order: PageAddressOrder::BottomToTop,
        page_column_order: PageColumnOrder::NormalMode,
        column_order: ColumnAddressOrder::LeftToRight,
    }
}

/// The fields of [`MemAccCtrlConfig::rotate_270`].
pub open spec fn preset_rotate_270() -> MemAccCtrlConfig {
    MemAccCtrlConfig {
        color_order: ColorOrder::Rgb,
        latch_order: LatchOrder::LeftToRight,
        line_order: LineAddressOrder::TopToBottom,
        page_order: PageAddressOrder::TopToBottom,
        page_column_order: PageColumnOrder::NormalMode,
        column_order: ColumnAddressOrder::LeftToRight,
    }
}

impl MemAccCtrlConfig {
    /// The controller's documented reset-default orientation.
    pub fn default() -> (r: Self)
        ensures
            r == preset_default(),
    {
        MemAccCtrlConfig {
            color_order: ColorOrder::Rgb,
            latch_order: LatchOrder::RightToLeft,
            line_order: LineAddressOrder::TopToBottom,
            page_order: PageAddressOrder::BottomToTop,
            page_column_order: PageColumnOrder::ReverseMode,
            column_order: ColumnAddressOrder::RightToLeft,
        }
    }

    /// Orientation for [`Rotate::Rotate0`](crate::geometry::Rotate).
    pub fn rotate_0() -> (r: Self)
        ensures
            r == preset_rotate_0(),
    {
        MemAccCtrlConfig {
            color_order: ColorOrder::Rgb,
            latch_order: LatchOrder::LeftToRight,
            line_order: LineAddressOrder::TopToBottom,
            page_order: PageAddressOrder::TopToBottom,
            page_column_order: PageColumnOrder::NormalMode,
            column_order: ColumnAddressOrder::RightToLeft,
        }
    }

    /// Orientation for [`Rotate::Rotate90`](crate::geometry::Rotate).
    pub fn rotate_90() -> (r: Self)
        ensures
            r == preset_rotate_90(),
    {
        MemAccCtrlConfig {
            color_order: ColorOrder::Rgb,
            latch_order: LatchOrder::LeftToRight,
            line_order: LineAddressOrder::TopToBottom,
            page_order: PageAddressOrder::BottomToTop,
            page_column_order: PageColumnOrder::NormalMode,
            column_order: ColumnAddressOrder::RightToLeft,
        }
    }

    /// Orientation for [`Rotate::Rotate180`](crate::geometry::Rotate).
    pub fn rotate_180() -> (r: Self)
        ensures
            r == preset_rotate_180(),
    {
        MemAccCtrlConfig {
            color_order: ColorOrder::Rgb,
            latch_order: LatchOrder::LeftToRight,
            line_order: LineAddressOrder::TopToBottom,
            page_order: PageAddressOrder::BottomToTop,
            page_column_order: PageColumnOrder::NormalMode,
            column_order: ColumnAddressOrder::LeftToRight,
        }
    }

    /// Orientation for [`Rotate::Rotate270`](crate::geometry::Rotate).
    pub fn rotate_270() -> (r: Self)
        ensures
            r == preset_rotate_270(),
    {
        MemAccCtrlConfig {
            color_order: ColorOrder::Rgb,
            latch_order: LatchOrder::LeftToRight,
            line_order: LineAddressOrder::TopToBottom,
            page_order: PageAddressOrder::TopToBottom,
            page_column_order: PageColumnOrder::NormalMode,
            column_order: ColumnAddressOrder::LeftToRight,
        }
    }

    /// Sets the color order field; the others are kept.
    pub fn color_order(&mut self, color_order: ColorOrder) -> (r: &mut Self)
        ensures
            *r == (MemAccCtrlConfig { color_order, ..*old(self) }),
            *final(self) == *final(r),
    {
        self.color_order = color_order;
        self
    }

    /// Sets the latch order field; the others are kept.
    pub fn latch_order(&mut self, latch_order: LatchOrder) -> (r: &mut Self)
        ensures
            *r == (MemAccCtrlConfig { latch_order, ..*old(self) }),
            *final(self) == *final(r),
    {
        self.latch_order = latch_order;
        self
    }

    /// Sets the line order field; the others are kept.
    pub fn line_order(&mut self, line_order: LineAddressOrder) -> (r: &mut Self)
        ensures
            *r == (MemAccCtrlConfig { line_order, ..*old(self) }),
            *final(self) == *final(r),
    {
        self.line_order = line_order;
        self
    }

    /// Sets the page order field; the others are kept.
    pub fn page_order(&mut self, page_order: PageAddressOrder) -> (r: &mut Self)
        ensures
            *r == (MemAccCtrlConfig { page_order, ..*old(self) }),
            *final(self) == *final(r),
    {
        self.page_order = page_order;
        self
    }

    /// Sets the page column order field; the others are kept.
    pub fn page_column_order(&mut self, page_column_order: PageColumnOrder) -> (r: &mut Self)
        ensures
            *r == (MemAccCtrlConfig { page_column_order, ..*old(self) }),
            *final(self) == *final(r),
    {
        self.page_column_order = page_column_order;
        self
    }

    /// Sets the column order field; the others are kept.
    pub fn column_order(&mut self, column_order: ColumnAddressOrder) -> (r: &mut Self)
        ensures
            *r == (MemAccCtrlConfig { column_order, ..*old(self) }),
            *final(self) == *final(r),
    {
        self.column_order = column_order;
        self
    }

    /// The register byte: the OR of the six fields' bit patterns.
    pub fn value(self) -> (r: u8)
        ensures
            r == compose(self),
    {
        self.color_order.value() | self.latch_order.value() | self.line_order.value()
            | self.page_order.value() | self.page_column_order.value() | self.column_order.value()
    }
}

/// The reset-default orientation preset composes to the register byte `0xA4`:
/// latch order right-to-left, page order bottom-to-top and page/column exchange set.
pub proof fn lemma_default_value()
    ensures
        compose(preset_default()) == 0xA4u8,
{
    assert(0u8 | 4u8 | 0u8 | 0x80u8 | 0x20u8 | 0u8 == 0xA4u8) by (bit_vector);
}

} // verus!
