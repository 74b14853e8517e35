//! The controller's command set and opcodes.
use vstd::prelude::*;

verus! {

/// A controller command; each has one fixed opcode byte.
#[allow(non_camel_case_types)]
#[derive(Clone, Copy, Debug, PartialEq, Eq)]
pub enum Command {
    NOP,
    SWRESET,
    SLPIN,
    SLPOUT,
    PTLON,
    NORON,
    INVOFF,
    INVON,
    DISPOFF,
    DISPON,
    CASET,
    RASET,
    RAMWR,
    MADCTL,
    IDMOFF,
    IDMON,
    COLMOD,
    PORCTRL,
    GCTRL,
    VCOMS,
    LCMCTRL,
    VDVVRHEN,
    VRHS,
    VDVS,
    FRCTRL2,
    PWCTRL1,
    UNKNOWN_D6,
    E0,
    E1,
}

impl Command {
    /// The opcode byte of the command.
    pub open spec fn opcode(self) -> u8 {
        match self {
            Command::NOP => 0x00,
            Command::SWRESET => 0x01,
            Command::SLPIN => 0x10,
            Command::SLPOUT => 0x11,
            Command::PTLON => 0x12,
            Command::NORON => 0x13,
            Command::INVOFF => 0x20,
            Command::INVON => 0x21,
            Command::DISPOFF => 0x28,
            Command::DISPON => 0x29,
            Command::CASET => 0x2A,
            Command::RASET => 0x2B,
            Command::RAMWR => 0x2C,
            Command::MADCTL => 0x36,
            Command::IDMOFF => 0x38,
            Command::IDMON => 0x39,
            Command::COLMOD => 0x3A,
            Command::PORCTRL => 0xB2,
            Command::GCTRL => 0xB7,
            Command::VCOMS => 0xBB,
            Command::LCMCTRL => 0xC0,
            Command::VDVVRHEN => 0xC2,
            Command::VRHS => 0xC3,
            Command::VDVS => 0xC4,
            Command::FRCTRL2 => 0xC6,
            Command::PWCTRL1 => 0xD0,
            Command::UNKNOWN_D6 => 0xD6,
            Command::E0 => 0xE0,
            Command::E1 => 0xE1,
        }
    }

    /// Opcode byte as sent on the bus.
    pub fn value(self) -> (r: u8)
        ensures
            r == self.opcode(),
    {
        match self {
            Command::NOP => 0x00,
            Command::SWRESET => 0x01,
            Command::SLPIN => 0x10,
            Command::SLPOUT => 0x11,
            Command::PTLON => 0x12,
            Command::NORON => 0x13,
            Command::INVOFF => 0x20,
            Command::INVON => 0x21,
            Command::DISPOFF => 0x28,
            Command::DISPON => 0x29,
            Command::CASET => 0x2A,
            Command::RASET => 0x2B,
            Command::RAMWR => 0x2C,
            Command::MADCTL => 0x36,
            Command::IDMOFF => 0x38,
            Command::IDMON => 0x39,
            Command::COLMOD => 0x3A,
            Command::PORCTRL => 0xB2,
            Command::GCTRL => 0xB7,
            Command::VCOMS => 0xBB,
            Command::LCMCTRL => 0xC0,
            Command::VDVVRHEN => 0xC2,
            Command::VRHS => 0xC3,
            Command::VDVS => 0xC4,
            Command::FRCTRL2 => 0xC6,
            Command::PWCTRL1 => 0xD0,
            Command::UNKNOWN_D6 => 0xD6,
            Command::E0 => 0xE0,
            Command::E1 => 0xE1,
        }
    }
}

} // verus!
