//! Configuration values consumed once when a driver is constructed.

use vstd::prelude::*;

verus! {

/// Character cell size of the attached display, 5x8 or 5x10 dots.
#[derive(Clone, Copy, Debug, PartialEq, Eq, Structural)]
pub enum LcdCharsize {
    DOTS5x10,
    DOTS5x8,
}

/// Function-set bit pattern selecting the character cell size.
pub open spec fn charsize_bits(c: LcdCharsize) -> u8 {
    match c {
        LcdCharsize::DOTS5x10 => 0x04,
        LcdCharsize::DOTS5x8 => 0x00,
    }
}

impl LcdCharsize {
    /// The function-set bits this cell size contributes.
    pub fn bits(&self) -> (b: u8)
        ensures
            b == charsize_bits(*self),
    {
        match self {
            LcdCharsize::DOTS5x10 => 0x04,
            LcdCharsize::DOTS5x8 => 0x00,
        }
    }
}

/// Whether the expander's backlight line is driven high.
#[derive(Clone, Copy, Debug, PartialEq, Eq, Structural)]
pub enum LcdBacklight {
    Backlight,
    NoBacklight,
}

/// Expander bit pattern carrying the backlight state (bit 3).
pub open spec fn backlight_bits(b: LcdBacklight) -> u8 {
    match b {
        LcdBacklight::Backlight => 0x08,
        LcdBacklight::NoBacklight => 0x00,
    }
}

impl LcdBacklight {
    /// The expander bits this backlight state contributes.
    pub fn bits(&self) -> (b: u8)
        ensures
            b == backlight_bits(*self),
    {
        match self {
            LcdBacklight::Backlight => 0x08,
            LcdBacklight::NoBacklight => 0x00,
        }
    }
}

/// Initial driver configuration: 7-bit bus address, row count, character cell
/// size, and initial backlight state.
#[derive(Clone, Debug)]
pub struct Config {
    pub addr: u8,
    pub rows: u8,
    pub charsize: LcdCharsize,
    pub lcd_backlight: LcdBacklight,
}

impl Default for Config {
    /// Address 0x3F, two rows, 5x8 dots, backlight on.
    fn default() -> (c: Self)
        ensures
            c.addr == 0x3f,
            c.rows == 2,
            c.charsize == LcdCharsize::DOTS5x8,
            c.lcd_backlight == LcdBacklight::Backlight,
    {
        Config {
            addr: 0x3f,
            rows: 2,
            charsize: LcdCharsize::DOTS5x8,
            lcd_backlight: LcdBacklight::Backlight,
        }
    }
}

} // verus!
