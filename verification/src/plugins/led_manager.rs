//! The status light: its colour, its mode, and the settings that hold the
//! pins of each colour.

use vstd::prelude::*;

verus! {

/// A colour, by its red, green and blue parts.
#[derive(Debug, Clone, Copy, PartialEq, Eq, Structural)]
pub struct LedColor {
    pub r: u8,
    pub g: u8,
    pub b: u8,
}

impl LedColor {
    /// No light.
    pub fn off() -> (out: LedColor)
        ensures
            out == (LedColor { r: 0, g: 0, b: 0 }),
    {
        LedColor { r: 0, g: 0, b: 0 }
    }

    /// White.
    pub fn white() -> (out: LedColor)
        ensures
            out == (LedColor { r: 255, g: 255, b: 255 }),
    {
        LedColor { r: 255, g: 255, b: 255 }
    }

    /// Red.
    pub fn red() -> (out: LedColor)
        ensures
            out == (LedColor { r: 255, g: 0, b: 0 }),
    {
        LedColor { r: 255, g: 0, b: 0 }
    }

    /// Green.
    pub fn green() -> (out: LedColor)
        ensures
            out == (LedColor { r: 0, g: 255, b: 0 }),
    {
        LedColor { r: 0, g: 255, b: 0 }
    }

    /// Blue.
    pub fn blue() -> (out: LedColor)
        ensures
            out == (LedColor { r: 0, g: 0, b: 255 }),
    {
        LedColor { r: 0, g: 0, b: 255 }
    }

    /// Purple.
    pub fn purple() -> (out: LedColor)
        ensures
            out == (LedColor { r: 128, g: 0, b: 128 }),
    {
        LedColor { r: 128, g: 0, b: 128 }
    }

    /// Yellow.
    pub fn yellow() -> (out: LedColor)
        ensures
            out == (LedColor { r: 255, g: 180, b: 0 }),
    {
        LedColor { r: 255, g: 180, b: 0 }
    }

    /// Orange.
    pub fn orange() -> (out: LedColor)
        ensures
            out == (LedColor { r: 255, g: 80, b: 0 }),
    {
        LedColor { r: 255, g: 80, b: 0 }
    }
}

impl Default for LedColor {
    /// No light at all.
    fn default() -> (out: LedColor)
        ensures
            out == (LedColor { r: 0, g: 0, b: 0 }),
    {
        LedColor { r: 0, g: 0, b: 0 }
    }
}

/// One of the three colours that a pin can drive.
#[derive(Debug, Clone, Copy, PartialEq, Eq, Structural)]
pub enum PinColor {
    Red,
    Green,
    Blue,
}

/// How the light shows its colour: pulsing with a period in microseconds, or
/// steadily.
#[derive(Debug, Clone, Copy, PartialEq, Eq, Structural)]
pub enum LedColorMode {
    Pulse(LedColor, u64),
    Solid(LedColor),
}

impl Default for LedColorMode {
    /// Steady red.
    fn default() -> (out: LedColorMode)
        ensures
            out == LedColorMode::Solid(LedColor { r: 255, g: 0, b: 0 }),
    {
        LedColorMode::Solid(LedColor { r: 255, g: 0, b: 0 })
    }
}

/// The state of the light.
#[derive(Debug, Clone, Copy, PartialEq, Eq, Structural)]
pub struct LedState {
    pub brightness: u8,
    pub mode: LedColorMode,
}

impl Default for LedState {
    /// Dark, in the default mode.
    fn default() -> (out: LedState)
        ensures
            out == (LedState {
                brightness: 0,
                mode: LedColorMode::Solid(LedColor { r: 255, g: 0, b: 0 }),
            }),
    {
        LedState { brightness: 0, mode: LedColorMode::Solid(LedColor { r: 255, g: 0, b: 0 }) }
    }
}

/// The period of the pulse signal of a steady light, in microseconds.
pub const DEFAULT_PWM_PERIOD_US: u64 = 20000;

impl LedState {
    /// The state in which the light is switched on: full brightness, steady
    /// white.
    pub fn initial() -> (out: LedState)
        ensures
            out == (LedState {
                brightness: 255,
                mode: LedColorMode::Solid(LedColor { r: 255, g: 255, b: 255 }),
            }),
    {
        LedState { brightness: 255, mode: LedColorMode::Solid(LedColor { r: 255, g: 255, b: 255 }) }
    }

    /// The colour that the light shows.
    pub fn color(&self) -> (out: LedColor)
        ensures
            out == (match self.mode {
                LedColorMode::Pulse(color, _) => color,
                LedColorMode::Solid(color) => color,
            }),
    {
        match self.mode {
            LedColorMode::Pulse(color, _) => color,
            LedColorMode::Solid(color) => color,
        }
    }

    /// The period of the pulse signal that drives the pins, in microseconds:
    /// that of the pulse mode, or the default period for a steady light.
    pub fn period_us(&self) -> (out: u64)
        ensures
            out == (match self.mode {
                LedColorMode::Pulse(_, period) => period,
                LedColorMode::Solid(_) => DEFAULT_PWM_PERIOD_US,
            }),
    {
        match self.mode {
            LedColorMode::Pulse(_, period) => period,
            LedColorMode::Solid(_) => DEFAULT_PWM_PERIOD_US,
        }
    }
}

/// The setting that lists the pins of a colour.
pub fn pin_config_key(color: PinColor) -> (out: &'static str)
    ensures
        out@ == (match color {
            PinColor::Red => "led-red-pins"@,
            PinColor::Green => "led-green-pins"@,
            PinColor::Blue => "led-blue-pins"@,
        }),
{
    match color {
        PinColor::Red => "led-red-pins",
        PinColor::Green => "led-green-pins",
        PinColor::Blue => "led-blue-pins",
    }
}

} // verus!
