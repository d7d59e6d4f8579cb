//! General-purpose pins: which line of which chip a pin is, and the pulse
//! signal that drives it.

use vstd::prelude::*;

verus! {

/// The direction of a pin.
#[derive(Debug, PartialEq, Eq, Copy, Clone, Structural)]
pub enum PinMode {
    Output,
    Input,
}

/// The period of a pulse signal where none is set, in microseconds.
pub const DEFAULT_PWN_PERIOD_US: u64 = 20000;

/// A pulse signal: the length of its period and of the pulse within each
/// period, in nanoseconds.
#[derive(Debug, PartialEq, Eq, Copy, Clone, Structural)]
pub struct PwmSignalSettings {
    pub period: u64,
    pub pulse_width: u64,
}

/// What the thread that drives a pin is told.
#[derive(Debug, PartialEq, Eq, Copy, Clone, Structural)]
pub enum PwmSignal {
    Stop,
    Update(PwmSignalSettings),
}

impl PwmSignalSettings {
    /// The settings as the driving thread takes them: a pulse is never longer
    /// than its period.
    pub fn adjusted(&self) -> (out: PwmSignalSettings)
        ensures
            out.period == self.period,
            out.pulse_width == (if self.pulse_width > self.period {
                self.period
            } else {
                self.pulse_width
            }),
    {
        PwmSignalSettings {
            period: self.period,
            pulse_width: if self.pulse_width > self.period {
                self.period
            } else {
                self.pulse_width
            },
        }
    }

    /// The signal that holds a pin high: the pulse fills the default period.
    pub fn high() -> (out: PwmSignalSettings)
        ensures
            out.period == DEFAULT_PWN_PERIOD_US * 1000,
            out.pulse_width == DEFAULT_PWN_PERIOD_US * 1000,
    {
        PwmSignalSettings {
            period: DEFAULT_PWN_PERIOD_US * 1000,
            pulse_width: DEFAULT_PWN_PERIOD_US * 1000,
        }
    }

    /// The signal that holds a pin low: no pulse in the default period.
    pub fn low() -> (out: PwmSignalSettings)
        ensures
            out.period == DEFAULT_PWN_PERIOD_US * 1000,
            out.pulse_width == 0,
    {
        PwmSignalSettings { period: DEFAULT_PWN_PERIOD_US * 1000, pulse_width: 0 }
    }
}

/// The sum of the line counts of the first `upto` chips.
pub open spec fn lines_before(counts: Seq<u32>, upto: int) -> int
    decreases upto,
{
    if upto <= 0 {
        0
    } else {
        lines_before(counts, upto - 1) + counts[upto - 1]
    }
}

/// The chip that holds the pin of a number, and the line of the pin on that
/// chip, where the lines of all chips are numbered through in the order of
/// the chips. Nothing where the chips have too few lines.
pub fn locate_line(counts: &Vec<u32>, offset: u32) -> (out: Option<(usize, u32)>)
    ensures
        match out {
            Some((chip, line)) => chip < counts.len() && line < counts@[chip as int]
                && lines_before(counts@, chip as int) + line == offset,
            None => lines_before(counts@, counts.len() as int) <= offset,
        },
{
    let mut current: u32 = offset;
    let mut index: usize = 0;
    while index < counts.len()
        invariant
            index <= counts.len(),
            lines_before(counts@, index as int) + current == offset,
        decreases counts.len() - index,
    {
        let lines = counts[index];
        if lines <= current {
            current -= lines;
            index += 1;
        } else {
            return Some((index, current));
        }
    }
    None
}

} // verus!
