//! What the blink demo and the raw-SPI demo drive on each cycle.
//!
//! The blink demo drives one LED pin high, waits for the timer, drives it
//! low, waits again, and so on. The raw-SPI demo keeps a 16-bit counter:
//! on each cycle it lights one of two LEDs by the counter's parity (LD2 low
//! and LD3 high on even counts, the other way round on odd ones), puts the
//! counter into the SPI2 transmit register, starts the transfer and counts
//! up.

use vstd::prelude::*;

verus! {

/// Level of an output pin.
#[derive(Clone, Copy, Debug, PartialEq, Eq, Structural)]
pub enum PinLevel {
    Low,
    High,
}

/// The other level.
pub open spec fn spec_opposite(level: PinLevel) -> PinLevel {
    match level {
        PinLevel::Low => PinLevel::High,
        PinLevel::High => PinLevel::Low,
    }
}

impl PinLevel {
    /// The other level.
    pub fn opposite(self) -> (other: PinLevel)
        ensures
            other == spec_opposite(self),
            other != self,
    {
        match self {
            PinLevel::Low => PinLevel::High,
            PinLevel::High => PinLevel::Low,
        }
    }
}

/// State of the blink demo: the level that the pin is driven to next.
pub struct Blinker {
    pub next: PinLevel,
}

impl Blinker {
    /// The demo starts by driving the pin high.
    pub fn new() -> (blinker: Blinker)
        ensures
            blinker.next == PinLevel::High,
    {
        Blinker { next: PinLevel::High }
    }

    /// One half period: the level to drive now; the next call gives the
    /// other one.
    pub fn step(&mut self) -> (level: PinLevel)
        ensures
            level == old(self).next,
            final(self).next == spec_opposite(old(self).next),
            final(self).next != old(self).next,
    {
        let level = self.next;
        self.next = level.opposite();
        level
    }
}

/// Level of LD2 in the raw-SPI demo for counter value `count`.
pub open spec fn ld2_level(count: u16) -> PinLevel {
    if count % 2 == 0 {
        PinLevel::Low
    } else {
        PinLevel::High
    }
}

/// What one cycle of the raw-SPI demo drives.
#[derive(Clone, Copy, Debug, PartialEq, Eq, Structural)]
pub struct SpiRawOutput {
    pub ld2: PinLevel,
    pub ld3: PinLevel,
    pub tx_word: u16,
}

/// State of the raw-SPI demo: the counter.
pub struct SpiRawDemo {
    pub count: u16,
}

impl SpiRawDemo {
    /// The demo starts with the counter at zero.
    pub fn new() -> (demo: SpiRawDemo)
        ensures
            demo.count == 0,
    {
        SpiRawDemo { count: 0 }
    }

    /// What the current cycle drives: the LED levels chosen by the
    /// counter's parity and the word to transmit, the counter itself.
    pub fn output(&self) -> (out: SpiRawOutput)
        ensures
            out.ld2 == ld2_level(self.count),
            out.ld3 == spec_opposite(out.ld2),
            out.tx_word == self.count,
            out.ld2 == (if self.count % 2 == 0 {
                PinLevel::Low
            } else {
                PinLevel::High
            }),
            out.ld3 != out.ld2,
    {
        let ld2 = if self.count % 2 == 0 {
            PinLevel::Low
        } else {
            PinLevel::High
        };
        SpiRawOutput { ld2, ld3: ld2.opposite(), tx_word: self.count }
    }

    /// The end of a cycle: the counter grows by one. The demo's
    /// `count += 1` overflows (and panics) once the counter is `u16::MAX`,
    /// so that state does not advance.
    pub fn advance(&mut self)
        requires
            old(self).count < u16::MAX,
        ensures
            final(self).count == old(self).count + 1,
    {
        self.count = self.count + 1;
    }
}

/// The blink demo has period two: after two steps the pin is driven to
/// the level it started from, and the two steps drive different levels.
pub proof fn lemma_blink_period_two(level: PinLevel)
    ensures
        spec_opposite(spec_opposite(level)) == level,
        spec_opposite(level) != level,
{
}

/// In the raw-SPI demo the two LEDs always show opposite levels, and each
/// LED changes level from one cycle to the next.
pub proof fn lemma_spi_raw_leds_alternate(count: u16)
    requires
        count < u16::MAX,
    ensures
        spec_opposite(ld2_level(count)) != ld2_level(count),
        ld2_level((count + 1) as u16) == spec_opposite(ld2_level(count)),
        spec_opposite(ld2_level((count + 1) as u16)) == ld2_level(count),
{
}

} // verus!
