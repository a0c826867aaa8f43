//! A delay provider that does not wait.

use vstd::prelude::*;

verus! {

/// A delay provider whose every delay returns at once.
pub struct DelayMockNoop;

impl DelayMockNoop {
    /// Waits for `n` time units of any unit and width, that is, not at all:
    /// it returns at once and changes nothing.
    pub fn delay<T>(&mut self, n: T)
        ensures
            *final(self) == *old(self),
    {
    }
}

impl embedded_hal::blocking::delay::DelayUs<u8> for DelayMockNoop {
    /// A no-op delay implementation.
    fn delay_us(&mut self, us: u8) {
        self.delay(us)
    }
}

impl embedded_hal::blocking::delay::DelayUs<u16> for DelayMockNoop {
    /// A no-op delay implementation.
    fn delay_us(&mut self, us: u16) {
        self.delay(us)
    }
}

impl embedded_hal::blocking::delay::DelayUs<u32> for DelayMockNoop {
    /// A no-op delay implementation.
    fn delay_us(&mut self, us: u32) {
        self.delay(us)
    }
}

impl embedded_hal::blocking::delay::DelayUs<u64> for DelayMockNoop {
    /// A no-op delay implementation.
    fn delay_us(&mut self, us: u64) {
        self.delay(us)
    }
}

impl embedded_hal::blocking::delay::DelayMs<u8> for DelayMockNoop {
    /// A no-op delay implementation.
    fn delay_ms(&mut self, ms: u8) {
        self.delay(ms)
    }
}

impl embedded_hal::blocking::delay::DelayMs<u16> for DelayMockNoop {
    /// A no-op delay implementation.
    fn delay_ms(&mut self, ms: u16) {
        self.delay(ms)
    }
}

impl embedded_hal::blocking::delay::DelayMs<u32> for DelayMockNoop {
    /// A no-op delay implementation.
    fn delay_ms(&mut self, ms: u32) {
        self.delay(ms)
    }
}

impl embedded_hal::blocking::delay::DelayMs<u64> for DelayMockNoop {
    /// A no-op delay implementation.
    fn delay_ms(&mut self, ms: u64) {
        self.delay(ms)
    }
}

} // verus!
