//! Test doubles for the blocking I2C and delay interfaces of `embedded-hal`:
//! an I2C bus that serves reads from a caller-supplied byte slice and
//! discards writes, and a delay provider that returns at once.

pub mod delay;
pub mod i2c;

pub use delay::DelayMockNoop;
pub use i2c::{I2cMock, MockError};
