//! An in-memory stand-in for an I2C bus.

use vstd::prelude::*;

verus! {

/// Lets `std::io::Error` stand in the library's error type, as an opaque value.
#[verifier::external_type_specification]
#[verifier::external_body]
pub struct ExIoError(std::io::Error);

/// The error type of the mock's bus operations: a wrapped I/O failure of a
/// byte transfer. The copy that the mock makes is proved not to fail, so its
/// own operations always succeed.
#[derive(Debug)]
pub enum MockError {
    Io(std::io::Error),
}

/// What a read leaves in a destination of the bytes `dst`, with `src` as
/// the read data: the first `min(src.len(), dst.len())` bytes come from the
/// front of `src`, in order, and the rest keep their value.
pub open spec fn filled(src: Seq<u8>, dst: Seq<u8>) -> Seq<u8> {
    Seq::new(dst.len(), |i: int| if i < src.len() { src[i] } else { dst[i] })
}

/// Copies the front of `src` into the front of `buffer`, as many bytes as
/// both hold, and returns their count.
pub fn copy_prefix(src: &[u8], buffer: &mut [u8]) -> (n: usize)
    ensures
        final(buffer)@ == filled(src@, old(buffer)@),
        n as int == if src@.len() < old(buffer)@.len() { src@.len() } else { old(buffer)@.len() },
{
    let n: usize = if src.len() < buffer.len() { src.len() } else { buffer.len() };
    let mut i: usize = 0;
    while i < n
        invariant
            0 <= i <= n,
            n == if src@.len() < old(buffer)@.len() { src@.len() } else { old(buffer)@.len() },
            buffer@.len() == old(buffer)@.len(),
            forall|j: int| 0 <= j < i ==> buffer@[j] == src@[j],
            forall|j: int| i <= j < buffer@.len() ==> buffer@[j] == old(buffer)@[j],
        decreases n - i,
    {
        buffer[i] = src[i];
        i = i + 1;
    }
    assert(buffer@ =~= filled(src@, old(buffer)@));
    n
}

/// An I2C bus whose reads are served from a borrowed byte slice and whose
/// writes are discarded.
pub struct I2cMock<'a> {
    data: &'a [u8],
}

impl<'a> I2cMock<'a> {
    /// The bytes that the next read copies from.
    pub closed spec fn view(&self) -> Seq<u8> {
        self.data@
    }

    /// A mock with no read data.
    pub fn new() -> (r: Self)
        ensures
            r@ == Seq::<u8>::empty(),
    {
        I2cMock { data: &[] }
    }

    /// Set data that will be read by `read()`.
    pub fn set_read_data(&mut self, data: &'a [u8])
        ensures
            final(self)@ == data@,
    {
        self.data = data;
    }

    /// Reads into `buffer` from the front of the read data. The address is
    /// not used, and the read data stays as it was.
    pub fn read(&mut self, _address: u8, buffer: &mut [u8]) -> (r: Result<(), MockError>)
        ensures
            r is Ok,
            final(buffer)@ == filled(old(self)@, old(buffer)@),
            final(self)@ == old(self)@,
    {
        copy_prefix(self.data, buffer);
        Ok(())
    }

    /// Accepts a write and discards it.
    pub fn write(&mut self, _address: u8, _bytes: &[u8]) -> (r: Result<(), MockError>)
        ensures
            r is Ok,
            final(self)@ == old(self)@,
    {
        Ok(())
    }

    /// Discards `bytes`, then reads into `buffer` as `read` does.
    pub fn write_read(&mut self, address: u8, _bytes: &[u8], buffer: &mut [u8]) -> (r: Result<
        (),
        MockError,
    >)
        ensures
            r is Ok,
            final(buffer)@ == filled(old(self)@, old(buffer)@),
            final(self)@ == old(self)@,
    {
        self.read(address, buffer)
    }
}

/// A read whose data is no longer than the destination copies all of it to
/// the front of the destination, in order, and leaves the remaining bytes of
/// the destination as they were.
pub proof fn lemma_read_short_data(src: Seq<u8>, dst: Seq<u8>)
    requires
        src.len() <= dst.len(),
    ensures
        filled(src, dst).len() == dst.len(),
        filled(src, dst).subrange(0, src.len() as int) == src,
        filled(src, dst).subrange(src.len() as int, dst.len() as int) == dst.subrange(
            src.len() as int,
            dst.len() as int,
        ),
{
    assert(filled(src, dst).subrange(0, src.len() as int) =~= src);
    assert(filled(src, dst).subrange(src.len() as int, dst.len() as int) =~= dst.subrange(
        src.len() as int,
        dst.len() as int,
    ));
}

/// A read whose data is longer than the destination fills the whole
/// destination with the front of the data.
pub proof fn lemma_read_long_data(src: Seq<u8>, dst: Seq<u8>)
    requires
        src.len() > dst.len(),
    ensures
        filled(src, dst) == src.subrange(0, dst.len() as int),
{
    assert(filled(src, dst) =~= src.subrange(0, dst.len() as int));
}

impl From<std::io::Error> for MockError {
    fn from(e: std::io::Error) -> (r: MockError)
        ensures
            r == MockError::Io(e),
    {
        MockError::Io(e)
    }
}

impl vstd::std_specs::convert::FromSpecImpl<std::io::Error> for MockError {
    open spec fn obeys_from_spec() -> bool {
        true
    }

    open spec fn from_spec(e: std::io::Error) -> MockError {
        MockError::Io(e)
    }
}

impl<'a> embedded_hal::blocking::i2c::Read for I2cMock<'a> {
    type Error = MockError;

    fn read(&mut self, address: u8, buffer: &mut [u8]) -> Result<(), MockError> {
        I2cMock::read(self, address, buffer)
    }
}

impl<'a> embedded_hal::blocking::i2c::Write for I2cMock<'a> {
    type Error = MockError;

    fn write(&mut self, address: u8, bytes: &[u8]) -> Result<(), MockError> {
        I2cMock::write(self, address, bytes)
    }
}

impl<'a> embedded_hal::blocking::i2c::WriteRead for I2cMock<'a> {
    type Error = MockError;

    fn write_read(&mut self, address: u8, bytes: &[u8], buffer: &mut [u8]) -> Result<
        (),
        MockError,
    > {
        I2cMock::write_read(self, address, bytes, buffer)
    }
}

} // verus!
