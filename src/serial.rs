//! The serial line sink used for diagnostics that must survive a broken console.
use vstd::prelude::*;
use vstd::string::StringSliceAdditionalSpecFns;

verus! {

/// I/O base of the first UART.
pub const SERIAL_IO_BASE: u16 = 0x3F8;

#[derive(Debug, Clone, Copy, PartialEq, Eq, Structural)]
pub enum SerialError {
    AlreadyInitialized,
}

/// A UART port and whether its line parameters have been configured.
#[derive(Debug, Clone, Copy, PartialEq, Eq, Structural)]
pub struct SerialSink {
    pub io_base: u16,
    pub initialized: bool,
}

impl SerialSink {
    pub fn new(io_base: u16) -> (r: SerialSink)
        ensures
            r.io_base == io_base,
            !r.initialized,
    {
        SerialSink { io_base, initialized: false }
    }

    /// Marks the port configured; a port is configured once only.
    pub fn init(&mut self) -> (r: Result<(), SerialError>)
        ensures
            r is Ok <==> !old(self).initialized,
            r is Err ==> r == Err::<(), SerialError>(SerialError::AlreadyInitialized),
            final(self).initialized,
            final(self).io_base == old(self).io_base,
    {
        if self.initialized {
            Err(SerialError::AlreadyInitialized)
        } else {
            self.initialized = true;
            Ok(())
        }
    }
}

/// The bytes to transmit, in order, for `s` on a configured port: its UTF-8 encoding.
pub fn print(sink: &SerialSink, s: &str) -> (r: Vec<u8>)
    requires
        sink.initialized,
    ensures
        r@ == s.spec_bytes(),
{
    let bytes = s.as_bytes();
    let mut out: Vec<u8> = Vec::new();
    let mut i: usize = 0;
    while i < bytes.len()
        invariant
            i <= bytes@.len(),
            out@ == bytes@.take(i as int),
        decreases bytes@.len() - i,
    {
        out.push(bytes[i]);
        i = i + 1;
        assert(out@ =~= bytes@.take(i as int));
    }
    assert(bytes@.take(bytes@.len() as int) =~= bytes@);
    out
}

} // verus!
