//! The byte stream between the driver and a device.
//!
//! A transport knows nothing of the protocol: it sends bytes, receives
//! bytes, and reports failures at once, without retrying.
use vstd::prelude::*;
use crate::Result;

verus! {

/// A byte-level connection to a printer.
///
/// What a transport does lies outside this library, so its operations
/// promise nothing here. The session keeps its own record of what it
/// handed over (see [`crate::printer::PTouchPrinter::wire`]).
pub trait PTouchInterface: Sized {
    /// A description of the endpoint, for diagnostics.
    fn name(&self) -> String;

    /// Receives into `buf` and tells how many bytes came, or fails on a
    /// timeout or an I/O error.
    fn read(&mut self, buf: &mut [u8]) -> Result<usize>;

    /// Receives all that the peer sends until it closes the stream.
    fn read_vec(&mut self) -> Result<Vec<u8>>;

    /// Sends all of `data`, or fails: success never stands for a part.
    fn write(&mut self, data: &[u8]) -> Result<()>;

    /// Pushes out what the transport itself holds back. A transport that
    /// holds nothing back need not say how: left as it is here, flushing
    /// succeeds and changes nothing.
    fn flush(&mut self) -> (r: Result<()>)
        default_ensures
            r is Ok,
            *final(self) == *old(self),
    {
        Ok(())
    }
}

} // verus!
