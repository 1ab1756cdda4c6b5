//! Trait for a hardware driver to implement.

use crate::frame::PID;
use vstd::prelude::*;

verus! {

/// The operations a LIN bus driver provides: all blocking and fallible, and
/// all decided by the hardware, so nothing is promised of their outcomes
/// beyond the shape of what `read` hands back.
pub trait Master {
    type Error: Into<crate::Error> + From<crate::Error>;

    /// Initiate a bus wakeup sequence.
    fn send_wakeup(&mut self) -> Result<(), Self::Error>;

    /// Transmit the break/sync/PID header for a frame.
    fn send_header(&mut self, pid: PID) -> Result<(), Self::Error>;

    /// Fill `buffer` with bytes received from the bus. The bytes may be
    /// anything; only the buffer's length is kept.
    fn read(&mut self, buffer: &mut Vec<u8>) -> (r: Result<(), Self::Error>)
        ensures
            r is Ok ==> final(buffer)@.len() == old(buffer)@.len(),
    ;

    /// Transmit `data` onto the bus.
    fn write(&mut self, data: &[u8]) -> Result<(), Self::Error>;
}

} // verus!
