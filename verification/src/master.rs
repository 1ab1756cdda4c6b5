//! LIN bus master implementation: write and read transactions against a
//! driver.

use crate::driver;
use crate::frame::{Frame, PID};
use vstd::prelude::*;

verus! {

/// Master transactions over a LIN bus driver. A write transaction sends the
/// header and then the frame's data and checksum bytes; a read transaction
/// sends the header, reads the data and checksum bytes, and accepts them
/// only when the recomputed checksum agrees with the byte received.
pub trait Master {
    type Error;

    /// Initiate a bus wakeup sequence.
    fn send_wakeup(&mut self) -> Result<(), Self::Error>;

    /// Send the frame's header and then its data and checksum bytes. Driver
    /// errors are propagated unchanged.
    fn write_frame(&mut self, frame: &Frame) -> Result<(), Self::Error>;

    /// Send the header for `pid`, read `data_length` data bytes and the
    /// checksum byte, and return the received frame when the recomputed
    /// checksum agrees with the byte read. A returned frame therefore always
    /// carries `data_length` data bytes, the requested PID, and a checksum
    /// byte consistent with them.
    fn read_frame(&mut self, pid: PID, data_length: usize) -> (r: Result<Frame, Self::Error>)
        requires
            data_length <= 8,
        ensures
            r matches Ok(f) ==> f.spec_pid() == pid && f.spec_data().len() == data_length,
    ;
}

impl<Driver: driver::Master> Master for Driver {
    type Error = Driver::Error;

    fn send_wakeup(&mut self) -> Result<(), Driver::Error> {
        driver::Master::send_wakeup(self)
    }

    fn write_frame(&mut self, frame: &Frame) -> Result<(), Driver::Error> {
        match driver::Master::send_header(self, frame.get_pid()) {
            Ok(()) => driver::Master::write(self, frame.get_data_with_checksum()),
            Err(e) => Err(e),
        }
    }

    fn read_frame(&mut self, pid: PID, data_length: usize) -> (r: Result<Frame, Driver::Error>) {
        match driver::Master::send_header(self, pid) {
            Ok(()) => {}
            Err(e) => {
                return Err(e);
            },
        }
        let mut buffer: Vec<u8> = Vec::new();
        let mut i: usize = 0;
        while i < data_length + 1
            invariant
                i <= data_length + 1,
                data_length <= 8,
                buffer@.len() == i,
            decreases data_length + 1 - i,
        {
            buffer.push(0);
            i = i + 1;
        }
        match driver::Master::read(self, &mut buffer) {
            Ok(()) => {}
            Err(e) => {
                return Err(e);
            },
        }
        match Frame::from_wire(pid, buffer.as_slice()) {
            Ok(frame) => Ok(frame),
            Err(e) => Err(<Driver::Error as From<crate::Error>>::from(e)),
        }
    }
}

} // verus!
