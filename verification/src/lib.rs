//! Master-side protocol logic of a LIN (Local Interconnect Network) bus stack:
//! frame construction and validation, the two LIN checksum variants, bit-field
//! signal decoding, single-frame transport PDUs and diagnostic request builders.

use vstd::prelude::*;

pub mod driver;
pub mod frame;
pub mod ldf;
pub mod master;
pub mod signal;

pub use crate::frame::{checksum, classic_checksum, Frame, PID};
pub use crate::master::Master;

verus! {

/// Errors shared between the protocol core and bus drivers.
///
/// `Timeout` and `PhysicalBus` are surfaced unchanged from the driver;
/// `Checksum` is raised by the read transaction when the received checksum
/// byte disagrees with the recomputed one; `OutOfRange` rejects a frame
/// identifier of 64 or more.
#[derive(Copy, Clone, Debug, PartialEq, Eq)]
pub enum Error {
    Timeout,
    PhysicalBus,
    Checksum,
    OutOfRange,
}

} // verus!
