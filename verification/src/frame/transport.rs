//! The transport layer of LIN. The units that are transported in a transport
//! layer frame are called PDU (Packet Data Unit).

use super::{spec_frame_checksum, Frame, PID};
use vstd::prelude::*;

verus! {

/// NAD is the address of the slave node being addressed in a request, i.e.
/// only slave nodes have an address. NAD is also used to indicate the source
/// of a response.
#[derive(Copy, Clone, Debug, PartialEq, Eq)]
pub struct NAD(pub u8);

/// The PCI (Protocol Control Information) contains the transport layer flow
/// control information.
#[derive(Copy, Clone, Debug, PartialEq, Eq)]
pub struct PCI(u8);

/// Type of the `PCI` byte, encoded in its top nibble.
#[derive(Copy, Clone, Debug, PartialEq, Eq)]
pub enum PCIType {
    /// Single Frame
    SF,
    /// First Frame. Start of a multi frame message.
    FF,
    /// Consecutive Frame.
    CF,
    /// Invalid PCIType
    Invalid,
}

/// The `PCIType` encoded in the top nibble of a PCI byte: 0 is a Single
/// Frame, 1 a First Frame, 2 a Consecutive Frame, all else invalid.
pub open spec fn spec_pci_type(byte: u8) -> PCIType {
    if byte >> 4 == 0 {
        PCIType::SF
    } else if byte >> 4 == 1 {
        PCIType::FF
    } else if byte >> 4 == 2 {
        PCIType::CF
    } else {
        PCIType::Invalid
    }
}

impl PCI {
    /// The contained PCI byte.
    pub closed spec fn spec_byte(self) -> u8 {
        self.0
    }

    /// Create a `PCI` with type `PCIType::SF` and the given length. A single
    /// frame carries at most 5 data bytes, and its PCI byte is the length
    /// plus one.
    pub fn new_sf(length: u8) -> (r: PCI)
        requires
            length <= 5,
        ensures
            r.spec_byte() == length + 1,
    {
        PCI(length + 1)
    }

    /// Get the `PCIType` of the PCI.
    pub fn get_type(self) -> (t: PCIType)
        ensures
            t == spec_pci_type(self.spec_byte()),
    {
        match self.0 >> 4 {
            0 => PCIType::SF,
            1 => PCIType::FF,
            2 => PCIType::CF,
            _ => PCIType::Invalid,
        }
    }

    /// Get the length field of the `PCI`: for a single frame the whole byte
    /// carries the length.
    pub fn get_length(self) -> (r: u8)
        ensures
            r == self.spec_byte(),
    {
        self.0
    }
}

/// The Service Identifier (SID) specifies the request that shall be performed
/// by the slave node addressed.
#[derive(Copy, Clone, Debug, PartialEq, Eq)]
pub struct SID(pub u8);

/// The Response Service Identifier (RSID) specifies the contents of the
/// response.
#[derive(Copy, Clone, Debug, PartialEq, Eq)]
pub struct RSID(pub u8);

/// The 8 byte payload of a single frame PDU: NAD, the SF PCI byte for the
/// data length, SID, the data bytes, and 0xFF for each unused trailing byte.
pub open spec fn spec_single_frame_payload(nad: u8, sid: u8, data: Seq<u8>) -> Seq<u8> {
    Seq::new(
        8,
        |i: int|
            if i == 0 {
                nad
            } else if i == 1 {
                (data.len() + 1) as u8
            } else if i == 2 {
                sid
            } else if i < 3 + data.len() {
                data[i - 3]
            } else {
                0xFF
            },
    )
}

/// Create a single frame (SF) PDU holding between 1 and 5 data bytes.
pub fn create_single_frame(pid: PID, nad: NAD, sid: SID, data: &[u8]) -> (f: Frame)
    requires
        1 <= data@.len() <= 5,
    ensures
        f.spec_pid() == pid,
        f.spec_data() == spec_single_frame_payload(nad.0, sid.0, data@),
        f.spec_checksum_byte() == spec_frame_checksum(pid, f.spec_data()),
{
    // If a PDU is not completely filled the unused bytes shall be filled
    // with 0xFF.
    let mut frame_data: Vec<u8> = Vec::new();
    frame_data.push(nad.0);
    let pci = PCI::new_sf(data.len() as u8);
    frame_data.push(pci.get_length());
    frame_data.push(sid.0);
    let mut i: usize = 0;
    while i < data.len()
        invariant
            i <= data@.len() <= 5,
            frame_data@.len() == 3 + i,
            frame_data@[0] == nad.0,
            frame_data@[1] == (data@.len() + 1) as u8,
            frame_data@[2] == sid.0,
            forall|j: int| 0 <= j < i ==> frame_data@[3 + j] == data@[j],
        decreases data@.len() - i,
    {
        frame_data.push(data[i]);
        i = i + 1;
    }
    while frame_data.len() < 8
        invariant
            3 + data@.len() <= frame_data@.len() <= 8,
            frame_data@[0] == nad.0,
            frame_data@[1] == (data@.len() + 1) as u8,
            frame_data@[2] == sid.0,
            forall|j: int| 0 <= j < data@.len() ==> frame_data@[3 + j] == data@[j],
            forall|j: int| 3 + data@.len() <= j < frame_data@.len() ==> frame_data@[j] == 0xFF,
        decreases 8 - frame_data@.len(),
    {
        frame_data.push(0xFF);
    }
    proof {
        assert(frame_data@ =~= spec_single_frame_payload(nad.0, sid.0, data@));
    }
    Frame::from_data(pid, frame_data.as_slice())
}

} // verus!
