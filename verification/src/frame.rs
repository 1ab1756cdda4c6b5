//! LIN bus frame definitions: protected identifiers, the two checksum
//! variants, and the data frame codec.

pub mod diagnostic;
pub mod transport;

use crate::signal::{bit_field, decode_bit_field, SignalValue};
use crate::Error;
use vstd::prelude::*;

verus! {

/// Protected ID: a 6 bit frame identifier together with two parity bits.
#[derive(Copy, Clone, Debug, PartialEq, Eq)]
pub struct PID(pub u8);

/// Parity bit P0 of a frame identifier: ID0 xor ID1 xor ID2 xor ID4.
pub open spec fn spec_p0(id: u8) -> u8 {
    (id ^ (id >> 1) ^ (id >> 2) ^ (id >> 4)) & 1
}

/// Parity bit P1 of a frame identifier: the negation of ID1 xor ID3 xor ID4 xor ID5.
pub open spec fn spec_p1(id: u8) -> u8 {
    (((id >> 1) ^ (id >> 3) ^ (id >> 4) ^ (id >> 5)) & 1) ^ 1
}

/// The protected identifier byte derived from a frame identifier below 64:
/// the identifier in bits 0 to 5, P0 in bit 6 and P1 in bit 7.
pub open spec fn spec_pid_byte(id: u8) -> u8 {
    id | (spec_p0(id) << 6) | (spec_p1(id) << 7)
}

impl PID {
    /// Calculate the PID from an ID; an ID of 64 or more is out of range.
    pub fn from_id(id: u8) -> (r: Result<PID, Error>)
        ensures
            id < 64 ==> (r matches Ok(p) && p.0 == spec_pid_byte(id)),
            id >= 64 ==> (r matches Err(e) && e == Error::OutOfRange),
    {
        if id < 64 {
            Ok(PID::from_id_const(id))
        } else {
            Err(Error::OutOfRange)
        }
    }

    /// Variant of `from_id` for identifiers already known to be valid,
    /// such as the fixed diagnostic identifiers.
    pub fn from_id_const(id: u8) -> (r: PID)
        requires
            id < 64,
        ensures
            r.0 == spec_pid_byte(id),
    {
        let p0: u8 = (id ^ (id >> 1) ^ (id >> 2) ^ (id >> 4)) & 1;
        let p1: u8 = (((id >> 1) ^ (id >> 3) ^ (id >> 4) ^ (id >> 5)) & 1) ^ 1;
        PID(id | (p0 << 6) | (p1 << 7))
    }

    /// Wrap a raw PID byte after checking that its parity bits are
    /// consistent with its identifier bits.
    pub fn new(pid_byte: u8) -> (r: Option<PID>)
        ensures
            r matches Some(p) ==> p.0 == pid_byte && pid_byte == spec_pid_byte(pid_byte & 0x3f),
            r is None ==> pid_byte != spec_pid_byte(pid_byte & 0x3f),
    {
        let id = pid_byte & 0x3f;
        proof {
            assert(pid_byte & 0x3f < 64) by (bit_vector);
        }
        let expected = PID::from_id_const(id);
        if expected.0 == pid_byte {
            Some(PID(pid_byte))
        } else {
            None
        }
    }

    /// Return the contained PID byte.
    pub fn get(self) -> (r: u8)
        ensures
            r == self.0,
    {
        self.0
    }

    /// Return the contained ID: the low 6 bits of the PID byte.
    pub fn get_id(self) -> (r: u8)
        ensures
            r == self.0 & 0x3f,
    {
        self.0 & 0x3f
    }

    /// Return whether the associated frame uses the classic checksum
    /// (diagnostic IDs 60 and 61 or special use IDs 62 and 63).
    pub fn uses_classic_checksum(self) -> (r: bool)
        ensures
            r == (self.0 & 0x3f >= 60),
    {
        self.get_id() >= 60
    }
}

/// For each identifier below 64, the PID round-trips: the low 6 bits of the
/// protected identifier byte are the identifier again, bit 6 is P0 and
/// bit 7 is P1.
pub proof fn lemma_pid_round_trip(id: u8)
    requires
        id < 64,
    ensures
        spec_pid_byte(id) & 0x3f == id,
        (spec_pid_byte(id) >> 6) & 1 == spec_p0(id),
        (spec_pid_byte(id) >> 7) & 1 == spec_p1(id),
{
    assert(spec_pid_byte(id) & 0x3f == id) by (bit_vector)
        requires
            id < 64,
    ;
    assert((spec_pid_byte(id) >> 6) & 1 == spec_p0(id)) by (bit_vector)
        requires
            id < 64,
    ;
    assert((spec_pid_byte(id) >> 7) & 1 == spec_p1(id)) by (bit_vector)
        requires
            id < 64,
    ;
}

/// One step of the LIN checksum: add a byte to the running sum and, when the
/// sum reaches 256, subtract 255 (the end-around carry).
pub open spec fn spec_checksum_step(acc: int, byte: u8) -> int {
    let s = acc + byte;
    if s >= 256 {
        s - 255
    } else {
        s
    }
}

/// The running sum of the LIN checksum over `data`, seeded with `seed`.
pub open spec fn spec_checksum_acc(seed: u8, data: Seq<u8>) -> int
    decreases data.len(),
{
    if data.len() == 0 {
        seed as int
    } else {
        spec_checksum_step(spec_checksum_acc(seed, data.drop_last()), data.last())
    }
}

/// The LIN checksum of `data` seeded with `seed`: the bitwise complement of
/// the inverted eight bit sum with carry.
pub open spec fn spec_checksum(seed: u8, data: Seq<u8>) -> u8 {
    (255 - spec_checksum_acc(seed, data)) as u8
}

/// Calculate the LIN V2.1 "enhanced" checksum. It is defined as "The inverted
/// eight bit sum with carry. Eight bit sum with carry is equivalent to sum all
/// values and subtract 255 every time the sum is greater or equal to 256".
/// The sum is seeded with the PID byte.
pub fn checksum(pid: PID, data: &[u8]) -> (r: u8)
    ensures
        r == spec_checksum(pid.0, data@),
{
    let mut sum: u16 = pid.0 as u16;
    let mut i: usize = 0;
    while i < data.len()
        invariant
            i <= data@.len(),
            sum <= 255,
            sum == spec_checksum_acc(pid.0, data@.subrange(0, i as int)),
        decreases data@.len() - i,
    {
        let mut s = sum + (data[i] as u16);
        if s >= 256 {
            s = s - 255;
        }
        proof {
            let prefix = data@.subrange(0, (i + 1) as int);
            assert(prefix.drop_last() =~= data@.subrange(0, i as int));
            assert(prefix.last() == data@[i as int]);
        }
        sum = s;
        i = i + 1;
    }
    proof {
        assert(data@.subrange(0, data@.len() as int) =~= data@);
    }
    (255 - sum) as u8
}

/// Calculate the LIN V1.3 "classic" checksum. It is defined as "Checksum
/// calculation over the data bytes only": the sum is seeded with 0 instead
/// of the PID byte.
pub fn classic_checksum(data: &[u8]) -> (r: u8)
    ensures
        r == spec_checksum(0, data@),
{
    checksum(PID(0u8), data)
}

/// The checksum byte of a frame: frames with a diagnostic or special use
/// identifier (60 to 63) use the classic checksum over the data bytes only,
/// all others the enhanced checksum seeded with the PID byte.
pub open spec fn spec_frame_checksum(pid: PID, data: Seq<u8>) -> u8 {
    if pid.0 & 0x3f >= 60 {
        spec_checksum(0, data)
    } else {
        spec_checksum(pid.0, data)
    }
}

/// A LIN data frame: a PID, 0 to 8 data bytes, and the one checksum byte
/// that follows them on the wire. The checksum byte is always the one
/// computed from the PID and the data by the classic/enhanced selection
/// rule; a frame holding an inconsistent pair cannot be constructed.
#[derive(Debug)]
pub struct Frame {
    pid: PID,
    buffer: Vec<u8>,
    data_length: usize,
}

impl Frame {
    /// The frame's protected identifier.
    pub closed spec fn spec_pid(self) -> PID {
        self.pid
    }

    /// The frame's data bytes, without the checksum byte.
    pub closed spec fn spec_data(self) -> Seq<u8> {
        self.buffer@.subrange(0, self.data_length as int)
    }

    /// The frame's checksum byte.
    pub closed spec fn spec_checksum_byte(self) -> u8 {
        self.buffer@[self.data_length as int]
    }

    #[verifier::type_invariant]
    spec fn wf(self) -> bool {
        &&& self.buffer@.len() == 9
        &&& self.data_length <= 8
        &&& self.buffer@[self.data_length as int] == spec_frame_checksum(
            self.pid,
            self.spec_data(),
        )
    }

    /// Creates a LIN frame from the PID and up to 8 data bytes. Calculates
    /// and appends the checksum accordingly.
    pub fn from_data(pid: PID, data: &[u8]) -> (f: Frame)
        requires
            data@.len() <= 8,
        ensures
            f.spec_pid() == pid,
            f.spec_data() == data@,
            f.spec_checksum_byte() == spec_frame_checksum(pid, data@),
    {
        let ck = if pid.uses_classic_checksum() {
            classic_checksum(data)
        } else {
            checksum(pid, data)
        };
        let mut buffer: Vec<u8> = Vec::new();
        let mut i: usize = 0;
        while i < data.len()
            invariant
                i <= data@.len(),
                buffer@ == data@.subrange(0, i as int),
            decreases data@.len() - i,
        {
            buffer.push(data[i]);
            proof {
                assert(buffer@ =~= data@.subrange(0, (i + 1) as int));
            }
            i = i + 1;
        }
        proof {
            assert(buffer@ =~= data@);
        }
        buffer.push(ck);
        while buffer.len() < 9
            invariant
                data@.len() + 1 <= buffer@.len() <= 9,
                buffer@.subrange(0, data@.len() as int) == data@,
                buffer@[data@.len() as int] == ck,
            decreases 9 - buffer@.len(),
        {
            buffer.push(0);
            proof {
                assert(buffer@.subrange(0, data@.len() as int) =~= data@);
            }
        }
        let f = Frame { pid, buffer, data_length: data.len() };
        proof {
            assert(f.spec_data() =~= data@);
        }
        f
    }

    /// Recompute the checksum over the data part of `bytes` (all but the
    /// last byte) and compare it against the last byte. On agreement,
    /// return the frame those bytes describe; on disagreement, a
    /// `Checksum` error.
    pub fn from_wire(pid: PID, bytes: &[u8]) -> (r: Result<Frame, Error>)
        requires
            1 <= bytes@.len() <= 9,
        ensures
            r is Ok <==> bytes@.last() == spec_frame_checksum(
                pid,
                bytes@.drop_last(),
            ),
            r matches Ok(f) ==> f.spec_pid() == pid && f.spec_data() == bytes@.drop_last()
                && f.spec_checksum_byte() == bytes@.last(),
            r matches Err(e) ==> e == Error::Checksum,
    {
        let data_length = bytes.len() - 1;
        let data = &bytes[0..data_length];
        proof {
            assert(data@ =~= bytes@.drop_last());
        }
        let expected = if pid.uses_classic_checksum() {
            classic_checksum(data)
        } else {
            checksum(pid, data)
        };
        if expected == bytes[data_length] {
            Ok(Frame::from_data(pid, data))
        } else {
            Err(Error::Checksum)
        }
    }

    /// Access the data bytes of the frame.
    pub fn get_data(&self) -> (r: &[u8])
        ensures
            r@ == self.spec_data(),
    {
        proof {
            use_type_invariant(self);
        }
        &self.buffer.as_slice()[0..self.data_length]
    }

    /// Decode a signal from the frame data: the bit field of width `length`
    /// starting `offset` bits into the data read as a little-endian word.
    /// The requested range must lie within the data bytes and fit the
    /// output type.
    pub fn decode<T: SignalValue>(&self, offset: usize, length: usize) -> (r: T)
        requires
            1 <= length,
            offset + length <= 8 * self.spec_data().len(),
            length <= T::spec_bits(),
        ensures
            r.spec_val() == bit_field(self.spec_data(), offset as nat, length as nat),
    {
        proof {
            use_type_invariant(self);
        }
        let data = self.get_data();
        decode_bit_field(data, offset, length)
    }

    /// Get the checksum byte of the frame.
    pub fn get_checksum(&self) -> (r: u8)
        ensures
            r == self.spec_checksum_byte(),
            r == spec_frame_checksum(self.spec_pid(), self.spec_data()),
    {
        proof {
            use_type_invariant(self);
        }
        self.buffer[self.data_length]
    }

    /// Get the PID of the frame.
    pub fn get_pid(&self) -> (r: PID)
        ensures
            r == self.spec_pid(),
    {
        self.pid
    }

    /// Get the serialized bytes to write to the driver after the header:
    /// the data bytes followed by the checksum byte.
    pub fn get_data_with_checksum(&self) -> (r: &[u8])
        ensures
            r@ == self.spec_data().push(self.spec_checksum_byte()),
    {
        proof {
            use_type_invariant(self);
            assert(self.buffer@.subrange(0, self.data_length + 1) =~= self.spec_data().push(
                self.spec_checksum_byte(),
            ));
        }
        &self.buffer.as_slice()[0..self.data_length + 1]
    }
}

} // verus!
