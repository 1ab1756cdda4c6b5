//! The LIN diagnostics methods: "read by identifier" request construction
//! and decoding of the product identification and serial number responses.

use super::transport::{create_single_frame, spec_single_frame_payload, NAD, SID};
use super::{spec_frame_checksum, spec_pid_byte, Frame, PID};
use crate::ldf::NodeAttributes;
use crate::signal::le_word;
use vstd::prelude::*;

verus! {

pub const MASTER_REQUEST_FRAME_ID: u8 = 0x3C;

pub const SLAVE_RESPONSE_FRAME_ID: u8 = 0x3D;

pub const READ_BY_IDENTIFIER_SID_BYTE: u8 = 0xB2;

/// The protected identifier of the master request frame (identifier 0x3C,
/// whose parity bits are both zero).
pub fn master_request_frame_pid() -> (r: PID)
    ensures
        r.0 == spec_pid_byte(MASTER_REQUEST_FRAME_ID),
        r.0 == 0x3C,
{
    proof {
        assert(spec_pid_byte(0x3C) == 0x3C) by (bit_vector);
    }
    PID::from_id_const(MASTER_REQUEST_FRAME_ID)
}

/// The protected identifier of the slave response frame (identifier 0x3D).
pub fn slave_response_frame_pid() -> (r: PID)
    ensures
        r.0 == spec_pid_byte(SLAVE_RESPONSE_FRAME_ID),
        r.0 == 0x7D,
{
    proof {
        assert(spec_pid_byte(0x3D) == 0x7D) by (bit_vector);
    }
    PID::from_id_const(SLAVE_RESPONSE_FRAME_ID)
}

/// The service identifier of the "read by identifier" request.
pub fn read_by_identifier_sid() -> (r: SID)
    ensures
        r.0 == READ_BY_IDENTIFIER_SID_BYTE,
{
    SID(READ_BY_IDENTIFIER_SID_BYTE)
}

/// Identifiers used for the read by identifier request.
#[derive(Copy, Clone, Debug, PartialEq, Eq)]
pub enum Identifier {
    /// See also `ProductId`
    LINProductIdentification,
    /// See also `SerialNumber`
    SerialNumber,
    /// User defined range 32..=63
    UserDefined(u8),
    /// Reserved range 2..=31 and 64..=255
    Reserved(u8),
}

/// The wire byte of a read by identifier `Identifier`.
pub open spec fn spec_identifier_byte(identifier: Identifier) -> u8 {
    match identifier {
        Identifier::LINProductIdentification => 0,
        Identifier::SerialNumber => 1,
        Identifier::UserDefined(b) => b,
        Identifier::Reserved(b) => b,
    }
}

/// The `Identifier` a wire byte stands for.
pub open spec fn spec_identifier_of_byte(byte: u8) -> Identifier {
    if byte == 0 {
        Identifier::LINProductIdentification
    } else if byte == 1 {
        Identifier::SerialNumber
    } else if 32 <= byte <= 63 {
        Identifier::UserDefined(byte)
    } else {
        Identifier::Reserved(byte)
    }
}

/// An `Identifier` is well formed when its payload byte lies in the range
/// its variant stands for.
pub open spec fn identifier_wf(identifier: Identifier) -> bool {
    match identifier {
        Identifier::LINProductIdentification => true,
        Identifier::SerialNumber => true,
        Identifier::UserDefined(b) => 32 <= b <= 63,
        Identifier::Reserved(b) => 2 <= b <= 31 || b >= 64,
    }
}

/// Map an `Identifier` to its wire byte.
pub fn identifier_to_byte(identifier: Identifier) -> (r: u8)
    ensures
        r == spec_identifier_byte(identifier),
{
    match identifier {
        Identifier::LINProductIdentification => 0,
        Identifier::SerialNumber => 1,
        Identifier::UserDefined(b) => b,
        Identifier::Reserved(b) => b,
    }
}

/// Map a wire byte to the `Identifier` it stands for.
pub fn byte_to_identifier(byte: u8) -> (r: Identifier)
    ensures
        r == spec_identifier_of_byte(byte),
{
    if byte == 0 {
        Identifier::LINProductIdentification
    } else if byte == 1 {
        Identifier::SerialNumber
    } else if 32 <= byte && byte <= 63 {
        Identifier::UserDefined(byte)
    } else {
        Identifier::Reserved(byte)
    }
}

/// The identifier/byte mapping is lossless: every byte round-trips, and
/// every well formed identifier round-trips.
pub proof fn lemma_identifier_byte_lossless(byte: u8, identifier: Identifier)
    ensures
        spec_identifier_byte(spec_identifier_of_byte(byte)) == byte,
        identifier_wf(spec_identifier_of_byte(byte)),
        identifier_wf(identifier) ==> spec_identifier_of_byte(spec_identifier_byte(identifier))
            == identifier,
{
}

/// Holds the LIN slave node product identification.
#[derive(Copy, Clone, Debug, PartialEq, Eq)]
pub struct ProductId {
    pub supplier_id: u16,
    pub function_id: u16,
    pub variant: u8,
}

impl ProductId {
    /// Decode a product identification from a response payload of at least
    /// 5 bytes: supplier id and function id little-endian, then the variant.
    pub fn decode(data: &[u8]) -> (r: ProductId)
        requires
            data@.len() >= 5,
        ensures
            r.supplier_id == le_word(data@.subrange(0, 2)),
            r.function_id == le_word(data@.subrange(2, 4)),
            r.variant == data@[4],
    {
        let supplier_id = data[0] as u16 + 256 * (data[1] as u16);
        let function_id = data[2] as u16 + 256 * (data[3] as u16);
        proof {
            lemma_le_word_pair(data@.subrange(0, 2));
            lemma_le_word_pair(data@.subrange(2, 4));
        }
        ProductId { supplier_id, function_id, variant: data[4] }
    }
}

/// A slave node serial number.
#[derive(Copy, Clone, Debug, PartialEq, Eq)]
pub struct SerialNumber(pub u32);

impl SerialNumber {
    /// Decode a serial number from a response payload of at least 4 bytes,
    /// little-endian.
    pub fn decode(data: &[u8]) -> (r: SerialNumber)
        requires
            data@.len() >= 4,
        ensures
            r.0 == le_word(data@.subrange(0, 4)),
    {
        let n = data[0] as u32 + 256 * (data[1] as u32) + 65536 * (data[2] as u32) + 16777216 * (
        data[3] as u32);
        proof {
            lemma_le_word_quad(data@.subrange(0, 4));
        }
        SerialNumber(n)
    }
}

/// A little-endian word over two bytes, written out.
proof fn lemma_le_word_pair(s: Seq<u8>)
    requires
        s.len() == 2,
    ensures
        le_word(s) == s[0] + 256 * s[1],
{
    let rest = s.drop_first();
    assert(rest.drop_first().len() == 0);
    assert(le_word(rest.drop_first()) == 0);
    assert(le_word(rest) == rest[0] + 256 * le_word(rest.drop_first()));
    assert(rest[0] == s[1]);
}

/// A little-endian word over four bytes, written out.
proof fn lemma_le_word_quad(s: Seq<u8>)
    requires
        s.len() == 4,
    ensures
        le_word(s) == s[0] + 256 * s[1] + 65536 * s[2] + 16777216 * s[3],
{
    lemma_le_word_pair(s.drop_first().drop_first());
    assert(le_word(s.drop_first()) == s[1] + 256 * le_word(s.drop_first().drop_first()));
}

/// The 5 byte data of a read by identifier request: the identifier byte,
/// then the supplier id and the function id little-endian.
pub open spec fn spec_read_by_identifier_request(
    identifier: Identifier,
    supplier_id: u16,
    function_id: u16,
) -> Seq<u8> {
    seq![
        spec_identifier_byte(identifier),
        (supplier_id & 0xFF) as u8,
        (supplier_id >> 8) as u8,
        (function_id & 0xFF) as u8,
        (function_id >> 8) as u8,
    ]
}

/// Create a read by identifier frame: a single frame PDU on the master
/// request PID, with SID 0xB2 and the 5 byte request data.
pub fn create_read_by_identifier_frame(
    nad: NAD,
    identifier: Identifier,
    supplier_id: u16,
    function_id: u16,
) -> (f: Frame)
    ensures
        f.spec_pid().0 == spec_pid_byte(MASTER_REQUEST_FRAME_ID),
        f.spec_data() == spec_single_frame_payload(
            nad.0,
            READ_BY_IDENTIFIER_SID_BYTE,
            spec_read_by_identifier_request(identifier, supplier_id, function_id),
        ),
        f.spec_checksum_byte() == spec_frame_checksum(f.spec_pid(), f.spec_data()),
        f.spec_data()[3] == spec_identifier_byte(identifier),
        le_word(f.spec_data().subrange(4, 6)) == supplier_id,
        le_word(f.spec_data().subrange(6, 8)) == function_id,
{
    let supplier_lo = (supplier_id & 0xFF) as u8;
    let supplier_hi = (supplier_id >> 8) as u8;
    let function_lo = (function_id & 0xFF) as u8;
    let function_hi = (function_id >> 8) as u8;
    let mut request: Vec<u8> = Vec::new();
    request.push(identifier_to_byte(identifier));
    request.push(supplier_lo);
    request.push(supplier_hi);
    request.push(function_lo);
    request.push(function_hi);
    proof {
        assert(request@ =~= spec_read_by_identifier_request(identifier, supplier_id, function_id));
    }
    let f = create_single_frame(
        master_request_frame_pid(),
        nad,
        read_by_identifier_sid(),
        request.as_slice(),
    );
    proof {
        assert(supplier_lo as u16 + 256 * (supplier_hi as u16) == supplier_id) by (bit_vector)
            requires
                supplier_lo == (supplier_id & 0xFF) as u8,
                supplier_hi == (supplier_id >> 8) as u8,
        ;
        assert(function_lo as u16 + 256 * (function_hi as u16) == function_id) by (bit_vector)
            requires
                function_lo == (function_id & 0xFF) as u8,
                function_hi == (function_id >> 8) as u8,
        ;
        lemma_le_word_pair(f.spec_data().subrange(4, 6));
        lemma_le_word_pair(f.spec_data().subrange(6, 8));
    }
    f
}

/// Create a read by identifier `Frame` from `NodeAttributes`: the initial
/// NAD addresses the node, and the supplier and function ids come from its
/// product identification.
pub fn create_read_by_identifier_frame_from_node_attributes(
    node_attributes: NodeAttributes,
    identifier: Identifier,
) -> (f: Frame)
    ensures
        f.spec_pid().0 == spec_pid_byte(MASTER_REQUEST_FRAME_ID),
        f.spec_data() == spec_single_frame_payload(
            node_attributes.initial_nad.0,
            READ_BY_IDENTIFIER_SID_BYTE,
            spec_read_by_identifier_request(
                identifier,
                node_attributes.product_id.supplier_id,
                node_attributes.product_id.function_id,
            ),
        ),
        f.spec_checksum_byte() == spec_frame_checksum(f.spec_pid(), f.spec_data()),
{
    create_read_by_identifier_frame(
        node_attributes.initial_nad,
        identifier,
        node_attributes.product_id.supplier_id,
        node_attributes.product_id.function_id,
    )
}

/// Create the request frame that reads a node's LIN product identification.
pub fn create_read_lin_product_identification_frame(node_attributes: NodeAttributes) -> (f: Frame)
    ensures
        f.spec_pid().0 == spec_pid_byte(MASTER_REQUEST_FRAME_ID),
        f.spec_data() == spec_single_frame_payload(
            node_attributes.initial_nad.0,
            READ_BY_IDENTIFIER_SID_BYTE,
            spec_read_by_identifier_request(
                Identifier::LINProductIdentification,
                node_attributes.product_id.supplier_id,
                node_attributes.product_id.function_id,
            ),
        ),
{
    create_read_by_identifier_frame_from_node_attributes(
        node_attributes,
        Identifier::LINProductIdentification,
    )
}

/// Create the request frame that reads a node's serial number.
pub fn create_read_serial_number_frame(node_attributes: NodeAttributes) -> (f: Frame)
    ensures
        f.spec_pid().0 == spec_pid_byte(MASTER_REQUEST_FRAME_ID),
        f.spec_data() == spec_single_frame_payload(
            node_attributes.initial_nad.0,
            READ_BY_IDENTIFIER_SID_BYTE,
            spec_read_by_identifier_request(
                Identifier::SerialNumber,
                node_attributes.product_id.supplier_id,
                node_attributes.product_id.function_id,
            ),
        ),
{
    create_read_by_identifier_frame_from_node_attributes(node_attributes, Identifier::SerialNumber)
}

} // verus!
