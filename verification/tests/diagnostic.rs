use lin_bus::frame::diagnostic::{
    byte_to_identifier, create_read_by_identifier_frame,
    create_read_by_identifier_frame_from_node_attributes, create_read_lin_product_identification_frame,
    create_read_serial_number_frame, identifier_to_byte, master_request_frame_pid, Identifier,
    ProductId, SerialNumber,
};
use lin_bus::frame::transport::NAD;
use lin_bus::ldf::NodeAttributes;

const LIN_ID_SERIAL_REQ_PAYLOAD: &[u8] = &[0x10, 0x06, 0xB2, 0x01, 0xB3, 0x00, 0x01, 0x10];

#[test]
fn test_create_read_by_identifier_frame() {
    let frame =
        create_read_by_identifier_frame(NAD(0x10), Identifier::SerialNumber, 0x00B3, 0x1001);

    assert_eq!(frame.get_pid(), master_request_frame_pid());
    assert_eq!(frame.get_data(), LIN_ID_SERIAL_REQ_PAYLOAD);
    assert_eq!(frame.get_data().len(), 8);
}

#[test]
fn test_create_read_by_identifier_frame_from_node_attributes() {
    let node_attributes = NodeAttributes::with_default_timing(
        NAD(0x10),
        NAD(0x10),
        ProductId { supplier_id: 0x00B3, function_id: 0x1001, variant: 0x00 },
    );

    let frame = create_read_by_identifier_frame_from_node_attributes(
        node_attributes,
        Identifier::SerialNumber,
    );
    assert_eq!(frame.get_pid(), master_request_frame_pid());
    assert_eq!(frame.get_data(), LIN_ID_SERIAL_REQ_PAYLOAD);
    assert_eq!(frame.get_data().len(), 8);
}

#[test]
fn test_create_fixed_identifier_frames() {
    let node_attributes = NodeAttributes::with_default_timing(
        NAD(0x10),
        NAD(0x10),
        ProductId { supplier_id: 0x00B3, function_id: 0x1001, variant: 0x00 },
    );

    let serial = create_read_serial_number_frame(node_attributes);
    assert_eq!(serial.get_data(), LIN_ID_SERIAL_REQ_PAYLOAD);

    let product = create_read_lin_product_identification_frame(node_attributes);
    assert_eq!(product.get_data(), &[0x10, 0x06, 0xB2, 0x00, 0xB3, 0x00, 0x01, 0x10]);
}

#[test]
fn test_decode_product_id() {
    let product_id = ProductId { supplier_id: 0x00B3, function_id: 0x1001, variant: 0x01 };
    let data = [0xB3, 0x00, 0x01, 0x10, 0x01];

    assert_eq!(product_id, ProductId::decode(&data[..]));
}

#[test]
fn test_decode_serial_number() {
    let serial_number = SerialNumber(190200009);
    let data = [0xC9, 0x38, 0x56, 0x0B];
    assert_eq!(serial_number, SerialNumber::decode(&data[..]));
}

#[test]
fn test_identifier_byte_round_trip() {
    for byte in 0..=255u8 {
        assert_eq!(identifier_to_byte(byte_to_identifier(byte)), byte);
    }
    assert_eq!(byte_to_identifier(0), Identifier::LINProductIdentification);
    assert_eq!(byte_to_identifier(1), Identifier::SerialNumber);
    assert_eq!(byte_to_identifier(32), Identifier::UserDefined(32));
    assert_eq!(byte_to_identifier(63), Identifier::UserDefined(63));
    assert_eq!(byte_to_identifier(2), Identifier::Reserved(2));
    assert_eq!(byte_to_identifier(64), Identifier::Reserved(64));
    assert_eq!(identifier_to_byte(Identifier::LINProductIdentification), 0);
    assert_eq!(identifier_to_byte(Identifier::SerialNumber), 1);
}

#[test]
fn test_node_attributes_default_timing() {
    let node_attributes = NodeAttributes::with_default_timing(
        NAD(0x11),
        NAD(0x12),
        ProductId { supplier_id: 1, function_id: 2, variant: 3 },
    );
    assert_eq!(node_attributes.configured_nad, NAD(0x11));
    assert_eq!(node_attributes.initial_nad, NAD(0x12));
    assert_eq!(node_attributes.product_id, ProductId { supplier_id: 1, function_id: 2, variant: 3 });
    assert_eq!(node_attributes.p2_min.0, 50);
    assert_eq!(node_attributes.st_min.0, 0);
    assert_eq!(node_attributes.n_as_timeout.0, 1000);
    assert_eq!(node_attributes.n_cr_timeout.0, 1000);
}
