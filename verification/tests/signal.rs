use lin_bus::signal::{decode_bit_field, read_le_word};
use lin_bus::{checksum, classic_checksum, Frame, PID};

#[test]
fn test_read_le_word() {
    assert_eq!(read_le_word(&[]), 0);
    assert_eq!(read_le_word(&[0xAB]), 0xAB);
    assert_eq!(read_le_word(&[0x55, 0xDD]), 0xDD55);
    assert_eq!(
        read_le_word(&[0x01, 0x02, 0x03, 0x04, 0x05, 0x06, 0x07, 0x08]),
        0x0807060504030201
    );
}

#[test]
fn test_decode_bit_field() {
    let bytes = [254, 251, 239, 255];
    assert_eq!(decode_bit_field::<u16>(&bytes, 0, 10), 1022);
    assert_eq!(decode_bit_field::<u16>(&bytes, 10, 10), 1022);
    assert_eq!(decode_bit_field::<u16>(&bytes, 20, 11), 2046);
    assert_eq!(decode_bit_field::<u8>(&bytes, 0, 8), 254);
    assert_eq!(decode_bit_field::<u32>(&bytes, 0, 32), 0xFFEFFBFE);
    assert_eq!(decode_bit_field::<u64>(&bytes, 0, 32), 0xFFEFFBFE);
    assert_eq!(decode_bit_field::<u64>(&[1, 2, 3, 4, 5, 6, 7, 8], 0, 64), 0x0807060504030201);
    assert_eq!(decode_bit_field::<u8>(&[0b1010_1100], 2, 3), 0b011);
}

#[test]
fn test_frame_checksum_round_trip() {
    // An enhanced-checksum frame: the embedded checksum byte equals the
    // checksum recomputed independently over the data, seeded with the PID.
    let pid = PID::from_id(29).unwrap();
    let data = [0x12, 0x34, 0x56];
    let frame = Frame::from_data(pid, &data);
    assert_eq!(frame.get_data(), &data[..]);
    assert!(!pid.uses_classic_checksum());
    assert_eq!(frame.get_checksum(), checksum(pid, &data));

    // A classic-checksum frame: the embedded checksum covers the data only.
    let pid = PID::from_id(0x3C).unwrap();
    let frame = Frame::from_data(pid, &data);
    assert_eq!(frame.get_data(), &data[..]);
    assert!(pid.uses_classic_checksum());
    assert_eq!(frame.get_checksum(), classic_checksum(&data));

    // The empty payload round-trips too.
    let frame = Frame::from_data(pid, &[]);
    assert_eq!(frame.get_data(), &[] as &[u8]);
    assert_eq!(frame.get_data_with_checksum().len(), 1);
}
