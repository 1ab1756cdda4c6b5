use lin_bus::frame::diagnostic;
use lin_bus::frame::transport::{create_single_frame, PCIType, NAD, PCI, SID};
use lin_bus::PID;

struct TransportTestData {
    pid: PID,
    nad: NAD,
    sid: SID,
    data: &'static [u8],
    frame_data: [u8; 8],
}

#[test]
fn test_transport_frame() {
    let test_data = [
        TransportTestData {
            pid: diagnostic::master_request_frame_pid(),
            nad: NAD(0x10),
            sid: SID(0xB2),
            data: &[0x01, 0xB3, 0x00, 0x01, 0x10],
            frame_data: [0x10, 0x06, 0xB2, 0x01, 0xB3, 0x00, 0x01, 0x10],
        },
        TransportTestData {
            pid: diagnostic::slave_response_frame_pid(),
            nad: NAD(0x10),
            sid: SID(0xB2),
            data: &[0x01],
            frame_data: [0x10, 0x02, 0xB2, 0x01, 0xFF, 0xFF, 0xFF, 0xFF],
        },
    ];

    for d in &test_data {
        let frame = create_single_frame(d.pid, d.nad, d.sid, d.data);
        assert_eq!(frame.get_pid(), d.pid);
        assert_eq!(frame.get_data(), &d.frame_data[..]);
        assert_eq!(frame.get_data().len(), 8);
    }
}

#[test]
fn test_pci_new_sf() {
    for length in 0..=5u8 {
        let pci = PCI::new_sf(length);
        assert_eq!(pci.get_length(), length + 1);
        assert_eq!(pci.get_type(), PCIType::SF);
    }
}

#[test]
fn test_diagnostic_frame_pids() {
    assert_eq!(diagnostic::master_request_frame_pid().get(), 0x3C);
    assert_eq!(diagnostic::master_request_frame_pid().get_id(), diagnostic::MASTER_REQUEST_FRAME_ID);
    assert_eq!(diagnostic::slave_response_frame_pid().get(), 0x7D);
    assert_eq!(diagnostic::slave_response_frame_pid().get_id(), diagnostic::SLAVE_RESPONSE_FRAME_ID);
    assert!(diagnostic::master_request_frame_pid().uses_classic_checksum());
    assert!(diagnostic::slave_response_frame_pid().uses_classic_checksum());
}
