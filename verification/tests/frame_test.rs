use zigstack::commands::{Command, CommandType, Subsystem};
use zigstack::frames::{FrameStructure, Header, MonitorFrame};

#[test]
fn test_command_from_bytes() {
    // Areq + SYS: 0b01000010
    let data = [66, 2];
    let command = Command::from_bytes(&data);

    let _subsystem = command.subsystem();
    let _cmd_type = command.cmd_type();

    assert_eq!(command.cmd0(), 66);
    assert_ne!(command.cmd0(), 2);
    assert_eq!(command.subsystem(), Subsystem::MacIface);
    assert_eq!(command.cmd_type(), CommandType::Areq);
}

#[test]
fn test_header_frame() {
    // Areq + SYS: 66
    let data = [1u8, 66u8, 249u8];
    let header = Header::from_bytes(&data);
    let header = match header {
        None => panic!("header is None"),
        Some(v) => v,
    };

    let serialized = header.serialize();
    let _ = serialized.as_slice();
}

#[test]
fn test_frame_serialize() {
    let mut test_buffer: Vec<u8> = Vec::new();
    test_buffer.extend_from_slice(&[0xFE, 0x00, 0x21, 0x01, 0x20]);

    let mtframe = MonitorFrame::from_bytes(&test_buffer).unwrap();
    assert_eq!(mtframe.serialize().unwrap(), test_buffer);
}
