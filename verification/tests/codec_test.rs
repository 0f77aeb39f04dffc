use zigstack::commands::{Command, CommandType, Subsystem, SubsystemName};
use zigstack::frames::{
    calc_fcs, ExtendedFrame, FrameError, FrameStructure, Header, MonitorFrame, StandardFrame,
};

#[test]
fn test_from_1u16_little_endian() {
    // Low byte becomes cmd0, high byte cmd1.
    let command = Command::from_1u16(0x0142);
    assert_eq!(command.cmd0(), 0x42);
    assert_eq!(command.cmd1(), 0x01);
}

#[test]
fn test_command_serialize_inverts_from_bytes() {
    let data = [0x42u8, 0x07u8];
    let command = Command::from_bytes(&data);
    assert_eq!(command.serialize(), data);
}

#[test]
fn test_subsystem_total_mapping() {
    let expected = [
        (0x00u8, Subsystem::RpcErrIface),
        (0x01, Subsystem::SysIface),
        (0x02, Subsystem::MacIface),
        (0x03, Subsystem::NwkIface),
        (0x04, Subsystem::AfIface),
        (0x05, Subsystem::ZdoIface),
        (0x06, Subsystem::SimpleIface),
        (0x07, Subsystem::UtilIface),
        (0x08, Subsystem::DebugIface),
        (0x09, Subsystem::AppIface),
        (0x0F, Subsystem::AppConfig),
        (0x15, Subsystem::GreenPwr),
    ];
    for (code, subsystem) in expected {
        assert_eq!(Command::convert_to_subsystem(code), subsystem);
    }
    // Unassigned codes fall back to RpcErrIface rather than erroring.
    assert_eq!(Command::convert_to_subsystem(0x1A), Subsystem::RpcErrIface);
    assert_eq!(Command::convert_to_subsystem(0x1F), Subsystem::RpcErrIface);
}

#[test]
fn test_command_type_total_mapping() {
    let expected = [
        CommandType::Poll,
        CommandType::Sreq,
        CommandType::Areq,
        CommandType::Srsp,
        CommandType::Res4,
        CommandType::Res5,
        CommandType::Res6,
        CommandType::Res7,
    ];
    for (code, cmd_type) in expected.iter().enumerate() {
        assert_eq!(Command::convert_to_type(code as u8), *cmd_type);
    }
}

#[test]
fn test_command_classification_scenario() {
    // cmd0 = 0b01000010: type bits 010 (Areq), subsystem bits 00010 (MAC).
    let command = Command::from_bytes(&[0x42, 0x00]);
    assert_eq!(command.subsystem(), Subsystem::MacIface);
    assert_eq!(command.cmd_type(), CommandType::Areq);
}

#[test]
fn test_subsystem_name() {
    assert_eq!(
        Command::from_bytes(&[0x02, 0x00]).id(),
        Some(SubsystemName::MacIface)
    );
    assert_eq!(
        Command::from_bytes(&[0x1A, 0x00]).id(),
        Some(SubsystemName::Reserved)
    );
    assert_eq!(Command::from_bytes(&[32, 0x00]).id(), None);
}

#[test]
fn test_fcs_permutation_invariant() {
    let a = calc_fcs(&[0x10, 0x21, 0x32, 0x43]);
    let b = calc_fcs(&[0x43, 0x10, 0x32, 0x21]);
    assert_eq!(a, b);
    // Flipping a single byte always changes the fold.
    let c = calc_fcs(&[0x10, 0x21, 0x33, 0x43]);
    assert_ne!(a, c);
}

#[test]
fn test_fcs_exact_value() {
    assert_eq!(calc_fcs(&[0x00, 0x21, 0x01]), 0x20);
    assert_eq!(calc_fcs(&[]), 0x00);
}

#[test]
fn test_envelope_decode_scenario() {
    let raw = [0xFEu8, 0x00, 0x21, 0x01, 0x20];
    let mtframe = MonitorFrame::from_bytes(&raw).unwrap();
    match &mtframe {
        MonitorFrame::StandardFrame(frame) => {
            assert_eq!(frame.header.len, 0);
            assert_eq!(frame.header.command.cmd0(), 0x21);
            assert_eq!(frame.header.command.cmd1(), 0x01);
            assert!(frame.data.is_empty());
        }
        MonitorFrame::ExtendedFrame(_) => panic!("expected a standard frame"),
    }
    assert_eq!(mtframe.command().cmd0(), 0x21);
    assert_eq!(mtframe.serialize().unwrap(), raw.to_vec());
}

#[test]
fn test_envelope_round_trip_with_payload() {
    let header = Header {
        len: 3,
        command: Command::from_bytes(&[0x42, 0x07]),
    };
    let frame = StandardFrame {
        header,
        data: vec![0xAA, 0xBB, 0xCC],
    };
    let envelope = MonitorFrame::StandardFrame(frame);
    let wire = envelope.serialize().unwrap();
    assert_eq!(wire.len(), 8);
    assert_eq!(wire[0], 0xFE);

    let decoded = MonitorFrame::from_bytes(&wire).unwrap();
    match decoded {
        MonitorFrame::StandardFrame(f) => {
            assert_eq!(f.header.len, 3);
            assert_eq!(f.header.command.cmd0(), 0x42);
            assert_eq!(f.header.command.cmd1(), 0x07);
            assert_eq!(f.data, vec![0xAA, 0xBB, 0xCC]);
        }
        MonitorFrame::ExtendedFrame(_) => panic!("expected a standard frame"),
    }
}

#[test]
fn test_corrupt_checksum_rejected() {
    // Same capture as the decode scenario with the trailing byte flipped.
    let raw = [0xFEu8, 0x00, 0x21, 0x01, 0x21];
    assert_eq!(
        MonitorFrame::from_bytes(&raw).unwrap_err(),
        FrameError::ChecksumMismatch
    );
}

#[test]
fn test_truncated_envelope_rejected() {
    // Declared length 5, but no payload bytes follow the header.
    let raw = [0xFEu8, 0x05, 0x21, 0x01];
    assert_eq!(
        MonitorFrame::from_bytes(&raw).unwrap_err(),
        FrameError::TruncatedFrame
    );
}

#[test]
fn test_bad_start_marker_rejected() {
    let raw = [0x00u8, 0x00, 0x21, 0x01, 0x20];
    assert_eq!(
        MonitorFrame::from_bytes(&raw).unwrap_err(),
        FrameError::FramingError
    );
    assert_eq!(
        MonitorFrame::from_bytes(&[]).unwrap_err(),
        FrameError::FramingError
    );
}

#[test]
fn test_oversized_length_rejected() {
    let mut raw = vec![0xFEu8, 251, 0x21, 0x01];
    raw.resize(300, 0);
    assert_eq!(
        MonitorFrame::from_bytes(&raw).unwrap_err(),
        FrameError::InvalidLength
    );
    assert!(Header::from_bytes(&[251, 0x21, 0x01]).is_none());
}

#[test]
fn test_standard_frame_truncated_rejected() {
    assert_eq!(
        StandardFrame::from_bytes(&[0x02, 0x01]).unwrap_err(),
        FrameError::TruncatedFrame
    );
    assert_eq!(
        StandardFrame::from_bytes(&[0x05, 0x01, 0x02]).unwrap_err(),
        FrameError::TruncatedFrame
    );
}

#[test]
fn test_extended_variant_unencodable() {
    let envelope = MonitorFrame::ExtendedFrame(ExtendedFrame {});
    assert_eq!(
        envelope.serialize().unwrap_err(),
        FrameError::UnsupportedVariant
    );
    // The extended placeholder has no command word: the sentinel comes back.
    assert_eq!(envelope.command().cmd0(), 0x00);
    assert_eq!(envelope.command().cmd1(), 0x00);
}
