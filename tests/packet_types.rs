use dglab::packet::{
    CommandType, DeviceInfo, Packet, PacketDecoder, PacketEncoder, WaveformType, WorkMode,
    PACKET_HEADER, PACKET_TAIL,
};

#[test]
fn test_command_type_from_u8_known_values() {
    assert_eq!(CommandType::from(0x01), CommandType::GetInfo);
    assert_eq!(CommandType::from(0x10), CommandType::SetPowerA);
    assert_eq!(CommandType::from(0x11), CommandType::SetPowerB);
    assert_eq!(CommandType::from(0x12), CommandType::SetWaveA);
    assert_eq!(CommandType::from(0x13), CommandType::SetWaveB);
    assert_eq!(CommandType::from(0x14), CommandType::SetMode);
    assert_eq!(CommandType::from(0x20), CommandType::Start);
    assert_eq!(CommandType::from(0x21), CommandType::Stop);
    assert_eq!(CommandType::from(0x30), CommandType::Heartbeat);
    assert_eq!(CommandType::from(0x80), CommandType::Response);
}

#[test]
fn test_command_type_unknown_values() {
    assert_eq!(CommandType::from(0x00), CommandType::Unknown);
    assert_eq!(CommandType::from(0x02), CommandType::Unknown);
    assert_eq!(CommandType::from(0xFE), CommandType::Unknown);
    assert_eq!(CommandType::from(0xFF), CommandType::Unknown);
}

#[test]
fn test_command_type_roundtrip() {
    let commands = [
        CommandType::GetInfo,
        CommandType::SetPowerA,
        CommandType::SetPowerB,
        CommandType::SetWaveA,
        CommandType::SetWaveB,
        CommandType::SetMode,
        CommandType::Start,
        CommandType::Stop,
        CommandType::Heartbeat,
        CommandType::Response,
    ];
    for cmd in commands {
        let byte: u8 = cmd.into();
        let back = CommandType::from(byte);
        assert_eq!(back, cmd, "CommandType roundtrip failed for {:?}", cmd);
    }
}

#[test]
fn test_waveform_type_from_u8_known_values() {
    assert_eq!(WaveformType::from(0x01), WaveformType::Continuous);
    assert_eq!(WaveformType::from(0x02), WaveformType::Pulse);
    assert_eq!(WaveformType::from(0x03), WaveformType::Sawtooth);
    assert_eq!(WaveformType::from(0x04), WaveformType::Sine);
    assert_eq!(WaveformType::from(0x05), WaveformType::Square);
    assert_eq!(WaveformType::from(0x06), WaveformType::Triangle);
}

#[test]
fn test_waveform_type_unknown_maps_to_custom() {
    assert_eq!(WaveformType::from(0x00), WaveformType::Custom);
    assert_eq!(WaveformType::from(0x07), WaveformType::Custom);
    assert_eq!(WaveformType::from(0xFF), WaveformType::Custom);
}

#[test]
fn test_waveform_type_roundtrip() {
    let waveforms = [
        WaveformType::Continuous,
        WaveformType::Pulse,
        WaveformType::Sawtooth,
        WaveformType::Sine,
        WaveformType::Square,
        WaveformType::Triangle,
    ];
    for wf in waveforms {
        let byte: u8 = wf.into();
        let back = WaveformType::from(byte);
        assert_eq!(back, wf, "WaveformType roundtrip failed for {:?}", wf);
    }
}

#[test]
fn test_work_mode_from_u8_known_values() {
    assert_eq!(WorkMode::from(0x01), WorkMode::Auto);
    assert_eq!(WorkMode::from(0x02), WorkMode::Manual);
    assert_eq!(WorkMode::from(0x03), WorkMode::Loop);
    assert_eq!(WorkMode::from(0x04), WorkMode::Random);
}

#[test]
fn test_work_mode_unknown_defaults_to_manual() {
    assert_eq!(WorkMode::from(0x00), WorkMode::Manual);
    assert_eq!(WorkMode::from(0x05), WorkMode::Manual);
    assert_eq!(WorkMode::from(0xFF), WorkMode::Manual);
}

#[test]
fn test_work_mode_roundtrip() {
    let modes = [
        WorkMode::Auto,
        WorkMode::Manual,
        WorkMode::Loop,
        WorkMode::Random,
    ];
    for mode in modes {
        let byte: u8 = mode.into();
        let back = WorkMode::from(byte);
        assert_eq!(back, mode, "WorkMode roundtrip failed for {:?}", mode);
    }
}

#[test]
fn test_packet_new_sets_data_len_and_checksum() {
    let packet = Packet::new(CommandType::Start, Vec::new());
    assert_eq!(packet.data_len, 0);
    assert!(packet.verify_checksum());

    let packet = Packet::new(CommandType::SetPowerA, vec![50]);
    assert_eq!(packet.data_len, 1);
    assert_eq!(packet.data, vec![50]);
    assert!(packet.verify_checksum());
}

#[test]
fn test_packet_checksum_calculation() {
    // 手动验证: HEADER + command + data_len + data_bytes + TAIL
    // 0xAA + 0x20 (Start) + 0x00 (no data) + 0x55 (tail)
    let expected = 0xAAu8
        .wrapping_add(0x20)
        .wrapping_add(0x00)
        .wrapping_add(0x55);
    let checksum = Packet::calculate_checksum(CommandType::Start, 0, &[]);
    assert_eq!(checksum, expected);
}

#[test]
fn test_packet_checksum_with_data() {
    // 0xAA + 0x10 (SetPowerA) + 0x01 (len) + 0x32 (data=50) + 0x55
    let expected = 0xAAu8
        .wrapping_add(0x10)
        .wrapping_add(0x01)
        .wrapping_add(0x32)
        .wrapping_add(0x55);
    let checksum = Packet::calculate_checksum(CommandType::SetPowerA, 1, &[0x32]);
    assert_eq!(checksum, expected);
}

#[test]
fn test_packet_verify_checksum_invalid() {
    let mut packet = Packet::new(CommandType::Start, Vec::new());
    packet.checksum = packet.checksum.wrapping_add(1); // 破坏校验和
    assert!(!packet.verify_checksum());
}

#[test]
fn test_device_info_default() {
    let info = DeviceInfo::default();
    assert_eq!(info.name, "Unknown");
    assert_eq!(info.firmware_version, "1.0.0");
    assert_eq!(info.hardware_version, "1.0");
    assert_eq!(info.battery_level, 100);
    assert_eq!(info.power_a, 0);
    assert_eq!(info.power_b, 0);
    assert_eq!(info.max_power_a, 100);
    assert_eq!(info.max_power_b, 100);
    assert_eq!(info.work_mode, WorkMode::Manual);
}

#[test]
fn test_packet_constants() {
    assert_eq!(PACKET_HEADER, 0xAA);
    assert_eq!(PACKET_TAIL, 0x55);
}


#[test]
fn test_packet_new_with_multi_byte_data() {
    let data = vec![0x01, 0x02, 0x03, 0x04];
    let packet = Packet::new(CommandType::SetWaveA, data.clone());
    assert_eq!(packet.data_len, 4);
    assert_eq!(packet.data, data);
    assert!(packet.verify_checksum());
}
