use dglab::packet::{
    CommandType, DeviceInfo, Packet, PacketDecoder, PacketEncoder, WaveformType, WorkMode,
    PACKET_HEADER, PACKET_TAIL,
};

#[test]
fn test_encode_basic_structure() {
    // 编码后的格式: [HEADER, command, data_len, ...data, checksum, TAIL]
    let packet = Packet::new(CommandType::Start, Vec::new());
    let bytes = PacketEncoder::encode(&packet).unwrap();

    assert_eq!(bytes[0], PACKET_HEADER);
    assert_eq!(bytes[1], u8::from(CommandType::Start));
    assert_eq!(bytes[2], 0); // data_len = 0
                             // bytes[3] = checksum
    assert_eq!(bytes[bytes.len() - 1], PACKET_TAIL);
    assert_eq!(bytes.len(), 5); // header + cmd + len + checksum + tail
}

#[test]
fn test_encode_with_data() {
    let packet = Packet::new(CommandType::SetPowerA, vec![50]);
    let bytes = PacketEncoder::encode(&packet).unwrap();

    assert_eq!(bytes[0], PACKET_HEADER);
    assert_eq!(bytes[1], 0x10); // SetPowerA
    assert_eq!(bytes[2], 1); // data_len = 1
    assert_eq!(bytes[3], 50); // data
                              // bytes[4] = checksum
    assert_eq!(bytes[bytes.len() - 1], PACKET_TAIL);
    assert_eq!(bytes.len(), 6); // header + cmd + len + data(1) + checksum + tail
}

#[test]
fn test_encode_simple_heartbeat() {
    let bytes = PacketEncoder::encode_heartbeat().unwrap();
    assert_eq!(bytes[0], PACKET_HEADER);
    assert_eq!(bytes[1], u8::from(CommandType::Heartbeat));
    assert_eq!(bytes[2], 0); // 无数据
    assert_eq!(bytes[bytes.len() - 1], PACKET_TAIL);
}

#[test]
fn test_encode_simple_start() {
    let bytes = PacketEncoder::encode_start().unwrap();
    assert_eq!(bytes[1], u8::from(CommandType::Start));
    assert_eq!(bytes[2], 0);
}

#[test]
fn test_encode_simple_stop() {
    let bytes = PacketEncoder::encode_stop().unwrap();
    assert_eq!(bytes[1], u8::from(CommandType::Stop));
    assert_eq!(bytes[2], 0);
}

#[test]
fn test_encode_simple_get_info() {
    let bytes = PacketEncoder::encode_get_info().unwrap();
    assert_eq!(bytes[1], u8::from(CommandType::GetInfo));
    assert_eq!(bytes[2], 0);
}

#[test]
fn test_encode_set_power_channel_a() {
    let bytes = PacketEncoder::encode_set_power(0, 75).unwrap();
    assert_eq!(bytes[1], u8::from(CommandType::SetPowerA));
    assert_eq!(bytes[2], 1); // data_len
    assert_eq!(bytes[3], 75); // power value
}

#[test]
fn test_encode_set_power_channel_b() {
    let bytes = PacketEncoder::encode_set_power(1, 100).unwrap();
    assert_eq!(bytes[1], u8::from(CommandType::SetPowerB));
    assert_eq!(bytes[2], 1);
    assert_eq!(bytes[3], 100);
}

#[test]
fn test_encode_set_power_invalid_channel() {
    let result = PacketEncoder::encode_set_power(2, 50);
    assert!(result.is_err());
}

#[test]
fn test_encode_set_wave_channel_a() {
    let params = [10, 20, 30];
    let bytes = PacketEncoder::encode_set_wave(0, 0x01, &params).unwrap();
    assert_eq!(bytes[1], u8::from(CommandType::SetWaveA));
    assert_eq!(bytes[2], 4); // data_len = 1 (waveform) + 3 (params)
    assert_eq!(bytes[3], 0x01); // waveform type
    assert_eq!(bytes[4], 10);
    assert_eq!(bytes[5], 20);
    assert_eq!(bytes[6], 30);
}

#[test]
fn test_encode_set_wave_channel_b() {
    let bytes = PacketEncoder::encode_set_wave(1, 0x02, &[5]).unwrap();
    assert_eq!(bytes[1], u8::from(CommandType::SetWaveB));
    assert_eq!(bytes[3], 0x02); // waveform type
    assert_eq!(bytes[4], 5); // param
}

#[test]
fn test_encode_set_wave_invalid_channel() {
    let result = PacketEncoder::encode_set_wave(3, 0x01, &[]);
    assert!(result.is_err());
}

#[test]
fn test_encode_set_mode() {
    let bytes = PacketEncoder::encode_set_mode(0x02).unwrap();
    assert_eq!(bytes[1], u8::from(CommandType::SetMode));
    assert_eq!(bytes[2], 1); // data_len
    assert_eq!(bytes[3], 0x02); // mode
}

#[test]
fn test_encode_preserves_checksum() {
    // 确保编码后的校验和是由 Packet::new 正确计算的
    let bytes = PacketEncoder::encode_set_power(0, 50).unwrap();
    let expected_checksum = Packet::calculate_checksum(CommandType::SetPowerA, 1, &[50]);
    // checksum 在 data 之后，tail 之前
    assert_eq!(bytes[bytes.len() - 2], expected_checksum);
}

#[test]
fn test_encode_zero_power() {
    let bytes = PacketEncoder::encode_set_power(0, 0).unwrap();
    assert_eq!(bytes[3], 0);
}

#[test]
fn test_encode_max_power() {
    let bytes = PacketEncoder::encode_set_power(0, 255).unwrap();
    assert_eq!(bytes[3], 255);
}

