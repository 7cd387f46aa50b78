use dglab::bridge::{BridgeDevice, ControlMessage};
use dglab::coyote::CoyoteDevice;
use dglab::device::{
    waveform_config_to_v3, BaseDevice, CoreError, DeviceEvent, DeviceState, WaveformConfig,
    WaveformType,
};
use dglab::output::OutputState;
use dglab::relay::{
    generate_url, Channel, MessageType, StrengthMode, StrengthOperation, WsEvent, WsMessage,
    OFFICIAL_SERVER,
};
use dglab::remote::RemoteDevice;
use dglab::v3::{
    compress_frequency, decompress_frequency, B0Command, B1Response, BFCommand,
    ChannelStrengthMode, StrengthMode as WireMode, WaveformData,
};

#[test]
fn round_trip_extreme_output_command() {
    let cmd = B0Command {
        sequence: 15,
        strength_mode: WireMode::new(ChannelStrengthMode::Absolute, ChannelStrengthMode::Decrease),
        strength_a: 200,
        strength_b: 0,
        waveform_a: WaveformData::new([240, 10, 255, 0], [100, 0, 101, 255]),
        waveform_b: WaveformData::silent(),
    };
    let bytes = cmd.encode();
    assert_eq!(bytes[1], 0xF0 | 0b1110);
    assert_eq!(B0Command::decode(&bytes), Some(cmd));
}

#[test]
fn round_trip_limit_config_and_feedback() {
    let bf = BFCommand {
        soft_limit_a: 0,
        soft_limit_b: 200,
        freq_balance_a: 255,
        freq_balance_b: 1,
        intensity_balance_a: 128,
        intensity_balance_b: 7,
    };
    assert_eq!(BFCommand::decode(&bf.encode()), Some(bf));
    let b1 = B1Response { sequence: 9, strength_a: 200, strength_b: 3 };
    assert_eq!(B1Response::decode(&b1.encode()), Some(b1));
}

#[test]
fn decode_rejects_wrong_length_or_header() {
    let mut long = B0Command::waveform_only(WaveformData::silent(), WaveformData::silent())
        .encode()
        .to_vec();
    long.push(0);
    assert!(B0Command::decode(&long).is_none());
    let mut bad = BFCommand::default_config().encode();
    bad[0] = 0xB0;
    assert!(BFCommand::decode(&bad).is_none());
    assert!(B1Response::decode(&[0xB1, 1, 2, 3, 4]).is_none());
}

#[test]
fn out_of_range_strength_is_sent_as_zero() {
    let mut cmd = B0Command::set_strength_a(100, 1);
    cmd.strength_a = 201;
    assert_eq!(cmd.encode()[2], 0);
}

#[test]
fn frequency_clamp_is_monotone_and_exact_on_low_range() {
    let mut prev = compress_frequency(10);
    for x in 11..=1000u16 {
        let c = compress_frequency(x);
        assert!(c >= prev);
        prev = c;
    }
    assert_eq!(compress_frequency(9), 10);
    assert_eq!(compress_frequency(1001), 10);
    for x in 10..=100u16 {
        assert_eq!(decompress_frequency(compress_frequency(x)), x);
    }
    assert_eq!(decompress_frequency(5), 10);
    assert_eq!(decompress_frequency(241), 10);
}

#[test]
fn hex_text_accepts_uppercase_and_plus_sign() {
    let w = WaveformData::from_hex_string("0A141E28000A141E").unwrap();
    assert_eq!(w.frequency, [10, 20, 30, 40]);
    let v = WaveformData::from_hex_string("+a141e28000a141e").unwrap();
    assert_eq!(v.frequency[0], 10);
    assert!(WaveformData::from_hex_string("0a141e28000a141g").is_none());
}

#[test]
fn tick_takes_sequence_only_for_pending_changes() {
    let mut s = OutputState::new();
    let idle = s.build_b0();
    assert_eq!(idle.sequence, 0);
    assert_eq!(idle.strength_mode, WireMode::both_no_change());
    s.set_power(1, 30).unwrap();
    let cmd = s.build_b0();
    assert_eq!(cmd.sequence, 1);
    assert_eq!(cmd.strength_mode.channel_a, ChannelStrengthMode::NoChange);
    assert_eq!(cmd.strength_mode.channel_b, ChannelStrengthMode::Absolute);
    assert_eq!(cmd.strength_b, 30);
    assert!(!s.pending_strength_b);
    assert_eq!(s.build_b0().sequence, 0);
}

#[test]
fn sequence_cycles_without_repeating() {
    let mut s = OutputState::new();
    let mut last = 0u8;
    let mut seen = Vec::new();
    for i in 0..40u8 {
        s.set_power(0, i).unwrap();
        let seq = s.build_b0().sequence;
        assert!((1..=15).contains(&seq));
        assert_ne!(seq, last);
        last = seq;
        seen.push(seq);
    }
    assert_eq!(seen[0], 1);
    assert_eq!(seen[14], 15);
    assert_eq!(seen[15], 1);
}

#[test]
fn rapid_writes_coalesce_into_one_command() {
    let mut s = OutputState::new();
    s.set_power(0, 10).unwrap();
    s.set_power(0, 80).unwrap();
    s.set_power(0, 42).unwrap();
    let cmd = s.build_b0();
    assert_eq!(cmd.strength_a, 42);
    assert_eq!(cmd.strength_mode.channel_a, ChannelStrengthMode::Absolute);
    assert!(!s.pending_strength_a);
    let next = s.build_b0();
    assert_eq!(next.strength_mode.channel_a, ChannelStrengthMode::NoChange);
}

#[test]
fn output_state_rejects_out_of_range() {
    let mut s = OutputState::new();
    assert_eq!(s.set_power(0, 201), Err(CoreError::PowerOutOfRange(201, 200)));
    assert!(matches!(s.set_power(2, 5), Err(CoreError::InvalidParameter(_))));
    assert_eq!(s, OutputState::new());
    assert_eq!(s.get_power(7), 0);
}

/// A local device that went through the whole connect sequence.
fn connected_device() -> CoyoteDevice {
    let mut dev = CoyoteDevice::new("dev".to_string(), "Coyote".to_string());
    assert!(dev.begin_connect());
    dev.finish_connect();
    dev
}

#[test]
fn start_needs_a_connected_device() {
    let mut dev = CoyoteDevice::new("dev".to_string(), "Coyote".to_string());
    assert_eq!(dev.start(), Err(CoreError::DeviceNotConnected));
    assert_eq!(dev.state(), DeviceState::Disconnected);
    let mut dev = connected_device();
    assert_eq!(dev.start(), Ok(()));
    assert_eq!(dev.state(), DeviceState::Running);
    assert_eq!(dev.start(), Err(CoreError::DeviceNotConnected));
}

#[test]
fn stop_resets_targets_and_returns_to_connected() {
    let mut dev = connected_device();
    dev.start().unwrap();
    dev.set_power(0, 120).unwrap();
    dev.set_power(1, 90).unwrap();
    dev.stop().unwrap();
    assert_eq!(dev.state(), DeviceState::Connected);
    assert_eq!(dev.get_power(0), 0);
    assert_eq!(dev.get_power(1), 0);
    assert!(dev.tick().is_none());
}

#[test]
fn repeated_state_emits_one_event() {
    let mut base = BaseDevice::new("x".to_string(), "X".to_string());
    base.set_state(DeviceState::Connecting);
    base.set_state(DeviceState::Connecting);
    let events = base.take_events();
    assert_eq!(events.len(), 1);
    assert!(matches!(events[0], DeviceEvent::StateChanged(DeviceState::Connecting)));
}

#[test]
fn base_device_ceiling_is_one_hundred() {
    let mut base = BaseDevice::new("x".to_string(), "X".to_string());
    assert_eq!(base.set_power(0, 101), Err(CoreError::PowerOutOfRange(101, 100)));
    assert!(matches!(base.set_power(3, 1), Err(CoreError::InvalidParameter(_))));
    assert_eq!(base.set_power(1, 100), Ok(()));
    assert_eq!(base.power_b(), 100);
}

#[test]
fn relay_payloads_classify_by_shape() {
    match ControlMessage::classify("strength-1+1+5") {
        ControlMessage::Strength(op) => {
            assert_eq!(op, StrengthOperation::new(Channel::A, StrengthMode::Increase, 5));
        }
        other => panic!("unexpected {:?}", other),
    }
    assert!(matches!(ControlMessage::classify("clear-2"), ControlMessage::Clear(Channel::B)));
    assert!(matches!(ControlMessage::classify("clear-A"), ControlMessage::Clear(Channel::A)));
    match ControlMessage::classify("pulse-B:[\"0a0a0a0a00000000\",\"0a0a0a0a64646464\"]") {
        ControlMessage::Pulse(p) => {
            assert_eq!(p.channel, Channel::B);
            assert_eq!(p.pulses, vec!["0a0a0a0a00000000".to_string(), "0a0a0a0a64646464".to_string()]);
        }
        other => panic!("unexpected {:?}", other),
    }
    for bad in ["strength-3+1+5", "strength-1+7+5", "strength-1+1", "clear-3", "pulse-C:[]", "", "hello", "strength-1+1+256"] {
        assert!(matches!(ControlMessage::classify(bad), ControlMessage::Unclassified), "{bad}");
    }
}

#[test]
fn strength_operations_saturate() {
    let inc = StrengthOperation::increase(Channel::A, 250);
    assert_eq!(inc.apply(10), 200);
    let dec = StrengthOperation::decrease(Channel::A, 30);
    assert_eq!(dec.apply(10), 0);
    assert_eq!(dec.apply(100), 70);
    assert_eq!(StrengthOperation::set(Channel::B, 255).apply(0), 200);
}

/// A relay frame with the given fields.
fn frame(kind: MessageType, client: &str, target: &str, message: &str) -> WsMessage {
    WsMessage::new(kind, client.to_string(), target.to_string(), message.to_string())
}

#[test]
fn bridge_happy_path() {
    let mut bridge = BridgeDevice::new(
        "bridge".to_string(),
        "Bridge".to_string(),
        "ble-1".to_string(),
        "Coyote".to_string(),
    );
    assert!(bridge.begin_connect());
    let assign = WsEvent::from_message(&frame(MessageType::Bind, "c1", "", "targetId"));
    assert!(matches!(&assign, WsEvent::ClientId(id) if id == "c1"));
    bridge.relay_event(&assign);
    let url = bridge.qr_url(OFFICIAL_SERVER).unwrap();
    assert!(url.contains("c1"));
    assert_eq!(url, generate_url(OFFICIAL_SERVER, "c1"));
    assert!(!bridge.is_bound());
    let bound = WsEvent::from_message(&frame(MessageType::Bind, "c1", "peerA", "200"));
    bridge.relay_event(&bound);
    assert!(bridge.is_bound());
    assert!(bridge.begin_local_connect());
    bridge.finish_connect();
    assert_eq!(bridge.state(), DeviceState::Connected);
    bridge.start().unwrap();
    bridge.set_power(0, 50).unwrap();
    let bytes = bridge.tick().unwrap();
    let cmd = B0Command::decode(&bytes).unwrap();
    assert_eq!(cmd.strength_a, 50);
    assert_eq!(cmd.strength_mode.channel_a, ChannelStrengthMode::Absolute);
    bridge.take_local_events();
    let later = B1Response { sequence: cmd.sequence + 1, strength_a: 0, strength_b: 0 };
    let fresh = B1Response { sequence: cmd.sequence, strength_a: 50, strength_b: 0 };
    assert_eq!(bridge.on_notification(&later.encode()), Some(later));
    assert_eq!(bridge.on_notification(&fresh.encode()), Some(fresh));
    let events = bridge.take_local_events();
    assert!(matches!(events.last(), Some(DeviceEvent::StatusReport { power_a: 50, .. })));
    let status = bridge.status_message(fresh.strength_a, fresh.strength_b).unwrap();
    assert_eq!(status.message, "strength-50+0+200+200");
    assert_eq!(status.client_id, "c1");
    assert_eq!(status.target_id, "peerA");
}

#[test]
fn bridge_applies_peer_control() {
    let mut bridge = BridgeDevice::new("b".to_string(), "B".to_string(), "l".to_string(), "L".to_string());
    bridge.begin_connect();
    bridge.begin_local_connect();
    bridge.finish_connect();
    bridge.apply_control("strength-2+2+70");
    assert_eq!(bridge.get_power(1), 70);
    bridge.apply_control("strength-2+0+100");
    assert_eq!(bridge.get_power(1), 0);
    bridge.apply_control("strength-1+1+30");
    assert_eq!(bridge.get_power(0), 30);
    bridge.apply_control("clear-1");
    assert_eq!(bridge.get_power(0), 0);
    let other = WsEvent::from_message(&frame(MessageType::Msg, "peer", "me", "strength-1+2+9"));
    assert!(bridge.relay_event(&other).is_some());
    assert_eq!(bridge.get_power(0), 9);
}

#[test]
fn emergency_stop_zeroes_local_device() {
    let mut dev = connected_device();
    dev.start().unwrap();
    dev.set_power(0, 80).unwrap();
    dev.set_power(1, 60).unwrap();
    let failures = dev.emergency_stop();
    assert!(failures.is_empty());
    assert_eq!(dev.state(), DeviceState::Connected);
    assert_eq!(dev.get_power(0), 0);
    assert_eq!(dev.get_power(1), 0);
}

#[test]
fn emergency_stop_survives_failed_write() {
    let mut dev = RemoteDevice::new("r".to_string(), "Remote".to_string());
    dev.begin_connect();
    dev.finish_connect();
    dev.relay_event(&WsEvent::ClientId("me".to_string()));
    dev.relay_event(&WsEvent::Bound("app".to_string()));
    dev.start().unwrap();
    dev.set_power(0, 80).unwrap();
    dev.set_power(1, 60).unwrap();
    let frames = dev.emergency_stop();
    assert_eq!(frames.len(), 2);
    // The channel A frame is lost on the way: nothing on this side depends on it.
    let delivered: Vec<&WsMessage> = frames.iter().skip(1).collect();
    assert_eq!(delivered[0].message, "strength-2+2+0");
    assert_eq!(dev.state(), DeviceState::Connected);
    assert_eq!(dev.get_power(0), 0);
    assert_eq!(dev.get_power(1), 0);
}

#[test]
fn remote_device_frames_follow_session() {
    let mut dev = RemoteDevice::new("r".to_string(), "Remote".to_string());
    assert_eq!(dev.set_power(0, 10), Ok(None));
    dev.begin_connect();
    dev.finish_connect();
    assert!(matches!(dev.set_power(0, 20), Err(CoreError::Other(_))));
    dev.relay_event(&WsEvent::ClientId("me".to_string()));
    dev.relay_event(&WsEvent::Bound("app".to_string()));
    let m = dev.set_power(1, 35).unwrap().unwrap();
    assert_eq!(m.msg_type, "msg");
    assert_eq!(m.message, "strength-2+2+35");
    assert_eq!(dev.set_power(0, 101), Err(CoreError::PowerOutOfRange(101, 100)));
    dev.relay_event(&WsEvent::Strength(dglab::relay::StrengthData {
        strength_a: 5,
        strength_b: 6,
        max_a: 100,
        max_b: 100,
    }));
    let events = dev.take_events();
    assert!(matches!(events.last(), Some(DeviceEvent::StatusReport { power_a: 5, power_b: 6 })));
}

#[test]
fn waveform_config_shapes() {
    let mut config = WaveformConfig::default();
    config.waveform_type = WaveformType::Sawtooth;
    config.intensity = 120;
    config.frequency = 200;
    let w = waveform_config_to_v3(&config);
    assert_eq!(w.frequency, [120, 120, 120, 120]);
    assert_eq!(w.intensity, [25, 50, 75, 100]);
    config.waveform_type = WaveformType::Custom;
    config.custom_data = Some(vec![1, 2, 3, 4, 5, 6, 7, 8, 9]);
    assert_eq!(waveform_config_to_v3(&config), WaveformData::new([1, 2, 3, 4], [5, 6, 7, 8]));
}

#[test]
fn feedback_frames_become_status_events() {
    let mut dev = connected_device();
    assert!(dev.on_notification(&[0xCC, 1]).is_none());
    let r = dev.on_notification(&[0xB1, 4, 50, 7]).unwrap();
    assert_eq!(r.strength_a, 50);
    let events = dev.take_events();
    assert!(matches!(events.last(), Some(DeviceEvent::StatusReport { power_a: 50, power_b: 7 })));
    dev.receive_failed("gone".to_string());
    assert!(matches!(dev.take_events().last(), Some(DeviceEvent::Error(_))));
}

#[test]
fn send_failure_ends_output_loop() {
    let mut dev = connected_device();
    dev.start().unwrap();
    assert!(dev.tick().is_some());
    dev.send_failed("link lost".to_string());
    assert!(dev.tick().is_none());
    assert!(matches!(dev.take_events().last(), Some(DeviceEvent::Error(_))));
}

#[test]
fn heartbeat_only_while_connected_and_idle() {
    let dev = CoyoteDevice::new("d".to_string(), "D".to_string());
    assert!(dev.heartbeat().is_none());
    let dev = connected_device();
    let bytes = dev.heartbeat().unwrap();
    assert_eq!(bytes[1], 0);
    assert_eq!(bytes[19], 101);
    assert_eq!(CoyoteDevice::limit_config().encode(), [0xBF, 200, 200, 0, 0, 0, 0]);
}

#[test]
fn remote_device_stop_and_pushes_reach_peer() {
    let mut dev = RemoteDevice::with_server("r".to_string(), "Remote".to_string(), "ws://relay".to_string());
    dev.begin_connect();
    dev.finish_connect();
    assert!(dev.set_waveform(0, &WaveformConfig::default()).is_err());
    assert_eq!(dev.bind_wait_step(Some(&WsEvent::Closed), 0, 10), Some(dglab::session::BindOutcome::Closed));
    dev.relay_event(&WsEvent::ClientId("me".to_string()));
    assert_eq!(dev.qr_url().unwrap(), "https://www.dungeon-lab.com/app-download.php#DGLAB-SOCKET#ws://relay/me");
    dev.relay_event(&WsEvent::Bound("app".to_string()));
    let push = dev.set_waveform(1, &WaveformConfig::default()).unwrap();
    assert!(push.message.starts_with("pulse-B:[\"0101000101320101\""));
    let hb = dev.heartbeat();
    assert_eq!((hb.client_id.as_str(), hb.target_id.as_str(), hb.message.as_str()), ("me", "app", "200"));
    dev.start().unwrap();
    dev.set_power(0, 40).unwrap();
    let frames = dev.stop();
    let texts: Vec<&str> = frames.iter().map(|m| m.message.as_str()).collect();
    assert_eq!(texts, vec!["strength-1+2+0", "strength-2+2+0"]);
    assert!(dev.stop().is_empty());
    dev.relay_event(&WsEvent::PeerDisconnected);
    assert!(matches!(dev.take_events().last(), Some(DeviceEvent::Error(t)) if t == "Peer disconnected"));
}
