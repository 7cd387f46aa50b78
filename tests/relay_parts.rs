use dglab::device::{CoreError, DeviceEvent, DeviceState};
use dglab::hub::{RelayHub, ServerEvent};
use dglab::packet::{CommandType, Packet, PacketDecoder};
use dglab::registry::{count_active, forward_event, DeviceRegistry, SessionEvent};
use dglab::relay::{
    Channel, ClearOperation, ErrorCode, FeedbackButton, MessageDataHead, MessageType, PulseData,
    RetCode, StrengthData, StrengthMode, StrengthOperation, WsEvent, WsMessage,
};
use dglab::scanner::BleScanner;
use dglab::session::{BindOutcome, ClientState, WsError};

/// A relay frame with the given fields.
fn msg(kind: MessageType, client: &str, target: &str, message: &str) -> WsMessage {
    WsMessage::new(kind, client.to_string(), target.to_string(), message.to_string())
}

#[test]
fn hub_registers_binds_and_routes() {
    let mut hub = RelayHub::new();
    let (bind, ev) = hub.register("app".to_string()).unwrap();
    assert_eq!(bind.msg_type, "bind");
    assert_eq!(bind.message, "targetId");
    assert_eq!(ev, ServerEvent::ClientConnected("app".to_string()));
    let (m, e) = hub.register("app".to_string()).unwrap_err();
    assert_eq!(m.message, "400");
    assert!(matches!(e, WsError::Other(_)));
    let (m, e) = hub.register(String::new()).unwrap_err();
    assert_eq!(m.msg_type, "error");
    assert_eq!(m.message, "210");
    assert!(matches!(e, WsError::InvalidMessage(_)));
    assert!(hub.register_announced("  ctl \n").is_ok());

    let act = hub.handle_message(&"ctl".to_string(), &msg(MessageType::Bind, "ctl", "app", "DGLAB"));
    assert_eq!(act.reply.unwrap().message, "200");
    assert_eq!(hub.target_of(&"ctl".to_string()), Some("app".to_string()));

    let act = hub.handle_message(&"ctl".to_string(), &msg(MessageType::Msg, "ctl", "app", "strength-1+1+5"));
    assert_eq!(act.forward_to, Some("app".to_string()));
    assert!(act.reply.is_none());
    let act = hub.handle_message(&"ctl".to_string(), &msg(MessageType::Msg, "ctl", "nobody", "x"));
    assert!(act.forward_to.is_none() && act.event.is_none());
    let act = hub.handle_message(&"ctl".to_string(), &msg(MessageType::Heartbeat, "ctl", "", ""));
    assert_eq!(act.reply.unwrap().message, "DGLAB");

    assert_eq!(hub.unregister(&"app".to_string()), ServerEvent::ClientDisconnected("app".to_string()));
    let act = hub.handle_message(&"ctl".to_string(), &msg(MessageType::Msg, "ctl", "app", "x"));
    assert!(act.forward_to.is_none());
}

#[test]
fn registry_keeps_ids_unique() {
    let mut reg: DeviceRegistry<u32> = DeviceRegistry::new();
    assert_eq!(reg.add("a".to_string(), 1), Ok(SessionEvent::DeviceAdded("a".to_string())));
    assert_eq!(reg.add("b".to_string(), 2), Ok(SessionEvent::DeviceAdded("b".to_string())));
    assert_eq!(reg.add("a".to_string(), 3), Err(CoreError::DeviceAlreadyExists("a".to_string())));
    assert_eq!(reg.get("a"), Some(&1));
    assert_eq!(reg.list(), vec!["a".to_string(), "b".to_string()]);
    let (h, ev) = reg.remove("a");
    assert_eq!(h, Some(1));
    assert_eq!(ev, SessionEvent::DeviceRemoved("a".to_string()));
    assert_eq!(reg.get("a"), None);
    assert_eq!(reg.remove("zz").0, None);
    assert_eq!(reg.len(), 1);
}

#[test]
fn registry_forwards_state_changes_only() {
    let ev = forward_event("dev", &DeviceEvent::StateChanged(DeviceState::Running));
    assert_eq!(ev, Some(SessionEvent::DeviceStateChanged("dev".to_string(), DeviceState::Running)));
    assert_eq!(forward_event("dev", &DeviceEvent::BatteryUpdated(3)), None);
    let states = vec![DeviceState::Connected, DeviceState::Error, DeviceState::Running, DeviceState::Disconnected];
    assert_eq!(count_active(&states), 2);
}

#[test]
fn test_session_event_debug() {
    let event = SessionEvent::DeviceAdded("dev-1".to_string());
    let s = format!("{:?}", event);
    assert!(s.contains("DeviceAdded"));
}

#[test]
fn bind_wait_outcomes_are_distinct() {
    let mut s = ClientState::opened();
    assert_eq!(s.bind_wait_step(None, 100, 1000), None);
    assert_eq!(s.bind_wait_step(None, 1001, 1000), Some(BindOutcome::TimedOut));
    assert_eq!(s.bind_wait_step(Some(&WsEvent::BindTimeout), 0, 1000), Some(BindOutcome::BindTimeout));
    assert_eq!(s.bind_wait_step(Some(&WsEvent::Closed), 0, 1000), Some(BindOutcome::Closed));
    assert_eq!(
        s.bind_wait_step(Some(&WsEvent::Error(ErrorCode::TargetNotFound)), 0, 1000),
        Some(BindOutcome::RelayError(ErrorCode::TargetNotFound))
    );
    assert_eq!(s.bind_wait_step(Some(&WsEvent::Heartbeat), 0, 1000), None);
    s.apply_event(&WsEvent::Bound("peer".to_string()));
    assert_eq!(s.bind_wait_step(None, 5000, 1000), Some(BindOutcome::Bound("peer".to_string())));
}

#[test]
fn session_frames_need_ids() {
    let mut s = ClientState::opened();
    assert_eq!(s.outgoing("x".to_string()).unwrap_err(), WsError::NotConnected);
    assert!(s.qr_url("wss://relay").is_none());
    s.apply_event(&WsEvent::ClientId("me".to_string()));
    assert_eq!(s.outgoing("x".to_string()).unwrap_err(), WsError::NotBound);
    assert_eq!(s.qr_url("wss://relay").unwrap(), "https://www.dungeon-lab.com/app-download.php#DGLAB-SOCKET#wss://relay/me");
    let hb = s.heartbeat_message();
    assert_eq!(hb.client_id, "me");
    assert_eq!(hb.target_id, "");
    s.apply_event(&WsEvent::Bound("peer".to_string()));
    let m = s.clear_message(Channel::B).unwrap();
    assert_eq!(m.message, "clear-2");
    let long = PulseData::new(Channel::A, vec!["0123456789abcdef".to_string(); 120]);
    assert!(matches!(s.pulse_message(&long), Err(WsError::Protocol(_))));
    let short = PulseData::from_strength(Channel::A, 10, 20, 0);
    assert_eq!(s.pulse_message(&short).unwrap().message, "pulse-A:[\"01010a0101140101\"]");
    s.apply_event(&WsEvent::Closed);
    assert!(!s.connected);
}

#[test]
fn events_from_frames() {
    assert!(matches!(WsEvent::from_message(&msg(MessageType::Heartbeat, "", "", "")), WsEvent::Heartbeat));
    let upper = msg(MessageType::Unknown("BREAK".to_string()), "", "", "");
    assert!(upper.is_break());
    assert!(matches!(WsEvent::from_message(&upper), WsEvent::PeerDisconnected));
    match WsEvent::from_message(&msg(MessageType::Msg, "a", "b", "strength-1+2+3+4")) {
        WsEvent::Strength(d) => assert_eq!(d, StrengthData { strength_a: 1, strength_b: 2, max_a: 3, max_b: 4 }),
        other => panic!("unexpected {:?}", other),
    }
    assert!(matches!(
        WsEvent::from_message(&msg(MessageType::Msg, "a", "b", "feedback-7")),
        WsEvent::Feedback(FeedbackButton::B2)
    ));
    assert!(matches!(
        WsEvent::from_message(&msg(MessageType::Error, "", "", "401")),
        WsEvent::Error(ErrorCode::TargetNotFound)
    ));
    assert!(matches!(
        WsEvent::from_message(&msg(MessageType::Error, "", "", "oops")),
        WsEvent::Error(ErrorCode::Unknown(0))
    ));
    assert!(matches!(WsEvent::from_message(&msg(MessageType::Bind, "", "", "hello")), WsEvent::Other(_)));
}

#[test]
fn codes_and_heads_read_back() {
    assert_eq!(RetCode::from_str("404"), Some(RetCode::RecipientNotFound));
    assert_eq!(RetCode::from_str("0404"), None);
    assert_eq!(RetCode::from_str("+40"), None);
    assert_eq!(RetCode::ServerDelay.as_str(), "211");
    assert_eq!(MessageDataHead::from_str("DGLAB"), Some(MessageDataHead::DgLab));
    assert_eq!(MessageDataHead::from_str("dglab"), None);
    assert_eq!(MessageDataHead::Pulse.as_str(), "pulse");
    assert_eq!(MessageType::from("HeartBeat"), MessageType::Heartbeat);
    assert_eq!(MessageType::from("Other"), MessageType::Unknown("Other".to_string()));
    assert_eq!(MessageType::Break.into_text(), "break");
    assert_eq!(ErrorCode::parse("405"), ErrorCode::MessageTooLong);
    assert_eq!(ErrorCode::parse("70000"), ErrorCode::Unknown(0));
    assert_eq!(ErrorCode::parse("77"), ErrorCode::Unknown(77));
    assert_eq!(ErrorCode::Unknown(3).description(), "unknown error");
}

#[test]
fn status_text_round_trips() {
    let d = StrengthData { strength_a: 0, strength_b: 255, max_a: 100, max_b: 7 };
    let text = d.to_message();
    assert_eq!(text, "strength-0+255+100+7");
    assert_eq!(StrengthData::parse(&text), Some(d));
    assert_eq!(StrengthData::parse("strength-strength-1+2+3+4").unwrap().max_b, 4);
    assert!(StrengthData::parse("strength-1+2+3+256").is_none());
    assert_eq!(FeedbackButton::parse("feedback-10"), None);
    assert_eq!(FeedbackButton::parse("feedback-+9"), Some(FeedbackButton::B4));
}

#[test]
fn pulse_text_round_trips() {
    let p = PulseData::new(Channel::B, vec!["aa".to_string(), "bb".to_string()]);
    let text = p.to_message();
    assert_eq!(text, "pulse-B:[\"aa\",\"bb\"]");
    let back = PulseData::parse(&text).unwrap();
    assert_eq!(back.channel, Channel::B);
    assert_eq!(back.pulses, p.pulses);
    let empty = PulseData::parse("pulse-A:[]").unwrap();
    assert!(empty.pulses.is_empty());
    assert!(PulseData::parse("pulse-A:[\"a\"b\"]").is_none());
    assert!(PulseData::parse("pulse-A:[a]").is_none());
    assert_eq!(PulseData::from_strength(Channel::A, 1, 1, 50_000).pulses.len(), 100);
}

#[test]
fn decoder_reports_bad_checksum_and_keeps_rest() {
    let mut dec = PacketDecoder::new();
    let good = dglab::packet::PacketEncoder::encode_start().unwrap();
    let mut bytes = vec![0xAA, 0x20, 0x00, 0x00, 0x55];
    bytes.extend_from_slice(&good);
    dec.feed(&bytes);
    assert!(dec.decode_all().is_err());
    let rest = dec.decode_all().unwrap();
    assert_eq!(rest.len(), 1);
    assert_eq!(rest[0].command, CommandType::Start);
}

#[test]
fn packet_length_byte_wraps() {
    let p = Packet::new(CommandType::SetWaveA, vec![1; 300]);
    assert_eq!(p.data_len, 44);
    assert!(p.verify_checksum());
}

#[test]
fn device_info_name_is_trimmed() {
    let mut data = vec![0u8; 16];
    data[1..4].copy_from_slice(b"abc");
    let info = PacketDecoder::device_info_from("\0abc\0\0\0\0", &data);
    assert_eq!(info.name, "abc");
    let packet = Packet::new(CommandType::Response, data);
    assert_eq!(PacketDecoder::decode_device_info(&packet).unwrap().name, "abc");
}

#[test]
fn scanner_replaces_by_id() {
    let mut s = BleScanner::new();
    let make = |id: &str, name: &str| dglab::scanner::ScanResult {
        id: id.to_string(),
        name: name.to_string(),
        address: String::new(),
        rssi: None,
    };
    s.add_result(make("1", "Alpha"));
    s.add_result(make("2", "Beta"));
    s.add_result(make("1", "Gamma"));
    assert_eq!(s.results().len(), 2);
    assert_eq!(s.results()[0].name, "Gamma");
    assert_eq!(s.find_by_name("AMM").unwrap().id, "1");
    assert!(BleScanner::lowered_name_matches("coyote v3", "yote"));
    assert!(!BleScanner::lowered_name_matches("coyote", "Yote"));
}

#[test]
fn operation_text_round_trips() {
    for channel in [Channel::A, Channel::B] {
        for mode in [StrengthMode::Decrease, StrengthMode::Increase, StrengthMode::SetTo] {
            for value in [0u8, 9, 10, 199, 255] {
                let op = StrengthOperation::new(channel, mode, value);
                assert_eq!(StrengthOperation::parse(&op.to_message()), Some(op));
            }
        }
        let clear = ClearOperation::new(channel);
        assert_eq!(ClearOperation::parse(&clear.to_message()), Some(clear));
    }
    assert_eq!(ErrorCode::NotBound.description(), "sender and receiver are not bound");
}
