use dglab::relay::{
    generate_official_url, Channel, ClearOperation, ErrorCode, FeedbackButton, MessageType,
    PulseData, StrengthData, StrengthOperation,
};

#[test]
fn test_message_type() {
    assert_eq!(MessageType::from("heartbeat"), MessageType::Heartbeat);
    assert_eq!(MessageType::from("bind"), MessageType::Bind);
    assert_eq!(MessageType::from("msg"), MessageType::Msg);
    assert_eq!(MessageType::from("break"), MessageType::Break);
    assert_eq!(MessageType::from("error"), MessageType::Error);
    assert!(matches!(
        MessageType::from("unknown"),
        MessageType::Unknown(_)
    ));
}

#[test]
fn test_strength_data_parse() {
    let data = StrengthData::parse("strength-11+7+100+35").unwrap();
    assert_eq!(data.strength_a, 11);
    assert_eq!(data.strength_b, 7);
    assert_eq!(data.max_a, 100);
    assert_eq!(data.max_b, 35);

    assert!(StrengthData::parse("invalid").is_none());
    assert!(StrengthData::parse("strength-1+2").is_none());
}

#[test]
fn test_strength_operation() {
    let op = StrengthOperation::increase(Channel::A, 5);
    assert_eq!(op.to_message(), "strength-1+1+5");

    let op = StrengthOperation::decrease(Channel::B, 3);
    assert_eq!(op.to_message(), "strength-2+0+3");

    let op = StrengthOperation::set(Channel::A, 0);
    assert_eq!(op.to_message(), "strength-1+2+0");
}

#[test]
fn test_clear_operation() {
    let op = ClearOperation::new(Channel::A);
    assert_eq!(op.to_message(), "clear-1");

    let op = ClearOperation::new(Channel::B);
    assert_eq!(op.to_message(), "clear-2");
}

#[test]
fn test_feedback_button() {
    assert_eq!(FeedbackButton::from_index(0), Some(FeedbackButton::A0));
    assert_eq!(FeedbackButton::from_index(4), Some(FeedbackButton::A4));
    assert_eq!(FeedbackButton::from_index(5), Some(FeedbackButton::B0));
    assert_eq!(FeedbackButton::from_index(9), Some(FeedbackButton::B4));
    assert!(FeedbackButton::from_index(10).is_none());

    assert_eq!(
        FeedbackButton::parse("feedback-0"),
        Some(FeedbackButton::A0)
    );
    assert_eq!(
        FeedbackButton::parse("feedback-5"),
        Some(FeedbackButton::B0)
    );
}

#[test]
fn test_error_code() {
    assert_eq!(ErrorCode::from(200), ErrorCode::Success);
    assert_eq!(ErrorCode::from(209), ErrorCode::PeerDisconnected);
    assert_eq!(ErrorCode::from(400), ErrorCode::IdAlreadyBound);
    assert_eq!(ErrorCode::from(500), ErrorCode::ServerError);
    assert!(matches!(ErrorCode::from(999), ErrorCode::Unknown(_)));
}

#[test]
fn test_qr_url() {
    let url = generate_official_url("test-client-id");
    assert!(url.contains("test-client-id"));
    assert!(url.starts_with("https://www.dungeon-lab.com/"));
}

#[test]
fn test_pulse_data() {
    let pulse = PulseData::from_strength(Channel::A, 50, 30, 1000);
    assert_eq!(pulse.pulses.len(), 10);
    let msg = pulse.to_message();
    assert!(msg.starts_with("pulse-A:["));
}


#[test]
fn test_client_state_default() {
    let state = dglab::session::ClientState::default();
    assert!(state.client_id.is_none());
    assert!(state.target_id.is_none());
    assert!(!state.connected);
}

