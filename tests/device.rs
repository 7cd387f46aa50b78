use dglab::device::{DeviceEvent, DeviceState, WaveformConfig, WaveformType};

#[test]
fn test_device_state_equality() {
    assert_eq!(DeviceState::Disconnected, DeviceState::Disconnected);
    assert_ne!(DeviceState::Disconnected, DeviceState::Connected);
}

#[test]
fn test_device_state_clone() {
    let state = DeviceState::Running;
    let cloned = state;
    assert_eq!(state, cloned);
}

#[test]
fn test_device_state_debug() {
    let s = format!("{:?}", DeviceState::Connecting);
    assert_eq!(s, "Connecting");
}

#[test]
fn test_device_event_state_changed() {
    let event = DeviceEvent::StateChanged(DeviceState::Connected);
    if let DeviceEvent::StateChanged(state) = event {
        assert_eq!(state, DeviceState::Connected);
    } else {
        panic!("Expected StateChanged");
    }
}

#[test]
fn test_device_event_power_changed() {
    let event = DeviceEvent::PowerChanged(50, 60);
    if let DeviceEvent::PowerChanged(a, b) = event {
        assert_eq!(a, 50);
        assert_eq!(b, 60);
    } else {
        panic!("Expected PowerChanged");
    }
}

#[test]
fn test_device_event_battery_updated() {
    let event = DeviceEvent::BatteryUpdated(85);
    if let DeviceEvent::BatteryUpdated(level) = event {
        assert_eq!(level, 85);
    } else {
        panic!("Expected BatteryUpdated");
    }
}

#[test]
fn test_device_event_error() {
    let event = DeviceEvent::Error("test error".to_string());
    if let DeviceEvent::Error(msg) = event {
        assert_eq!(msg, "test error");
    } else {
        panic!("Expected Error");
    }
}


#[test]
fn test_waveform_config_default() {
    let config = WaveformConfig::default();
    assert_eq!(config.waveform_type, WaveformType::Continuous);
    assert_eq!(config.frequency, 100);
    assert_eq!(config.pulse_width, 200);
    assert_eq!(config.intensity, 50);
    assert!(config.custom_data.is_none());
}

#[test]
fn test_waveform_type_equality() {
    assert_eq!(WaveformType::Pulse, WaveformType::Pulse);
    assert_ne!(WaveformType::Pulse, WaveformType::Sine);
}

