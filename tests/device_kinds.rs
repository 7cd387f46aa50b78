use dglab::coyote::CoyoteDevice;
use dglab::device::{
    waveform_config_to_v3, BaseDevice, DeviceEvent, DeviceInfo, DeviceState, WaveformConfig,
    WaveformType,
};
use dglab::output::OutputState;
use dglab::relay::OFFICIAL_SERVER;
use dglab::remote::RemoteDevice;
use dglab::v3::{compress_frequency, WaveformData, MAX_STRENGTH};

#[test]
fn test_v3_output_state_new() {
    let state = OutputState::new();
    assert_eq!(state.target_strength_a, 0);
    assert_eq!(state.target_strength_b, 0);
    assert!(!state.pending_strength_a);
    assert!(!state.pending_strength_b);
}

#[test]
fn test_v3_output_state_next_sequence() {
    let mut state = OutputState::new();
    let s1 = state.next_sequence();
    let s2 = state.next_sequence();
    let s3 = state.next_sequence();
    assert!((1..=15).contains(&s1));
    assert!((1..=15).contains(&s2));
    assert!((1..=15).contains(&s3));
    assert_ne!(s1, s2);
}

#[test]
fn test_coyote_new() {
    let dev = CoyoteDevice::new("dev-1".to_string(), "Test Coyote".to_string());
    assert_eq!(dev.id(), "dev-1");
    assert_eq!(dev.name(), "Test Coyote");
    assert_eq!(dev.state(), DeviceState::Disconnected);
    assert_eq!(dev.get_power(0), 0);
    assert_eq!(dev.get_power(1), 0);
}

#[test]
fn test_coyote_info() {
    let dev = CoyoteDevice::new("dev-1".to_string(), "Test".to_string());
    let info = dev.info();
    assert_eq!(info.id, "dev-1");
    assert_eq!(info.device_type, "Coyote V3");
    assert_eq!(info.max_power_a, MAX_STRENGTH);
    assert_eq!(info.max_power_b, MAX_STRENGTH);
}

#[test]
fn test_coyote_get_power_invalid_channel() {
    let dev = CoyoteDevice::new("dev-1".to_string(), "Test".to_string());
    assert_eq!(dev.get_power(2), 0);
}

#[test]
fn test_waveform_config_to_v3_continuous() {
    let config = WaveformConfig {
        waveform_type: WaveformType::Continuous,
        frequency: 50,
        pulse_width: 200,
        intensity: 80,
        custom_data: None,
    };
    let v3 = waveform_config_to_v3(&config);
    let freq = compress_frequency(50);
    assert_eq!(v3, WaveformData::uniform(freq, 80));
}

#[test]
fn test_waveform_config_to_v3_pulse() {
    let config = WaveformConfig {
        waveform_type: WaveformType::Pulse,
        frequency: 100,
        pulse_width: 200,
        intensity: 60,
        custom_data: None,
    };
    let v3 = waveform_config_to_v3(&config);
    assert_eq!(v3.intensity[0], 60);
    assert_eq!(v3.intensity[1], 60);
    assert_eq!(v3.intensity[2], 0);
    assert_eq!(v3.intensity[3], 0);
}

#[test]
fn test_waveform_config_to_v3_custom_with_data() {
    let config = WaveformConfig {
        waveform_type: WaveformType::Custom,
        frequency: 100,
        pulse_width: 200,
        intensity: 50,
        custom_data: Some(vec![20, 30, 40, 50, 10, 20, 30, 40]),
    };
    let v3 = waveform_config_to_v3(&config);
    assert_eq!(v3.frequency, [20, 30, 40, 50]);
    assert_eq!(v3.intensity, [10, 20, 30, 40]);
}

#[test]
fn test_waveform_config_to_v3_custom_no_data() {
    let config = WaveformConfig {
        waveform_type: WaveformType::Custom,
        frequency: 100,
        pulse_width: 200,
        intensity: 50,
        custom_data: None,
    };
    let v3 = waveform_config_to_v3(&config);
    let freq = compress_frequency(100);
    assert_eq!(v3, WaveformData::uniform(freq, 50));
}

#[test]
fn test_ws_coyote_new() {
    let dev = RemoteDevice::new("ws-1".to_string(), "WiFi Device".to_string());
    assert_eq!(dev.id(), "ws-1");
    assert_eq!(dev.name(), "WiFi Device");
    assert_eq!(dev.state(), DeviceState::Disconnected);
    assert_eq!(dev.server_url(), OFFICIAL_SERVER);
}

#[test]
fn test_ws_coyote_info() {
    let dev = RemoteDevice::new("ws-1".to_string(), "WiFi".to_string());
    let info = dev.info();
    assert_eq!(info.device_type, "Coyote-WiFi");
    assert_eq!(info.power_a, 0);
    assert_eq!(info.power_b, 0);
}

#[test]
fn test_base_device_new() {
    let dev = BaseDevice::new("dev-1".to_string(), "Test Device".to_string());
    assert_eq!(dev.id(), "dev-1");
    assert_eq!(dev.name(), "Test Device");
    assert_eq!(dev.state(), DeviceState::Disconnected);
    assert_eq!(dev.power_a(), 0);
    assert_eq!(dev.power_b(), 0);
}

#[test]
fn test_base_device_set_state() {
    let mut dev = BaseDevice::new("dev-1".to_string(), "Test".to_string());
    dev.set_state(DeviceState::Connected);
    assert_eq!(dev.state(), DeviceState::Connected);
}

#[test]
fn test_base_device_set_state_emits_event() {
    let mut dev = BaseDevice::new("dev-1".to_string(), "Test".to_string());
    dev.set_state(DeviceState::Connected);
    let event = dev.take_events().into_iter().next().unwrap();
    if let DeviceEvent::StateChanged(state) = event {
        assert_eq!(state, DeviceState::Connected);
    } else {
        panic!("Expected StateChanged");
    }
}

#[test]
fn test_base_device_set_state_same_no_event() {
    let mut dev = BaseDevice::new("dev-1".to_string(), "Test".to_string());
    dev.set_state(DeviceState::Disconnected);
    assert!(dev.take_events().is_empty());
}

#[test]
fn test_base_device_set_power_a() {
    let mut dev = BaseDevice::new("dev-1".to_string(), "Test".to_string());
    dev.set_power(0, 50).unwrap();
    assert_eq!(dev.power_a(), 50);
    assert_eq!(dev.power_b(), 0);
}

#[test]
fn test_base_device_set_power_b() {
    let mut dev = BaseDevice::new("dev-1".to_string(), "Test".to_string());
    dev.set_power(1, 75).unwrap();
    assert_eq!(dev.power_a(), 0);
    assert_eq!(dev.power_b(), 75);
}

#[test]
fn test_base_device_set_power_invalid_channel() {
    let mut dev = BaseDevice::new("dev-1".to_string(), "Test".to_string());
    let result = dev.set_power(2, 50);
    assert!(result.is_err());
    assert!(result.unwrap_err().message().contains("Invalid channel"));
}

#[test]
fn test_base_device_set_power_exceeds_max() {
    let mut dev = BaseDevice::new("dev-1".to_string(), "Test".to_string());
    let result = dev.set_power(0, 101);
    assert!(result.is_err());
    let err = result.unwrap_err();
    assert!(err.message().contains("out of range"));
}

#[test]
fn test_base_device_set_power_at_max() {
    let mut dev = BaseDevice::new("dev-1".to_string(), "Test".to_string());
    dev.set_power(0, 100).unwrap();
    assert_eq!(dev.power_a(), 100);
}

#[test]
fn test_base_device_set_power_emits_event() {
    let mut dev = BaseDevice::new("dev-1".to_string(), "Test".to_string());
    dev.set_power(0, 30).unwrap();
    let event = dev.take_events().into_iter().next().unwrap();
    if let DeviceEvent::PowerChanged(a, b) = event {
        assert_eq!(a, 30);
        assert_eq!(b, 0);
    } else {
        panic!("Expected PowerChanged");
    }
}

#[test]
fn test_base_device_send_event() {
    let mut dev = BaseDevice::new("dev-1".to_string(), "Test".to_string());
    dev.send_event(DeviceEvent::BatteryUpdated(42));
    let event = dev.take_events().into_iter().next().unwrap();
    if let DeviceEvent::BatteryUpdated(level) = event {
        assert_eq!(level, 42);
    } else {
        panic!("Expected BatteryUpdated");
    }
}

#[test]
fn test_device_info_clone() {
    let info = DeviceInfo {
        id: "dev-1".to_string(),
        name: "Test".to_string(),
        device_type: "ble".to_string(),
        firmware_version: "1.0".to_string(),
        hardware_version: "1.0".to_string(),
        battery_level: 50,
        power_a: 0,
        power_b: 0,
        max_power_a: 100,
        max_power_b: 100,
    };
    let cloned = info.clone();
    assert_eq!(cloned.id, info.id);
    assert_eq!(cloned.name, info.name);
}

#[test]
fn error_messages_carry_details() {
    let e = dglab::device::CoreError::PowerOutOfRange(101, 100);
    assert_eq!(e.message(), "Power out of range: 101, max: 100");
    assert_eq!(dglab::device::CoreError::DeviceNotConnected.message(), "Device not connected");
}
