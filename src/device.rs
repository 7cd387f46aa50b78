//! Device-level types shared by every kind of device: lifecycle states,
//! events, errors, configuration, and the bookkeeping common to all kinds.
use vstd::prelude::*;

use crate::text::{append_chars, append_dec, append_str, chars_of, dec_text, string_of};
use crate::v3::{compress_frequency, compress_spec, WaveformData};

verus! {

/// Lifecycle state of a device.
#[derive(Debug, Clone, Copy, PartialEq, Eq, Structural)]
pub enum DeviceState {
    /// Not connected.
    Disconnected,
    /// Connecting.
    Connecting,
    /// Connected, output loop stopped.
    Connected,
    /// Connected, output loop running.
    Running,
    /// Failed.
    Error,
}

/// Something that happened to a device, for its observers.
#[derive(Debug, Clone)]
pub enum DeviceEvent {
    /// The lifecycle state changed.
    StateChanged(DeviceState),
    /// The requested strengths changed (channel A, channel B).
    PowerChanged(u8, u8),
    /// The device information changed.
    InfoUpdated(DeviceInfo),
    /// The battery level changed.
    BatteryUpdated(u8),
    /// The strengths the hardware reports as in effect.
    StatusReport {
        /// Channel A.
        power_a: u8,
        /// Channel B.
        power_b: u8,
    },
    /// A failure, described.
    Error(String),
}

/// Errors of device operations.
#[derive(Debug, Clone, PartialEq, Eq)]
pub enum CoreError {
    /// Failure below the device layer.
    Protocol(String),
    /// The operation needs a connected device.
    DeviceNotConnected,
    /// A device with this id is already registered.
    DeviceAlreadyExists(String),
    /// No device with this id is registered.
    DeviceNotFound(String),
    /// An argument is out of its domain (an unknown channel).
    InvalidParameter(String),
    /// A strength above the ceiling (strength, ceiling).
    PowerOutOfRange(u8, u8),
    /// No preset with this name.
    PresetNotFound(String),
    /// A preset with this name already exists.
    PresetAlreadyExists(String),
    /// A script failed.
    ScriptError(String),
    /// Anything else.
    Other(String),
}

/// The message of an error: a fixed lead, then its details.
pub open spec fn error_text(e: CoreError) -> Seq<char> {
    match e {
        CoreError::Protocol(s) => "Protocol error: "@ + s@,
        CoreError::DeviceNotConnected => "Device not connected"@,
        CoreError::DeviceAlreadyExists(s) => "Device already exists: "@ + s@,
        CoreError::DeviceNotFound(s) => "Device not found: "@ + s@,
        CoreError::InvalidParameter(s) => "Invalid parameter: "@ + s@,
        CoreError::PowerOutOfRange(p, m) => "Power out of range: "@ + dec_text(p as nat)
            + ", max: "@ + dec_text(m as nat),
        CoreError::PresetNotFound(s) => "Preset not found: "@ + s@,
        CoreError::PresetAlreadyExists(s) => "Preset already exists: "@ + s@,
        CoreError::ScriptError(s) => "Script error: "@ + s@,
        CoreError::Other(s) => "Other error: "@ + s@,
    }
}

impl CoreError {
    /// The message of the error, for people.
    pub fn message(&self) -> (r: String)
        ensures
            r@ == error_text(*self),
    {
        let mut out: Vec<char> = Vec::new();
        let detail: Option<&String> = match self {
            CoreError::Protocol(s) => {
                append_str(&mut out, "Protocol error: ");
                Some(s)
            },
            CoreError::DeviceNotConnected => {
                append_str(&mut out, "Device not connected");
                None
            },
            CoreError::DeviceAlreadyExists(s) => {
                append_str(&mut out, "Device already exists: ");
                Some(s)
            },
            CoreError::DeviceNotFound(s) => {
                append_str(&mut out, "Device not found: ");
                Some(s)
            },
            CoreError::InvalidParameter(s) => {
                append_str(&mut out, "Invalid parameter: ");
                Some(s)
            },
            CoreError::PowerOutOfRange(p, m) => {
                append_str(&mut out, "Power out of range: ");
                append_dec(&mut out, *p as u32);
                append_str(&mut out, ", max: ");
                append_dec(&mut out, *m as u32);
                None
            },
            CoreError::PresetNotFound(s) => {
                append_str(&mut out, "Preset not found: ");
                Some(s)
            },
            CoreError::PresetAlreadyExists(s) => {
                append_str(&mut out, "Preset already exists: ");
                Some(s)
            },
            CoreError::ScriptError(s) => {
                append_str(&mut out, "Script error: ");
                Some(s)
            },
            CoreError::Other(s) => {
                append_str(&mut out, "Other error: ");
                Some(s)
            },
        };
        if let Some(s) = detail {
            let cs = chars_of(s.as_str());
            append_chars(&mut out, &cs);
        }
        let r = string_of(&out);
        assert(r@ =~= error_text(*self));
        r
    }
}

/// A snapshot of a device for polling observers.
#[derive(Debug, Clone, PartialEq, Eq)]
pub struct DeviceInfo {
    /// Id.
    pub id: String,
    /// Display name.
    pub name: String,
    /// Kind of device.
    pub device_type: String,
    /// Firmware version.
    pub firmware_version: String,
    /// Hardware version.
    pub hardware_version: String,
    /// Battery level, 0 to 100.
    pub battery_level: u8,
    /// Channel A strength.
    pub power_a: u8,
    /// Channel B strength.
    pub power_b: u8,
    /// Channel A ceiling.
    pub max_power_a: u8,
    /// Channel B ceiling.
    pub max_power_b: u8,
}

/// How a device is reached.
#[derive(Debug, Clone, PartialEq, Eq)]
pub struct DeviceConfig {
    /// Id.
    pub id: String,
    /// Display name.
    pub name: String,
    /// Transport kind (`ble` or `wifi`).
    pub connection_type: String,
    /// Transport address.
    pub address: Option<String>,
    /// Whether to reconnect automatically.
    pub auto_reconnect: bool,
    /// Strength ceiling chosen by the user.
    pub safety_limit: Option<u8>,
}

/// Shape of a generated waveform.
#[derive(Debug, Clone, Copy, PartialEq, Eq, Structural)]
pub enum WaveformType {
    /// Constant.
    Continuous,
    /// On for half of the period.
    Pulse,
    /// Rising ramp.
    Sawtooth,
    /// Rise and fall.
    Sine,
    /// On, then off.
    Square,
    /// Rise, hold, fall.
    Triangle,
    /// Samples given by the user.
    Custom,
}

/// A waveform request for one channel.
#[derive(Debug, Clone, PartialEq, Eq)]
pub struct WaveformConfig {
    /// Shape.
    pub waveform_type: WaveformType,
    /// Frequency in the user range `10..=1000`.
    pub frequency: u16,
    /// Pulse width in microseconds.
    pub pulse_width: u16,
    /// Intensity, 0 to 100.
    pub intensity: u8,
    /// Raw samples for `Custom`: four frequencies, then four intensities.
    pub custom_data: Option<Vec<u8>>,
}

impl Default for WaveformConfig {
    fn default() -> (r: WaveformConfig)
        ensures
            r.waveform_type == WaveformType::Continuous,
            r.frequency == 100,
            r.pulse_width == 200,
            r.intensity == 50,
            r.custom_data is None,
    {
        WaveformConfig {
            waveform_type: WaveformType::Continuous,
            frequency: 100,
            pulse_width: 200,
            intensity: 50,
            custom_data: None,
        }
    }
}

/// The four intensities a shape gives for the (capped) intensity `i`.
pub open spec fn shape_intensities(t: WaveformType, i: u8) -> Seq<u8> {
    match t {
        WaveformType::Pulse => seq![i, i, 0, 0],
        WaveformType::Sawtooth => seq![
            (i / 4) as u8,
            ((i / 4) * 2) as u8,
            ((i / 4) * 3) as u8,
            i,
        ],
        WaveformType::Sine => seq![(i / 2) as u8, i, (i / 2) as u8, 0],
        WaveformType::Square => seq![i, i, 0, 0],
        WaveformType::Triangle => seq![(i / 3) as u8, i, i, (i / 3) as u8],
        _ => seq![i, i, i, i],
    }
}

/// Whether `w` is the wire waveform of `config` whose custom samples are `custom`.
pub open spec fn waveform_of(config_type: WaveformType, frequency: u16, intensity: u8, custom:
    Option<Seq<u8>>, w: WaveformData) -> bool {
    let f = compress_spec(frequency);
    let i = if intensity <= 100 {
        intensity
    } else {
        100
    };
    if config_type == WaveformType::Custom && custom is Some && custom->0.len() >= 8 {
        w.bytes() == custom->0.subrange(0, 8)
    } else {
        w.frequency@ == seq![f, f, f, f] && w.intensity@ == shape_intensities(config_type, i)
    }
}

/// The wire waveform of a request: its frequency compressed, its intensity
/// capped at 100 and spread over the four samples by its shape; `Custom`
/// uses its first eight raw bytes when it has them, else a constant waveform.
pub fn waveform_config_to_v3(config: &WaveformConfig) -> (r: WaveformData)
    ensures
        waveform_of(
            config.waveform_type,
            config.frequency,
            config.intensity,
            match config.custom_data {
                Some(v) => Some(v@),
                None => None,
            },
            r,
        ),
{
    let f = compress_frequency(config.frequency);
    let i = if config.intensity <= 100 {
        config.intensity
    } else {
        100
    };
    let fs = [f, f, f, f];
    let r = match config.waveform_type {
        WaveformType::Continuous => WaveformData::new(fs, [i, i, i, i]),
        WaveformType::Pulse => WaveformData::new(fs, [i, i, 0, 0]),
        WaveformType::Sawtooth => {
            let step = i / 4;
            WaveformData::new(fs, [step, step * 2, step * 3, i])
        },
        WaveformType::Sine => {
            let half = i / 2;
            WaveformData::new(fs, [half, i, half, 0])
        },
        WaveformType::Square => WaveformData::new(fs, [i, i, 0, 0]),
        WaveformType::Triangle => {
            let third = i / 3;
            WaveformData::new(fs, [third, i, i, third])
        },
        WaveformType::Custom => {
            match &config.custom_data {
                Some(data) => {
                    if data.len() >= 8 {
                        let w = WaveformData::new(
                            [data[0], data[1], data[2], data[3]],
                            [data[4], data[5], data[6], data[7]],
                        );
                        assert(w.bytes() =~= data@.subrange(0, 8));
                        w
                    } else {
                        WaveformData::new(fs, [i, i, i, i])
                    }
                },
                None => WaveformData::new(fs, [i, i, i, i]),
            }
        },
    };
    assert(r.frequency@ =~= seq![f, f, f, f] || config.waveform_type == WaveformType::Custom);
    assert(r.intensity@ =~= shape_intensities(config.waveform_type, i)
        || config.waveform_type == WaveformType::Custom);
    assert(r.frequency@ =~= seq![f, f, f, f] && r.intensity@ =~= seq![i, i, i, i]
        || config.waveform_type != WaveformType::Custom || (config.custom_data is Some
        && config.custom_data->0@.len() >= 8));
    r
}

/// Ceiling of every channel in the device-level bookkeeping.
///
/// This is lower than the wire protocol's ceiling of 200: a device that
/// talks the wire protocol checks requests against 200 itself and keeps
/// its own copy of the strengths, so the two ceilings never meet.
pub const BASE_MAX_POWER: u8 = 100;

/// Bookkeeping common to every device: identity, state, requested
/// strengths, and the events not yet handed to observers.
pub struct BaseDevice {
    id: String,
    name: String,
    state: DeviceState,
    power_a: u8,
    power_b: u8,
    max_power_a: u8,
    max_power_b: u8,
    events: Vec<DeviceEvent>,
}

/// Whether `e` is the state-change event for `s`.
pub open spec fn is_state_event(e: DeviceEvent, s: DeviceState) -> bool {
    e matches DeviceEvent::StateChanged(t) && t == s
}

/// Whether `e` is the power-change event for `a` and `b`.
pub open spec fn is_power_event(e: DeviceEvent, a: u8, b: u8) -> bool {
    e matches DeviceEvent::PowerChanged(x, y) && x == a && y == b
}

impl BaseDevice {
    /// Id.
    pub closed spec fn id_view(&self) -> Seq<char> {
        self.id@
    }

    /// Display name.
    pub closed spec fn name_view(&self) -> Seq<char> {
        self.name@
    }

    /// Lifecycle state.
    pub closed spec fn state_view(&self) -> DeviceState {
        self.state
    }

    /// Channel A strength.
    pub closed spec fn power_a_view(&self) -> u8 {
        self.power_a
    }

    /// Channel B strength.
    pub closed spec fn power_b_view(&self) -> u8 {
        self.power_b
    }

    /// Channel A ceiling.
    pub closed spec fn max_a_view(&self) -> u8 {
        self.max_power_a
    }

    /// Channel B ceiling.
    pub closed spec fn max_b_view(&self) -> u8 {
        self.max_power_b
    }

    /// Events not yet handed to observers, oldest first.
    pub closed spec fn events_view(&self) -> Seq<DeviceEvent> {
        self.events@
    }

    /// A disconnected device with both strengths 0 and both ceilings 100.
    pub fn new(id: String, name: String) -> (r: BaseDevice)
        ensures
            r.id_view() == id@,
            r.name_view() == name@,
            r.state_view() == DeviceState::Disconnected,
            r.power_a_view() == 0,
            r.power_b_view() == 0,
            r.max_a_view() == BASE_MAX_POWER,
            r.max_b_view() == BASE_MAX_POWER,
            r.events_view() == Seq::<DeviceEvent>::empty(),
    {
        BaseDevice {
            id,
            name,
            state: DeviceState::Disconnected,
            power_a: 0,
            power_b: 0,
            max_power_a: BASE_MAX_POWER,
            max_power_b: BASE_MAX_POWER,
            events: Vec::new(),
        }
    }

    /// Id.
    pub fn id(&self) -> (r: &str)
        ensures
            r@ == self.id_view(),
    {
        self.id.as_str()
    }

    /// Display name.
    pub fn name(&self) -> (r: &str)
        ensures
            r@ == self.name_view(),
    {
        self.name.as_str()
    }

    /// Lifecycle state.
    pub fn state(&self) -> (r: DeviceState)
        ensures
            r == self.state_view(),
    {
        self.state
    }

    /// Moves to `state`; a move to the current state changes nothing and
    /// emits nothing, any other move emits one state-change event.
    pub fn set_state(&mut self, state: DeviceState)
        ensures
            final(self).state_view() == state,
            final(self).id_view() == old(self).id_view(),
            final(self).power_a_view() == old(self).power_a_view(),
            final(self).power_b_view() == old(self).power_b_view(),
            final(self).max_a_view() == old(self).max_a_view(),
            final(self).max_b_view() == old(self).max_b_view(),
            old(self).state_view() == state ==> final(self).events_view() == old(self).events_view(),
            old(self).state_view() != state ==> final(self).events_view().len() == old(self).events_view().len() + 1 && final(self).events_view().drop_last() == old(self).events_view() && is_state_event(final(self).events_view().last(), state),
    {
        if self.state != state {
            self.state = state;
            self.events.push(DeviceEvent::StateChanged(state));
            assert(self.events@.drop_last() =~= old(self).events@);
        }
    }

    /// Channel A strength.
    pub fn power_a(&self) -> (r: u8)
        ensures
            r == self.power_a_view(),
    {
        self.power_a
    }

    /// Channel B strength.
    pub fn power_b(&self) -> (r: u8)
        ensures
            r == self.power_b_view(),
    {
        self.power_b
    }

    /// Records a requested strength for channel 0 (A) or 1 (B).
    ///
    /// An unknown channel, or a strength above the channel's ceiling, is
    /// refused with nothing changed; otherwise one power-change event is emitted.
    pub fn set_power(&mut self, channel: u8, power: u8) -> (r: Result<(), CoreError>)
        ensures
            final(self).state_view() == old(self).state_view(),
            final(self).id_view() == old(self).id_view(),
            final(self).max_a_view() == old(self).max_a_view(),
            final(self).max_b_view() == old(self).max_b_view(),
            channel > 1 ==> (r matches Err(CoreError::InvalidParameter(_))),
            channel == 0 && power > old(self).max_a_view() ==> r == Err::<(), CoreError>(
                CoreError::PowerOutOfRange(power, old(self).max_a_view()),
            ),
            channel == 1 && power > old(self).max_b_view() ==> r == Err::<(), CoreError>(
                CoreError::PowerOutOfRange(power, old(self).max_b_view()),
            ),
            r is Err ==> final(self).power_a_view() == old(self).power_a_view()
                && final(self).power_b_view() == old(self).power_b_view()
                && final(self).events_view() == old(self).events_view(),
            r is Ok <==> (channel == 0 && power <= old(self).max_a_view()) || (channel == 1
                && power <= old(self).max_b_view()),
            r is Ok ==> final(self).power_a_view() == (if channel == 0 {
                power
            } else {
                old(self).power_a_view()
            }) && final(self).power_b_view() == (if channel == 1 {
                power
            } else {
                old(self).power_b_view()
            }) && final(self).events_view() == old(self).events_view().push(
                DeviceEvent::PowerChanged(final(self).power_a_view(), final(self).power_b_view()),
            ),
    {
        let max_power = if channel == 0 {
            self.max_power_a
        } else if channel == 1 {
            self.max_power_b
        } else {
            return Err(CoreError::InvalidParameter("Invalid channel".to_string()));
        };
        if power > max_power {
            return Err(CoreError::PowerOutOfRange(power, max_power));
        }
        if channel == 0 {
            self.power_a = power;
        } else {
            self.power_b = power;
        }
        self.events.push(DeviceEvent::PowerChanged(self.power_a, self.power_b));
        Ok(())
    }

    /// Queues an event for observers.
    pub fn send_event(&mut self, event: DeviceEvent)
        ensures
            final(self).events_view() == old(self).events_view().push(event),
            final(self).state_view() == old(self).state_view(),
            final(self).id_view() == old(self).id_view(),
            final(self).power_a_view() == old(self).power_a_view(),
            final(self).power_b_view() == old(self).power_b_view(),
            final(self).max_a_view() == old(self).max_a_view(),
            final(self).max_b_view() == old(self).max_b_view(),
    {
        self.events.push(event);
    }

    /// Hands the queued events to the caller, oldest first, and forgets them.
    pub fn take_events(&mut self) -> (r: Vec<DeviceEvent>)
        ensures
            r@ == old(self).events_view(),
            final(self).events_view() == Seq::<DeviceEvent>::empty(),
            final(self).state_view() == old(self).state_view(),
            final(self).id_view() == old(self).id_view(),
            final(self).power_a_view() == old(self).power_a_view(),
            final(self).power_b_view() == old(self).power_b_view(),
            final(self).max_a_view() == old(self).max_a_view(),
            final(self).max_b_view() == old(self).max_b_view(),
    {
        let mut out: Vec<DeviceEvent> = Vec::new();
        std::mem::swap(&mut out, &mut self.events);
        out
    }
}

} // verus!
