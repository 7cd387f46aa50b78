//! A pulse host reached through the relay: this side is the controller,
//! the peer application drives the hardware.
//!
//! The socket lives outside this module; the device decides which frames
//! to send and what received events mean.
use vstd::prelude::*;

use crate::device::{
    BaseDevice, CoreError, DeviceEvent, DeviceInfo, DeviceState, WaveformConfig, BASE_MAX_POWER,
};
use crate::relay::{
    error_description, lemma_pulse_text_fits, OFFICIAL_SERVER, lemma_simple_pulse_len, simple_pulse_text,
    strength_op_text, texts, Channel, PulseData, StrengthMode, StrengthOperation, WsEvent,
    WsMessage,
};
use crate::session::{id_text, BindOutcome, ClientState};

verus! {

/// A pulse host controlled through a relay session.
pub struct RemoteDevice {
    base: BaseDevice,
    server_url: String,
    session: ClientState,
    linked: bool,
}

/// The frame that sets `channel` to `power`, from a session in state `s`.
pub open spec fn set_frame(s: ClientState, channel: Channel, power: u8, m: WsMessage) -> bool {
    m.msg_type@ == "msg"@ && m.message@ == strength_op_text(
        StrengthOperation { channel, mode: StrengthMode::SetTo, value: power },
    ) && s.client_id is Some && s.target_id is Some
}

/// Whether a device in state `st` with session `s` sends frames to a bound peer.
pub open spec fn sends_to_peer(st: DeviceState, s: ClientState) -> bool {
    (st == DeviceState::Connected || st == DeviceState::Running) && s.client_id is Some
        && s.target_id is Some
}

/// Whether `frames` are the two frames that set channel A, then channel B, to 0.
pub open spec fn zero_frames(s: ClientState, frames: Seq<WsMessage>) -> bool {
    frames.len() == 2 && set_frame(s, Channel::A, 0, frames[0]) && set_frame(
        s,
        Channel::B,
        0,
        frames[1],
    )
}

impl RemoteDevice {
    /// Lifecycle state.
    pub closed spec fn state_view(&self) -> DeviceState {
        self.base.state_view()
    }

    /// Requested strength of channel A.
    pub closed spec fn power_a_view(&self) -> u8 {
        self.base.power_a_view()
    }

    /// Requested strength of channel B.
    pub closed spec fn power_b_view(&self) -> u8 {
        self.base.power_b_view()
    }

    /// The relay session.
    pub closed spec fn session_view(&self) -> ClientState {
        self.session
    }

    /// Events not yet handed to observers.
    pub closed spec fn events_view(&self) -> Seq<DeviceEvent> {
        self.base.events_view()
    }

    /// Whether the ceilings are the device-level ones and a connected
    /// device holds its socket.
    pub closed spec fn wf(&self) -> bool {
        &&& self.base.max_a_view() == BASE_MAX_POWER
        &&& self.base.max_b_view() == BASE_MAX_POWER
        &&& (self.base.state_view() == DeviceState::Connected || self.base.state_view()
            == DeviceState::Running) ==> self.linked
    }

    /// The relay address.
    pub closed spec fn server_view(&self) -> Seq<char> {
        self.server_url@
    }

    /// Id.
    pub closed spec fn id_view(&self) -> Seq<char> {
        self.base.id_view()
    }

    /// Display name.
    pub closed spec fn name_view(&self) -> Seq<char> {
        self.base.name_view()
    }

    /// A disconnected device on the public relay.
    pub fn new(id: String, name: String) -> (r: RemoteDevice)
        ensures
            r.wf(),
            r.id_view() == id@,
            r.name_view() == name@,
            r.server_view() == OFFICIAL_SERVER@,
            r.state_view() == DeviceState::Disconnected,
            r.power_a_view() == 0,
            r.power_b_view() == 0,
    {
        RemoteDevice::with_server(id, name, OFFICIAL_SERVER.to_string())
    }

    /// A disconnected device on the relay at `server_url`.
    pub fn with_server(id: String, name: String, server_url: String) -> (r: RemoteDevice)
        ensures
            r.wf(),
            r.id_view() == id@,
            r.name_view() == name@,
            r.server_view() == server_url@,
            r.state_view() == DeviceState::Disconnected,
            r.power_a_view() == 0,
            r.power_b_view() == 0,
    {
        RemoteDevice {
            base: BaseDevice::new(id, name),
            server_url,
            session: ClientState::default(),
            linked: false,
        }
    }

    /// Id.
    pub fn id(&self) -> (r: &str)
        ensures
            r@ == self.id_view(),
    {
        self.base.id()
    }

    /// Display name.
    pub fn name(&self) -> (r: &str)
        ensures
            r@ == self.name_view(),
    {
        self.base.name()
    }

    /// The relay address.
    pub fn server_url(&self) -> (r: &str)
        ensures
            r@ == self.server_view(),
    {
        self.server_url.as_str()
    }

    /// Lifecycle state.
    pub fn state(&self) -> (r: DeviceState)
        ensures
            r == self.state_view(),
    {
        self.base.state()
    }

    /// A snapshot with the device-level ceiling of 100.
    pub fn info(&self) -> (r: DeviceInfo)
        ensures
            r.power_a == self.power_a_view(),
            r.power_b == self.power_b_view(),
            r.max_power_a == 100,
            r.max_power_b == 100,
    {
        DeviceInfo {
            id: self.base.id().to_string(),
            name: self.base.name().to_string(),
            device_type: "Coyote-WiFi".to_string(),
            firmware_version: String::new(),
            hardware_version: String::new(),
            battery_level: 100,
            power_a: self.base.power_a(),
            power_b: self.base.power_b(),
            max_power_a: BASE_MAX_POWER,
            max_power_b: BASE_MAX_POWER,
        }
    }

    /// Starts connecting; `false` when already connected.
    pub fn begin_connect(&mut self) -> (r: bool)
        requires
            old(self).wf(),
        ensures
            final(self).wf(),
            r == (old(self).state_view() != DeviceState::Connected),
            r ==> final(self).state_view() == DeviceState::Connecting,
            !r ==> final(self).state_view() == old(self).state_view(),
    {
        if self.base.state() == DeviceState::Connected {
            return false;
        }
        self.base.set_state(DeviceState::Connecting);
        true
    }

    /// The socket to the relay is open.
    pub fn finish_connect(&mut self)
        requires
            old(self).wf(),
        ensures
            final(self).wf(),
            final(self).state_view() == DeviceState::Connected,
            final(self).session_view().connected,
            final(self).session_view().client_id is None,
    {
        self.linked = true;
        self.session = ClientState::opened();
        self.base.set_state(DeviceState::Connected);
    }

    /// The socket is closed and the session forgotten.
    pub fn disconnect(&mut self)
        requires
            old(self).wf(),
        ensures
            final(self).wf(),
            final(self).state_view() == DeviceState::Disconnected,
            !final(self).session_view().connected,
    {
        self.linked = false;
        self.session = ClientState::default();
        self.base.set_state(DeviceState::Disconnected);
    }

    /// Marks output as started; refused unless `Connected`.
    pub fn start(&mut self) -> (r: Result<(), CoreError>)
        requires
            old(self).wf(),
        ensures
            final(self).wf(),
            old(self).state_view() != DeviceState::Connected ==> r == Err::<(), CoreError>(
                CoreError::DeviceNotConnected,
            ) && final(self).state_view() == old(self).state_view(),
            old(self).state_view() == DeviceState::Connected ==> r is Ok && final(self).state_view()
                == DeviceState::Running,
    {
        if self.base.state() != DeviceState::Connected {
            return Err(CoreError::DeviceNotConnected);
        }
        self.base.set_state(DeviceState::Running);
        Ok(())
    }

    /// Requests `power` on channel 0 (A) or 1 (B), up to the device-level
    /// ceiling of 100; while connected, hands back the frame to send.
    pub fn set_power(&mut self, channel: u8, power: u8) -> (r: Result<Option<WsMessage>, CoreError>)
        requires
            old(self).wf(),
        ensures
            final(self).wf(),
            final(self).state_view() == old(self).state_view(),
            final(self).session_view() == old(self).session_view(),
            channel > 1 ==> r matches Err(CoreError::InvalidParameter(_)),
            channel <= 1 && power > 100 ==> r == Err::<Option<WsMessage>, CoreError>(
                CoreError::PowerOutOfRange(power, 100),
            ),
            (channel > 1 || power > 100) ==> final(self).power_a_view() == old(self).power_a_view()
                && final(self).power_b_view() == old(self).power_b_view(),
            channel <= 1 && power <= 100 ==> final(self).power_a_view() == (if channel == 0 {
                power
            } else {
                old(self).power_a_view()
            }) && final(self).power_b_view() == (if channel == 1 {
                power
            } else {
                old(self).power_b_view()
            }),
            channel <= 1 && power <= 100 && !(old(self).state_view() == DeviceState::Connected
                || old(self).state_view() == DeviceState::Running) ==> r == Ok::<
                Option<WsMessage>,
                CoreError,
            >(None),
            channel <= 1 && power <= 100 && (old(self).state_view() == DeviceState::Connected
                || old(self).state_view() == DeviceState::Running) ==> (r is Ok <==> (old(self).session_view().client_id is Some && old(self).session_view().target_id is Some)),
            channel <= 1 && power <= 100 && sends_to_peer(
                old(self).state_view(),
                old(self).session_view(),
            ) ==> r matches Ok(Some(_)),
            r matches Ok(Some(m)) ==> set_frame(
                old(self).session_view(),
                if channel == 0 {
                    Channel::A
                } else {
                    Channel::B
                },
                power,
                m,
            ),
    {
        self.base.set_power(channel, power)?;
        let ch = if channel == 0 {
            Channel::A
        } else {
            Channel::B
        };
        let op = StrengthOperation::set(ch, power);
        let st = self.base.state();
        if st == DeviceState::Connected || st == DeviceState::Running {
            match self.session.strength_message(&op) {
                Ok(m) => Ok(Some(m)),
                Err(_) => Err(CoreError::Other("WebSocket send error".to_string())),
            }
        } else {
            Ok(None)
        }
    }

    /// The requested strength of channel 0 (A) or 1 (B); 0 for any other channel.
    pub fn get_power(&self, channel: u8) -> (r: u8)
        ensures
            r == if channel == 0 {
                self.power_a_view()
            } else if channel == 1 {
                self.power_b_view()
            } else {
                0
            },
    {
        if channel == 0 {
            self.base.power_a()
        } else if channel == 1 {
            self.base.power_b()
        } else {
            0
        }
    }

    /// The waveform push for `config` on channel 0 (A) or 1 (B): one
    /// second of frames carrying the configured intensity on that channel
    /// and the other channel's requested strength.
    pub fn set_waveform(&self, channel: u8, config: &WaveformConfig) -> (r: Result<WsMessage, CoreError>)
        ensures
            channel > 1 ==> r matches Err(CoreError::InvalidParameter(_)),
            channel <= 1 ==> (r is Ok <==> (self.session_view().client_id is Some
                && self.session_view().target_id is Some)),
            r matches Ok(m) ==> exists|p: PulseData|
                p.pulses@.len() == 10 && (forall|i: int|
                    0 <= i < 10 ==> (#[trigger] p.pulses@[i])@ == simple_pulse_text(
                        if channel == 0 {
                            config.intensity
                        } else {
                            self.power_a_view()
                        },
                        if channel == 1 {
                            config.intensity
                        } else {
                            self.power_b_view()
                        },
                    )) && m.message@ == crate::relay::pulse_text(p.channel, texts(p.pulses@)),
    {
        let ch = if channel == 0 {
            Channel::A
        } else if channel == 1 {
            Channel::B
        } else {
            return Err(CoreError::InvalidParameter("Invalid channel".to_string()));
        };
        let a = if channel == 0 {
            config.intensity
        } else {
            self.base.power_a()
        };
        let b = if channel == 1 {
            config.intensity
        } else {
            self.base.power_b()
        };
        let pulse = PulseData::from_strength(ch, a, b, 1000);
        proof {
            let items = texts(pulse.pulses@);
            lemma_simple_pulse_len(a, b);
            assert forall|i: int| 0 <= i < items.len() implies (#[trigger] items[i]).len() <= 16 by {
                assert(items[i] == pulse.pulses@[i]@);
            }
            lemma_pulse_text_fits(pulse.channel, items);
        }
        match self.session.pulse_message(&pulse) {
            Ok(m) => Ok(m),
            Err(_) => Err(CoreError::Other("WebSocket send pulse error".to_string())),
        }
    }

    /// The binding URL on this device's relay, once the relay assigned an id.
    pub fn qr_url(&self) -> (r: Option<String>)
        ensures
            self.session_view().client_id is None ==> r is None,
            self.session_view().client_id matches Some(c) ==> (r matches Some(u) && u@
                == crate::relay::binding_url(self.server_view(), c@)),
    {
        self.session.qr_url(self.server_url.as_str())
    }

    /// One round of waiting for the peer to bind; see `ClientState::bind_wait_step`.
    pub fn bind_wait_step(&self, event: Option<&WsEvent>, elapsed_ms: u64, timeout_ms: u64) -> (r:
        Option<BindOutcome>)
        ensures
            self.session_view().target_id matches Some(t) ==> (r matches Some(BindOutcome::Bound(p))
                && p@ == t@),
            self.session_view().target_id is None && elapsed_ms > timeout_ms ==> r == Some(
                BindOutcome::TimedOut,
            ),
            self.session_view().target_id is None && elapsed_ms <= timeout_ms ==> match event {
                Some(WsEvent::Bound(t)) => r matches Some(BindOutcome::Bound(p)) && p@ == t@,
                Some(WsEvent::Error(c)) => r == Some(BindOutcome::RelayError(*c)),
                Some(WsEvent::BindTimeout) => r == Some(BindOutcome::BindTimeout),
                Some(WsEvent::Closed) => r == Some(BindOutcome::Closed),
                _ => r is None,
            },
    {
        self.session.bind_wait_step(event, elapsed_ms, timeout_ms)
    }

    /// The relay heartbeat frame.
    pub fn heartbeat(&self) -> (r: WsMessage)
        ensures
            r.msg_type@ == "heartbeat"@,
            r.client_id@ == id_text(self.session_view().client_id),
            r.target_id@ == id_text(self.session_view().target_id),
            r.message@ == "200"@,
    {
        self.session.heartbeat_message()
    }

    /// Takes in an event from the relay: the session learns ids; a bind
    /// publishes fresh information, strength status from the peer becomes
    /// a status event, and a departed peer or a relay error becomes an error event.
    pub fn relay_event(&mut self, event: &WsEvent)
        requires
            old(self).wf(),
        ensures
            final(self).wf(),
            final(self).state_view() == old(self).state_view(),
            final(self).power_a_view() == old(self).power_a_view(),
            final(self).power_b_view() == old(self).power_b_view(),
            event matches WsEvent::Strength(d) ==> (final(self).events_view().last() matches DeviceEvent::StatusReport { power_a, power_b }
                && power_a == d.strength_a && power_b == d.strength_b),
            event is Bound ==> (final(self).events_view().last() matches DeviceEvent::InfoUpdated(
                info,
            ) && info.power_a == old(self).power_a_view() && info.power_b == old(
                self).power_b_view() && info.max_power_a == 100 && info.max_power_b == 100),
            event is PeerDisconnected ==> (final(self).events_view().last() matches DeviceEvent::Error(
                t,
            ) && t@ == "Peer disconnected"@),
            event matches WsEvent::Error(c) ==> (final(self).events_view().last() matches DeviceEvent::Error(
                t,
            ) && t@ == error_description(*c)),
            (event is Strength || event is Bound || event is PeerDisconnected || event is Error)
                ==> final(self).events_view().len() == old(self).events_view().len() + 1
                && final(self).events_view().drop_last() == old(self).events_view(),
            !(event is Strength || event is Bound || event is PeerDisconnected || event is Error)
                ==> final(self).events_view() == old(self).events_view(),
    {
        self.session.apply_event(event);
        match event {
            WsEvent::Bound(_) => {
                let info = self.info();
                self.base.send_event(DeviceEvent::InfoUpdated(info));
            },
            WsEvent::Strength(d) => {
                self.base.send_event(
                    DeviceEvent::StatusReport { power_a: d.strength_a, power_b: d.strength_b },
                );
            },
            WsEvent::PeerDisconnected => {
                self.base.send_event(DeviceEvent::Error("Peer disconnected".to_string()));
            },
            WsEvent::Error(code) => {
                self.base.send_event(DeviceEvent::Error(code.description().to_string()));
            },
            _ => {},
        }
    }

    /// Stops output: both channels are set to 0 and the device goes back
    /// to `Connected`; the frames to send are handed back. A device that
    /// is not running is left as it is.
    pub fn stop(&mut self) -> (r: Vec<WsMessage>)
        requires
            old(self).wf(),
        ensures
            final(self).wf(),
            old(self).state_view() != DeviceState::Running ==> final(self).state_view() == old(self).state_view() && r@.len() == 0 && final(self).power_a_view() == old(self).power_a_view() && final(self).power_b_view() == old(self).power_b_view(),
            old(self).state_view() == DeviceState::Running ==> final(self).state_view()
                == DeviceState::Connected && final(self).power_a_view() == 0 && final(self).power_b_view() == 0,
            old(self).state_view() == DeviceState::Running && sends_to_peer(
                old(self).state_view(),
                old(self).session_view(),
            ) ==> zero_frames(old(self).session_view(), r@),
            !sends_to_peer(old(self).state_view(), old(self).session_view()) ==> r@.len() == 0,
    {
        let mut frames: Vec<WsMessage> = Vec::new();
        if self.base.state() != DeviceState::Running {
            return frames;
        }
        self.zero_both(&mut frames);
        self.base.set_state(DeviceState::Connected);
        frames
    }

    /// Forces both channels to 0, going on past a failure on either, then
    /// stops; the frames to send are handed back, and a failure to send
    /// any of them changes nothing here.
    pub fn emergency_stop(&mut self) -> (r: Vec<WsMessage>)
        requires
            old(self).wf(),
        ensures
            final(self).wf(),
            final(self).power_a_view() == 0,
            final(self).power_b_view() == 0,
            old(self).state_view() == DeviceState::Running ==> final(self).state_view()
                == DeviceState::Connected,
            old(self).state_view() != DeviceState::Running ==> final(self).state_view() == old(self).state_view(),
            sends_to_peer(old(self).state_view(), old(self).session_view()) ==> zero_frames(
                old(self).session_view(),
                r@,
            ),
            !sends_to_peer(old(self).state_view(), old(self).session_view()) ==> r@.len() == 0,
    {
        let mut frames: Vec<WsMessage> = Vec::new();
        self.zero_both(&mut frames);
        if self.base.state() == DeviceState::Running {
            self.base.set_state(DeviceState::Connected);
        }
        frames
    }

    /// Sets both channels to 0, collecting the frames to send.
    fn zero_both(&mut self, frames: &mut Vec<WsMessage>)
        requires
            old(self).wf(),
        ensures
            final(self).wf(),
            final(self).power_a_view() == 0,
            final(self).power_b_view() == 0,
            final(self).state_view() == old(self).state_view(),
            final(self).session_view() == old(self).session_view(),
            sends_to_peer(old(self).state_view(), old(self).session_view()) ==> final(frames)@
                == old(frames)@ + final(frames)@.subrange(old(frames)@.len() as int, final(frames)@.len() as int)
                && zero_frames(
                old(self).session_view(),
                final(frames)@.subrange(old(frames)@.len() as int, final(frames)@.len() as int),
            ),
            !sends_to_peer(old(self).state_view(), old(self).session_view()) ==> final(frames)@
                == old(frames)@,
    {
        match self.set_power(0, 0) {
            Ok(Some(m)) => frames.push(m),
            _ => {},
        }
        match self.set_power(1, 0) {
            Ok(Some(m)) => frames.push(m),
            _ => {},
        }
    }

    /// Hands the queued events to the caller, oldest first, and forgets them.
    pub fn take_events(&mut self) -> (r: Vec<crate::device::DeviceEvent>)
        requires
            old(self).wf(),
        ensures
            final(self).wf(),
            r@ == old(self).events_view(),
            final(self).events_view() == Seq::<DeviceEvent>::empty(),
            final(self).state_view() == old(self).state_view(),
    {
        self.base.take_events()
    }
}

} // verus!
