//! A device that drives a local pulse host and a relay session at once,
//! applying the peer's control payloads locally and reporting local
//! strengths back to the peer.
use vstd::prelude::*;

use crate::coyote::CoyoteDevice;
use crate::device::{BaseDevice, CoreError, DeviceInfo, DeviceState};
use crate::output::{with_power, OutputState};
use crate::relay::{
    applied_strength, clear_of, pulse_of, strength_data_text, strength_op_of, texts, Channel,
    ClearOperation, FeedbackButton, PulseData, StrengthData, StrengthOperation, WsEvent,
    WsMessage,
};
use crate::session::{id_text, ClientState};
use crate::v3::{hex_frame_bytes, hex_frame_text, WaveformData};

verus! {

/// A control payload from the peer, classified by its shape.
#[derive(Debug, Clone)]
pub enum ControlMessage {
    /// `strength-{1|2}+{0|1|2}+{value}`.
    Strength(StrengthOperation),
    /// `pulse-{A|B}:[…]`.
    Pulse(PulseData),
    /// `clear-{1|2|A|B}`.
    Clear(Channel),
    /// `feedback-{index}`.
    Feedback(FeedbackButton),
    /// Anything else, malformed payloads included.
    Unclassified,
}

/// Whether `r` is the classification of `m`.
pub open spec fn classified(m: Seq<char>, r: ControlMessage) -> bool {
    if strength_op_of(m) is Some {
        r == ControlMessage::Strength(strength_op_of(m)->0)
    } else if pulse_of(m) is Some {
        pulse_of(m) matches Some((c, items)) && r matches ControlMessage::Pulse(p) && p.channel
            == c && texts(p.pulses@) == items
    } else if clear_of(m) is Some {
        r == ControlMessage::Clear(clear_of(m)->0)
    } else if FeedbackButton::of_message(m) is Some {
        r == ControlMessage::Feedback(FeedbackButton::of_message(m)->0)
    } else {
        r is Unclassified
    }
}

impl ControlMessage {
    /// Classifies a control payload; what fits no shape is `Unclassified`.
    pub fn classify(message: &str) -> (r: ControlMessage)
        ensures
            classified(message@, r),
    {
        if let Some(op) = StrengthOperation::parse(message) {
            return ControlMessage::Strength(op);
        }
        if let Some(p) = PulseData::parse(message) {
            return ControlMessage::Pulse(p);
        }
        if let Some(c) = ClearOperation::parse(message) {
            return ControlMessage::Clear(c.channel);
        }
        if let Some(b) = FeedbackButton::parse(message) {
            return ControlMessage::Feedback(b);
        }
        ControlMessage::Unclassified
    }
}

/// The first frame of `items` that is sixteen hexadecimal digits, by index.
pub open spec fn first_frame(items: Seq<Seq<char>>) -> Option<int> {
    if exists|i: int| 0 <= i < items.len() && hex_frame_text(#[trigger] items[i]) {
        Some(
            choose|i: int|
                0 <= i < items.len() && hex_frame_text(#[trigger] items[i]) && forall|j: int|
                    0 <= j < i ==> !hex_frame_text(#[trigger] items[j]),
        )
    } else {
        None
    }
}

/// A pulse host on the wireless link, shared through a relay session.
pub struct BridgeDevice {
    base: BaseDevice,
    local: CoyoteDevice,
    session: ClientState,
    relay_task: bool,
    sync_task: bool,
}

impl BridgeDevice {
    /// Lifecycle state of the bridge.
    pub closed spec fn state_view(&self) -> DeviceState {
        self.base.state_view()
    }

    /// The local device's output state.
    pub closed spec fn output_view(&self) -> OutputState {
        self.local.output_view()
    }

    /// Lifecycle state of the local device.
    pub closed spec fn local_state_view(&self) -> DeviceState {
        self.local.state_view()
    }

    /// The relay session.
    pub closed spec fn session_view(&self) -> ClientState {
        self.session
    }

    /// Whether both forwarding tasks run.
    pub closed spec fn forwarding_view(&self) -> bool {
        self.relay_task && self.sync_task
    }

    /// The internal invariant of the local device.
    pub closed spec fn wf(&self) -> bool {
        self.local.wf()
    }

    /// A disconnected bridge over a disconnected local device.
    pub fn new(id: String, name: String, ble_device_id: String, ble_device_name: String) -> (r:
        BridgeDevice)
        ensures
            r.wf(),
            r.state_view() == DeviceState::Disconnected,
            r.local_state_view() == DeviceState::Disconnected,
            r.session_view().client_id is None,
            r.session_view().target_id is None,
            !r.forwarding_view(),
    {
        BridgeDevice {
            base: BaseDevice::new(id, name),
            local: CoyoteDevice::new(ble_device_id, ble_device_name),
            session: ClientState::default(),
            relay_task: false,
            sync_task: false,
        }
    }

    /// Lifecycle state of the bridge.
    pub fn state(&self) -> (r: DeviceState)
        ensures
            r == self.state_view(),
    {
        self.base.state()
    }

    /// A snapshot: the local targets, with the protocol's ceiling of 200.
    pub fn info(&self) -> (r: DeviceInfo)
        ensures
            r.power_a == self.output_view().target_strength_a,
            r.power_b == self.output_view().target_strength_b,
            r.max_power_a == 200,
            r.max_power_b == 200,
            r.device_type@ == "Coyote-BLE-WS-Bridge"@,
    {
        DeviceInfo {
            id: self.base.id().to_string(),
            name: self.base.name().to_string(),
            device_type: "Coyote-BLE-WS-Bridge".to_string(),
            firmware_version: String::new(),
            hardware_version: String::new(),
            battery_level: 100,
            power_a: self.local.get_power(0),
            power_b: self.local.get_power(1),
            max_power_a: 200,
            max_power_b: 200,
        }
    }

    /// Starts connecting, relay first; `false` when already connected.
    pub fn begin_connect(&mut self) -> (r: bool)
        requires
            old(self).wf(),
        ensures
            final(self).wf(),
            r == (old(self).state_view() != DeviceState::Connected),
            r ==> final(self).state_view() == DeviceState::Connecting && final(self).session_view().connected && final(self).session_view().client_id is None
                && final(self).session_view().target_id is None,
            !r ==> final(self).state_view() == old(self).state_view(),
            final(self).output_view() == old(self).output_view(),
            final(self).local_state_view() == old(self).local_state_view(),
    {
        if self.base.state() == DeviceState::Connected {
            return false;
        }
        self.base.set_state(DeviceState::Connecting);
        self.session = ClientState::opened();
        true
    }

    /// The binding URL on `server_url`, once the relay assigned an id.
    pub fn qr_url(&self, server_url: &str) -> (r: Option<String>)
        ensures
            self.session_view().client_id is None ==> r is None,
            self.session_view().client_id matches Some(c) ==> (r matches Some(u) && u@
                == crate::relay::binding_url(server_url@, c@)),
    {
        self.session.qr_url(server_url)
    }

    /// Whether a peer is bound.
    pub fn is_bound(&self) -> (r: bool)
        ensures
            r == self.session_view().target_id is Some,
    {
        self.session.is_bound()
    }

    /// The local device's connection begins, once the peer can already scan the URL.
    pub fn begin_local_connect(&mut self) -> (r: bool)
        requires
            old(self).wf(),
        ensures
            final(self).wf(),
            r == (old(self).local_state_view() != DeviceState::Connected),
            r ==> final(self).local_state_view() == DeviceState::Connecting,
            final(self).state_view() == old(self).state_view(),
            final(self).session_view() == old(self).session_view(),
            final(self).output_view() == old(self).output_view(),
    {
        self.local.begin_connect()
    }

    /// Both sides are up: the local device is connected and both
    /// forwarding tasks run.
    pub fn finish_connect(&mut self)
        requires
            old(self).wf(),
            old(self).local_state_view() == DeviceState::Connecting,
        ensures
            final(self).wf(),
            final(self).state_view() == DeviceState::Connected,
            final(self).local_state_view() == DeviceState::Connected,
            final(self).forwarding_view(),
            final(self).session_view() == old(self).session_view(),
            final(self).output_view() == old(self).output_view(),
    {
        self.local.finish_connect();
        self.relay_task = true;
        self.sync_task = true;
        self.base.set_state(DeviceState::Connected);
    }

    /// Takes in an event from the relay: the session learns ids, and an
    /// unclassified frame's payload is applied as a control message.
    pub fn relay_event(&mut self, event: &WsEvent) -> (r: Option<ControlMessage>)
        requires
            old(self).wf(),
        ensures
            final(self).wf(),
            final(self).state_view() == old(self).state_view(),
            final(self).local_state_view() == old(self).local_state_view(),
            event matches WsEvent::Other(m) ==> (r matches Some(c) && classified(m.message@, c)
                && applied(old(self).output_view(), c, final(self).output_view())),
            !(event is Other) ==> r is None && final(self).output_view() == old(self).output_view(),
            event matches WsEvent::Bound(t) ==> (final(self).session_view().target_id matches Some(
                p,
            ) && p@ == t@),
            event matches WsEvent::ClientId(id) ==> (final(self).session_view().client_id matches Some(
                c,
            ) && c@ == id@),
    {
        self.session.apply_event(event);
        match event {
            WsEvent::Other(m) => Some(self.apply_control(m.message.as_str())),
            _ => None,
        }
    }

    /// Classifies a control payload and applies it to the local device:
    /// a strength operation from the channel's current target, a clear as
    /// strength 0, a waveform push as the first frame that decodes.
    pub fn apply_control(&mut self, message: &str) -> (r: ControlMessage)
        requires
            old(self).wf(),
        ensures
            final(self).wf(),
            final(self).state_view() == old(self).state_view(),
            final(self).local_state_view() == old(self).local_state_view(),
            final(self).session_view() == old(self).session_view(),
            classified(message@, r),
            applied(old(self).output_view(), r, final(self).output_view()),
    {
        let c = ControlMessage::classify(message);
        proof {
            self.local.lemma_wf();
        }
        match &c {
            ControlMessage::Strength(op) => {
                let ch = op.channel.to_index();
                let current = self.local.get_power(ch);
                let _ = self.local.set_power(ch, op.apply(current));
            },
            ControlMessage::Clear(channel) => {
                let _ = self.local.set_power(channel.to_index(), 0);
            },
            ControlMessage::Pulse(p) => {
                let ghost items = texts(p.pulses@);
                let mut found: Option<WaveformData> = None;
                let mut i: usize = 0;
                while i < p.pulses.len() && found.is_none()
                    invariant
                        items == texts(p.pulses@),
                        i <= p.pulses@.len(),
                        found is None ==> forall|j: int| 0 <= j < i ==> !hex_frame_text(#[trigger] items[j]),
                        found is Some ==> i >= 1 && hex_frame_text(items[i - 1]) && found->0.bytes()
                            == hex_frame_bytes(items[i - 1]) && forall|j: int|
                            0 <= j < i - 1 ==> !hex_frame_text(#[trigger] items[j]),
                    decreases p.pulses.len() - i,
                {
                    assert(items[i as int] == p.pulses@[i as int]@);
                    found = WaveformData::from_hex_string(p.pulses[i].as_str());
                    i = i + 1;
                }
                if let Some(w) = found {
                    let _ = self.local.set_waveform_data(p.channel.to_index(), w);
                    proof {
                        let k = first_frame(items)->0;
                        assert(first_frame(items) is Some);
                        assert(k == i - 1) by {
                            if k < i - 1 {
                                assert(!hex_frame_text(items[k]));
                            } else if k > i - 1 {
                                assert(!hex_frame_text(items[i - 1]));
                            }
                        }
                    }
                } else {
                    proof {
                        assert(i == p.pulses@.len());
                        assert(first_frame(items) is None);
                    }
                }
            },
            _ => {},
        }
        c
    }

    /// The status payload sent to the peer when the local device reports
    /// strengths; none until the relay assigned an id and a peer bound.
    pub fn status_message(&self, power_a: u8, power_b: u8) -> (r: Option<WsMessage>)
        ensures
            (self.session_view().client_id is None || self.session_view().target_id is None)
                ==> r is None,
            (self.session_view().client_id is Some && self.session_view().target_id is Some) ==> (
            r matches Some(m) && m.msg_type@ == "msg"@ && m.client_id@ == id_text(
                self.session_view().client_id,
            ) && m.target_id@ == id_text(self.session_view().target_id) && m.message@
                == strength_data_text(
                StrengthData { strength_a: power_a, strength_b: power_b, max_a: 200, max_b: 200 },
            )),
    {
        let info = self.local.info();
        let data = StrengthData {
            strength_a: power_a,
            strength_b: power_b,
            max_a: info.max_power_a,
            max_b: info.max_power_b,
        };
        match self.session.outgoing(data.to_message()) {
            Ok(m) => Some(m),
            Err(_) => None,
        }
    }

    /// Starts output; refused unless the bridge is `Connected`.
    pub fn start(&mut self) -> (r: Result<(), CoreError>)
        requires
            old(self).wf(),
        ensures
            final(self).wf(),
            old(self).state_view() != DeviceState::Connected ==> r == Err::<(), CoreError>(
                CoreError::DeviceNotConnected,
            ) && final(self).state_view() == old(self).state_view(),
            old(self).state_view() == DeviceState::Connected && old(self).local_state_view()
                == DeviceState::Connected ==> r is Ok && final(self).state_view()
                == DeviceState::Running && final(self).local_state_view() == DeviceState::Running,
            old(self).state_view() == DeviceState::Connected && old(self).local_state_view()
                != DeviceState::Connected ==> r == Err::<(), CoreError>(
                CoreError::DeviceNotConnected,
            ) && final(self).state_view() == old(self).state_view(),
            final(self).output_view() == old(self).output_view(),
    {
        if self.base.state() != DeviceState::Connected {
            return Err(CoreError::DeviceNotConnected);
        }
        self.local.start()?;
        self.base.set_state(DeviceState::Running);
        Ok(())
    }

    /// Stops output: the local device's targets go to 0 and both channels
    /// silent; a disconnected bridge is left as it is.
    pub fn stop(&mut self) -> (r: Result<(), CoreError>)
        requires
            old(self).wf(),
        ensures
            final(self).wf(),
            r is Ok,
            old(self).state_view() == DeviceState::Disconnected ==> final(self).state_view()
                == DeviceState::Disconnected && final(self).output_view() == old(self).output_view(),
            old(self).state_view() != DeviceState::Disconnected ==> final(self).state_view()
                == DeviceState::Connected,
            old(self).state_view() != DeviceState::Disconnected && old(self).local_state_view()
                == DeviceState::Running ==> final(self).output_view().target_strength_a == 0
                && final(self).output_view().target_strength_b == 0
                && final(self).output_view().waveform_a == WaveformData::silent_spec()
                && final(self).output_view().waveform_b == WaveformData::silent_spec()
                && final(self).local_state_view() == DeviceState::Connected,
            old(self).state_view() != DeviceState::Disconnected ==> final(self).local_state_view()
                != DeviceState::Running,
    {
        if self.base.state() == DeviceState::Disconnected {
            return Ok(());
        }
        let _ = self.local.stop();
        self.base.set_state(DeviceState::Connected);
        Ok(())
    }

    /// Stops both forwarding tasks, then the local device (whatever it
    /// reports), then closes the relay session.
    pub fn disconnect(&mut self)
        requires
            old(self).wf(),
        ensures
            final(self).wf(),
            final(self).state_view() == DeviceState::Disconnected,
            final(self).local_state_view() == DeviceState::Disconnected,
            !final(self).forwarding_view(),
            final(self).session_view().client_id is None,
            final(self).session_view().target_id is None,
            !final(self).session_view().connected,
    {
        self.relay_task = false;
        self.sync_task = false;
        self.local.disconnect();
        self.session = ClientState::default();
        self.base.set_state(DeviceState::Disconnected);
    }

    /// Requests `power` on channel 0 (A) or 1 (B) of the local device.
    pub fn set_power(&mut self, channel: u8, power: u8) -> (r: Result<(), CoreError>)
        requires
            old(self).wf(),
        ensures
            final(self).wf(),
            final(self).state_view() == old(self).state_view(),
            r is Ok <==> power <= 200 && channel <= 1,
            power > 200 ==> r == Err::<(), CoreError>(CoreError::PowerOutOfRange(power, 200)),
            power <= 200 && channel > 1 ==> r matches Err(CoreError::InvalidParameter(_)),
            r is Ok ==> final(self).output_view() == with_power(
                old(self).output_view(),
                channel,
                power,
            ),
            r is Err ==> final(self).output_view() == old(self).output_view(),
    {
        let r = self.local.set_power(channel, power);
        if r.is_ok() {
            let _ = self.base.set_power(channel, power);
        }
        r
    }

    /// The local target of channel 0 (A) or 1 (B); 0 for any other channel.
    pub fn get_power(&self, channel: u8) -> (r: u8)
        ensures
            r == if channel == 0 {
                self.output_view().target_strength_a
            } else if channel == 1 {
                self.output_view().target_strength_b
            } else {
                0
            },
    {
        self.local.get_power(channel)
    }

    /// The local keep-alive frame, if any, and the relay heartbeat.
    pub fn heartbeat(&self) -> (r: (Option<[u8; 20]>, WsMessage))
        ensures
            r.1.msg_type@ == "heartbeat"@,
            r.1.client_id@ == id_text(self.session_view().client_id),
            r.1.target_id@ == id_text(self.session_view().target_id),
    {
        (self.local.heartbeat(), self.session.heartbeat_message())
    }

    /// One tick of the local output loop.
    pub fn tick(&mut self) -> (r: Option<[u8; 20]>)
        requires
            old(self).wf(),
        ensures
            final(self).wf(),
            final(self).state_view() == old(self).state_view(),
            old(self).local_state_view() == DeviceState::Running ==> (r matches Some(b) && b@
                == crate::output::tick(old(self).output_view()).1.bytes() && final(self).output_view() == crate::output::tick(old(self).output_view()).0),
            old(self).local_state_view() != DeviceState::Running ==> r is None,
    {
        self.local.tick()
    }

    /// Events of the local device not yet handed to observers.
    pub closed spec fn local_events_view(&self) -> Seq<crate::device::DeviceEvent> {
        self.local.events_view()
    }

    /// Hands the local device's queued events to the caller, oldest first.
    pub fn take_local_events(&mut self) -> (r: Vec<crate::device::DeviceEvent>)
        requires
            old(self).wf(),
        ensures
            final(self).wf(),
            r@ == old(self).local_events_view(),
            final(self).local_events_view() == Seq::<crate::device::DeviceEvent>::empty(),
            final(self).state_view() == old(self).state_view(),
            final(self).output_view() == old(self).output_view(),
    {
        self.local.take_events()
    }

    /// A frame from the local host; strength feedback is handed back and
    /// queued as a status event of the local device.
    pub fn on_notification(&mut self, data: &[u8]) -> (r: Option<crate::v3::B1Response>)
        requires
            old(self).wf(),
        ensures
            final(self).wf(),
            final(self).state_view() == old(self).state_view(),
            final(self).output_view() == old(self).output_view(),
            crate::v3::B1Response::well_framed(data@) ==> r == Some(
                crate::v3::B1Response::from_bytes(data@),
            ) && (final(self).local_events_view().last() matches crate::device::DeviceEvent::StatusReport { power_a, power_b }
                && power_a == data@[2] && power_b == data@[3]),
            !crate::v3::B1Response::well_framed(data@) ==> r is None && final(self).local_events_view() == old(self).local_events_view(),
    {
        self.local.on_notification(data)
    }
}

/// Whether `after` is the local output state once the classified control
/// message `c` was applied to `before`.
pub open spec fn applied(before: OutputState, c: ControlMessage, after: OutputState) -> bool {
    match c {
        ControlMessage::Strength(op) => after == with_power(
            before,
            op.channel.index(),
            applied_strength(
                op,
                if op.channel.index() == 0 {
                    before.target_strength_a
                } else {
                    before.target_strength_b
                },
            ),
        ),
        ControlMessage::Clear(ch) => after == with_power(before, ch.index(), 0),
        ControlMessage::Pulse(p) => match first_frame(texts(p.pulses@)) {
            Some(k) => if p.channel.index() == 0 {
                after == (OutputState { waveform_a: after.waveform_a, ..before })
                    && after.waveform_a.bytes() == hex_frame_bytes(texts(p.pulses@)[k])
            } else {
                after == (OutputState { waveform_b: after.waveform_b, ..before })
                    && after.waveform_b.bytes() == hex_frame_bytes(texts(p.pulses@)[k])
            },
            None => after == before,
        },
        _ => after == before,
    }
}

} // verus!
