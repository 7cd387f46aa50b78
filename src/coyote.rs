//! The decisions of a pulse host driven over the wireless link.
//!
//! The transport, the 100 ms timer and the tasks live outside this module:
//! their owner calls into the device at each step (connected, tick, frame
//! received, send failed) and performs what the device hands back.
use vstd::prelude::*;

use crate::device::{
    waveform_config_to_v3, waveform_of, BaseDevice, CoreError, DeviceEvent, DeviceInfo,
    DeviceState, WaveformConfig,
};
use crate::output::{tick, OutputState};
use crate::v3::{B0Command, B1Response, BFCommand, NotifyMessage, WaveformData, MAX_STRENGTH};

verus! {

/// A pulse host on the wireless link.
pub struct CoyoteDevice {
    base: BaseDevice,
    output: OutputState,
    output_loop: bool,
    receive_task: bool,
    linked: bool,
}

impl CoyoteDevice {
    /// Lifecycle state.
    pub closed spec fn state_view(&self) -> DeviceState {
        self.base.state_view()
    }

    /// The bookkeeping common to all devices.
    pub closed spec fn base_view(&self) -> BaseDevice {
        self.base
    }

    /// The shared output state.
    pub closed spec fn output_view(&self) -> OutputState {
        self.output
    }

    /// Whether the output loop is running.
    pub closed spec fn output_loop_view(&self) -> bool {
        self.output_loop
    }

    /// Whether the feedback consumer is running.
    pub closed spec fn receive_task_view(&self) -> bool {
        self.receive_task
    }

    /// Whether the transport is held.
    pub closed spec fn linked_view(&self) -> bool {
        self.linked
    }

    /// Events not yet handed to observers.
    pub closed spec fn events_view(&self) -> Seq<DeviceEvent> {
        self.base.events_view()
    }

    /// The internal invariant: the output state is in range, the loop runs
    /// only while `Running`, and a connected device and its tasks hold the transport.
    pub closed spec fn wf(&self) -> bool {
        &&& self.output.wf()
        &&& self.output_loop <==> self.base.state_view() == DeviceState::Running
        &&& (self.base.state_view() == DeviceState::Connected || self.base.state_view()
            == DeviceState::Running) ==> self.linked
        &&& self.receive_task ==> self.linked
    }

    /// A well-formed device keeps its targets in range, and runs its
    /// output loop exactly while `Running`.
    pub proof fn lemma_wf(&self)
        requires
            self.wf(),
        ensures
            self.output_view().wf(),
            self.output_loop_view() <==> self.state_view() == DeviceState::Running,
    {
    }

    /// A disconnected device with silent outputs.
    pub fn new(id: String, name: String) -> (r: CoyoteDevice)
        ensures
            r.wf(),
            r.state_view() == DeviceState::Disconnected,
            r.output_view() == OutputState::new_spec(),
            r.base_view().id_view() == id@,
            r.base_view().name_view() == name@,
            !r.output_loop_view(),
            !r.receive_task_view(),
            !r.linked_view(),
    {
        CoyoteDevice {
            base: BaseDevice::new(id, name),
            output: OutputState::new(),
            output_loop: false,
            receive_task: false,
            linked: false,
        }
    }

    /// Id.
    pub fn id(&self) -> (r: &str)
        ensures
            r@ == self.base_view().id_view(),
    {
        self.base.id()
    }

    /// Display name.
    pub fn name(&self) -> (r: &str)
        ensures
            r@ == self.base_view().name_view(),
    {
        self.base.name()
    }

    /// Lifecycle state.
    pub fn state(&self) -> (r: DeviceState)
        ensures
            r == self.state_view(),
    {
        self.base.state()
    }

    /// A snapshot: the current targets, with the protocol's ceiling of 200.
    pub fn info(&self) -> (r: DeviceInfo)
        ensures
            r.power_a == self.output_view().target_strength_a,
            r.power_b == self.output_view().target_strength_b,
            r.max_power_a == 200,
            r.max_power_b == 200,
            r.device_type@ == "Coyote V3"@,
            r.id@ == self.base_view().id_view(),
            r.name@ == self.base_view().name_view(),
            r.firmware_version@.len() == 0,
            r.hardware_version@.len() == 0,
            r.battery_level == 0,
    {
        DeviceInfo {
            id: self.base.id().to_string(),
            name: self.base.name().to_string(),
            device_type: "Coyote V3".to_string(),
            firmware_version: String::new(),
            hardware_version: String::new(),
            battery_level: 0,
            power_a: self.output.target_strength_a,
            power_b: self.output.target_strength_b,
            max_power_a: MAX_STRENGTH,
            max_power_b: MAX_STRENGTH,
        }
    }

    /// Starts connecting; `false` when already connected, with nothing changed.
    pub fn begin_connect(&mut self) -> (r: bool)
        requires
            old(self).wf(),
        ensures
            final(self).wf(),
            r == (old(self).state_view() != DeviceState::Connected),
            r ==> final(self).state_view() == DeviceState::Connecting && !final(self).output_loop_view() && final(self).output_view() == old(self).output_view(),
            !r ==> final(self).state_view() == old(self).state_view() && final(self).output_view() == old(self).output_view(),
    {
        if self.base.state() == DeviceState::Connected {
            return false;
        }
        self.output_loop = false;
        self.base.set_state(DeviceState::Connecting);
        true
    }

    /// The limit configuration pushed once per connection, before any output command.
    pub fn limit_config() -> (r: BFCommand)
        ensures
            r == (BFCommand {
                soft_limit_a: 200,
                soft_limit_b: 200,
                freq_balance_a: 0,
                freq_balance_b: 0,
                intensity_balance_a: 0,
                intensity_balance_b: 0,
            }),
    {
        BFCommand::default_config()
    }

    /// The transport is up and the limit configuration was pushed: the
    /// device is connected and its feedback consumer runs.
    pub fn finish_connect(&mut self)
        requires
            old(self).wf(),
            old(self).state_view() == DeviceState::Connecting,
        ensures
            final(self).wf(),
            final(self).state_view() == DeviceState::Connected,
            final(self).linked_view(),
            final(self).receive_task_view(),
            !final(self).output_loop_view(),
            final(self).output_view() == old(self).output_view(),
    {
        self.linked = true;
        self.base.set_state(DeviceState::Connected);
        self.receive_task = true;
    }

    /// Stops both tasks, then lets go of the transport.
    pub fn disconnect(&mut self)
        requires
            old(self).wf(),
        ensures
            final(self).wf(),
            final(self).state_view() == DeviceState::Disconnected,
            !final(self).output_loop_view(),
            !final(self).receive_task_view(),
            !final(self).linked_view(),
            final(self).output_view() == old(self).output_view(),
    {
        self.output_loop = false;
        self.receive_task = false;
        self.linked = false;
        self.base.set_state(DeviceState::Disconnected);
    }

    /// Starts the output loop; refused unless the device is `Connected`.
    pub fn start(&mut self) -> (r: Result<(), CoreError>)
        requires
            old(self).wf(),
        ensures
            final(self).wf(),
            old(self).state_view() != DeviceState::Connected ==> r == Err::<(), CoreError>(
                CoreError::DeviceNotConnected,
            ) && final(self).state_view() == old(self).state_view() && final(self).output_loop_view() == old(self).output_loop_view(),
            old(self).state_view() == DeviceState::Connected ==> r is Ok && final(self).state_view() == DeviceState::Running && final(self).output_loop_view(),
            final(self).output_view() == old(self).output_view(),
    {
        if self.base.state() != DeviceState::Connected {
            return Err(CoreError::DeviceNotConnected);
        }
        self.output_loop = true;
        self.base.set_state(DeviceState::Running);
        Ok(())
    }

    /// Stops the output loop of a running device and forces both targets
    /// to 0 and both channels silent; any other state is left as it is.
    pub fn stop(&mut self) -> (r: Result<(), CoreError>)
        requires
            old(self).wf(),
        ensures
            final(self).wf(),
            r is Ok,
            old(self).state_view() != DeviceState::Running ==> final(self).state_view() == old(self).state_view() && final(self).output_view() == old(self).output_view(),
            old(self).state_view() == DeviceState::Running ==> final(self).state_view()
                == DeviceState::Connected && !final(self).output_loop_view() && final(self).output_view() == (OutputState {
                target_strength_a: 0,
                target_strength_b: 0,
                waveform_a: WaveformData::silent_spec(),
                waveform_b: WaveformData::silent_spec(),
                ..old(self).output_view()
            }),
    {
        if self.base.state() != DeviceState::Running {
            return Ok(());
        }
        self.output_loop = false;
        self.output.reset();
        self.base.set_state(DeviceState::Connected);
        Ok(())
    }

    /// Requests `power` on channel 0 (A) or 1 (B), up to the protocol's 200.
    pub fn set_power(&mut self, channel: u8, power: u8) -> (r: Result<(), CoreError>)
        requires
            old(self).wf(),
        ensures
            final(self).wf(),
            final(self).state_view() == old(self).state_view(),
            final(self).output_loop_view() == old(self).output_loop_view(),
            power > 200 ==> r == Err::<(), CoreError>(CoreError::PowerOutOfRange(power, 200)),
            power <= 200 && channel > 1 ==> r matches Err(CoreError::InvalidParameter(_)),
            r is Ok <==> power <= 200 && channel <= 1,
            r is Ok ==> final(self).output_view() == crate::output::with_power(
                old(self).output_view(),
                channel,
                power,
            ),
            r is Err ==> final(self).output_view() == old(self).output_view(),
    {
        let r = self.output.set_power(channel, power);
        if r.is_ok() {
            let _ = self.base.set_power(channel, power);
        }
        r
    }

    /// The target of channel 0 (A) or 1 (B); 0 for any other channel.
    pub fn get_power(&self, channel: u8) -> (r: u8)
        ensures
            r == if channel == 0 {
                self.output_view().target_strength_a
            } else if channel == 1 {
                self.output_view().target_strength_b
            } else {
                0
            },
    {
        self.output.get_power(channel)
    }

    /// Replaces the waveform of channel 0 (A) or 1 (B) with the wire form of `config`.
    pub fn set_waveform(&mut self, channel: u8, config: &WaveformConfig) -> (r: Result<
        (),
        CoreError,
    >)
        requires
            old(self).wf(),
        ensures
            final(self).wf(),
            final(self).state_view() == old(self).state_view(),
            r is Ok <==> channel <= 1,
            r is Err ==> final(self).output_view() == old(self).output_view(),
            channel == 0 ==> final(self).output_view() == (OutputState {
                waveform_a: final(self).output_view().waveform_a,
                ..old(self).output_view()
            }) && waveform_of(
                config.waveform_type,
                config.frequency,
                config.intensity,
                match config.custom_data {
                    Some(v) => Some(v@),
                    None => None,
                },
                final(self).output_view().waveform_a,
            ),
            channel == 1 ==> final(self).output_view() == (OutputState {
                waveform_b: final(self).output_view().waveform_b,
                ..old(self).output_view()
            }) && waveform_of(
                config.waveform_type,
                config.frequency,
                config.intensity,
                match config.custom_data {
                    Some(v) => Some(v@),
                    None => None,
                },
                final(self).output_view().waveform_b,
            ),
    {
        let waveform = waveform_config_to_v3(config);
        self.output.set_waveform(channel, waveform)
    }

    /// Replaces the waveform of channel 0 (A) or 1 (B) with a wire waveform.
    pub fn set_waveform_data(&mut self, channel: u8, waveform: WaveformData) -> (r: Result<
        (),
        CoreError,
    >)
        requires
            old(self).wf(),
        ensures
            final(self).wf(),
            final(self).state_view() == old(self).state_view(),
            r is Ok <==> channel <= 1,
            r is Err ==> final(self).output_view() == old(self).output_view(),
            channel == 0 ==> final(self).output_view() == (OutputState {
                waveform_a: waveform,
                ..old(self).output_view()
            }),
            channel == 1 ==> final(self).output_view() == (OutputState {
                waveform_b: waveform,
                ..old(self).output_view()
            }),
    {
        self.output.set_waveform(channel, waveform)
    }

    /// One tick of the output loop: the 20 bytes to send, or nothing when
    /// the loop is not running.
    pub fn tick(&mut self) -> (r: Option<[u8; 20]>)
        requires
            old(self).wf(),
        ensures
            final(self).wf(),
            final(self).state_view() == old(self).state_view(),
            old(self).state_view() != DeviceState::Running ==> r is None && final(self).output_view() == old(self).output_view(),
            old(self).state_view() == DeviceState::Running ==> (r matches Some(b) && b@ == tick(
                old(self).output_view(),
            ).1.bytes() && final(self).output_view() == tick(old(self).output_view()).0),
    {
        if !self.output_loop {
            return None;
        }
        let cmd = self.output.build_b0();
        Some(cmd.encode())
    }

    /// Sending an output command failed: the loop ends and one error event
    /// is emitted; nothing is retried.
    pub fn send_failed(&mut self, reason: String)
        requires
            old(self).wf(),
        ensures
            final(self).wf(),
            !final(self).output_loop_view(),
            final(self).state_view() == DeviceState::Connected || final(self).state_view()
                == old(self).state_view(),
            final(self).events_view().last() == DeviceEvent::Error(reason),
            old(self).state_view() == DeviceState::Running ==> final(self).state_view()
                == DeviceState::Connected && final(self).events_view().len() == old(
                self).events_view().len() + 2,
            old(self).state_view() != DeviceState::Running ==> final(self).state_view() == old(
                self).state_view() && final(self).events_view() == old(self).events_view().push(
                DeviceEvent::Error(reason),
            ),
    {
        self.output_loop = false;
        if self.base.state() == DeviceState::Running {
            self.base.set_state(DeviceState::Connected);
        }
        self.base.send_event(DeviceEvent::Error(reason));
    }

    /// A frame arrived from the host: strength feedback becomes a status
    /// event carrying the strengths in effect; anything else is dropped.
    pub fn on_notification(&mut self, data: &[u8]) -> (r: Option<B1Response>)
        requires
            old(self).wf(),
        ensures
            final(self).wf(),
            final(self).state_view() == old(self).state_view(),
            final(self).output_view() == old(self).output_view(),
            final(self).output_loop_view() == old(self).output_loop_view(),
            B1Response::well_framed(data@) ==> r == Some(B1Response::from_bytes(data@)) && (final(self).events_view().last() matches DeviceEvent::StatusReport { power_a, power_b }
                && power_a == data@[2] && power_b == data@[3]) && final(self).events_view().len()
                == old(self).events_view().len() + 1,
            !B1Response::well_framed(data@) ==> r is None && final(self).events_view() == old(self).events_view(),
    {
        match NotifyMessage::parse(data) {
            NotifyMessage::Strength(b1) => {
                self.base.send_event(
                    DeviceEvent::StatusReport { power_a: b1.strength_a, power_b: b1.strength_b },
                );
                Some(b1)
            },
            NotifyMessage::Unknown(_) => None,
        }
    }

    /// Reading from the host failed: the feedback consumer ends and one
    /// error event is emitted.
    pub fn receive_failed(&mut self, reason: String)
        requires
            old(self).wf(),
        ensures
            final(self).wf(),
            !final(self).receive_task_view(),
            final(self).state_view() == old(self).state_view(),
            final(self).events_view() == old(self).events_view().push(DeviceEvent::Error(reason)),
    {
        self.receive_task = false;
        self.base.send_event(DeviceEvent::Error(reason));
    }

    /// The keep-alive frame of a connected device whose loop is stopped:
    /// both strengths unchanged, both channels silent.
    pub fn heartbeat(&self) -> (r: Option<[u8; 20]>)
        ensures
            self.state_view() == DeviceState::Connected ==> (r matches Some(b) && b@ == (B0Command {
                sequence: 0,
                strength_mode: crate::v3::StrengthMode {
                    channel_a: crate::v3::ChannelStrengthMode::NoChange,
                    channel_b: crate::v3::ChannelStrengthMode::NoChange,
                },
                strength_a: 0,
                strength_b: 0,
                waveform_a: WaveformData::silent_spec(),
                waveform_b: WaveformData::silent_spec(),
            }).bytes()),
            self.state_view() != DeviceState::Connected ==> r is None,
    {
        if self.base.state() != DeviceState::Connected {
            return None;
        }
        let cmd = B0Command::waveform_only(WaveformData::silent(), WaveformData::silent());
        Some(cmd.encode())
    }

    /// Forces both channels to 0, going on past a failure on either, then
    /// stops the output loop; the failures are handed back, not raised.
    pub fn emergency_stop(&mut self) -> (r: Vec<CoreError>)
        requires
            old(self).wf(),
        ensures
            final(self).wf(),
            final(self).output_view().target_strength_a == 0,
            final(self).output_view().target_strength_b == 0,
            old(self).state_view() == DeviceState::Running ==> final(self).state_view()
                == DeviceState::Connected,
            old(self).state_view() != DeviceState::Running ==> final(self).state_view() == old(self).state_view(),
            old(self).state_view() == DeviceState::Running ==> final(self).output_view().waveform_a
                == WaveformData::silent_spec() && final(self).output_view().waveform_b
                == WaveformData::silent_spec(),
            !final(self).output_loop_view(),
            r@.len() == 0,
    {
        let mut failures: Vec<CoreError> = Vec::new();
        match self.set_power(0, 0) {
            Ok(()) => {},
            Err(e) => failures.push(e),
        }
        match self.set_power(1, 0) {
            Ok(()) => {},
            Err(e) => failures.push(e),
        }
        let _ = self.stop();
        failures
    }

    /// Hands the queued events to the caller, oldest first, and forgets them.
    pub fn take_events(&mut self) -> (r: Vec<DeviceEvent>)
        requires
            old(self).wf(),
        ensures
            final(self).wf(),
            r@ == old(self).events_view(),
            final(self).events_view() == Seq::<DeviceEvent>::empty(),
            final(self).state_view() == old(self).state_view(),
            final(self).output_view() == old(self).output_view(),
    {
        self.base.take_events()
    }
}

} // verus!
