//! The coalesced output state read by the 100 ms output loop.
//!
//! Callers write targets and waveforms at any time; each tick of the loop
//! turns the state into exactly one output command and clears the
//! pending-change flags it consumed.
use vstd::prelude::*;

use crate::device::CoreError;
use crate::v3::{B0Command, ChannelStrengthMode, StrengthMode, WaveformData, MAX_STRENGTH};

verus! {

/// The state shared by callers and the output loop.
#[derive(Debug, Clone, Copy, PartialEq, Eq)]
pub struct OutputState {
    /// Latest requested strength of channel A.
    pub target_strength_a: u8,
    /// Latest requested strength of channel B.
    pub target_strength_b: u8,
    /// Whether channel A's target changed since the last tick.
    pub pending_strength_a: bool,
    /// Whether channel B's target changed since the last tick.
    pub pending_strength_b: bool,
    /// The last sequence number handed out; 0 before the first.
    pub sequence: u8,
    /// Current waveform of channel A.
    pub waveform_a: WaveformData,
    /// Current waveform of channel B.
    pub waveform_b: WaveformData,
}

/// The sequence number that follows `s`: `1..=15` in a cycle.
pub open spec fn next_seq(s: u8) -> u8 {
    (s % 15 + 1) as u8
}

/// The state after channel `channel` (0 or 1) is set to `power`.
pub open spec fn with_power(s: OutputState, channel: u8, power: u8) -> OutputState {
    if channel == 0 {
        OutputState { target_strength_a: power, pending_strength_a: true, ..s }
    } else {
        OutputState { target_strength_b: power, pending_strength_b: true, ..s }
    }
}

/// One tick: the command sent and the state left behind.
///
/// A channel whose flag was set is sent as an absolute strength, the other
/// as unchanged; a sequence number is taken only when a flag was set.
pub open spec fn tick(s: OutputState) -> (OutputState, B0Command) {
    let changed = s.pending_strength_a || s.pending_strength_b;
    let seq = if changed {
        next_seq(s.sequence)
    } else {
        0
    };
    let cmd = B0Command {
        sequence: seq,
        strength_mode: StrengthMode {
            channel_a: if s.pending_strength_a {
                ChannelStrengthMode::Absolute
            } else {
                ChannelStrengthMode::NoChange
            },
            channel_b: if s.pending_strength_b {
                ChannelStrengthMode::Absolute
            } else {
                ChannelStrengthMode::NoChange
            },
        },
        strength_a: s.target_strength_a,
        strength_b: s.target_strength_b,
        waveform_a: s.waveform_a,
        waveform_b: s.waveform_b,
    };
    let next = OutputState {
        pending_strength_a: false,
        pending_strength_b: false,
        sequence: if changed {
            seq
        } else {
            s.sequence
        },
        ..s
    };
    (next, cmd)
}

impl OutputState {
    /// Whether the sequence and both targets are in range.
    pub open spec fn wf(self) -> bool {
        self.sequence <= 15 && self.target_strength_a <= 200 && self.target_strength_b <= 200
    }

    /// Both targets 0, nothing pending, both channels silent.
    pub open spec fn new_spec() -> OutputState {
        OutputState {
            target_strength_a: 0,
            target_strength_b: 0,
            pending_strength_a: false,
            pending_strength_b: false,
            sequence: 0,
            waveform_a: WaveformData::silent_spec(),
            waveform_b: WaveformData::silent_spec(),
        }
    }

    /// Both targets 0, nothing pending, both channels silent.
    pub fn new() -> (r: OutputState)
        ensures
            r.wf(),
            r == OutputState::new_spec(),
    {
        OutputState {
            target_strength_a: 0,
            target_strength_b: 0,
            pending_strength_a: false,
            pending_strength_b: false,
            sequence: 0,
            waveform_a: WaveformData::silent(),
            waveform_b: WaveformData::silent(),
        }
    }

    /// Requests `power` on channel 0 (A) or 1 (B); the latest request wins.
    ///
    /// A strength above 200, or an unknown channel, is refused with nothing changed.
    pub fn set_power(&mut self, channel: u8, power: u8) -> (r: Result<(), CoreError>)
        requires
            old(self).wf(),
        ensures
            final(self).wf(),
            power > 200 ==> r == Err::<(), CoreError>(CoreError::PowerOutOfRange(power, 200)),
            power <= 200 && channel > 1 ==> r matches Err(CoreError::InvalidParameter(_)),
            r is Ok <==> power <= 200 && channel <= 1,
            r is Ok ==> *final(self) == with_power(*old(self), channel, power),
            r is Err ==> *final(self) == *old(self),
    {
        if power > MAX_STRENGTH {
            return Err(CoreError::PowerOutOfRange(power, MAX_STRENGTH));
        }
        if channel == 0 {
            self.target_strength_a = power;
            self.pending_strength_a = true;
        } else if channel == 1 {
            self.target_strength_b = power;
            self.pending_strength_b = true;
        } else {
            return Err(CoreError::InvalidParameter("Invalid channel".to_string()));
        }
        Ok(())
    }

    /// The target of channel 0 (A) or 1 (B); 0 for any other channel.
    pub fn get_power(&self, channel: u8) -> (r: u8)
        ensures
            r == if channel == 0 {
                self.target_strength_a
            } else if channel == 1 {
                self.target_strength_b
            } else {
                0
            },
    {
        if channel == 0 {
            self.target_strength_a
        } else if channel == 1 {
            self.target_strength_b
        } else {
            0
        }
    }

    /// Replaces the whole waveform of channel 0 (A) or 1 (B).
    pub fn set_waveform(&mut self, channel: u8, waveform: WaveformData) -> (r: Result<
        (),
        CoreError,
    >)
        ensures
            r is Ok <==> channel <= 1,
            r is Err ==> (r matches Err(CoreError::InvalidParameter(_))) && *final(self) == *old(self),
            channel == 0 ==> *final(self) == (OutputState { waveform_a: waveform, ..*old(self) }),
            channel == 1 ==> *final(self) == (OutputState { waveform_b: waveform, ..*old(self) }),
    {
        if channel == 0 {
            self.waveform_a = waveform;
        } else if channel == 1 {
            self.waveform_b = waveform;
        } else {
            return Err(CoreError::InvalidParameter("Invalid channel".to_string()));
        }
        Ok(())
    }

    /// Takes the next sequence number, `1..=15` in a cycle.
    pub fn next_sequence(&mut self) -> (r: u8)
        ensures
            r == next_seq(old(self).sequence),
            1 <= r <= 15,
            *final(self) == (OutputState { sequence: r, ..*old(self) }),
    {
        let r = self.sequence % 15 + 1;
        self.sequence = r;
        r
    }

    /// One tick of the output loop: the command to send now.
    pub fn build_b0(&mut self) -> (r: B0Command)
        requires
            old(self).wf(),
        ensures
            (*final(self), r) == tick(*old(self)),
            final(self).wf(),
            r.valid(),
    {
        let need_a = self.pending_strength_a;
        let need_b = self.pending_strength_b;
        self.pending_strength_a = false;
        self.pending_strength_b = false;
        let mode_a = if need_a {
            ChannelStrengthMode::Absolute
        } else {
            ChannelStrengthMode::NoChange
        };
        let mode_b = if need_b {
            ChannelStrengthMode::Absolute
        } else {
            ChannelStrengthMode::NoChange
        };
        let sequence = if need_a || need_b {
            self.next_sequence()
        } else {
            0
        };
        B0Command {
            sequence,
            strength_mode: StrengthMode::new(mode_a, mode_b),
            strength_a: self.target_strength_a,
            strength_b: self.target_strength_b,
            waveform_a: self.waveform_a,
            waveform_b: self.waveform_b,
        }
    }

    /// Forces both targets to 0 and both channels silent.
    pub fn reset(&mut self)
        ensures
            *final(self) == (OutputState {
                target_strength_a: 0,
                target_strength_b: 0,
                waveform_a: WaveformData::silent_spec(),
                waveform_b: WaveformData::silent_spec(),
                ..*old(self)
            }),
    {
        self.target_strength_a = 0;
        self.target_strength_b = 0;
        self.waveform_a = WaveformData::silent();
        self.waveform_b = WaveformData::silent();
    }
}

/// A tick sends a nonzero sequence exactly when a flag was set at its
/// start, never the previous sequence again, and clears both flags;
/// sequence numbers run `1, 2, …, 15, 1, …`.
pub proof fn lemma_sequence_invariants(s: OutputState)
    requires
        s.wf(),
    ensures
        (s.pending_strength_a || s.pending_strength_b) ==> 1 <= tick(s).1.sequence <= 15
            && tick(s).1.sequence != s.sequence && tick(s).0.sequence == tick(s).1.sequence,
        !(s.pending_strength_a || s.pending_strength_b) ==> tick(s).1.sequence == 0
            && tick(s).0.sequence == s.sequence,
        !tick(s).0.pending_strength_a && !tick(s).0.pending_strength_b,
        1 <= s.sequence < 15 ==> next_seq(s.sequence) == s.sequence + 1,
        s.sequence == 15 ==> next_seq(s.sequence) == 1,
{
}

/// The state after channel `channel` is set to each of `values` in turn.
pub open spec fn with_powers(s: OutputState, channel: u8, values: Seq<u8>) -> OutputState
    decreases values.len(),
{
    if values.len() == 0 {
        s
    } else {
        with_power(with_powers(s, channel, values.drop_last()), channel, values.last())
    }
}

/// Requests on one channel set that channel's flag and leave the other
/// channel's flag as it was.
pub proof fn lemma_with_powers_flags(s: OutputState, channel: u8, values: Seq<u8>)
    requires
        channel <= 1,
    ensures
        channel == 0 ==> with_powers(s, channel, values).pending_strength_b == s.pending_strength_b
            && with_powers(s, channel, values).target_strength_b == s.target_strength_b,
        channel == 1 ==> with_powers(s, channel, values).pending_strength_a == s.pending_strength_a
            && with_powers(s, channel, values).target_strength_a == s.target_strength_a,
        with_powers(s, channel, values).sequence == s.sequence,
    decreases values.len(),
{
    if values.len() > 0 {
        lemma_with_powers_flags(s, channel, values.drop_last());
    }
}

/// Any number of strength requests on one channel after a tick yield, at
/// the next tick, exactly one command that carries only the last of them,
/// as an absolute strength, leaves the other channel unchanged and clears
/// the flag; the tick after that, with no request in between, changes no
/// strength and takes no sequence number.
pub proof fn lemma_coalescing(prev: OutputState, channel: u8, values: Seq<u8>)
    requires
        channel <= 1,
        values.len() > 0,
    ensures
        ({
            let s = with_powers(tick(prev).0, channel, values);
            let (after, cmd) = tick(s);
            let (_, next) = tick(after);
            &&& channel == 0 ==> cmd.strength_a == values.last() && cmd.strength_mode.channel_a
                == ChannelStrengthMode::Absolute && cmd.strength_mode.channel_b
                == ChannelStrengthMode::NoChange && !after.pending_strength_a
            &&& channel == 1 ==> cmd.strength_b == values.last() && cmd.strength_mode.channel_b
                == ChannelStrengthMode::Absolute && cmd.strength_mode.channel_a
                == ChannelStrengthMode::NoChange && !after.pending_strength_b
            &&& cmd.sequence != 0
            &&& next.strength_mode.channel_a == ChannelStrengthMode::NoChange
            &&& next.strength_mode.channel_b == ChannelStrengthMode::NoChange
            &&& next.sequence == 0
        }),
{
    lemma_with_powers_flags(tick(prev).0, channel, values);
}

} // verus!
