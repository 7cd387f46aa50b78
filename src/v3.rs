//! Wire codec of the pulse host's V3 wireless protocol.
//!
//! Three fixed-length shapes travel over the link: the periodic output
//! command (20 bytes, header `0xB0`), the limit configuration (7 bytes,
//! header `0xBF`) and the strength feedback (4 bytes, header `0xB1`).
use vstd::prelude::*;

use crate::text::{
    chars_of, hex_digit, hex_digit_value, hex_pair, hex_text, hex_value, push_char,
};

verus! {

/// Header byte of the output command.
pub const B0_HEAD: u8 = 0xB0;

/// Header byte of the limit configuration.
pub const BF_HEAD: u8 = 0xBF;

/// Header byte of the strength feedback.
pub const B1_HEAD: u8 = 0xB1;

/// Length of an encoded output command.
pub const B0_LENGTH: usize = 20;

/// Length of an encoded limit configuration.
pub const BF_LENGTH: usize = 7;

/// Length of an encoded strength feedback.
pub const B1_LENGTH: usize = 4;

/// Largest channel strength of the protocol.
pub const MAX_STRENGTH: u8 = 200;

/// Largest waveform intensity the host accepts.
pub const MAX_WAVE_INTENSITY: u8 = 100;

/// Smallest transmitted waveform frequency.
pub const MIN_WAVE_FREQUENCY: u8 = 10;

/// Largest transmitted waveform frequency.
pub const MAX_WAVE_FREQUENCY: u8 = 240;

/// How the host reads one channel's strength byte (two bits on the wire).
#[derive(Debug, Clone, Copy, PartialEq, Eq, Structural)]
pub enum ChannelStrengthMode {
    /// `00`: the strength byte is ignored.
    NoChange,
    /// `01`: the strength byte is added.
    Increase,
    /// `10`: the strength byte is subtracted.
    Decrease,
    /// `11`: the strength byte is the new strength.
    Absolute,
}

impl ChannelStrengthMode {
    /// The two-bit code of the mode.
    pub open spec fn code(self) -> u8 {
        match self {
            ChannelStrengthMode::NoChange => 0,
            ChannelStrengthMode::Increase => 1,
            ChannelStrengthMode::Decrease => 2,
            ChannelStrengthMode::Absolute => 3,
        }
    }

    /// The mode whose code is the low two bits of `v`.
    pub open spec fn of_code(v: u8) -> ChannelStrengthMode {
        let c = v % 4;
        if c == 0 {
            ChannelStrengthMode::NoChange
        } else if c == 1 {
            ChannelStrengthMode::Increase
        } else if c == 2 {
            ChannelStrengthMode::Decrease
        } else {
            ChannelStrengthMode::Absolute
        }
    }

    /// The two-bit code of the mode.
    pub fn to_bits(self) -> (r: u8)
        ensures
            r == self.code(),
            r < 4,
    {
        match self {
            ChannelStrengthMode::NoChange => 0,
            ChannelStrengthMode::Increase => 1,
            ChannelStrengthMode::Decrease => 2,
            ChannelStrengthMode::Absolute => 3,
        }
    }

    /// The mode named by the low two bits of `v`.
    pub fn from_bits(v: u8) -> (r: ChannelStrengthMode)
        ensures
            r == ChannelStrengthMode::of_code(v),
    {
        let c = v % 4;
        if c == 0 {
            ChannelStrengthMode::NoChange
        } else if c == 1 {
            ChannelStrengthMode::Increase
        } else if c == 2 {
            ChannelStrengthMode::Decrease
        } else {
            ChannelStrengthMode::Absolute
        }
    }
}

impl From<u8> for ChannelStrengthMode {
    fn from(value: u8) -> (r: ChannelStrengthMode) {
        ChannelStrengthMode::from_bits(value)
    }
}

impl vstd::std_specs::convert::FromSpecImpl<u8> for ChannelStrengthMode {
    open spec fn obeys_from_spec() -> bool {
        true
    }

    open spec fn from_spec(v: u8) -> ChannelStrengthMode {
        ChannelStrengthMode::of_code(v)
    }
}

/// The strength interpretation of both channels (four bits on the wire:
/// channel A in the high two bits, channel B in the low two).
#[derive(Debug, Clone, Copy, PartialEq, Eq, Structural)]
pub struct StrengthMode {
    /// Interpretation of channel A's strength byte.
    pub channel_a: ChannelStrengthMode,
    /// Interpretation of channel B's strength byte.
    pub channel_b: ChannelStrengthMode,
}

impl StrengthMode {
    /// The four-bit code of the pair.
    pub open spec fn code(self) -> u8 {
        (self.channel_a.code() * 4 + self.channel_b.code()) as u8
    }

    /// The pair named by the low four bits of `v`.
    pub open spec fn of_code(v: u8) -> StrengthMode {
        StrengthMode {
            channel_a: ChannelStrengthMode::of_code(v / 4),
            channel_b: ChannelStrengthMode::of_code(v),
        }
    }

    /// Builds the pair from the two channels' modes.
    pub fn new(channel_a: ChannelStrengthMode, channel_b: ChannelStrengthMode) -> (r: StrengthMode)
        ensures
            r.channel_a == channel_a,
            r.channel_b == channel_b,
    {
        StrengthMode { channel_a, channel_b }
    }

    /// Both channels unchanged.
    pub fn both_no_change() -> (r: StrengthMode)
        ensures
            r.channel_a == ChannelStrengthMode::NoChange,
            r.channel_b == ChannelStrengthMode::NoChange,
    {
        StrengthMode::new(ChannelStrengthMode::NoChange, ChannelStrengthMode::NoChange)
    }

    /// The four-bit code of the pair.
    pub fn encode(&self) -> (r: u8)
        ensures
            r == self.code(),
            r < 16,
    {
        self.channel_a.to_bits() * 4 + self.channel_b.to_bits()
    }

    /// The pair named by the low four bits of `value`.
    pub fn decode(value: u8) -> (r: StrengthMode)
        ensures
            r == StrengthMode::of_code(value),
    {
        StrengthMode {
            channel_a: ChannelStrengthMode::from_bits(value / 4),
            channel_b: ChannelStrengthMode::from_bits(value),
        }
    }
}

/// Decoding the four-bit code of a mode pair gives the pair back.
pub proof fn lemma_strength_mode_round_trip(m: StrengthMode)
    ensures
        StrengthMode::of_code(m.code()) == m,
{
}

/// One channel's waveform for 100 ms: four (frequency, intensity) samples of 25 ms.
#[derive(Debug, Clone, Copy, PartialEq, Eq)]
pub struct WaveformData {
    /// Transmitted frequencies, `10..=240` when valid.
    pub frequency: [u8; 4],
    /// Intensities, `0..=100` when valid; any value above 100 silences the channel.
    pub intensity: [u8; 4],
}

impl WaveformData {
    /// The eight wire bytes: the four frequencies, then the four intensities.
    pub open spec fn bytes(self) -> Seq<u8> {
        self.frequency@ + self.intensity@
    }

    /// Whether the host plays the frame rather than dropping it.
    pub open spec fn valid(self) -> bool {
        &&& forall|i: int| 0 <= i < 4 ==> 10 <= #[trigger] self.frequency@[i] <= 240
        &&& forall|i: int| 0 <= i < 4 ==> #[trigger] self.intensity@[i] <= 100
    }

    /// The frame whose wire bytes are the first eight of `data`.
    pub open spec fn from_bytes(data: Seq<u8>) -> WaveformData {
        WaveformData {
            frequency: [data[0], data[1], data[2], data[3]],
            intensity: [data[4], data[5], data[6], data[7]],
        }
    }

    /// The silent frame: one intensity above 100 makes the host drop the channel.
    pub open spec fn silent_spec() -> WaveformData {
        WaveformData { frequency: [0, 0, 0, 0], intensity: [0, 0, 0, 101] }
    }

    /// Builds a frame from its samples.
    pub fn new(frequency: [u8; 4], intensity: [u8; 4]) -> (r: WaveformData)
        ensures
            r.frequency == frequency,
            r.intensity == intensity,
    {
        WaveformData { frequency, intensity }
    }

    /// The silent frame.
    pub fn silent() -> (r: WaveformData)
        ensures
            r == WaveformData::silent_spec(),
            !r.valid(),
    {
        let r = WaveformData { frequency: [0, 0, 0, 0], intensity: [0, 0, 0, 101] };
        assert(r.intensity@[3] == 101);
        r
    }

    /// Four equal samples.
    pub fn uniform(frequency: u8, intensity: u8) -> (r: WaveformData)
        ensures
            r.frequency@ == seq![frequency, frequency, frequency, frequency],
            r.intensity@ == seq![intensity, intensity, intensity, intensity],
    {
        let r = WaveformData {
            frequency: [frequency, frequency, frequency, frequency],
            intensity: [intensity, intensity, intensity, intensity],
        };
        assert(r.frequency@ =~= seq![frequency, frequency, frequency, frequency]);
        assert(r.intensity@ =~= seq![intensity, intensity, intensity, intensity]);
        r
    }

    /// Whether every frequency lies in `10..=240` and every intensity in `0..=100`.
    pub fn is_valid(&self) -> (r: bool)
        ensures
            r == self.valid(),
    {
        let mut i: usize = 0;
        while i < 4
            invariant
                i <= 4,
                forall|j: int| 0 <= j < i ==> 10 <= #[trigger] self.frequency@[j] <= 240,
                forall|j: int| 0 <= j < i ==> #[trigger] self.intensity@[j] <= 100,
            decreases 4 - i,
        {
            let f = self.frequency[i];
            if f < MIN_WAVE_FREQUENCY || f > MAX_WAVE_FREQUENCY || self.intensity[i]
                > MAX_WAVE_INTENSITY {
                return false;
            }
            i = i + 1;
        }
        true
    }

    /// The eight wire bytes.
    pub fn encode(&self) -> (r: [u8; 8])
        ensures
            r@ == self.bytes(),
    {
        let f = self.frequency;
        let n = self.intensity;
        let r = [f[0], f[1], f[2], f[3], n[0], n[1], n[2], n[3]];
        assert(r@ =~= self.bytes());
        r
    }

    /// Reads a frame from the first eight bytes of `data`; `None` when fewer are given.
    pub fn decode(data: &[u8]) -> (r: Option<WaveformData>)
        ensures
            data@.len() < 8 ==> r is None,
            data@.len() >= 8 ==> r == Some(WaveformData::from_bytes(data@)),
    {
        if data.len() < 8 {
            return None;
        }
        Some(
            WaveformData {
                frequency: [data[0], data[1], data[2], data[3]],
                intensity: [data[4], data[5], data[6], data[7]],
            },
        )
    }

    /// The eight wire bytes as sixteen lowercase hexadecimal digits.
    pub fn to_hex_string(&self) -> (r: String)
        ensures
            r@ == hex_text(self.bytes()),
    {
        let bytes = self.encode();
        let mut r = String::new();
        let mut i: usize = 0;
        while i < 8
            invariant
                i <= 8,
                bytes@ == self.bytes(),
                r@ == hex_text(bytes@.subrange(0, i as int)),
            decreases 8 - i,
        {
            let b = bytes[i];
            push_char(&mut r, hex_digit(b / 16));
            push_char(&mut r, hex_digit(b % 16));
            proof {
                let pre = bytes@.subrange(0, i as int);
                let next = bytes@.subrange(0, i + 1);
                assert(next.drop_last() == pre);
                assert(hex_text(next) == hex_text(pre) + hex_pair(b));
                assert(r@ =~= hex_text(next));
            }
            i = i + 1;
        }
        assert(bytes@.subrange(0, 8) == bytes@);
        r
    }

    /// Reads a frame from sixteen hexadecimal digits of either case.
    pub fn from_hex_string(hex: &str) -> (r: Option<WaveformData>)
        ensures
            r is Some <==> hex_frame_text(hex@),
            r is Some ==> r->0.bytes() == hex_frame_bytes(hex@),
    {
        let cs = chars_of(hex);
        if cs.len() != 16 {
            return None;
        }
        let mut buf: Vec<u8> = Vec::new();
        let mut i: usize = 0;
        while i < 8
            invariant
                i <= 8,
                cs@ == hex@,
                cs@.len() == 16,
                buf@.len() == i,
                forall|j: int| 0 <= j < i ==> #[trigger] hex_byte_at(hex@, j) is Some,
                forall|j: int| 0 <= j < i ==> buf@[j] == (#[trigger] hex_byte_at(hex@, j))->0,
            decreases 8 - i,
        {
            let b = match pair_value(cs[2 * i], cs[2 * i + 1]) {
                Some(b) => b,
                None => {
                    assert(hex_byte_at(hex@, i as int) is None);
                    return None;
                },
            };
            buf.push(b);
            i = i + 1;
        }
        let r = WaveformData {
            frequency: [buf[0], buf[1], buf[2], buf[3]],
            intensity: [buf[4], buf[5], buf[6], buf[7]],
        };
        proof {
            assert(r.bytes() =~= hex_frame_bytes(hex@));
        }
        Some(r)
    }
}

/// The byte written by two hexadecimal characters; a leading `+` in place
/// of the first digit is read as std's radix parsing reads it.
pub open spec fn hex_pair_value(c0: char, c1: char) -> Option<u8> {
    if c0 == '+' {
        match hex_value(c1) {
            Some(d) => Some(d as u8),
            None => None,
        }
    } else {
        match (hex_value(c0), hex_value(c1)) {
            (Some(h), Some(l)) => Some((h * 16 + l) as u8),
            _ => None,
        }
    }
}

/// The byte written by characters `2j` and `2j+1` of `s`.
pub open spec fn hex_byte_at(s: Seq<char>, j: int) -> Option<u8> {
    hex_pair_value(s[2 * j], s[2 * j + 1])
}

/// Whether `s` is sixteen characters that write eight bytes.
pub open spec fn hex_frame_text(s: Seq<char>) -> bool {
    s.len() == 16 && forall|j: int| 0 <= j < 8 ==> #[trigger] hex_byte_at(s, j) is Some
}

/// The eight bytes written by `s`.
pub open spec fn hex_frame_bytes(s: Seq<char>) -> Seq<u8> {
    Seq::new(8, |j: int| hex_byte_at(s, j)->0)
}

/// The byte written by two hexadecimal characters.
fn pair_value(c0: char, c1: char) -> (r: Option<u8>)
    ensures
        r == hex_pair_value(c0, c1),
{
    if c0 == '+' {
        match hex_digit_value(c1) {
            Some(d) => Some(d),
            None => None,
        }
    } else {
        match (hex_digit_value(c0), hex_digit_value(c1)) {
            (Some(h), Some(l)) => Some(h * 16 + l),
            _ => None,
        }
    }
}

/// Reading back the hexadecimal text of a frame gives the frame.
pub proof fn lemma_hex_round_trip(w: WaveformData)
    ensures
        hex_frame_text(hex_text(w.bytes())),
        hex_frame_bytes(hex_text(w.bytes())) == w.bytes(),
{
    let b = w.bytes();
    lemma_hex_text_shape(b);
    let t = hex_text(b);
    assert forall|j: int| 0 <= j < 8 implies #[trigger] hex_byte_at(t, j) == Some(b[j]) by {
        lemma_hex_char_value(b[j]);
    }
    assert(hex_frame_bytes(t) =~= b);
}

/// The hexadecimal text of `b` has two characters per byte, those of `hex_pair`.
proof fn lemma_hex_text_shape(b: Seq<u8>)
    ensures
        hex_text(b).len() == 2 * b.len(),
        forall|j: int|
            0 <= j < b.len() ==> #[trigger] hex_text(b)[2 * j] == hex_pair(b[j])[0] && hex_text(
                b,
            )[2 * j + 1] == hex_pair(b[j])[1],
    decreases b.len(),
{
    if b.len() > 0 {
        let p = b.drop_last();
        lemma_hex_text_shape(p);
        assert forall|j: int| 0 <= j < b.len() implies #[trigger] hex_text(b)[2 * j] == hex_pair(
            b[j],
        )[0] && hex_text(b)[2 * j + 1] == hex_pair(b[j])[1] by {
            if j < p.len() {
                assert(p[j] == b[j]);
            }
        }
    }
}

/// The two digits of a byte read back as that byte.
proof fn lemma_hex_char_value(b: u8)
    ensures
        hex_pair_value(hex_pair(b)[0], hex_pair(b)[1]) == Some(b),
{
    let h = b as nat / 16;
    let l = b as nat % 16;
    assert(hex_value(crate::text::hex_char(h)) == Some(h));
    assert(hex_value(crate::text::hex_char(l)) == Some(l));
}

/// The periodic output command: strengths and both channels' waveforms.
#[derive(Debug, Clone, Copy, PartialEq, Eq)]
pub struct B0Command {
    /// Feedback tag `0..=15`; nonzero asks the host to echo the resulting strengths.
    pub sequence: u8,
    /// How the two strength bytes are read.
    pub strength_mode: StrengthMode,
    /// Channel A strength byte (`0..=200`).
    pub strength_a: u8,
    /// Channel B strength byte (`0..=200`).
    pub strength_b: u8,
    /// Channel A waveform.
    pub waveform_a: WaveformData,
    /// Channel B waveform.
    pub waveform_b: WaveformData,
}

impl B0Command {
    /// Whether every field lies in the range the wire can carry.
    pub open spec fn valid(self) -> bool {
        self.sequence <= 15 && self.strength_a <= 200 && self.strength_b <= 200
    }

    /// The twenty wire bytes. The sequence keeps its low four bits; a
    /// strength above 200 is sent as 0.
    pub open spec fn bytes(self) -> Seq<u8> {
        seq![
            B0_HEAD,
            ((self.sequence % 16) * 16 + self.strength_mode.code()) as u8,
            if self.strength_a <= 200 { self.strength_a } else { 0 },
            if self.strength_b <= 200 { self.strength_b } else { 0 },
        ] + self.waveform_a.bytes() + self.waveform_b.bytes()
    }

    /// Whether `data` has the length and header of an output command.
    pub open spec fn well_framed(data: Seq<u8>) -> bool {
        data.len() == 20 && data[0] == B0_HEAD
    }

    /// The command that well-framed `data` carries.
    pub open spec fn from_bytes(data: Seq<u8>) -> B0Command {
        B0Command {
            sequence: data[1] / 16,
            strength_mode: StrengthMode::of_code(data[1] % 16),
            strength_a: data[2],
            strength_b: data[3],
            waveform_a: WaveformData::from_bytes(data.subrange(4, 12)),
            waveform_b: WaveformData::from_bytes(data.subrange(12, 20)),
        }
    }

    /// A command that leaves both strengths unchanged and plays two waveforms.
    pub fn waveform_only(waveform_a: WaveformData, waveform_b: WaveformData) -> (r: B0Command)
        ensures
            r == (B0Command {
                sequence: 0,
                strength_mode: StrengthMode {
                    channel_a: ChannelStrengthMode::NoChange,
                    channel_b: ChannelStrengthMode::NoChange,
                },
                strength_a: 0,
                strength_b: 0,
                waveform_a,
                waveform_b,
            }),
    {
        B0Command {
            sequence: 0,
            strength_mode: StrengthMode::both_no_change(),
            strength_a: 0,
            strength_b: 0,
            waveform_a,
            waveform_b,
        }
    }

    /// A command that sets channel A's strength (at most 200) and leaves B
    /// unchanged; both waveforms silent.
    pub fn set_strength_a(value: u8, sequence: u8) -> (r: B0Command)
        ensures
            r == (B0Command {
                sequence: sequence % 16,
                strength_mode: StrengthMode {
                    channel_a: ChannelStrengthMode::Absolute,
                    channel_b: ChannelStrengthMode::NoChange,
                },
                strength_a: if value <= 200 { value } else { 200 },
                strength_b: 0,
                waveform_a: WaveformData::silent_spec(),
                waveform_b: WaveformData::silent_spec(),
            }),
    {
        B0Command {
            sequence: sequence % 16,
            strength_mode: StrengthMode::new(
                ChannelStrengthMode::Absolute,
                ChannelStrengthMode::NoChange,
            ),
            strength_a: if value <= MAX_STRENGTH {
                value
            } else {
                MAX_STRENGTH
            },
            strength_b: 0,
            waveform_a: WaveformData::silent(),
            waveform_b: WaveformData::silent(),
        }
    }

    /// A command that sets channel B's strength (at most 200) and leaves A
    /// unchanged; both waveforms silent.
    pub fn set_strength_b(value: u8, sequence: u8) -> (r: B0Command)
        ensures
            r == (B0Command {
                sequence: sequence % 16,
                strength_mode: StrengthMode {
                    channel_a: ChannelStrengthMode::NoChange,
                    channel_b: ChannelStrengthMode::Absolute,
                },
                strength_a: 0,
                strength_b: if value <= 200 { value } else { 200 },
                waveform_a: WaveformData::silent_spec(),
                waveform_b: WaveformData::silent_spec(),
            }),
    {
        B0Command {
            sequence: sequence % 16,
            strength_mode: StrengthMode::new(
                ChannelStrengthMode::NoChange,
                ChannelStrengthMode::Absolute,
            ),
            strength_a: 0,
            strength_b: if value <= MAX_STRENGTH {
                value
            } else {
                MAX_STRENGTH
            },
            waveform_a: WaveformData::silent(),
            waveform_b: WaveformData::silent(),
        }
    }

    /// The twenty wire bytes.
    pub fn encode(&self) -> (r: [u8; 20])
        ensures
            r@ == self.bytes(),
    {
        let mode = self.strength_mode.encode();
        let sa = if self.strength_a <= MAX_STRENGTH {
            self.strength_a
        } else {
            0
        };
        let sb = if self.strength_b <= MAX_STRENGTH {
            self.strength_b
        } else {
            0
        };
        let wa = self.waveform_a.encode();
        let wb = self.waveform_b.encode();
        let r = [
            B0_HEAD,
            (self.sequence % 16) * 16 + mode,
            sa,
            sb,
            wa[0],
            wa[1],
            wa[2],
            wa[3],
            wa[4],
            wa[5],
            wa[6],
            wa[7],
            wb[0],
            wb[1],
            wb[2],
            wb[3],
            wb[4],
            wb[5],
            wb[6],
            wb[7],
        ];
        assert(r@ =~= self.bytes());
        r
    }

    /// Reads a command; `None` unless `data` is twenty bytes starting with the header.
    pub fn decode(data: &[u8]) -> (r: Option<B0Command>)
        ensures
            r is Some <==> B0Command::well_framed(data@),
            r is Some ==> r->0 == B0Command::from_bytes(data@),
    {
        if data.len() != B0_LENGTH || data[0] != B0_HEAD {
            return None;
        }
        let wa = WaveformData {
            frequency: [data[4], data[5], data[6], data[7]],
            intensity: [data[8], data[9], data[10], data[11]],
        };
        let wb = WaveformData {
            frequency: [data[12], data[13], data[14], data[15]],
            intensity: [data[16], data[17], data[18], data[19]],
        };
        let r = B0Command {
            sequence: data[1] / 16,
            strength_mode: StrengthMode::decode(data[1] % 16),
            strength_a: data[2],
            strength_b: data[3],
            waveform_a: wa,
            waveform_b: wb,
        };
        proof {
            let d = data@;
            assert(WaveformData::from_bytes(d.subrange(4, 12)) == wa);
            assert(WaveformData::from_bytes(d.subrange(12, 20)) == wb);
        }
        Some(r)
    }
}

/// The limit configuration: soft strength limits and balance tuning,
/// pushed once per connection.
#[derive(Debug, Clone, Copy, PartialEq, Eq)]
pub struct BFCommand {
    /// Channel A soft strength limit (`0..=200`).
    pub soft_limit_a: u8,
    /// Channel B soft strength limit (`0..=200`).
    pub soft_limit_b: u8,
    /// Channel A frequency balance.
    pub freq_balance_a: u8,
    /// Channel B frequency balance.
    pub freq_balance_b: u8,
    /// Channel A intensity balance.
    pub intensity_balance_a: u8,
    /// Channel B intensity balance.
    pub intensity_balance_b: u8,
}

impl BFCommand {
    /// The seven wire bytes.
    pub open spec fn bytes(self) -> Seq<u8> {
        seq![
            BF_HEAD,
            self.soft_limit_a,
            self.soft_limit_b,
            self.freq_balance_a,
            self.freq_balance_b,
            self.intensity_balance_a,
            self.intensity_balance_b,
        ]
    }

    /// Whether `data` has the length and header of a limit configuration.
    pub open spec fn well_framed(data: Seq<u8>) -> bool {
        data.len() == 7 && data[0] == BF_HEAD
    }

    /// The configuration that well-framed `data` carries.
    pub open spec fn from_bytes(data: Seq<u8>) -> BFCommand {
        BFCommand {
            soft_limit_a: data[1],
            soft_limit_b: data[2],
            freq_balance_a: data[3],
            freq_balance_b: data[4],
            intensity_balance_a: data[5],
            intensity_balance_b: data[6],
        }
    }

    /// Both soft limits at the protocol maximum, all balances zero.
    pub fn default_config() -> (r: BFCommand)
        ensures
            r == (BFCommand {
                soft_limit_a: 200,
                soft_limit_b: 200,
                freq_balance_a: 0,
                freq_balance_b: 0,
                intensity_balance_a: 0,
                intensity_balance_b: 0,
            }),
    {
        BFCommand {
            soft_limit_a: MAX_STRENGTH,
            soft_limit_b: MAX_STRENGTH,
            freq_balance_a: 0,
            freq_balance_b: 0,
            intensity_balance_a: 0,
            intensity_balance_b: 0,
        }
    }

    /// The seven wire bytes.
    pub fn encode(&self) -> (r: [u8; 7])
        ensures
            r@ == self.bytes(),
    {
        let r = [
            BF_HEAD,
            self.soft_limit_a,
            self.soft_limit_b,
            self.freq_balance_a,
            self.freq_balance_b,
            self.intensity_balance_a,
            self.intensity_balance_b,
        ];
        assert(r@ =~= self.bytes());
        r
    }

    /// Reads a configuration; `None` unless `data` is seven bytes starting with the header.
    pub fn decode(data: &[u8]) -> (r: Option<BFCommand>)
        ensures
            r is Some <==> BFCommand::well_framed(data@),
            r is Some ==> r->0 == BFCommand::from_bytes(data@),
    {
        if data.len() != BF_LENGTH || data[0] != BF_HEAD {
            return None;
        }
        Some(
            BFCommand {
                soft_limit_a: data[1],
                soft_limit_b: data[2],
                freq_balance_a: data[3],
                freq_balance_b: data[4],
                intensity_balance_a: data[5],
                intensity_balance_b: data[6],
            },
        )
    }
}

/// Strength feedback pushed by the host after a change.
#[derive(Debug, Clone, Copy, PartialEq, Eq, Structural)]
pub struct B1Response {
    /// Sequence of the command that caused the change, 0 otherwise.
    pub sequence: u8,
    /// Channel A strength now in effect.
    pub strength_a: u8,
    /// Channel B strength now in effect.
    pub strength_b: u8,
}

impl B1Response {
    /// The four wire bytes.
    pub open spec fn bytes(self) -> Seq<u8> {
        seq![B1_HEAD, self.sequence, self.strength_a, self.strength_b]
    }

    /// Whether `data` has the length and header of a feedback frame.
    pub open spec fn well_framed(data: Seq<u8>) -> bool {
        data.len() == 4 && data[0] == B1_HEAD
    }

    /// The feedback that well-framed `data` carries.
    pub open spec fn from_bytes(data: Seq<u8>) -> B1Response {
        B1Response { sequence: data[1], strength_a: data[2], strength_b: data[3] }
    }

    /// Reads a feedback frame; `None` unless `data` is four bytes starting with the header.
    pub fn decode(data: &[u8]) -> (r: Option<B1Response>)
        ensures
            r is Some <==> B1Response::well_framed(data@),
            r is Some ==> r->0 == B1Response::from_bytes(data@),
    {
        if data.len() != B1_LENGTH || data[0] != B1_HEAD {
            return None;
        }
        Some(B1Response { sequence: data[1], strength_a: data[2], strength_b: data[3] })
    }

    /// The four wire bytes.
    pub fn encode(&self) -> (r: [u8; 4])
        ensures
            r@ == self.bytes(),
    {
        let r = [B1_HEAD, self.sequence, self.strength_a, self.strength_b];
        assert(r@ =~= self.bytes());
        r
    }
}

/// A frame received on the host's notification channel.
#[derive(Debug, Clone, PartialEq, Eq)]
pub enum NotifyMessage {
    /// Strength feedback.
    Strength(B1Response),
    /// Anything else, kept as received.
    Unknown(Vec<u8>),
}

impl NotifyMessage {
    /// Classifies a received frame: well-framed feedback, or unknown bytes.
    pub fn parse(data: &[u8]) -> (r: NotifyMessage)
        ensures
            B1Response::well_framed(data@) ==> r == NotifyMessage::Strength(
                B1Response::from_bytes(data@),
            ),
            !B1Response::well_framed(data@) ==> (r matches NotifyMessage::Unknown(v) && v@
                == data@),
    {
        match B1Response::decode(data) {
            Some(resp) => NotifyMessage::Strength(resp),
            None => NotifyMessage::Unknown(vstd::slice::slice_to_vec(data)),
        }
    }
}

/// Every valid output command reads back from its wire bytes.
pub proof fn lemma_b0_round_trip(c: B0Command)
    requires
        c.valid(),
    ensures
        B0Command::well_framed(c.bytes()),
        B0Command::from_bytes(c.bytes()) == c,
{
    let d = c.bytes();
    let m = c.strength_mode.code();
    assert(m < 16);
    assert(d[1] == c.sequence * 16 + m);
    assert(d[1] / 16 == c.sequence);
    assert(d[1] % 16 == m);
    lemma_strength_mode_round_trip(c.strength_mode);
    assert(d.subrange(4, 12) =~= c.waveform_a.bytes());
    assert(d.subrange(12, 20) =~= c.waveform_b.bytes());
    let wa = WaveformData::from_bytes(c.waveform_a.bytes());
    let wb = WaveformData::from_bytes(c.waveform_b.bytes());
    assert(wa.frequency =~= c.waveform_a.frequency);
    assert(wa.intensity =~= c.waveform_a.intensity);
    assert(wb.frequency =~= c.waveform_b.frequency);
    assert(wb.intensity =~= c.waveform_b.intensity);
}

/// Every limit configuration reads back from its wire bytes.
pub proof fn lemma_bf_round_trip(c: BFCommand)
    ensures
        BFCommand::well_framed(c.bytes()),
        BFCommand::from_bytes(c.bytes()) == c,
{
}

/// Every feedback frame reads back from its wire bytes.
pub proof fn lemma_b1_round_trip(c: B1Response)
    ensures
        B1Response::well_framed(c.bytes()),
        B1Response::from_bytes(c.bytes()) == c,
{
}

/// The transmitted value of a user frequency: identity on `10..=100`,
/// `(x-100)/5+100` on `101..=600`, `(x-600)/10+200` on `601..=1000`, 10 elsewhere.
pub open spec fn compress_spec(input: u16) -> u8 {
    if 10 <= input <= 100 {
        input as u8
    } else if 101 <= input <= 600 {
        ((input - 100) / 5 + 100) as u8
    } else if 601 <= input <= 1000 {
        ((input - 600) / 10 + 200) as u8
    } else {
        10
    }
}

/// The user frequency a transmitted value stands for (best-effort inverse).
pub open spec fn decompress_spec(value: u8) -> u16 {
    if 10 <= value <= 100 {
        value as u16
    } else if 101 <= value <= 200 {
        ((value - 100) * 5 + 100) as u16
    } else if 201 <= value <= 240 {
        ((value - 200) * 10 + 600) as u16
    } else {
        10
    }
}

/// Compresses a waveform frequency from `10..=1000` into the wire range `10..=240`.
pub fn compress_frequency(input: u16) -> (r: u8)
    ensures
        r == compress_spec(input),
        10 <= r <= 240,
{
    if 10 <= input && input <= 100 {
        input as u8
    } else if 101 <= input && input <= 600 {
        ((input - 100) / 5 + 100) as u8
    } else if 601 <= input && input <= 1000 {
        ((input - 600) / 10 + 200) as u8
    } else {
        10
    }
}

/// Expands a transmitted frequency back into the user range.
pub fn decompress_frequency(value: u8) -> (r: u16)
    ensures
        r == decompress_spec(value),
        10 <= r <= 1000,
{
    if 10 <= value && value <= 100 {
        value as u16
    } else if 101 <= value && value <= 200 {
        ((value as u16) - 100) * 5 + 100
    } else if 201 <= value && value <= 240 {
        ((value as u16) - 200) * 10 + 600
    } else {
        10
    }
}

/// Compression never decreases on `10..=1000`, maps inputs outside it to
/// 10, and is undone exactly by decompression on `10..=100`.
pub proof fn lemma_frequency_clamp(x: u16, y: u16)
    ensures
        10 <= x <= y <= 1000 ==> compress_spec(x) <= compress_spec(y),
        (x < 10 || x > 1000) ==> compress_spec(x) == 10,
        10 <= x <= 100 ==> decompress_spec(compress_spec(x)) == x,
{
}

/// The transmitted value of a pulse rate in Hz: its period in ms, compressed.
pub open spec fn pulse_hz_spec(hz: u16) -> u8 {
    if hz == 0 {
        10
    } else {
        compress_spec((1000u16 / hz) as u16)
    }
}

/// Converts a pulse rate in Hz into a transmitted frequency value.
pub fn pulse_hz_to_value(hz: u16) -> (r: u8)
    ensures
        r == pulse_hz_spec(hz),
{
    if hz == 0 {
        return 10;
    }
    compress_frequency(1000 / hz)
}

} // verus!
