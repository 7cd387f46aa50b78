//! The framed packet protocol of earlier hosts.
//!
//! A frame is `0xAA, command, length, data…, checksum, 0x55`, where the
//! checksum is the wrapping byte sum of header, command, length, data and tail.
use vstd::prelude::*;

use crate::text::{append_dec, chars_of, dec_text, string_of};

verus! {

/// First byte of every frame.
pub const PACKET_HEADER: u8 = 0xAA;

/// Last byte of every frame.
pub const PACKET_TAIL: u8 = 0x55;

/// Errors of the protocol layer.
#[derive(Debug, Clone, PartialEq, Eq)]
pub enum ProtocolError {
    /// Wireless link failure.
    BleError(String),
    /// Relay channel failure.
    WifiError(String),
    /// A frame could not be built.
    EncodeError(String),
    /// A frame could not be read.
    DecodeError(String),
    /// No device with the given id.
    DeviceNotFound(String),
    /// Connecting failed.
    ConnectionError(String),
    /// An operation timed out.
    Timeout,
    /// Anything else.
    Other(String),
}

/// Command byte of a frame.
#[derive(Debug, Clone, Copy, PartialEq, Eq, Structural)]
pub enum CommandType {
    /// `0x01`
    GetInfo,
    /// `0x10`
    SetPowerA,
    /// `0x11`
    SetPowerB,
    /// `0x12`
    SetWaveA,
    /// `0x13`
    SetWaveB,
    /// `0x14`
    SetMode,
    /// `0x20`
    Start,
    /// `0x21`
    Stop,
    /// `0x30`
    Heartbeat,
    /// `0x80`
    Response,
    /// `0xFF`, and what every other byte reads as.
    Unknown,
}

impl CommandType {
    /// The command's byte.
    pub open spec fn byte(self) -> u8 {
        match self {
            CommandType::GetInfo => 0x01,
            CommandType::SetPowerA => 0x10,
            CommandType::SetPowerB => 0x11,
            CommandType::SetWaveA => 0x12,
            CommandType::SetWaveB => 0x13,
            CommandType::SetMode => 0x14,
            CommandType::Start => 0x20,
            CommandType::Stop => 0x21,
            CommandType::Heartbeat => 0x30,
            CommandType::Response => 0x80,
            CommandType::Unknown => 0xFF,
        }
    }

    /// The command a byte names; `Unknown` for unassigned bytes.
    pub open spec fn of_byte(v: u8) -> CommandType {
        if v == 0x01 {
            CommandType::GetInfo
        } else if v == 0x10 {
            CommandType::SetPowerA
        } else if v == 0x11 {
            CommandType::SetPowerB
        } else if v == 0x12 {
            CommandType::SetWaveA
        } else if v == 0x13 {
            CommandType::SetWaveB
        } else if v == 0x14 {
            CommandType::SetMode
        } else if v == 0x20 {
            CommandType::Start
        } else if v == 0x21 {
            CommandType::Stop
        } else if v == 0x30 {
            CommandType::Heartbeat
        } else if v == 0x80 {
            CommandType::Response
        } else {
            CommandType::Unknown
        }
    }

    /// The command's byte.
    pub fn to_byte(self) -> (r: u8)
        ensures
            r == self.byte(),
    {
        match self {
            CommandType::GetInfo => 0x01,
            CommandType::SetPowerA => 0x10,
            CommandType::SetPowerB => 0x11,
            CommandType::SetWaveA => 0x12,
            CommandType::SetWaveB => 0x13,
            CommandType::SetMode => 0x14,
            CommandType::Start => 0x20,
            CommandType::Stop => 0x21,
            CommandType::Heartbeat => 0x30,
            CommandType::Response => 0x80,
            CommandType::Unknown => 0xFF,
        }
    }

    /// The command a byte names.
    pub fn from_byte(v: u8) -> (r: CommandType)
        ensures
            r == CommandType::of_byte(v),
    {
        match v {
            0x01 => CommandType::GetInfo,
            0x10 => CommandType::SetPowerA,
            0x11 => CommandType::SetPowerB,
            0x12 => CommandType::SetWaveA,
            0x13 => CommandType::SetWaveB,
            0x14 => CommandType::SetMode,
            0x20 => CommandType::Start,
            0x21 => CommandType::Stop,
            0x30 => CommandType::Heartbeat,
            0x80 => CommandType::Response,
            _ => CommandType::Unknown,
        }
    }
}

/// Reading a command's byte gives the command back.
pub proof fn lemma_command_byte_round_trip(c: CommandType)
    ensures
        CommandType::of_byte(c.byte()) == c,
{
}

impl From<u8> for CommandType {
    fn from(v: u8) -> (r: CommandType) {
        CommandType::from_byte(v)
    }
}

impl vstd::std_specs::convert::FromSpecImpl<u8> for CommandType {
    open spec fn obeys_from_spec() -> bool {
        true
    }

    open spec fn from_spec(v: u8) -> CommandType {
        CommandType::of_byte(v)
    }
}

impl From<CommandType> for u8 {
    fn from(c: CommandType) -> (r: u8) {
        c.to_byte()
    }
}

impl vstd::std_specs::convert::FromSpecImpl<CommandType> for u8 {
    open spec fn obeys_from_spec() -> bool {
        true
    }

    open spec fn from_spec(c: CommandType) -> u8 {
        c.byte()
    }
}

/// Waveform kind byte.
#[derive(Debug, Clone, Copy, PartialEq, Eq, Structural)]
pub enum WaveformType {
    /// `0x01`
    Continuous,
    /// `0x02`
    Pulse,
    /// `0x03`
    Sawtooth,
    /// `0x04`
    Sine,
    /// `0x05`
    Square,
    /// `0x06`
    Triangle,
    /// `0xFF`, and what every other byte reads as.
    Custom,
}

impl WaveformType {
    /// The kind's byte.
    pub open spec fn byte(self) -> u8 {
        match self {
            WaveformType::Continuous => 0x01,
            WaveformType::Pulse => 0x02,
            WaveformType::Sawtooth => 0x03,
            WaveformType::Sine => 0x04,
            WaveformType::Square => 0x05,
            WaveformType::Triangle => 0x06,
            WaveformType::Custom => 0xFF,
        }
    }

    /// The kind a byte names; `Custom` for unassigned bytes.
    pub open spec fn of_byte(v: u8) -> WaveformType {
        if v == 0x01 {
            WaveformType::Continuous
        } else if v == 0x02 {
            WaveformType::Pulse
        } else if v == 0x03 {
            WaveformType::Sawtooth
        } else if v == 0x04 {
            WaveformType::Sine
        } else if v == 0x05 {
            WaveformType::Square
        } else if v == 0x06 {
            WaveformType::Triangle
        } else {
            WaveformType::Custom
        }
    }
}

impl From<u8> for WaveformType {
    fn from(v: u8) -> (r: WaveformType) {
        match v {
            0x01 => WaveformType::Continuous,
            0x02 => WaveformType::Pulse,
            0x03 => WaveformType::Sawtooth,
            0x04 => WaveformType::Sine,
            0x05 => WaveformType::Square,
            0x06 => WaveformType::Triangle,
            _ => WaveformType::Custom,
        }
    }
}

impl vstd::std_specs::convert::FromSpecImpl<u8> for WaveformType {
    open spec fn obeys_from_spec() -> bool {
        true
    }

    open spec fn from_spec(v: u8) -> WaveformType {
        WaveformType::of_byte(v)
    }
}

impl From<WaveformType> for u8 {
    fn from(w: WaveformType) -> (r: u8) {
        match w {
            WaveformType::Continuous => 0x01,
            WaveformType::Pulse => 0x02,
            WaveformType::Sawtooth => 0x03,
            WaveformType::Sine => 0x04,
            WaveformType::Square => 0x05,
            WaveformType::Triangle => 0x06,
            WaveformType::Custom => 0xFF,
        }
    }
}

impl vstd::std_specs::convert::FromSpecImpl<WaveformType> for u8 {
    open spec fn obeys_from_spec() -> bool {
        true
    }

    open spec fn from_spec(w: WaveformType) -> u8 {
        w.byte()
    }
}

/// Work mode byte.
#[derive(Debug, Clone, Copy, PartialEq, Eq, Structural)]
pub enum WorkMode {
    /// `0x01`
    Auto,
    /// `0x02`, and what every unassigned byte reads as.
    Manual,
    /// `0x03`
    Loop,
    /// `0x04`
    Random,
}

impl WorkMode {
    /// The mode's byte.
    pub open spec fn byte(self) -> u8 {
        match self {
            WorkMode::Auto => 0x01,
            WorkMode::Manual => 0x02,
            WorkMode::Loop => 0x03,
            WorkMode::Random => 0x04,
        }
    }

    /// The mode a byte names; `Manual` for unassigned bytes.
    pub open spec fn of_byte(v: u8) -> WorkMode {
        if v == 0x01 {
            WorkMode::Auto
        } else if v == 0x03 {
            WorkMode::Loop
        } else if v == 0x04 {
            WorkMode::Random
        } else {
            WorkMode::Manual
        }
    }

    /// The mode a byte names.
    pub fn from_byte(v: u8) -> (r: WorkMode)
        ensures
            r == WorkMode::of_byte(v),
    {
        match v {
            0x01 => WorkMode::Auto,
            0x03 => WorkMode::Loop,
            0x04 => WorkMode::Random,
            _ => WorkMode::Manual,
        }
    }
}

impl From<u8> for WorkMode {
    fn from(v: u8) -> (r: WorkMode) {
        WorkMode::from_byte(v)
    }
}

impl vstd::std_specs::convert::FromSpecImpl<u8> for WorkMode {
    open spec fn obeys_from_spec() -> bool {
        true
    }

    open spec fn from_spec(v: u8) -> WorkMode {
        WorkMode::of_byte(v)
    }
}

impl From<WorkMode> for u8 {
    fn from(m: WorkMode) -> (r: u8) {
        match m {
            WorkMode::Auto => 0x01,
            WorkMode::Manual => 0x02,
            WorkMode::Loop => 0x03,
            WorkMode::Random => 0x04,
        }
    }
}

impl vstd::std_specs::convert::FromSpecImpl<WorkMode> for u8 {
    open spec fn obeys_from_spec() -> bool {
        true
    }

    open spec fn from_spec(m: WorkMode) -> u8 {
        m.byte()
    }
}

/// The wrapping byte sum of `data`.
pub open spec fn byte_sum(data: Seq<u8>) -> nat
    decreases data.len(),
{
    if data.len() == 0 {
        0
    } else {
        ((byte_sum(data.drop_last()) + data.last()) % 256) as nat
    }
}

/// The checksum of a frame: header, command, length, data and tail, summed modulo 256.
pub open spec fn checksum_of(command: CommandType, data_len: u8, data: Seq<u8>) -> u8 {
    ((PACKET_HEADER + command.byte() + data_len + byte_sum(data) + PACKET_TAIL) % 256) as u8
}

/// Reducing modulo 256 before adding changes nothing modulo 256.
proof fn lemma_mod_add(a: int, c: int)
    ensures
        ((a % 256) + c) % 256 == (a + c) % 256,
{
    vstd::arithmetic::div_mod::lemma_add_mod_noop_right(c, a, 256);
}

/// One frame.
#[derive(Debug, Clone, PartialEq, Eq)]
pub struct Packet {
    /// The command.
    pub command: CommandType,
    /// The length byte.
    pub data_len: u8,
    /// The payload.
    pub data: Vec<u8>,
    /// The checksum byte.
    pub checksum: u8,
}

impl Packet {
    /// Builds a frame; its length byte is the payload length modulo 256 and
    /// its checksum is computed.
    pub fn new(command: CommandType, data: Vec<u8>) -> (r: Packet)
        ensures
            r.command == command,
            r.data@ == data@,
            r.data_len == (data@.len() % 256) as u8,
            r.checksum == checksum_of(command, r.data_len, data@),
    {
        let data_len = (data.len() % 256) as u8;
        let checksum = Packet::calculate_checksum(command, data_len, data.as_slice());
        Packet { command, data_len, data, checksum }
    }

    /// The checksum of a frame with these fields.
    pub fn calculate_checksum(command: CommandType, data_len: u8, data: &[u8]) -> (r: u8)
        ensures
            r == checksum_of(command, data_len, data@),
    {
        let mut sum: u8 = PACKET_HEADER;
        sum = sum.wrapping_add(command.to_byte());
        sum = sum.wrapping_add(data_len);
        proof {
            lemma_mod_add(PACKET_HEADER + command.byte(), data_len as int);
        }
        let ghost base: int = PACKET_HEADER + command.byte() + data_len;
        let mut i: usize = 0;
        while i < data.len()
            invariant
                i <= data@.len(),
                sum as int == (base + byte_sum(data@.subrange(0, i as int))) % 256,
            decreases data.len() - i,
        {
            let ghost prev = byte_sum(data@.subrange(0, i as int));
            proof {
                let next = data@.subrange(0, i + 1);
                assert(next.drop_last() == data@.subrange(0, i as int));
                assert(byte_sum(next) == (prev + data[i as int]) % 256);
                vstd::arithmetic::div_mod::lemma_add_mod_noop_right(base, prev + data[i as int], 256);
                lemma_mod_add(base + prev, data[i as int] as int);
            }
            sum = sum.wrapping_add(data[i]);
            i = i + 1;
        }
        proof {
            assert(data@.subrange(0, data@.len() as int) == data@);
            lemma_mod_add(base + byte_sum(data@), PACKET_TAIL as int);
        }
        sum = sum.wrapping_add(PACKET_TAIL);
        sum
    }

    /// Whether the checksum byte matches the other fields.
    pub fn verify_checksum(&self) -> (r: bool)
        ensures
            r == (self.checksum == checksum_of(self.command, self.data_len, self.data@)),
    {
        self.checksum == Packet::calculate_checksum(
            self.command,
            self.data_len,
            self.data.as_slice(),
        )
    }
}

/// Device information as the host reports it.
#[derive(Debug, Clone, PartialEq, Eq)]
pub struct DeviceInfo {
    /// Name.
    pub name: String,
    /// Firmware version.
    pub firmware_version: String,
    /// Hardware version.
    pub hardware_version: String,
    /// Battery level, 0 to 100.
    pub battery_level: u8,
    /// Channel A strength.
    pub power_a: u8,
    /// Channel B strength.
    pub power_b: u8,
    /// Channel A maximum.
    pub max_power_a: u8,
    /// Channel B maximum.
    pub max_power_b: u8,
    /// Work mode.
    pub work_mode: WorkMode,
}

impl Default for DeviceInfo {
    fn default() -> (r: DeviceInfo)
        ensures
            r.name@ == "Unknown"@,
            r.firmware_version@ == "1.0.0"@,
            r.hardware_version@ == "1.0"@,
            r.battery_level == 100,
            r.power_a == 0,
            r.power_b == 0,
            r.max_power_a == 100,
            r.max_power_b == 100,
            r.work_mode == WorkMode::Manual,
    {
        DeviceInfo {
            name: "Unknown".to_string(),
            firmware_version: "1.0.0".to_string(),
            hardware_version: "1.0".to_string(),
            battery_level: 100,
            power_a: 0,
            power_b: 0,
            max_power_a: 100,
            max_power_b: 100,
            work_mode: WorkMode::Manual,
        }
    }
}

/// The wire bytes of a frame with these fields.
pub open spec fn frame_bytes(command: CommandType, data_len: u8, data: Seq<u8>, checksum: u8) -> Seq<
    u8,
> {
    seq![PACKET_HEADER, command.byte(), data_len] + data + seq![checksum, PACKET_TAIL]
}

/// The wire bytes of the frame `Packet::new` builds.
pub open spec fn new_frame_bytes(command: CommandType, data: Seq<u8>) -> Seq<u8> {
    let len = (data.len() % 256) as u8;
    frame_bytes(command, len, data, checksum_of(command, len, data))
}

/// Builds frames.
pub struct PacketEncoder;

impl PacketEncoder {
    /// The wire bytes of `packet`.
    pub fn encode(packet: &Packet) -> (r: Result<Vec<u8>, ProtocolError>)
        ensures
            r matches Ok(v) && v@ == frame_bytes(
                packet.command,
                packet.data_len,
                packet.data@,
                packet.checksum,
            ),
    {
        let mut buf: Vec<u8> = Vec::new();
        buf.push(PACKET_HEADER);
        buf.push(packet.command.to_byte());
        buf.push(packet.data_len);
        let mut i: usize = 0;
        while i < packet.data.len()
            invariant
                i <= packet.data@.len(),
                buf@ == seq![PACKET_HEADER, packet.command.byte(), packet.data_len]
                    + packet.data@.subrange(0, i as int),
            decreases packet.data.len() - i,
        {
            buf.push(packet.data[i]);
            i = i + 1;
            proof {
                assert(packet.data@.subrange(0, i as int) == packet.data@.subrange(
                    0,
                    i - 1,
                ).push(packet.data@[i - 1]));
            }
        }
        buf.push(packet.checksum);
        buf.push(PACKET_TAIL);
        assert(packet.data@.subrange(0, packet.data@.len() as int) == packet.data@);
        assert(buf@ =~= frame_bytes(
            packet.command,
            packet.data_len,
            packet.data@,
            packet.checksum,
        ));
        Ok(buf)
    }

    /// A frame without payload.
    pub fn encode_simple(command: CommandType) -> (r: Result<Vec<u8>, ProtocolError>)
        ensures
            r matches Ok(v) && v@ == new_frame_bytes(command, Seq::empty()),
    {
        let packet = Packet::new(command, Vec::new());
        PacketEncoder::encode(&packet)
    }

    /// A strength frame for channel 0 (A) or 1 (B); any other channel is refused.
    pub fn encode_set_power(channel: u8, power: u8) -> (r: Result<Vec<u8>, ProtocolError>)
        ensures
            channel == 0 ==> (r matches Ok(v) && v@ == new_frame_bytes(
                CommandType::SetPowerA,
                seq![power],
            )),
            channel == 1 ==> (r matches Ok(v) && v@ == new_frame_bytes(
                CommandType::SetPowerB,
                seq![power],
            )),
            channel > 1 ==> r matches Err(ProtocolError::EncodeError(_)),
    {
        let command = if channel == 0 {
            CommandType::SetPowerA
        } else if channel == 1 {
            CommandType::SetPowerB
        } else {
            return Err(ProtocolError::EncodeError("Invalid channel".to_string()));
        };
        let mut data: Vec<u8> = Vec::new();
        data.push(power);
        assert(data@ =~= seq![power]);
        let packet = Packet::new(command, data);
        PacketEncoder::encode(&packet)
    }

    /// A waveform frame for channel 0 (A) or 1 (B): the kind byte, then the
    /// parameters; any other channel is refused.
    pub fn encode_set_wave(channel: u8, waveform: u8, params: &[u8]) -> (r: Result<
        Vec<u8>,
        ProtocolError,
    >)
        ensures
            channel == 0 ==> (r matches Ok(v) && v@ == new_frame_bytes(
                CommandType::SetWaveA,
                seq![waveform] + params@,
            )),
            channel == 1 ==> (r matches Ok(v) && v@ == new_frame_bytes(
                CommandType::SetWaveB,
                seq![waveform] + params@,
            )),
            channel > 1 ==> r matches Err(ProtocolError::EncodeError(_)),
    {
        let command = if channel == 0 {
            CommandType::SetWaveA
        } else if channel == 1 {
            CommandType::SetWaveB
        } else {
            return Err(ProtocolError::EncodeError("Invalid channel".to_string()));
        };
        let mut data: Vec<u8> = Vec::new();
        data.push(waveform);
        let mut i: usize = 0;
        while i < params.len()
            invariant
                i <= params@.len(),
                data@ == seq![waveform] + params@.subrange(0, i as int),
            decreases params.len() - i,
        {
            data.push(params[i]);
            i = i + 1;
            proof {
                assert(params@.subrange(0, i as int) == params@.subrange(0, i - 1).push(
                    params@[i - 1],
                ));
            }
        }
        assert(params@.subrange(0, params@.len() as int) == params@);
        let packet = Packet::new(command, data);
        PacketEncoder::encode(&packet)
    }

    /// A work mode frame.
    pub fn encode_set_mode(mode: u8) -> (r: Result<Vec<u8>, ProtocolError>)
        ensures
            r matches Ok(v) && v@ == new_frame_bytes(CommandType::SetMode, seq![mode]),
    {
        let mut data: Vec<u8> = Vec::new();
        data.push(mode);
        assert(data@ =~= seq![mode]);
        let packet = Packet::new(CommandType::SetMode, data);
        PacketEncoder::encode(&packet)
    }

    /// A heartbeat frame.
    pub fn encode_heartbeat() -> (r: Result<Vec<u8>, ProtocolError>)
        ensures
            r matches Ok(v) && v@ == new_frame_bytes(CommandType::Heartbeat, Seq::empty()),
    {
        PacketEncoder::encode_simple(CommandType::Heartbeat)
    }

    /// A start frame.
    pub fn encode_start() -> (r: Result<Vec<u8>, ProtocolError>)
        ensures
            r matches Ok(v) && v@ == new_frame_bytes(CommandType::Start, Seq::empty()),
    {
        PacketEncoder::encode_simple(CommandType::Start)
    }

    /// A stop frame.
    pub fn encode_stop() -> (r: Result<Vec<u8>, ProtocolError>)
        ensures
            r matches Ok(v) && v@ == new_frame_bytes(CommandType::Stop, Seq::empty()),
    {
        PacketEncoder::encode_simple(CommandType::Stop)
    }

    /// An information request frame.
    pub fn encode_get_info() -> (r: Result<Vec<u8>, ProtocolError>)
        ensures
            r matches Ok(v) && v@ == new_frame_bytes(CommandType::GetInfo, Seq::empty()),
    {
        PacketEncoder::encode_simple(CommandType::GetInfo)
    }
}

/// What one decoding step finds at the front of the buffer.
pub enum FrameScan {
    /// No complete frame yet.
    Pending,
    /// A complete frame: command, length byte, payload, checksum.
    Ready(CommandType, u8, Seq<u8>, u8),
    /// A complete frame whose checksum does not match.
    BadChecksum,
}

/// Position of the first header byte in `buf`, or -1 when there is none.
pub open spec fn header_pos(buf: Seq<u8>) -> int
    decreases buf.len(),
{
    if buf.len() == 0 {
        -1
    } else if buf[0] == PACKET_HEADER {
        0
    } else {
        let q = header_pos(buf.drop_first());
        if q < 0 {
            -1
        } else {
            q + 1
        }
    }
}

/// One decoding step on `buf`: what is found, and what stays buffered.
///
/// Bytes before the first header are dropped (all of them when there is no
/// header). A frame whose tail byte is wrong costs its header byte and the
/// search starts again. A complete frame is removed from the buffer whether
/// or not its checksum matches.
pub open spec fn scan(buf: Seq<u8>) -> (FrameScan, Seq<u8>)
    decreases buf.len(),
{
    let p = header_pos(buf);
    if p < 0 || p >= buf.len() {
        (FrameScan::Pending, Seq::empty())
    } else {
        let b = buf.subrange(p, buf.len() as int);
        if b.len() < 4 {
            (FrameScan::Pending, b)
        } else {
            let total = 5 + b[2] as int;
            if b.len() < total {
                (FrameScan::Pending, b)
            } else if b[total - 1] != PACKET_TAIL {
                scan(b.subrange(1, b.len() as int))
            } else {
                let c = CommandType::of_byte(b[1]);
                let l = b[2];
                let d = b.subrange(3, 3 + l as int);
                let k = b[3 + l as int];
                (
                    if k == checksum_of(c, l, d) {
                        FrameScan::Ready(c, l, d, k)
                    } else {
                        FrameScan::BadChecksum
                    },
                    b.subrange(total, b.len() as int),
                )
            }
        }
    }
}

/// A buffer with no header byte before `i` and one at `i` (or none at all
/// when `i` is its length) has its first header at `i`.
proof fn lemma_header_pos(buf: Seq<u8>, i: int)
    requires
        0 <= i <= buf.len(),
        forall|j: int| 0 <= j < i ==> buf[j] != PACKET_HEADER,
        i < buf.len() ==> buf[i] == PACKET_HEADER,
    ensures
        header_pos(buf) == if i == buf.len() {
            -1
        } else {
            i
        },
    decreases i,
{
    if i > 0 {
        let t = buf.drop_first();
        assert forall|j: int| 0 <= j < i - 1 implies t[j] != PACKET_HEADER by {
            assert(t[j] == buf[j + 1]);
        }
        if i < buf.len() {
            assert(t[i - 1] == buf[i]);
        }
        lemma_header_pos(t, i - 1);
    }
}

/// A ready frame leaves at least five bytes fewer buffered.
pub proof fn lemma_scan_shrinks(buf: Seq<u8>)
    ensures
        scan(buf).1.len() <= buf.len(),
        !(scan(buf).0 is Pending) ==> scan(buf).1.len() + 5 <= buf.len(),
    decreases buf.len(),
{
    let p = header_pos(buf);
    if p >= 0 && p < buf.len() {
        let b = buf.subrange(p, buf.len() as int);
        if b.len() >= 4 {
            let total = 5 + b[2] as int;
            if b.len() >= total && b[total - 1] != PACKET_TAIL {
                lemma_scan_shrinks(b.subrange(1, b.len() as int));
            }
        }
    }
}

/// The bytes of `v` from position `from` on.
fn bytes_from(v: &Vec<u8>, from: usize) -> (r: Vec<u8>)
    requires
        from <= v@.len(),
    ensures
        r@ == v@.subrange(from as int, v@.len() as int),
{
    let mut r: Vec<u8> = Vec::new();
    let mut i: usize = from;
    while i < v.len()
        invariant
            from <= i <= v@.len(),
            r@ == v@.subrange(from as int, i as int),
        decreases v.len() - i,
    {
        r.push(v[i]);
        i = i + 1;
    }
    r
}

/// Decoding steps repeated until one finds no frame or a bad checksum:
/// what each step found, and what stays buffered.
pub open spec fn scan_all(buf: Seq<u8>) -> (Seq<FrameScan>, Seq<u8>)
    decreases buf.len(),
{
    let (s, rest) = scan(buf);
    match s {
        FrameScan::Pending => (Seq::empty(), rest),
        FrameScan::BadChecksum => (seq![s], rest),
        FrameScan::Ready(_, _, _, _) => if rest.len() < buf.len() {
            let (more, left) = scan_all(rest);
            (seq![s] + more, left)
        } else {
            (seq![s], rest)
        },
    }
}

/// Whether `r` is what `decode_all` returns after the steps `found`: an
/// error when the last step met a bad checksum, else every frame in order.
pub open spec fn all_result(found: Seq<FrameScan>, r: Result<Vec<Packet>, ProtocolError>) -> bool {
    if found.len() > 0 && found.last() is BadChecksum {
        r matches Err(ProtocolError::DecodeError(_))
    } else {
        r matches Ok(v) && v@.len() == found.len() && forall|i: int|
            0 <= i < found.len() ==> step_result(#[trigger] found[i], Ok(Some(v@[i])))
    }
}

/// Reassembles frames from a byte stream fed in arbitrary pieces.
pub struct PacketDecoder {
    buffer: Vec<u8>,
}

impl View for PacketDecoder {
    type V = Seq<u8>;

    /// The bytes received and not yet consumed.
    closed spec fn view(&self) -> Seq<u8> {
        self.buffer@
    }
}

/// Whether `r` is what a decoding step that found `s` returns.
pub open spec fn step_result(s: FrameScan, r: Result<Option<Packet>, ProtocolError>) -> bool {
    match s {
        FrameScan::Pending => r matches Ok(None),
        FrameScan::BadChecksum => r matches Err(ProtocolError::DecodeError(_)),
        FrameScan::Ready(c, l, d, k) => r matches Ok(Some(p)) && p.command == c && p.data_len
            == l && p.data@ == d && p.checksum == k,
    }
}

impl PacketDecoder {
    /// A decoder with nothing buffered.
    pub fn new() -> (r: PacketDecoder)
        ensures
            r@ == Seq::<u8>::empty(),
    {
        PacketDecoder { buffer: Vec::new() }
    }

    /// Appends received bytes.
    pub fn feed(&mut self, data: &[u8])
        ensures
            final(self)@ == old(self)@ + data@,
    {
        let mut i: usize = 0;
        while i < data.len()
            invariant
                i <= data@.len(),
                self.buffer@ == old(self)@ + data@.subrange(0, i as int),
            decreases data.len() - i,
        {
            self.buffer.push(data[i]);
            i = i + 1;
            proof {
                assert(data@.subrange(0, i as int) == data@.subrange(0, i - 1).push(
                    data@[i - 1],
                ));
            }
        }
        assert(data@.subrange(0, data@.len() as int) == data@);
    }

    /// Takes the next frame from the buffer, if a complete one is there.
    ///
    /// A frame with a wrong checksum is consumed and reported as a decode error.
    pub fn try_decode(&mut self) -> (r: Result<Option<Packet>, ProtocolError>)
        ensures
            final(self)@ == scan(old(self)@).1,
            step_result(scan(old(self)@).0, r),
    {
        loop
            invariant
                scan(self.buffer@) == scan(old(self)@),
            decreases self.buffer@.len(),
        {
            let len = self.buffer.len();
            let mut p: usize = 0;
            while p < len && self.buffer[p] != PACKET_HEADER
                invariant
                    len == self.buffer@.len(),
                    p <= len,
                    forall|j: int| 0 <= j < p ==> self.buffer@[j] != PACKET_HEADER,
                decreases len - p,
            {
                p = p + 1;
            }
            proof {
                lemma_header_pos(self.buffer@, p as int);
            }
            if p == len {
                self.buffer = Vec::new();
                return Ok(None);
            }
            let b = bytes_from(&self.buffer, p);
            proof {
                lemma_header_pos(b@, 0);
                assert(b@.subrange(0, b@.len() as int) == b@);
            }
            self.buffer = b;
            if self.buffer.len() < 4 {
                return Ok(None);
            }
            let data_len = self.buffer[2];
            let total: usize = 5 + data_len as usize;
            if self.buffer.len() < total {
                return Ok(None);
            }
            if self.buffer[total - 1] != PACKET_TAIL {
                let rest = bytes_from(&self.buffer, 1);
                self.buffer = rest;
                continue;
            }
            let command = CommandType::from_byte(self.buffer[1]);
            let mut data: Vec<u8> = Vec::new();
            let mut i: usize = 3;
            while i < 3 + data_len as usize
                invariant
                    3 <= i <= 3 + data_len,
                    3 + data_len < self.buffer@.len(),
                    data@ == self.buffer@.subrange(3, i as int),
                decreases 3 + data_len - i,
            {
                data.push(self.buffer[i]);
                i = i + 1;
            }
            let checksum = self.buffer[3 + data_len as usize];
            let rest = bytes_from(&self.buffer, total);
            self.buffer = rest;
            let packet = Packet { command, data_len, data, checksum };
            if !packet.verify_checksum() {
                return Err(ProtocolError::DecodeError("Checksum mismatch".to_string()));
            }
            return Ok(Some(packet));
        }
    }

    /// Takes every complete frame from the buffer, stopping at the first
    /// frame with a wrong checksum, which makes the whole call fail.
    pub fn decode_all(&mut self) -> (r: Result<Vec<Packet>, ProtocolError>)
        ensures
            final(self)@ == scan_all(old(self)@).1,
            all_result(scan_all(old(self)@).0, r),
    {
        let ghost orig = self@;
        let ghost mut done: Seq<FrameScan> = Seq::empty();
        let mut packets: Vec<Packet> = Vec::new();
        loop
            invariant
                orig == old(self)@,
                scan_all(orig).1 == scan_all(self@).1,
                scan_all(orig).0 == done + scan_all(self@).0,
                packets@.len() == done.len(),
                forall|i: int| 0 <= i < done.len() ==> #[trigger] done[i] is Ready,
                forall|i: int|
                    0 <= i < done.len() ==> step_result(
                        #[trigger] done[i],
                        Ok(Some(packets@[i])),
                    ),
            decreases self@.len(),
        {
            let ghost cur = self@;
            proof {
                lemma_scan_shrinks(cur);
            }
            match self.try_decode() {
                Ok(None) => {
                    assert(scan(cur).0 is Pending);
                    assert(scan_all(cur) == (Seq::<FrameScan>::empty(), scan(cur).1));
                    assert(done + scan_all(cur).0 =~= done);
                    return Ok(packets);
                },
                Err(e) => {
                    assert(scan(cur).0 is BadChecksum);
                    assert(scan_all(cur) == (seq![scan(cur).0], scan(cur).1));
                    assert((done + scan_all(cur).0).last() is BadChecksum);
                    return Err(e);
                },
                Ok(Some(p)) => {
                    let ghost s = scan(cur).0;
                    proof {
                        assert(scan_all(cur).0 == seq![s] + scan_all(self@).0);
                        assert(done.push(s) + scan_all(self@).0 =~= done + scan_all(cur).0);
                        done = done.push(s);
                    }
                    packets.push(p);
                },
            }
        }
    }

    /// Drops everything buffered.
    pub fn clear(&mut self)
        ensures
            final(self)@ == Seq::<u8>::empty(),
    {
        self.buffer = Vec::new();
    }
}

/// What `String::from_utf8_lossy` makes of the bytes `b`.
pub uninterp spec fn utf8_lossy_of(b: Seq<u8>) -> Seq<char>;

/// Relies on `String::from_utf8_lossy`: the text depends on the bytes
/// alone, and valid UTF-8 (so ASCII) comes back unchanged.
#[verifier::external_body]
fn utf8_lossy(b: &[u8]) -> (r: String)
    ensures
        r@ == utf8_lossy_of(b@),
        (forall|i: int| 0 <= i < b@.len() ==> #[trigger] b@[i] < 128) ==> r@ == b@.map_values(
            |x: u8| x as char,
        ),
{
    String::from_utf8_lossy(b).into_owned()
}

/// `s` without leading NUL characters.
pub open spec fn trim_nul_start(s: Seq<char>) -> Seq<char>
    decreases s.len(),
{
    if s.len() > 0 && s[0] == '\0' {
        trim_nul_start(s.drop_first())
    } else {
        s
    }
}

/// `s` without trailing NUL characters.
pub open spec fn trim_nul_end(s: Seq<char>) -> Seq<char>
    decreases s.len(),
{
    if s.len() > 0 && s.last() == '\0' {
        trim_nul_end(s.drop_last())
    } else {
        s
    }
}

/// `s` without leading or trailing NUL characters.
pub open spec fn trim_nul(s: Seq<char>) -> Seq<char> {
    trim_nul_end(trim_nul_start(s))
}

/// `s` without leading or trailing NUL characters.
fn trim_nul_chars(s: &Vec<char>) -> (r: Vec<char>)
    ensures
        r@ == trim_nul(s@),
{
    let mut start: usize = 0;
    proof {
        assert(s@.subrange(0, s@.len() as int) =~= s@);
    }
    while start < s.len() && s[start] == '\0'
        invariant
            start <= s@.len(),
            trim_nul_start(s@.subrange(start as int, s@.len() as int)) == trim_nul_start(s@),
        decreases s.len() - start,
    {
        proof {
            let t = s@.subrange(start as int, s@.len() as int);
            assert(t.drop_first() =~= s@.subrange(start + 1, s@.len() as int));
        }
        start = start + 1;
    }
    proof {
        let t = s@.subrange(start as int, s@.len() as int);
        assert(trim_nul_start(t) == t);
    }
    let mut end: usize = s.len();
    while end > start && s[end - 1] == '\0'
        invariant
            start <= end <= s@.len(),
            trim_nul_end(s@.subrange(start as int, end as int)) == trim_nul(s@),
        decreases end - start,
    {
        proof {
            let t = s@.subrange(start as int, end as int);
            assert(t.drop_last() =~= s@.subrange(start as int, end - 1));
        }
        end = end - 1;
    }
    let mut r: Vec<char> = Vec::new();
    let mut i: usize = start;
    while i < end
        invariant
            start <= i <= end,
            end <= s@.len(),
            r@ == s@.subrange(start as int, i as int),
        decreases end - i,
    {
        r.push(s[i]);
        i = i + 1;
    }
    r
}

/// The text `{a}.{b}.{c}` of a three-part version.
pub open spec fn version3_text(a: u8, b: u8, c: u8) -> Seq<char> {
    dec_text(a as nat) + seq!['.'] + dec_text(b as nat) + seq!['.'] + dec_text(c as nat)
}

/// The text `{a}.{b}` of a two-part version.
pub open spec fn version2_text(a: u8, b: u8) -> Seq<char> {
    dec_text(a as nat) + seq!['.'] + dec_text(b as nat)
}

/// Whether `info` is what an information response with payload `data`
/// reports when its name bytes read as the text `name_text`.
pub open spec fn info_from(info: DeviceInfo, name_text: Seq<char>, data: Seq<u8>) -> bool {
    &&& info.name@ == if trim_nul(name_text).len() == 0 {
        "DG-LAB"@
    } else {
        trim_nul(name_text)
    }
    &&& info.firmware_version@ == version3_text(data[8], data[9], data[10])
    &&& info.hardware_version@ == version2_text(data[11], data[12])
    &&& info.battery_level == data[13]
    &&& info.power_a == data[14]
    &&& info.power_b == data[15]
    &&& info.max_power_a == if data.len() > 16 {
        data[16]
    } else {
        100
    }
    &&& info.max_power_b == if data.len() > 17 {
        data[17]
    } else {
        100
    }
    &&& info.work_mode == if data.len() > 18 {
        WorkMode::of_byte(data[18])
    } else {
        WorkMode::Manual
    }
}

impl PacketDecoder {
    /// Reads the device information carried by a response frame.
    ///
    /// The name is the first eight payload bytes read as UTF-8 (invalid
    /// sequences replaced), without NUL padding; `DG-LAB` when nothing is left.
    pub fn decode_device_info(packet: &Packet) -> (r: Result<DeviceInfo, ProtocolError>)
        ensures
            packet.command != CommandType::Response ==> r matches Err(
                ProtocolError::DecodeError(_),
            ),
            packet.command == CommandType::Response && packet.data@.len() < 16 ==> r matches Err(
                ProtocolError::DecodeError(_),
            ),
            packet.command == CommandType::Response && packet.data@.len() >= 16 ==> (r matches Ok(
                info,
            ) && info_from(info, utf8_lossy_of(packet.data@.subrange(0, 8)), packet.data@)),
    {
        if packet.command != CommandType::Response {
            return Err(ProtocolError::DecodeError("Not a response packet".to_string()));
        }
        if packet.data.len() < 16 {
            return Err(ProtocolError::DecodeError("Insufficient data length".to_string()));
        }
        let head = vstd::slice::slice_subrange(packet.data.as_slice(), 0, 8);
        let name_text = utf8_lossy(head);
        Ok(PacketDecoder::device_info_from(name_text.as_str(), packet.data.as_slice()))
    }

    /// The device information of a response payload `data` whose name bytes
    /// read as the text `name_text`.
    pub fn device_info_from(name_text: &str, data: &[u8]) -> (r: DeviceInfo)
        requires
            data@.len() >= 16,
        ensures
            info_from(r, name_text@, data@),
    {
        let raw = chars_of(name_text);
        let trimmed = trim_nul_chars(&raw);
        let name = if trimmed.len() == 0 {
            "DG-LAB".to_string()
        } else {
            string_of(&trimmed)
        };
        let mut fw: Vec<char> = Vec::new();
        append_dec(&mut fw, data[8] as u32);
        fw.push('.');
        append_dec(&mut fw, data[9] as u32);
        fw.push('.');
        append_dec(&mut fw, data[10] as u32);
        let mut hw: Vec<char> = Vec::new();
        append_dec(&mut hw, data[11] as u32);
        hw.push('.');
        append_dec(&mut hw, data[12] as u32);
        assert(fw@ =~= version3_text(data@[8], data@[9], data@[10]));
        assert(hw@ =~= version2_text(data@[11], data@[12]));
        DeviceInfo {
            name,
            firmware_version: string_of(&fw),
            hardware_version: string_of(&hw),
            battery_level: data[13],
            power_a: data[14],
            power_b: data[15],
            max_power_a: if data.len() > 16 {
                data[16]
            } else {
                100
            },
            max_power_b: if data.len() > 17 {
                data[17]
            } else {
                100
            },
            work_mode: if data.len() > 18 {
                WorkMode::from_byte(data[18])
            } else {
                WorkMode::Manual
            },
        }
    }
}

impl Default for PacketDecoder {
    fn default() -> (r: PacketDecoder)
        ensures
            r@ == Seq::<u8>::empty(),
    {
        PacketDecoder::new()
    }
}

} // verus!
