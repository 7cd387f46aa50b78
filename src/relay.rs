//! Messages of the cloud relay channel and the classification of their
//! textual payloads.
//!
//! A relay frame carries four text fields: `type`, `clientId`, `targetId`
//! and `message`. Inside `msg` frames the payload is one of a few small
//! grammars: `strength-…`, `pulse-…`, `clear-…` and `feedback-…`.
use vstd::prelude::*;

use crate::text::{
    append_chars, append_dec, append_str, chars_of, dec_text, eq_text, has_prefix, hex_digit,
    hex_pair, lemma_dec_text, lemma_digits_no_plus, lemma_split_append_piece, lemma_split_single,
    lemma_trim_once, lower_of, lowercase, parse_unsigned, slice_chars, split_chars, split_on,
    starts_with_at, string_of, trim_prefixes, trim_start_all, unsigned_text_value,
};

verus! {

/// Address of the public relay.
pub const OFFICIAL_SERVER: &'static str = "wss://ws.dungeon-lab.cn";

/// Seconds between heartbeats while bound.
pub const HEARTBEAT_INTERVAL: u64 = 20;

/// Seconds after which a silent relay is considered gone.
pub const HEARTBEAT_TIMEOUT: u64 = 20;

/// Longest `message` the relay forwards.
pub const MAX_MESSAGE_LEN: usize = 1950;

/// Result codes the relay writes into `message`.
#[derive(Debug, Clone, Copy, PartialEq, Eq, Structural)]
pub enum RetCode {
    /// `200`
    Success,
    /// `209`
    ClientDisconnected,
    /// `210`
    InvalidClientId,
    /// `211`
    ServerDelay,
    /// `400`
    IdAlreadyBound,
    /// `401`
    TargetClientNotFound,
    /// `402`
    IncompatibleRelationship,
    /// `403`
    NonJsonContent,
    /// `404`
    RecipientNotFound,
    /// `405`
    MessageTooLong,
    /// `500`
    ServerInternalError,
}

impl RetCode {
    /// The numeric code.
    pub open spec fn number(self) -> nat {
        match self {
            RetCode::Success => 200,
            RetCode::ClientDisconnected => 209,
            RetCode::InvalidClientId => 210,
            RetCode::ServerDelay => 211,
            RetCode::IdAlreadyBound => 400,
            RetCode::TargetClientNotFound => 401,
            RetCode::IncompatibleRelationship => 402,
            RetCode::NonJsonContent => 403,
            RetCode::RecipientNotFound => 404,
            RetCode::MessageTooLong => 405,
            RetCode::ServerInternalError => 500,
        }
    }

    /// The code with a given number, if there is one.
    pub open spec fn of_number(n: nat) -> Option<RetCode> {
        if n == 200 {
            Some(RetCode::Success)
        } else if n == 209 {
            Some(RetCode::ClientDisconnected)
        } else if n == 210 {
            Some(RetCode::InvalidClientId)
        } else if n == 211 {
            Some(RetCode::ServerDelay)
        } else if n == 400 {
            Some(RetCode::IdAlreadyBound)
        } else if n == 401 {
            Some(RetCode::TargetClientNotFound)
        } else if n == 402 {
            Some(RetCode::IncompatibleRelationship)
        } else if n == 403 {
            Some(RetCode::NonJsonContent)
        } else if n == 404 {
            Some(RetCode::RecipientNotFound)
        } else if n == 405 {
            Some(RetCode::MessageTooLong)
        } else if n == 500 {
            Some(RetCode::ServerInternalError)
        } else {
            None
        }
    }

    /// The code written by `s`: its three decimal digits exactly.
    pub open spec fn of_text(s: Seq<char>) -> Option<RetCode> {
        if s.len() == 3 && s[0] != '+' {
            match unsigned_text_value(s) {
                Some(n) => RetCode::of_number(n),
                None => None,
            }
        } else {
            None
        }
    }

    /// The three decimal digits of the code.
    pub fn as_str(&self) -> (r: String)
        ensures
            r@ == dec_text(self.number()),
    {
        let n: u32 = match self {
            RetCode::Success => 200,
            RetCode::ClientDisconnected => 209,
            RetCode::InvalidClientId => 210,
            RetCode::ServerDelay => 211,
            RetCode::IdAlreadyBound => 400,
            RetCode::TargetClientNotFound => 401,
            RetCode::IncompatibleRelationship => 402,
            RetCode::NonJsonContent => 403,
            RetCode::RecipientNotFound => 404,
            RetCode::MessageTooLong => 405,
            RetCode::ServerInternalError => 500,
        };
        let mut out: Vec<char> = Vec::new();
        append_dec(&mut out, n);
        string_of(&out)
    }

    /// The code written by `s`, if it is one of the relay's codes.
    pub fn from_str(s: &str) -> (r: Option<RetCode>)
        ensures
            r == RetCode::of_text(s@),
    {
        let cs = chars_of(s);
        if cs.len() != 3 || cs[0] == '+' {
            return None;
        }
        let n = match parse_unsigned(&cs, 999) {
            Some(n) => n,
            None => {
                return None;
            },
        };
        if n == 200 {
            Some(RetCode::Success)
        } else if n == 209 {
            Some(RetCode::ClientDisconnected)
        } else if n == 210 {
            Some(RetCode::InvalidClientId)
        } else if n == 211 {
            Some(RetCode::ServerDelay)
        } else if n == 400 {
            Some(RetCode::IdAlreadyBound)
        } else if n == 401 {
            Some(RetCode::TargetClientNotFound)
        } else if n == 402 {
            Some(RetCode::IncompatibleRelationship)
        } else if n == 403 {
            Some(RetCode::NonJsonContent)
        } else if n == 404 {
            Some(RetCode::RecipientNotFound)
        } else if n == 405 {
            Some(RetCode::MessageTooLong)
        } else if n == 500 {
            Some(RetCode::ServerInternalError)
        } else {
            None
        }
    }
}

/// The `type` field of a relay frame.
#[derive(Debug, Clone, PartialEq, Eq)]
pub enum MessageType {
    /// `heartbeat`
    Heartbeat,
    /// `bind`
    Bind,
    /// `msg`
    Msg,
    /// `break`
    Break,
    /// `error`
    Error,
    /// Anything else, as received.
    Unknown(String),
}

/// The known type named by an already lowercased `type` field: 0 heartbeat,
/// 1 bind, 2 msg, 3 break, 4 error, 5 none of them.
pub open spec fn type_index(lowered: Seq<char>) -> nat {
    if lowered == "heartbeat"@ {
        0
    } else if lowered == "bind"@ {
        1
    } else if lowered == "msg"@ {
        2
    } else if lowered == "break"@ {
        3
    } else if lowered == "error"@ {
        4
    } else {
        5
    }
}

impl MessageType {
    /// The index of the type, as `type_index` numbers them.
    pub open spec fn index(&self) -> nat {
        match self {
            MessageType::Heartbeat => 0,
            MessageType::Bind => 1,
            MessageType::Msg => 2,
            MessageType::Break => 3,
            MessageType::Error => 4,
            MessageType::Unknown(_) => 5,
        }
    }

    /// Classifies a `type` field, case-insensitively.
    pub fn from(s: &str) -> (r: MessageType)
        ensures
            r.index() == type_index(lower_of(s@)),
            r matches MessageType::Unknown(u) ==> u@ == s@,
    {
        let lowered = lowercase(s);
        MessageType::from_lowered(lowered.as_str(), s)
    }

    /// Classifies a `type` field whose lowercase form is `lowered`; an
    /// unknown type keeps the field as received.
    pub fn from_lowered(lowered: &str, received: &str) -> (r: MessageType)
        ensures
            r.index() == type_index(lowered@),
            r matches MessageType::Unknown(u) ==> u@ == received@,
    {
        let cs = chars_of(lowered);
        if eq_text(&cs, "heartbeat") {
            MessageType::Heartbeat
        } else if eq_text(&cs, "bind") {
            MessageType::Bind
        } else if eq_text(&cs, "msg") {
            MessageType::Msg
        } else if eq_text(&cs, "break") {
            MessageType::Break
        } else if eq_text(&cs, "error") {
            MessageType::Error
        } else {
            MessageType::Unknown(received.to_string())
        }
    }

    /// The text written into the `type` field.
    pub open spec fn text(&self) -> Seq<char> {
        match self {
            MessageType::Heartbeat => "heartbeat"@,
            MessageType::Bind => "bind"@,
            MessageType::Msg => "msg"@,
            MessageType::Break => "break"@,
            MessageType::Error => "error"@,
            MessageType::Unknown(s) => s@,
        }
    }

    /// The text written into the `type` field.
    pub fn into_text(self) -> (r: String)
        ensures
            r@ == self.text(),
    {
        match self {
            MessageType::Heartbeat => "heartbeat".to_string(),
            MessageType::Bind => "bind".to_string(),
            MessageType::Msg => "msg".to_string(),
            MessageType::Break => "break".to_string(),
            MessageType::Error => "error".to_string(),
            MessageType::Unknown(s) => s,
        }
    }
}

/// Payload heads used by the relay protocol.
#[derive(Debug, Clone, Copy, PartialEq, Eq, Structural)]
pub enum MessageDataHead {
    /// `targetId`
    TargetId,
    /// `DGLAB`
    DgLab,
    /// `strength`
    Strength,
    /// `pulse`
    Pulse,
    /// `clear`
    Clear,
    /// `feedback`
    Feedback,
}

impl MessageDataHead {
    /// The text of the head.
    pub open spec fn text(self) -> Seq<char> {
        match self {
            MessageDataHead::TargetId => "targetId"@,
            MessageDataHead::DgLab => "DGLAB"@,
            MessageDataHead::Strength => "strength"@,
            MessageDataHead::Pulse => "pulse"@,
            MessageDataHead::Clear => "clear"@,
            MessageDataHead::Feedback => "feedback"@,
        }
    }

    /// The head written exactly (case-sensitively) by `s`.
    pub open spec fn of_text(s: Seq<char>) -> Option<MessageDataHead> {
        if s == "targetId"@ {
            Some(MessageDataHead::TargetId)
        } else if s == "DGLAB"@ {
            Some(MessageDataHead::DgLab)
        } else if s == "strength"@ {
            Some(MessageDataHead::Strength)
        } else if s == "pulse"@ {
            Some(MessageDataHead::Pulse)
        } else if s == "clear"@ {
            Some(MessageDataHead::Clear)
        } else if s == "feedback"@ {
            Some(MessageDataHead::Feedback)
        } else {
            None
        }
    }

    /// The text of the head.
    pub fn as_str(&self) -> (r: &'static str)
        ensures
            r@ == self.text(),
    {
        match self {
            MessageDataHead::TargetId => "targetId",
            MessageDataHead::DgLab => "DGLAB",
            MessageDataHead::Strength => "strength",
            MessageDataHead::Pulse => "pulse",
            MessageDataHead::Clear => "clear",
            MessageDataHead::Feedback => "feedback",
        }
    }

    /// The head written by `s`, if any.
    pub fn from_str(s: &str) -> (r: Option<MessageDataHead>)
        ensures
            r == MessageDataHead::of_text(s@),
    {
        let cs = chars_of(s);
        if eq_text(&cs, "targetId") {
            Some(MessageDataHead::TargetId)
        } else if eq_text(&cs, "DGLAB") {
            Some(MessageDataHead::DgLab)
        } else if eq_text(&cs, "strength") {
            Some(MessageDataHead::Strength)
        } else if eq_text(&cs, "pulse") {
            Some(MessageDataHead::Pulse)
        } else if eq_text(&cs, "clear") {
            Some(MessageDataHead::Clear)
        } else if eq_text(&cs, "feedback") {
            Some(MessageDataHead::Feedback)
        } else {
            None
        }
    }
}

/// One relay frame.
#[derive(Debug, Clone, PartialEq, Eq)]
pub struct WsMessage {
    /// The `type` field.
    pub msg_type: String,
    /// The `clientId` field: the sender.
    pub client_id: String,
    /// The `targetId` field: the receiver.
    pub target_id: String,
    /// The `message` field: the payload.
    pub message: String,
}

impl WsMessage {
    /// Builds a frame from its type and three text fields.
    pub fn new(msg_type: MessageType, client_id: String, target_id: String, message: String) -> (r:
        WsMessage)
        ensures
            r.msg_type@ == msg_type.text(),
            r.client_id@ == client_id@,
            r.target_id@ == target_id@,
            r.message@ == message@,
    {
        WsMessage { msg_type: msg_type.into_text(), client_id, target_id, message }
    }

    /// A copy with the same four fields.
    pub fn duplicate(&self) -> (r: WsMessage)
        ensures
            r.msg_type@ == self.msg_type@,
            r.client_id@ == self.client_id@,
            r.target_id@ == self.target_id@,
            r.message@ == self.message@,
    {
        WsMessage {
            msg_type: self.msg_type.clone(),
            client_id: self.client_id.clone(),
            target_id: self.target_id.clone(),
            message: self.message.clone(),
        }
    }

    /// The type of the frame, read case-insensitively.
    pub fn message_type(&self) -> (r: MessageType)
        ensures
            r.index() == type_index(lower_of(self.msg_type@)),
            r matches MessageType::Unknown(u) ==> u@ == self.msg_type@,
    {
        MessageType::from(self.msg_type.as_str())
    }

    /// Whether the frame is a heartbeat.
    pub fn is_heartbeat(&self) -> (r: bool)
        ensures
            r == (type_index(lower_of(self.msg_type@)) == 0),
    {
        matches!(self.message_type(), MessageType::Heartbeat)
    }

    /// Whether the frame is a bind notice.
    pub fn is_bind(&self) -> (r: bool)
        ensures
            r == (type_index(lower_of(self.msg_type@)) == 1),
    {
        matches!(self.message_type(), MessageType::Bind)
    }

    /// Whether the frame carries a payload for the peer.
    pub fn is_msg(&self) -> (r: bool)
        ensures
            r == (type_index(lower_of(self.msg_type@)) == 2),
    {
        matches!(self.message_type(), MessageType::Msg)
    }

    /// Whether the frame announces that the peer left.
    pub fn is_break(&self) -> (r: bool)
        ensures
            r == (type_index(lower_of(self.msg_type@)) == 3),
    {
        matches!(self.message_type(), MessageType::Break)
    }

    /// Whether the frame reports an error.
    pub fn is_error(&self) -> (r: bool)
        ensures
            r == (type_index(lower_of(self.msg_type@)) == 4),
    {
        matches!(self.message_type(), MessageType::Error)
    }
}

/// The byte written by `s` in the form std parses a `u8`.
pub open spec fn u8_text_value(s: Seq<char>) -> Option<u8> {
    match unsigned_text_value(s) {
        Some(n) => if n <= 255 {
            Some(n as u8)
        } else {
            None
        },
        None => None,
    }
}

/// Parses `s` as std parses a `u8`.
fn parse_u8(s: &Vec<char>) -> (r: Option<u8>)
    ensures
        r == u8_text_value(s@),
{
    match parse_unsigned(s, 255) {
        Some(v) => Some(v as u8),
        None => None,
    }
}

/// Strength status sent by the peer application: current strengths and maxima.
#[derive(Debug, Clone, Copy, PartialEq, Eq, Structural)]
pub struct StrengthData {
    /// Channel A strength.
    pub strength_a: u8,
    /// Channel B strength.
    pub strength_b: u8,
    /// Channel A maximum.
    pub max_a: u8,
    /// Channel B maximum.
    pub max_b: u8,
}

/// The four `+`-separated fields after the leading `strength-` copies.
pub open spec fn strength_fields(message: Seq<char>) -> Seq<Seq<char>> {
    split_on(trim_prefixes(message, "strength-"@), '+')
}

/// The status written by `message`: `strength-` and four `+`-separated bytes.
pub open spec fn strength_data_of(message: Seq<char>) -> Option<StrengthData> {
    let f = strength_fields(message);
    if has_prefix(message, "strength-"@) && f.len() == 4 && u8_text_value(f[0]) is Some
        && u8_text_value(f[1]) is Some && u8_text_value(f[2]) is Some && u8_text_value(
        f[3],
    ) is Some {
        Some(
            StrengthData {
                strength_a: u8_text_value(f[0])->0,
                strength_b: u8_text_value(f[1])->0,
                max_a: u8_text_value(f[2])->0,
                max_b: u8_text_value(f[3])->0,
            },
        )
    } else {
        None
    }
}

/// The text `strength-{a}+{b}+{max_a}+{max_b}` of a status.
pub open spec fn strength_data_text(d: StrengthData) -> Seq<char> {
    "strength-"@ + dec_text(d.strength_a as nat) + seq!['+'] + dec_text(d.strength_b as nat)
        + seq!['+'] + dec_text(d.max_a as nat) + seq!['+'] + dec_text(d.max_b as nat)
}

impl StrengthData {
    /// Reads a status message; `None` unless it is `strength-` and four
    /// `+`-separated bytes.
    pub fn parse(message: &str) -> (r: Option<StrengthData>)
        ensures
            r == strength_data_of(message@),
    {
        let cs = chars_of(message);
        if !starts_with_at(&cs, 0, "strength-") {
            proof {
                assert(cs@.subrange(0, cs@.len() as int) =~= cs@);
            }
            return None;
        }
        proof {
            assert(cs@.subrange(0, cs@.len() as int) =~= cs@);
        }
        let rest = trim_start_all(&cs, "strength-");
        let parts = split_chars(&rest, '+');
        if parts.len() != 4 {
            return None;
        }
        let a = match parse_u8(&parts[0]) {
            Some(v) => v,
            None => {
                return None;
            },
        };
        let b = match parse_u8(&parts[1]) {
            Some(v) => v,
            None => {
                return None;
            },
        };
        let ma = match parse_u8(&parts[2]) {
            Some(v) => v,
            None => {
                return None;
            },
        };
        let mb = match parse_u8(&parts[3]) {
            Some(v) => v,
            None => {
                return None;
            },
        };
        Some(StrengthData { strength_a: a, strength_b: b, max_a: ma, max_b: mb })
    }

    /// The status message `strength-{a}+{b}+{max_a}+{max_b}` sent to the peer.
    pub fn to_message(&self) -> (r: String)
        ensures
            r@ == strength_data_text(*self),
    {
        let mut out: Vec<char> = Vec::new();
        append_str(&mut out, "strength-");
        append_dec(&mut out, self.strength_a as u32);
        out.push('+');
        append_dec(&mut out, self.strength_b as u32);
        out.push('+');
        append_dec(&mut out, self.max_a as u32);
        out.push('+');
        append_dec(&mut out, self.max_b as u32);
        let r = string_of(&out);
        assert(r@ =~= strength_data_text(*self));
        r
    }
}

/// One of the two output channels.
#[derive(Debug, Clone, Copy, PartialEq, Eq, Structural)]
pub enum Channel {
    /// Channel A.
    A,
    /// Channel B.
    B,
}

impl Channel {
    /// The channel's number in relay payloads: 1 for A, 2 for B.
    pub open spec fn number(self) -> nat {
        match self {
            Channel::A => 1,
            Channel::B => 2,
        }
    }

    /// The channel's index on the local device: 0 for A, 1 for B.
    pub open spec fn index(self) -> u8 {
        match self {
            Channel::A => 0,
            Channel::B => 1,
        }
    }

    /// The channel's index on the local device: 0 for A, 1 for B.
    pub fn to_index(self) -> (r: u8)
        ensures
            r == self.index(),
    {
        match self {
            Channel::A => 0,
            Channel::B => 1,
        }
    }
}

/// How a strength operation changes a channel.
#[derive(Debug, Clone, Copy, PartialEq, Eq, Structural)]
pub enum StrengthMode {
    /// Lower by the value (code 0).
    Decrease,
    /// Raise by the value (code 1).
    Increase,
    /// Set to the value (code 2).
    SetTo,
}

impl StrengthMode {
    /// The mode's code in relay payloads.
    pub open spec fn code(self) -> nat {
        match self {
            StrengthMode::Decrease => 0,
            StrengthMode::Increase => 1,
            StrengthMode::SetTo => 2,
        }
    }
}

/// A strength change for one channel, sent to or received from the peer.
#[derive(Debug, Clone, Copy, PartialEq, Eq, Structural)]
pub struct StrengthOperation {
    /// The channel changed.
    pub channel: Channel,
    /// How it is changed.
    pub mode: StrengthMode,
    /// By how much, or to what.
    pub value: u8,
}

/// The text `strength-{channel}+{mode}+{value}` of an operation.
pub open spec fn strength_op_text(op: StrengthOperation) -> Seq<char> {
    "strength-"@ + dec_text(op.channel.number()) + seq!['+'] + dec_text(op.mode.code()) + seq![
        '+',
    ] + dec_text(op.value as nat)
}

/// The operation written by `message`: `strength-`, then the channel
/// (`1` or `2`), the mode (`0` decrease, `1` increase, `2` set) and the
/// value, separated by `+`.
pub open spec fn strength_op_of(message: Seq<char>) -> Option<StrengthOperation> {
    let f = strength_fields(message);
    if has_prefix(message, "strength-"@) && f.len() == 3 && (f[0] == seq!['1'] || f[0] == seq![
        '2',
    ]) && u8_text_value(f[1]) is Some && u8_text_value(f[1])->0 <= 2 && u8_text_value(
        f[2],
    ) is Some {
        let m = u8_text_value(f[1])->0;
        Some(
            StrengthOperation {
                channel: if f[0] == seq!['1'] {
                    Channel::A
                } else {
                    Channel::B
                },
                mode: if m == 0 {
                    StrengthMode::Decrease
                } else if m == 1 {
                    StrengthMode::Increase
                } else {
                    StrengthMode::SetTo
                },
                value: u8_text_value(f[2])->0,
            },
        )
    } else {
        None
    }
}

/// The strength a channel at `current` has after `op` (never above 200).
pub open spec fn applied_strength(op: StrengthOperation, current: u8) -> u8 {
    match op.mode {
        StrengthMode::Decrease => if current >= op.value {
            (current - op.value) as u8
        } else {
            0
        },
        StrengthMode::Increase => if current + op.value <= 200 {
            (current + op.value) as u8
        } else {
            200
        },
        StrengthMode::SetTo => if op.value <= 200 {
            op.value
        } else {
            200
        },
    }
}

impl StrengthOperation {
    /// Builds an operation.
    pub fn new(channel: Channel, mode: StrengthMode, value: u8) -> (r: StrengthOperation)
        ensures
            r == (StrengthOperation { channel, mode, value }),
    {
        StrengthOperation { channel, mode, value }
    }

    /// Raises `channel` by `value`.
    pub fn increase(channel: Channel, value: u8) -> (r: StrengthOperation)
        ensures
            r == (StrengthOperation { channel, mode: StrengthMode::Increase, value }),
    {
        StrengthOperation::new(channel, StrengthMode::Increase, value)
    }

    /// Lowers `channel` by `value`.
    pub fn decrease(channel: Channel, value: u8) -> (r: StrengthOperation)
        ensures
            r == (StrengthOperation { channel, mode: StrengthMode::Decrease, value }),
    {
        StrengthOperation::new(channel, StrengthMode::Decrease, value)
    }

    /// Sets `channel` to `value`.
    pub fn set(channel: Channel, value: u8) -> (r: StrengthOperation)
        ensures
            r == (StrengthOperation { channel, mode: StrengthMode::SetTo, value }),
    {
        StrengthOperation::new(channel, StrengthMode::SetTo, value)
    }

    /// The payload `strength-{channel}+{mode}+{value}`.
    pub fn to_message(&self) -> (r: String)
        ensures
            r@ == strength_op_text(*self),
    {
        let channel: u32 = match self.channel {
            Channel::A => 1,
            Channel::B => 2,
        };
        let mode: u32 = match self.mode {
            StrengthMode::Decrease => 0,
            StrengthMode::Increase => 1,
            StrengthMode::SetTo => 2,
        };
        let mut out: Vec<char> = Vec::new();
        append_str(&mut out, "strength-");
        append_dec(&mut out, channel);
        out.push('+');
        append_dec(&mut out, mode);
        out.push('+');
        append_dec(&mut out, self.value as u32);
        let r = string_of(&out);
        assert(r@ =~= strength_op_text(*self));
        r
    }

    /// Reads a strength operation from a control payload.
    pub fn parse(message: &str) -> (r: Option<StrengthOperation>)
        ensures
            r == strength_op_of(message@),
    {
        let cs = chars_of(message);
        proof {
            assert(cs@.subrange(0, cs@.len() as int) =~= cs@);
        }
        if !starts_with_at(&cs, 0, "strength-") {
            return None;
        }
        let rest = trim_start_all(&cs, "strength-");
        let parts = split_chars(&rest, '+');
        if parts.len() != 3 {
            return None;
        }
        let channel = if eq_text(&parts[0], "1") {
            proof {
                reveal_strlit("1");
            }
            Channel::A
        } else if eq_text(&parts[0], "2") {
            proof {
                reveal_strlit("1");
                reveal_strlit("2");
            }
            Channel::B
        } else {
            proof {
                reveal_strlit("1");
                reveal_strlit("2");
                assert(seq!['1'] =~= "1"@);
                assert(seq!['2'] =~= "2"@);
            }
            return None;
        };
        proof {
            reveal_strlit("1");
            reveal_strlit("2");
            assert(seq!['1'] =~= "1"@);
            assert(seq!['2'] =~= "2"@);
        }
        let m = match parse_u8(&parts[1]) {
            Some(v) => v,
            None => {
                return None;
            },
        };
        let mode = if m == 0 {
            StrengthMode::Decrease
        } else if m == 1 {
            StrengthMode::Increase
        } else if m == 2 {
            StrengthMode::SetTo
        } else {
            return None;
        };
        let value = match parse_u8(&parts[2]) {
            Some(v) => v,
            None => {
                return None;
            },
        };
        Some(StrengthOperation { channel, mode, value })
    }

    /// The strength of the channel after the operation, from `current`:
    /// lowering stops at 0, raising and setting stop at 200.
    pub fn apply(&self, current: u8) -> (r: u8)
        ensures
            r == applied_strength(*self, current),
    {
        match self.mode {
            StrengthMode::Decrease => current.saturating_sub(self.value),
            StrengthMode::Increase => {
                let s = current.saturating_add(self.value);
                if s <= 200 {
                    s
                } else {
                    200
                }
            },
            StrengthMode::SetTo => if self.value <= 200 {
                self.value
            } else {
                200
            },
        }
    }
}

/// A waveform push: 8-byte frames as hexadecimal text, one per 100 ms.
#[derive(Debug, Clone)]
pub struct PulseData {
    /// The channel the frames are for.
    pub channel: Channel,
    /// The frames, sixteen hexadecimal digits each.
    pub pulses: Vec<String>,
}

/// The items of `items`, each between double quotes, joined by commas.
pub open spec fn quoted_list(items: Seq<Seq<char>>) -> Seq<char>
    decreases items.len(),
{
    if items.len() == 0 {
        Seq::empty()
    } else if items.len() == 1 {
        seq!['"'] + items[0] + seq!['"']
    } else {
        quoted_list(items.drop_last()) + seq![','] + seq!['"'] + items.last() + seq!['"']
    }
}

/// The letter of a channel in waveform pushes.
pub open spec fn channel_letter(c: Channel) -> char {
    match c {
        Channel::A => 'A',
        Channel::B => 'B',
    }
}

/// The payload `pulse-{A|B}:["…","…"]`.
pub open spec fn pulse_text(c: Channel, items: Seq<Seq<char>>) -> Seq<char> {
    "pulse-"@ + seq![channel_letter(c), ':', '['] + quoted_list(items) + seq![']']
}

/// The views of a list of strings.
pub open spec fn texts(v: Seq<String>) -> Seq<Seq<char>> {
    v.map_values(|s: String| s@)
}

/// The single frame of `from_strength`: `0101{a}0101{b}0101`, each
/// strength capped at 100 and written as two hexadecimal digits.
pub open spec fn simple_pulse_text(strength_a: u8, strength_b: u8) -> Seq<char> {
    let a = if strength_a <= 100 {
        strength_a
    } else {
        100
    };
    let b = if strength_b <= 100 {
        strength_b
    } else {
        100
    };
    "0101"@ + hex_pair(a) + "0101"@ + hex_pair(b) + "0101"@
}

/// Whether a list item is a double-quoted text without inner quotes.
pub open spec fn is_quoted(p: Seq<char>) -> bool {
    p.len() >= 2 && p[0] == '"' && p.last() == '"' && forall|i: int|
        1 <= i < p.len() - 1 ==> #[trigger] p[i] != '"'
}

/// The frames written by the inside of a `[…]` list, if it is well formed.
pub open spec fn pulse_items_of(body: Seq<char>) -> Option<Seq<Seq<char>>> {
    if body.len() == 0 {
        Some(Seq::empty())
    } else {
        let ps = split_on(body, ',');
        if forall|i: int| 0 <= i < ps.len() ==> is_quoted(#[trigger] ps[i]) {
            Some(ps.map_values(|p: Seq<char>| p.subrange(1, p.len() - 1)))
        } else {
            None
        }
    }
}

/// The waveform push written by `message`: `pulse-`, a channel letter, `:`,
/// and a bracketed list of quoted frames.
pub open spec fn pulse_of(message: Seq<char>) -> Option<(Channel, Seq<Seq<char>>)> {
    let n = message.len();
    if n >= 10 && has_prefix(message, "pulse-"@) && (message[6] == 'A' || message[6] == 'B')
        && message[7] == ':' && message[8] == '[' && message[n - 1] == ']' {
        match pulse_items_of(message.subrange(9, n - 1)) {
            Some(items) => Some(
                (
                    if message[6] == 'A' {
                        Channel::A
                    } else {
                        Channel::B
                    },
                    items,
                ),
            ),
            None => None,
        }
    } else {
        None
    }
}

impl PulseData {
    /// Builds a push from its frames.
    pub fn new(channel: Channel, pulses: Vec<String>) -> (r: PulseData)
        ensures
            r.channel == channel,
            r.pulses@ == pulses@,
    {
        PulseData { channel, pulses }
    }

    /// A push of `duration_ms / 100` equal frames (at least 1, at most 100)
    /// carrying the two strengths.
    pub fn from_strength(channel: Channel, strength_a: u8, strength_b: u8, duration_ms: u32) -> (r:
        PulseData)
        ensures
            r.channel == channel,
            r.pulses@.len() == if duration_ms / 100 < 1 {
                1
            } else if duration_ms / 100 > 100 {
                100
            } else {
                duration_ms / 100
            },
            forall|i: int|
                0 <= i < r.pulses@.len() ==> (#[trigger] r.pulses@[i])@ == simple_pulse_text(
                    strength_a,
                    strength_b,
                ),
    {
        let q = duration_ms / 100;
        let count: u32 = if q < 1 {
            1
        } else if q > 100 {
            100
        } else {
            q
        };
        let a = if strength_a <= 100 {
            strength_a
        } else {
            100
        };
        let b = if strength_b <= 100 {
            strength_b
        } else {
            100
        };
        let mut out: Vec<char> = Vec::new();
        append_str(&mut out, "0101");
        out.push(hex_digit(a / 16));
        out.push(hex_digit(a % 16));
        append_str(&mut out, "0101");
        out.push(hex_digit(b / 16));
        out.push(hex_digit(b % 16));
        append_str(&mut out, "0101");
        assert(out@ =~= simple_pulse_text(strength_a, strength_b));
        let mut pulses: Vec<String> = Vec::new();
        let mut i: u32 = 0;
        while i < count
            invariant
                i <= count,
                out@ == simple_pulse_text(strength_a, strength_b),
                pulses@.len() == i,
                forall|j: int|
                    0 <= j < pulses@.len() ==> (#[trigger] pulses@[j])@ == simple_pulse_text(
                        strength_a,
                        strength_b,
                    ),
            decreases count - i,
        {
            pulses.push(string_of(&out));
            i = i + 1;
        }
        PulseData { channel, pulses }
    }

    /// The payload `pulse-{A|B}:["…","…"]`.
    pub fn to_message(&self) -> (r: String)
        ensures
            r@ == pulse_text(self.channel, texts(self.pulses@)),
    {
        let mut out: Vec<char> = Vec::new();
        append_str(&mut out, "pulse-");
        out.push(
            match self.channel {
                Channel::A => 'A',
                Channel::B => 'B',
            },
        );
        out.push(':');
        out.push('[');
        let ghost head = out@;
        let mut i: usize = 0;
        while i < self.pulses.len()
            invariant
                i <= self.pulses@.len(),
                out@ == head + quoted_list(texts(self.pulses@).subrange(0, i as int)),
            decreases self.pulses.len() - i,
        {
            let ghost before = out@;
            if i > 0 {
                out.push(',');
            }
            out.push('"');
            let item = chars_of(self.pulses[i].as_str());
            append_chars(&mut out, &item);
            out.push('"');
            proof {
                let all = texts(self.pulses@);
                let next = all.subrange(0, i + 1);
                assert(next.drop_last() =~= all.subrange(0, i as int));
                assert(next.last() == self.pulses@[i as int]@);
                if i == 0 {
                    assert(out@ =~= head + quoted_list(next));
                } else {
                    assert(out@ =~= head + quoted_list(next));
                }
            }
            i = i + 1;
        }
        out.push(']');
        proof {
            assert(texts(self.pulses@).subrange(0, self.pulses@.len() as int) =~= texts(
                self.pulses@,
            ));
        }
        let r = string_of(&out);
        assert(r@ =~= pulse_text(self.channel, texts(self.pulses@)));
        r
    }

    /// Reads a waveform push from a control payload.
    pub fn parse(message: &str) -> (r: Option<PulseData>)
        ensures
            r is Some <==> pulse_of(message@) is Some,
            r is Some ==> (pulse_of(message@) matches Some((c, items)) && r->0.channel == c
                && texts(r->0.pulses@) == items),
    {
        let cs = chars_of(message);
        let n = cs.len();
        proof {
            assert(cs@.subrange(0, cs@.len() as int) =~= cs@);
        }
        if n < 10 || !starts_with_at(&cs, 0, "pulse-") || !(cs[6] == 'A' || cs[6] == 'B')
            || cs[7] != ':' || cs[8] != '[' || cs[n - 1] != ']' {
            return None;
        }
        let channel = if cs[6] == 'A' {
            Channel::A
        } else {
            Channel::B
        };
        let body = slice_chars(&cs, 9, n - 1);
        let mut pulses: Vec<String> = Vec::new();
        if body.len() == 0 {
            proof {
                assert(texts(pulses@) =~= Seq::<Seq<char>>::empty());
            }
            return Some(PulseData { channel, pulses });
        }
        let parts = split_chars(&body, ',');
        let ghost ps = split_on(body@, ',');
        proof {
            assert(body@.len() > 0);
            assert(pulse_of(message@) == match pulse_items_of(body@) {
                Some(items) => Some((channel, items)),
                None => None,
            });
        }
        let mut i: usize = 0;
        while i < parts.len()
            invariant
                body@.len() > 0,
                ps == split_on(body@, ','),
                pulse_of(message@) == match pulse_items_of(body@) {
                    Some(items) => Some((channel, items)),
                    None => None,
                },
                i <= parts@.len(),
                parts@.len() == ps.len(),
                forall|j: int| 0 <= j < parts@.len() ==> #[trigger] parts@[j]@ == ps[j],
                forall|j: int| 0 <= j < i ==> is_quoted(#[trigger] ps[j]),
                pulses@.len() == i,
                forall|j: int|
                    0 <= j < i ==> (#[trigger] pulses@[j])@ == ps[j].subrange(
                        1,
                        ps[j].len() - 1,
                    ),
            decreases parts.len() - i,
        {
            let p = &parts[i];
            let m = p.len();
            if m < 2 || p[0] != '"' || p[m - 1] != '"' {
                assert(!is_quoted(ps[i as int]));
                return None;
            }
            let mut k: usize = 1;
            while k < m - 1
                invariant
                    body@.len() > 0,
                    ps == split_on(body@, ','),
                    pulse_of(message@) == match pulse_items_of(body@) {
                        Some(items) => Some((channel, items)),
                        None => None,
                    },
                    i < parts@.len(),
                    parts@.len() == ps.len(),
                    p@ == ps[i as int],
                    m == p@.len(),
                    m >= 2,
                    1 <= k <= m - 1,
                    forall|t: int| 1 <= t < k ==> #[trigger] p@[t] != '"',
                decreases m - 1 - k,
            {
                if p[k] == '"' {
                    assert(ps[i as int][k as int] == '"');
                    assert(!is_quoted(ps[i as int]));
                    return None;
                }
                k = k + 1;
            }
            let inner = slice_chars(p, 1, m - 1);
            pulses.push(string_of(&inner));
            i = i + 1;
        }
        proof {
            assert(texts(pulses@) =~= ps.map_values(|p: Seq<char>| p.subrange(1, p.len() - 1)));
        }
        Some(PulseData { channel, pulses })
    }
}

/// Clearing of one channel's waveform queue.
#[derive(Debug, Clone, Copy, PartialEq, Eq, Structural)]
pub struct ClearOperation {
    /// The channel cleared.
    pub channel: Channel,
}

/// The channel named by what follows `clear-`: `1` or `A`, `2` or `B`.
pub open spec fn clear_of(message: Seq<char>) -> Option<Channel> {
    let rest = trim_prefixes(message, "clear-"@);
    if !has_prefix(message, "clear-"@) {
        None
    } else if rest == seq!['1'] || rest == seq!['A'] {
        Some(Channel::A)
    } else if rest == seq!['2'] || rest == seq!['B'] {
        Some(Channel::B)
    } else {
        None
    }
}

impl ClearOperation {
    /// Clears `channel`.
    pub fn new(channel: Channel) -> (r: ClearOperation)
        ensures
            r.channel == channel,
    {
        ClearOperation { channel }
    }

    /// The payload `clear-{1|2}`.
    pub fn to_message(&self) -> (r: String)
        ensures
            r@ == "clear-"@ + dec_text(self.channel.number()),
    {
        let mut out: Vec<char> = Vec::new();
        append_str(&mut out, "clear-");
        append_dec(
            &mut out,
            match self.channel {
                Channel::A => 1,
                Channel::B => 2,
            },
        );
        string_of(&out)
    }

    /// Reads a clear operation from a control payload.
    pub fn parse(message: &str) -> (r: Option<ClearOperation>)
        ensures
            r is Some <==> clear_of(message@) is Some,
            r is Some ==> r->0.channel == clear_of(message@)->0,
    {
        let cs = chars_of(message);
        proof {
            assert(cs@.subrange(0, cs@.len() as int) =~= cs@);
            reveal_strlit("1");
            reveal_strlit("2");
            reveal_strlit("A");
            reveal_strlit("B");
            assert(seq!['1'] =~= "1"@);
            assert(seq!['2'] =~= "2"@);
            assert(seq!['A'] =~= "A"@);
            assert(seq!['B'] =~= "B"@);
        }
        if !starts_with_at(&cs, 0, "clear-") {
            return None;
        }
        let rest = trim_start_all(&cs, "clear-");
        if eq_text(&rest, "1") || eq_text(&rest, "A") {
            Some(ClearOperation { channel: Channel::A })
        } else if eq_text(&rest, "2") || eq_text(&rest, "B") {
            Some(ClearOperation { channel: Channel::B })
        } else {
            None
        }
    }
}

/// A button pressed in the peer application.
#[derive(Debug, Clone, Copy, PartialEq, Eq, Structural)]
pub enum FeedbackButton {
    /// Channel A, button 0.
    A0,
    /// Channel A, button 1.
    A1,
    /// Channel A, button 2.
    A2,
    /// Channel A, button 3.
    A3,
    /// Channel A, button 4.
    A4,
    /// Channel B, button 0.
    B0,
    /// Channel B, button 1.
    B1,
    /// Channel B, button 2.
    B2,
    /// Channel B, button 3.
    B3,
    /// Channel B, button 4.
    B4,
}

impl FeedbackButton {
    /// The button's index: A0..A4 are 0..4, B0..B4 are 5..9.
    pub open spec fn index(self) -> nat {
        match self {
            FeedbackButton::A0 => 0,
            FeedbackButton::A1 => 1,
            FeedbackButton::A2 => 2,
            FeedbackButton::A3 => 3,
            FeedbackButton::A4 => 4,
            FeedbackButton::B0 => 5,
            FeedbackButton::B1 => 6,
            FeedbackButton::B2 => 7,
            FeedbackButton::B3 => 8,
            FeedbackButton::B4 => 9,
        }
    }

    /// The button with index `i`, if there is one.
    pub open spec fn of_index(i: nat) -> Option<FeedbackButton> {
        if i == 0 {
            Some(FeedbackButton::A0)
        } else if i == 1 {
            Some(FeedbackButton::A1)
        } else if i == 2 {
            Some(FeedbackButton::A2)
        } else if i == 3 {
            Some(FeedbackButton::A3)
        } else if i == 4 {
            Some(FeedbackButton::A4)
        } else if i == 5 {
            Some(FeedbackButton::B0)
        } else if i == 6 {
            Some(FeedbackButton::B1)
        } else if i == 7 {
            Some(FeedbackButton::B2)
        } else if i == 8 {
            Some(FeedbackButton::B3)
        } else if i == 9 {
            Some(FeedbackButton::B4)
        } else {
            None
        }
    }

    /// The button written by `message`: `feedback-` and its index.
    pub open spec fn of_message(message: Seq<char>) -> Option<FeedbackButton> {
        if !has_prefix(message, "feedback-"@) {
            None
        } else {
            match u8_text_value(trim_prefixes(message, "feedback-"@)) {
                Some(i) => FeedbackButton::of_index(i as nat),
                None => None,
            }
        }
    }

    /// The button with index `index`, if there is one.
    pub fn from_index(index: u8) -> (r: Option<FeedbackButton>)
        ensures
            r == FeedbackButton::of_index(index as nat),
    {
        match index {
            0 => Some(FeedbackButton::A0),
            1 => Some(FeedbackButton::A1),
            2 => Some(FeedbackButton::A2),
            3 => Some(FeedbackButton::A3),
            4 => Some(FeedbackButton::A4),
            5 => Some(FeedbackButton::B0),
            6 => Some(FeedbackButton::B1),
            7 => Some(FeedbackButton::B2),
            8 => Some(FeedbackButton::B3),
            9 => Some(FeedbackButton::B4),
            _ => None,
        }
    }

    /// Reads a button press from a payload.
    pub fn parse(message: &str) -> (r: Option<FeedbackButton>)
        ensures
            r == FeedbackButton::of_message(message@),
    {
        let cs = chars_of(message);
        proof {
            assert(cs@.subrange(0, cs@.len() as int) =~= cs@);
        }
        if !starts_with_at(&cs, 0, "feedback-") {
            return None;
        }
        let rest = trim_start_all(&cs, "feedback-");
        match parse_u8(&rest) {
            Some(i) => FeedbackButton::from_index(i),
            None => None,
        }
    }
}

/// Error codes the relay reports.
#[derive(Debug, Clone, Copy, PartialEq, Eq, Structural)]
pub enum ErrorCode {
    /// 200
    Success,
    /// 209: the peer disconnected.
    PeerDisconnected,
    /// 210: the scanned code held no valid client id.
    InvalidQrClientId,
    /// 211: the relay did not hand out the peer's id in time.
    NoAppId,
    /// 400: the id is already bound.
    IdAlreadyBound,
    /// 401: the bind target does not exist.
    TargetNotFound,
    /// 402: sender and receiver are not bound.
    NotBound,
    /// 403: the frame was not a JSON object.
    InvalidJson,
    /// 404: the receiver is offline.
    RecipientOffline,
    /// 405: the message was longer than 1950 characters.
    MessageTooLong,
    /// 500: internal relay error.
    ServerError,
    /// Any other code.
    Unknown(u16),
}

/// The error code with number `code`.
pub open spec fn error_code_of(code: u16) -> ErrorCode {
    if code == 200 {
        ErrorCode::Success
    } else if code == 209 {
        ErrorCode::PeerDisconnected
    } else if code == 210 {
        ErrorCode::InvalidQrClientId
    } else if code == 211 {
        ErrorCode::NoAppId
    } else if code == 400 {
        ErrorCode::IdAlreadyBound
    } else if code == 401 {
        ErrorCode::TargetNotFound
    } else if code == 402 {
        ErrorCode::NotBound
    } else if code == 403 {
        ErrorCode::InvalidJson
    } else if code == 404 {
        ErrorCode::RecipientOffline
    } else if code == 405 {
        ErrorCode::MessageTooLong
    } else if code == 500 {
        ErrorCode::ServerError
    } else {
        ErrorCode::Unknown(code)
    }
}

/// The error code written by `message`; `Unknown(0)` when it is not a `u16`.
pub open spec fn error_code_of_text(message: Seq<char>) -> ErrorCode {
    match unsigned_text_value(message) {
        Some(n) => if n <= 65535 {
            error_code_of(n as u16)
        } else {
            ErrorCode::Unknown(0)
        },
        None => ErrorCode::Unknown(0),
    }
}

/// The English description of an error code.
pub open spec fn error_description(c: ErrorCode) -> Seq<char> {
    match c {
        ErrorCode::Success => "success"@,
        ErrorCode::PeerDisconnected => "the peer client disconnected"@,
        ErrorCode::InvalidQrClientId => "the scanned code holds no valid client id"@,
        ErrorCode::NoAppId => "the relay did not hand out the peer id"@,
        ErrorCode::IdAlreadyBound => "this id is already bound to another client"@,
        ErrorCode::TargetNotFound => "the client to bind to does not exist"@,
        ErrorCode::NotBound => "sender and receiver are not bound"@,
        ErrorCode::InvalidJson => "the content sent is not a JSON object"@,
        ErrorCode::RecipientOffline => "the receiver is offline"@,
        ErrorCode::MessageTooLong => "the message is longer than 1950 characters"@,
        ErrorCode::ServerError => "internal relay error"@,
        ErrorCode::Unknown(_) => "unknown error"@,
    }
}

impl ErrorCode {
    /// The error code with number `code`.
    pub fn from_code(code: u16) -> (r: ErrorCode)
        ensures
            r == error_code_of(code),
    {
        match code {
            200 => ErrorCode::Success,
            209 => ErrorCode::PeerDisconnected,
            210 => ErrorCode::InvalidQrClientId,
            211 => ErrorCode::NoAppId,
            400 => ErrorCode::IdAlreadyBound,
            401 => ErrorCode::TargetNotFound,
            402 => ErrorCode::NotBound,
            403 => ErrorCode::InvalidJson,
            404 => ErrorCode::RecipientOffline,
            405 => ErrorCode::MessageTooLong,
            500 => ErrorCode::ServerError,
            _ => ErrorCode::Unknown(code),
        }
    }

    /// Reads an error code from a payload.
    pub fn parse(message: &str) -> (r: ErrorCode)
        ensures
            r == error_code_of_text(message@),
    {
        let cs = chars_of(message);
        match parse_unsigned(&cs, 65535) {
            Some(n) => ErrorCode::from_code(n as u16),
            None => ErrorCode::Unknown(0),
        }
    }

    /// A short English description of the code.
    pub fn description(&self) -> (r: &'static str)
        ensures
            r@ == error_description(*self),
    {
        match self {
            ErrorCode::Success => "success",
            ErrorCode::PeerDisconnected => "the peer client disconnected",
            ErrorCode::InvalidQrClientId => "the scanned code holds no valid client id",
            ErrorCode::NoAppId => "the relay did not hand out the peer id",
            ErrorCode::IdAlreadyBound => "this id is already bound to another client",
            ErrorCode::TargetNotFound => "the client to bind to does not exist",
            ErrorCode::NotBound => "sender and receiver are not bound",
            ErrorCode::InvalidJson => "the content sent is not a JSON object",
            ErrorCode::RecipientOffline => "the receiver is offline",
            ErrorCode::MessageTooLong => "the message is longer than 1950 characters",
            ErrorCode::ServerError => "internal relay error",
            ErrorCode::Unknown(_) => "unknown error",
        }
    }
}

impl From<u16> for ErrorCode {
    fn from(code: u16) -> (r: ErrorCode) {
        ErrorCode::from_code(code)
    }
}

impl vstd::std_specs::convert::FromSpecImpl<u16> for ErrorCode {
    open spec fn obeys_from_spec() -> bool {
        true
    }

    open spec fn from_spec(code: u16) -> ErrorCode {
        error_code_of(code)
    }
}

/// What a received relay frame means to the session.
#[derive(Debug, Clone)]
pub enum WsEvent {
    /// A heartbeat.
    Heartbeat,
    /// The relay assigned this session its client id.
    ClientId(String),
    /// A peer bound; its id.
    Bound(String),
    /// Strength status from the peer.
    Strength(StrengthData),
    /// A button press in the peer application.
    Feedback(FeedbackButton),
    /// The peer left.
    PeerDisconnected,
    /// The relay reported an error.
    Error(ErrorCode),
    /// The relay gave up waiting for a peer to bind.
    BindTimeout,
    /// The channel closed.
    Closed,
    /// Any other frame, unclassified.
    Other(WsMessage),
}

/// Whether `e` holds a copy of the frame `m`.
pub open spec fn holds_frame(e: WsEvent, m: WsMessage) -> bool {
    e matches WsEvent::Other(o) && o.msg_type@ == m.msg_type@ && o.client_id@ == m.client_id@
        && o.target_id@ == m.target_id@ && o.message@ == m.message@
}

/// How a frame of type index `kind` is classified.
pub open spec fn event_spec(kind: nat, msg: WsMessage, e: WsEvent) -> bool {
    if kind == 0 {
        e matches WsEvent::Heartbeat
    } else if kind == 1 {
        if msg.message@ == "200"@ {
            e matches WsEvent::Bound(t) && t@ == msg.target_id@
        } else if msg.message@ == "targetId"@ {
            e matches WsEvent::ClientId(c) && c@ == msg.client_id@
        } else {
            holds_frame(e, msg)
        }
    } else if kind == 2 {
        if strength_data_of(msg.message@) is Some {
            e == WsEvent::Strength(strength_data_of(msg.message@)->0)
        } else if FeedbackButton::of_message(msg.message@) is Some {
            e == WsEvent::Feedback(FeedbackButton::of_message(msg.message@)->0)
        } else {
            holds_frame(e, msg)
        }
    } else if kind == 3 {
        e matches WsEvent::PeerDisconnected
    } else if kind == 4 {
        e == WsEvent::Error(error_code_of_text(msg.message@))
    } else {
        holds_frame(e, msg)
    }
}

impl WsEvent {
    /// Classifies a received frame.
    pub fn from_message(msg: &WsMessage) -> (r: WsEvent)
        ensures
            event_spec(type_index(lower_of(msg.msg_type@)), *msg, r),
    {
        let kind = msg.message_type();
        WsEvent::from_typed(&kind, msg)
    }

    /// Classifies a received frame whose type is already known.
    pub fn from_typed(kind: &MessageType, msg: &WsMessage) -> (r: WsEvent)
        ensures
            event_spec(kind.index(), *msg, r),
    {
        match kind {
            MessageType::Heartbeat => WsEvent::Heartbeat,
            MessageType::Bind => {
                let body = chars_of(msg.message.as_str());
                if eq_text(&body, "200") {
                    WsEvent::Bound(msg.target_id.clone())
                } else if eq_text(&body, "targetId") {
                    WsEvent::ClientId(msg.client_id.clone())
                } else {
                    WsEvent::Other(msg.duplicate())
                }
            },
            MessageType::Msg => {
                if let Some(strength) = StrengthData::parse(msg.message.as_str()) {
                    WsEvent::Strength(strength)
                } else if let Some(button) = FeedbackButton::parse(msg.message.as_str()) {
                    WsEvent::Feedback(button)
                } else {
                    WsEvent::Other(msg.duplicate())
                }
            },
            MessageType::Break => WsEvent::PeerDisconnected,
            MessageType::Error => WsEvent::Error(ErrorCode::parse(msg.message.as_str())),
            MessageType::Unknown(_) => WsEvent::Other(msg.duplicate()),
        }
    }
}

/// `strength-` followed by text that starts with a digit: the prefix is
/// recognised and removed once.
proof fn lemma_strength_prefix(rest: Seq<char>)
    requires
        rest.len() > 0,
        crate::text::dec_value(rest[0]) is Some,
    ensures
        has_prefix("strength-"@ + rest, "strength-"@),
        trim_prefixes("strength-"@ + rest, "strength-"@) == rest,
{
    reveal_strlit("strength-");
    let p = "strength-"@;
    assert(("strength-"@ + rest).subrange(0, p.len() as int) =~= p);
    lemma_trim_once(p, rest);
}

/// A strength operation's payload reads back as that operation.
pub proof fn lemma_strength_op_round_trip(op: StrengthOperation)
    ensures
        strength_op_of(strength_op_text(op)) == Some(op),
{
    let c = dec_text(op.channel.number());
    let m = dec_text(op.mode.code());
    let v = dec_text(op.value as nat);
    lemma_dec_text(op.channel.number());
    lemma_dec_text(op.mode.code());
    lemma_dec_text(op.value as nat);
    lemma_digits_no_plus(c);
    lemma_digits_no_plus(m);
    lemma_digits_no_plus(v);
    let rest = c + seq!['+'] + m + seq!['+'] + v;
    assert(strength_op_text(op) =~= "strength-"@ + rest);
    assert(rest[0] == c[0]);
    lemma_strength_prefix(rest);
    lemma_split_single(c, '+');
    lemma_split_append_piece(c, m, '+');
    lemma_split_append_piece(c + seq!['+'] + m, v, '+');
    let f = strength_fields(strength_op_text(op));
    assert(f =~= seq![c, m, v]);
    assert(dec_text(1) =~= seq!['1']);
    assert(dec_text(2) =~= seq!['2']);
}

/// A status payload reads back as that status.
pub proof fn lemma_strength_data_round_trip(d: StrengthData)
    ensures
        strength_data_of(strength_data_text(d)) == Some(d),
{
    let a = dec_text(d.strength_a as nat);
    let b = dec_text(d.strength_b as nat);
    let x = dec_text(d.max_a as nat);
    let y = dec_text(d.max_b as nat);
    lemma_dec_text(d.strength_a as nat);
    lemma_dec_text(d.strength_b as nat);
    lemma_dec_text(d.max_a as nat);
    lemma_dec_text(d.max_b as nat);
    lemma_digits_no_plus(a);
    lemma_digits_no_plus(b);
    lemma_digits_no_plus(x);
    lemma_digits_no_plus(y);
    let rest = a + seq!['+'] + b + seq!['+'] + x + seq!['+'] + y;
    assert(strength_data_text(d) =~= "strength-"@ + rest);
    assert(rest[0] == a[0]);
    lemma_strength_prefix(rest);
    lemma_split_single(a, '+');
    lemma_split_append_piece(a, b, '+');
    lemma_split_append_piece(a + seq!['+'] + b, x, '+');
    lemma_split_append_piece(a + seq!['+'] + b + seq!['+'] + x, y, '+');
    let f = strength_fields(strength_data_text(d));
    assert(f =~= seq![a, b, x, y]);
}

/// A clear payload reads back as clearing the same channel.
pub proof fn lemma_clear_round_trip(c: Channel)
    ensures
        clear_of("clear-"@ + dec_text(c.number())) == Some(c),
{
    reveal_strlit("clear-");
    let p = "clear-"@;
    let rest = dec_text(c.number());
    assert(dec_text(1) =~= seq!['1']);
    assert(dec_text(2) =~= seq!['2']);
    assert((p + rest).subrange(0, p.len() as int) =~= p);
    lemma_trim_once(p, rest);
}

/// A list of items of at most 16 characters takes at most 19 characters
/// per item once quoted and joined.
pub proof fn lemma_quoted_list_len(items: Seq<Seq<char>>)
    requires
        forall|i: int| 0 <= i < items.len() ==> (#[trigger] items[i]).len() <= 16,
    ensures
        quoted_list(items).len() <= 19 * items.len(),
    decreases items.len(),
{
    if items.len() > 1 {
        let p = items.drop_last();
        assert forall|i: int| 0 <= i < p.len() implies (#[trigger] p[i]).len() <= 16 by {
            assert(p[i] == items[i]);
        }
        lemma_quoted_list_len(p);
        assert(items.last() == items[items.len() - 1]);
    } else if items.len() == 1 {
        assert(items[0].len() <= 16);
    }
}

/// The frame of `PulseData::from_strength` is sixteen characters long.
pub proof fn lemma_simple_pulse_len(strength_a: u8, strength_b: u8)
    ensures
        simple_pulse_text(strength_a, strength_b).len() == 16,
{
    reveal_strlit("0101");
}

/// A push of at most 100 frames of at most 16 characters fits in a relay message.
pub proof fn lemma_pulse_text_fits(c: Channel, items: Seq<Seq<char>>)
    requires
        items.len() <= 100,
        forall|i: int| 0 <= i < items.len() ==> (#[trigger] items[i]).len() <= 16,
    ensures
        pulse_text(c, items).len() <= 1950,
{
    reveal_strlit("pulse-");
    lemma_quoted_list_len(items);
}

/// The binding URL for a client id on a relay.
pub open spec fn binding_url(server_url: Seq<char>, client_id: Seq<char>) -> Seq<char> {
    "https://www.dungeon-lab.com/app-download.php#DGLAB-SOCKET#"@ + server_url + seq!['/']
        + client_id
}

/// The binding URL a peer scans to bind to `client_id` on `server_url`.
pub fn generate_url(server_url: &str, client_id: &str) -> (r: String)
    ensures
        r@ == binding_url(server_url@, client_id@),
{
    let mut out: Vec<char> = Vec::new();
    append_str(&mut out, "https://www.dungeon-lab.com/app-download.php#DGLAB-SOCKET#");
    append_str(&mut out, server_url);
    out.push('/');
    append_str(&mut out, client_id);
    let r = string_of(&out);
    assert(r@ =~= binding_url(server_url@, client_id@));
    r
}

/// The binding URL for `client_id` on the public relay.
pub fn generate_official_url(client_id: &str) -> (r: String)
    ensures
        r@ == binding_url(OFFICIAL_SERVER@, client_id@),
{
    generate_url(OFFICIAL_SERVER, client_id)
}

} // verus!
