//! The state of one relay session: the id the relay assigned, the peer it
//! bound to, and the frames the session sends.
use vstd::prelude::*;

use crate::relay::{
    binding_url, generate_url, pulse_text, texts, Channel, ClearOperation, ErrorCode, MessageType,
    PulseData, StrengthOperation, WsEvent, WsMessage, MAX_MESSAGE_LEN,
};
use crate::text::chars_of;

verus! {

/// Errors of the relay channel.
#[derive(Debug, Clone, PartialEq, Eq)]
pub enum WsError {
    /// Connecting failed.
    Connection(String),
    /// The relay broke the protocol, or a frame would.
    Protocol(String),
    /// A frame was not valid JSON.
    Json(String),
    /// The relay address is not a URL.
    Url(String),
    /// The socket failed.
    WebSocket(String),
    /// Sending failed.
    Send(String),
    /// Receiving failed.
    Receive(String),
    /// The relay has not assigned an id yet.
    NotConnected,
    /// Already connected.
    AlreadyConnected,
    /// No peer is bound.
    NotBound,
    /// Timed out.
    Timeout,
    /// A frame could not be understood.
    InvalidMessage(String),
    /// Anything else.
    Other(String),
}

/// What the session knows about itself.
#[derive(Debug, Clone, PartialEq, Eq)]
pub struct ClientState {
    /// The id the relay assigned to this session.
    pub client_id: Option<String>,
    /// The id of the bound peer.
    pub target_id: Option<String>,
    /// Whether the channel is open.
    pub connected: bool,
}

/// The text of an optional id, empty when absent.
pub open spec fn id_text(id: Option<String>) -> Seq<char> {
    match id {
        Some(s) => s@,
        None => Seq::empty(),
    }
}

/// How waiting for a peer ended.
#[derive(Debug, Clone, PartialEq, Eq)]
pub enum BindOutcome {
    /// A peer bound; its id.
    Bound(String),
    /// The relay reported an error.
    RelayError(ErrorCode),
    /// The relay gave up waiting for a peer.
    BindTimeout,
    /// The channel closed.
    Closed,
    /// The caller's own time limit passed.
    TimedOut,
}

impl Default for ClientState {
    fn default() -> (r: ClientState)
        ensures
            r.client_id is None,
            r.target_id is None,
            !r.connected,
    {
        ClientState { client_id: None, target_id: None, connected: false }
    }
}

impl ClientState {
    /// A freshly opened session: no ids yet.
    pub fn opened() -> (r: ClientState)
        ensures
            r.client_id is None,
            r.target_id is None,
            r.connected,
    {
        ClientState { client_id: None, target_id: None, connected: true }
    }

    /// Takes in what a received event says: the assigned id, the bound
    /// peer, or the closing of the channel; other events change nothing.
    pub fn apply_event(&mut self, event: &WsEvent)
        ensures
            event matches WsEvent::ClientId(id) ==> (final(self).client_id matches Some(c) && c@
                == id@) && final(self).target_id == old(self).target_id && final(self).connected
                == old(self).connected,
            event matches WsEvent::Bound(t) ==> (final(self).target_id matches Some(p) && p@
                == t@) && final(self).client_id == old(self).client_id && final(self).connected
                == old(self).connected,
            event matches WsEvent::Closed ==> !final(self).connected && final(self).client_id
                == old(self).client_id && final(self).target_id == old(self).target_id,
            !(event is ClientId || event is Bound || event is Closed) ==> *final(self) == *old(self),
    {
        match event {
            WsEvent::ClientId(id) => {
                self.client_id = Some(id.clone());
            },
            WsEvent::Bound(t) => {
                self.target_id = Some(t.clone());
            },
            WsEvent::Closed => {
                self.connected = false;
            },
            _ => {},
        }
    }

    /// Whether a peer is bound.
    pub fn is_bound(&self) -> (r: bool)
        ensures
            r == self.target_id is Some,
    {
        self.target_id.is_some()
    }

    /// The binding URL on `server_url`, once the relay assigned an id.
    pub fn qr_url(&self, server_url: &str) -> (r: Option<String>)
        ensures
            self.client_id is None ==> r is None,
            self.client_id matches Some(c) ==> (r matches Some(u) && u@ == binding_url(
                server_url@,
                c@,
            )),
    {
        match &self.client_id {
            Some(c) => Some(generate_url(server_url, c.as_str())),
            None => None,
        }
    }

    /// The heartbeat frame: both ids (empty when unknown) and `200`.
    pub fn heartbeat_message(&self) -> (r: WsMessage)
        ensures
            r.msg_type@ == "heartbeat"@,
            r.client_id@ == id_text(self.client_id),
            r.target_id@ == id_text(self.target_id),
            r.message@ == "200"@,
    {
        let client_id = match &self.client_id {
            Some(c) => c.clone(),
            None => String::new(),
        };
        let target_id = match &self.target_id {
            Some(t) => t.clone(),
            None => String::new(),
        };
        WsMessage::new(MessageType::Heartbeat, client_id, target_id, "200".to_string())
    }

    /// A payload frame to the bound peer; refused before the relay assigned
    /// an id, and before a peer bound.
    pub fn outgoing(&self, message: String) -> (r: Result<WsMessage, WsError>)
        ensures
            self.client_id is None ==> r == Err::<WsMessage, WsError>(WsError::NotConnected),
            self.client_id is Some && self.target_id is None ==> r == Err::<WsMessage, WsError>(
                WsError::NotBound,
            ),
            self.client_id is Some && self.target_id is Some ==> (r matches Ok(m) && m.msg_type@
                == "msg"@ && m.client_id@ == id_text(self.client_id) && m.target_id@ == id_text(
                self.target_id,
            ) && m.message@ == message@),
    {
        let client_id = match &self.client_id {
            Some(c) => c.clone(),
            None => {
                return Err(WsError::NotConnected);
            },
        };
        let target_id = match &self.target_id {
            Some(t) => t.clone(),
            None => {
                return Err(WsError::NotBound);
            },
        };
        Ok(WsMessage::new(MessageType::Msg, client_id, target_id, message))
    }

    /// The frame carrying a strength operation to the peer.
    pub fn strength_message(&self, op: &StrengthOperation) -> (r: Result<WsMessage, WsError>)
        ensures
            self.client_id is None ==> r == Err::<WsMessage, WsError>(WsError::NotConnected),
            self.client_id is Some && self.target_id is None ==> r == Err::<WsMessage, WsError>(
                WsError::NotBound,
            ),
            self.client_id is Some && self.target_id is Some ==> (r matches Ok(m) && m.msg_type@
                == "msg"@ && m.message@ == crate::relay::strength_op_text(*op)),
    {
        self.outgoing(op.to_message())
    }

    /// The frame carrying a waveform push to the peer; refused when the
    /// payload is longer than the relay forwards.
    pub fn pulse_message(&self, pulse: &PulseData) -> (r: Result<WsMessage, WsError>)
        ensures
            self.client_id is None ==> r == Err::<WsMessage, WsError>(WsError::NotConnected),
            self.client_id is Some && self.target_id is None ==> r == Err::<WsMessage, WsError>(
                WsError::NotBound,
            ),
            self.client_id is Some && self.target_id is Some && pulse_text(
                pulse.channel,
                texts(pulse.pulses@),
            ).len() > 1950 ==> (r matches Err(WsError::Protocol(_))),
            self.client_id is Some && self.target_id is Some && pulse_text(
                pulse.channel,
                texts(pulse.pulses@),
            ).len() <= 1950 ==> (r matches Ok(m) && m.message@ == pulse_text(
                pulse.channel,
                texts(pulse.pulses@),
            )),
    {
        if self.client_id.is_none() {
            return Err(WsError::NotConnected);
        }
        if self.target_id.is_none() {
            return Err(WsError::NotBound);
        }
        let message = pulse.to_message();
        let n = chars_of(message.as_str()).len();
        if n > MAX_MESSAGE_LEN {
            return Err(WsError::Protocol("Message too long".to_string()));
        }
        self.outgoing(message)
    }

    /// The frame clearing a channel's queue on the peer.
    pub fn clear_message(&self, channel: Channel) -> (r: Result<WsMessage, WsError>)
        ensures
            self.client_id is None ==> r == Err::<WsMessage, WsError>(WsError::NotConnected),
            self.client_id is Some && self.target_id is None ==> r == Err::<WsMessage, WsError>(
                WsError::NotBound,
            ),
            self.client_id is Some && self.target_id is Some ==> (r matches Ok(m)
                && m.message@ == "clear-"@ + crate::text::dec_text(channel.number())),
    {
        let op = ClearOperation::new(channel);
        self.outgoing(op.to_message())
    }

    /// One round of waiting for a peer to bind, after `elapsed_ms` of
    /// `timeout_ms`, with the event received this round (if any).
    ///
    /// A bound session ends the wait first; then the caller's time limit;
    /// then the event: a bind, a relay error, the relay's own bind timeout
    /// and the closing of the channel each end it differently. Any other
    /// event, or none, means waiting on (`None`).
    pub fn bind_wait_step(&self, event: Option<&WsEvent>, elapsed_ms: u64, timeout_ms: u64) -> (r:
        Option<BindOutcome>)
        ensures
            self.target_id matches Some(t) ==> (r matches Some(BindOutcome::Bound(p)) && p@ == t@),
            self.target_id is None && elapsed_ms > timeout_ms ==> r == Some(BindOutcome::TimedOut),
            self.target_id is None && elapsed_ms <= timeout_ms ==> match event {
                Some(WsEvent::Bound(t)) => r matches Some(BindOutcome::Bound(p)) && p@ == t@,
                Some(WsEvent::Error(c)) => r == Some(BindOutcome::RelayError(*c)),
                Some(WsEvent::BindTimeout) => r == Some(BindOutcome::BindTimeout),
                Some(WsEvent::Closed) => r == Some(BindOutcome::Closed),
                _ => r is None,
            },
    {
        if let Some(t) = &self.target_id {
            return Some(BindOutcome::Bound(t.clone()));
        }
        if elapsed_ms > timeout_ms {
            return Some(BindOutcome::TimedOut);
        }
        match event {
            Some(WsEvent::Bound(t)) => Some(BindOutcome::Bound(t.clone())),
            Some(WsEvent::Error(c)) => Some(BindOutcome::RelayError(*c)),
            Some(WsEvent::BindTimeout) => Some(BindOutcome::BindTimeout),
            Some(WsEvent::Closed) => Some(BindOutcome::Closed),
            _ => None,
        }
    }
}

} // verus!
