//! The relay itself: it registers clients by id, binds them to peers, and
//! routes payload frames between them.
//!
//! Sockets and JSON stay with the caller, which hands each decoded frame to
//! the hub and performs the replies and forwards the hub decides on.
use vstd::prelude::*;

use crate::relay::{type_index, MessageType, WsMessage};
use crate::session::WsError;
use crate::text::{chars_of, eq_text, lower_of};

verus! {

/// Something that happened on the relay.
#[derive(Debug, Clone, PartialEq, Eq)]
pub enum ServerEvent {
    /// A client registered.
    ClientConnected(String),
    /// A client left.
    ClientDisconnected(String),
    /// A client bound to a peer.
    ClientBound {
        /// The client.
        client_id: String,
        /// Its peer.
        target_id: String,
    },
    /// A payload was routed.
    MessageReceived {
        /// Sender.
        from: String,
        /// Receiver.
        to: String,
        /// Payload.
        message: String,
    },
}

/// What the relay does with one received frame.
#[derive(Debug, Clone)]
pub struct HubAction {
    /// A frame sent back to the sender.
    pub reply: Option<WsMessage>,
    /// The registered client the received frame is forwarded to, verbatim.
    pub forward_to: Option<String>,
    /// What observers of the relay are told.
    pub event: Option<ServerEvent>,
}

/// The clients registered on the relay.
pub struct RelayHub {
    ids: Vec<String>,
    targets: Vec<Option<String>>,
}

/// The text of an optional id, as an optional sequence.
pub open spec fn opt_text(t: Option<String>) -> Option<Seq<char>> {
    match t {
        Some(s) => Some(s@),
        None => None,
    }
}

/// Whether `s` holds no id twice.
pub open spec fn distinct_ids(s: Seq<(Seq<char>, Option<Seq<char>>)>) -> bool {
    forall|i: int, j: int| 0 <= i < j < s.len() ==> #[trigger] s[i].0 != #[trigger] s[j].0
}

/// Whether `id` is registered in `s`.
pub open spec fn registered(s: Seq<(Seq<char>, Option<Seq<char>>)>, id: Seq<char>) -> bool {
    exists|i: int| 0 <= i < s.len() && #[trigger] s[i].0 == id
}

impl View for RelayHub {
    type V = Seq<(Seq<char>, Option<Seq<char>>)>;

    /// Each registered client's id and bound peer, in order of registration.
    closed spec fn view(&self) -> Seq<(Seq<char>, Option<Seq<char>>)> {
        Seq::new(self.ids@.len(), |i: int| (self.ids@[i]@, opt_text(self.targets@[i])))
    }
}

impl RelayHub {
    /// Whether the two tables line up and no id is registered twice.
    pub closed spec fn wf(&self) -> bool {
        self.ids@.len() == self.targets@.len() && distinct_ids(self@)
    }

    /// A relay with no clients.
    pub fn new() -> (r: RelayHub)
        ensures
            r.wf(),
            r@ == Seq::<(Seq<char>, Option<Seq<char>>)>::empty(),
    {
        let r = RelayHub { ids: Vec::new(), targets: Vec::new() };
        assert(r@ =~= Seq::<(Seq<char>, Option<Seq<char>>)>::empty());
        r
    }

    /// The position of `id` among the registered clients.
    fn position(&self, id: &String) -> (r: Option<usize>)
        requires
            self.wf(),
        ensures
            r is None <==> !registered(self@, id@),
            r matches Some(k) ==> k < self@.len() && self@[k as int].0 == id@,
    {
        let mut i: usize = 0;
        while i < self.ids.len()
            invariant
                self.wf(),
                i <= self.ids@.len(),
                forall|j: int| 0 <= j < i ==> self@[j].0 != id@,
            decreases self.ids.len() - i,
        {
            assert(self@[i as int].0 == self.ids@[i as int]@);
            if self.ids[i] == *id {
                return Some(i);
            }
            i = i + 1;
        }
        None
    }

    /// Registers a client under the id it announced (already trimmed).
    ///
    /// An empty id is refused with an `error` frame carrying `210`; an id
    /// already registered with one carrying `400`. Otherwise the client is
    /// registered unbound and is sent the `bind` frame asking for `targetId`.
    pub fn register(&mut self, id: String) -> (r: Result<(WsMessage, ServerEvent), (WsMessage, WsError)>)
        requires
            old(self).wf(),
        ensures
            final(self).wf(),
            id@.len() == 0 ==> final(self)@ == old(self)@ && (r matches Err((m, e)) && m.msg_type@
                == "error"@ && m.message@ == "210"@ && e is InvalidMessage),
            id@.len() > 0 && registered(old(self)@, id@) ==> final(self)@ == old(self)@ && (r matches Err((m, e))
                && m.msg_type@ == "error"@ && m.client_id@ == id@ && m.message@ == "400"@ && e is Other),
            id@.len() > 0 && !registered(old(self)@, id@) ==> final(self)@ == old(self)@.push((id@, None))
                && (r matches Ok((m, ev)) && m.msg_type@ == "bind"@ && m.message@ == "targetId"@
                && (ev matches ServerEvent::ClientConnected(c) && c@ == id@)),
    {
        let empty = chars_of(id.as_str()).len() == 0;
        if empty {
            let m = WsMessage::new(MessageType::Error, String::new(), String::new(), "210".to_string());
            return Err((m, WsError::InvalidMessage("Invalid client ID".to_string())));
        }
        if self.position(&id).is_some() {
            let m = WsMessage::new(MessageType::Error, id.clone(), String::new(), "400".to_string());
            return Err((m, WsError::Other("ID already bound".to_string())));
        }
        let ghost before = self@;
        self.ids.push(id.clone());
        self.targets.push(None);
        proof {
            assert(self@ =~= before.push((id@, None)));
            assert forall|i: int, j: int| 0 <= i < j < self@.len() implies #[trigger] self@[i].0
                != #[trigger] self@[j].0 by {
                if j < before.len() {
                    assert(before[i].0 != before[j].0);
                } else {
                    assert(self@[i] == before[i]);
                }
            }
        }
        let m = WsMessage::new(MessageType::Bind, String::new(), String::new(), "targetId".to_string());
        Ok((m, ServerEvent::ClientConnected(id)))
    }

    /// Removes a client that left; an unknown id changes nothing.
    pub fn unregister(&mut self, id: &String) -> (r: ServerEvent)
        requires
            old(self).wf(),
        ensures
            final(self).wf(),
            !registered(old(self)@, id@) ==> final(self)@ == old(self)@,
            registered(old(self)@, id@) ==> exists|k: int| 0 <= k < old(self)@.len() && old(self)@[k].0 == id@
                && final(self)@ == old(self)@.remove(k),
            r matches ServerEvent::ClientDisconnected(c) && c@ == id@,
    {
        match self.position(id) {
            Some(k) => {
                let ghost before = self@;
                self.ids.remove(k);
                self.targets.remove(k);
                proof {
                    assert(self@ =~= before.remove(k as int));
                    assert forall|i: int, j: int| 0 <= i < j < self@.len() implies #[trigger] self@[i].0
                        != #[trigger] self@[j].0 by {
                        let a = if i < k { i } else { i + 1 };
                        let b = if j < k { j } else { j + 1 };
                        assert(self@[i] == before[a]);
                        assert(self@[j] == before[b]);
                        assert(before[a].0 != before[b].0);
                    }
                }
            },
            None => {},
        }
        ServerEvent::ClientDisconnected(id.clone())
    }

    /// Decides what to do with a frame from `client_id`, whose type the
    /// relay reads case-insensitively:
    /// - `bind` with `DGLAB`: the sender is bound to `targetId` and is
    ///   answered with a `bind` frame carrying `200`;
    /// - `heartbeat`: answered with a `heartbeat` frame carrying `DGLAB`;
    /// - `msg` to a registered client: forwarded to it verbatim;
    /// - anything else, a `msg` without a target or to an unknown one included: nothing.
    pub fn handle_message(&mut self, client_id: &String, msg: &WsMessage) -> (r: HubAction)
        requires
            old(self).wf(),
        ensures
            final(self).wf(),
            handled(old(self)@, client_id@, type_index(lower_of(msg.msg_type@)), *msg, final(self)@, r),
    {
        let kind = msg.message_type();
        self.handle_typed(client_id, &kind, msg)
    }

    /// Decides what to do with a frame from `client_id` of a known type.
    pub fn handle_typed(&mut self, client_id: &String, kind: &MessageType, msg: &WsMessage) -> (r:
        HubAction)
        requires
            old(self).wf(),
        ensures
            final(self).wf(),
            handled(old(self)@, client_id@, kind.index(), *msg, final(self)@, r),
    {
        let none = HubAction { reply: None, forward_to: None, event: None };
        match kind {
            MessageType::Bind => {
                if !eq_text(&chars_of(msg.message.as_str()), "DGLAB") {
                    return none;
                }
                if let Some(k) = self.position(client_id) {
                    let ghost before = self@;
                    self.targets.set(k, Some(msg.target_id.clone()));
                    proof {
                        assert(self@ =~= before.update(k as int, (client_id@, Some(msg.target_id@))));
                        assert forall|i: int, j: int| 0 <= i < j < self@.len() implies #[trigger] self@[i].0
                            != #[trigger] self@[j].0 by {
                            assert(before[i].0 != before[j].0);
                        }
                    }
                }
                let reply = WsMessage::new(MessageType::Bind, String::new(), String::new(), "200".to_string());
                HubAction {
                    reply: Some(reply),
                    forward_to: None,
                    event: Some(
                        ServerEvent::ClientBound {
                            client_id: client_id.clone(),
                            target_id: msg.target_id.clone(),
                        },
                    ),
                }
            },
            MessageType::Heartbeat => {
                let reply = WsMessage::new(
                    MessageType::Heartbeat,
                    String::new(),
                    String::new(),
                    "DGLAB".to_string(),
                );
                HubAction { reply: Some(reply), forward_to: None, event: None }
            },
            MessageType::Msg => {
                if chars_of(msg.target_id.as_str()).len() == 0 {
                    return none;
                }
                match self.position(&msg.target_id) {
                    Some(_) => HubAction {
                        reply: None,
                        forward_to: Some(msg.target_id.clone()),
                        event: Some(
                            ServerEvent::MessageReceived {
                                from: client_id.clone(),
                                to: msg.target_id.clone(),
                                message: msg.message.clone(),
                            },
                        ),
                    },
                    None => none,
                }
            },
            _ => none,
        }
    }
}

/// Whether `after` and `r` are what the relay does, from `before`, with a
/// frame `msg` of type index `kind` from `client`.
pub open spec fn handled(
    before: Seq<(Seq<char>, Option<Seq<char>>)>,
    client: Seq<char>,
    kind: nat,
    msg: WsMessage,
    after: Seq<(Seq<char>, Option<Seq<char>>)>,
    r: HubAction,
) -> bool {
    if kind == 1 && msg.message@ == "DGLAB"@ {
        &&& (forall|i: int| 0 <= i < before.len() && before[i].0 != client ==> after[i] == before[i])
        &&& (forall|i: int| 0 <= i < before.len() && before[i].0 == client ==> after[i] == (client, Some(msg.target_id@)))
        &&& after.len() == before.len()
        &&& (r.reply matches Some(m) && m.msg_type@ == "bind"@ && m.message@ == "200"@)
        &&& r.forward_to is None
        &&& (r.event matches Some(ServerEvent::ClientBound { client_id, target_id })
            && client_id@ == client && target_id@ == msg.target_id@)
    } else if kind == 0 {
        &&& after == before
        &&& (r.reply matches Some(m) && m.msg_type@ == "heartbeat"@ && m.message@ == "DGLAB"@)
        &&& r.forward_to is None
        &&& r.event is None
    } else if kind == 2 && msg.target_id@.len() > 0 && registered(before, msg.target_id@) {
        &&& after == before
        &&& r.reply is None
        &&& (r.forward_to matches Some(t) && t@ == msg.target_id@)
        &&& (r.event matches Some(ServerEvent::MessageReceived { from, to, message })
            && from@ == client && to@ == msg.target_id@ && message@ == msg.message@)
    } else {
        &&& after == before
        &&& r.reply is None
        &&& r.forward_to is None
        &&& r.event is None
    }
}

/// Whether `c` has the Unicode White_Space property, the set `str::trim` removes.
pub open spec fn is_white_space(c: char) -> bool {
    ('\u{9}' <= c && c <= '\u{d}') || c == ' ' || c == '\u{85}' || c == '\u{a0}' || c
        == '\u{1680}' || ('\u{2000}' <= c && c <= '\u{200a}') || c == '\u{2028}' || c
        == '\u{2029}' || c == '\u{202f}' || c == '\u{205f}' || c == '\u{3000}'
}

/// `s` without leading white space.
pub open spec fn trim_ws_start(s: Seq<char>) -> Seq<char>
    decreases s.len(),
{
    if s.len() > 0 && is_white_space(s[0]) {
        trim_ws_start(s.drop_first())
    } else {
        s
    }
}

/// `s` without trailing white space.
pub open spec fn trim_ws_end(s: Seq<char>) -> Seq<char>
    decreases s.len(),
{
    if s.len() > 0 && is_white_space(s.last()) {
        trim_ws_end(s.drop_last())
    } else {
        s
    }
}

/// `s` without leading or trailing white space.
pub open spec fn trim_ws(s: Seq<char>) -> Seq<char> {
    trim_ws_end(trim_ws_start(s))
}

/// Relies on `str::trim`: leading and trailing White_Space characters are removed.
#[verifier::external_body]
fn trim_text(s: &str) -> (r: String)
    ensures
        r@ == trim_ws(s@),
{
    s.trim().to_string()
}

impl RelayHub {
    /// Registers a client from the first text it sent: the id is that text
    /// with surrounding whitespace removed.
    pub fn register_announced(&mut self, first_text: &str) -> (r: Result<(WsMessage, ServerEvent), (WsMessage, WsError)>)
        requires
            old(self).wf(),
        ensures
            final(self).wf(),
            trim_ws(first_text@).len() == 0 ==> final(self)@ == old(self)@ && (r matches Err(
                (m, e),
            ) && m.msg_type@ == "error"@ && m.message@ == "210"@ && e is InvalidMessage),
            trim_ws(first_text@).len() > 0 && registered(old(self)@, trim_ws(first_text@))
                ==> final(self)@ == old(self)@ && (r matches Err((m, e)) && m.msg_type@ == "error"@
                && m.client_id@ == trim_ws(first_text@) && m.message@ == "400"@ && e is Other),
            trim_ws(first_text@).len() > 0 && !registered(old(self)@, trim_ws(first_text@))
                ==> final(self)@ == old(self)@.push((trim_ws(first_text@), None)) && (r matches Ok(
                (m, ev),
            ) && m.msg_type@ == "bind"@ && m.message@ == "targetId"@ && (ev matches ServerEvent::ClientConnected(
                c,
            ) && c@ == trim_ws(first_text@))),
    {
        let id = trim_text(first_text);
        self.register(id)
    }

    /// The peer `id` is bound to, if it is registered and bound.
    pub fn target_of(&self, id: &String) -> (r: Option<String>)
        requires
            self.wf(),
        ensures
            !registered(self@, id@) ==> r is None,
            registered(self@, id@) ==> exists|k: int| 0 <= k < self@.len() && self@[k].0 == id@
                && opt_text(r) == self@[k].1,
    {
        match self.position(id) {
            Some(k) => {
                assert(self@[k as int].1 == opt_text(self.targets@[k as int]));
                match &self.targets[k] {
                    Some(t) => Some(t.clone()),
                    None => None,
                }
            },
            None => None,
        }
    }
}

} // verus!
