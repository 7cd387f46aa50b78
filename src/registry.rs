//! The registry of live devices, by id.
//!
//! It holds one shared handle per device and never a device's own lock:
//! callers look a handle up, then lock the device themselves.
use vstd::prelude::*;

use crate::device::{CoreError, DeviceEvent, DeviceState};

verus! {

/// Something that happened in the registry.
#[derive(Debug, Clone, PartialEq, Eq)]
pub enum SessionEvent {
    /// A device was added.
    DeviceAdded(String),
    /// A device was removed.
    DeviceRemoved(String),
    /// A registered device changed state.
    DeviceStateChanged(String, DeviceState),
    /// A failure, described.
    Error(String),
}

/// Device handles of type `H`, each under a distinct id.
pub struct DeviceRegistry<H> {
    ids: Vec<String>,
    handles: Vec<H>,
}

/// Whether `s` holds no id twice.
pub open spec fn unique_ids(s: Seq<Seq<char>>) -> bool {
    forall|i: int, j: int| 0 <= i < j < s.len() ==> #[trigger] s[i] != #[trigger] s[j]
}

impl<H> DeviceRegistry<H> {
    /// The registered ids, in order of addition.
    pub closed spec fn ids_view(&self) -> Seq<Seq<char>> {
        Seq::new(self.ids@.len(), |i: int| self.ids@[i]@)
    }

    /// The handles, position for position with `ids_view`.
    pub closed spec fn handles_view(&self) -> Seq<H> {
        self.handles@
    }

    /// Whether the tables line up and no id is registered twice.
    pub closed spec fn wf(&self) -> bool {
        self.ids@.len() == self.handles@.len() && unique_ids(self.ids_view())
    }

    /// An empty registry.
    pub fn new() -> (r: DeviceRegistry<H>)
        ensures
            r.wf(),
            r.ids_view() == Seq::<Seq<char>>::empty(),
    {
        let r = DeviceRegistry { ids: Vec::new(), handles: Vec::new() };
        assert(r.ids_view() =~= Seq::<Seq<char>>::empty());
        r
    }

    fn position(&self, id: &str) -> (r: Option<usize>)
        requires
            self.wf(),
        ensures
            r is None <==> !self.ids_view().contains(id@),
            r matches Some(k) ==> k < self.ids_view().len() && self.ids_view()[k as int] == id@,
    {
        let target = crate::text::chars_of(id);
        let mut i: usize = 0;
        while i < self.ids.len()
            invariant
                self.wf(),
                target@ == id@,
                i <= self.ids@.len(),
                forall|j: int| 0 <= j < i ==> self.ids_view()[j] != id@,
            decreases self.ids.len() - i,
        {
            assert(self.ids_view()[i as int] == self.ids@[i as int]@);
            let here = crate::text::chars_of(self.ids[i].as_str());
            if crate::text::eq_chars(&here, &target) {
                return Some(i);
            }
            i = i + 1;
        }
        None
    }

    /// Adds a device under `id`; refused when the id is taken.
    pub fn add(&mut self, id: String, handle: H) -> (r: Result<SessionEvent, CoreError>)
        requires
            old(self).wf(),
        ensures
            final(self).wf(),
            old(self).ids_view().contains(id@) ==> (r matches Err(CoreError::DeviceAlreadyExists(
                e,
            )) && e@ == id@) && final(self).ids_view() == old(self).ids_view()
                && final(self).handles_view() == old(self).handles_view(),
            !old(self).ids_view().contains(id@) ==> (r matches Ok(SessionEvent::DeviceAdded(e))
                && e@ == id@) && final(self).ids_view() == old(self).ids_view().push(id@)
                && final(self).handles_view() == old(self).handles_view().push(handle),
    {
        if self.position(id.as_str()).is_some() {
            return Err(CoreError::DeviceAlreadyExists(id));
        }
        let ghost before = self.ids_view();
        self.ids.push(id.clone());
        self.handles.push(handle);
        proof {
            assert(self.ids_view() =~= before.push(id@));
            assert forall|i: int, j: int|
                0 <= i < j < self.ids_view().len() implies #[trigger] self.ids_view()[i]
                != #[trigger] self.ids_view()[j] by {
                if j < before.len() {
                    assert(before[i] != before[j]);
                } else {
                    assert(before[i] == self.ids_view()[i]);
                }
            }
        }
        Ok(SessionEvent::DeviceAdded(id))
    }

    /// Removes the device under `id`, handing its handle back so the caller
    /// can disconnect it; an unknown id removes nothing.
    pub fn remove(&mut self, id: &str) -> (r: (Option<H>, SessionEvent))
        requires
            old(self).wf(),
        ensures
            final(self).wf(),
            r.1 matches SessionEvent::DeviceRemoved(e) && e@ == id@,
            !old(self).ids_view().contains(id@) ==> r.0 is None && final(self).ids_view() == old(self).ids_view() && final(self).handles_view() == old(self).handles_view(),
            old(self).ids_view().contains(id@) ==> exists|k: int|
                0 <= k < old(self).ids_view().len() && old(self).ids_view()[k] == id@ && r.0
                    == Some(old(self).handles_view()[k]) && final(self).ids_view() == old(self).ids_view().remove(k) && final(self).handles_view() == old(self).handles_view().remove(k),
    {
        let ev = SessionEvent::DeviceRemoved(id.to_string());
        match self.position(id) {
            Some(k) => {
                let ghost before = self.ids_view();
                self.ids.remove(k);
                let h = self.handles.remove(k);
                proof {
                    assert(self.ids_view() =~= before.remove(k as int));
                    assert forall|i: int, j: int|
                        0 <= i < j < self.ids_view().len() implies #[trigger] self.ids_view()[i]
                        != #[trigger] self.ids_view()[j] by {
                        let a = if i < k {
                            i
                        } else {
                            i + 1
                        };
                        let b = if j < k {
                            j
                        } else {
                            j + 1
                        };
                        assert(self.ids_view()[i] == before[a]);
                        assert(self.ids_view()[j] == before[b]);
                    }
                }
                (Some(h), ev)
            },
            None => (None, ev),
        }
    }

    /// The handle of the device under `id`, if any.
    pub fn get(&self, id: &str) -> (r: Option<&H>)
        requires
            self.wf(),
        ensures
            !self.ids_view().contains(id@) ==> r is None,
            self.ids_view().contains(id@) ==> exists|k: int|
                0 <= k < self.ids_view().len() && self.ids_view()[k] == id@ && r == Some(
                    &self.handles_view()[k],
                ),
    {
        match self.position(id) {
            Some(k) => Some(&self.handles[k]),
            None => None,
        }
    }

    /// Every registered id, in order of addition.
    pub fn list(&self) -> (r: Vec<String>)
        requires
            self.wf(),
        ensures
            r@.len() == self.ids_view().len(),
            forall|i: int| 0 <= i < r@.len() ==> (#[trigger] r@[i])@ == self.ids_view()[i],
    {
        let mut out: Vec<String> = Vec::new();
        let mut i: usize = 0;
        while i < self.ids.len()
            invariant
                i <= self.ids@.len(),
                out@.len() == i,
                forall|j: int| 0 <= j < i ==> (#[trigger] out@[j])@ == self.ids_view()[j],
            decreases self.ids.len() - i,
        {
            out.push(self.ids[i].clone());
            i = i + 1;
        }
        out
    }

    /// How many devices are registered.
    pub fn len(&self) -> (r: usize)
        requires
            self.wf(),
        ensures
            r == self.ids_view().len(),
    {
        self.ids.len()
    }
}

/// The registry-level event for an event of the device under `id`: state
/// changes are passed on, tagged with the id; other events are not.
pub fn forward_event(id: &str, event: &DeviceEvent) -> (r: Option<SessionEvent>)
    ensures
        event matches DeviceEvent::StateChanged(s) ==> (r matches Some(
            SessionEvent::DeviceStateChanged(e, t),
        ) && e@ == id@ && t == s),
        !(event is StateChanged) ==> r is None,
{
    match event {
        DeviceEvent::StateChanged(s) => Some(SessionEvent::DeviceStateChanged(id.to_string(), *s)),
        _ => None,
    }
}

/// How many of `states` are `Connected` or `Running`.
pub open spec fn active_count(states: Seq<DeviceState>) -> nat
    decreases states.len(),
{
    if states.len() == 0 {
        0
    } else {
        active_count(states.drop_last()) + if states.last() == DeviceState::Connected
            || states.last() == DeviceState::Running {
            1nat
        } else {
            0nat
        }
    }
}

/// How many of `states` are `Connected` or `Running`.
pub fn count_active(states: &Vec<DeviceState>) -> (r: usize)
    ensures
        r == active_count(states@),
{
    let mut n: usize = 0;
    let mut i: usize = 0;
    while i < states.len()
        invariant
            i <= states@.len(),
            n == active_count(states@.subrange(0, i as int)),
            n <= i,
        decreases states.len() - i,
    {
        proof {
            let next = states@.subrange(0, i + 1);
            assert(next.drop_last() == states@.subrange(0, i as int));
        }
        if states[i] == DeviceState::Connected || states[i] == DeviceState::Running {
            n = n + 1;
        }
        i = i + 1;
    }
    assert(states@.subrange(0, states@.len() as int) == states@);
    n
}

} // verus!
