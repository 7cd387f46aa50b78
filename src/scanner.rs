//! The list of devices seen while scanning, one entry per device id.
use vstd::prelude::*;

use crate::text::{chars_of, contains_run, contains_text, lower_of, lowercase};

verus! {

/// A device seen while scanning.
#[derive(Debug, Clone, PartialEq, Eq)]
pub struct ScanResult {
    /// Device id.
    pub id: String,
    /// Advertised name.
    pub name: String,
    /// Link address.
    pub address: String,
    /// Signal strength, when reported.
    pub rssi: Option<i16>,
}

impl View for ScanResult {
    type V = (Seq<char>, Seq<char>, Seq<char>, Option<i16>);

    open spec fn view(&self) -> (Seq<char>, Seq<char>, Seq<char>, Option<i16>) {
        (self.id@, self.name@, self.address@, self.rssi)
    }
}

/// Whether no two entries share an id.
pub open spec fn ids_unique(s: Seq<(Seq<char>, Seq<char>, Seq<char>, Option<i16>)>) -> bool {
    forall|i: int, j: int| 0 <= i < j < s.len() ==> #[trigger] s[i].0 != #[trigger] s[j].0
}

/// Whether the name of entry `e` matches the query `q`, ignoring case.
pub open spec fn name_matches(e: (Seq<char>, Seq<char>, Seq<char>, Option<i16>), q: Seq<char>) -> bool {
    contains_run(lower_of(e.1), lower_of(q))
}

/// Collected scan results.
pub struct BleScanner {
    results: Vec<ScanResult>,
}

impl View for BleScanner {
    type V = Seq<(Seq<char>, Seq<char>, Seq<char>, Option<i16>)>;

    /// The entries, in the order they were first seen.
    closed spec fn view(&self) -> Seq<(Seq<char>, Seq<char>, Seq<char>, Option<i16>)> {
        self.results@.map_values(|r: ScanResult| r@)
    }
}

impl BleScanner {
    /// Whether no two entries share an id.
    pub open spec fn wf(&self) -> bool {
        ids_unique(self@)
    }

    /// An empty list.
    pub fn new() -> (r: BleScanner)
        ensures
            r@ == Seq::<(Seq<char>, Seq<char>, Seq<char>, Option<i16>)>::empty(),
            r.wf(),
    {
        let r = BleScanner { results: Vec::new() };
        assert(r@ =~= Seq::<(Seq<char>, Seq<char>, Seq<char>, Option<i16>)>::empty());
        r
    }

    /// The entries.
    pub fn results(&self) -> (r: &[ScanResult])
        ensures
            r@.map_values(|x: ScanResult| x@) == self@,
    {
        self.results.as_slice()
    }

    /// Removes every entry.
    pub fn clear(&mut self)
        ensures
            final(self)@ == Seq::<(Seq<char>, Seq<char>, Seq<char>, Option<i16>)>::empty(),
            final(self).wf(),
    {
        self.results = Vec::new();
        assert(self@ =~= Seq::<(Seq<char>, Seq<char>, Seq<char>, Option<i16>)>::empty());
    }

    /// Records a device: it replaces the entry with the same id, or is
    /// appended when its id is new.
    pub fn add_result(&mut self, result: ScanResult)
        requires
            old(self).wf(),
        ensures
            final(self).wf(),
            (exists|i: int| 0 <= i < old(self)@.len() && old(self)@[i].0 == result.id@) ==> (
            exists|i: int|
                0 <= i < old(self)@.len() && old(self)@[i].0 == result.id@ && final(self)@
                    == old(self)@.update(i, result@)),
            !(exists|i: int| 0 <= i < old(self)@.len() && old(self)@[i].0 == result.id@)
                ==> final(self)@ == old(self)@.push(result@),
    {
        let ghost before = self@;
        let mut i: usize = 0;
        while i < self.results.len()
            invariant
                before == old(self)@,
                self@ == before,
                ids_unique(before),
                i <= self.results@.len(),
                forall|j: int| 0 <= j < i ==> before[j].0 != result.id@,
            decreases self.results.len() - i,
        {
            assert(self@[i as int] == self.results@[i as int]@);
            if self.results[i].id == result.id {
                let ghost k = i as int;
                assert(before[k].0 == result.id@);
                self.results.set(i, result);
                proof {
                    assert(self@ =~= before.update(k, result@));
                    assert(0 <= k < before.len() && before[k].0 == result.id@ && self@ == before.update(k, result@));
                    assert forall|a: int, b: int|
                        0 <= a < b < self@.len() implies #[trigger] self@[a].0 != #[trigger] self@[b].0 by {
                        if a != k && b != k {
                            assert(before[a].0 != before[b].0);
                        } else if a == k {
                            assert(before[a].0 != before[b].0);
                        } else {
                            assert(before[a].0 != before[b].0);
                        }
                    }
                }
                return;
            }
            i = i + 1;
        }
        self.results.push(result);
        proof {
            assert(self@ =~= before.push(result@));
            assert forall|a: int, b: int|
                0 <= a < b < self@.len() implies #[trigger] self@[a].0 != #[trigger] self@[b].0 by {
                if b < before.len() {
                    assert(before[a].0 != before[b].0);
                }
            }
        }
    }

    /// The first entry whose name contains `name`, ignoring case.
    pub fn find_by_name(&self, name: &str) -> (r: Option<&ScanResult>)
        ensures
            r is Some <==> exists|i: int| 0 <= i < self@.len() && name_matches(self@[i], name@),
            r matches Some(x) ==> exists|i: int|
                0 <= i < self@.len() && x@ == self@[i] && name_matches(self@[i], name@) && forall|
                    j: int,
                | 0 <= j < i ==> !name_matches(#[trigger] self@[j], name@),
    {
        let query = lowercase(name);
        let mut i: usize = 0;
        while i < self.results.len()
            invariant
                i <= self.results@.len(),
                query@ == lower_of(name@),
                forall|j: int| 0 <= j < i ==> !name_matches(#[trigger] self@[j], name@),
            decreases self.results.len() - i,
        {
            assert(self@[i as int] == self.results@[i as int]@);
            let lowered = lowercase(self.results[i].name.as_str());
            if BleScanner::lowered_name_matches(lowered.as_str(), query.as_str()) {
                assert(name_matches(self@[i as int], name@));
                return Some(&self.results[i]);
            }
            i = i + 1;
        }
        None
    }

    /// Whether a lowercased name contains a lowercased query.
    pub fn lowered_name_matches(lowered_name: &str, lowered_query: &str) -> (r: bool)
        ensures
            r == contains_run(lowered_name@, lowered_query@),
    {
        let n = chars_of(lowered_name);
        let q = chars_of(lowered_query);
        contains_text(&n, &q)
    }

    /// The entry with id `id`, if any.
    pub fn find_by_id(&self, id: &str) -> (r: Option<&ScanResult>)
        requires
            self.wf(),
        ensures
            r is Some <==> exists|i: int| 0 <= i < self@.len() && self@[i].0 == id@,
            r matches Some(x) ==> x.id@ == id@ && exists|i: int|
                0 <= i < self@.len() && x@ == self@[i],
    {
        let target = chars_of(id);
        let mut i: usize = 0;
        while i < self.results.len()
            invariant
                i <= self.results@.len(),
                target@ == id@,
                forall|j: int| 0 <= j < i ==> (#[trigger] self@[j]).0 != id@,
            decreases self.results.len() - i,
        {
            assert(self@[i as int] == self.results@[i as int]@);
            let candidate = chars_of(self.results[i].id.as_str());
            if crate::text::eq_chars(&candidate, &target) {
                return Some(&self.results[i]);
            }
            i = i + 1;
        }
        None
    }
}

impl Default for BleScanner {
    fn default() -> (r: BleScanner)
        ensures
            r@ == Seq::<(Seq<char>, Seq<char>, Seq<char>, Option<i16>)>::empty(),
    {
        BleScanner::new()
    }
}

} // verus!
