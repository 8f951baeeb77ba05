//! Last applied address and time per monitored record.
use vstd::prelude::*;
use vstd::string::StringExecFns;

verus! {

/// What is known of a record after its last confirmed provider write.
#[derive(Debug)]
pub struct RecordState {
    pub last_ip: Option<String>,
    /// Milliseconds since the Unix epoch.
    pub last_update_time: Option<i64>,
}

impl RecordState {
    /// A state with neither an address nor a time.
    pub open spec fn empty() -> RecordState {
        RecordState { last_ip: None, last_update_time: None }
    }

    pub fn duplicate(&self) -> (r: RecordState)
        ensures
            r == *self,
    {
        let last_ip = match &self.last_ip {
            Some(ip) => Some(ip.clone()),
            None => None,
        };
        RecordState { last_ip, last_update_time: self.last_update_time }
    }
}

/// The key of a record in the store: `<zone id>-<record id>`.
pub open spec fn spec_state_key(zone_id: Seq<char>, record_id: Seq<char>) -> Seq<char> {
    zone_id + "-"@ + record_id
}

pub fn state_key(zone_id: &str, record_id: &str) -> (r: String)
    ensures
        r@ == spec_state_key(zone_id@, record_id@),
{
    let mut r = zone_id.to_string();
    r.append("-");
    r.append(record_id);
    r
}

/// In-memory store of record states, keyed by `state_key`.
pub struct StateStore {
    entries: Vec<(String, RecordState)>,
    contents: Ghost<Map<Seq<char>, RecordState>>,
}

impl View for StateStore {
    type V = Map<Seq<char>, RecordState>;

    closed spec fn view(&self) -> Map<Seq<char>, RecordState> {
        self.contents@
    }
}

impl StateStore {
    /// Each key stands once, and the entries are exactly the view.
    pub closed spec fn wf(&self) -> bool {
        &&& forall|i: int, j: int|
            0 <= i < j < self.entries.len() ==> self.entries@[i].0@ != self.entries@[j].0@
        &&& forall|i: int|
            0 <= i < self.entries.len() ==> #[trigger] self.contents@.contains_key(
                self.entries@[i].0@,
            ) && self.contents@[self.entries@[i].0@] == self.entries@[i].1
        &&& forall|k: Seq<char>|
            #[trigger] self.contents@.contains_key(k) ==> exists|i: int|
                0 <= i < self.entries.len() && self.entries@[i].0@ == k
    }

    pub fn new() -> (r: StateStore)
        ensures
            r.wf(),
            r@ == Map::<Seq<char>, RecordState>::empty(),
    {
        StateStore { entries: Vec::new(), contents: Ghost(Map::empty()) }
    }

    /// Index of the entry for `key`, if there is one.
    fn find(&self, key: &str) -> (r: Option<usize>)
        requires
            self.wf(),
        ensures
            r is Some <==> self@.contains_key(key@),
            r matches Some(i) ==> i < self.entries.len() && self.entries@[i as int].0@ == key@,
    {
        let k = key.to_string();
        let mut i: usize = 0;
        while i < self.entries.len()
            invariant
                self.wf(),
                k@ == key@,
                i <= self.entries.len(),
                forall|j: int| 0 <= j < i ==> self.entries@[j].0@ != key@,
            decreases self.entries.len() - i,
        {
            if self.entries[i].0 == k {
                return Some(i);
            }
            i = i + 1;
        }
        proof {
            if self@.contains_key(key@) {
                let j = choose|j: int| 0 <= j < self.entries.len() && self.entries@[j].0@ == key@;
                assert(self.entries@[j].0@ == key@);
            }
        }
        None
    }

    pub fn get_state(&self, key: &str) -> (r: Option<RecordState>)
        requires
            self.wf(),
        ensures
            r is Some <==> self@.contains_key(key@),
            r matches Some(s) ==> s == self@[key@],
    {
        match self.find(key) {
            Some(i) => Some(self.entries[i].1.duplicate()),
            None => None,
        }
    }

    pub fn get_last_ip(&self, key: &str) -> (r: Option<String>)
        requires
            self.wf(),
        ensures
            r == (if self@.contains_key(key@) {
                self@[key@].last_ip
            } else {
                None
            }),
    {
        match self.find(key) {
            Some(i) => match &self.entries[i].1.last_ip {
                Some(ip) => Some(ip.clone()),
                None => None,
            },
            None => None,
        }
    }

    pub fn get_last_update_time(&self, key: &str) -> (r: Option<i64>)
        requires
            self.wf(),
        ensures
            r == (if self@.contains_key(key@) {
                self@[key@].last_update_time
            } else {
                None
            }),
    {
        match self.find(key) {
            Some(i) => self.entries[i].1.last_update_time,
            None => None,
        }
    }

    /// Replaces the whole state of `key`.
    pub fn set_state(&mut self, key: &str, state: RecordState)
        requires
            old(self).wf(),
        ensures
            final(self).wf(),
            final(self)@ == old(self)@.insert(key@, state),
    {
        let ghost s = state;
        let ghost mut idx: int = 0;
        match self.find(key) {
            Some(i) => {
                let k = key.to_string();
                self.entries.set(i, (k, state));
                proof {
                    idx = i as int;
                }
            },
            None => {
                let k = key.to_string();
                self.entries.push((k, state));
                proof {
                    idx = self.entries.len() - 1;
                }
            },
        }
        proof {
            self.contents@ = old(self).contents@.insert(key@, s);
            assert(self.entries@[idx].0@ == key@ && self.entries@[idx].1 == s);
            assert forall|i: int| 0 <= i < self.entries.len() && i != idx implies self.entries@[i]
                == old(self).entries@[i] && self.entries@[i].0@ != key@ by {
                if i < old(self).entries.len() {
                    assert(old(self).contents@.contains_key(old(self).entries@[i].0@));
                }
            }
            assert forall|i: int, j: int|
                0 <= i < j < self.entries.len() implies self.entries@[i].0@
                != self.entries@[j].0@ by {
                if i != idx && j != idx {
                    assert(old(self).entries@[i].0@ != old(self).entries@[j].0@);
                }
            }
            assert forall|k: Seq<char>| #[trigger] self.contents@.contains_key(k) implies exists|
                i: int,
            | 0 <= i < self.entries.len() && self.entries@[i].0@ == k by {
                if k != key@ {
                    let i = choose|i: int|
                        0 <= i < old(self).entries.len() && old(self).entries@[i].0@ == k;
                    assert(self.entries@[i].0@ == k);
                } else {
                    assert(self.entries@[idx].0@ == key@);
                }
            }
        }
    }

    /// The state of `key`, or the empty state when the store has none.
    pub open spec fn state_of(&self, key: Seq<char>) -> RecordState {
        if self@.contains_key(key) {
            self@[key]
        } else {
            RecordState::empty()
        }
    }

    /// Sets the address of `key`, keeping its time.
    pub fn set_last_ip(&mut self, key: &str, ip: String)
        requires
            old(self).wf(),
        ensures
            final(self).wf(),
            final(self)@ == old(self)@.insert(
                key@,
                RecordState {
                    last_ip: Some(ip),
                    last_update_time: old(self).state_of(key@).last_update_time,
                },
            ),
    {
        let time = self.get_last_update_time(key);
        self.set_state(key, RecordState { last_ip: Some(ip), last_update_time: time });
    }

    /// Sets the time of `key`, keeping its address.
    pub fn set_last_update_time(&mut self, key: &str, time: i64)
        requires
            old(self).wf(),
        ensures
            final(self).wf(),
            final(self)@ == old(self)@.insert(
                key@,
                RecordState { last_ip: old(self).state_of(key@).last_ip, last_update_time: Some(time) },
            ),
    {
        let ip = self.get_last_ip(key);
        self.set_state(key, RecordState { last_ip: ip, last_update_time: Some(time) });
    }

    /// Records a confirmed write in one step: address and time together.
    pub fn record_write(&mut self, key: &str, ip: String, time: i64)
        requires
            old(self).wf(),
        ensures
            final(self).wf(),
            final(self)@ == old(self)@.insert(
                key@,
                RecordState { last_ip: Some(ip), last_update_time: Some(time) },
            ),
    {
        self.set_state(key, RecordState { last_ip: Some(ip), last_update_time: Some(time) });
    }
}

} // verus!
