//! The orchestrator: the live set of update services, keyed by record
//! identity, and its reactions to control events.
//!
//! Each service instance gets a fresh generation number. A task running a
//! cycle for an instance that has since been replaced is stale: its plan and
//! its write are refused, so it cannot touch the state store.
use vstd::prelude::*;
use crate::config::{DdnsConfig, IpType};
use crate::dns::DnsUpdateResult;
use crate::error::DomainError;
use crate::events::{EventData, EventType};
use crate::state::{RecordState, StateStore};
use crate::store::ConfigService;
use crate::update::{CyclePlan, UpdateOutcome, UpdateService};

verus! {

/// Identity of a monitored record: its name and address family.
pub open spec fn ident(c: DdnsConfig) -> (Seq<char>, IpType) {
    (c.record_name@, c.ip_type)
}

/// `configs[idx]` is the last configuration of its identity before `end`.
pub open spec fn latest(configs: Seq<DdnsConfig>, idx: int, end: int) -> bool {
    forall|j: int| idx < j < end ==> ident(#[trigger] configs[j]) != ident(configs[idx])
}

/// What status queries report of one record.
#[derive(Debug)]
pub struct StatusReport {
    pub record_name: String,
    /// The last address written successfully, if any.
    pub current_address: Option<String>,
    /// When it was written, in milliseconds since the Unix epoch.
    pub last_update_time: Option<i64>,
}

/// What became of a cycle's write.
#[derive(Debug)]
pub enum CycleResult {
    /// The service was replaced meanwhile: nothing was recorded.
    Abandoned,
    /// The write's result, recorded in the state store when confirmed.
    Done(Result<UpdateOutcome, DomainError>),
}

/// The registry of update services, the state store they share and the
/// configuration cache they are built from.
pub struct ServiceFactory {
    services: Vec<UpdateService>,
    state: StateStore,
    config_service: ConfigService,
    next_instance: u64,
}

impl ServiceFactory {
    pub closed spec fn services(&self) -> Seq<UpdateService> {
        self.services@
    }

    pub closed spec fn state(&self) -> StateStore {
        self.state
    }

    pub closed spec fn cached_configs(&self) -> Seq<DdnsConfig> {
        self.config_service@
    }

    /// The generation number the next service instance gets.
    pub closed spec fn next_instance(&self) -> u64 {
        self.next_instance
    }

    /// Identities are unique, and so are generations, all below the next one.
    pub open spec fn wf(&self) -> bool {
        &&& self.state().wf()
        &&& forall|a: int, b: int|
            0 <= a < b < self.services().len() ==> ident(self.services()[a].config) != ident(
                self.services()[b].config,
            ) && self.services()[a].instance != self.services()[b].instance
        &&& forall|a: int|
            0 <= a < self.services().len() ==> #[trigger] self.services()[a].instance
                < self.next_instance()
    }

    /// Whether `instance` is the generation of a registered service.
    pub open spec fn current(&self, instance: u64) -> bool {
        exists|k: int| 0 <= k < self.services().len() && self.services()[k].instance == instance
    }

    pub fn new() -> (r: ServiceFactory)
        ensures
            r.wf(),
            r.services().len() == 0,
            r.state()@ == Map::<Seq<char>, RecordState>::empty(),
            r.cached_configs().len() == 0,
            r.next_instance() == 0,
    {
        ServiceFactory {
            services: Vec::new(),
            state: StateStore::new(),
            config_service: ConfigService::new(),
            next_instance: 0,
        }
    }

    /// How many more service instances can be created.
    pub fn capacity_left(&self) -> (r: u64)
        ensures
            r == u64::MAX - self.next_instance(),
    {
        u64::MAX - self.next_instance
    }

    pub fn services_len(&self) -> (r: usize)
        ensures
            r == self.services().len(),
    {
        self.services.len()
    }

    pub fn service_at(&self, k: usize) -> (r: &UpdateService)
        requires
            k < self.services().len(),
        ensures
            *r == self.services()[k as int],
    {
        &self.services[k]
    }

    pub fn state_store(&self) -> (r: &StateStore)
        ensures
            *r == self.state(),
    {
        &self.state
    }

    pub fn config_service(&self) -> (r: &ConfigService)
        ensures
            r@ == self.cached_configs(),
    {
        &self.config_service
    }

    /// Replaces the configuration cache with what storage holds.
    pub fn set_cached_configs(&mut self, configs: Vec<DdnsConfig>)
        requires
            old(self).wf(),
        ensures
            final(self).wf(),
            final(self).cached_configs() == configs@,
            final(self).services() == old(self).services(),
            final(self).state() == old(self).state(),
            final(self).next_instance() == old(self).next_instance(),
    {
        self.config_service.replace_configs(configs);
    }
}

/// Index of the service with the identity of `c`, if any.
fn find_identity(services: &Vec<UpdateService>, c: &DdnsConfig) -> (r: Option<usize>)
    ensures
        r is None ==> forall|k: int|
            0 <= k < services.len() ==> ident(#[trigger] services@[k].config) != ident(*c),
        r matches Some(k) ==> k < services.len() && ident(services@[k as int].config) == ident(*c),
{
    let mut k: usize = 0;
    while k < services.len()
        invariant
            k <= services.len(),
            forall|j: int| 0 <= j < k ==> ident(#[trigger] services@[j].config) != ident(*c),
        decreases services.len() - k,
    {
        if services[k].config.record_name == c.record_name && services[k].config.ip_type == c.ip_type {
            return Some(k);
        }
        k = k + 1;
    }
    None
}

/// Whether some configuration of `s` has the identity of `c`.
pub open spec fn has_ident(s: Seq<DdnsConfig>, c: DdnsConfig) -> bool {
    exists|j: int| 0 <= j < s.len() && ident(#[trigger] s[j]) == ident(c)
}

/// The position of the configuration of `s` with the identity of `c`.
pub open spec fn ident_index(s: Seq<DdnsConfig>, c: DdnsConfig) -> int {
    choose|j: int| 0 <= j < s.len() && ident(#[trigger] s[j]) == ident(c)
}

/// The registry built from `configs` in order: a configuration replaces the
/// one of the same identity, or is appended when its identity is new.
pub open spec fn build(configs: Seq<DdnsConfig>) -> Seq<DdnsConfig>
    decreases configs.len(),
{
    if configs.len() == 0 {
        Seq::empty()
    } else {
        let prev = build(configs.drop_last());
        let c = configs.last();
        if has_ident(prev, c) {
            prev.update(ident_index(prev, c), c)
        } else {
            prev.push(c)
        }
    }
}

/// The configurations of a list of services.
pub open spec fn configs_of(services: Seq<UpdateService>) -> Seq<DdnsConfig> {
    services.map_values(|s: UpdateService| s.config)
}

/// No two configurations share an identity.
#[verifier::opaque]
pub open spec fn distinct_idents(s: Seq<DdnsConfig>) -> bool {
    forall|a: int, b: int| 0 <= a < b < s.len() ==> ident(s[a]) != ident(s[b])
}

/// Distinct generations, all in `[lo, hi)`.
#[verifier::opaque]
pub open spec fn fresh_instances(services: Seq<UpdateService>, lo: int, hi: int) -> bool {
    &&& forall|a: int, b: int|
        0 <= a < b < services.len() ==> services[a].instance != services[b].instance
    &&& forall|a: int| 0 <= a < services.len() ==> lo <= #[trigger] services[a].instance < hi
}

proof fn lemma_ident_index(s: Seq<DdnsConfig>, c: DdnsConfig, k: int)
    requires
        distinct_idents(s),
        0 <= k < s.len(),
        ident(s[k]) == ident(c),
    ensures
        has_ident(s, c),
        ident_index(s, c) == k,
{
    reveal(distinct_idents);
    assert(ident(s[k]) == ident(c));
    let j = ident_index(s, c);
    if j < k {
        assert(ident(s[j]) != ident(s[k]));
    } else if j > k {
        assert(ident(s[k]) != ident(s[j]));
    }
}

proof fn lemma_distinct_update(s: Seq<DdnsConfig>, k: int, c: DdnsConfig)
    requires
        distinct_idents(s),
        0 <= k < s.len(),
        ident(s[k]) == ident(c),
    ensures
        distinct_idents(s.update(k, c)),
{
    reveal(distinct_idents);
    let t = s.update(k, c);
    assert forall|a: int, b: int| 0 <= a < b < t.len() implies ident(t[a]) != ident(t[b]) by {
        assert(ident(s[a]) != ident(s[b]));
    }
}

proof fn lemma_distinct_push(s: Seq<DdnsConfig>, c: DdnsConfig)
    requires
        distinct_idents(s),
        !has_ident(s, c),
    ensures
        distinct_idents(s.push(c)),
{
    reveal(distinct_idents);
    let t = s.push(c);
    assert forall|a: int, b: int| 0 <= a < b < t.len() implies ident(t[a]) != ident(t[b]) by {
        if b == s.len() {
            assert(ident(s[a]) != ident(c));
        } else {
            assert(ident(s[a]) != ident(s[b]));
        }
    }
}

proof fn lemma_fresh_update(s: Seq<UpdateService>, k: int, x: UpdateService, lo: int)
    requires
        fresh_instances(s, lo, x.instance as int),
        lo <= x.instance,
        0 <= k < s.len(),
    ensures
        fresh_instances(s.update(k, x), lo, x.instance + 1),
{
    reveal(fresh_instances);
    let t = s.update(k, x);
    assert forall|a: int, b: int| 0 <= a < b < t.len() implies t[a].instance != t[b].instance by {
        assert(s[a].instance < x.instance && s[b].instance < x.instance);
    }
}

proof fn lemma_fresh_push(s: Seq<UpdateService>, x: UpdateService, lo: int)
    requires
        fresh_instances(s, lo, x.instance as int),
        lo <= x.instance,
    ensures
        fresh_instances(s.push(x), lo, x.instance + 1),
{
    reveal(fresh_instances);
    let t = s.push(x);
    assert forall|a: int, b: int| 0 <= a < b < t.len() implies t[a].instance != t[b].instance by {
        assert(s[a].instance < x.instance);
    }
}

impl ServiceFactory {
    /// Discards every service and builds a fresh one per identity in
    /// `configs`: the registry holds `build(configs)`, each with a new
    /// generation.
    pub fn load_configs(&mut self, configs: Vec<DdnsConfig>)
        requires
            old(self).wf(),
            old(self).next_instance() + configs.len() <= u64::MAX,
        ensures
            final(self).wf(),
            configs_of(final(self).services()) == build(configs@),
            forall|k: int|
                0 <= k < final(self).services().len() ==> old(self).next_instance()
                    <= #[trigger] final(self).services()[k].instance,
            final(self).next_instance() <= old(self).next_instance() + configs.len(),
            final(self).state() == old(self).state(),
            final(self).cached_configs() == old(self).cached_configs(),
    {
        let ghost start = self.next_instance as int;
        let n = configs.len();
        let mut configs = configs;
        let ghost all = configs@;
        let mut fresh: Vec<UpdateService> = Vec::new();
        let mut i: usize = 0;
        proof {
            reveal(distinct_idents);
            reveal(fresh_instances);
            assert(configs_of(fresh@) =~= build(all.take(0)));
        }
        while i < n
            invariant
                n == all.len(),
                configs@ == all.skip(i as int),
                i <= n,
                start <= self.next_instance <= start + i,
                start + n <= u64::MAX,
                self.state == old(self).state,
                self.config_service == old(self).config_service,
                self.services == old(self).services,
                configs_of(fresh@) == build(all.take(i as int)),
                distinct_idents(configs_of(fresh@)),
                fresh_instances(fresh@, start, self.next_instance as int),
            decreases n - i,
        {
            let c = configs.remove(0);
            assert(c == all[i as int]);
            assert(configs@ =~= all.skip(i + 1));
            assert(all.take(i + 1).drop_last() =~= all.take(i as int));
            let id = self.next_instance;
            self.next_instance = self.next_instance + 1;
            let ghost before = fresh@;
            let ghost prev = configs_of(before);
            match find_identity(&fresh, &c) {
                Some(j) => {
                    let x = UpdateService::new(c, id);
                    proof {
                        assert(ident(prev[j as int]) == ident(all[i as int]));
                        lemma_ident_index(prev, all[i as int], j as int);
                        lemma_distinct_update(prev, j as int, all[i as int]);
                        lemma_fresh_update(before, j as int, x, start);
                    }
                    fresh.set(j, x);
                    assert(configs_of(fresh@) =~= prev.update(j as int, all[i as int]));
                },
                None => {
                    let x = UpdateService::new(c, id);
                    proof {
                        assert(!has_ident(prev, all[i as int]));
                        lemma_distinct_push(prev, all[i as int]);
                        lemma_fresh_push(before, x, start);
                    }
                    fresh.push(x);
                    assert(configs_of(fresh@) =~= prev.push(all[i as int]));
                },
            }
            i = i + 1;
        }
        self.services = fresh;
        proof {
            assert(all.take(n as int) =~= all);
            reveal(distinct_idents);
            reveal(fresh_instances);
            assert forall|a: int, b: int|
                0 <= a < b < self.services().len() implies ident(self.services()[a].config) != ident(
                self.services()[b].config,
            ) && self.services()[a].instance != self.services()[b].instance by {
                assert(configs_of(self.services())[a] == self.services()[a].config);
                assert(configs_of(self.services())[b] == self.services()[b].config);
            }
        }
    }
}

/// Position of the first service, from `k` on, whose record name is `name`.
pub open spec fn first_named_from(services: Seq<UpdateService>, name: Seq<char>, k: int) -> Option<int>
    decreases services.len() - k,
{
    if k < 0 || k >= services.len() {
        None
    } else if services[k].config.record_name@ == name {
        Some(k)
    } else {
        first_named_from(services, name, k + 1)
    }
}

/// Position of the first service whose record name is `name`.
pub open spec fn first_named(services: Seq<UpdateService>, name: Seq<char>) -> Option<int> {
    first_named_from(services, name, 0)
}

proof fn lemma_first_named_bounds(services: Seq<UpdateService>, name: Seq<char>, k: int)
    ensures
        first_named_from(services, name, k) matches Some(j) ==> k <= j < services.len()
            && services[j].config.record_name@ == name,
    decreases services.len() - k,
{
    if 0 <= k < services.len() && services[k].config.record_name@ != name {
        lemma_first_named_bounds(services, name, k + 1);
    }
}

impl ServiceFactory {
    /// Recreates every service from its current in-memory configuration,
    /// each with a new generation.
    pub fn restart_all_ddns_services(&mut self)
        requires
            old(self).wf(),
            old(self).next_instance() + old(self).services().len() <= u64::MAX,
        ensures
            final(self).wf(),
            configs_of(final(self).services()) == configs_of(old(self).services()),
            forall|k: int|
                0 <= k < final(self).services().len() ==> old(self).next_instance()
                    <= #[trigger] final(self).services()[k].instance,
            final(self).next_instance() <= old(self).next_instance() + old(self).services().len(),
            final(self).state() == old(self).state(),
            final(self).cached_configs() == old(self).cached_configs(),
    {
        let ghost start = self.next_instance as int;
        let n = self.services.len();
        let mut fresh: Vec<UpdateService> = Vec::new();
        let mut i: usize = 0;
        proof {
            reveal(fresh_instances);
        }
        while i < n
            invariant
                n == self.services.len(),
                n == old(self).services().len(),
                i <= n,
                start == old(self).next_instance(),
                start <= self.next_instance <= start + i,
                start + n <= u64::MAX,
                self.state == old(self).state,
                self.config_service == old(self).config_service,
                self.services == old(self).services,
                configs_of(fresh@) == configs_of(self.services@).take(i as int),
                fresh_instances(fresh@, start, self.next_instance as int),
            decreases n - i,
        {
            let c = self.services[i].config.duplicate();
            let id = self.next_instance;
            self.next_instance = self.next_instance + 1;
            let x = UpdateService::new(c, id);
            proof {
                lemma_fresh_push(fresh@, x, start);
            }
            let ghost before = fresh@;
            fresh.push(x);
            assert(configs_of(before).len() == i);
            assert(fresh@ == before.push(x));
            assert(fresh@.len() == i + 1);
            assert(configs_of(fresh@)[i as int] == x.config);
            assert(x.config == self.services@[i as int].config);
            assert forall|j: int| 0 <= j < i + 1 implies #[trigger] configs_of(fresh@)[j]
                == configs_of(self.services@)[j] by {
                if j < i {
                    assert(configs_of(before)[j] == configs_of(self.services@).take(i as int)[j]);
                }
            }
            assert(configs_of(fresh@) =~= configs_of(self.services@).take(i + 1));
            i = i + 1;
        }
        proof {
            assert(configs_of(self.services@).take(n as int) =~= configs_of(self.services@));
        }
        self.services = fresh;
        proof {
            reveal(fresh_instances);
            assert forall|a: int, b: int|
                0 <= a < b < self.services().len() implies ident(self.services()[a].config) != ident(
                self.services()[b].config,
            ) && self.services()[a].instance != self.services()[b].instance by {
                assert(configs_of(self.services())[a] == self.services()[a].config);
                assert(configs_of(self.services())[b] == self.services()[b].config);
                assert(configs_of(old(self).services())[a] == old(self).services()[a].config);
                assert(configs_of(old(self).services())[b] == old(self).services()[b].config);
            }
        }
    }

    /// The first service whose record name is `record_name`, found by a
    /// linear scan.
    pub fn find_ddns_service(&self, record_name: &str) -> (r: Option<&UpdateService>)
        ensures
            first_named(self.services(), record_name@) is None ==> r is None,
            first_named(self.services(), record_name@) matches Some(k) ==> r == Some(
                &self.services()[k],
            ),
    {
        let name = record_name.to_string();
        let n = self.services.len();
        let mut i: usize = 0;
        while i < n
            invariant
                n == self.services().len(),
                i <= n,
                name@ == record_name@,
                first_named(self.services(), record_name@) == first_named_from(
                    self.services(),
                    record_name@,
                    i as int,
                ),
            decreases n - i,
        {
            if self.services[i].config.record_name == name {
                return Some(&self.services[i]);
            }
            i = i + 1;
        }
        None
    }

    /// The first registered service, if any.
    pub fn get_first_ddns_service(&self) -> (r: Option<&UpdateService>)
        ensures
            self.services().len() == 0 ==> r is None,
            self.services().len() > 0 ==> r == Some(&self.services()[0]),
    {
        if self.services.len() == 0 {
            None
        } else {
            Some(&self.services[0])
        }
    }

    /// Position of the service of generation `instance`.
    fn position_of(&self, instance: u64) -> (r: Option<usize>)
        requires
            self.wf(),
        ensures
            r is Some <==> self.current(instance),
            r matches Some(k) ==> k < self.services().len() && self.services()[k as int].instance
                == instance,
    {
        let mut i: usize = 0;
        while i < self.services.len()
            invariant
                i <= self.services().len(),
                forall|j: int| 0 <= j < i ==> self.services()[j].instance != instance,
            decreases self.services.len() - i,
        {
            if self.services[i].instance == instance {
                return Some(i);
            }
            i = i + 1;
        }
        None
    }

    /// The service of generation `instance`, if it is still registered.
    pub fn service_by_instance(&self, instance: u64) -> (r: Option<&UpdateService>)
        requires
            self.wf(),
        ensures
            r is Some <==> self.current(instance),
            r matches Some(s) ==> s.instance == instance && exists|k: int|
                0 <= k < self.services().len() && self.services()[k] == *s,
    {
        match self.position_of(instance) {
            Some(k) => Some(&self.services[k]),
            None => None,
        }
    }

    /// Whether `instance` is the generation of a registered service.
    pub fn is_current(&self, instance: u64) -> (r: bool)
        requires
            self.wf(),
        ensures
            r == self.current(instance),
    {
        self.position_of(instance).is_some()
    }

    /// The generations a forced update reaches: the first service named
    /// `record_name`, or every service when no name is given.
    pub fn force_update_targets(&self, record_name: &Option<String>) -> (r: Vec<u64>)
        ensures
            record_name is None ==> r@ == self.services().map_values(|s: UpdateService| s.instance),
            record_name matches Some(name) ==> r@ == match first_named(self.services(), name@) {
                Some(k) => seq![self.services()[k].instance],
                None => Seq::<u64>::empty(),
            },
    {
        match record_name {
            Some(name) => {
                let mut r: Vec<u64> = Vec::new();
                if let Some(s) = self.find_ddns_service(name.as_str()) {
                    r.push(s.instance);
                }
                proof {
                    lemma_first_named_bounds(self.services(), name@, 0);
                    if first_named(self.services(), name@) is Some {
                        assert(r@ =~= seq![self.services()[first_named(self.services(), name@)->0].instance]);
                    } else {
                        assert(r@ =~= Seq::<u64>::empty());
                    }
                }
                r
            },
            None => {
                let mut r: Vec<u64> = Vec::new();
                let mut i: usize = 0;
                while i < self.services.len()
                    invariant
                        i <= self.services().len(),
                        r@ == self.services().map_values(|s: UpdateService| s.instance).take(i as int),
                    decreases self.services.len() - i,
                {
                    r.push(self.services[i].instance);
                    i = i + 1;
                    assert(r@ =~= self.services().map_values(|s: UpdateService| s.instance).take(
                        i as int,
                    ));
                }
                assert(r@ =~= self.services().map_values(|s: UpdateService| s.instance));
                r
            },
        }
    }

    /// Plans a cycle for the service of generation `instance`; None when the
    /// service was replaced, and the task running it should stop.
    pub fn plan_cycle(&self, instance: u64, resolved: Result<String, DomainError>, forced: bool) -> (r:
        Option<CyclePlan>)
        requires
            self.wf(),
        ensures
            r is Some <==> self.current(instance),
            r matches Some(p) ==> exists|k: int|
                0 <= k < self.services().len() && self.services()[k].instance == instance
                    && self.services()[k].planned(self.state(), resolved, forced, p),
    {
        match self.position_of(instance) {
            Some(k) => Some(self.services[k].plan_cycle(&self.state, resolved, forced)),
            None => None,
        }
    }

    /// The state store after the write of a cycle of generation `instance`
    /// finished: a replaced service's write changes nothing.
    pub open spec fn spec_after_write(
        &self,
        instance: u64,
        address: String,
        outcome: Result<DnsUpdateResult, DomainError>,
        time: i64,
    ) -> Map<Seq<char>, RecordState> {
        if self.current(instance) {
            let k = choose|k: int|
                0 <= k < self.services().len() && self.services()[k].instance == instance;
            self.services()[k].spec_commit(self.state()@, address, outcome, time)
        } else {
            self.state()@
        }
    }

    /// Records the result of a cycle's write of `address` at `time`. The
    /// write of a service that was replaced meanwhile is abandoned before it
    /// touches the store.
    pub fn complete_cycle(
        &mut self,
        instance: u64,
        address: String,
        outcome: Result<DnsUpdateResult, DomainError>,
        time: i64,
    ) -> (r: CycleResult)
        requires
            old(self).wf(),
        ensures
            final(self).wf(),
            final(self).state()@ == old(self).spec_after_write(instance, address, outcome, time),
            !old(self).current(instance) <==> r is Abandoned,
            old(self).current(instance) && outcome is Err ==> r == CycleResult::Done(
                Err(outcome->Err_0),
            ),
            old(self).current(instance) && outcome is Ok ==> r == CycleResult::Done(
                Ok(
                    UpdateOutcome {
                        record: outcome->Ok_0.record,
                        was_written: outcome->Ok_0.updated,
                    },
                ),
            ),
            final(self).services() == old(self).services(),
            final(self).cached_configs() == old(self).cached_configs(),
            final(self).next_instance() == old(self).next_instance(),
    {
        match self.position_of(instance) {
            Some(k) => {
                proof {
                    let j = choose|j: int|
                        0 <= j < self.services().len() && self.services()[j].instance == instance;
                    if j != k {
                        if j < k {
                            assert(self.services()[j].instance != self.services()[k as int].instance);
                        } else {
                            assert(self.services()[k as int].instance != self.services()[j].instance);
                        }
                    }
                }
                let r = self.services[k].commit_write(&mut self.state, address, outcome, time);
                CycleResult::Done(r)
            },
            None => CycleResult::Abandoned,
        }
    }
}

impl ServiceFactory {
    /// Rebuilds the services from the configuration cache.
    pub fn reload_configs_and_restart_services(&mut self)
        requires
            old(self).wf(),
            old(self).next_instance() + old(self).cached_configs().len() <= u64::MAX,
        ensures
            final(self).wf(),
            configs_of(final(self).services()) == build(old(self).cached_configs()),
            forall|k: int|
                0 <= k < final(self).services().len() ==> old(self).next_instance()
                    <= #[trigger] final(self).services()[k].instance,
            final(self).state() == old(self).state(),
            final(self).cached_configs() == old(self).cached_configs(),
    {
        let configs = self.config_service.get_configs();
        self.load_configs(configs);
    }

    /// Validates and caches `configs`, then rebuilds the services from them.
    /// When one fails validation nothing changes.
    pub fn save_configs_and_apply(&mut self, configs: Vec<DdnsConfig>) -> (r: Result<(), DomainError>)
        requires
            old(self).wf(),
            old(self).next_instance() + configs.len() <= u64::MAX,
        ensures
            final(self).wf(),
            r is Ok <==> crate::store::first_failure(configs@) is None,
            r is Ok ==> final(self).cached_configs() == configs@ && configs_of(final(self).services())
                == build(configs@),
            r is Err ==> final(self).cached_configs() == old(self).cached_configs()
                && final(self).services() == old(self).services(),
            crate::store::first_failure(configs@) matches Some(msg) ==> (r matches Err(
                DomainError::Validation(m),
            ) && m@ == msg),
            final(self).state() == old(self).state(),
    {
        self.config_service.save_configs(configs)?;
        self.reload_configs_and_restart_services();
        Ok(())
    }

    /// Reacts to a control event. A restart recreates every service from its
    /// current configuration; a configuration change rebuilds the services
    /// from the cache; a forced update returns the generations to update.
    pub fn handle_event(&mut self, event: &EventData) -> (r: Vec<u64>)
        requires
            old(self).wf(),
            old(self).next_instance() + old(self).services().len() <= u64::MAX,
            old(self).next_instance() + old(self).cached_configs().len() <= u64::MAX,
        ensures
            final(self).wf(),
            final(self).state() == old(self).state(),
            final(self).cached_configs() == old(self).cached_configs(),
            event.event_type == EventType::RestartDdnsService ==> r@.len() == 0 && configs_of(
                final(self).services(),
            ) == configs_of(old(self).services()),
            event.event_type == EventType::ConfigChanged ==> r@.len() == 0 && configs_of(
                final(self).services(),
            ) == build(old(self).cached_configs()),
            event.event_type == EventType::ForceUpdateDns ==> final(self).services() == old(
                self,
            ).services() && (event.data is None ==> r@ == old(self).services().map_values(
                |s: UpdateService| s.instance,
            )) && (event.data matches Some(name) ==> r@ == match first_named(
                old(self).services(),
                name@,
            ) {
                Some(k) => seq![old(self).services()[k].instance],
                None => Seq::<u64>::empty(),
            }),
    {
        match event.event_type {
            EventType::RestartDdnsService => {
                self.restart_all_ddns_services();
                Vec::new()
            },
            EventType::ConfigChanged => {
                self.reload_configs_and_restart_services();
                Vec::new()
            },
            EventType::ForceUpdateDns => self.force_update_targets(&event.data),
        }
    }

    /// The status of the first service named `record_name`, or of the first
    /// service when no name is given: its record name and the last address
    /// and time written successfully.
    pub fn get_status(&self, record_name: Option<&str>) -> (r: Option<StatusReport>)
        requires
            self.wf(),
        ensures
            ({
                let k = match record_name {
                    Some(name) => first_named(self.services(), name@),
                    None => if self.services().len() > 0 {
                        Some(0int)
                    } else {
                        None
                    },
                };
                &&& k is None ==> r is None
                &&& k matches Some(k) ==> r matches Some(report) && report.record_name
                    == self.services()[k].config.record_name && report.current_address
                    == self.state().state_of(self.services()[k].key()).last_ip
                    && report.last_update_time == self.state().state_of(
                    self.services()[k].key(),
                ).last_update_time
            }),
    {
        let found = match record_name {
            Some(name) => self.find_ddns_service(name),
            None => self.get_first_ddns_service(),
        };
        match found {
            Some(s) => {
                let key = s.state_key();
                Some(
                    StatusReport {
                        record_name: s.config.record_name.clone(),
                        current_address: self.state.get_last_ip(key.as_str()),
                        last_update_time: self.state.get_last_update_time(key.as_str()),
                    },
                )
            },
            None => None,
        }
    }
}

/// A ConfigChanged event in the middle of a cycle never leaves a record's
/// state mixed from two writes: once the writing service is replaced, its
/// write leaves the store untouched; and any write either leaves the
/// record's state as it was or sets the new address together with its time.
pub proof fn lemma_write_is_whole_or_abandoned(
    factory: ServiceFactory,
    instance: u64,
    address: String,
    outcome: Result<DnsUpdateResult, DomainError>,
    time: i64,
)
    requires
        factory.wf(),
    ensures
        !factory.current(instance) ==> factory.spec_after_write(instance, address, outcome, time)
            == factory.state()@,
        factory.current(instance) ==> exists|k: int|
            0 <= k < factory.services().len() && factory.services()[k].instance == instance && ({
                let after = factory.spec_after_write(instance, address, outcome, time);
                ||| after == factory.state()@
                ||| after == factory.state()@.insert(
                    factory.services()[k].key(),
                    RecordState { last_ip: Some(address), last_update_time: Some(time) },
                )
            }),
{
    if factory.current(instance) {
        let k = choose|k: int|
            0 <= k < factory.services().len() && factory.services()[k].instance == instance;
        assert(0 <= k < factory.services().len() && factory.services()[k].instance == instance);
    }
}

} // verus!
