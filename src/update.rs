//! The update cycle of one monitored record.
//!
//! A cycle resolves the current address, decides whether the provider must be
//! written, writes, and records the write. Resolving and writing are network
//! calls made by the caller; this module plans the cycle from the resolved
//! address and records its result.
use vstd::prelude::*;
use crate::config::DdnsConfig;
use crate::dns::{DnsRecord, DnsUpdateResult};
use crate::error::DomainError;
use crate::state::{spec_state_key, state_key, RecordState, StateStore};

verus! {

/// TTL of the records written, in seconds.
pub const RECORD_TTL: u32 = 120;

/// Wait before resolving again after a failed resolution, in seconds.
pub const RECOVERY_DELAY_SECS: u64 = 60;

/// What a cycle does once the address is resolved, or failed to be.
#[derive(Debug)]
pub enum CyclePlan {
    /// Write this record to the provider.
    Write(DnsRecord),
    /// The provider already holds the address: no write.
    Skip(DnsRecord),
    /// Resolution failed: wait the recovery delay and resolve again, without
    /// writing anything.
    Recover(DomainError),
}

/// What one cycle did.
#[derive(Debug)]
pub struct UpdateOutcome {
    pub record: DnsRecord,
    pub was_written: bool,
}

/// Update service of one monitored record.
#[derive(Debug)]
pub struct UpdateService {
    pub config: DdnsConfig,
    /// The generation of the service: each instance the registry creates
    /// gets its own.
    pub instance: u64,
}

/// Whether a cycle must write: always when forced, when no address is known,
/// and when the known address differs from the resolved one.
pub open spec fn must_write(last_ip: Option<String>, resolved: Seq<char>, forced: bool) -> bool {
    forced || last_ip is None || last_ip->0@ != resolved
}

/// The record that carries `address` for a configuration.
pub open spec fn desired(config: DdnsConfig, address: String, r: DnsRecord) -> bool {
    &&& r.id matches Some(id) && id@ == config.record_id@
    &&& r.name@ == config.record_name@
    &&& r.record_type@ == config.ip_type.spec_record_type()
    &&& r.content == address
    &&& r.ttl == RECORD_TTL
    &&& !r.proxied
}

impl UpdateService {
    /// Key of the record in the state store.
    pub open spec fn key(&self) -> Seq<char> {
        spec_state_key(self.config.zone_id@, self.config.record_id@)
    }

    pub fn new(config: DdnsConfig, instance: u64) -> (r: UpdateService)
        ensures
            r.config == config,
            r.instance == instance,
    {
        UpdateService { config, instance }
    }

    pub fn config(&self) -> (r: &DdnsConfig)
        ensures
            *r == self.config,
    {
        &self.config
    }

    pub fn instance(&self) -> (r: u64)
        ensures
            r == self.instance,
    {
        self.instance
    }

    pub fn state_key(&self) -> (r: String)
        ensures
            r@ == self.key(),
    {
        state_key(self.config.zone_id.as_str(), self.config.record_id.as_str())
    }

    /// The record that carries `address`.
    pub fn desired_record(&self, address: String) -> (r: DnsRecord)
        ensures
            desired(self.config, address, r),
    {
        DnsRecord {
            id: Some(self.config.record_id.clone()),
            name: self.config.record_name.clone(),
            record_type: self.config.ip_type.record_type(),
            content: address,
            ttl: RECORD_TTL,
            proxied: false,
        }
    }

    /// `r` is the plan of a cycle: recovery after a failed resolution, else a
    /// write of the resolved address exactly when `must_write` holds of the
    /// stored address, and a skip otherwise.
    pub open spec fn planned(
        &self,
        store: StateStore,
        resolved: Result<String, DomainError>,
        forced: bool,
        r: CyclePlan,
    ) -> bool {
        &&& resolved is Err ==> r == CyclePlan::Recover(resolved->Err_0)
        &&& resolved is Ok && must_write(store.state_of(self.key()).last_ip, resolved->Ok_0@, forced)
            ==> (r matches CyclePlan::Write(rec) && desired(self.config, resolved->Ok_0, rec))
        &&& resolved is Ok && !must_write(store.state_of(self.key()).last_ip, resolved->Ok_0@, forced)
            ==> (r matches CyclePlan::Skip(rec) && desired(self.config, resolved->Ok_0, rec))
    }

    /// Plans a cycle from the resolution's result. A failed resolution never
    /// leads to a write; otherwise the record is written exactly when
    /// `must_write` holds of the stored address.
    pub fn plan_cycle(&self, store: &StateStore, resolved: Result<String, DomainError>, forced: bool) -> (r:
        CyclePlan)
        requires
            store.wf(),
        ensures
            self.planned(*store, resolved, forced, r),
    {
        match resolved {
            Err(e) => CyclePlan::Recover(e),
            Ok(address) => {
                let key = self.state_key();
                let last = store.get_last_ip(key.as_str());
                let changed = match &last {
                    Some(ip) => *ip != address,
                    None => true,
                };
                if forced || changed {
                    CyclePlan::Write(self.desired_record(address))
                } else {
                    CyclePlan::Skip(self.desired_record(address))
                }
            },
        }
    }

    /// The store after a write of `address` finished with `outcome` at `time`:
    /// a confirmed write sets address and time together; anything else leaves
    /// the store as it was.
    pub open spec fn spec_commit(
        &self,
        before: Map<Seq<char>, RecordState>,
        address: String,
        outcome: Result<DnsUpdateResult, DomainError>,
        time: i64,
    ) -> Map<Seq<char>, RecordState> {
        if outcome matches Ok(res) && res.updated {
            before.insert(
                self.key(),
                RecordState { last_ip: Some(address), last_update_time: Some(time) },
            )
        } else {
            before
        }
    }

    /// Records the result of writing `address`. The store changes only after
    /// a confirmed write; a failed write leaves it untouched so that the next
    /// cycle starts from the address known before.
    pub fn commit_write(
        &self,
        store: &mut StateStore,
        address: String,
        outcome: Result<DnsUpdateResult, DomainError>,
        time: i64,
    ) -> (r: Result<UpdateOutcome, DomainError>)
        requires
            old(store).wf(),
        ensures
            final(store).wf(),
            final(store)@ == self.spec_commit(old(store)@, address, outcome, time),
            outcome is Err ==> r == Err::<UpdateOutcome, DomainError>(outcome->Err_0),
            outcome matches Ok(res) ==> r == Ok::<UpdateOutcome, DomainError>(
                UpdateOutcome { record: res.record, was_written: res.updated },
            ),
    {
        match outcome {
            Err(e) => Err(e),
            Ok(res) => {
                if res.updated {
                    let key = self.state_key();
                    store.record_write(key.as_str(), address, time);
                }
                Ok(UpdateOutcome { record: res.record, was_written: res.updated })
            },
        }
    }
}

/// A record with no prior state is written on its first cycle, whatever
/// address was resolved: the plan is a write of that address.
pub proof fn lemma_first_cycle_writes(
    service: UpdateService,
    store: StateStore,
    resolved: String,
    forced: bool,
    plan: CyclePlan,
)
    requires
        !store@.contains_key(service.key()),
        service.planned(store, Ok(resolved), forced, plan),
    ensures
        plan matches CyclePlan::Write(rec) && rec.content == resolved,
{
}

/// A normal cycle whose resolved address equals the known one plans no
/// write.
pub proof fn lemma_unchanged_address_skips(
    service: UpdateService,
    store: StateStore,
    resolved: String,
    plan: CyclePlan,
)
    requires
        store.state_of(service.key()).last_ip matches Some(ip) && ip@ == resolved@,
        service.planned(store, Ok(resolved), false, plan),
    ensures
        plan is Skip,
{
}

/// A forced cycle plans exactly one write of the resolved address, even
/// when it equals the known one.
pub proof fn lemma_forced_cycle_writes(
    service: UpdateService,
    store: StateStore,
    resolved: String,
    plan: CyclePlan,
)
    requires
        service.planned(store, Ok(resolved), true, plan),
    ensures
        plan matches CyclePlan::Write(rec) && rec.content == resolved,
{
}

} // verus!
