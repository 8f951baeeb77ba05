//! The configuration store: the cached list of monitored records, the
//! configuration synthesised from the environment, and the watcher that
//! turns changes of the stored file into notifications.
use vstd::prelude::*;
use crate::config::{lowercase_of, DdnsConfig, IpType};
use crate::error::DomainError;

verus! {

/// Whether every character is an ASCII digit.
pub open spec fn ascii_digits(s: Seq<char>) -> bool {
    forall|i: int| 0 <= i < s.len() ==> '0' <= #[trigger] s[i] && s[i] <= '9'
}

/// The value of a string of ASCII digits.
pub open spec fn digits_value(s: Seq<char>) -> int
    decreases s.len(),
{
    if s.len() == 0 {
        0
    } else {
        digits_value(s.drop_last()) * 10 + (s.last() as int - '0' as int)
    }
}

/// The digits of a number text: the text after an optional leading `+`.
pub open spec fn unsigned_digits(s: Seq<char>) -> Seq<char> {
    if s.len() > 0 && s[0] == '+' {
        s.drop_first()
    } else {
        s
    }
}

/// What `str::parse::<u64>` returns: the value of a non-empty run of ASCII
/// digits after an optional `+`, when it fits in a u64.
pub open spec fn parsed_u64(s: Seq<char>) -> Option<u64> {
    let d = unsigned_digits(s);
    if d.len() > 0 && ascii_digits(d) && digits_value(d) <= u64::MAX {
        Some(digits_value(d) as u64)
    } else {
        None
    }
}

/// Relies on `str::parse::<u64>` (`u64::from_str`): an optional `+`, then one
/// or more ASCII digits whose value fits; anything else is an error.
#[verifier::external_body]
pub(crate) fn parse_u64(s: &str) -> (r: Option<u64>)
    ensures
        r == parsed_u64(s@),
{
    s.parse::<u64>().ok()
}

/// Poll interval used when none is configured, in seconds.
pub const DEFAULT_UPDATE_INTERVAL: u64 = 300;

/// The poll interval read from an optional setting: its number when it
/// spells one, else the default.
pub open spec fn spec_interval_or_default(text: Option<String>) -> u64 {
    match text {
        Some(t) => match parsed_u64(t@) {
            Some(n) => n,
            None => DEFAULT_UPDATE_INTERVAL,
        },
        None => DEFAULT_UPDATE_INTERVAL,
    }
}

pub fn interval_or_default(text: &Option<String>) -> (r: u64)
    ensures
        r == spec_interval_or_default(*text),
{
    match text {
        Some(t) => match parse_u64(t.as_str()) {
            Some(n) => n,
            None => DEFAULT_UPDATE_INTERVAL,
        },
        None => DEFAULT_UPDATE_INTERVAL,
    }
}

/// The environment settings that describe monitored records.
#[derive(Debug)]
pub struct EnvValues {
    pub api_token: Option<String>,
    pub zone_id: Option<String>,
    pub record_id: Option<String>,
    pub record_name: Option<String>,
    pub update_interval: Option<String>,
    pub record_id_v6: Option<String>,
    pub record_name_v6: Option<String>,
}

fn copy_text(s: &Option<String>) -> (r: Option<String>)
    ensures
        r == *s,
{
    match s {
        Some(t) => Some(t.clone()),
        None => None,
    }
}

/// Whether the environment describes a record of the family, and with which
/// values: token, zone, record id, record name, interval.
pub open spec fn env_record(env: EnvValues, ip_type: IpType, c: DdnsConfig) -> bool {
    let (rid, rname) = match ip_type {
        IpType::IPv4 => (env.record_id, env.record_name),
        IpType::IPv6 => (env.record_id_v6, env.record_name_v6),
    };
    &&& env.api_token == Some(c.api_token)
    &&& env.zone_id == Some(c.zone_id)
    &&& rid == Some(c.record_id)
    &&& rname == Some(c.record_name)
    &&& c.update_interval == spec_interval_or_default(env.update_interval)
    &&& c.ip_type == ip_type
}

/// Whether the environment holds all four values of a record of the family.
pub open spec fn env_complete(env: EnvValues, ip_type: IpType) -> bool {
    let (rid, rname) = match ip_type {
        IpType::IPv4 => (env.record_id, env.record_name),
        IpType::IPv6 => (env.record_id_v6, env.record_name_v6),
    };
    env.api_token is Some && env.zone_id is Some && rid is Some && rname is Some
}

fn env_config(env: &EnvValues, ip_type: IpType) -> (r: Option<DdnsConfig>)
    ensures
        r is Some <==> env_complete(*env, ip_type),
        r matches Some(c) ==> env_record(*env, ip_type, c),
{
    let (rid, rname) = match ip_type {
        IpType::IPv4 => (copy_text(&env.record_id), copy_text(&env.record_name)),
        IpType::IPv6 => (copy_text(&env.record_id_v6), copy_text(&env.record_name_v6)),
    };
    match (copy_text(&env.api_token), copy_text(&env.zone_id), rid, rname) {
        (Some(api_token), Some(zone_id), Some(record_id), Some(record_name)) => {
            let update_interval = interval_or_default(&env.update_interval);
            Some(DdnsConfig { api_token, zone_id, record_id, record_name, update_interval, ip_type })
        },
        _ => None,
    }
}

/// The records the environment describes: the IPv4 one, then the IPv6 one,
/// each present when all four of its values are set.
pub fn configs_from_env(env: &EnvValues) -> (r: Vec<DdnsConfig>)
    ensures
        r.len() == (if env_complete(*env, IpType::IPv4) { 1int } else { 0 }) + (if env_complete(
            *env,
            IpType::IPv6,
        ) {
            1int
        } else {
            0
        }),
        env_complete(*env, IpType::IPv4) ==> env_record(*env, IpType::IPv4, r@[0]),
        env_complete(*env, IpType::IPv6) ==> env_record(*env, IpType::IPv6, r@[r.len() - 1]),
{
    let mut r: Vec<DdnsConfig> = Vec::new();
    if let Some(c) = env_config(env, IpType::IPv4) {
        r.push(c);
    }
    if let Some(c) = env_config(env, IpType::IPv6) {
        r.push(c);
    }
    r
}

/// The placeholder configuration written when nothing else is available.
pub fn example_config() -> (r: DdnsConfig)
    ensures
        r.api_token@ == "your_cloudflare_api_token"@,
        r.zone_id@ == "your_cloudflare_zone_id"@,
        r.record_id@ == "your_cloudflare_record_id"@,
        r.record_name@ == "your.domain.com"@,
        r.update_interval == 300,
        r.ip_type == IpType::IPv4,
{
    DdnsConfig {
        api_token: "your_cloudflare_api_token".to_string(),
        zone_id: "your_cloudflare_zone_id".to_string(),
        record_id: "your_cloudflare_record_id".to_string(),
        record_name: "your.domain.com".to_string(),
        update_interval: DEFAULT_UPDATE_INTERVAL,
        ip_type: IpType::IPv4,
    }
}

/// What to store when the stored list is empty: the records of the
/// environment, or the placeholder when it describes none.
pub fn initial_configs(env: &EnvValues) -> (r: Vec<DdnsConfig>)
    ensures
        r.len() > 0,
        env_complete(*env, IpType::IPv4) ==> env_record(*env, IpType::IPv4, r@[0]),
        env_complete(*env, IpType::IPv6) ==> env_record(*env, IpType::IPv6, r@[r.len() - 1]),
        !env_complete(*env, IpType::IPv4) && !env_complete(*env, IpType::IPv6) ==> r.len() == 1
            && r@[0].record_name@ == "your.domain.com"@,
{
    let r = configs_from_env(env);
    if r.len() > 0 {
        r
    } else {
        let mut v: Vec<DdnsConfig> = Vec::new();
        v.push(example_config());
        v
    }
}

/// The cached list of monitored records.
#[derive(Debug)]
pub struct ConfigService {
    configs: Vec<DdnsConfig>,
}

/// The first configuration of the family, if any.
pub open spec fn first_of_type(configs: Seq<DdnsConfig>, t: IpType) -> Option<DdnsConfig>
    decreases configs.len(),
{
    if configs.len() == 0 {
        None
    } else if configs[0].ip_type == t {
        Some(configs[0])
    } else {
        first_of_type(configs.drop_first(), t)
    }
}

/// The validation message of the first configuration that fails, if any.
pub open spec fn first_failure(configs: Seq<DdnsConfig>) -> Option<Seq<char>>
    decreases configs.len(),
{
    if configs.len() == 0 {
        None
    } else if !configs[0].valid() {
        configs[0].validation_failure()
    } else {
        first_failure(configs.drop_first())
    }
}

fn copy_configs(configs: &Vec<DdnsConfig>) -> (r: Vec<DdnsConfig>)
    ensures
        r@ == configs@,
{
    let mut r: Vec<DdnsConfig> = Vec::new();
    let mut i: usize = 0;
    while i < configs.len()
        invariant
            i <= configs.len(),
            r@ == configs@.take(i as int),
        decreases configs.len() - i,
    {
        r.push(configs[i].duplicate());
        i = i + 1;
        assert(r@ =~= configs@.take(i as int));
    }
    assert(configs@.take(configs.len() as int) =~= configs@);
    r
}

impl View for ConfigService {
    type V = Seq<DdnsConfig>;

    closed spec fn view(&self) -> Seq<DdnsConfig> {
        self.configs@
    }
}

impl ConfigService {
    pub fn new() -> (r: ConfigService)
        ensures
            r@.len() == 0,
    {
        ConfigService { configs: Vec::new() }
    }

    /// A copy of the cached list.
    pub fn get_configs(&self) -> (r: Vec<DdnsConfig>)
        ensures
            r@ == self@,
    {
        copy_configs(&self.configs)
    }

    /// Replaces the cache with what storage holds, as read on a reload.
    pub fn replace_configs(&mut self, configs: Vec<DdnsConfig>)
        ensures
            final(self)@ == configs@,
    {
        self.configs = configs;
    }

    /// The first cached configuration of a family given by name, in any
    /// letter case.
    pub fn get_config_by_ip_type(&self, ip_type: &str) -> (r: Result<Option<DdnsConfig>, DomainError>)
        ensures
            lowercase_of(ip_type@) != "ipv4"@ && lowercase_of(ip_type@) != "ipv6"@ ==> r matches Err(
                DomainError::Validation(_),
            ),
            lowercase_of(ip_type@) == "ipv4"@ ==> r == Ok::<Option<DdnsConfig>, DomainError>(
                first_of_type(self@, IpType::IPv4),
            ),
            lowercase_of(ip_type@) == "ipv6"@ ==> r == Ok::<Option<DdnsConfig>, DomainError>(
                first_of_type(self@, IpType::IPv6),
            ),
    {
        proof {
            reveal_strlit("ipv4");
            reveal_strlit("ipv6");
            assert("ipv4"@[3] != "ipv6"@[3]);
        }
        let t = IpType::try_from(ip_type)?;
        let n = self.configs.len();
        let mut i: usize = 0;
        assert(self@.subrange(0, n as int) =~= self@);
        while i < n
            invariant
                n == self@.len(),
                i <= n,
                lowercase_of(ip_type@) == "ipv4"@ || lowercase_of(ip_type@) == "ipv6"@,
                lowercase_of(ip_type@) == "ipv4"@ ==> t == IpType::IPv4,
                lowercase_of(ip_type@) == "ipv6"@ ==> t == IpType::IPv6,
                first_of_type(self@, t) == first_of_type(self@.subrange(i as int, n as int), t),
            decreases n - i,
        {
            assert(self@.subrange(i as int, n as int).drop_first() =~= self@.subrange(
                i + 1,
                n as int,
            ));
            if self.configs[i].ip_type == t {
                return Ok(Some(self.configs[i].duplicate()));
            }
            i = i + 1;
        }
        Ok(None)
    }

    /// Validates every configuration and, when all pass, replaces the cache
    /// with them. The error is that of the first configuration that fails;
    /// the cache is then left as it was.
    pub fn save_configs(&mut self, configs: Vec<DdnsConfig>) -> (r: Result<(), DomainError>)
        ensures
            r is Ok <==> first_failure(configs@) is None,
            r is Ok ==> final(self)@ == configs@,
            r is Err ==> final(self)@ == old(self)@,
            first_failure(configs@) matches Some(msg) ==> (r matches Err(DomainError::Validation(m))
                && m@ == msg),
    {
        let n = configs.len();
        let mut i: usize = 0;
        assert(configs@.subrange(0, n as int) =~= configs@);
        while i < n
            invariant
                n == configs.len(),
                i <= n,
                first_failure(configs@) == first_failure(configs@.subrange(i as int, n as int)),
            decreases n - i,
        {
            assert(configs@.subrange(i as int, n as int).drop_first() =~= configs@.subrange(
                i + 1,
                n as int,
            ));
            let checked = configs[i].validate();
            if checked.is_err() {
                return checked;
            }
            i = i + 1;
        }
        self.configs = configs;
        Ok(())
    }
}

/// Watches the modification time of the stored configuration and reports
/// each change once.
#[derive(Debug)]
pub struct ConfigWatcher {
    /// The last modification time seen or written, if any.
    pub last_seen: Option<u64>,
}

/// Whether a check that finds the file with modification time `current`
/// (None: no file) reports a change: the file exists and was never seen or
/// is newer than what was seen.
pub open spec fn spec_should_notify(last_seen: Option<u64>, current: Option<u64>) -> bool {
    current is Some && (last_seen is None || current->0 > last_seen->0)
}

/// What the watcher remembers after such a check.
pub open spec fn spec_seen_after(last_seen: Option<u64>, current: Option<u64>) -> Option<u64> {
    if spec_should_notify(last_seen, current) {
        current
    } else {
        last_seen
    }
}

impl ConfigWatcher {
    pub fn new() -> (r: ConfigWatcher)
        ensures
            r.last_seen is None,
    {
        ConfigWatcher { last_seen: None }
    }

    /// One periodic check of the file's modification time.
    pub fn observe(&mut self, current: Option<u64>) -> (r: bool)
        ensures
            r == spec_should_notify(old(self).last_seen, current),
            final(self).last_seen == spec_seen_after(old(self).last_seen, current),
    {
        let notify = match current {
            None => false,
            Some(t) => match self.last_seen {
                None => true,
                Some(last) => t > last,
            },
        };
        if notify {
            self.last_seen = current;
        }
        notify
    }

    /// Remembers the modification time of a write made by the store itself,
    /// so that the next check does not report it again.
    pub fn record_own_write(&mut self, modified: u64)
        ensures
            final(self).last_seen == Some(modified),
    {
        self.last_seen = Some(modified);
    }
}

/// A change is reported once: a second check that finds the same
/// modification time reports nothing.
pub proof fn lemma_one_notification_per_change(last_seen: Option<u64>, current: Option<u64>)
    ensures
        !spec_should_notify(spec_seen_after(last_seen, current), current),
{
}

/// A write the store made itself is not reported by the next check.
pub proof fn lemma_own_write_not_reported(modified: u64)
    ensures
        !spec_should_notify(Some(modified), Some(modified)),
{
}

} // verus!
