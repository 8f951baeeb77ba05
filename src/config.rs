//! Monitored-record configuration and its validation.
use vstd::prelude::*;
use vstd::string::*;
use crate::error::DomainError;

verus! {

/// Address family of a monitored record.
#[derive(Clone, Copy, Debug, PartialEq, Eq, Hash, Structural)]
pub enum IpType {
    IPv4,
    IPv6,
}

/// The characters with the Unicode White_Space property.
pub open spec fn whitespace(c: char) -> bool {
    let u = c as u32;
    ||| 0x09 <= u <= 0x0D
    ||| u == 0x20
    ||| u == 0x85
    ||| u == 0xA0
    ||| u == 0x1680
    ||| 0x2000 <= u <= 0x200A
    ||| u == 0x2028
    ||| u == 0x2029
    ||| u == 0x202F
    ||| u == 0x205F
    ||| u == 0x3000
}

/// What `str::to_lowercase` returns for a string.
pub uninterp spec fn lowercase_of(s: Seq<char>) -> Seq<char>;

/// Relies on char::is_whitespace: whether the character has the Unicode
/// White_Space property (the set listed in `whitespace`), the set that
/// `str::trim` strips.
#[verifier::external_body]
fn is_whitespace_char(c: char) -> (r: bool)
    ensures
        r == whitespace(c),
{
    c.is_whitespace()
}

/// Relies on str::to_lowercase: the lowercase form of the string.
#[verifier::external_body]
fn to_lowercase(s: &str) -> (r: String)
    ensures
        r@ == lowercase_of(s@),
{
    s.to_lowercase()
}

/// A string that trims to nothing: every character is whitespace.
pub open spec fn blank(s: Seq<char>) -> bool {
    forall|i: int| 0 <= i < s.len() ==> #[trigger] whitespace(s[i])
}

/// Whether `s.trim()` is empty.
pub fn is_blank(s: &str) -> (r: bool)
    ensures
        r == blank(s@),
{
    let n = s.unicode_len();
    let mut i: usize = 0;
    while i < n
        invariant
            n == s@.len(),
            i <= n,
            forall|j: int| 0 <= j < i ==> #[trigger] whitespace(s@[j]),
        decreases n - i,
    {
        let c = s.get_char(i);
        if !is_whitespace_char(c) {
            return false;
        }
        i = i + 1;
    }
    true
}

impl IpType {
    /// The lowercase name of the family.
    pub open spec fn name(self) -> Seq<char> {
        match self {
            IpType::IPv4 => "ipv4"@,
            IpType::IPv6 => "ipv6"@,
        }
    }

    /// The DNS record type that carries an address of the family.
    pub open spec fn spec_record_type(self) -> Seq<char> {
        match self {
            IpType::IPv4 => "A"@,
            IpType::IPv6 => "AAAA"@,
        }
    }

    pub fn to_string(&self) -> (r: String)
        ensures
            r@ == self.name(),
    {
        match self {
            IpType::IPv4 => "ipv4".to_string(),
            IpType::IPv6 => "ipv6".to_string(),
        }
    }

    pub fn record_type(&self) -> (r: String)
        ensures
            r@ == self.spec_record_type(),
    {
        match self {
            IpType::IPv4 => "A".to_string(),
            IpType::IPv6 => "AAAA".to_string(),
        }
    }

    /// Reads an already lowercased family name; `given` is the text the
    /// caller was given, quoted in the error.
    pub fn from_lowercase(lowered: &str, given: &str) -> (r: Result<IpType, DomainError>)
        ensures
            lowered@ == "ipv4"@ ==> r == Ok::<IpType, DomainError>(IpType::IPv4),
            lowered@ == "ipv6"@ ==> r == Ok::<IpType, DomainError>(IpType::IPv6),
            lowered@ != "ipv4"@ && lowered@ != "ipv6"@ ==> (r matches Err(
                DomainError::Validation(m),
            ) && m@ == "Invalid IP type: "@ + given@),
    {
        proof {
            reveal_strlit("ipv4");
            reveal_strlit("ipv6");
            assert("ipv4"@[3] != "ipv6"@[3]);
        }
        let l = lowered.to_string();
        if l == "ipv4".to_string() {
            Ok(IpType::IPv4)
        } else if l == "ipv6".to_string() {
            Ok(IpType::IPv6)
        } else {
            let mut m = "Invalid IP type: ".to_string();
            m.append(given);
            Err(DomainError::Validation(m))
        }
    }

    /// Reads a family name in any letter case.
    pub fn try_from(value: &str) -> (r: Result<IpType, DomainError>)
        ensures
            lowercase_of(value@) == "ipv4"@ ==> r == Ok::<IpType, DomainError>(IpType::IPv4),
            lowercase_of(value@) == "ipv6"@ ==> r == Ok::<IpType, DomainError>(IpType::IPv6),
            lowercase_of(value@) != "ipv4"@ && lowercase_of(value@) != "ipv6"@ ==> (r matches Err(
                DomainError::Validation(m),
            ) && m@ == "Invalid IP type: "@ + value@),
    {
        let lowered = to_lowercase(value);
        Self::from_lowercase(lowered.as_str(), value)
    }
}

/// One monitored record: where it lives at the provider, how often it is
/// polled and which address family it carries.
#[derive(Debug)]
pub struct DdnsConfig {
    pub api_token: String,
    pub zone_id: String,
    pub record_id: String,
    pub record_name: String,
    /// Seconds between two poll cycles.
    pub update_interval: u64,
    pub ip_type: IpType,
}

/// Shortest poll interval that a configuration may ask for, in seconds.
pub const MIN_UPDATE_INTERVAL: u64 = 5;

impl DdnsConfig {
    /// The message of the first check that the configuration fails, if any.
    pub open spec fn validation_failure(&self) -> Option<Seq<char>> {
        if blank(self.api_token@) {
            Some("API token cannot be empty"@)
        } else if blank(self.zone_id@) {
            Some("Zone ID cannot be empty"@)
        } else if blank(self.record_id@) {
            Some("Record ID cannot be empty"@)
        } else if blank(self.record_name@) {
            Some("Record name cannot be empty"@)
        } else if self.update_interval < MIN_UPDATE_INTERVAL {
            Some("Update interval cannot be less than 5 seconds"@)
        } else {
            None
        }
    }

    /// A configuration that passes validation.
    pub open spec fn valid(&self) -> bool {
        self.validation_failure() is None
    }

    /// Checks that no text field is blank and that the poll interval is at
    /// least five seconds.
    pub fn validate(&self) -> (r: Result<(), DomainError>)
        ensures
            r is Ok <==> self.valid(),
            !self.valid() ==> (r matches Err(DomainError::Validation(m))
                && m@ == self.validation_failure()->0),
    {
        if is_blank(self.api_token.as_str()) {
            return Err(DomainError::Validation("API token cannot be empty".to_string()));
        }
        if is_blank(self.zone_id.as_str()) {
            return Err(DomainError::Validation("Zone ID cannot be empty".to_string()));
        }
        if is_blank(self.record_id.as_str()) {
            return Err(DomainError::Validation("Record ID cannot be empty".to_string()));
        }
        if is_blank(self.record_name.as_str()) {
            return Err(DomainError::Validation("Record name cannot be empty".to_string()));
        }
        if self.update_interval < MIN_UPDATE_INTERVAL {
            return Err(
                DomainError::Validation(
                    "Update interval cannot be less than 5 seconds".to_string(),
                ),
            );
        }
        Ok(())
    }

    /// A copy of the configuration, equal to it.
    pub fn duplicate(&self) -> (r: DdnsConfig)
        ensures
            r == *self,
    {
        DdnsConfig {
            api_token: self.api_token.clone(),
            zone_id: self.zone_id.clone(),
            record_id: self.record_id.clone(),
            record_name: self.record_name.clone(),
            update_interval: self.update_interval,
            ip_type: self.ip_type,
        }
    }
}

/// A poll interval under five seconds fails validation with a Validation
/// error, whatever the other fields hold.
pub proof fn lemma_short_interval_rejected(config: DdnsConfig)
    requires
        config.update_interval < 5,
    ensures
        !config.valid(),
        config.validation_failure() is Some,
{
}

} // verus!
