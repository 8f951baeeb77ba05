//! Provider-neutral DNS records and the rules for reading provider replies.
use vstd::prelude::*;
use vstd::string::StringExecFns;
use crate::error::DomainError;

verus! {

/// A DNS record as the provider holds it.
#[derive(Debug)]
pub struct DnsRecord {
    pub id: Option<String>,
    pub name: String,
    pub record_type: String,
    pub content: String,
    pub ttl: u32,
    pub proxied: bool,
}

/// The reply to an update: the record and whether a write took place.
#[derive(Debug)]
pub struct DnsUpdateResult {
    pub record: DnsRecord,
    pub updated: bool,
}

impl DnsRecord {
    pub fn duplicate(&self) -> (r: DnsRecord)
        ensures
            r == *self,
    {
        let id = match &self.id {
            Some(s) => Some(s.clone()),
            None => None,
        };
        DnsRecord {
            id,
            name: self.name.clone(),
            record_type: self.record_type.clone(),
            content: self.content.clone(),
            ttl: self.ttl,
            proxied: self.proxied,
        }
    }
}

/// Base of the provider's REST API.
pub const API_BASE: &'static str = "https://api.cloudflare.com/client/v4/zones/";

/// URL of the record list of a zone.
pub fn records_url(zone_id: &str) -> (r: String)
    ensures
        r@ == API_BASE@ + zone_id@ + "/dns_records"@,
{
    let mut r = API_BASE.to_string();
    r.append(zone_id);
    r.append("/dns_records");
    r
}

/// URL of one record of a zone.
pub fn record_url(zone_id: &str, record_id: &str) -> (r: String)
    ensures
        r@ == API_BASE@ + zone_id@ + "/dns_records/"@ + record_id@,
{
    let mut r = API_BASE.to_string();
    r.append(zone_id);
    r.append("/dns_records/");
    r.append(record_id);
    r
}

/// Value of the Authorization header for an API token.
pub fn bearer_header(api_token: &str) -> (r: String)
    ensures
        r@ == "Bearer "@ + api_token@,
{
    let mut r = "Bearer ".to_string();
    r.append(api_token);
    r
}

/// The errors of a reply, joined with ", ".
pub open spec fn joined(errors: Seq<String>) -> Seq<char>
    decreases errors.len(),
{
    if errors.len() == 0 {
        Seq::empty()
    } else if errors.len() == 1 {
        errors[0]@
    } else {
        joined(errors.drop_last()) + ", "@ + errors.last()@
    }
}

/// The message of a reply whose success flag is false.
pub open spec fn failure_message(errors: Seq<String>) -> Seq<char> {
    if errors.len() == 0 {
        "Unknown Cloudflare API error"@
    } else {
        "Cloudflare API error: "@ + joined(errors)
    }
}

pub fn join_errors(errors: &Vec<String>) -> (r: String)
    ensures
        r@ == joined(errors@),
{
    let mut r = String::new();
    let mut i: usize = 0;
    while i < errors.len()
        invariant
            i <= errors.len(),
            r@ == joined(errors@.take(i as int)),
        decreases errors.len() - i,
    {
        if i > 0 {
            r.append(", ");
        }
        r.append(errors[i].as_str());
        i = i + 1;
        assert(errors@.take(i as int).drop_last() == errors@.take(i - 1));
    }
    assert(errors@.take(errors.len() as int) == errors@);
    r
}

/// Checks the success flag of a reply envelope. A false flag is a logic
/// error of the provider, distinct from transport errors and not retried.
pub fn check_envelope(success: bool, errors: &Vec<String>) -> (r: Result<(), DomainError>)
    ensures
        success ==> r is Ok,
        !success ==> (r matches Err(DomainError::LogicError(m)) && m@ == failure_message(
            errors@,
        )),
{
    if success {
        Ok(())
    } else if errors.len() == 0 {
        Err(DomainError::LogicError("Unknown Cloudflare API error".to_string()))
    } else {
        let mut m = "Cloudflare API error: ".to_string();
        let j = join_errors(errors);
        m.append(j.as_str());
        Err(DomainError::LogicError(m))
    }
}

/// Reads the reply to an update: the written record, or a logic error when
/// the flag is false or the record is missing.
pub fn read_update_reply(success: bool, errors: &Vec<String>, result: Option<DnsRecord>) -> (r:
    Result<DnsUpdateResult, DomainError>)
    ensures
        !success ==> (r matches Err(DomainError::LogicError(m)) && m@ == failure_message(
            errors@,
        )),
        success && result is Some ==> r == Ok::<DnsUpdateResult, DomainError>(
            DnsUpdateResult { record: result->0, updated: true },
        ),
        success && result is None ==> (r matches Err(DomainError::LogicError(m)) && m@
            == "No record in response"@),
{
    check_envelope(success, errors)?;
    match result {
        Some(record) => Ok(DnsUpdateResult { record, updated: true }),
        None => Err(DomainError::LogicError("No record in response".to_string())),
    }
}

/// Reads the reply to a lookup of one record; a missing record is NotFound.
pub fn read_get_reply(
    success: bool,
    errors: &Vec<String>,
    result: Option<DnsRecord>,
    record_id: &str,
) -> (r: Result<DnsRecord, DomainError>)
    ensures
        !success ==> (r matches Err(DomainError::LogicError(m)) && m@ == failure_message(
            errors@,
        )),
        success && result is Some ==> r == Ok::<DnsRecord, DomainError>(result->0),
        success && result is None ==> (r matches Err(DomainError::NotFound(m)) && m@
            == "DNS record not found: "@ + record_id@),
{
    check_envelope(success, errors)?;
    match result {
        Some(record) => Ok(record),
        None => {
            let mut m = "DNS record not found: ".to_string();
            m.append(record_id);
            Err(DomainError::NotFound(m))
        },
    }
}

/// Reads the reply to a listing; a missing list is an empty one.
pub fn read_list_reply(success: bool, errors: &Vec<String>, result: Option<Vec<DnsRecord>>) -> (r:
    Result<Vec<DnsRecord>, DomainError>)
    ensures
        !success ==> (r matches Err(DomainError::LogicError(m)) && m@ == failure_message(
            errors@,
        )),
        success && result is Some ==> r == Ok::<Vec<DnsRecord>, DomainError>(result->0),
        success && result is None ==> (r matches Ok(v) && v@.len() == 0),
{
    check_envelope(success, errors)?;
    match result {
        Some(records) => Ok(records),
        None => Ok(Vec::new()),
    }
}

/// Reads the reply to a creation; a missing record is a logic error.
pub fn read_create_reply(success: bool, errors: &Vec<String>, result: Option<DnsRecord>) -> (r:
    Result<DnsRecord, DomainError>)
    ensures
        !success ==> (r matches Err(DomainError::LogicError(m)) && m@ == failure_message(
            errors@,
        )),
        success && result is Some ==> r == Ok::<DnsRecord, DomainError>(result->0),
        success && result is None ==> (r matches Err(DomainError::LogicError(m)) && m@
            == "Failed to create DNS record"@),
{
    check_envelope(success, errors)?;
    match result {
        Some(record) => Ok(record),
        None => Err(DomainError::LogicError("Failed to create DNS record".to_string())),
    }
}

} // verus!
