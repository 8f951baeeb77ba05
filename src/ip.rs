//! Public address lookup: the lookup endpoints and the order in which the
//! IPv6 mirrors are tried.
use vstd::prelude::*;
use vstd::string::StringExecFns;
use crate::error::{DomainError, NetworkErrorType};

verus! {

/// Endpoint that answers with the caller's IPv4 address.
pub const DEFAULT_IPV4_URL: &'static str = "https://api4.ipify.org";

/// Endpoints that answer with the caller's IPv6 address, tried in order.
pub const IPV6_MIRROR_1: &'static str = "https://api6.ipify.org";

pub const IPV6_MIRROR_2: &'static str = "https://v6.ident.me/";

pub const IPV6_MIRROR_3: &'static str = "https://ifconfig.co/ip";

/// The lookup endpoints in use.
#[derive(Debug)]
pub struct PublicIpService {
    pub ipv4_url: String,
    pub ipv6_urls: Vec<String>,
}

/// What the resolver does after asking one IPv6 mirror.
#[derive(Debug)]
pub enum MirrorStep {
    /// The answer is a valid IPv6 address: use it.
    Accept(String),
    /// Ask the next mirror.
    TryNext,
    /// Every mirror was asked: resolution failed.
    GiveUp(DomainError),
}

impl PublicIpService {
    /// The endpoints to use: the given IPv4 endpoint or the default one, and
    /// the given IPv6 endpoint alone or the three default mirrors.
    pub fn new(ipv4_url: Option<String>, ipv6_url: Option<String>) -> (r: PublicIpService)
        ensures
            ipv4_url is Some ==> r.ipv4_url == ipv4_url->0,
            ipv4_url is None ==> r.ipv4_url@ == DEFAULT_IPV4_URL@,
            ipv6_url is Some ==> r.ipv6_urls@ == seq![ipv6_url->0],
            ipv6_url is None ==> r.ipv6_urls.len() == 3 && r.ipv6_urls@[0]@ == IPV6_MIRROR_1@
                && r.ipv6_urls@[1]@ == IPV6_MIRROR_2@ && r.ipv6_urls@[2]@ == IPV6_MIRROR_3@,
    {
        let ipv6_urls = match ipv6_url {
            Some(url) => {
                let mut v: Vec<String> = Vec::new();
                v.push(url);
                v
            },
            None => {
                let mut v: Vec<String> = Vec::new();
                v.push(IPV6_MIRROR_1.to_string());
                v.push(IPV6_MIRROR_2.to_string());
                v.push(IPV6_MIRROR_3.to_string());
                v
            },
        };
        let ipv4_url = match ipv4_url {
            Some(url) => url,
            None => DEFAULT_IPV4_URL.to_string(),
        };
        PublicIpService { ipv4_url, ipv6_urls }
    }
}

/// Decides after mirror `index` of `count` answered `fetched`;
/// `parses_as_ipv6` tells whether the answer is a valid IPv6 literal. A
/// valid answer is used; otherwise the next mirror is asked, and after the
/// last one resolution fails.
pub fn ipv6_step(index: usize, count: usize, fetched: Result<String, DomainError>, parses_as_ipv6: bool) -> (r:
    MirrorStep)
    requires
        index < count,
    ensures
        fetched is Ok && parses_as_ipv6 ==> r == MirrorStep::Accept(fetched->Ok_0),
        !(fetched is Ok && parses_as_ipv6) && index + 1 < count ==> r == MirrorStep::TryNext,
        fetched is Ok && !parses_as_ipv6 && index + 1 == count ==> (r matches MirrorStep::GiveUp(
            DomainError::Network(NetworkErrorType::Unknown(m)),
        ) && m@ == "無法獲取 IPv6 地址，所有服務均失敗"@),
        fetched is Err && index + 1 == count ==> (r matches MirrorStep::GiveUp(
            DomainError::Network(NetworkErrorType::Unknown(m)),
        ) && m@ == "所有 IPv6 檢測服務均失敗: "@ + fetched->Err_0.spec_message()),
{
    match fetched {
        Ok(ip) => {
            if parses_as_ipv6 {
                MirrorStep::Accept(ip)
            } else if index + 1 < count {
                MirrorStep::TryNext
            } else {
                MirrorStep::GiveUp(DomainError::network("無法獲取 IPv6 地址，所有服務均失敗".to_string()))
            }
        },
        Err(e) => {
            if index + 1 < count {
                MirrorStep::TryNext
            } else {
                let mut m = "所有 IPv6 檢測服務均失敗: ".to_string();
                let cause = e.message();
                m.append(cause.as_str());
                MirrorStep::GiveUp(DomainError::network(m))
            }
        },
    }
}

} // verus!
