//! Settings of the administrative server.
use vstd::prelude::*;
use crate::error::DomainError;
use crate::store::{parse_u64, parsed_u64};

verus! {

/// Where the administrative server listens.
#[derive(Debug)]
pub struct ServerSettings {
    pub host: String,
    pub port: u16,
}

/// Settings of the application.
#[derive(Debug)]
pub struct Settings {
    pub server: ServerSettings,
}

/// Port used when none is configured.
pub const DEFAULT_PORT: u16 = 8080;

/// The port a setting spells, if it spells one.
pub open spec fn spec_port(text: Seq<char>) -> Option<u16> {
    match parsed_u64(text) {
        Some(n) => if n <= u16::MAX {
            Some(n as u16)
        } else {
            None
        },
        None => None,
    }
}

impl Settings {
    /// Settings from the optional host and port settings: the host defaults
    /// to all interfaces and the port to 8080; a port that is not a number
    /// from 0 to 65535 is a configuration error.
    pub fn new(host: Option<String>, port: Option<String>) -> (r: Result<Settings, DomainError>)
        ensures
            port is Some && spec_port(port->0@) is None ==> (r matches Err(
                DomainError::Configuration(m),
            ) && m@ == "Invalid port number"@),
            port is Some && spec_port(port->0@) is Some ==> (r matches Ok(s) && s.server.port
                == spec_port(port->0@)->0),
            port is None ==> (r matches Ok(s) && s.server.port == DEFAULT_PORT),
            r matches Ok(s) ==> (host is Some ==> s.server.host == host->0) && (host is None
                ==> s.server.host@ == "0.0.0.0"@),
    {
        let host = match host {
            Some(h) => h,
            None => "0.0.0.0".to_string(),
        };
        let port = match port {
            None => DEFAULT_PORT,
            Some(p) => match parse_u64(p.as_str()) {
                Some(n) => {
                    if n <= 65535 {
                        n as u16
                    } else {
                        return Err(DomainError::Configuration("Invalid port number".to_string()));
                    }
                },
                None => {
                    return Err(DomainError::Configuration("Invalid port number".to_string()));
                },
            },
        };
        Ok(Settings { server: ServerSettings { host, port } })
    }
}

} // verus!
