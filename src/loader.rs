//! Loading monitored records from a configuration file or from environment
//! settings, each checked before use. Reading the file and the environment
//! is left to the caller, which hands over the values.
use vstd::prelude::*;
use vstd::string::StringExecFns;
use crate::config::{DdnsConfig, IpType};
use crate::error::{to_decimal, decimal, AppError};
use crate::store::{parse_u64, parsed_u64, DEFAULT_UPDATE_INTERVAL};

verus! {

/// The environment settings the loader reads; the `_v6` ones describe the
/// IPv6 record and fall back to the plain ones where the plain ones exist.
#[derive(Debug)]
pub struct LoaderEnv {
    pub api_token: Option<String>,
    pub zone_id: Option<String>,
    pub record_id: Option<String>,
    pub record_name: Option<String>,
    pub update_interval: Option<String>,
    pub api_token_v6: Option<String>,
    pub zone_id_v6: Option<String>,
    pub record_id_v6: Option<String>,
    pub record_name_v6: Option<String>,
    pub update_interval_v6: Option<String>,
}

/// Loads and checks monitored-record configurations.
pub struct DdnsConfigLoader;

/// `a` when set, else `b`.
pub open spec fn first_set(a: Option<String>, b: Option<String>) -> Option<String> {
    if a is Some {
        a
    } else {
        b
    }
}

/// The interval a setting gives: the default when unset, else the number it
/// spells, if any.
pub open spec fn interval_setting(text: Option<String>) -> Option<u64> {
    match text {
        None => Some(DEFAULT_UPDATE_INTERVAL),
        Some(t) => parsed_u64(t@),
    }
}

/// `r` is a configuration error with message `msg`.
pub open spec fn config_error<T>(r: Result<T, AppError>, msg: Seq<char>) -> bool {
    r matches Err(AppError::ConfigError(m)) && m@ == msg
}

fn copy_text(s: &Option<String>) -> (r: Option<String>)
    ensures
        r == *s,
{
    match s {
        Some(t) => Some(t.clone()),
        None => None,
    }
}

fn read_interval(text: &Option<String>) -> (r: Option<u64>)
    ensures
        r == interval_setting(*text),
{
    match text {
        None => Some(DEFAULT_UPDATE_INTERVAL),
        Some(t) => parse_u64(t.as_str()),
    }
}

fn require(value: Option<String>, missing: &str) -> (r: Result<String, AppError>)
    ensures
        value is Some ==> r == Ok::<String, AppError>(value->0),
        value is None ==> config_error(r, missing@),
{
    match value {
        Some(v) => Ok(v),
        None => Err(AppError::ConfigError(missing.to_string())),
    }
}

impl DdnsConfigLoader {
    /// Checks a configuration; a failure names `context` before the reason.
    pub fn validate_config(config: &DdnsConfig, context: &str) -> (r: Result<(), AppError>)
        ensures
            r is Ok <==> config.valid(),
            !config.valid() ==> config_error(r, context@ + ": "@ + config.validation_failure()->0),
    {
        match config.validate() {
            Ok(()) => Ok(()),
            Err(crate::error::DomainError::Validation(reason)) => {
                let mut m = context.to_string();
                m.append(": ");
                m.append(reason.as_str());
                Err(AppError::ConfigError(m))
            },
            Err(_) => Err(AppError::ConfigError(context.to_string())),
        }
    }

    /// The IPv4 record of the environment: token, zone, record id and name
    /// are required, the interval defaults to 300 seconds.
    pub fn load_ipv4_config(env: &LoaderEnv) -> (r: Result<DdnsConfig, AppError>)
        ensures
            loaded_ipv4(*env, r),
    {
        let api_token = require(
            copy_text(&env.api_token),
            "Missing CLOUDFLARE_API_TOKEN environment variable",
        )?;
        let zone_id = require(copy_text(&env.zone_id), "Missing CLOUDFLARE_ZONE_ID environment variable")?;
        let record_id = require(
            copy_text(&env.record_id),
            "Missing CLOUDFLARE_RECORD_ID environment variable",
        )?;
        let record_name = require(
            copy_text(&env.record_name),
            "Missing CLOUDFLARE_RECORD_NAME environment variable",
        )?;
        let update_interval = match read_interval(&env.update_interval) {
            Some(n) => n,
            None => {
                return Err(AppError::ConfigError("DDNS_UPDATE_INTERVAL must be a number".to_string()));
            },
        };
        let config = DdnsConfig {
            api_token,
            zone_id,
            record_id,
            record_name,
            update_interval,
            ip_type: IpType::IPv4,
        };
        match Self::validate_config(&config, "IPv4 Configuration") {
            Ok(()) => Ok(config),
            Err(e) => Err(e),
        }
    }

    /// The IPv6 record of the environment: the `_v6` token, zone and
    /// interval take precedence over the plain ones; record id and name must
    /// be the `_v6` ones; the interval defaults to 300 seconds.
    pub fn load_ipv6_config(env: &LoaderEnv) -> (r: Result<DdnsConfig, AppError>)
        ensures
            loaded_ipv6(*env, r),
    {
        let token = match &env.api_token_v6 {
            Some(t) => Some(t.clone()),
            None => copy_text(&env.api_token),
        };
        let api_token = require(token, "Missing API token environment variable")?;
        let zone = match &env.zone_id_v6 {
            Some(z) => Some(z.clone()),
            None => copy_text(&env.zone_id),
        };
        let zone_id = require(zone, "Missing zone ID environment variable")?;
        let record_id = require(
            copy_text(&env.record_id_v6),
            "Missing CLOUDFLARE_RECORD_ID_V6 environment variable",
        )?;
        let record_name = require(
            copy_text(&env.record_name_v6),
            "Missing CLOUDFLARE_RECORD_NAME_V6 environment variable",
        )?;
        let interval_text = match &env.update_interval_v6 {
            Some(t) => Some(t.clone()),
            None => copy_text(&env.update_interval),
        };
        let update_interval = match read_interval(&interval_text) {
            Some(n) => n,
            None => {
                return Err(AppError::ConfigError("Update interval must be a number".to_string()));
            },
        };
        let config = DdnsConfig {
            api_token,
            zone_id,
            record_id,
            record_name,
            update_interval,
            ip_type: IpType::IPv6,
        };
        match Self::validate_config(&config, "IPv6 Configuration") {
            Ok(()) => Ok(config),
            Err(e) => Err(e),
        }
    }

    /// The record of one family, named exactly "ipv4" or "ipv6".
    pub fn load_for_api(ip_type: &str, env: &LoaderEnv) -> (r: Result<DdnsConfig, AppError>)
        ensures
            ip_type@ == "ipv4"@ ==> loaded_ipv4(*env, r),
            ip_type@ == "ipv6"@ ==> loaded_ipv6(*env, r),
            ip_type@ != "ipv4"@ && ip_type@ != "ipv6"@ ==> config_error(
                r,
                "Invalid IP type: "@ + ip_type@,
            ),
    {
        proof {
            reveal_strlit("ipv4");
            reveal_strlit("ipv6");
            assert("ipv4"@[3] != "ipv6"@[3]);
        }
        let t = ip_type.to_string();
        if t == "ipv4".to_string() {
            Self::load_ipv4_config(env)
        } else if t == "ipv6".to_string() {
            Self::load_ipv6_config(env)
        } else {
            let mut m = "Invalid IP type: ".to_string();
            m.append(ip_type);
            Err(AppError::ConfigError(m))
        }
    }
}

/// The outcome of loading the IPv4 record from `env`.
pub open spec fn loaded_ipv4(env: LoaderEnv, r: Result<DdnsConfig, AppError>) -> bool {
    if env.api_token is None {
        config_error(r, "Missing CLOUDFLARE_API_TOKEN environment variable"@)
    } else if env.zone_id is None {
        config_error(r, "Missing CLOUDFLARE_ZONE_ID environment variable"@)
    } else if env.record_id is None {
        config_error(r, "Missing CLOUDFLARE_RECORD_ID environment variable"@)
    } else if env.record_name is None {
        config_error(r, "Missing CLOUDFLARE_RECORD_NAME environment variable"@)
    } else if interval_setting(env.update_interval) is None {
        config_error(r, "DDNS_UPDATE_INTERVAL must be a number"@)
    } else {
        let c = DdnsConfig {
            api_token: env.api_token->0,
            zone_id: env.zone_id->0,
            record_id: env.record_id->0,
            record_name: env.record_name->0,
            update_interval: interval_setting(env.update_interval)->0,
            ip_type: IpType::IPv4,
        };
        if c.valid() {
            r == Ok::<DdnsConfig, AppError>(c)
        } else {
            config_error(r, "IPv4 Configuration"@ + ": "@ + c.validation_failure()->0)
        }
    }
}

/// The outcome of loading the IPv6 record from `env`.
pub open spec fn loaded_ipv6(env: LoaderEnv, r: Result<DdnsConfig, AppError>) -> bool {
    if first_set(env.api_token_v6, env.api_token) is None {
        config_error(r, "Missing API token environment variable"@)
    } else if first_set(env.zone_id_v6, env.zone_id) is None {
        config_error(r, "Missing zone ID environment variable"@)
    } else if env.record_id_v6 is None {
        config_error(r, "Missing CLOUDFLARE_RECORD_ID_V6 environment variable"@)
    } else if env.record_name_v6 is None {
        config_error(r, "Missing CLOUDFLARE_RECORD_NAME_V6 environment variable"@)
    } else if interval_setting(first_set(env.update_interval_v6, env.update_interval)) is None {
        config_error(r, "Update interval must be a number"@)
    } else {
        let c = DdnsConfig {
            api_token: first_set(env.api_token_v6, env.api_token)->0,
            zone_id: first_set(env.zone_id_v6, env.zone_id)->0,
            record_id: env.record_id_v6->0,
            record_name: env.record_name_v6->0,
            update_interval: interval_setting(first_set(env.update_interval_v6, env.update_interval))->0,
            ip_type: IpType::IPv6,
        };
        if c.valid() {
            r == Ok::<DdnsConfig, AppError>(c)
        } else {
            config_error(r, "IPv6 Configuration"@ + ": "@ + c.validation_failure()->0)
        }
    }
}

/// Position of the first configuration, from `i` on, that fails validation.
pub open spec fn first_invalid_from(configs: Seq<DdnsConfig>, i: int) -> Option<int>
    decreases configs.len() - i,
{
    if i < 0 || i >= configs.len() {
        None
    } else if !configs[i].valid() {
        Some(i)
    } else {
        first_invalid_from(configs, i + 1)
    }
}

/// The context under which the configuration at `i` of a file is checked.
pub open spec fn file_context(i: nat) -> Seq<char> {
    "Configuration["@ + decimal(i) + "]"@
}

/// The configurations the environment gives, IPv4 first, from the outcomes
/// of loading each.
pub open spec fn env_configs(
    r4: Result<DdnsConfig, AppError>,
    r6: Result<DdnsConfig, AppError>,
) -> Seq<DdnsConfig> {
    (if r4 is Ok {
        seq![r4->Ok_0]
    } else {
        Seq::empty()
    }) + (if r6 is Ok {
        seq![r6->Ok_0]
    } else {
        Seq::empty()
    })
}

impl DdnsConfigLoader {
    /// Checks every configuration read from a file; the first that fails
    /// is reported with its position.
    pub fn check_file_configs(configs: Vec<DdnsConfig>) -> (r: Result<Vec<DdnsConfig>, AppError>)
        ensures
            first_invalid_from(configs@, 0) is None ==> r == Ok::<Vec<DdnsConfig>, AppError>(configs),
            first_invalid_from(configs@, 0) matches Some(k) ==> config_error(
                r,
                file_context(k as nat) + ": "@ + configs@[k].validation_failure()->0,
            ),
    {
        let n = configs.len();
        let mut i: usize = 0;
        while i < n
            invariant
                n == configs.len(),
                i <= n,
                first_invalid_from(configs@, 0) == first_invalid_from(configs@, i as int),
            decreases n - i,
        {
            let mut context = "Configuration[".to_string();
            let digits = to_decimal(i as u64);
            context.append(digits.as_str());
            context.append("]");
            match Self::validate_config(&configs[i], context.as_str()) {
                Ok(()) => {},
                Err(e) => {
                    return Err(e);
                },
            }
            i = i + 1;
        }
        Ok(configs)
    }

    /// The configurations to run: those of the file when it gave a
    /// non-empty list that passed its checks, else those the environment
    /// describes; an error when there are none.
    pub fn load_all_configs(file: Option<Result<Vec<DdnsConfig>, AppError>>, env: &LoaderEnv) -> (r:
        Result<Vec<DdnsConfig>, AppError>)
        ensures
            (file matches Some(Ok(v)) && v.len() > 0) ==> r == file->0,
            !(file matches Some(Ok(v)) && v.len() > 0) ==> exists|
                r4: Result<DdnsConfig, AppError>,
                r6: Result<DdnsConfig, AppError>,
            |
                #![trigger env_configs(r4, r6)]
                loaded_ipv4(*env, r4) && loaded_ipv6(*env, r6) && (env_configs(r4, r6).len() == 0
                    ==> config_error(r, "Unable to load any DDNS configurations"@)) && (env_configs(
                    r4,
                    r6,
                ).len() > 0 ==> (r matches Ok(v) && v@ == env_configs(r4, r6))),
    {
        if let Some(Ok(v)) = &file {
            if v.len() > 0 {
                return file.unwrap();
            }
        }
        let r4 = Self::load_ipv4_config(env);
        let r6 = Self::load_ipv6_config(env);
        let ghost g4 = r4;
        let ghost g6 = r6;
        let mut configs: Vec<DdnsConfig> = Vec::new();
        if let Ok(c) = r4 {
            configs.push(c);
        }
        if let Ok(c) = r6 {
            configs.push(c);
        }
        assert(configs@ =~= env_configs(g4, g6));
        if configs.len() == 0 {
            Err(AppError::ConfigError("Unable to load any DDNS configurations".to_string()))
        } else {
            Ok(configs)
        }
    }
}

} // verus!
