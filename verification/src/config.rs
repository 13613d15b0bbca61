//! Settings read from the environment, and the defaults that fill the gaps.

use vstd::prelude::*;
use vstd::string::*;

verus! {

/// Why the settings could not be read.
#[derive(Debug)]
pub enum ConfigError {
    /// A required variable is missing; the name says which.
    Missing(String),
    /// A variable does not read; its name, and the reason.
    Invalid(String, String),
}

/// The text of a configuration error.
pub open spec fn config_error_text(e: ConfigError) -> Seq<char> {
    match e {
        ConfigError::Missing(name) => "필수 환경 변수가 없습니다: "@ + name@,
        ConfigError::Invalid(name, detail) => "환경 변수 "@ + name@ + "의 형식이 올바르지 않습니다: "@
            + detail@,
    }
}

impl ConfigError {
    /// The error's text.
    pub fn message(&self) -> (s: String)
        ensures
            s@ == config_error_text(*self),
    {
        match self {
            ConfigError::Missing(name) => {
                let mut s = "필수 환경 변수가 없습니다: ".to_owned();
                s.append(name.as_str());
                s
            },
            ConfigError::Invalid(name, detail) => {
                let mut s = "환경 변수 ".to_owned();
                s.append(name.as_str());
                s.append("의 형식이 올바르지 않습니다: ");
                s.append(detail.as_str());
                s
            },
        }
    }
}

/// The server settings that the environment gives, before the bind
/// address is parsed.
#[derive(Debug)]
pub struct ConfigValues {
    pub bind_addr: String,
    pub service_name: String,
    pub database_url: String,
}

/// The bind address: `BIND_ADDR`, else `0.0.0.0:3000`.
pub open spec fn bind_addr_or_default(var: Option<String>) -> Seq<char> {
    match var {
        Some(v) => v@,
        None => "0.0.0.0:3000"@,
    }
}

/// The service name: `SERVICE_NAME`, else `rustboard-api`.
pub open spec fn service_name_or_default(var: Option<String>) -> Seq<char> {
    match var {
        Some(v) => v@,
        None => "rustboard-api"@,
    }
}

/// The bind address to use for the variable `BIND_ADDR`: the variable, or
/// `0.0.0.0:3000` when it is not set.
pub fn bind_addr_text(var: Option<String>) -> (s: String)
    ensures
        s@ == bind_addr_or_default(var),
{
    match var {
        Some(v) => v,
        None => "0.0.0.0:3000".to_owned(),
    }
}

/// Fills in the settings. `bind_addr` is the address that `bind_addr_text`
/// chose and `bind_addr_error` the reason it does not read as a socket
/// address, if it does not; `SERVICE_NAME` has a default and
/// `DATABASE_URL` is required. The address is judged first.
pub fn resolve_config(
    bind_addr: String,
    bind_addr_error: Option<String>,
    service_name: Option<String>,
    database_url: Option<String>,
) -> (r: Result<ConfigValues, ConfigError>)
    ensures
        match bind_addr_error {
            Some(reason) => r matches Err(ConfigError::Invalid(name, detail)) && name@
                == "BIND_ADDR"@ && detail == reason,
            None => match database_url {
                None => r matches Err(ConfigError::Missing(name)) && name@ == "DATABASE_URL"@,
                Some(url) => r matches Ok(c) && c.bind_addr == bind_addr && c.service_name@
                    == service_name_or_default(service_name) && c.database_url == url,
            },
        },
{
    if let Some(reason) = bind_addr_error {
        return Err(ConfigError::Invalid("BIND_ADDR".to_owned(), reason));
    }
    let service_name = match service_name {
        Some(v) => v,
        None => "rustboard-api".to_owned(),
    };
    match database_url {
        None => Err(ConfigError::Missing("DATABASE_URL".to_owned())),
        Some(database_url) => Ok(ConfigValues { bind_addr, service_name, database_url }),
    }
}

/// The settings of the whole server (file and environment).
#[derive(Debug)]
pub struct Settings {
    pub app_addr: String,
    pub database_url: String,
    pub otel_exporter_otlp_endpoint: String,
    pub jwt_secret: String,
    pub jwt_token_expiration_minutes: i64,
}

} // verus!
