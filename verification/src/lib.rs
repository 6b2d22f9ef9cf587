//! Bootstrap-and-serving core for an MCP server that exposes the Resend
//! email API as callable tools: configuration validation, tool-registry
//! construction from a decoded OpenAPI document, an advisory startup health
//! probe, and the transport dispatch state machine. The serving loops
//! themselves perform the I/O; every decision they act on is made and
//! verified here.
use vstd::prelude::*;

pub mod config;
pub mod dispatch;
pub mod health;
pub mod registry;
pub mod upstream;

verus! {

use crate::config::{ConfigError, RawConfig, Settings};
use crate::config::{valid_port_text, valid_transport_text, url_well_formed};
use crate::registry::{
    DefaultHeaders, RegistryValidationError, SpecDocument, ToolRegistry, built_from,
    unique_operation_ids,
};

/// Which serving strategy the process runs; chosen once at startup.
#[derive(Clone, Copy, Debug, PartialEq, Eq, Structural)]
pub enum Transport {
    Stdio,
    Http,
}

impl Transport {
    /// A stdio transport serves exactly one local session; http serves
    /// concurrent network connections.
    pub fn is_local(&self) -> (r: bool)
        ensures
            r == (*self == Transport::Stdio),
    {
        match self {
            Transport::Stdio => true,
            Transport::Http => false,
        }
    }
}

/// A fault of the startup pipeline; all are fatal: the process exits
/// non-zero before any serving work.
#[derive(Debug)]
pub enum FatalError {
    Config(ConfigError),
    Registry(RegistryValidationError),
}

/// The raw configuration passes validation.
pub open spec fn config_ok(raw: RawConfig) -> bool {
    &&& valid_transport_text(raw.transport@)
    &&& valid_port_text(raw.port@)
    &&& raw.api_key@.len() > 0
    &&& url_well_formed(raw.base_url@)
}

/// The fault an invalid raw configuration is reported with: the first one
/// in source order.
pub open spec fn spec_config_error(raw: RawConfig) -> ConfigError {
    if !valid_transport_text(raw.transport@) {
        ConfigError::InvalidTransport
    } else if !valid_port_text(raw.port@) {
        ConfigError::InvalidPort
    } else if raw.api_key@.len() == 0 {
        ConfigError::MissingApiKey
    } else {
        ConfigError::InvalidBaseUrl
    }
}

/// The pre-serving pipeline: validate the configuration, derive the
/// default headers from the credential, build and check the registry. The
/// first fault is fatal and nothing after it runs; no serving activity of
/// any kind happens here.
pub fn bootstrap(raw: RawConfig, doc: &SpecDocument) -> (r: Result<
    (Settings, ToolRegistry),
    FatalError,
>)
    ensures
        r is Ok <==> config_ok(raw) && unique_operation_ids(doc.operations@),
        r matches Ok(p) ==> {
            &&& p.0.wf()
            &&& p.1.wf()
            &&& built_from(*doc, p.1)
            &&& p.1.headers.wf(p.0.api_key@)
            &&& p.0.api_key == raw.api_key
            &&& p.0.base_url == raw.base_url
            &&& p.0.bind_address == raw.bind_address
            &&& p.0.port == crate::config::digits_value(raw.port@)
            &&& p.0.health_check == !raw.no_health_check
            &&& (raw.transport@ == "stdio"@ ==> p.0.transport == Transport::Stdio)
            &&& (raw.transport@ == "http"@ ==> p.0.transport == Transport::Http)
        },
        !config_ok(raw) ==> r == Err::<(Settings, ToolRegistry), FatalError>(
            FatalError::Config(spec_config_error(raw)),
        ),
        config_ok(raw) && !unique_operation_ids(doc.operations@) ==> r == Err::<
            (Settings, ToolRegistry),
            FatalError,
        >(FatalError::Registry(RegistryValidationError::DuplicateToolName)),
{
    let settings = match crate::config::validate(raw) {
        Ok(s) => s,
        Err(e) => {
            return Err(FatalError::Config(e));
        },
    };
    let headers = DefaultHeaders::new(settings.api_key.as_str());
    let reg = match ToolRegistry::build(doc, headers) {
        Ok(reg) => reg,
        Err(e) => {
            return Err(FatalError::Registry(e));
        },
    };
    Ok((settings, reg))
}

} // verus!
