//! Merging the configuration sources into one gateway client configuration.
//!
//! Connection details can arrive from the command line (or environment
//! variables, which the argument parser folds into the same shape) and from
//! the optional configuration file. The command line wins field by field;
//! the port falls back to the gateway's well-known default; a missing or
//! empty API key and a missing hostname are rejected with a distinct error.
//!
//! The result mirrors the API client's configuration shape one-for-one, so
//! the layer that owns the network handle converts it without decisions.

use vstd::prelude::*;

use crate::cli::Cli;
use crate::dotenv::CliApiClientConfig;

verus! {

/// The gateway's well-known default port.
pub const DEFAULT_SOMFY_PORT: usize = 8443;

/// The transport scheme of the API client's configuration.
#[allow(non_camel_case_types)]
#[derive(Clone, Debug, PartialEq)]
pub enum HttpProtocol {
    HTTP,
    HTTPS,
}

/// How the API client is to treat the gateway's TLS certificate.
#[derive(Clone, Debug, PartialEq)]
pub enum CertificateHandling {
    CertProvided(String),
    DefaultCert,
    NoCustomCert,
}

/// The API client's configuration: where the gateway is and how to talk to
/// it.
#[derive(Clone, Debug, PartialEq)]
pub struct ApiClientConfig {
    pub cert_handling: CertificateHandling,
    pub protocol: HttpProtocol,
    pub url: String,
    pub port: usize,
    pub api_key: String,
}

/// Why the configuration sources could not be merged.
#[derive(Clone, Copy, Debug, PartialEq, Eq, Structural)]
pub enum ConfigError {
    /// No API key in the command line, the environment or the
    /// configuration file.
    MissingApiKey,
    /// An API key was given but is the empty string.
    EmptyApiKey,
    /// No hostname in the command line, the environment or the
    /// configuration file.
    MissingHostname,
}

impl ConfigError {
    /// The error's user-facing description.
    pub open spec fn message_spec(&self) -> Seq<char> {
        match self {
            ConfigError::MissingApiKey => "api key not found in CLI args, ENV variables or in .env config file"@,
            ConfigError::EmptyApiKey => "The provided api key is empty"@,
            ConfigError::MissingHostname => "hostname not found in CLI args, ENV variables or in .env config file"@,
        }
    }

    /// Render the error for the user.
    pub fn message(&self) -> (s: String)
        ensures
            s@ == self.message_spec(),
    {
        match self {
            ConfigError::MissingApiKey => "api key not found in CLI args, ENV variables or in .env config file".to_owned(),
            ConfigError::EmptyApiKey => "The provided api key is empty".to_owned(),
            ConfigError::MissingHostname => "hostname not found in CLI args, ENV variables or in .env config file".to_owned(),
        }
    }
}

/// The port the merge selects: the command line first, then the
/// configuration file, then the default.
pub open spec fn merged_port(cli: Cli, cfg: Option<CliApiClientConfig>) -> int {
    match cli.gateway_port {
        Some(p) => p as int,
        None => match cfg {
            Some(c) => match c.port {
                Some(p) => p as int,
                None => DEFAULT_SOMFY_PORT as int,
            },
            None => DEFAULT_SOMFY_PORT as int,
        },
    }
}

/// The API key the merge selects, if any source offers one: the command
/// line first, then the configuration file.
pub open spec fn merged_api_key(cli: Cli, cfg: Option<CliApiClientConfig>) -> Option<Seq<char>> {
    match cli.api_key {
        Some(k) => Some(k@),
        None => match cfg {
            Some(c) => match c.api_key {
                Some(k) => Some(k@),
                None => None,
            },
            None => None,
        },
    }
}

/// The hostname the merge selects, if any source offers one: the command
/// line first, then the configuration file.
pub open spec fn merged_hostname(cli: Cli, cfg: Option<CliApiClientConfig>) -> Option<Seq<char>> {
    match cli.gateway_url {
        Some(h) => Some(h@),
        None => match cfg {
            Some(c) => match c.hostname {
                Some(h) => Some(h@),
                None => None,
            },
            None => None,
        },
    }
}

/// Merge the command line and the configuration file into the API client's
/// configuration. Succeeds exactly when some source offers a non-empty API
/// key and some source offers a hostname; the errors say which of those
/// failed, in that order.
pub fn merge_config_sources(cli_args: &Cli, config_file: &Option<CliApiClientConfig>) -> (r: Result<
    ApiClientConfig,
    ConfigError,
>)
    ensures
        match r {
            Ok(c) => {
                &&& merged_api_key(*cli_args, *config_file) matches Some(k) && k.len() > 0
                    && c.api_key@ == k
                &&& merged_hostname(*cli_args, *config_file) matches Some(h) && c.url@ == h
                &&& c.port as int == merged_port(*cli_args, *config_file)
                &&& c.protocol is HTTPS
                &&& c.cert_handling is DefaultCert
            },
            Err(e) => match e {
                ConfigError::MissingApiKey => merged_api_key(*cli_args, *config_file) is None,
                ConfigError::EmptyApiKey => merged_api_key(*cli_args, *config_file) == Some(
                    Seq::<char>::empty(),
                ),
                ConfigError::MissingHostname => {
                    &&& merged_api_key(*cli_args, *config_file) matches Some(k) && k.len() > 0
                    &&& merged_hostname(*cli_args, *config_file) is None
                },
            },
        },
{
    let port: usize = match cli_args.gateway_port {
        Some(p) => p,
        None => match config_file {
            Some(cfg) => match cfg.port {
                Some(p) => p,
                None => DEFAULT_SOMFY_PORT,
            },
            None => DEFAULT_SOMFY_PORT,
        },
    };

    let api_key: String = match &cli_args.api_key {
        Some(k) => k.clone(),
        None => match config_file {
            Some(cfg) => match &cfg.api_key {
                Some(k) => k.clone(),
                None => {
                    return Err(ConfigError::MissingApiKey);
                },
            },
            None => {
                return Err(ConfigError::MissingApiKey);
            },
        },
    };

    if api_key.as_str().is_empty() {
        proof {
            assert(api_key@ =~= Seq::<char>::empty());
        }
        return Err(ConfigError::EmptyApiKey);
    }

    let url: String = match &cli_args.gateway_url {
        Some(h) => h.clone(),
        None => match config_file {
            Some(cfg) => match &cfg.hostname {
                Some(h) => h.clone(),
                None => {
                    return Err(ConfigError::MissingHostname);
                },
            },
            None => {
                return Err(ConfigError::MissingHostname);
            },
        },
    };

    Ok(
        ApiClientConfig {
            protocol: HttpProtocol::HTTPS,
            cert_handling: CertificateHandling::DefaultCert,
            port,
            api_key,
            url,
        },
    )
}

} // verus!
