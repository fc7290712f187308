//! The shape of the optional configuration file.
//!
//! The file is a JSON object kept in the tool's configuration folder; the
//! layer that owns the disk reads and parses it and hands over this plain
//! shape. Every field is optional — the merge in the loader decides what is
//! missing and what falls back to a default.

use vstd::prelude::*;

verus! {

/// The transport scheme named in the configuration file.
#[derive(Clone, Debug)]
pub enum HttpProtocol {
    Http,
    Https,
}

/// The configuration file's contents: every connection detail is optional.
#[derive(Clone, Debug)]
pub struct CliApiClientConfig {
    pub protocol: Option<HttpProtocol>,
    pub hostname: Option<String>,
    pub port: Option<usize>,
    pub api_key: Option<String>,
    pub cert_path: Option<String>,
}

/// The configuration file's place inside the configuration folder.
pub fn get_file_location(config_folder: &str) -> (r: String)
    ensures
        r@ == config_folder@ + "/env.json"@,
{
    let mut r = config_folder.to_owned();
    r.append("/env.json");
    r
}

} // verus!
