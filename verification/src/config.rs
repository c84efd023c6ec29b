//! Configuration values.
//!
//! The plain configuration data the server and the pipeline read. Loading
//! it from files and command-line flags is I/O and stays outside; the
//! defaults are stated here exactly.

use vstd::prelude::*;

use vstd::string::StringSliceAdditionalSpecFns;

use crate::security::SecurityConfig;
use crate::storage::StorageConfig;

verus! {

/// Server configuration.
#[derive(Debug, Clone)]
pub struct ServerConfig {
    pub port: u16,
    pub host: String,
    pub read_timeout: u64,
    pub write_timeout: u64,
    pub concurrency: usize,
    pub max_body_size: usize,
}

pub fn default_port() -> (r: u16)
    ensures
        r == 8080,
{
    8080
}

pub fn default_host() -> (r: String)
    ensures
        r@ == "127.0.0.1"@,
{
    "127.0.0.1".to_owned()
}

pub fn default_read_timeout() -> (r: u64)
    ensures
        r == 30,
{
    30
}

pub fn default_write_timeout() -> (r: u64)
    ensures
        r == 30,
{
    30
}

pub fn default_concurrency() -> (r: usize)
    ensures
        r == 4,
{
    4
}

pub fn default_max_body_size() -> (r: usize)
    ensures
        r == 10 * 1024 * 1024,
{
    10 * 1024 * 1024
}

impl Default for ServerConfig {
    fn default() -> (r: ServerConfig)
        ensures
            r.port == 8080,
            r.host@ == "127.0.0.1"@,
            r.read_timeout == 30,
            r.write_timeout == 30,
            r.concurrency == 4,
            r.max_body_size == 10 * 1024 * 1024,
    {
        ServerConfig {
            port: default_port(),
            host: default_host(),
            read_timeout: default_read_timeout(),
            write_timeout: default_write_timeout(),
            concurrency: default_concurrency(),
            max_body_size: default_max_body_size(),
        }
    }
}

/// Options a server can be run with.
#[derive(Debug, Clone)]
pub struct ServerOptions {
    pub port: u16,
    pub address: String,
    pub max_concurrent_requests: usize,
    pub request_timeout_seconds: u64,
    pub max_request_size: usize,
}

/// The whole application configuration. It holds the security secrets, so
/// it has no formatting surface.
#[derive(Clone)]
pub struct Config {
    pub server: ServerConfig,
    pub security: SecurityConfig,
    pub storage: StorageConfig,
    pub data: Vec<u8>,
}

pub fn default_data() -> (r: Vec<u8>)
    ensures
        r@ == "example data".spec_bytes(),
{
    vstd::slice::slice_to_vec("example data".as_bytes())
}

impl Default for Config {
    fn default() -> (r: Config)
        ensures
            r.server.port == 8080,
            r.security.spec_key() is None,
            r.storage.temp_dir@ == "temp"@,
            r.data@ == "example data".spec_bytes(),
    {
        Config {
            server: ServerConfig::default(),
            security: SecurityConfig::default(),
            storage: StorageConfig::default(),
            data: default_data(),
        }
    }
}

} // verus!
