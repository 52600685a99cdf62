//! Plain configuration records.
//!
//! These carry the settings the components are constructed from; loading
//! them from files or the environment happens outside the library.

use std::collections::HashMap;
use vstd::prelude::*;

verus! {

#[derive(Debug, Clone)]
pub struct DatabaseConfig {
    pub host: String,
    pub user: String,
    pub password: String,
    pub database: String,
    pub charset: String,
}

#[derive(Debug, Clone)]
pub struct RedisConfig {
    pub host: String,
    pub user: String,
    pub password: String,
    pub default_db: i64,
}

#[derive(Debug, Clone)]
pub struct EndpointConfig {
    pub http: HashMap<String, String>,
    pub wss: HashMap<String, String>,
}

#[derive(Debug, Clone)]
pub struct SolEndpointConfig {
    pub http: Vec<String>,
    pub wss: Vec<String>,
    pub rpc_limit: u32,
}

#[derive(Debug, Clone)]
pub struct SolanaConfig {
    pub rpc_url: String,
    pub ws_url: Option<String>,
    pub timeout_seconds: Option<u64>,
    pub max_retries: Option<u32>,
    pub price_sources: PriceSourcesConfig,
    pub monitoring: MonitoringConfig,
}

#[derive(Debug, Clone)]
pub struct PriceSourcesConfig {
    pub jupiter_enabled: bool,
    pub coingecko_enabled: bool,
    pub coingecko_api_key: Option<String>,
    pub update_interval_seconds: u64,
    pub cache_ttl_seconds: u64,
}

#[derive(Debug, Clone)]
pub struct MonitoringConfig {
    pub enabled: bool,
    pub watch_addresses: Vec<String>,
    pub watch_tokens: Vec<String>,
    pub block_check_interval_seconds: u64,
}

#[derive(Debug, Clone)]
pub struct JwtTokenConfig {
    pub sign: String,
    pub expire: i64,
}

#[derive(Debug, Clone)]
pub struct OklinkConfig {
    pub api_limit: u32,
    pub api_host: String,
    pub apikey: Vec<String>,
}

#[derive(Debug, Clone)]
pub struct GeckoConfig {
    pub apikey: String,
    pub apihost: String,
}

#[derive(Debug, Clone)]
pub struct MailgunConfig {
    pub apikey: String,
    pub domain: String,
    pub sender: String,
}

#[derive(Debug, Clone)]
pub struct SmartdailiConfig {
    pub token: String,
    pub host: String,
}

#[derive(Debug, Clone)]
pub struct ClickhouseConfig {
    pub host: String,
    pub user: String,
    pub password: String,
}

#[derive(Debug, Clone)]
pub struct S3Config {
    pub username: String,
    pub access_key_id: String,
    pub secret_access_key: String,
    pub region: String,
}

#[derive(Debug, Clone)]
pub struct CookApiConfig {
    pub base_url: String,
    pub api_key: String,
}

} // verus!
