//! Plain request records for token queries.

use vstd::prelude::*;

verus! {

/// Social links attached to a token listing.
#[derive(Debug, Clone, Default)]
pub struct TokenSocial {
    pub twitter: Option<String>,
    pub website: Option<String>,
    pub telegram: Option<String>,
    pub discord: Option<String>,
}

#[derive(Debug, Clone)]
pub struct TokenInfoRequest {
    pub mint: String,
}

#[derive(Debug, Clone)]
pub struct TokenPriceRequest {
    pub mint: String,
}

#[derive(Debug, Clone)]
pub struct SearchRequest {
    pub query: String,
    pub limit: Option<u32>,
}

#[derive(Debug, Clone)]
pub struct RankRequest {
    pub sort_by: Option<String>,
    pub limit: Option<u32>,
}

#[derive(Debug, Clone)]
pub struct TokenHolderRequest {
    pub mint: String,
    pub limit: Option<u32>,
}

#[derive(Debug, Clone)]
pub struct TradeLatestRequest {
    pub mint: String,
    pub limit: Option<u32>,
}

#[derive(Debug, Clone)]
pub struct WalletPositionRequest {
    pub wallet: String,
}

#[derive(Debug, Clone)]
pub struct TokenPositionRequest {
    pub mint: String,
    pub wallet: String,
}

#[derive(Debug, Clone)]
pub struct MultiTokenInfoRequest {
    pub mints: Vec<String>,
}

#[derive(Debug, Clone)]
pub struct TransactionVolumeRequest {
    pub mint: String,
    pub period: Option<String>,
}

#[derive(Debug, Clone)]
pub struct DailyTransactionVolumeRequest {
    pub mint: String,
    pub days: Option<u32>,
}

} // verus!
