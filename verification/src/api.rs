//! Plain request and response records of the HTTP boundary.  The
//! handlers that populate them live outside the library.

use vstd::prelude::*;

verus! {

#[derive(Debug, Clone)]
pub struct TokenInfoRequest {
    pub mint: String,
}

#[derive(Debug, Clone)]
pub struct TokenPriceRequest {
    pub mint: String,
}

#[derive(Debug, Clone)]
pub struct SearchRequest {
    pub keyword: String,
    pub limit: Option<u32>,
}

#[derive(Debug, Clone)]
pub struct RankRequest {
    pub sort_by: Option<String>,
    pub limit: Option<u32>,
    pub offset: Option<u32>,
}

#[derive(Debug, Clone)]
pub struct TokenHolderRequest {
    pub mint: String,
    pub limit: Option<u32>,
    pub offset: Option<u32>,
}

#[derive(Debug, Clone)]
pub struct TradeLatestRequest {
    pub mint: Option<String>,
    pub limit: Option<u32>,
}

#[derive(Debug, Clone)]
pub struct WalletPositionRequest {
    pub wallet: String,
}

#[derive(Debug, Clone)]
pub struct TokenPositionRequest {
    pub mint: String,
    pub wallet: String,
}

#[derive(Debug, Clone)]
pub struct MultiTokenInfoRequest {
    pub mints: Vec<String>,
}

#[derive(Debug, Clone)]
pub struct TransactionVolumeRequest {
    pub start_time: Option<String>,
    pub end_time: Option<String>,
}

#[derive(Debug, Clone)]
pub struct WalletLoginRequest {
    pub wallet_address: String,
    pub network: String,
    pub signature: String,
    pub invite_code: Option<String>,
}

#[derive(Debug, Clone)]
pub struct WalletLoginResponse {
    pub username: String,
    pub wallet: String,
    pub token: String,
    pub invite_code: String,
}

#[derive(Debug, Clone)]
pub struct EmailLoginRequest {
    pub email: String,
    pub password: String,
}

#[derive(Debug, Clone)]
pub struct UserRegisterRequest {
    pub email: String,
    pub password: String,
    pub username: Option<String>,
    pub invite_code: Option<String>,
}

#[derive(Debug, Clone)]
pub struct UserInfoResponse {
    pub id: u32,
    pub username: String,
    pub email: String,
    pub invite_code: String,
    pub created_at: String,
}

#[derive(Debug, Clone)]
pub struct UpdatePasswordRequest {
    pub old_password: String,
    pub new_password: String,
}

#[derive(Debug, Clone)]
pub struct EditUsernameRequest {
    pub username: String,
}

#[derive(Debug, Clone)]
pub struct FindPasswordRequest {
    pub email: String,
}

} // verus!
