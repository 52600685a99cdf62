//! Plain records of the service layer that sits between the HTTP
//! boundary and the repositories.

use vstd::prelude::*;

verus! {

#[derive(Debug, Clone)]
pub struct WalletLoginRequest {
    pub wallet_address: String,
    pub network: String,
    pub signature: String,
    pub invite_code: Option<String>,
}

#[derive(Debug, Clone)]
pub struct WalletLoginResponse {
    pub username: String,
    pub wallet: String,
    pub token: String,
    pub invite_code: String,
}

#[derive(Debug, Clone)]
pub struct EmailLoginRequest {
    pub email: String,
    pub password: String,
}

#[derive(Debug, Clone)]
pub struct UserTokenResponse {
    pub username: String,
    pub email: String,
    pub token: String,
    pub invite_code: Option<String>,
}

#[derive(Debug, Clone)]
pub struct TokenQueryRequest {
    pub mint: Option<String>,
    pub symbol: Option<String>,
    pub page: Option<u32>,
    pub limit: Option<u32>,
}

} // verus!
