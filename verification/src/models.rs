pub mod solana;
pub mod user;
