//! Core logic of a memecoin-launch platform: creating a token configuration
//! (recording its funding-raise tier and minting the fixed total supply), and
//! migrating a successfully funded launch into an automated-market-maker
//! liquidity pool (paying success fees and burning the liquidity-provider
//! tokens).
//!
//! The host blockchain runtime — account storage, rent, signature checks and
//! cross-program invocations — stays outside this crate. Accounts enter as
//! plain values, and each instruction handler returns the effects it asks the
//! runtime to perform, so every decision and every amount is verified here.

pub mod constants;
pub mod create_memecoin_config;
pub mod create_raydium_pool;
pub mod errors;
pub mod state;
