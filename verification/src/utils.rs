//! Supporting modules: packing helpers, account-window and balance-guard
//! arithmetic, token-transfer planning, swap orchestration, and the static
//! identifier registry.

pub mod account;
pub mod id;
pub mod pack;
pub mod swap;
pub mod tokens;
