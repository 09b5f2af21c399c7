//! An on-chain routing library that mediates token swaps between a user and an
//! external automated-market-maker venue, charging a protocol fee and allowing
//! later withdrawal of accumulated balances.
//!
//! The library owns the pure decision logic: the versioned binary instruction
//! codec, positional account-window binding, swap-direction selection and
//! counterparty ordering, balance-guard arithmetic, fee sizing, and derivation
//! of the program's signing authority. The runtime edge (reading account
//! state, performing cross-program invocations) is left to the embedding
//! program, which hands plain values in and carries planned calls out.

pub mod error;
pub mod instruction;
pub mod processor;
pub mod utils;
