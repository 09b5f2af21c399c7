//! The registry of external-system categories.

use vstd::prelude::*;

verus! {

/// The categories of well-known programs and registries the wider system
/// routes through; used for configuration elsewhere and carried here as part
/// of the router's public surface.
#[derive(Clone, Copy, Debug, PartialEq, Eq, Structural)]
pub enum ProgramIDType {
    System,
    ProgramsRef,
    VaultsRef,
    Vault,
    FarmsRef,
    Farm,
    PoolsRef,
    Pool,
    TokensRef,
    Token,
    MainRouter,
    Serum,
    Raydium,
    Saber,
    Orca,
}

} // verus!
