//! Planning of delegated token transfers.
//!
//! The router never moves tokens itself: it plans a call into the token
//! custody program and hands the plan to the embedding program, which
//! performs the actual invocation. A plan fixes the target program, the
//! ordered account metas, the instruction data bytes, and the signer seeds
//! (empty seeds mean the invocation is not program-signed).

use vstd::prelude::*;
use vstd::bytes::{spec_u64_to_le_bytes, u64_to_le_bytes};
use crate::utils::account::AccountId;

verus! {

/// One account handle of a planned invocation, with the writability and
/// signer expectations the invoked program will see.
#[derive(Clone, Copy, Debug, PartialEq, Eq)]
pub struct AccountMetaPlan {
    pub pubkey: AccountId,
    pub is_signer: bool,
    pub is_writable: bool,
}

/// A fully determined cross-program call: target program, ordered account
/// metas, raw instruction data, and the signer seeds of the router's derived
/// authority (empty when the call is authorized by the end user instead).
#[derive(Clone, Debug, PartialEq, Eq)]
pub struct InstructionPlan {
    pub program_id: AccountId,
    pub accounts: Vec<AccountMetaPlan>,
    pub data: Vec<u8>,
    pub signer_seeds: Vec<Vec<u8>>,
}

/// The parameters of one delegated token transfer.
pub struct TokenTransferParams {
    pub source: AccountId,
    pub destination: AccountId,
    pub amount: u64,
    pub authority: AccountId,
    pub authority_signer_seeds: Vec<Vec<u8>>,
    pub token_program: AccountId,
}

/// The token custody program's transfer instruction data: tag byte 3, then
/// the amount, little-endian.
pub open spec fn spec_token_transfer_data(amount: u64) -> Seq<u8> {
    seq![3u8] + spec_u64_to_le_bytes(amount)
}

/// What a planned token transfer looks like: the custody program as target,
/// the writable source and destination followed by the read-only signing
/// authority, the transfer data for `amount`, and the given signer seeds.
pub open spec fn is_token_transfer_plan(
    plan: InstructionPlan,
    source: AccountId,
    destination: AccountId,
    amount: u64,
    authority: AccountId,
    signer_seeds: Seq<Seq<u8>>,
    token_program: AccountId,
) -> bool {
    &&& plan.program_id == token_program
    &&& plan.data@ == spec_token_transfer_data(amount)
    &&& plan.accounts@.len() == 3
    &&& plan.accounts@[0] == AccountMetaPlan { pubkey: source, is_signer: false, is_writable: true }
    &&& plan.accounts@[1] == AccountMetaPlan {
        pubkey: destination,
        is_signer: false,
        is_writable: true,
    }
    &&& plan.accounts@[2] == AccountMetaPlan {
        pubkey: authority,
        is_signer: true,
        is_writable: false,
    }
    &&& plan.signer_seeds.deep_view() == signer_seeds
}

/// Plans one delegated token transfer: `amount` moves from `source` to
/// `destination` under `authority`, optionally signed with the given seeds.
pub fn spl_token_transfer(params: TokenTransferParams) -> (plan: InstructionPlan)
    ensures
        is_token_transfer_plan(
            plan,
            params.source,
            params.destination,
            params.amount,
            params.authority,
            params.authority_signer_seeds.deep_view(),
            params.token_program,
        ),
{
    let TokenTransferParams {
        source,
        destination,
        amount,
        authority,
        authority_signer_seeds,
        token_program,
    } = params;

    let mut data: Vec<u8> = Vec::new();
    data.push(3u8);
    let mut amount_bytes = u64_to_le_bytes(amount);
    data.append(&mut amount_bytes);

    let mut accounts: Vec<AccountMetaPlan> = Vec::new();
    accounts.push(AccountMetaPlan { pubkey: source, is_signer: false, is_writable: true });
    accounts.push(AccountMetaPlan { pubkey: destination, is_signer: false, is_writable: true });
    accounts.push(AccountMetaPlan { pubkey: authority, is_signer: true, is_writable: false });

    proof {
        assert(data@ =~= spec_token_transfer_data(amount));
    }

    InstructionPlan { program_id: token_program, accounts, data, signer_seeds: authority_signer_seeds }
}

} // verus!
