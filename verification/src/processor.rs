//! The dispatch layer: decodes an instruction buffer and routes it to the
//! operation handler it selects, returning the handler's planned actions.

use vstd::prelude::*;
use crate::error::RouterError;
use crate::instruction::{spec_unpack, AmmInstruction};
use crate::utils::account::AccountId;
use crate::utils::swap::{
    after_transfer, after_transfer_result, before_transfer, before_transfer_result,
    create_program_account, create_program_account_result, harvest, harvest_result, swap,
    swap_result, CreateAccountPlan, SwapPrepared,
};
use crate::utils::tokens::InstructionPlan;

verus! {

/// The planned outcome of one routed instruction. A swap is returned in its
/// prepared form: the embedding program must still quote the pool, snapshot
/// the named balances, build the invocation, and verify the outcome.
pub enum RoutedAction {
    BeforeTransfer(InstructionPlan),
    Swap(SwapPrepared),
    AfterTransfer(InstructionPlan, InstructionPlan),
    CreateAccount(CreateAccountPlan),
    Harvest(InstructionPlan),
}

/// The runtime values the handlers consume, read by the embedding program
/// before it routes an instruction. A field is only meaningful to the
/// handler that reads it.
#[derive(Clone, Copy, Debug, PartialEq, Eq, Structural)]
pub struct HandlerInputs {
    /// The current balance of the post-transfer source account.
    pub source_balance: u64,
    /// The current lamports of the account to be created.
    pub new_account_lamports: u64,
    /// The rent-exempt minimum for the account to be created.
    pub rent_minimum_balance: u64,
}

/// What routing returns: the decode error of a malformed buffer, and
/// otherwise exactly what the selected handler returns for the decoded
/// fields, wrapped in the matching action variant.
pub open spec fn process_instruction_result(
    program_id: AccountId,
    accounts: Seq<AccountId>,
    allowlist: Seq<AccountId>,
    data: Seq<u8>,
    inputs: HandlerInputs,
    r: Result<RoutedAction, RouterError>,
) -> bool {
    match spec_unpack(data) {
        Err(e) => r == Err::<RoutedAction, RouterError>(e),
        Ok(instruction) => match instruction {
            AmmInstruction::BeforeTransfer { amount } => match r {
                Ok(RoutedAction::BeforeTransfer(plan)) => before_transfer_result(
                    accounts,
                    amount,
                    Ok(plan),
                ),
                Ok(_) => false,
                Err(e) => before_transfer_result(accounts, amount, Err(e)),
            },
            AmmInstruction::Swap {
                token_a_amount_in,
                token_b_amount_in,
                min_token_amount_out,
            } => match r {
                Ok(RoutedAction::Swap(prepared)) => swap_result(
                    program_id,
                    accounts,
                    allowlist,
                    token_a_amount_in,
                    token_b_amount_in,
                    min_token_amount_out,
                    Ok(prepared),
                ),
                Ok(_) => false,
                Err(e) => swap_result(
                    program_id,
                    accounts,
                    allowlist,
                    token_a_amount_in,
                    token_b_amount_in,
                    min_token_amount_out,
                    Err(e),
                ),
            },
            AmmInstruction::AfterTransfer { amount } => match r {
                Ok(RoutedAction::AfterTransfer(payout, fee_leg)) => after_transfer_result(
                    program_id,
                    accounts,
                    amount,
                    inputs.source_balance,
                    Ok((payout, fee_leg)),
                ),
                Ok(_) => false,
                Err(e) => after_transfer_result(
                    program_id,
                    accounts,
                    amount,
                    inputs.source_balance,
                    Err(e),
                ),
            },
            AmmInstruction::CreateAccount { size } => match r {
                Ok(RoutedAction::CreateAccount(plan)) => create_program_account_result(
                    program_id,
                    accounts,
                    size,
                    inputs.new_account_lamports,
                    inputs.rent_minimum_balance,
                    Ok(plan),
                ),
                Ok(_) => false,
                Err(e) => create_program_account_result(
                    program_id,
                    accounts,
                    size,
                    inputs.new_account_lamports,
                    inputs.rent_minimum_balance,
                    Err(e),
                ),
            },
            AmmInstruction::Harvest { amount } => match r {
                Ok(RoutedAction::Harvest(plan)) => harvest_result(
                    program_id,
                    accounts,
                    amount,
                    Ok(plan),
                ),
                Ok(_) => false,
                Err(e) => harvest_result(program_id, accounts, amount, Err(e)),
            },
        },
    }
}

/// Decodes `instruction_data` and routes it to the handler its tag selects,
/// handing that handler the runtime values it consumes. Every failure aborts
/// the instruction immediately; nothing is planned on failure.
pub fn process_instruction(
    program_id: &AccountId,
    accounts: &Vec<AccountId>,
    instruction_data: &[u8],
    pool_program_allowlist: &Vec<AccountId>,
    inputs: &HandlerInputs,
) -> (r: Result<RoutedAction, RouterError>)
    requires
        inputs.rent_minimum_balance <= u64::MAX / 3,
    ensures
        process_instruction_result(
            *program_id,
            accounts@,
            pool_program_allowlist@,
            instruction_data@,
            *inputs,
            r,
        ),
{
    let instruction = AmmInstruction::unpack(instruction_data)?;
    match instruction {
        AmmInstruction::BeforeTransfer { amount } => {
            let plan = before_transfer(accounts, amount)?;
            Ok(RoutedAction::BeforeTransfer(plan))
        },
        AmmInstruction::Swap { token_a_amount_in, token_b_amount_in, min_token_amount_out } => {
            let prepared = swap(
                accounts,
                program_id,
                token_a_amount_in,
                token_b_amount_in,
                min_token_amount_out,
                pool_program_allowlist,
            )?;
            Ok(RoutedAction::Swap(prepared))
        },
        AmmInstruction::AfterTransfer { amount } => {
            let plans = after_transfer(program_id, accounts, amount, inputs.source_balance)?;
            Ok(RoutedAction::AfterTransfer(plans.0, plans.1))
        },
        AmmInstruction::CreateAccount { size } => {
            let plan = create_program_account(
                program_id,
                accounts,
                size,
                inputs.new_account_lamports,
                inputs.rent_minimum_balance,
            )?;
            Ok(RoutedAction::CreateAccount(plan))
        },
        AmmInstruction::Harvest { amount } => {
            let plan = harvest(program_id, accounts, amount)?;
            Ok(RoutedAction::Harvest(plan))
        },
    }
}

} // verus!
