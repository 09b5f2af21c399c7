//! The operation handlers: pre-transfer, swap orchestration, post-transfer,
//! account creation, and harvest.
//!
//! Each handler binds the caller's ordered account window to its named roles
//! and turns the decoded instruction plus the runtime values the embedding
//! program has read (balances, rent figures, pool quotes) into fully
//! determined call plans. The embedding program performs the planned
//! invocations and, for a swap, hands the post-call balances back to the
//! balance guard.

use vstd::prelude::*;
use vstd::bytes::{spec_u64_to_le_bytes, u64_to_le_bytes};
use crate::error::RouterError;
use crate::utils::account::{assert_received, assert_spent, keys_equal, AccountId};
use crate::utils::tokens::{
    is_token_transfer_plan, spl_token_transfer, AccountMetaPlan, InstructionPlan,
    TokenTransferParams,
};

verus! {

// ---------------------------------------------------------------------------
// Authority derivation
// ---------------------------------------------------------------------------

/// The derived authority record (address and bump) that the runtime's
/// program-derived-address search yields for a seed and a program identity,
/// or `None` in the runtime's derivation-exhaustion case. A deterministic
/// function of its arguments.
pub uninterp spec fn pda_of(seed: Seq<u8>, program_id: Seq<u8>) -> Option<(AccountId, u8)>;

/// Relies on `Pubkey::try_find_program_address` of the hosting runtime's SDK:
/// the returned address and bump are a deterministic function of the seed
/// list and the program identity alone, and `None` is returned only when
/// every bump candidate is exhausted.
#[verifier::external_body]
fn try_find_program_address(seed: &[u8], program_id: &AccountId) -> (r: Option<(AccountId, u8)>)
    ensures
        r == pda_of(seed@, program_id@),
{
    let program = solana_program::pubkey::Pubkey::new_from_array(*program_id);
    match solana_program::pubkey::Pubkey::try_find_program_address(&[seed], &program) {
        Some((address, bump)) => Some((address.to_bytes(), bump)),
        None => None,
    }
}

/// The authority derivation domain seed: the ASCII bytes of the router's
/// fixed domain string `kinswap`.
pub open spec fn authority_seed_bytes() -> Seq<u8> {
    seq![107u8, 105u8, 110u8, 115u8, 119u8, 97u8, 112u8]
}

/// The signer-seed set of the derived authority: the domain seed followed by
/// the single-byte bump.
pub open spec fn spec_authority_seeds(bump: u8) -> Seq<Seq<u8>> {
    seq![authority_seed_bytes(), seq![bump]]
}

/// The domain seed as a byte vector.
pub fn authority_seed() -> (s: Vec<u8>)
    ensures
        s@ == authority_seed_bytes(),
{
    let mut s: Vec<u8> = Vec::new();
    s.push(107);
    s.push(105);
    s.push(110);
    s.push(115);
    s.push(119);
    s.push(97);
    s.push(112);
    proof {
        assert(s@ =~= authority_seed_bytes());
    }
    s
}

/// What authority derivation returns: the derived record when the runtime
/// can produce one, and `DerivationExhausted` otherwise.
pub open spec fn derive_authority_result(
    program_id: AccountId,
    r: Result<(AccountId, u8), RouterError>,
) -> bool {
    match pda_of(authority_seed_bytes(), program_id@) {
        Some(record) => r == Ok::<(AccountId, u8), RouterError>(record),
        None => r == Err::<(AccountId, u8), RouterError>(RouterError::DerivationExhausted),
    }
}

/// Derives the router's signing authority for `program_id`: a deterministic
/// function of the fixed domain seed and the program's own identity,
/// recomputed on every invocation and never persisted.
pub fn derive_authority(program_id: &AccountId) -> (r: Result<(AccountId, u8), RouterError>)
    ensures
        derive_authority_result(*program_id, r),
{
    let seed = authority_seed();
    match try_find_program_address(seed.as_slice(), program_id) {
        Some(record) => Ok(record),
        None => Err(RouterError::DerivationExhausted),
    }
}

/// Builds the signer-seed vectors of the derived authority for a known bump.
pub fn authority_signer_seeds(bump: u8) -> (s: Vec<Vec<u8>>)
    ensures
        s.deep_view() == spec_authority_seeds(bump),
{
    let mut bump_seed: Vec<u8> = Vec::new();
    bump_seed.push(bump);
    let mut s: Vec<Vec<u8>> = Vec::new();
    s.push(authority_seed());
    s.push(bump_seed);
    proof {
        assert(s.deep_view() =~~= spec_authority_seeds(bump));
    }
    s
}

// ---------------------------------------------------------------------------
// Counterparty allow-list
// ---------------------------------------------------------------------------

/// Whether `key` is on the pool-program allow-list.
pub fn check_pool_program_id(key: &AccountId, allowlist: &Vec<AccountId>) -> (r: bool)
    ensures
        r == allowlist@.contains(*key),
{
    let n: usize = allowlist.len();
    let mut i: usize = 0;
    while i < n
        invariant
            i <= n,
            n == allowlist@.len(),
            forall|j: int| 0 <= j < i ==> allowlist@[j] != *key,
        decreases n - i,
    {
        let candidate = allowlist[i];
        if keys_equal(&candidate, key) {
            proof {
                assert(allowlist@[i as int] == *key);
            }
            return true;
        }
        i += 1;
    }
    false
}

// ---------------------------------------------------------------------------
// Pre-transfer
// ---------------------------------------------------------------------------

/// What the pre-transfer handler returns over its five-account window
/// {user, token-program, user funding account, program funding account, user
/// transfer authority}: a single user-authorized transfer of `amount` from
/// the user's funding account into the program's, or `MissingAccount` when
/// the window is short.
pub open spec fn before_transfer_result(
    accounts: Seq<AccountId>,
    amount: u64,
    r: Result<InstructionPlan, RouterError>,
) -> bool {
    if accounts.len() < 5 {
        r == Err::<InstructionPlan, RouterError>(RouterError::MissingAccount)
    } else {
        match r {
            Ok(plan) => is_token_transfer_plan(
                plan,
                accounts[2],
                accounts[3],
                amount,
                accounts[4],
                Seq::<Seq<u8>>::empty(),
                accounts[1],
            ),
            Err(_) => false,
        }
    }
}

/// Plans the pre-transfer: a delegated move of `amount` from the user's
/// funding account to the program's funding account under the user's own
/// transfer authority (no program signature).
pub fn before_transfer(accounts: &Vec<AccountId>, amount: u64) -> (r: Result<
    InstructionPlan,
    RouterError,
>)
    ensures
        before_transfer_result(accounts@, amount, r),
{
    if accounts.len() < 5 {
        return Err(RouterError::MissingAccount);
    }
    let empty_seeds: Vec<Vec<u8>> = Vec::new();
    proof {
        assert(empty_seeds.deep_view() =~~= Seq::<Seq<u8>>::empty());
    }
    Ok(
        spl_token_transfer(
            TokenTransferParams {
                source: accounts[2],
                destination: accounts[3],
                amount,
                authority: accounts[4],
                authority_signer_seeds: empty_seeds,
                token_program: accounts[1],
            },
        ),
    )
}

// ---------------------------------------------------------------------------
// Swap
// ---------------------------------------------------------------------------

/// The swap handler's fixed nineteen-slot account window, in caller order.
#[derive(Clone, Copy, Debug, PartialEq, Eq)]
pub struct SwapAccounts {
    pub program_account: AccountId,
    pub program_token_a_account: AccountId,
    pub program_token_b_account: AccountId,
    pub pool_program_id: AccountId,
    pub pool_coin_token_account: AccountId,
    pub pool_pc_token_account: AccountId,
    pub spl_token_id: AccountId,
    pub amm_id: AccountId,
    pub amm_authority: AccountId,
    pub amm_open_orders: AccountId,
    pub amm_target: AccountId,
    pub serum_market: AccountId,
    pub serum_program_id: AccountId,
    pub serum_bids: AccountId,
    pub serum_asks: AccountId,
    pub serum_event_queue: AccountId,
    pub serum_coin_vault_account: AccountId,
    pub serum_pc_vault_account: AccountId,
    pub serum_vault_signer: AccountId,
}

/// The positional binding of a nineteen-element account list to the swap
/// window's named roles.
pub open spec fn spec_bind_swap_accounts(s: Seq<AccountId>) -> SwapAccounts
    recommends
        s.len() == 19,
{
    SwapAccounts {
        program_account: s[0],
        program_token_a_account: s[1],
        program_token_b_account: s[2],
        pool_program_id: s[3],
        pool_coin_token_account: s[4],
        pool_pc_token_account: s[5],
        spl_token_id: s[6],
        amm_id: s[7],
        amm_authority: s[8],
        amm_open_orders: s[9],
        amm_target: s[10],
        serum_market: s[11],
        serum_program_id: s[12],
        serum_bids: s[13],
        serum_asks: s[14],
        serum_event_queue: s[15],
        serum_coin_vault_account: s[16],
        serum_pc_vault_account: s[17],
        serum_vault_signer: s[18],
    }
}

/// A swap request after window binding, counterparty validation, and
/// authority derivation, before any external call: everything the embedding
/// program needs to know which balances to snapshot and how to build the
/// invocation.
#[derive(Clone, Copy, Debug, PartialEq, Eq)]
pub struct SwapPrepared {
    pub accounts: SwapAccounts,
    pub bump: u8,
    pub token_a_amount_in: u64,
    pub token_b_amount_in: u64,
    pub min_token_amount_out: u64,
}

/// The input-side token account of a prepared swap: token B's when the
/// token-A input amount is zero (direction B to A), token A's otherwise.
pub open spec fn spec_balance_in_account(p: SwapPrepared) -> AccountId {
    if p.token_a_amount_in == 0 {
        p.accounts.program_token_b_account
    } else {
        p.accounts.program_token_a_account
    }
}

/// The output-side token account of a prepared swap: the opposite of the
/// input side.
pub open spec fn spec_balance_out_account(p: SwapPrepared) -> AccountId {
    if p.token_a_amount_in == 0 {
        p.accounts.program_token_a_account
    } else {
        p.accounts.program_token_b_account
    }
}

impl SwapPrepared {
    /// The account whose balance is snapshotted on the input side.
    pub fn balance_in_account(&self) -> (k: AccountId)
        ensures
            k == spec_balance_in_account(*self),
    {
        if self.token_a_amount_in == 0 {
            self.accounts.program_token_b_account
        } else {
            self.accounts.program_token_a_account
        }
    }

    /// The account whose balance is snapshotted on the output side.
    pub fn balance_out_account(&self) -> (k: AccountId)
        ensures
            k == spec_balance_out_account(*self),
    {
        if self.token_a_amount_in == 0 {
            self.accounts.program_token_a_account
        } else {
            self.accounts.program_token_b_account
        }
    }
}

/// What the swap handler's preparation step returns: a window that is not
/// exactly nineteen accounts is malformed; a pool program off the allow-list
/// is untrusted; otherwise the bound window together with the derived
/// authority bump and the request amounts.
pub open spec fn swap_result(
    program_id: AccountId,
    accounts: Seq<AccountId>,
    allowlist: Seq<AccountId>,
    token_a_amount_in: u64,
    token_b_amount_in: u64,
    min_token_amount_out: u64,
    r: Result<SwapPrepared, RouterError>,
) -> bool {
    if accounts.len() != 19 {
        r == Err::<SwapPrepared, RouterError>(RouterError::MalformedAccountSet)
    } else if !allowlist.contains(accounts[3]) {
        r == Err::<SwapPrepared, RouterError>(RouterError::UntrustedCounterparty)
    } else {
        match pda_of(authority_seed_bytes(), program_id@) {
            Some(record) => r == Ok::<SwapPrepared, RouterError>(
                SwapPrepared {
                    accounts: spec_bind_swap_accounts(accounts),
                    bump: record.1,
                    token_a_amount_in,
                    token_b_amount_in,
                    min_token_amount_out,
                },
            ),
            None => r == Err::<SwapPrepared, RouterError>(RouterError::DerivationExhausted),
        }
    }
}

/// Prepares a swap: binds the fixed nineteen-slot window, validates the pool
/// program identity against the allow-list, and derives the program's
/// signing authority. No external call is planned yet, so a failure here has
/// no side effects.
pub fn swap(
    accounts: &Vec<AccountId>,
    program_id: &AccountId,
    token_a_amount_in: u64,
    token_b_amount_in: u64,
    min_token_amount_out: u64,
    pool_program_allowlist: &Vec<AccountId>,
) -> (r: Result<SwapPrepared, RouterError>)
    ensures
        swap_result(
            *program_id,
            accounts@,
            pool_program_allowlist@,
            token_a_amount_in,
            token_b_amount_in,
            min_token_amount_out,
            r,
        ),
{
    if accounts.len() != 19 {
        return Err(RouterError::MalformedAccountSet);
    }
    let bound = SwapAccounts {
        program_account: accounts[0],
        program_token_a_account: accounts[1],
        program_token_b_account: accounts[2],
        pool_program_id: accounts[3],
        pool_coin_token_account: accounts[4],
        pool_pc_token_account: accounts[5],
        spl_token_id: accounts[6],
        amm_id: accounts[7],
        amm_authority: accounts[8],
        amm_open_orders: accounts[9],
        amm_target: accounts[10],
        serum_market: accounts[11],
        serum_program_id: accounts[12],
        serum_bids: accounts[13],
        serum_asks: accounts[14],
        serum_event_queue: accounts[15],
        serum_coin_vault_account: accounts[16],
        serum_pc_vault_account: accounts[17],
        serum_vault_signer: accounts[18],
    };
    if !check_pool_program_id(&bound.pool_program_id, pool_program_allowlist) {
        return Err(RouterError::UntrustedCounterparty);
    }
    let (_authority, bump) = match derive_authority(program_id) {
        Ok(record) => record,
        Err(e) => {
            return Err(e);
        },
    };
    Ok(
        SwapPrepared {
            accounts: bound,
            bump,
            token_a_amount_in,
            token_b_amount_in,
            min_token_amount_out,
        },
    )
}

/// The external pool program's swap payload: a one-byte opcode followed by
/// the input amount and the minimum acceptable output, little-endian.
#[derive(Clone, Copy, Debug, PartialEq, Eq, Structural)]
pub struct RaydiumSwap {
    pub instruction: u8,
    pub amount_in: u64,
    pub min_amount_out: u64,
}

/// The exact bytes of a pool swap payload.
pub open spec fn spec_raydium_swap_data(d: RaydiumSwap) -> Seq<u8> {
    seq![d.instruction] + spec_u64_to_le_bytes(d.amount_in) + spec_u64_to_le_bytes(d.min_amount_out)
}

impl RaydiumSwap {
    /// Serializes the payload.
    pub fn to_vec(&self) -> (r: Vec<u8>)
        ensures
            r@ == spec_raydium_swap_data(*self),
    {
        let mut data: Vec<u8> = Vec::new();
        data.push(self.instruction);
        let mut amount_in_bytes = u64_to_le_bytes(self.amount_in);
        data.append(&mut amount_in_bytes);
        let mut min_amount_out_bytes = u64_to_le_bytes(self.min_amount_out);
        data.append(&mut min_amount_out_bytes);
        proof {
            assert(data@ =~= spec_raydium_swap_data(*self));
        }
        data
    }
}

/// The pool swap opcode.
pub const RAYDIUM_SWAP_OPCODE: u8 = 9;

/// The ordered account metas the external pool program requires. The two
/// program-owned token accounts swap positions with the trade direction: the
/// input side comes first.
pub open spec fn spec_swap_metas(a: SwapAccounts, input_is_token_b: bool) -> Seq<AccountMetaPlan> {
    seq![
        AccountMetaPlan { pubkey: a.spl_token_id, is_signer: false, is_writable: false },
        AccountMetaPlan { pubkey: a.amm_id, is_signer: false, is_writable: true },
        AccountMetaPlan { pubkey: a.amm_authority, is_signer: false, is_writable: false },
        AccountMetaPlan { pubkey: a.amm_open_orders, is_signer: false, is_writable: true },
        AccountMetaPlan { pubkey: a.amm_target, is_signer: false, is_writable: true },
        AccountMetaPlan { pubkey: a.pool_coin_token_account, is_signer: false, is_writable: true },
        AccountMetaPlan { pubkey: a.pool_pc_token_account, is_signer: false, is_writable: true },
        AccountMetaPlan { pubkey: a.serum_program_id, is_signer: false, is_writable: false },
        AccountMetaPlan { pubkey: a.serum_market, is_signer: false, is_writable: true },
        AccountMetaPlan { pubkey: a.serum_bids, is_signer: false, is_writable: true },
        AccountMetaPlan { pubkey: a.serum_asks, is_signer: false, is_writable: true },
        AccountMetaPlan { pubkey: a.serum_event_queue, is_signer: false, is_writable: true },
        AccountMetaPlan { pubkey: a.serum_coin_vault_account, is_signer: false, is_writable: true },
        AccountMetaPlan { pubkey: a.serum_pc_vault_account, is_signer: false, is_writable: true },
        AccountMetaPlan { pubkey: a.serum_vault_signer, is_signer: false, is_writable: false },
    ] + (if input_is_token_b {
        seq![
            AccountMetaPlan {
                pubkey: a.program_token_b_account,
                is_signer: false,
                is_writable: true,
            },
            AccountMetaPlan {
                pubkey: a.program_token_a_account,
                is_signer: false,
                is_writable: true,
            },
        ]
    } else {
        seq![
            AccountMetaPlan {
                pubkey: a.program_token_a_account,
                is_signer: false,
                is_writable: true,
            },
            AccountMetaPlan {
                pubkey: a.program_token_b_account,
                is_signer: false,
                is_writable: true,
            },
        ]
    }) + seq![AccountMetaPlan { pubkey: a.program_account, is_signer: true, is_writable: false }]
}

/// A quote from the pool's own quoting logic: the exact amount the pool will
/// take on the input side and the floor it promises on the output side.
#[derive(Clone, Copy, Debug, PartialEq, Eq, Structural)]
pub struct PoolQuote {
    pub amount_in: u64,
    pub min_amount_out: u64,
}

/// The effective output floor: the caller's minimum, raised to the pool's
/// own computed floor when that is higher.
pub open spec fn spec_effective_min_out(min_token_amount_out: u64, quote_min_amount_out: u64) -> u64 {
    if min_token_amount_out > quote_min_amount_out {
        min_token_amount_out
    } else {
        quote_min_amount_out
    }
}

/// A fully built swap invocation together with the balance snapshots taken
/// immediately before the external call and the amounts the balance guard
/// will hold the pool to afterwards.
#[derive(Clone, Debug, PartialEq, Eq)]
pub struct SwapInvocation {
    pub call: InstructionPlan,
    pub expected_spent: u64,
    pub min_amount_out: u64,
    pub snapshot_in: u64,
    pub snapshot_out: u64,
}

/// What a built swap invocation contains: the pool program as target, the
/// direction-dependent account ordering, the opcode-9 payload carrying the
/// quoted input amount and the effective floor, the derived authority's
/// signer seeds, and the recorded snapshots.
pub open spec fn swap_invocation_ok(
    p: SwapPrepared,
    quote: PoolQuote,
    balance_in: u64,
    balance_out: u64,
    inv: SwapInvocation,
) -> bool {
    &&& inv.call.program_id == p.accounts.pool_program_id
    &&& inv.call.accounts@ == spec_swap_metas(p.accounts, p.token_a_amount_in == 0)
    &&& inv.call.data@ == spec_raydium_swap_data(
        RaydiumSwap {
            instruction: RAYDIUM_SWAP_OPCODE,
            amount_in: quote.amount_in,
            min_amount_out: spec_effective_min_out(p.min_token_amount_out, quote.min_amount_out),
        },
    )
    &&& inv.call.signer_seeds.deep_view() == spec_authority_seeds(p.bump)
    &&& inv.expected_spent == quote.amount_in
    &&& inv.min_amount_out == spec_effective_min_out(p.min_token_amount_out, quote.min_amount_out)
    &&& inv.snapshot_in == balance_in
    &&& inv.snapshot_out == balance_out
}

/// Builds the external swap invocation from a prepared swap, the pool's
/// quote, and the input- and output-side balance snapshots the embedding
/// program read from the accounts named by `balance_in_account` and
/// `balance_out_account`.
pub fn build_swap_invocation(
    prepared: &SwapPrepared,
    quote: &PoolQuote,
    balance_in: u64,
    balance_out: u64,
) -> (inv: SwapInvocation)
    ensures
        swap_invocation_ok(*prepared, *quote, balance_in, balance_out, inv),
{
    let a = &prepared.accounts;
    let mut metas: Vec<AccountMetaPlan> = Vec::new();
    metas.push(AccountMetaPlan { pubkey: a.spl_token_id, is_signer: false, is_writable: false });
    metas.push(AccountMetaPlan { pubkey: a.amm_id, is_signer: false, is_writable: true });
    metas.push(AccountMetaPlan { pubkey: a.amm_authority, is_signer: false, is_writable: false });
    metas.push(AccountMetaPlan { pubkey: a.amm_open_orders, is_signer: false, is_writable: true });
    metas.push(AccountMetaPlan { pubkey: a.amm_target, is_signer: false, is_writable: true });
    metas.push(
        AccountMetaPlan { pubkey: a.pool_coin_token_account, is_signer: false, is_writable: true },
    );
    metas.push(
        AccountMetaPlan { pubkey: a.pool_pc_token_account, is_signer: false, is_writable: true },
    );
    metas.push(AccountMetaPlan { pubkey: a.serum_program_id, is_signer: false, is_writable: false });
    metas.push(AccountMetaPlan { pubkey: a.serum_market, is_signer: false, is_writable: true });
    metas.push(AccountMetaPlan { pubkey: a.serum_bids, is_signer: false, is_writable: true });
    metas.push(AccountMetaPlan { pubkey: a.serum_asks, is_signer: false, is_writable: true });
    metas.push(AccountMetaPlan { pubkey: a.serum_event_queue, is_signer: false, is_writable: true });
    metas.push(
        AccountMetaPlan {
            pubkey: a.serum_coin_vault_account,
            is_signer: false,
            is_writable: true,
        },
    );
    metas.push(
        AccountMetaPlan { pubkey: a.serum_pc_vault_account, is_signer: false, is_writable: true },
    );
    metas.push(
        AccountMetaPlan { pubkey: a.serum_vault_signer, is_signer: false, is_writable: false },
    );
    if prepared.token_a_amount_in == 0 {
        metas.push(
            AccountMetaPlan {
                pubkey: a.program_token_b_account,
                is_signer: false,
                is_writable: true,
            },
        );
        metas.push(
            AccountMetaPlan {
                pubkey: a.program_token_a_account,
                is_signer: false,
                is_writable: true,
            },
        );
    } else {
        metas.push(
            AccountMetaPlan {
                pubkey: a.program_token_a_account,
                is_signer: false,
                is_writable: true,
            },
        );
        metas.push(
            AccountMetaPlan {
                pubkey: a.program_token_b_account,
                is_signer: false,
                is_writable: true,
            },
        );
    }
    metas.push(AccountMetaPlan { pubkey: a.program_account, is_signer: true, is_writable: false });
    proof {
        assert(metas@ =~= spec_swap_metas(prepared.accounts, prepared.token_a_amount_in == 0));
    }

    let min_amount_out = if prepared.min_token_amount_out > quote.min_amount_out {
        prepared.min_token_amount_out
    } else {
        quote.min_amount_out
    };
    let data = RaydiumSwap {
        instruction: RAYDIUM_SWAP_OPCODE,
        amount_in: quote.amount_in,
        min_amount_out,
    }.to_vec();

    SwapInvocation {
        call: InstructionPlan {
            program_id: a.pool_program_id,
            accounts: metas,
            data,
            signer_seeds: authority_signer_seeds(prepared.bump),
        },
        expected_spent: quote.amount_in,
        min_amount_out,
        snapshot_in: balance_in,
        snapshot_out: balance_out,
    }
}

/// Checks the post-call balances against the snapshots recorded in the
/// invocation: the input side must have fallen by exactly the expected spend
/// (else `UnexpectedBalanceChange`), and only then must the output side have
/// risen by at least the effective floor (else `InsufficientOutput`).
pub fn verify_swap_result(
    invocation: &SwapInvocation,
    current_balance_in: u64,
    current_balance_out: u64,
) -> (r: Result<(), RouterError>)
    ensures
        r == if invocation.snapshot_in - current_balance_in == invocation.expected_spent {
            if current_balance_out - invocation.snapshot_out >= invocation.min_amount_out {
                Ok::<(), RouterError>(())
            } else {
                Err::<(), RouterError>(RouterError::InsufficientOutput)
            }
        } else {
            Err::<(), RouterError>(RouterError::UnexpectedBalanceChange)
        },
{
    assert_spent(current_balance_in, invocation.snapshot_in, invocation.expected_spent)?;
    assert_received(current_balance_out, invocation.snapshot_out, invocation.min_amount_out)?;
    Ok(())
}

// ---------------------------------------------------------------------------
// Post-transfer
// ---------------------------------------------------------------------------

/// The protocol fee: one half of one percent of `amount`, in integer
/// arithmetic, rounded down.
pub open spec fn spec_fee(amount: u64) -> u64 {
    (amount * 5 / 1000) as u64
}

/// Computes the protocol fee.
pub fn protocol_fee(amount: u64) -> (f: u64)
    ensures
        f == spec_fee(amount),
{
    let wide: u128 = (amount as u128) * 5 / 1000;
    proof {
        assert((amount as int) * 5 / 1000 <= amount as int) by (nonlinear_arith);
    }
    wide as u64
}

/// What the post-transfer handler returns over its six-account window
/// {token-program, program identity, program source account, program fee
/// source account, destination, fee recipient}: a pair of program-signed
/// transfers, the first moving the source account's entire current balance
/// to the destination, the second moving the fee sized from `amount` to the
/// fee recipient.
pub open spec fn after_transfer_result(
    program_id: AccountId,
    accounts: Seq<AccountId>,
    amount: u64,
    source_balance: u64,
    r: Result<(InstructionPlan, InstructionPlan), RouterError>,
) -> bool {
    if accounts.len() < 6 {
        r == Err::<(InstructionPlan, InstructionPlan), RouterError>(RouterError::MissingAccount)
    } else {
        match pda_of(authority_seed_bytes(), program_id@) {
            Some(record) => match r {
                Ok(plans) => is_token_transfer_plan(
                    plans.0,
                    accounts[2],
                    accounts[4],
                    source_balance,
                    accounts[1],
                    spec_authority_seeds(record.1),
                    accounts[0],
                ) && is_token_transfer_plan(
                    plans.1,
                    accounts[3],
                    accounts[5],
                    spec_fee(amount),
                    accounts[1],
                    spec_authority_seeds(record.1),
                    accounts[0],
                ),
                Err(_) => false,
            },
            None => r == Err::<(InstructionPlan, InstructionPlan), RouterError>(
                RouterError::DerivationExhausted,
            ),
        }
    }
}

/// Plans the post-transfer: pays out the entire current balance of the
/// program's source account (`source_balance`, read by the embedding program
/// immediately before this call) to the destination, and separately moves
/// the protocol fee sized from `amount` to the fee recipient, both signed by
/// the derived authority.
pub fn after_transfer(
    program_id: &AccountId,
    accounts: &Vec<AccountId>,
    amount: u64,
    source_balance: u64,
) -> (r: Result<(InstructionPlan, InstructionPlan), RouterError>)
    ensures
        after_transfer_result(*program_id, accounts@, amount, source_balance, r),
{
    if accounts.len() < 6 {
        return Err(RouterError::MissingAccount);
    }
    let (_authority, bump) = match derive_authority(program_id) {
        Ok(record) => record,
        Err(e) => {
            return Err(e);
        },
    };
    let payout = spl_token_transfer(
        TokenTransferParams {
            source: accounts[2],
            destination: accounts[4],
            amount: source_balance,
            authority: accounts[1],
            authority_signer_seeds: authority_signer_seeds(bump),
            token_program: accounts[0],
        },
    );
    let fee_leg = spl_token_transfer(
        TokenTransferParams {
            source: accounts[3],
            destination: accounts[5],
            amount: protocol_fee(amount),
            authority: accounts[1],
            authority_signer_seeds: authority_signer_seeds(bump),
            token_program: accounts[0],
        },
    );
    Ok((payout, fee_leg))
}

// ---------------------------------------------------------------------------
// Account creation
// ---------------------------------------------------------------------------

/// A planned movement of lamports from a payer into a new account.
#[derive(Clone, Copy, Debug, PartialEq, Eq)]
pub struct LamportTransfer {
    pub from: AccountId,
    pub to: AccountId,
    pub lamports: u64,
}

/// A planned account creation: an optional top-up of the new account,
/// followed by allocation of `space` bytes and assignment to `owner`, the
/// latter two signed with the derived authority's seeds.
#[derive(Clone, Debug, PartialEq, Eq)]
pub struct CreateAccountPlan {
    pub fund: Option<LamportTransfer>,
    pub account: AccountId,
    pub space: u64,
    pub owner: AccountId,
    pub signer_seeds: Vec<Vec<u8>>,
}

/// The rent shortfall of the new account: the rent-exempt minimum (at least
/// one lamport) less its current lamports, floored at zero.
pub open spec fn spec_required_lamports(rent_minimum_balance: u64, current_lamports: u64) -> u64 {
    let floor = if rent_minimum_balance >= 1 {
        rent_minimum_balance
    } else {
        1u64
    };
    if floor > current_lamports {
        (floor - current_lamports) as u64
    } else {
        0u64
    }
}

/// What a planned account creation contains: a top-up of exactly three times
/// the rent shortfall when there is one (the intentional margin of the
/// funding step), none otherwise, and the allocation and assignment of the
/// new account under the given signer seeds.
pub open spec fn create_account_plan_ok(
    program_id: AccountId,
    new_account: AccountId,
    payer: AccountId,
    size: u64,
    current_lamports: u64,
    rent_minimum_balance: u64,
    signer_seeds: Seq<Seq<u8>>,
    plan: CreateAccountPlan,
) -> bool {
    let required = spec_required_lamports(rent_minimum_balance, current_lamports);
    &&& plan.fund == if required > 0 {
        Some(
            LamportTransfer {
                from: payer,
                to: new_account,
                lamports: (required * 3) as u64,
            },
        )
    } else {
        None::<LamportTransfer>
    }
    &&& plan.account == new_account
    &&& plan.space == size
    &&& plan.owner == program_id
    &&& plan.signer_seeds.deep_view() == signer_seeds
}

/// Plans the creation of `new_account`: tops it up from `payer` by three
/// times its rent shortfall when it is below the rent-exempt minimum for
/// `size` bytes, then allocates `size` bytes and assigns the account to
/// `program_id`, both signed with `signer_seeds`. The embedding program
/// reads `current_lamports` and `rent_minimum_balance` from the runtime
/// immediately before this call.
pub fn create_or_allocate_account_raw(
    program_id: AccountId,
    new_account: AccountId,
    payer: AccountId,
    size: u64,
    current_lamports: u64,
    rent_minimum_balance: u64,
    signer_seeds: Vec<Vec<u8>>,
) -> (plan: CreateAccountPlan)
    requires
        rent_minimum_balance <= u64::MAX / 3,
    ensures
        create_account_plan_ok(
            program_id,
            new_account,
            payer,
            size,
            current_lamports,
            rent_minimum_balance,
            signer_seeds.deep_view(),
            plan,
        ),
{
    let floor = if rent_minimum_balance >= 1 {
        rent_minimum_balance
    } else {
        1
    };
    let required = if floor > current_lamports {
        floor - current_lamports
    } else {
        0
    };
    let fund = if required > 0 {
        Some(LamportTransfer { from: payer, to: new_account, lamports: required * 3 })
    } else {
        None
    };
    CreateAccountPlan { fund, account: new_account, space: size, owner: program_id, signer_seeds }
}

/// What the account-creation handler returns over its four-account window
/// {new account, payer, rent sysvar, system program}.
pub open spec fn create_program_account_result(
    program_id: AccountId,
    accounts: Seq<AccountId>,
    size: u64,
    current_lamports: u64,
    rent_minimum_balance: u64,
    r: Result<CreateAccountPlan, RouterError>,
) -> bool {
    if accounts.len() < 4 {
        r == Err::<CreateAccountPlan, RouterError>(RouterError::MissingAccount)
    } else {
        match pda_of(authority_seed_bytes(), program_id@) {
            Some(record) => match r {
                Ok(plan) => create_account_plan_ok(
                    program_id,
                    accounts[0],
                    accounts[1],
                    size,
                    current_lamports,
                    rent_minimum_balance,
                    spec_authority_seeds(record.1),
                    plan,
                ),
                Err(_) => false,
            },
            None => r == Err::<CreateAccountPlan, RouterError>(RouterError::DerivationExhausted),
        }
    }
}

/// Plans the account-creation handler: binds {new account, payer, rent
/// sysvar, system program}, derives the authority's signer seeds, and plans
/// the top-up, allocation, and assignment of the new account.
pub fn create_program_account(
    program_id: &AccountId,
    accounts: &Vec<AccountId>,
    size: u64,
    current_lamports: u64,
    rent_minimum_balance: u64,
) -> (r: Result<CreateAccountPlan, RouterError>)
    requires
        rent_minimum_balance <= u64::MAX / 3,
    ensures
        create_program_account_result(
            *program_id,
            accounts@,
            size,
            current_lamports,
            rent_minimum_balance,
            r,
        ),
{
    if accounts.len() < 4 {
        return Err(RouterError::MissingAccount);
    }
    let (_authority, bump) = match derive_authority(program_id) {
        Ok(record) => record,
        Err(e) => {
            return Err(e);
        },
    };
    Ok(
        create_or_allocate_account_raw(
            *program_id,
            accounts[0],
            accounts[1],
            size,
            current_lamports,
            rent_minimum_balance,
            authority_signer_seeds(bump),
        ),
    )
}

// ---------------------------------------------------------------------------
// Harvest
// ---------------------------------------------------------------------------

/// What the harvest handler returns over its four-account window
/// {token-program, program identity, program source account, destination}: a
/// single program-signed transfer of exactly `amount` to the destination. No
/// balance ceiling is checked here; insufficient funds are the custody
/// program's to report.
pub open spec fn harvest_result(
    program_id: AccountId,
    accounts: Seq<AccountId>,
    amount: u64,
    r: Result<InstructionPlan, RouterError>,
) -> bool {
    if accounts.len() < 4 {
        r == Err::<InstructionPlan, RouterError>(RouterError::MissingAccount)
    } else {
        match pda_of(authority_seed_bytes(), program_id@) {
            Some(record) => match r {
                Ok(plan) => is_token_transfer_plan(
                    plan,
                    accounts[2],
                    accounts[3],
                    amount,
                    accounts[1],
                    spec_authority_seeds(record.1),
                    accounts[0],
                ),
                Err(_) => false,
            },
            None => r == Err::<InstructionPlan, RouterError>(RouterError::DerivationExhausted),
        }
    }
}

/// Plans the harvest: a program-signed transfer of exactly `amount` from the
/// program's source account to the destination.
pub fn harvest(program_id: &AccountId, accounts: &Vec<AccountId>, amount: u64) -> (r: Result<
    InstructionPlan,
    RouterError,
>)
    ensures
        harvest_result(*program_id, accounts@, amount, r),
{
    if accounts.len() < 4 {
        return Err(RouterError::MissingAccount);
    }
    let (_authority, bump) = match derive_authority(program_id) {
        Ok(record) => record,
        Err(e) => {
            return Err(e);
        },
    };
    Ok(
        spl_token_transfer(
            TokenTransferParams {
                source: accounts[2],
                destination: accounts[3],
                amount,
                authority: accounts[1],
                authority_signer_seeds: authority_signer_seeds(bump),
                token_program: accounts[0],
            },
        ),
    )
}

} // verus!
