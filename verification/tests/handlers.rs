use amm_router::error::RouterError;
use amm_router::utils::account::{assert_received, assert_spent, keys_equal, AccountId};
use amm_router::utils::swap::{
    after_transfer, authority_seed, authority_signer_seeds, before_transfer,
    create_or_allocate_account_raw, create_program_account, derive_authority, harvest,
    protocol_fee, LamportTransfer,
};
use amm_router::utils::tokens::{spl_token_transfer, AccountMetaPlan, TokenTransferParams};
use solana_program::pubkey::Pubkey;

fn key(n: u8) -> AccountId {
    let mut k = [0u8; 32];
    k[0] = n;
    k[31] = n;
    k
}

fn transfer_data(amount: u64) -> Vec<u8> {
    let mut d = vec![3u8];
    d.extend_from_slice(&amount.to_le_bytes());
    d
}

#[test]
fn keys_equal_distinguishes() {
    assert!(keys_equal(&key(1), &key(1)));
    assert!(!keys_equal(&key(1), &key(2)));
}

#[test]
fn assert_spent_exact_only() {
    // The guarded call reported success but moved 90 instead of 100.
    assert_eq!(
        assert_spent(910, 1000, 100),
        Err(RouterError::UnexpectedBalanceChange)
    );
    assert_eq!(assert_spent(900, 1000, 100), Ok(()));
    // Overspending fails too.
    assert_eq!(
        assert_spent(890, 1000, 100),
        Err(RouterError::UnexpectedBalanceChange)
    );
    // A balance that rose cannot represent a spend.
    assert_eq!(
        assert_spent(1100, 1000, 100),
        Err(RouterError::UnexpectedBalanceChange)
    );
    assert_eq!(assert_spent(1000, 1000, 0), Ok(()));
}

#[test]
fn assert_received_floor() {
    // Only 5 arrived when the floor was 10.
    assert_eq!(
        assert_received(1005, 1000, 10),
        Err(RouterError::InsufficientOutput)
    );
    assert_eq!(assert_received(1010, 1000, 10), Ok(()));
    assert_eq!(assert_received(1011, 1000, 10), Ok(()));
    // A balance that fell is never enough.
    assert_eq!(
        assert_received(990, 1000, 0),
        Err(RouterError::InsufficientOutput)
    );
}

#[test]
fn fee_is_half_a_percent_floored() {
    assert_eq!(protocol_fee(1000), 5);
    assert_eq!(protocol_fee(999), 4);
    assert_eq!(protocol_fee(200), 1);
    assert_eq!(protocol_fee(199), 0);
    assert_eq!(protocol_fee(0), 0);
    assert_eq!(protocol_fee(u64::MAX), u64::MAX / 200);
}

#[test]
fn spl_token_transfer_plan_contents() {
    let plan = spl_token_transfer(TokenTransferParams {
        source: key(1),
        destination: key(2),
        amount: 77,
        authority: key(3),
        authority_signer_seeds: Vec::new(),
        token_program: key(4),
    });
    assert_eq!(plan.program_id, key(4));
    assert_eq!(plan.data, transfer_data(77));
    assert_eq!(
        plan.accounts,
        vec![
            AccountMetaPlan { pubkey: key(1), is_signer: false, is_writable: true },
            AccountMetaPlan { pubkey: key(2), is_signer: false, is_writable: true },
            AccountMetaPlan { pubkey: key(3), is_signer: true, is_writable: false },
        ]
    );
    assert!(plan.signer_seeds.is_empty());
}

#[test]
fn derive_authority_matches_runtime_derivation() {
    let program_id = key(42);
    let (address, bump) = derive_authority(&program_id).expect("derivation");
    let (expected, expected_bump) =
        Pubkey::find_program_address(&[b"kinswap"], &Pubkey::new_from_array(program_id));
    assert_eq!(address, expected.to_bytes());
    assert_eq!(bump, expected_bump);
    assert_ne!(address, program_id);
}

#[test]
fn authority_seed_spells_domain_string() {
    assert_eq!(authority_seed(), b"kinswap".to_vec());
    let seeds = authority_signer_seeds(254);
    assert_eq!(seeds, vec![b"kinswap".to_vec(), vec![254u8]]);
}

#[test]
fn before_transfer_plan_binds_window() {
    let accounts = vec![key(10), key(11), key(12), key(13), key(14)];
    let plan = before_transfer(&accounts, 500).expect("plan");
    assert_eq!(plan.program_id, key(11));
    assert_eq!(plan.data, transfer_data(500));
    assert_eq!(plan.accounts[0].pubkey, key(12));
    assert_eq!(plan.accounts[1].pubkey, key(13));
    assert_eq!(plan.accounts[2].pubkey, key(14));
    assert!(plan.accounts[2].is_signer);
    // No program signature: the transfer runs under the user's authority.
    assert!(plan.signer_seeds.is_empty());
}

#[test]
fn before_transfer_missing_account() {
    let accounts = vec![key(10), key(11), key(12), key(13)];
    assert_eq!(
        before_transfer(&accounts, 500),
        Err(RouterError::MissingAccount)
    );
}

#[test]
fn after_transfer_moves_whole_balance_and_fee() {
    let program_id = key(7);
    let accounts = vec![key(20), key(21), key(22), key(23), key(24), key(25)];
    let (_, bump) = derive_authority(&program_id).expect("derivation");
    let (payout, fee_leg) =
        after_transfer(&program_id, &accounts, 1000, 123_456).expect("plans");

    // The payout moves the source account's entire current balance, not the
    // instruction amount.
    assert_eq!(payout.program_id, key(20));
    assert_eq!(payout.data, transfer_data(123_456));
    assert_eq!(payout.accounts[0].pubkey, key(22));
    assert_eq!(payout.accounts[1].pubkey, key(24));
    assert_eq!(payout.accounts[2].pubkey, key(21));
    assert_eq!(payout.signer_seeds, vec![b"kinswap".to_vec(), vec![bump]]);

    // The fee leg moves exactly 5 of the 1000 the instruction named.
    assert_eq!(fee_leg.data, transfer_data(5));
    assert_eq!(fee_leg.accounts[0].pubkey, key(23));
    assert_eq!(fee_leg.accounts[1].pubkey, key(25));
    assert_eq!(fee_leg.accounts[2].pubkey, key(21));
    assert_eq!(fee_leg.signer_seeds, payout.signer_seeds);
}

#[test]
fn after_transfer_missing_account() {
    let accounts = vec![key(20), key(21), key(22), key(23), key(24)];
    assert_eq!(
        after_transfer(&key(7), &accounts, 1000, 0),
        Err(RouterError::MissingAccount)
    );
}

#[test]
fn harvest_plan_binds_window() {
    let program_id = key(9);
    let accounts = vec![key(30), key(31), key(32), key(33)];
    let (_, bump) = derive_authority(&program_id).expect("derivation");
    let plan = harvest(&program_id, &accounts, 42).expect("plan");
    assert_eq!(plan.program_id, key(30));
    assert_eq!(plan.data, transfer_data(42));
    assert_eq!(plan.accounts[0].pubkey, key(32));
    assert_eq!(plan.accounts[1].pubkey, key(33));
    assert_eq!(plan.accounts[2].pubkey, key(31));
    assert_eq!(plan.signer_seeds, vec![b"kinswap".to_vec(), vec![bump]]);
}

#[test]
fn harvest_missing_account() {
    assert_eq!(
        harvest(&key(9), &vec![key(30), key(31), key(32)], 42),
        Err(RouterError::MissingAccount)
    );
}

#[test]
fn create_plan_tops_up_three_times_shortfall() {
    let plan = create_or_allocate_account_raw(key(1), key(2), key(3), 165, 40, 100, Vec::new());
    assert_eq!(
        plan.fund,
        Some(LamportTransfer { from: key(3), to: key(2), lamports: 180 })
    );
    assert_eq!(plan.account, key(2));
    assert_eq!(plan.space, 165);
    assert_eq!(plan.owner, key(1));
}

#[test]
fn create_plan_zero_rent_still_needs_one_lamport() {
    let plan = create_or_allocate_account_raw(key(1), key(2), key(3), 0, 0, 0, Vec::new());
    assert_eq!(
        plan.fund,
        Some(LamportTransfer { from: key(3), to: key(2), lamports: 3 })
    );
}

#[test]
fn create_plan_funded_account_needs_nothing() {
    let plan = create_or_allocate_account_raw(key(1), key(2), key(3), 10, 500, 100, Vec::new());
    assert_eq!(plan.fund, None);
}

#[test]
fn create_program_account_binds_window() {
    let program_id = key(5);
    let accounts = vec![key(40), key(41), key(42), key(43)];
    let (_, bump) = derive_authority(&program_id).expect("derivation");
    let plan = create_program_account(&program_id, &accounts, 165, 0, 2_039_280).expect("plan");
    assert_eq!(plan.account, key(40));
    assert_eq!(plan.owner, program_id);
    assert_eq!(plan.space, 165);
    assert_eq!(
        plan.fund,
        Some(LamportTransfer { from: key(41), to: key(40), lamports: 3 * 2_039_280 })
    );
    assert_eq!(plan.signer_seeds, vec![b"kinswap".to_vec(), vec![bump]]);
}

#[test]
fn create_program_account_missing_account() {
    assert_eq!(
        create_program_account(&key(5), &vec![key(40), key(41), key(42)], 165, 0, 100),
        Err(RouterError::MissingAccount)
    );
}
