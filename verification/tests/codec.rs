use amm_router::error::RouterError;
use amm_router::instruction::{AmmInstruction, AmmInstructionType};
use amm_router::utils::pack::check_data_len;

fn le(x: u64) -> [u8; 8] {
    x.to_le_bytes()
}

fn packed(i: &AmmInstruction, cap: usize) -> Vec<u8> {
    let mut buf = vec![0u8; cap];
    let n = i.pack(&mut buf).expect("pack");
    buf.truncate(n);
    buf
}

#[test]
fn pack_before_transfer_exact_bytes() {
    let i = AmmInstruction::BeforeTransfer { amount: 258 };
    let bytes = packed(&i, 9);
    let mut expected = vec![0u8];
    expected.extend_from_slice(&le(258));
    assert_eq!(bytes, expected);
}

#[test]
fn pack_swap_exact_bytes() {
    // The 25-byte form: tag 1, then the three amounts little-endian.
    let i = AmmInstruction::Swap {
        token_a_amount_in: 100,
        token_b_amount_in: 0,
        min_token_amount_out: 95,
    };
    let bytes = packed(&i, 25);
    let mut expected = vec![1u8];
    expected.extend_from_slice(&le(100));
    expected.extend_from_slice(&le(0));
    expected.extend_from_slice(&le(95));
    assert_eq!(bytes, expected);
    assert_eq!(bytes.len(), AmmInstruction::SWAP_LEN);
}

#[test]
fn pack_after_transfer_exact_bytes() {
    let bytes = packed(&AmmInstruction::AfterTransfer { amount: u64::MAX }, 9);
    let mut expected = vec![2u8];
    expected.extend_from_slice(&le(u64::MAX));
    assert_eq!(bytes, expected);
}

#[test]
fn pack_create_account_exact_bytes() {
    let bytes = packed(&AmmInstruction::CreateAccount { size: 165 }, 9);
    let mut expected = vec![3u8];
    expected.extend_from_slice(&le(165));
    assert_eq!(bytes, expected);
}

#[test]
fn pack_harvest_exact_bytes() {
    let bytes = packed(&AmmInstruction::Harvest { amount: 1 }, 9);
    let mut expected = vec![4u8];
    expected.extend_from_slice(&le(1));
    assert_eq!(bytes, expected);
}

#[test]
fn pack_leaves_tail_untouched() {
    let i = AmmInstruction::Harvest { amount: 7 };
    let mut buf = vec![0xAAu8; 12];
    let n = i.pack(&mut buf).expect("pack");
    assert_eq!(n, AmmInstruction::LEN);
    assert_eq!(&buf[9..], &[0xAA, 0xAA, 0xAA]);
}

#[test]
fn pack_buffer_too_small() {
    let i = AmmInstruction::BeforeTransfer { amount: 5 };
    let mut buf = vec![0u8; 8];
    assert_eq!(i.pack(&mut buf), Err(RouterError::BufferTooSmall));
    assert_eq!(buf, vec![0u8; 8]);

    let s = AmmInstruction::Swap {
        token_a_amount_in: 1,
        token_b_amount_in: 0,
        min_token_amount_out: 0,
    };
    let mut buf = vec![0u8; 24];
    assert_eq!(s.pack(&mut buf), Err(RouterError::BufferTooSmall));
}

#[test]
fn round_trip_every_variant() {
    let cases = vec![
        AmmInstruction::BeforeTransfer { amount: 0 },
        AmmInstruction::BeforeTransfer { amount: u64::MAX },
        AmmInstruction::Swap {
            token_a_amount_in: 100,
            token_b_amount_in: 0,
            min_token_amount_out: 95,
        },
        AmmInstruction::Swap {
            token_a_amount_in: 0,
            token_b_amount_in: u64::MAX,
            min_token_amount_out: 1,
        },
        AmmInstruction::AfterTransfer { amount: 1000 },
        AmmInstruction::CreateAccount { size: 165 },
        AmmInstruction::Harvest { amount: 42 },
    ];
    for i in cases {
        let bytes = packed(&i, 25);
        assert_eq!(AmmInstruction::unpack(&bytes), Ok(i));
    }
}

#[test]
fn unpack_empty_is_truncated() {
    assert_eq!(AmmInstruction::unpack(&[]), Err(RouterError::TruncatedInput));
}

#[test]
fn unpack_unknown_tag() {
    assert_eq!(
        AmmInstruction::unpack(&[5u8, 0, 0, 0, 0, 0, 0, 0, 0]),
        Err(RouterError::UnknownTag)
    );
    assert_eq!(AmmInstruction::unpack(&[255u8]), Err(RouterError::UnknownTag));
}

#[test]
fn unpack_short_swap_is_truncated() {
    // A Swap-tagged buffer one byte short of its 25-byte form.
    let mut bytes = vec![1u8];
    bytes.extend_from_slice(&le(100));
    bytes.extend_from_slice(&le(0));
    bytes.extend_from_slice(&le(95));
    bytes.truncate(24);
    assert_eq!(
        AmmInstruction::unpack(&bytes),
        Err(RouterError::TruncatedInput)
    );
}

#[test]
fn unpack_short_single_amount_is_truncated() {
    assert_eq!(
        AmmInstruction::unpack(&[0u8, 1, 2, 3]),
        Err(RouterError::TruncatedInput)
    );
    assert_eq!(
        AmmInstruction::unpack(&[4u8, 0, 0, 0, 0, 0, 0, 0]),
        Err(RouterError::TruncatedInput)
    );
}

#[test]
fn unpack_tolerates_trailing_bytes() {
    let mut bytes = packed(&AmmInstruction::Harvest { amount: 9 }, 9);
    bytes.push(0xFF);
    bytes.push(0xFF);
    assert_eq!(
        AmmInstruction::unpack(&bytes),
        Ok(AmmInstruction::Harvest { amount: 9 })
    );
}

#[test]
fn tag_values_follow_declaration_order() {
    assert_eq!(AmmInstructionType::BeforeTransfer.tag(), 0);
    assert_eq!(AmmInstructionType::Swap.tag(), 1);
    assert_eq!(AmmInstructionType::AfterTransfer.tag(), 2);
    assert_eq!(AmmInstructionType::CreateAccount.tag(), 3);
    assert_eq!(AmmInstructionType::Harvest.tag(), 4);
}

#[test]
fn try_from_primitive_round_trips() {
    for t in [
        AmmInstructionType::BeforeTransfer,
        AmmInstructionType::Swap,
        AmmInstructionType::AfterTransfer,
        AmmInstructionType::CreateAccount,
        AmmInstructionType::Harvest,
    ] {
        assert_eq!(AmmInstructionType::try_from_primitive(t.tag()), Ok(t));
    }
    assert_eq!(
        AmmInstructionType::try_from_primitive(5),
        Err(RouterError::UnknownTag)
    );
}

#[test]
fn check_data_len_boundary() {
    assert_eq!(check_data_len(&[1, 2, 3], 3), Ok(()));
    assert_eq!(check_data_len(&[1, 2, 3], 4), Err(RouterError::TruncatedInput));
    assert_eq!(check_data_len(&[], 0), Ok(()));
}

#[test]
fn labels_match_display_text() {
    assert_eq!(AmmInstructionType::BeforeTransfer.label(), "before transfer");
    assert_eq!(AmmInstructionType::Swap.label(), "Swap");
    assert_eq!(AmmInstructionType::AfterTransfer.label(), "before transfer");
    assert_eq!(AmmInstructionType::CreateAccount.label(), "create account");
    assert_eq!(AmmInstructionType::Harvest.label(), "harvest");
}
