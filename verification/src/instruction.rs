//! The router's versioned binary instruction protocol.
//!
//! An encoded instruction is a single tag byte followed by the variant's
//! unsigned 64-bit fields, little-endian, with no padding and no length
//! prefix: a 9-byte form for the single-amount variants and a 25-byte form
//! for `Swap`. Decoding validates the minimum length for the tag; surplus
//! trailing bytes past the fixed field set are tolerated.

use vstd::prelude::*;
use vstd::bytes::{spec_u64_from_le_bytes, spec_u64_to_le_bytes};
use vstd::slice::slice_index_get;
use crate::error::RouterError;
use crate::utils::pack::{check_data_len, read_u64_le, write_u64_le};

verus! {

/// A routing instruction, the closed set of operations the router performs.
#[derive(Clone, Copy, Debug, PartialEq, Eq, Structural)]
pub enum AmmInstruction {
    /// Move `amount` from the user's funding account into the program's
    /// funding account under the user's own delegated authority.
    BeforeTransfer { amount: u64 },
    /// Swap through the external pool; exactly one of the two input amounts
    /// is expected to be nonzero, which encodes the trade direction.
    Swap { token_a_amount_in: u64, token_b_amount_in: u64, min_token_amount_out: u64 },
    /// Pay out the entire balance of the program's source account and move a
    /// fee sized from `amount` to the fee recipient.
    AfterTransfer { amount: u64 },
    /// Ensure a program-owned account of `size` bytes exists, rent-exempt and
    /// assigned to the program.
    CreateAccount { size: u64 },
    /// Withdraw exactly `amount` from the program's source account.
    Harvest { amount: u64 },
}

/// The instruction discriminants, one tag value per variant, assigned by
/// declaration order starting at zero.
#[derive(Clone, Copy, Debug, PartialEq, Eq, Structural)]
pub enum AmmInstructionType {
    BeforeTransfer,
    Swap,
    AfterTransfer,
    CreateAccount,
    Harvest,
}

/// The tag byte of each instruction type.
pub open spec fn spec_type_tag(t: AmmInstructionType) -> u8 {
    match t {
        AmmInstructionType::BeforeTransfer => 0,
        AmmInstructionType::Swap => 1,
        AmmInstructionType::AfterTransfer => 2,
        AmmInstructionType::CreateAccount => 3,
        AmmInstructionType::Harvest => 4,
    }
}

/// The instruction type a tag byte maps to; tags outside the closed set are
/// an `UnknownTag` error.
pub open spec fn spec_type_from_tag(value: u8) -> Result<AmmInstructionType, RouterError> {
    if value == 0 {
        Ok(AmmInstructionType::BeforeTransfer)
    } else if value == 1 {
        Ok(AmmInstructionType::Swap)
    } else if value == 2 {
        Ok(AmmInstructionType::AfterTransfer)
    } else if value == 3 {
        Ok(AmmInstructionType::CreateAccount)
    } else if value == 4 {
        Ok(AmmInstructionType::Harvest)
    } else {
        Err(RouterError::UnknownTag)
    }
}

impl AmmInstructionType {
    /// The tag byte of this instruction type.
    pub fn tag(&self) -> (t: u8)
        ensures
            t == spec_type_tag(*self),
    {
        match self {
            AmmInstructionType::BeforeTransfer => 0,
            AmmInstructionType::Swap => 1,
            AmmInstructionType::AfterTransfer => 2,
            AmmInstructionType::CreateAccount => 3,
            AmmInstructionType::Harvest => 4,
        }
    }

    /// Maps a tag byte back into the closed discriminant set.
    pub fn try_from_primitive(value: u8) -> (r: Result<AmmInstructionType, RouterError>)
        ensures
            r == spec_type_from_tag(value),
    {
        if value == 0 {
            Ok(AmmInstructionType::BeforeTransfer)
        } else if value == 1 {
            Ok(AmmInstructionType::Swap)
        } else if value == 2 {
            Ok(AmmInstructionType::AfterTransfer)
        } else if value == 3 {
            Ok(AmmInstructionType::CreateAccount)
        } else if value == 4 {
            Ok(AmmInstructionType::Harvest)
        } else {
            Err(RouterError::UnknownTag)
        }
    }
}

/// The advisory display text of each instruction type; diagnostic only and
/// not part of any handler's contract.
pub open spec fn spec_label(t: AmmInstructionType) -> Seq<char> {
    match t {
        AmmInstructionType::BeforeTransfer => "before transfer"@,
        AmmInstructionType::Swap => "Swap"@,
        AmmInstructionType::AfterTransfer => "before transfer"@,
        AmmInstructionType::CreateAccount => "create account"@,
        AmmInstructionType::Harvest => "harvest"@,
    }
}

impl AmmInstructionType {
    /// The advisory display text of this instruction type.
    pub fn label(&self) -> (s: &'static str)
        ensures
            s@ == spec_label(*self),
    {
        match self {
            AmmInstructionType::BeforeTransfer => "before transfer",
            AmmInstructionType::Swap => "Swap",
            AmmInstructionType::AfterTransfer => "before transfer",
            AmmInstructionType::CreateAccount => "create account",
            AmmInstructionType::Harvest => "harvest",
        }
    }
}

/// The instruction type that carries a given instruction.
pub open spec fn spec_instruction_type(i: AmmInstruction) -> AmmInstructionType {
    match i {
        AmmInstruction::BeforeTransfer { .. } => AmmInstructionType::BeforeTransfer,
        AmmInstruction::Swap { .. } => AmmInstructionType::Swap,
        AmmInstruction::AfterTransfer { .. } => AmmInstructionType::AfterTransfer,
        AmmInstruction::CreateAccount { .. } => AmmInstructionType::CreateAccount,
        AmmInstruction::Harvest { .. } => AmmInstructionType::Harvest,
    }
}

/// The fixed encoded length of an instruction: 25 bytes for `Swap`, 9 bytes
/// for every single-amount variant.
pub open spec fn packed_len(i: AmmInstruction) -> usize {
    match i {
        AmmInstruction::Swap { .. } => 25,
        _ => 9,
    }
}

/// The exact byte sequence an instruction encodes to: the tag byte, then the
/// fields in declaration order, little-endian.
pub open spec fn spec_pack(i: AmmInstruction) -> Seq<u8> {
    match i {
        AmmInstruction::BeforeTransfer { amount } => seq![0u8] + spec_u64_to_le_bytes(amount),
        AmmInstruction::Swap { token_a_amount_in, token_b_amount_in, min_token_amount_out } => seq![
            1u8,
        ] + spec_u64_to_le_bytes(token_a_amount_in) + spec_u64_to_le_bytes(token_b_amount_in)
            + spec_u64_to_le_bytes(min_token_amount_out),
        AmmInstruction::AfterTransfer { amount } => seq![2u8] + spec_u64_to_le_bytes(amount),
        AmmInstruction::CreateAccount { size } => seq![3u8] + spec_u64_to_le_bytes(size),
        AmmInstruction::Harvest { amount } => seq![4u8] + spec_u64_to_le_bytes(amount),
    }
}

/// The unsigned 64-bit little-endian field of `b` that starts at `off`.
pub open spec fn spec_u64_field(b: Seq<u8>, off: int) -> u64 {
    spec_u64_from_le_bytes(b.subrange(off, off + 8))
}

/// The instruction a byte sequence decodes to, or the decode error: an empty
/// buffer is truncated; a tag outside the closed set is unknown; a buffer
/// shorter than the tag's fixed length is truncated. Trailing bytes past the
/// fixed length are ignored.
pub open spec fn spec_unpack(b: Seq<u8>) -> Result<AmmInstruction, RouterError> {
    if b.len() < 1 {
        Err(RouterError::TruncatedInput)
    } else if b[0] == 0 {
        if b.len() < 9 {
            Err(RouterError::TruncatedInput)
        } else {
            Ok(AmmInstruction::BeforeTransfer { amount: spec_u64_field(b, 1) })
        }
    } else if b[0] == 1 {
        if b.len() < 25 {
            Err(RouterError::TruncatedInput)
        } else {
            Ok(
                AmmInstruction::Swap {
                    token_a_amount_in: spec_u64_field(b, 1),
                    token_b_amount_in: spec_u64_field(b, 9),
                    min_token_amount_out: spec_u64_field(b, 17),
                },
            )
        }
    } else if b[0] == 2 {
        if b.len() < 9 {
            Err(RouterError::TruncatedInput)
        } else {
            Ok(AmmInstruction::AfterTransfer { amount: spec_u64_field(b, 1) })
        }
    } else if b[0] == 3 {
        if b.len() < 9 {
            Err(RouterError::TruncatedInput)
        } else {
            Ok(AmmInstruction::CreateAccount { size: spec_u64_field(b, 1) })
        }
    } else if b[0] == 4 {
        if b.len() < 9 {
            Err(RouterError::TruncatedInput)
        } else {
            Ok(AmmInstruction::Harvest { amount: spec_u64_field(b, 1) })
        }
    } else {
        Err(RouterError::UnknownTag)
    }
}

/// What `pack` and its per-variant helpers guarantee: on success the buffer's
/// prefix holds the exact encoding and the bytes past it are untouched; a
/// buffer shorter than the fixed encoded length is rejected unchanged.
pub open spec fn pack_result(
    i: AmmInstruction,
    pre: Seq<u8>,
    post: Seq<u8>,
    r: Result<usize, RouterError>,
) -> bool {
    match r {
        Ok(n) => pre.len() >= packed_len(i) && n == packed_len(i) && post == spec_pack(i)
            + pre.skip(packed_len(i) as int),
        Err(e) => e == RouterError::BufferTooSmall && pre.len() < packed_len(i) && post == pre,
    }
}

impl AmmInstruction {
    /// The encoded length of the single-amount variants.
    pub const LEN: usize = 9;

    /// The encoded length of the `Swap` variant.
    pub const SWAP_LEN: usize = 25;

    /// Encodes `self` into the front of the caller-supplied buffer and
    /// returns the number of bytes written; fails with `BufferTooSmall` if
    /// the buffer is shorter than the variant's fixed encoded length.
    pub fn pack(&self, output: &mut Vec<u8>) -> (r: Result<usize, RouterError>)
        ensures
            pack_result(*self, old(output)@, final(output)@, r),
    {
        match self {
            AmmInstruction::BeforeTransfer { .. } => self.pack_before_transfer(output),
            AmmInstruction::Swap { .. } => self.pack_swap(output),
            AmmInstruction::AfterTransfer { .. } => self.pack_after_transfer(output),
            AmmInstruction::CreateAccount { .. } => self.pack_create_account(output),
            AmmInstruction::Harvest { .. } => self.pack_harvest(output),
        }
    }

    /// Decodes an instruction from the front of `input`.
    pub fn unpack(input: &[u8]) -> (r: Result<AmmInstruction, RouterError>)
        ensures
            r == spec_unpack(input@),
    {
        check_data_len(input, 1)?;
        let instruction_type = AmmInstructionType::try_from_primitive(*slice_index_get(input, 0))?;
        match instruction_type {
            AmmInstructionType::BeforeTransfer => Self::unpack_before_transfer(input),
            AmmInstructionType::Swap => Self::unpack_swap(input),
            AmmInstructionType::AfterTransfer => Self::unpack_after_transfer(input),
            AmmInstructionType::CreateAccount => Self::unpack_create_account(input),
            AmmInstructionType::Harvest => Self::unpack_harvest(input),
        }
    }

    fn pack_before_transfer(&self, output: &mut Vec<u8>) -> (r: Result<usize, RouterError>)
        requires
            self is BeforeTransfer,
        ensures
            pack_result(*self, old(output)@, final(output)@, r),
    {
        if output.len() < Self::LEN {
            return Err(RouterError::BufferTooSmall);
        }
        if let AmmInstruction::BeforeTransfer { amount } = self {
            output[0] = AmmInstructionType::BeforeTransfer.tag();
            write_u64_le(output, 1, *amount);
            proof {
                assert(output@ =~= spec_pack(*self) + old(output)@.skip(9));
            }
            Ok(Self::LEN)
        } else {
            Err(RouterError::BufferTooSmall)
        }
    }

    fn pack_swap(&self, output: &mut Vec<u8>) -> (r: Result<usize, RouterError>)
        requires
            self is Swap,
        ensures
            pack_result(*self, old(output)@, final(output)@, r),
    {
        if output.len() < Self::SWAP_LEN {
            return Err(RouterError::BufferTooSmall);
        }
        if let AmmInstruction::Swap {
            token_a_amount_in,
            token_b_amount_in,
            min_token_amount_out,
        } = self {
            output[0] = AmmInstructionType::Swap.tag();
            write_u64_le(output, 1, *token_a_amount_in);
            write_u64_le(output, 9, *token_b_amount_in);
            write_u64_le(output, 17, *min_token_amount_out);
            proof {
                assert(output@ =~= spec_pack(*self) + old(output)@.skip(25));
            }
            Ok(Self::SWAP_LEN)
        } else {
            Err(RouterError::BufferTooSmall)
        }
    }

    fn pack_after_transfer(&self, output: &mut Vec<u8>) -> (r: Result<usize, RouterError>)
        requires
            self is AfterTransfer,
        ensures
            pack_result(*self, old(output)@, final(output)@, r),
    {
        if output.len() < Self::LEN {
            return Err(RouterError::BufferTooSmall);
        }
        if let AmmInstruction::AfterTransfer { amount } = self {
            output[0] = AmmInstructionType::AfterTransfer.tag();
            write_u64_le(output, 1, *amount);
            proof {
                assert(output@ =~= spec_pack(*self) + old(output)@.skip(9));
            }
            Ok(Self::LEN)
        } else {
            Err(RouterError::BufferTooSmall)
        }
    }

    fn pack_create_account(&self, output: &mut Vec<u8>) -> (r: Result<usize, RouterError>)
        requires
            self is CreateAccount,
        ensures
            pack_result(*self, old(output)@, final(output)@, r),
    {
        if output.len() < Self::LEN {
            return Err(RouterError::BufferTooSmall);
        }
        if let AmmInstruction::CreateAccount { size } = self {
            output[0] = AmmInstructionType::CreateAccount.tag();
            write_u64_le(output, 1, *size);
            proof {
                assert(output@ =~= spec_pack(*self) + old(output)@.skip(9));
            }
            Ok(Self::LEN)
        } else {
            Err(RouterError::BufferTooSmall)
        }
    }

    fn pack_harvest(&self, output: &mut Vec<u8>) -> (r: Result<usize, RouterError>)
        requires
            self is Harvest,
        ensures
            pack_result(*self, old(output)@, final(output)@, r),
    {
        if output.len() < Self::LEN {
            return Err(RouterError::BufferTooSmall);
        }
        if let AmmInstruction::Harvest { amount } = self {
            output[0] = AmmInstructionType::Harvest.tag();
            write_u64_le(output, 1, *amount);
            proof {
                assert(output@ =~= spec_pack(*self) + old(output)@.skip(9));
            }
            Ok(Self::LEN)
        } else {
            Err(RouterError::BufferTooSmall)
        }
    }

    fn unpack_before_transfer(input: &[u8]) -> (r: Result<AmmInstruction, RouterError>)
        requires
            input@.len() >= 1,
            input@[0] == 0,
        ensures
            r == spec_unpack(input@),
    {
        check_data_len(input, Self::LEN)?;
        Ok(AmmInstruction::BeforeTransfer { amount: read_u64_le(input, 1) })
    }

    fn unpack_swap(input: &[u8]) -> (r: Result<AmmInstruction, RouterError>)
        requires
            input@.len() >= 1,
            input@[0] == 1,
        ensures
            r == spec_unpack(input@),
    {
        check_data_len(input, Self::SWAP_LEN)?;
        let token_a_amount_in = read_u64_le(input, 1);
        let token_b_amount_in = read_u64_le(input, 9);
        let min_token_amount_out = read_u64_le(input, 17);
        Ok(AmmInstruction::Swap { token_a_amount_in, token_b_amount_in, min_token_amount_out })
    }

    fn unpack_after_transfer(input: &[u8]) -> (r: Result<AmmInstruction, RouterError>)
        requires
            input@.len() >= 1,
            input@[0] == 2,
        ensures
            r == spec_unpack(input@),
    {
        check_data_len(input, Self::LEN)?;
        Ok(AmmInstruction::AfterTransfer { amount: read_u64_le(input, 1) })
    }

    fn unpack_create_account(input: &[u8]) -> (r: Result<AmmInstruction, RouterError>)
        requires
            input@.len() >= 1,
            input@[0] == 3,
        ensures
            r == spec_unpack(input@),
    {
        check_data_len(input, Self::LEN)?;
        Ok(AmmInstruction::CreateAccount { size: read_u64_le(input, 1) })
    }

    fn unpack_harvest(input: &[u8]) -> (r: Result<AmmInstruction, RouterError>)
        requires
            input@.len() >= 1,
            input@[0] == 4,
        ensures
            r == spec_unpack(input@),
    {
        check_data_len(input, Self::LEN)?;
        Ok(AmmInstruction::Harvest { amount: read_u64_le(input, 1) })
    }
}

/// The round-trip law: every constructible instruction encodes to exactly its
/// variant's fixed length, and decoding that encoding yields the instruction
/// back.
pub proof fn lemma_pack_unpack_roundtrip(i: AmmInstruction)
    ensures
        spec_pack(i).len() == packed_len(i),
        spec_unpack(spec_pack(i)) == Ok::<AmmInstruction, RouterError>(i),
{
    vstd::bytes::lemma_auto_spec_u64_to_from_le_bytes();
    let b = spec_pack(i);
    match i {
        AmmInstruction::BeforeTransfer { amount } => {
            assert(b.subrange(1, 9) =~= spec_u64_to_le_bytes(amount));
        },
        AmmInstruction::Swap { token_a_amount_in, token_b_amount_in, min_token_amount_out } => {
            assert(b.subrange(1, 9) =~= spec_u64_to_le_bytes(token_a_amount_in));
            assert(b.subrange(9, 17) =~= spec_u64_to_le_bytes(token_b_amount_in));
            assert(b.subrange(17, 25) =~= spec_u64_to_le_bytes(min_token_amount_out));
        },
        AmmInstruction::AfterTransfer { amount } => {
            assert(b.subrange(1, 9) =~= spec_u64_to_le_bytes(amount));
        },
        AmmInstruction::CreateAccount { size } => {
            assert(b.subrange(1, 9) =~= spec_u64_to_le_bytes(size));
        },
        AmmInstruction::Harvest { amount } => {
            assert(b.subrange(1, 9) =~= spec_u64_to_le_bytes(amount));
        },
    }
}

/// The other direction of the round-trip law: a buffer of exactly the fixed
/// length that decodes successfully is reproduced byte for byte by encoding
/// the decoded instruction.
pub proof fn lemma_unpack_pack_exact(b: Seq<u8>, i: AmmInstruction)
    requires
        spec_unpack(b) == Ok::<AmmInstruction, RouterError>(i),
        b.len() == packed_len(i),
    ensures
        spec_pack(i) == b,
{
    vstd::bytes::lemma_auto_spec_u64_to_from_le_bytes();
    match i {
        AmmInstruction::BeforeTransfer { amount } => {
            assert(spec_u64_to_le_bytes(amount) == b.subrange(1, 9));
            assert(spec_pack(i) =~= b);
        },
        AmmInstruction::Swap { token_a_amount_in, token_b_amount_in, min_token_amount_out } => {
            assert(spec_u64_to_le_bytes(token_a_amount_in) == b.subrange(1, 9));
            assert(spec_u64_to_le_bytes(token_b_amount_in) == b.subrange(9, 17));
            assert(spec_u64_to_le_bytes(min_token_amount_out) == b.subrange(17, 25));
            assert(spec_pack(i) =~= b);
        },
        AmmInstruction::AfterTransfer { amount } => {
            assert(spec_u64_to_le_bytes(amount) == b.subrange(1, 9));
            assert(spec_pack(i) =~= b);
        },
        AmmInstruction::CreateAccount { size } => {
            assert(spec_u64_to_le_bytes(size) == b.subrange(1, 9));
            assert(spec_pack(i) =~= b);
        },
        AmmInstruction::Harvest { amount } => {
            assert(spec_u64_to_le_bytes(amount) == b.subrange(1, 9));
            assert(spec_pack(i) =~= b);
        },
    }
}

} // verus!
