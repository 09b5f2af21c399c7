//! Account identities and the balance guard.
//!
//! An account is known to the router's logic only through its 32-byte
//! identity and, where a handler needs one, a token balance read by the
//! embedding program immediately before it calls in.

use vstd::prelude::*;
use crate::error::RouterError;

verus! {

/// A 32-byte account identity.
pub type AccountId = [u8; 32];

/// Byte-for-byte equality of two account identities.
pub fn keys_equal(a: &AccountId, b: &AccountId) -> (r: bool)
    ensures
        r == (a == b),
{
    let mut i: usize = 0;
    while i < 32
        invariant
            i <= 32,
            forall|j: int| 0 <= j < i ==> a@[j] == b@[j],
        decreases 32 - i,
    {
        if a[i] != b[i] {
            return false;
        }
        i += 1;
    }
    proof {
        broadcast use vstd::array::group_array_axioms;

        assert(*a =~= *b);
    }
    true
}

/// The balance guard's exact-spend check: succeeds precisely when the
/// balance fell from `baseline` to `current_balance` by `expected_spent`,
/// and fails with `UnexpectedBalanceChange` otherwise (including a balance
/// that rose).
pub fn assert_spent(current_balance: u64, baseline: u64, expected_spent: u64) -> (r: Result<
    (),
    RouterError,
>)
    ensures
        r == if baseline - current_balance == expected_spent {
            Ok::<(), RouterError>(())
        } else {
            Err::<(), RouterError>(RouterError::UnexpectedBalanceChange)
        },
{
    if current_balance <= baseline && baseline - current_balance == expected_spent {
        Ok(())
    } else {
        Err(RouterError::UnexpectedBalanceChange)
    }
}

/// The balance guard's minimum-output check: succeeds precisely when the
/// balance rose from `baseline` to `current_balance` by at least
/// `expected_min_received`, and fails with `InsufficientOutput` otherwise
/// (including a balance that fell).
pub fn assert_received(current_balance: u64, baseline: u64, expected_min_received: u64) -> (r:
    Result<(), RouterError>)
    ensures
        r == if current_balance - baseline >= expected_min_received {
            Ok::<(), RouterError>(())
        } else {
            Err::<(), RouterError>(RouterError::InsufficientOutput)
        },
{
    if current_balance >= baseline && current_balance - baseline >= expected_min_received {
        Ok(())
    } else {
        Err(RouterError::InsufficientOutput)
    }
}

} // verus!
