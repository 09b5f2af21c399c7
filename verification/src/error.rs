//! The router's error taxonomy.

use vstd::prelude::*;

verus! {

/// Every failure the router itself can detect. Collaborator failures
/// (insufficient funds, authority mismatch, and the like) are surfaced by the
/// invoked programs themselves and are not reinterpreted here.
#[derive(Clone, Copy, Debug, PartialEq, Eq, Structural)]
pub enum RouterError {
    /// A decoded buffer is shorter than the fixed length its tag requires,
    /// or is empty.
    TruncatedInput,
    /// The leading tag byte is outside the closed discriminant set.
    UnknownTag,
    /// A caller-supplied encoding buffer is shorter than the variant's fixed
    /// encoded length.
    BufferTooSmall,
    /// The caller's account list was exhausted before all required roles of
    /// an instruction were bound.
    MissingAccount,
    /// The swap handler's fixed account window did not match structurally.
    MalformedAccountSet,
    /// The swap target program identity is not on the allow-list.
    UntrustedCounterparty,
    /// After an external call, the spent amount on the input side differs
    /// from the pre-computed amount.
    UnexpectedBalanceChange,
    /// After an external call, the received amount on the output side is
    /// below the caller's (possibly raised) floor.
    InsufficientOutput,
    /// The runtime could not derive the program's signing authority; this is
    /// the runtime's own derivation-exhaustion case.
    DerivationExhausted,
}

} // verus!
