//! Error taxonomy of the vault core. Every failure aborts the whole
//! invocation; the core performs no internal retries.

use vstd::prelude::*;

verus! {

/// The conditions on which the core aborts an invocation.
#[derive(Clone, Copy, Debug, PartialEq, Eq, Structural)]
pub enum BloomErrorCode {
    /// A newly opened or re-checked position's range does not bracket the
    /// current tick.
    PositionOutOfRange,
    /// A structural linkage check on the share-token mint failed.
    InvalidPoolTokenMint,
    /// A computed required token amount exceeds available vault reserves;
    /// never silently clamped.
    Miscalculation,
}

impl BloomErrorCode {
    /// A human-readable message for the condition.
    pub fn message(&self) -> (r: &'static str)
        ensures
            r@ == self.spec_message(),
    {
        match self {
            BloomErrorCode::PositionOutOfRange => "Position Out Of Range",
            BloomErrorCode::InvalidPoolTokenMint => "Invalid Pool Token Mint",
            BloomErrorCode::Miscalculation => "Miscalculation",
        }
    }

    pub open spec fn spec_message(&self) -> Seq<char> {
        match self {
            BloomErrorCode::PositionOutOfRange => "Position Out Of Range"@,
            BloomErrorCode::InvalidPoolTokenMint => "Invalid Pool Token Mint"@,
            BloomErrorCode::Miscalculation => "Miscalculation"@,
        }
    }
}

} // verus!
