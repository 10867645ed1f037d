//! Error taxonomy.  Every rejection is terminal: the caller aborts the whole
//! transaction, and no partial effect survives.

use vstd::prelude::*;

verus! {

/// Rejections specific to the swap path's instruction-chain validation and
/// rate conversion, reported at the boundary as a numeric custom code.
#[derive(Clone, Copy, Debug, PartialEq, Eq, Structural)]
pub enum IntrospectardioError {
    /// The preceding instruction does not target the token service.
    PrevIxNotTokenProgram,
    /// The preceding instruction's payload is shorter than a transfer's.
    UnexpectedTokenProgramDataLen,
    /// The preceding instruction is not a transfer.
    UnexpectedTokenProgramIx,
    /// The preceding transfer's destination is not this pool's base vault.
    UnexpectedTransferDest,
    /// The converted output amount does not fit in 64 bits.
    LargeOrder,
    /// The swap stands first in its transaction: no preceding deposit exists.
    NoPrecedingDeposit,
}

impl IntrospectardioError {
    /// The numeric code a custom error carries across the program boundary.
    pub open spec fn code_spec(self) -> u32 {
        match self {
            IntrospectardioError::PrevIxNotTokenProgram => 0,
            IntrospectardioError::UnexpectedTokenProgramDataLen => 1,
            IntrospectardioError::UnexpectedTokenProgramIx => 2,
            IntrospectardioError::UnexpectedTransferDest => 3,
            IntrospectardioError::LargeOrder => 4,
            IntrospectardioError::NoPrecedingDeposit => 5,
        }
    }

    /// Numeric form of this error.
    pub fn code(&self) -> (c: u32)
        ensures
            c == self.code_spec(),
    {
        match self {
            IntrospectardioError::PrevIxNotTokenProgram => 0,
            IntrospectardioError::UnexpectedTokenProgramDataLen => 1,
            IntrospectardioError::UnexpectedTokenProgramIx => 2,
            IntrospectardioError::UnexpectedTransferDest => 3,
            IntrospectardioError::LargeOrder => 4,
            IntrospectardioError::NoPrecedingDeposit => 5,
        }
    }
}

/// Every rejection the program can report: the structural and identity
/// failures shared by both instructions, plus the custom swap-path codes.
#[derive(Clone, Copy, Debug, PartialEq, Eq, Structural)]
pub enum PoolError {
    /// The instruction did not name the exact number of accounts it takes.
    NotEnoughAccountKeys,
    /// Missing opcode, unknown opcode, or a payload shorter than required.
    InvalidInstructionData,
    /// The pool account's stored bytes are shorter than the fixed record.
    InvalidAccountData,
    /// A supplied account does not match its re-derived expected identity.
    InvalidSeeds,
    /// The currently executing instruction does not target this program.
    IncorrectProgramId,
    /// A swap-path rejection with its own numeric code.
    Custom(IntrospectardioError),
}

impl From<IntrospectardioError> for PoolError {
    fn from(value: IntrospectardioError) -> (r: PoolError) {
        PoolError::Custom(value)
    }
}

impl vstd::std_specs::convert::FromSpecImpl<IntrospectardioError> for PoolError {
    open spec fn obeys_from_spec() -> bool {
        true
    }

    open spec fn from_spec(value: IntrospectardioError) -> PoolError {
        PoolError::Custom(value)
    }
}

} // verus!
