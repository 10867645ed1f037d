//! Instruction-chain validation.
//!
//! A swap is authentic only if the instruction immediately before it in the
//! same atomic transaction is a committed token-service transfer into this
//! pool's base vault.  The validator reads nothing but transaction-local
//! data: the preceding instruction's target program, payload and account
//! list, as the introspection register exposes them.  Because the enclosing
//! transaction executes all-or-nothing, reaching this code at all proves the
//! preceding transfer already committed, so its amount is taken at face
//! value.

use vstd::bytes::{spec_u64_from_le_bytes, u64_from_le_bytes};
use vstd::prelude::*;
use vstd::slice::slice_subrange;

use crate::error::IntrospectardioError;
use crate::{pubkey_eq, TOKEN_PROGRAM};

verus! {

/// Token-service opcode of a transfer.
pub const TRANSFER_DISC: u8 = 3;

/// Mathematical model of one introspected instruction.
pub struct IxView {
    /// Identity of the program the instruction targets.
    pub program_id: Seq<u8>,
    /// Identities of the accounts the instruction names, in order.
    pub accounts: Seq<Seq<u8>>,
    /// Raw instruction payload.
    pub data: Seq<u8>,
}

/// One instruction of the enclosing transaction, as the introspection
/// register exposes it.
#[derive(Clone, Debug)]
pub struct IxInfo {
    /// Identity of the program the instruction targets.
    pub program_id: [u8; 32],
    /// Identities of the accounts the instruction names, in order.
    pub accounts: Vec<[u8; 32]>,
    /// Raw instruction payload.
    pub data: Vec<u8>,
}

impl View for IxInfo {
    type V = IxView;

    open spec fn view(&self) -> IxView {
        IxView {
            program_id: self.program_id@,
            accounts: self.accounts@.map_values(|k: [u8; 32]| k@),
            data: self.data@,
        }
    }
}

/// Position, within a transfer's account list, of the destination account.
pub const TRANSFER_DEST_INDEX: usize = 1;

/// Outcome of validating the instruction preceding a swap, given the pool's
/// stored base-vault identity: either the deposited amount, or the first
/// failed check.
pub open spec fn validate_prev_ix_spec(prev: IxView, pool_vault_in: Seq<u8>) -> Result<
    u64,
    IntrospectardioError,
> {
    if prev.program_id != TOKEN_PROGRAM@ {
        Err(IntrospectardioError::PrevIxNotTokenProgram)
    } else if prev.data.len() < 9 {
        Err(IntrospectardioError::UnexpectedTokenProgramDataLen)
    } else if prev.data[0] != TRANSFER_DISC {
        Err(IntrospectardioError::UnexpectedTokenProgramIx)
    } else if prev.accounts.len() <= TRANSFER_DEST_INDEX
        || prev.accounts[TRANSFER_DEST_INDEX as int] != pool_vault_in {
        Err(IntrospectardioError::UnexpectedTransferDest)
    } else {
        Ok(spec_u64_from_le_bytes(prev.data.subrange(1, 9)))
    }
}

/// Validates that `prev` is a committed token-service transfer into the
/// pool's base vault and extracts the transferred amount.
///
/// In order, it rejects: an instruction not targeting the token service; a
/// payload shorter than a transfer's nine bytes; an opcode other than the
/// transfer opcode; a destination account other than `pool_vault_in`
/// (including a transfer naming no destination at all).  On success the
/// amount is payload bytes 1 through 8, little endian.
pub fn validate_prev_ix(prev: &IxInfo, pool_vault_in: &[u8; 32]) -> (r: Result<
    u64,
    IntrospectardioError,
>)
    ensures
        r == validate_prev_ix_spec(prev@, pool_vault_in@),
{
    if !pubkey_eq(&prev.program_id, &TOKEN_PROGRAM) {
        return Err(IntrospectardioError::PrevIxNotTokenProgram);
    }
    if prev.data.len() < 9 {
        return Err(IntrospectardioError::UnexpectedTokenProgramDataLen);
    }
    if prev.data[0] != TRANSFER_DISC {
        return Err(IntrospectardioError::UnexpectedTokenProgramIx);
    }
    if prev.accounts.len() <= TRANSFER_DEST_INDEX
        || !pubkey_eq(&prev.accounts[TRANSFER_DEST_INDEX], pool_vault_in) {
        return Err(IntrospectardioError::UnexpectedTransferDest);
    }
    let amount_in = u64_from_le_bytes(slice_subrange(prev.data.as_slice(), 1, 9));
    Ok(amount_in)
}

} // verus!
