//! Request processing.
//!
//! Both instructions are decided here as pure functions from transaction
//! data to an action plan.  The surrounding runtime performs the planned
//! account creations and transfers through the account-creation and token
//! services; a decision function mutates nothing itself, so a rejection
//! leaves every account untouched.

use vstd::bytes::{spec_u64_from_le_bytes, u64_from_le_bytes};
use vstd::prelude::*;
use vstd::slice::slice_subrange;

use crate::chain::{validate_prev_ix, validate_prev_ix_spec, IxInfo, IxView};
use crate::convert::{convert, converted};
use crate::error::{IntrospectardioError, PoolError};
use crate::pda::{derive_spec, find_program_address};
use crate::state::{decode_spec, Pool, PoolView, POOL_LEN};
use crate::{pubkey_eq, ID};

verus! {

/// Mathematical model of one account handed to an instruction.
pub struct AccountView {
    /// The account's identity.
    pub key: Seq<u8>,
    /// The account's stored bytes.
    pub data: Seq<u8>,
}

/// One account handed to an instruction: its identity and its stored bytes.
#[derive(Debug)]
pub struct Account {
    /// The account's identity.
    pub key: [u8; 32],
    /// The account's stored bytes.
    pub data: Vec<u8>,
}

impl View for Account {
    type V = AccountView;

    open spec fn view(&self) -> AccountView {
        AccountView { key: self.key@, data: self.data@ }
    }
}

/// The models of a whole account list.
pub open spec fn account_views(s: Seq<Account>) -> Seq<AccountView> {
    s.map_values(|a: Account| a@)
}

/// The models of a whole instruction list.
pub open spec fn ix_views(s: Seq<IxInfo>) -> Seq<IxView> {
    s.map_values(|ix: IxInfo| ix@)
}

/// Mathematical model of an initialization plan.
pub struct InitPlanView {
    /// The derived pool identity.
    pub pool_key: Seq<u8>,
    /// The record to persist in the pool account.
    pub pool: PoolView,
    /// Derivation bump of the base vault.
    pub bump_a: u8,
    /// Derivation bump of the quote vault.
    pub bump_b: u8,
}

/// Everything the runtime needs to carry an initialization out: create the
/// pool account at the fixed record size and write the record; create each
/// vault under the token service and initialize its custody owner to the
/// pool identity, each creation signed by the respective derived authority.
#[derive(Debug)]
pub struct InitPlan {
    /// The derived pool identity.
    pub pool_key: [u8; 32],
    /// The record to persist in the pool account.
    pub pool: Pool,
    /// Derivation bump of the base vault.
    pub bump_a: u8,
    /// Derivation bump of the quote vault.
    pub bump_b: u8,
}

impl View for InitPlan {
    type V = InitPlanView;

    open spec fn view(&self) -> InitPlanView {
        InitPlanView {
            pool_key: self.pool_key@,
            pool: self.pool@,
            bump_a: self.bump_a,
            bump_b: self.bump_b,
        }
    }
}

/// Mathematical model of an authorized outbound transfer.
pub struct TransferPlanView {
    /// Source of the transfer: the pool's quote vault.
    pub from: Seq<u8>,
    /// Destination chosen by the requester.
    pub to: Seq<u8>,
    /// Quote-asset atoms to move.
    pub amount: u64,
    /// First authority seed: the base-mint identity.
    pub seed_a: Seq<u8>,
    /// Second authority seed: the quote-mint identity.
    pub seed_b: Seq<u8>,
    /// Last authority seed: the pool's derivation bump.
    pub bump: u8,
}

/// The outbound transfer a valid swap authorizes, together with the seed
/// material that reconstructs the pool's signing capability.
#[derive(Debug)]
pub struct TransferPlan {
    /// Source of the transfer: the pool's quote vault.
    pub from: [u8; 32],
    /// Destination chosen by the requester.
    pub to: [u8; 32],
    /// Quote-asset atoms to move.
    pub amount: u64,
    /// First authority seed: the base-mint identity.
    pub seed_a: [u8; 32],
    /// Second authority seed: the quote-mint identity.
    pub seed_b: [u8; 32],
    /// Last authority seed: the pool's derivation bump.
    pub bump: u8,
}

impl View for TransferPlan {
    type V = TransferPlanView;

    open spec fn view(&self) -> TransferPlanView {
        TransferPlanView {
            from: self.from@,
            to: self.to@,
            amount: self.amount,
            seed_a: self.seed_a@,
            seed_b: self.seed_b@,
            bump: self.bump,
        }
    }
}

/// Outcome of deciding an initialization over the modeled account list
/// (funder, pool, vault A, vault B, base mint, quote mint, account-creation
/// service, token service) and the rate payload.
pub open spec fn process_init_spec(accts: Seq<AccountView>, data: Seq<u8>) -> Result<
    InitPlanView,
    PoolError,
> {
    if accts.len() != 8 {
        Err(PoolError::NotEnoughAccountKeys)
    } else if data.len() < 8 {
        Err(PoolError::InvalidInstructionData)
    } else {
        let rate = spec_u64_from_le_bytes(data.subrange(0, 8));
        let mint_a = accts[4].key;
        let mint_b = accts[5].key;
        match derive_spec(mint_a, mint_b, ID@) {
            None => Err(PoolError::InvalidSeeds),
            Some(pool_found) => {
                if accts[1].key != pool_found.0 {
                    Err(PoolError::InvalidSeeds)
                } else {
                    match derive_spec(pool_found.0, mint_a, ID@) {
                        None => Err(PoolError::InvalidSeeds),
                        Some(va_found) => match derive_spec(pool_found.0, mint_b, ID@) {
                            None => Err(PoolError::InvalidSeeds),
                            Some(vb_found) => {
                                if accts[2].key != va_found.0 {
                                    Err(PoolError::InvalidSeeds)
                                } else if accts[3].key != vb_found.0 {
                                    Err(PoolError::InvalidSeeds)
                                } else {
                                    Ok(
                                        InitPlanView {
                                            pool_key: pool_found.0,
                                            pool: PoolView {
                                                rate: rate as u128,
                                                vault_a: va_found.0,
                                                vault_b: vb_found.0,
                                                mint_a,
                                                mint_b,
                                                bump: pool_found.1,
                                            },
                                            bump_a: va_found.1,
                                            bump_b: vb_found.1,
                                        },
                                    )
                                }
                            },
                        },
                    }
                }
            },
        }
    }
}

/// Decides an initialization request.
///
/// Exactly eight accounts and at least eight payload bytes are required; the
/// supplied pool and vault identities must equal their freshly re-derived
/// expected identities, the sole authentication of identity-bound accounts.
/// On success the plan holds the full record to persist — the little-endian
/// rate from the payload, both derived vault identities, and the authority
/// seed material — and the vault bumps for their creation signatures.
pub fn process_init(accounts: &Vec<Account>, data: &[u8]) -> (r: Result<InitPlan, PoolError>)
    ensures
        ({
            let s = process_init_spec(account_views(accounts@), data@);
            match r {
                Ok(plan) => s == Ok::<InitPlanView, PoolError>(plan@),
                Err(e) => s == Err::<InitPlanView, PoolError>(e),
            }
        }),
{
    if accounts.len() != 8 {
        return Err(PoolError::NotEnoughAccountKeys);
    }
    if data.len() < 8 {
        return Err(PoolError::InvalidInstructionData);
    }
    let rate = u64_from_le_bytes(slice_subrange(data, 0, 8));
    let mint_a = &accounts[4].key;
    let mint_b = &accounts[5].key;
    let (expected_pool, bump_pool) = match find_program_address(mint_a, mint_b, &ID) {
        Some(found) => found,
        None => { return Err(PoolError::InvalidSeeds); },
    };
    if !pubkey_eq(&accounts[1].key, &expected_pool) {
        return Err(PoolError::InvalidSeeds);
    }
    let (expected_vault_a, bump_a) = match find_program_address(&expected_pool, mint_a, &ID) {
        Some(found) => found,
        None => { return Err(PoolError::InvalidSeeds); },
    };
    let (expected_vault_b, bump_b) = match find_program_address(&expected_pool, mint_b, &ID) {
        Some(found) => found,
        None => { return Err(PoolError::InvalidSeeds); },
    };
    if !pubkey_eq(&accounts[2].key, &expected_vault_a) {
        return Err(PoolError::InvalidSeeds);
    }
    if !pubkey_eq(&accounts[3].key, &expected_vault_b) {
        return Err(PoolError::InvalidSeeds);
    }
    Ok(
        InitPlan {
            pool_key: expected_pool,
            pool: Pool {
                rate: rate as u128,
                vault_a: expected_vault_a,
                vault_b: expected_vault_b,
                mint_a: accounts[4].key,
                mint_b: accounts[5].key,
                bump: bump_pool,
            },
            bump_a,
            bump_b,
        },
    )
}

/// Outcome of deciding a swap over the modeled account list (funder, pool,
/// destination, base vault, quote vault, introspection register, token
/// service), the transaction's instruction list and the current position.
pub open spec fn process_swap_spec(
    accts: Seq<AccountView>,
    ixs: Seq<IxView>,
    cur_idx: int,
) -> Result<TransferPlanView, PoolError> {
    if accts.len() != 7 {
        Err(PoolError::NotEnoughAccountKeys)
    } else if accts[1].data.len() < POOL_LEN {
        Err(PoolError::InvalidAccountData)
    } else {
        let p = decode_spec(accts[1].data);
        if accts[3].key != p.vault_a {
            Err(PoolError::InvalidSeeds)
        } else if accts[4].key != p.vault_b {
            Err(PoolError::InvalidSeeds)
        } else if cur_idx == 0 {
            Err(PoolError::Custom(IntrospectardioError::NoPrecedingDeposit))
        } else if ixs[cur_idx].program_id != ID@ {
            Err(PoolError::IncorrectProgramId)
        } else {
            match validate_prev_ix_spec(ixs[cur_idx - 1], p.vault_a) {
                Err(e) => Err(PoolError::Custom(e)),
                Ok(amount_in) => {
                    if converted(amount_in, p.rate) > u64::MAX {
                        Err(PoolError::Custom(IntrospectardioError::LargeOrder))
                    } else {
                        Ok(
                            TransferPlanView {
                                from: p.vault_b,
                                to: accts[2].key,
                                amount: converted(amount_in, p.rate) as u64,
                                seed_a: p.mint_a,
                                seed_b: p.mint_b,
                                bump: p.bump,
                            },
                        )
                    }
                },
            }
        }
    }
}

/// Decides a swap request.
///
/// Exactly seven accounts are required.  The supplied vault identities must
/// equal the ones stored in the pool record (the vault-substitution guard);
/// the currently executing instruction must target this program; the
/// immediately preceding instruction must be a committed deposit into the
/// base vault.  On success the plan moves exactly
/// `floor(amount_in * rate / 10^9)` quote atoms from the quote vault to the
/// requester's destination, authorized by the pool's reconstructed signing
/// capability — no other effect is planned, and any rejection plans nothing.
pub fn process_swap(accounts: &Vec<Account>, ixs: &Vec<IxInfo>, cur_idx: usize) -> (r: Result<
    TransferPlan,
    PoolError,
>)
    requires
        cur_idx < ixs@.len(),
    ensures
        ({
            let s = process_swap_spec(account_views(accounts@), ix_views(ixs@), cur_idx as int);
            match r {
                Ok(plan) => s == Ok::<TransferPlanView, PoolError>(plan@),
                Err(e) => s == Err::<TransferPlanView, PoolError>(e),
            }
        }),
{
    if accounts.len() != 7 {
        return Err(PoolError::NotEnoughAccountKeys);
    }
    let pool = match Pool::from_account(accounts[1].data.as_slice()) {
        Ok(p) => p,
        Err(e) => { return Err(e); },
    };
    if !pubkey_eq(&accounts[3].key, &pool.vault_a) {
        return Err(PoolError::InvalidSeeds);
    }
    if !pubkey_eq(&accounts[4].key, &pool.vault_b) {
        return Err(PoolError::InvalidSeeds);
    }
    if cur_idx == 0 {
        return Err(PoolError::Custom(IntrospectardioError::NoPrecedingDeposit));
    }
    if !pubkey_eq(&ixs[cur_idx].program_id, &ID) {
        return Err(PoolError::IncorrectProgramId);
    }
    let amount_in = match validate_prev_ix(&ixs[cur_idx - 1], &pool.vault_a) {
        Ok(a) => a,
        Err(e) => { return Err(PoolError::Custom(e)); },
    };
    let amount_out = match convert(amount_in, pool.rate) {
        Ok(a) => a,
        Err(e) => { return Err(PoolError::Custom(e)); },
    };
    Ok(
        TransferPlan {
            from: pool.vault_b,
            to: accounts[2].key,
            amount: amount_out,
            seed_a: pool.mint_a,
            seed_b: pool.mint_b,
            bump: pool.bump,
        },
    )
}

/// Mathematical model of a decided action.
pub enum ActionView {
    /// Create and write the pool and its vaults.
    Init(InitPlanView),
    /// Move quote atoms out of the quote vault.
    Swap(TransferPlanView),
}

/// The action a request decides: what the runtime is to carry out.
#[derive(Debug)]
pub enum Action {
    /// Create and write the pool and its vaults.
    Init(InitPlan),
    /// Move quote atoms out of the quote vault.
    Swap(TransferPlan),
}

impl View for Action {
    type V = ActionView;

    open spec fn view(&self) -> ActionView {
        match self {
            Action::Init(plan) => ActionView::Init(plan@),
            Action::Swap(plan) => ActionView::Swap(plan@),
        }
    }
}

/// Outcome of dispatching a whole request: the first payload byte selects
/// the instruction, the rest is its payload.
pub open spec fn process_spec(
    accts: Seq<AccountView>,
    data: Seq<u8>,
    ixs: Seq<IxView>,
    cur_idx: int,
) -> Result<ActionView, PoolError> {
    if data.len() < 1 {
        Err(PoolError::InvalidInstructionData)
    } else if data[0] == 0 {
        match process_init_spec(accts, data.skip(1)) {
            Ok(plan) => Ok(ActionView::Init(plan)),
            Err(e) => Err(e),
        }
    } else if data[0] == 1 {
        match process_swap_spec(accts, ixs, cur_idx) {
            Ok(plan) => Ok(ActionView::Swap(plan)),
            Err(e) => Err(e),
        }
    } else {
        Err(PoolError::InvalidInstructionData)
    }
}

/// Decides a whole request: opcode `0` initializes a pool, opcode `1` swaps;
/// an empty payload or any other opcode is malformed.
pub fn process(accounts: &Vec<Account>, data: &[u8], ixs: &Vec<IxInfo>, cur_idx: usize) -> (r:
    Result<Action, PoolError>)
    requires
        data@.len() >= 1 && data@[0] == 1 ==> cur_idx < ixs@.len(),
    ensures
        ({
            let s = process_spec(account_views(accounts@), data@, ix_views(ixs@), cur_idx as int);
            match r {
                Ok(action) => s == Ok::<ActionView, PoolError>(action@),
                Err(e) => s == Err::<ActionView, PoolError>(e),
            }
        }),
{
    if data.len() < 1 {
        return Err(PoolError::InvalidInstructionData);
    }
    let disc = *vstd::slice::slice_index_get(data, 0);
    let rest = slice_subrange(data, 1, data.len());
    proof {
        assert(rest@ =~= data@.skip(1));
    }
    if disc == 0 {
        match process_init(accounts, rest) {
            Ok(plan) => Ok(Action::Init(plan)),
            Err(e) => Err(e),
        }
    } else if disc == 1 {
        match process_swap(accounts, ixs, cur_idx) {
            Ok(plan) => Ok(Action::Swap(plan)),
            Err(e) => Err(e),
        }
    } else {
        Err(PoolError::InvalidInstructionData)
    }
}

/// Two successful initializations over the same mint pair bind the same pool
/// identity, the same vault identities and the same bump: a second
/// initialization necessarily targets the account the first one already
/// created, so its creation request fails before any state is written.
pub proof fn lemma_same_mints_collide(
    a1: Seq<AccountView>,
    d1: Seq<u8>,
    a2: Seq<AccountView>,
    d2: Seq<u8>,
)
    requires
        process_init_spec(a1, d1) matches Ok(_),
        process_init_spec(a2, d2) matches Ok(_),
        a1[4].key == a2[4].key,
        a1[5].key == a2[5].key,
    ensures
        process_init_spec(a1, d1).unwrap().pool_key == process_init_spec(a2, d2).unwrap().pool_key,
        process_init_spec(a1, d1).unwrap().pool.vault_a == process_init_spec(
            a2,
            d2,
        ).unwrap().pool.vault_a,
        process_init_spec(a1, d1).unwrap().pool.vault_b == process_init_spec(
            a2,
            d2,
        ).unwrap().pool.vault_b,
        process_init_spec(a1, d1).unwrap().pool.bump == process_init_spec(
            a2,
            d2,
        ).unwrap().pool.bump,
{
}

} // verus!
