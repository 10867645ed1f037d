use introspectardio::chain::{validate_prev_ix, IxInfo};
use introspectardio::convert::convert;
use introspectardio::error::{IntrospectardioError, PoolError};
use introspectardio::pda::find_program_address;
use introspectardio::process::{process, process_init, Account, Action};
use introspectardio::state::{Pool, POOL_LEN};
use introspectardio::{pubkey_eq, ID, TOKEN_PROGRAM};

fn key(fill: u8) -> [u8; 32] {
    [fill; 32]
}

fn acct(fill: u8) -> Account {
    Account { key: key(fill), data: Vec::new() }
}

#[test]
fn token_program_identity_matches_base58() {
    let decoded = const_crypto::bs58::decode_pubkey("TokenkegQfeZyiNwAJbNbGKPFXCWuBvf9Ss623VQ5DA");
    assert_eq!(TOKEN_PROGRAM, decoded);
}

#[test]
fn pubkey_eq_compares_bytes() {
    assert!(pubkey_eq(&key(7), &key(7)));
    let mut other = key(7);
    other[31] = 8;
    assert!(!pubkey_eq(&key(7), &other));
}

#[test]
fn derivation_is_deterministic() {
    let mint_a = key(11);
    let mint_b = key(22);
    let first = find_program_address(&mint_a, &mint_b, &ID).unwrap();
    let second = find_program_address(&mint_a, &mint_b, &ID).unwrap();
    assert_eq!(first, second);
    // Different seed order yields a different identity.
    let swapped = find_program_address(&mint_b, &mint_a, &ID).unwrap();
    assert_ne!(first.0, swapped.0);
}

#[test]
fn derivation_matches_reference_implementation() {
    let mint_a = key(11);
    let mint_b = key(22);
    let (addr, bump) = find_program_address(&mint_a, &mint_b, &ID).unwrap();
    let (ref_addr, ref_bump) =
        const_crypto::ed25519::derive_program_address(&[&mint_a, &mint_b], &ID);
    assert_eq!(addr, ref_addr);
    assert_eq!(bump, ref_bump);
    assert!(!const_crypto::ed25519::crypto_unsafe_is_on_curve(&addr));
}

#[test]
fn pool_record_layout_is_exact() {
    let pool = Pool {
        rate: 0x0102030405060708090a0b0c0d0e0f10u128,
        vault_a: key(1),
        vault_b: key(2),
        mint_a: key(3),
        mint_b: key(4),
        bump: 253,
    };
    let bytes = pool.to_account();
    assert_eq!(bytes.len(), POOL_LEN);
    assert_eq!(bytes.len(), 145);
    // rate, little endian, low word first
    assert_eq!(bytes[0..16], 0x0102030405060708090a0b0c0d0e0f10u128.to_le_bytes()[..]);
    assert_eq!(bytes[16..48], key(1)[..]);
    assert_eq!(bytes[48..80], key(2)[..]);
    assert_eq!(bytes[80..112], key(3)[..]);
    assert_eq!(bytes[112..144], key(4)[..]);
    assert_eq!(bytes[144], 253);

    let back = Pool::from_account(&bytes).unwrap();
    assert_eq!(back.rate, pool.rate);
    assert_eq!(back.vault_a, pool.vault_a);
    assert_eq!(back.vault_b, pool.vault_b);
    assert_eq!(back.mint_a, pool.mint_a);
    assert_eq!(back.mint_b, pool.mint_b);
    assert_eq!(back.bump, pool.bump);
}

#[test]
fn pool_record_rejects_short_account() {
    let bytes = vec![0u8; 144];
    assert_eq!(Pool::from_account(&bytes).unwrap_err(), PoolError::InvalidAccountData);
}

#[test]
fn conversion_exact_known_scenario() {
    // 1000 quote atoms per base unit at the stated decimal scales:
    // depositing 10^9 base atoms yields exactly 10^9 quote atoms.
    assert_eq!(convert(1_000_000_000, 1_000_000_000), Ok(1_000_000_000));
}

#[test]
fn conversion_truncates_toward_zero() {
    assert_eq!(convert(1, 1_999_999_999), Ok(1));
    assert_eq!(convert(3, 333_333_333), Ok(0));
    assert_eq!(convert(0, u64::MAX as u128), Ok(0));
}

#[test]
fn conversion_rejects_large_order() {
    assert_eq!(
        convert(u64::MAX, u64::MAX as u128),
        Err(IntrospectardioError::LargeOrder)
    );
    assert_eq!(convert(2, u128::MAX), Err(IntrospectardioError::LargeOrder));
    // Largest acceptable order still succeeds.
    assert_eq!(convert(1, u64::MAX as u128 * 1_000_000_000), Ok(u64::MAX));
}

fn deposit_ix(dest: [u8; 32], amount: u64) -> IxInfo {
    let mut data = vec![3u8];
    data.extend_from_slice(&amount.to_le_bytes());
    IxInfo {
        program_id: TOKEN_PROGRAM,
        accounts: vec![key(90), dest, key(91)],
        data,
    }
}

#[test]
fn chain_accepts_committed_deposit() {
    let vault = key(40);
    let prev = deposit_ix(vault, 123_456_789);
    assert_eq!(validate_prev_ix(&prev, &vault), Ok(123_456_789));
}

#[test]
fn chain_rejects_wrong_service() {
    let vault = key(40);
    let mut prev = deposit_ix(vault, 5);
    prev.program_id = key(77);
    assert_eq!(
        validate_prev_ix(&prev, &vault),
        Err(IntrospectardioError::PrevIxNotTokenProgram)
    );
}

#[test]
fn chain_rejects_short_payload() {
    let vault = key(40);
    let mut prev = deposit_ix(vault, 5);
    prev.data.truncate(8);
    assert_eq!(
        validate_prev_ix(&prev, &vault),
        Err(IntrospectardioError::UnexpectedTokenProgramDataLen)
    );
}

#[test]
fn chain_rejects_non_transfer_operation() {
    let vault = key(40);
    let mut prev = deposit_ix(vault, 5);
    prev.data[0] = 12;
    assert_eq!(
        validate_prev_ix(&prev, &vault),
        Err(IntrospectardioError::UnexpectedTokenProgramIx)
    );
}

#[test]
fn chain_rejects_wrong_destination() {
    let vault = key(40);
    let prev = deposit_ix(key(41), 5);
    assert_eq!(
        validate_prev_ix(&prev, &vault),
        Err(IntrospectardioError::UnexpectedTransferDest)
    );
    let mut no_dest = deposit_ix(vault, 5);
    no_dest.accounts.truncate(1);
    assert_eq!(
        validate_prev_ix(&no_dest, &vault),
        Err(IntrospectardioError::UnexpectedTransferDest)
    );
}

fn init_accounts(mint_a: [u8; 32], mint_b: [u8; 32]) -> Vec<Account> {
    let (pool_key, _) = find_program_address(&mint_a, &mint_b, &ID).unwrap();
    let (vault_a, _) = find_program_address(&pool_key, &mint_a, &ID).unwrap();
    let (vault_b, _) = find_program_address(&pool_key, &mint_b, &ID).unwrap();
    vec![
        acct(9), // funder
        Account { key: pool_key, data: Vec::new() },
        Account { key: vault_a, data: Vec::new() },
        Account { key: vault_b, data: Vec::new() },
        Account { key: mint_a, data: Vec::new() },
        Account { key: mint_b, data: Vec::new() },
        acct(0), // account-creation service
        Account { key: TOKEN_PROGRAM, data: Vec::new() },
    ]
}

#[test]
fn init_writes_expected_record() {
    let accounts = init_accounts(key(11), key(22));
    let rate: u64 = 1_000_000_000;
    let plan = process_init(&accounts, &rate.to_le_bytes()).unwrap();
    assert_eq!(plan.pool_key, accounts[1].key);
    assert_eq!(plan.pool.rate, rate as u128);
    assert_eq!(plan.pool.vault_a, accounts[2].key);
    assert_eq!(plan.pool.vault_b, accounts[3].key);
    assert_eq!(plan.pool.mint_a, key(11));
    assert_eq!(plan.pool.mint_b, key(22));
    let (_, expected_bump) = find_program_address(&key(11), &key(22), &ID).unwrap();
    assert_eq!(plan.pool.bump, expected_bump);
}

#[test]
fn init_same_mints_collides_on_identity() {
    let first = process_init(&init_accounts(key(11), key(22)), &5u64.to_le_bytes()).unwrap();
    let second = process_init(&init_accounts(key(11), key(22)), &9u64.to_le_bytes()).unwrap();
    // The second initialization targets the very account the first created.
    assert_eq!(first.pool_key, second.pool_key);
    assert_eq!(first.pool.vault_a, second.pool.vault_a);
    assert_eq!(first.pool.vault_b, second.pool.vault_b);
}

#[test]
fn init_rejects_substituted_pool_account() {
    let mut accounts = init_accounts(key(11), key(22));
    accounts[1].key = key(33);
    assert_eq!(
        process_init(&accounts, &5u64.to_le_bytes()).unwrap_err(),
        PoolError::InvalidSeeds
    );
}

#[test]
fn init_rejects_wrong_account_count() {
    let mut accounts = init_accounts(key(11), key(22));
    accounts.pop();
    assert_eq!(
        process_init(&accounts, &5u64.to_le_bytes()).unwrap_err(),
        PoolError::NotEnoughAccountKeys
    );
}

#[test]
fn init_rejects_short_payload() {
    let accounts = init_accounts(key(11), key(22));
    assert_eq!(
        process_init(&accounts, &[1, 2, 3]).unwrap_err(),
        PoolError::InvalidInstructionData
    );
}

#[test]
fn dispatch_rejects_malformed_opcode() {
    let accounts = init_accounts(key(11), key(22));
    let ixs: Vec<IxInfo> = Vec::new();
    assert_eq!(
        process(&accounts, &[], &ixs, 0).unwrap_err(),
        PoolError::InvalidInstructionData
    );
    assert_eq!(
        process(&accounts, &[2], &ixs, 0).unwrap_err(),
        PoolError::InvalidInstructionData
    );
}

#[test]
fn dispatch_selects_initializer() {
    let accounts = init_accounts(key(11), key(22));
    let ixs: Vec<IxInfo> = Vec::new();
    let mut data = vec![0u8];
    data.extend_from_slice(&7u64.to_le_bytes());
    match process(&accounts, &data, &ixs, 0).unwrap() {
        Action::Init(plan) => assert_eq!(plan.pool.rate, 7),
        Action::Swap(_) => panic!("wrong action"),
    }
}

#[test]
fn error_codes_are_stable() {
    assert_eq!(IntrospectardioError::PrevIxNotTokenProgram.code(), 0);
    assert_eq!(IntrospectardioError::UnexpectedTokenProgramDataLen.code(), 1);
    assert_eq!(IntrospectardioError::UnexpectedTokenProgramIx.code(), 2);
    assert_eq!(IntrospectardioError::UnexpectedTransferDest.code(), 3);
    assert_eq!(IntrospectardioError::LargeOrder.code(), 4);
    assert_eq!(IntrospectardioError::NoPrecedingDeposit.code(), 5);
    assert_eq!(PoolError::from(IntrospectardioError::LargeOrder), PoolError::Custom(IntrospectardioError::LargeOrder));
}

#[test]
fn swap_surfaces_chain_errors() {
    // Build a funded pool record directly.
    let pool = Pool {
        rate: 1_000_000_000,
        vault_a: key(41),
        vault_b: key(42),
        mint_a: key(11),
        mint_b: key(22),
        bump: 254,
    };
    let swap_accounts = vec![
        acct(9),
        Account { key: key(30), data: pool.to_account() },
        acct(51),
        Account { key: key(41), data: Vec::new() },
        Account { key: key(42), data: Vec::new() },
        acct(7),
        Account { key: TOKEN_PROGRAM, data: Vec::new() },
    ];
    let swap_ix = IxInfo { program_id: ID, accounts: Vec::new(), data: vec![1u8] };

    // Preceded by an instruction targeting a different service.
    let stranger = IxInfo { program_id: key(77), accounts: Vec::new(), data: vec![3u8; 9] };
    assert_eq!(
        process(&swap_accounts, &[1u8], &vec![stranger, swap_ix.clone()], 1).unwrap_err(),
        PoolError::Custom(IntrospectardioError::PrevIxNotTokenProgram)
    );

    // Preceded by a non-transfer token-service instruction.
    let mut burn = deposit_ix(key(41), 5);
    burn.data[0] = 8;
    assert_eq!(
        process(&swap_accounts, &[1u8], &vec![burn, swap_ix.clone()], 1).unwrap_err(),
        PoolError::Custom(IntrospectardioError::UnexpectedTokenProgramIx)
    );

    // Preceded by a transfer into the wrong vault.
    let stray = deposit_ix(key(66), 5);
    assert_eq!(
        process(&swap_accounts, &[1u8], &vec![stray, swap_ix.clone()], 1).unwrap_err(),
        PoolError::Custom(IntrospectardioError::UnexpectedTransferDest)
    );

    // The current instruction must target this program.
    let good = deposit_ix(key(41), 5);
    let foreign = IxInfo { program_id: key(88), accounts: Vec::new(), data: vec![1u8] };
    assert_eq!(
        process(&swap_accounts, &[1u8], &vec![good, foreign], 1).unwrap_err(),
        PoolError::IncorrectProgramId
    );
}
