use lido::accounts::AccountInfo;
use lido::authority::{find_authority, find_stake_address, AuthorityRole};
use lido::error::LidoError;
use lido::instruction::LidoInstruction;
use lido::key::Pubkey;
use lido::multisig::{check_threshold, get_multisig_program_address, ThresholdError, TransactionAccounts};
use lido::key::AccountMeta;
use lido::processor::{
    calc_pool_tokens_for_deposit, calc_total_lamports, get_reserve_available_amount, process, process_deposit, process_deposit_active_stake_to_pool,
    process_initialize, process_stake_deposit, process_withdraw, Action, HostView, InitializeInputs,
    StakeDepositPlan,
};
use lido::state::{FeeDistribution, FeeRecipients, Lido, StakePool, TokenAccount, LIDO_CONSTANT_SIZE};

fn key(b: u8) -> Pubkey {
    Pubkey::new_from_array([b; 32])
}

fn info(k: Pubkey, is_signer: bool, is_writable: bool) -> AccountInfo {
    AccountInfo { key: k, is_signer, is_writable, lamports: 0, data_len: 0 }
}

fn fees() -> FeeDistribution {
    FeeDistribution { insurance_fee: 1, treasury_fee: 2, validation_fee: 3, manager_fee: 4 }
}

fn token_program() -> Pubkey {
    Pubkey::new_from_array(spl_token::id().to_bytes())
}

fn program() -> Pubkey {
    key(200)
}

fn state_key() -> Pubkey {
    key(1)
}

fn authority(role: AuthorityRole) -> (Pubkey, u8) {
    find_authority(&state_key(), role, &program()).unwrap()
}

fn stored_state(shares: u64) -> Lido {
    Lido {
        is_initialized: true,
        manager: key(4),
        stake_pool_account: key(2),
        st_sol_mint_program: key(7),
        stake_pool_token_holder: key(3),
        token_program_id: token_program(),
        sol_reserve_authority_bump_seed: authority(AuthorityRole::Reserve).1,
        deposit_authority_bump_seed: authority(AuthorityRole::Deposit).1,
        stake_pool_authority_bump_seed: authority(AuthorityRole::StakePool).1,
        fee_manager_bump_seed: authority(AuthorityRole::FeeManager).1,
        st_sol_total_shares: shares,
        fee_distribution: fees(),
        fee_recipients: FeeRecipients {
            insurance_account: key(30),
            treasury_account: key(31),
            manager_account: key(32),
            max_validators: 5,
        },
        maintainers: vec![key(50)],
    }
}

fn deposit_accounts() -> Vec<AccountInfo> {
    vec![
        info(state_key(), false, true),
        info(key(2), false, false),
        info(key(3), false, false),
        info(key(4), false, false),
        info(key(5), true, true),
        info(key(6), false, true),
        info(key(7), false, true),
        info(token_program(), false, false),
        info(authority(AuthorityRole::Reserve).0, false, true),
        info(key(9), false, false),
    ]
}

fn initialize_accounts(data_len: usize) -> Vec<AccountInfo> {
    let mut lido = info(state_key(), true, true);
    lido.data_len = data_len;
    vec![
        lido,
        info(key(2), true, false),
        info(key(4), true, false),
        info(key(7), true, false),
        info(key(3), false, false),
        info(key(10), false, false),
        info(key(30), false, false),
        info(key(31), false, false),
        info(key(32), false, false),
        info(key(11), false, false),
        info(key(12), false, false),
        info(key(8), false, false),
    ]
}

fn initialize_inputs() -> InitializeInputs {
    let mint_account = TokenAccount { mint: key(7), owner: key(99) };
    InitializeInputs {
        stake_pool_rent_exempt: true,
        lido_rent_exempt: true,
        reserve_rent_exempt: true,
        lido_initialized: false,
        stake_pool: StakePool {
            is_initialized: true,
            pool_mint: key(60),
            staker: authority(AuthorityRole::StakePool).0,
            manager_fee_account: key(10),
        },
        pool_token_to: TokenAccount { mint: key(60), owner: authority(AuthorityRole::StakePool).0 },
        fee_token: TokenAccount { mint: key(60), owner: authority(AuthorityRole::FeeManager).0 },
        insurance_account: mint_account,
        treasury_account: mint_account,
        manager_fee_account: mint_account,
    }
}

/// State size that holds exactly `validators` entries with `maintainers` maintainers.
fn exact_size(validators: u64, maintainers: u64) -> usize {
    (LIDO_CONSTANT_SIZE + 4 + 32 * maintainers + 8 + 40 * validators) as usize
}

#[test]
fn share_formula_exact_values() {
    assert_eq!(calc_pool_tokens_for_deposit(10, 0, 0), Some(10));
    assert_eq!(calc_pool_tokens_for_deposit(100, 50, 200), Some(25));
    assert_eq!(calc_pool_tokens_for_deposit(7, 3, 2), Some(10));
    assert_eq!(calc_pool_tokens_for_deposit(1, 1, 3), Some(0));
    assert_eq!(calc_pool_tokens_for_deposit(5, 1, 0), None);
    assert_eq!(calc_pool_tokens_for_deposit(u64::MAX, u64::MAX, 1), None);
    assert_eq!(calc_pool_tokens_for_deposit(u64::MAX, u64::MAX, u64::MAX), Some(u64::MAX));
}

#[test]
fn deposit_into_empty_pool_mints_the_amount() {
    let mut l = stored_state(0);
    let r = process_deposit(&program(), 1000, &deposit_accounts(), &mut l, 0);
    assert_eq!(r, Ok(1000));
    assert_eq!(l.st_sol_total_shares, 1000);
}

#[test]
fn deposit_into_funded_pool_uses_share_price() {
    let mut l = stored_state(500);
    let r = process_deposit(&program(), 300, &deposit_accounts(), &mut l, 1000);
    assert_eq!(r, Ok(150));
    assert_eq!(l.st_sol_total_shares, 650);
}

#[test]
fn deposit_of_zero_is_invalid_argument() {
    let mut l = stored_state(0);
    let r = process_deposit(&program(), 0, &deposit_accounts(), &mut l, 0);
    assert_eq!(r, Err(LidoError::InvalidArgument));
    assert_eq!(l.st_sol_total_shares, 0);
}

#[test]
fn deposit_overflowing_total_fails_without_change() {
    let mut l = stored_state(u64::MAX);
    let r = process_deposit(&program(), 10, &deposit_accounts(), &mut l, u64::MAX);
    assert_eq!(r, Err(LidoError::CalculationFailure));
    assert_eq!(l.st_sol_total_shares, u64::MAX);
}

#[test]
fn deposit_with_wrong_reserve_fails() {
    let mut l = stored_state(0);
    let mut accs = deposit_accounts();
    accs[8].key = key(77);
    let r = process_deposit(&program(), 5, &accs, &mut l, 0);
    assert_eq!(r, Err(LidoError::InvalidReserveAuthority));
    let mut accs = deposit_accounts();
    accs[3].key = key(77);
    assert_eq!(process_deposit(&program(), 5, &accs, &mut l, 0), Err(LidoError::InvalidOwner));
    let mut accs = deposit_accounts();
    accs[7].key = key(77);
    assert_eq!(process_deposit(&program(), 5, &accs, &mut l, 0), Err(LidoError::InvalidTokenProgram));
    let mut accs = deposit_accounts();
    accs[4].is_signer = false;
    assert_eq!(process_deposit(&program(), 5, &accs, &mut l, 0), Err(LidoError::InvalidAccountInfo));
}

#[test]
fn initialize_with_exact_fit_succeeds() {
    let accs = initialize_accounts(exact_size(5, 2));
    let l = process_initialize(&program(), fees(), 5, 2, &accs, &initialize_inputs()).unwrap();
    assert!(l.is_initialized);
    assert_eq!(l.manager, key(4));
    assert_eq!(l.stake_pool_account, key(2));
    assert_eq!(l.st_sol_mint_program, key(7));
    assert_eq!(l.stake_pool_token_holder, key(3));
    assert_eq!(l.token_program_id, key(8));
    assert_eq!(l.fee_recipients.max_validators, 5);
    assert_eq!(l.fee_distribution, fees());
    assert_eq!(l.fee_recipients.insurance_account, key(30));
    assert_eq!(l.st_sol_total_shares, 0);
    assert_eq!(l.sol_reserve_authority_bump_seed, authority(AuthorityRole::Reserve).1);
    assert_eq!(l.deposit_authority_bump_seed, authority(AuthorityRole::Deposit).1);
    assert_eq!(l.fee_manager_bump_seed, authority(AuthorityRole::FeeManager).1);
    assert_eq!(l.stake_pool_authority_bump_seed, authority(AuthorityRole::StakePool).1);
}

#[test]
fn initialize_off_by_one_fails_with_sizing_error() {
    let accs = initialize_accounts(exact_size(5, 2));
    assert_eq!(
        process_initialize(&program(), fees(), 6, 2, &accs, &initialize_inputs()).err(),
        Some(LidoError::UnexpectedValidatorCreditAccountSize)
    );
    assert_eq!(
        process_initialize(&program(), fees(), 4, 2, &accs, &initialize_inputs()).err(),
        Some(LidoError::UnexpectedValidatorCreditAccountSize)
    );
    let accs = initialize_accounts(exact_size(0, 2));
    assert_eq!(
        process_initialize(&program(), fees(), 0, 2, &accs, &initialize_inputs()).err(),
        Some(LidoError::UnexpectedValidatorCreditAccountSize)
    );
}

#[test]
fn initialize_too_small_account_is_calculation_failure() {
    let accs = initialize_accounts(100);
    assert_eq!(
        process_initialize(&program(), fees(), 1, 2, &accs, &initialize_inputs()).err(),
        Some(LidoError::CalculationFailure)
    );
}

#[test]
fn initialize_rejects_unarranged_pool() {
    let accs = initialize_accounts(exact_size(5, 2));
    let mut inputs = initialize_inputs();
    inputs.lido_initialized = true;
    assert_eq!(process_initialize(&program(), fees(), 5, 2, &accs, &inputs).err(), Some(LidoError::AlreadyInUse));
    let mut inputs = initialize_inputs();
    inputs.stake_pool.staker = key(90);
    assert_eq!(process_initialize(&program(), fees(), 5, 2, &accs, &inputs).err(), Some(LidoError::InvalidManager));
    let mut inputs = initialize_inputs();
    inputs.fee_token.owner = key(90);
    assert_eq!(process_initialize(&program(), fees(), 5, 2, &accs, &inputs).err(), Some(LidoError::InvalidOwner));
    let mut inputs = initialize_inputs();
    inputs.reserve_rent_exempt = false;
    assert_eq!(
        process_initialize(&program(), fees(), 5, 2, &accs, &inputs).err(),
        Some(LidoError::AccountNotRentExempt)
    );
    let mut inputs = initialize_inputs();
    inputs.stake_pool.manager_fee_account = key(90);
    assert_eq!(process_initialize(&program(), fees(), 5, 2, &accs, &inputs).err(), Some(LidoError::InvalidFeeAccount));
    let mut inputs = initialize_inputs();
    inputs.treasury_account.mint = key(90);
    assert_eq!(process_initialize(&program(), fees(), 5, 2, &accs, &inputs).err(), Some(LidoError::InvalidTokenMinter));
}

#[test]
fn authorities_rederive_to_stored_bumps() {
    let accs = initialize_accounts(exact_size(5, 2));
    let l = process_initialize(&program(), fees(), 5, 2, &accs, &initialize_inputs()).unwrap();
    let again = find_authority(&state_key(), AuthorityRole::Reserve, &program()).unwrap();
    assert_eq!(again.1, l.sol_reserve_authority_bump_seed);
    let deposit = find_authority(&state_key(), AuthorityRole::Deposit, &program()).unwrap();
    assert_eq!(deposit.1, l.deposit_authority_bump_seed);
    assert!(deposit.0 != again.0);
    assert!(again.0 != state_key());
}

fn stake_accounts() -> Vec<AccountInfo> {
    let validator = key(40);
    vec![
        info(state_key(), false, true),
        info(validator, false, true),
        info(authority(AuthorityRole::Reserve).0, false, true),
        info(find_stake_address(&validator, &program()).unwrap().0, false, true),
        info(authority(AuthorityRole::Deposit).0, false, true),
        info(key(20), false, false),
        info(key(21), false, false),
        info(key(22), false, false),
        info(key(23), false, false),
        info(key(24), false, false),
        info(key(25), false, false),
    ]
}

#[test]
fn stake_deposit_twice_fails_with_stake_state_error() {
    let l = stored_state(0);
    let first = process_stake_deposit(&program(), 5000, &stake_accounts(), &l, 1000, 10000, false);
    let stake_bump = find_stake_address(&key(40), &program()).unwrap().1;
    assert_eq!(
        first,
        Ok(StakeDepositPlan {
            amount: 5000,
            stake_bump_seed: stake_bump,
            reserve_bump_seed: l.sol_reserve_authority_bump_seed,
            deposit_bump_seed: l.deposit_authority_bump_seed,
        })
    );
    let second = process_stake_deposit(&program(), 5000, &stake_accounts(), &l, 1000, 5000, true);
    assert_eq!(second, Err(LidoError::WrongStakeState));
}

#[test]
fn stake_deposit_amount_bounds() {
    let l = stored_state(0);
    assert_eq!(
        process_stake_deposit(&program(), 999, &stake_accounts(), &l, 1000, 10000, false),
        Err(LidoError::InvalidAmount)
    );
    assert_eq!(
        process_stake_deposit(&program(), 10001, &stake_accounts(), &l, 1000, 10000, false),
        Err(LidoError::AmountExceedsReserve)
    );
    let mut accs = stake_accounts();
    accs[3].key = key(77);
    assert_eq!(
        process_stake_deposit(&program(), 5000, &accs, &l, 1000, 10000, false),
        Err(LidoError::InvalidStaker)
    );
}

fn pool_delegate_accounts(maintainer: Pubkey) -> Vec<AccountInfo> {
    let validator = key(40);
    let mut v = vec![
        info(maintainer, true, false),
        info(state_key(), false, true),
        info(validator, false, true),
        info(find_stake_address(&validator, &program()).unwrap().0, false, true),
        info(authority(AuthorityRole::Deposit).0, false, true),
        info(key(3), false, true),
        info(key(100), false, false),
        info(key(2), false, true),
        info(key(101), false, true),
        info(key(102), false, false),
        info(key(103), false, true),
        info(key(104), false, true),
    ];
    for k in 105..111u8 {
        v.push(info(key(k), false, false));
    }
    v
}

#[test]
fn stake_pool_delegate_builds_pool_deposit() {
    let l = stored_state(0);
    let ix = process_deposit_active_stake_to_pool(&program(), &pool_delegate_accounts(key(50)), &l).unwrap();
    assert_eq!(ix.program_id, key(100));
    assert_eq!(ix.data, vec![9]);
    assert_eq!(ix.accounts[0].pubkey, key(2));
    assert_eq!(ix.accounts[2].pubkey, authority(AuthorityRole::Deposit).0);
    assert!(ix.accounts[2].is_signer);
    assert_eq!(ix.accounts[6].pubkey, key(3));
    assert_eq!(ix.accounts[10].pubkey, key(109));
}

#[test]
fn stake_pool_delegate_requires_maintainer() {
    let l = stored_state(0);
    let r = process_deposit_active_stake_to_pool(&program(), &pool_delegate_accounts(key(51)), &l);
    assert_eq!(r.err(), Some(LidoError::InvalidMaintainer));
}

#[test]
fn withdraw_is_a_no_op() {
    assert_eq!(process_withdraw(&program(), 10, &[]), Ok(()));
}

#[test]
fn process_dispatches_and_rejects_bad_bytes() {
    let mut l = stored_state(0);
    let host = HostView {
        reserve_lamports: 0,
        reserve_rent_minimum: 0,
        held_pool_tokens: 0,
        pool_total_lamports: 0,
        pool_token_supply: 0,
        stake_rent_minimum: 0,
        stake_exists: false,
        initialize: initialize_inputs(),
    };
    let r = process(&program(), &deposit_accounts(), &[9, 9], &mut l, &host);
    assert_eq!(r.err(), Some(LidoError::InvalidInstructionData));
    let bytes = LidoInstruction::Deposit { amount: 77 }.try_to_vec();
    match process(&program(), &deposit_accounts(), &bytes, &mut l, &host) {
        Ok(Action::Deposit { amount, minted, transfer, mint, reserve_seeds }) => {
            assert_eq!(transfer.data, vec![2, 0, 0, 0, 77, 0, 0, 0, 0, 0, 0, 0]);
            assert_eq!(transfer.accounts[0].pubkey, key(5));
            assert_eq!(mint.data, vec![7, 77, 0, 0, 0, 0, 0, 0, 0]);
            assert_eq!(mint.program_id, token_program());
            assert_eq!(mint.accounts[2].pubkey, authority(AuthorityRole::Reserve).0);
            assert!(mint.accounts[2].is_signer);
            assert_eq!(amount, 77);
            assert_eq!(minted, 77);
            assert_eq!(reserve_seeds.len(), 3);
            assert_eq!(reserve_seeds[0], state_key().to_vec());
            assert_eq!(reserve_seeds[1], AuthorityRole::Reserve.seed());
            assert_eq!(reserve_seeds[2], vec![l.sol_reserve_authority_bump_seed]);
        },
        other => panic!("unexpected {:?}", other),
    }
    assert_eq!(l.st_sol_total_shares, 77);
    let withdraw = LidoInstruction::Withdraw { amount: 3 }.try_to_vec();
    assert!(matches!(process(&program(), &[], &withdraw, &mut l, &host), Ok(Action::Nothing)));
    assert_eq!(l.st_sol_total_shares, 77);
}

#[test]
fn multisig_signer_is_derived_from_multisig_address() {
    let (a, bump) = get_multisig_program_address(&key(9), &key(8)).unwrap();
    let (b, bump2) = find_stake_address(&key(8), &key(9)).unwrap();
    assert_eq!(a, b);
    assert_eq!(bump, bump2);
    assert!(a != key(8));
}

#[test]
fn transaction_accounts_clear_signers_and_append_program() {
    let t = TransactionAccounts {
        accounts: vec![AccountMeta::new(key(1), true), AccountMeta::new_readonly(key(2), true)],
        program_id: key(3),
    };
    let metas = t.to_account_metas();
    assert_eq!(metas.len(), 3);
    assert!(!metas[0].is_signer && metas[0].is_writable);
    assert!(!metas[1].is_signer && !metas[1].is_writable);
    assert_eq!(metas[2].pubkey, key(3));
    assert!(!metas[2].is_signer && !metas[2].is_writable);
}

#[test]
fn multisig_threshold_bounds() {
    assert_eq!(check_threshold(3, 2), Err(ThresholdError::AboveOwnerCount));
    assert_eq!(check_threshold(0, 2), Err(ThresholdError::Zero));
    assert_eq!(check_threshold(0, 0), Err(ThresholdError::Zero));
    assert_eq!(check_threshold(2, 2), Ok(()));
    assert_eq!(check_threshold(1, 5), Ok(()));
}

#[test]
fn stake_deposit_rejects_foreign_deposit_authority() {
    let l = stored_state(0);
    let mut accs = stake_accounts();
    accs[4].key = key(78);
    assert_eq!(
        process_stake_deposit(&program(), 5000, &accs, &l, 1000, 10000, false),
        Err(LidoError::InvalidDepositAuthority)
    );
}

#[test]
fn process_stake_pool_delegate_signs_with_deposit_authority() {
    let mut l = stored_state(0);
    let host = HostView {
        reserve_lamports: 0,
        reserve_rent_minimum: 0,
        held_pool_tokens: 0,
        pool_total_lamports: 0,
        pool_token_supply: 0,
        stake_rent_minimum: 0,
        stake_exists: false,
        initialize: initialize_inputs(),
    };
    let bytes = LidoInstruction::StakePoolDelegate.try_to_vec();
    match process(&program(), &pool_delegate_accounts(key(50)), &bytes, &mut l, &host) {
        Ok(Action::Invoke { instruction, signer_seeds }) => {
            assert_eq!(instruction.program_id, key(100));
            assert_eq!(instruction.accounts[11].pubkey, Pubkey::new_from_array(solana_sdk_ids::stake::id().to_bytes()));
            assert_eq!(signer_seeds[0], state_key().to_vec());
            assert_eq!(signer_seeds[1], AuthorityRole::Deposit.seed());
            assert_eq!(signer_seeds[2], vec![l.deposit_authority_bump_seed]);
            let refs: Vec<&[u8]> = signer_seeds.iter().map(|s| s.as_slice()).collect();
            let host_program = solana_program::pubkey::Pubkey::new_from_array(program().to_bytes());
            let derived = solana_program::pubkey::Pubkey::create_program_address(&refs, &host_program).unwrap();
            assert_eq!(Pubkey::new_from_array(derived.to_bytes()), authority(AuthorityRole::Deposit).0);
        },
        other => panic!("unexpected {:?}", other),
    }
}

#[test]
fn process_deposit_values_pool_and_reserve() {
    let mut l = stored_state(100);
    let host = HostView {
        reserve_lamports: 150,
        reserve_rent_minimum: 50,
        held_pool_tokens: 10,
        pool_total_lamports: 300,
        pool_token_supply: 30,
        stake_rent_minimum: 0,
        stake_exists: false,
        initialize: initialize_inputs(),
    };
    let bytes = LidoInstruction::Deposit { amount: 40 }.try_to_vec();
    match process(&program(), &deposit_accounts(), &bytes, &mut l, &host) {
        Ok(Action::Deposit { minted, .. }) => assert_eq!(minted, 20),
        other => panic!("unexpected {:?}", other),
    }
    assert_eq!(l.st_sol_total_shares, 120);
    let short = HostView { reserve_lamports: 10, ..host };
    let r = process(&program(), &deposit_accounts(), &bytes, &mut l, &short);
    assert_eq!(r.err(), Some(LidoError::CalculationFailure));
}

#[test]
fn value_under_management_exact() {
    assert_eq!(calc_total_lamports(100, 10, 300, 30), Ok(200));
    assert_eq!(calc_total_lamports(7, 10, 300, 0), Ok(7));
    assert_eq!(calc_total_lamports(u64::MAX, 1, 1, 1), Err(LidoError::CalculationFailure));
    assert_eq!(get_reserve_available_amount(150, 50), Ok(100));
    assert_eq!(get_reserve_available_amount(10, 50), Err(LidoError::CalculationFailure));
}

#[test]
fn process_deposit_with_foreign_token_program_changes_nothing() {
    let mut l = stored_state(0);
    l.token_program_id = key(8);
    let mut accs = deposit_accounts();
    accs[7].key = key(8);
    let host = HostView {
        reserve_lamports: 0,
        reserve_rent_minimum: 0,
        held_pool_tokens: 0,
        pool_total_lamports: 0,
        pool_token_supply: 0,
        stake_rent_minimum: 0,
        stake_exists: false,
        initialize: initialize_inputs(),
    };
    let bytes = LidoInstruction::Deposit { amount: 5 }.try_to_vec();
    let r = process(&program(), &accs, &bytes, &mut l, &host);
    assert_eq!(r.err(), Some(LidoError::InvalidTokenProgram));
    assert_eq!(l.st_sol_total_shares, 0);
}

#[test]
fn process_stake_deposit_builds_the_three_calls() {
    let mut l = stored_state(0);
    let host = HostView {
        reserve_lamports: 10_000,
        reserve_rent_minimum: 1_000,
        held_pool_tokens: 0,
        pool_total_lamports: 0,
        pool_token_supply: 0,
        stake_rent_minimum: 100,
        stake_exists: false,
        initialize: initialize_inputs(),
    };
    let bytes = LidoInstruction::DelegateDeposit { amount: 5000 }.try_to_vec();
    match process(&program(), &stake_accounts(), &bytes, &mut l, &host) {
        Ok(Action::CreateStake { plan, create, initialize, delegate, stake_seeds, .. }) => {
            assert_eq!(plan.amount, 5000);
            let stake = find_stake_address(&key(40), &program()).unwrap().0;
            let deposit = authority(AuthorityRole::Deposit).0;
            assert_eq!(create.accounts[1].pubkey, stake);
            let mut expected = vec![0u8, 0, 0, 0];
            expected.extend_from_slice(&5000u64.to_le_bytes());
            expected.extend_from_slice(&200u64.to_le_bytes());
            expected.extend_from_slice(&solana_sdk_ids::stake::id().to_bytes());
            assert_eq!(create.data, expected);
            let mut init = vec![0u8, 0, 0, 0];
            init.extend_from_slice(&deposit.to_bytes());
            init.extend_from_slice(&deposit.to_bytes());
            init.extend_from_slice(&[0u8; 48]);
            assert_eq!(initialize.data, init);
            assert_eq!(delegate.data, vec![2, 0, 0, 0]);
            assert_eq!(delegate.accounts[5].pubkey, deposit);
            assert!(delegate.accounts[5].is_signer);
            assert_eq!(stake_seeds[0], key(40).to_vec());
        },
        other => panic!("unexpected {:?}", other),
    }
}

#[test]
fn process_hands_management_instructions_on() {
    let mut l = stored_state(3);
    let host = HostView {
        reserve_lamports: 0,
        reserve_rent_minimum: 0,
        held_pool_tokens: 0,
        pool_total_lamports: 0,
        pool_token_supply: 0,
        stake_rent_minimum: 0,
        stake_exists: false,
        initialize: initialize_inputs(),
    };
    let r = process(&program(), &[], &[9], &mut l, &host);
    assert!(matches!(r, Ok(Action::Manage(LidoInstruction::AddValidator))));
    assert_eq!(l.st_sol_total_shares, 3);
}
