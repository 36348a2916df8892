use lido::accounts::{check_accounts, deposit_role_table, AccountInfo, Role};
use lido::error::LidoError;
use lido::instruction::{
    delegate_deposit, deposit, initialize, initialize_stake_pool_with_authority, stake_pool_delegate,
    stake_pool_deposit, InitializeAccountsMeta, LidoInstruction,
};
use lido::key::Pubkey;
use lido::stake_pool::Fee;
use lido::state::FeeDistribution;

fn fees() -> FeeDistribution {
    FeeDistribution { insurance_fee: 1, treasury_fee: 2, validation_fee: 3, manager_fee: 4 }
}

fn key(b: u8) -> Pubkey {
    Pubkey::new_from_array([b; 32])
}

fn info(k: Pubkey, is_signer: bool, is_writable: bool) -> AccountInfo {
    AccountInfo { key: k, is_signer, is_writable, lamports: 0, data_len: 0 }
}

#[test]
fn encode_initialize_exact_bytes() {
    let i = LidoInstruction::Initialize { fee_distribution: fees(), max_validators: 0x0102_0304, max_maintainers: 5 };
    assert_eq!(
        i.try_to_vec(),
        vec![0, 1, 0, 0, 0, 2, 0, 0, 0, 3, 0, 0, 0, 4, 0, 0, 0, 4, 3, 2, 1, 5, 0, 0, 0]
    );
}

#[test]
fn encode_deposit_exact_bytes() {
    let i = LidoInstruction::Deposit { amount: 0x0102_0304_0506_0708 };
    assert_eq!(i.try_to_vec(), vec![1, 8, 7, 6, 5, 4, 3, 2, 1]);
    assert_eq!(LidoInstruction::StakePoolDelegate.try_to_vec(), vec![3]);
}

#[test]
fn decode_round_trips_every_variant() {
    let all = vec![
        LidoInstruction::Initialize { fee_distribution: fees(), max_validators: 7, max_maintainers: u32::MAX },
        LidoInstruction::Deposit { amount: u64::MAX },
        LidoInstruction::DelegateDeposit { amount: 12345 },
        LidoInstruction::StakePoolDelegate,
        LidoInstruction::Withdraw { amount: 0 },
        LidoInstruction::DistributeFees,
        LidoInstruction::ClaimValidatorFees,
        LidoInstruction::ChangeFeeSpec { new_fee_distribution: fees() },
        LidoInstruction::CreateValidatorStakeAccount,
        LidoInstruction::AddValidator,
        LidoInstruction::RemoveValidator,
    ];
    for i in all {
        let bytes = i.try_to_vec();
        assert_eq!(LidoInstruction::try_from_slice(&bytes), Ok(i));
    }
}

#[test]
fn decode_rejects_malformed_input() {
    assert_eq!(LidoInstruction::try_from_slice(&[]), Err(LidoError::InvalidInstructionData));
    assert_eq!(LidoInstruction::try_from_slice(&[42]), Err(LidoError::InvalidInstructionData));
    assert_eq!(LidoInstruction::try_from_slice(&[1, 0, 0]), Err(LidoError::InvalidInstructionData));
    assert_eq!(
        LidoInstruction::try_from_slice(&[3, 0]),
        Err(LidoError::InvalidInstructionData)
    );
    assert_eq!(
        LidoInstruction::try_from_slice(&[1, 0, 0, 0, 0, 0, 0, 0, 0, 0]),
        Err(LidoError::InvalidInstructionData)
    );
}

#[test]
fn builder_bytes_decode_to_the_same_instruction() {
    let ix = deposit(&key(1), &key(2), &key(3), &key(4), &key(5), &key(6), &key(7), &key(8), &key(9), 42)
        .unwrap();
    assert_eq!(LidoInstruction::try_from_slice(&ix.data), Ok(LidoInstruction::Deposit { amount: 42 }));
    let ix = delegate_deposit(&key(1), &key(2), &key(3), &key(4), &key(5), &key(6), 9).unwrap();
    assert_eq!(
        LidoInstruction::try_from_slice(&ix.data),
        Ok(LidoInstruction::DelegateDeposit { amount: 9 })
    );
    assert_eq!(ix.accounts.len(), 11);
}

#[test]
fn deposit_builder_accounts_fill_the_deposit_roles() {
    let ix = deposit(&key(1), &key(2), &key(3), &key(4), &key(5), &key(6), &key(7), &key(8), &key(9), 42)
        .unwrap();
    assert_eq!(ix.program_id, key(1));
    assert_eq!(ix.accounts[0].pubkey, key(2));
    assert_eq!(ix.accounts[4].pubkey, key(6));
    assert!(ix.accounts[4].is_signer && ix.accounts[4].is_writable);
    let infos: Vec<AccountInfo> =
        ix.accounts.iter().map(|m| info(m.pubkey, m.is_signer, m.is_writable)).collect();
    assert_eq!(check_accounts(&infos, &deposit_role_table()), Ok(()));
}

#[test]
fn initialize_builder_uses_the_declared_order() {
    let metas = InitializeAccountsMeta {
        lido: key(10),
        stake_pool: key(11),
        manager: key(12),
        mint_program: key(13),
        pool_token_to: key(14),
        fee_token: key(15),
        insurance_account: key(16),
        treasury_account: key(17),
        manager_fee_account: key(18),
        reserve_account: key(19),
        sysvar_rent: key(20),
        spl_token: key(21),
    };
    let ix = initialize(&key(1), &metas, fees(), 3, 2).unwrap();
    assert_eq!(ix.accounts.len(), 12);
    for (i, m) in ix.accounts.iter().enumerate() {
        assert_eq!(m.pubkey, key(10 + i as u8));
    }
    assert!(ix.accounts[0].is_signer && ix.accounts[0].is_writable);
    assert_eq!(
        LidoInstruction::try_from_slice(&ix.data),
        Ok(LidoInstruction::Initialize { fee_distribution: fees(), max_validators: 3, max_maintainers: 2 })
    );
}

#[test]
fn stake_pool_delegate_builder_shape() {
    let ix = stake_pool_delegate(
        &key(1), &key(2), &key(3), &key(4), &key(5), &key(6), &key(7), &key(8), &key(9), &key(10),
        &key(11), &key(12), &key(13),
    )
    .unwrap();
    assert_eq!(ix.accounts.len(), 18);
    assert!(ix.accounts[0].is_signer && !ix.accounts[0].is_writable);
    assert_eq!(ix.data, vec![3]);
}

#[test]
fn stake_pool_deposit_data_is_the_pool_deposit_tag() {
    let ix = stake_pool_deposit(
        &key(1), &key(2), &key(3), &key(4), &key(5), &key(6), &key(7), &key(8), &key(9), &key(10),
    )
    .unwrap();
    assert_eq!(ix.data, vec![9]);
    assert_eq!(ix.accounts.len(), 12);
    assert!(ix.accounts[2].is_signer);
    assert_eq!(ix.accounts[10].pubkey, key(10));
}

#[test]
fn stake_pool_initialize_data_layout() {
    let fee = Fee { denominator: 100, numerator: 3 };
    let zero = Fee { denominator: 0, numerator: 0 };
    let ix = initialize_stake_pool_with_authority(
        &key(1), &key(2), &key(3), &key(4), &key(5), &key(6), &key(7), &key(8), &key(9), &key(10),
        fee, zero, zero, 7, 300,
    )
    .unwrap();
    let mut expected: Vec<u8> = vec![0];
    expected.extend_from_slice(&100u64.to_le_bytes());
    expected.extend_from_slice(&3u64.to_le_bytes());
    expected.extend_from_slice(&[0u8; 32]);
    expected.push(7);
    expected.extend_from_slice(&300u32.to_le_bytes());
    assert_eq!(ix.data, expected);
    assert_eq!(ix.accounts.len(), 11);
}

#[test]
fn checker_accepts_exact_roles() {
    let roles = vec![Role { is_signer: true, is_writable: false }, Role { is_signer: false, is_writable: true }];
    let accs = vec![info(key(1), true, false), info(key(2), false, true)];
    assert_eq!(check_accounts(&accs, &roles), Ok(()));
}

#[test]
fn checker_rejects_flag_mismatch() {
    let roles = vec![Role { is_signer: true, is_writable: false }, Role { is_signer: false, is_writable: true }];
    let accs = vec![info(key(1), true, false), info(key(2), false, false)];
    assert_eq!(check_accounts(&accs, &roles), Err(LidoError::InvalidAccountInfo));
    let accs = vec![info(key(1), false, false), info(key(2), false, true)];
    assert_eq!(check_accounts(&accs, &roles), Err(LidoError::InvalidAccountInfo));
}

#[test]
fn checker_rejects_extra_and_missing_accounts() {
    let roles = vec![Role { is_signer: false, is_writable: false }];
    let accs = vec![info(key(1), false, false), info(key(2), false, false)];
    assert_eq!(check_accounts(&accs, &roles), Err(LidoError::TooManyAccountKeys));
    assert_eq!(check_accounts(&[], &roles), Err(LidoError::NotEnoughAccountKeys));
    let wrong_then_missing = vec![info(key(1), true, false)];
    let two = vec![Role { is_signer: false, is_writable: false }, Role { is_signer: false, is_writable: false }];
    assert_eq!(check_accounts(&wrong_then_missing, &two), Err(LidoError::InvalidAccountInfo));
}

#[test]
fn builders_name_the_well_known_programs() {
    let ix = deposit(&key(1), &key(2), &key(3), &key(4), &key(5), &key(6), &key(7), &key(8), &key(9), 42)
        .unwrap();
    assert_eq!(ix.accounts[7].pubkey, Pubkey::new_from_array(spl_token::id().to_bytes()));
    assert_eq!(ix.accounts[9].pubkey, Pubkey::new_from_array([0; 32]));
    let ix = delegate_deposit(&key(1), &key(2), &key(3), &key(4), &key(5), &key(6), 9).unwrap();
    assert_eq!(ix.accounts[5].pubkey, Pubkey::new_from_array(solana_program::sysvar::clock::id().to_bytes()));
    assert_eq!(ix.accounts[8].pubkey, Pubkey::new_from_array(solana_sdk_ids::stake::id().to_bytes()));
    assert!(ix.accounts[8].pubkey != ix.accounts[10].pubkey);
}

#[test]
fn management_variants_have_their_tags() {
    assert_eq!(LidoInstruction::DistributeFees.try_to_vec(), vec![5]);
    assert_eq!(LidoInstruction::RemoveValidator.try_to_vec(), vec![10]);
    assert_eq!(
        LidoInstruction::ChangeFeeSpec { new_fee_distribution: fees() }.try_to_vec(),
        vec![7, 1, 0, 0, 0, 2, 0, 0, 0, 3, 0, 0, 0, 4, 0, 0, 0]
    );
    assert_eq!(LidoInstruction::try_from_slice(&[11]), Err(LidoError::InvalidInstructionData));
}
