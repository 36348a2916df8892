use vstd::prelude::*;

use crate::accounts::{
    check_accounts, delegate_deposit_role_table, delegate_deposit_roles, deposit_role_table,
    deposit_roles, initialize_role_table, initialize_roles, stake_pool_delegate_role_table,
    stake_pool_delegate_roles, role_check, roles_view, AccountInfo, Role,
};
use crate::authority::{
    authority_seeds, authority_signer, authority_signer_seeds, find_authority, find_stake_address,
    program_address, seeds_view, stake_seeds, stake_signer, stake_signer_seeds, AuthorityRole,
};
use crate::error::LidoError;
use crate::instruction::{decoding, flags_view, LidoInstruction, keys_view, pool_deposit_roles, stake_pool_deposit};
use crate::cpi::{
    is_create_account, is_mint_to, is_stake_delegate, is_stake_initialize, is_transfer,
    stake_delegate, stake_initialize, stake_record_size, system_create_account, system_transfer,
    token_mint_to,
};
use crate::ids::{
    clock_sysvar_address, stake_history_sysvar_address, stake_program_address, stake_program_id,
    token_program_address,
};
use crate::key::{Instruction, Pubkey};
use crate::state::{
    keys_of, maintainer_bytes, maintainers_required_bytes, maximum_validator_accounts,
    validators_fitting, FeeDistribution, FeeRecipients, Lido, StakePool, TokenAccount,
    LIDO_CONSTANT_SIZE, VALIDATOR_ENTRY_SIZE, VALIDATOR_LIST_HEADER,
};

verus! {

/// The tokens issued for a deposit: the deposit itself while nothing is
/// issued yet; otherwise its share of the value under management,
/// `amount * total_shares / total_lamports` rounded down. No result where the
/// value under management is zero though tokens are issued, or where the
/// result does not fit in 64 bits.
pub open spec fn pool_tokens_for_deposit(amount: u64, total_shares: u64, total_lamports: u64) -> Option<u64> {
    if total_shares == 0 {
        Some(amount)
    } else if total_lamports == 0 {
        None
    } else {
        let v = (amount as int) * (total_shares as int) / (total_lamports as int);
        if v <= u64::MAX {
            Some(v as u64)
        } else {
            None
        }
    }
}

/// Computes the tokens issued for a deposit.
pub fn calc_pool_tokens_for_deposit(amount: u64, total_shares: u64, total_lamports: u64) -> (r: Option<u64>)
    ensures
        r == pool_tokens_for_deposit(amount, total_shares, total_lamports),
{
    if total_shares == 0 {
        return Some(amount);
    }
    if total_lamports == 0 {
        return None;
    }
    let a = amount as u128;
    let s = total_shares as u128;
    assert(a * s <= u128::MAX) by (nonlinear_arith)
        requires
            a <= u64::MAX,
            s <= u64::MAX,
    ;
    let product = a * s;
    let v = product / (total_lamports as u128);
    if v <= u64::MAX as u128 {
        Some(v as u64)
    } else {
        None
    }
}

/// Accounts of a deposit: every address the stored state names matches.
pub open spec fn deposit_accounts_match(lido: Lido, accounts: Seq<AccountInfo>) -> bool {
    &&& lido.manager@ == accounts[3].key@
    &&& lido.stake_pool_account@ == accounts[1].key@
    &&& lido.st_sol_mint_program@ == accounts[6].key@
    &&& lido.token_program_id@ == accounts[7].key@
}

/// The outcome of a deposit, before any state is written: the account list,
/// the amount, the stored addresses, the reserve's derivation, then the
/// share arithmetic, in this order.
pub open spec fn deposit_outcome(
    program_id: Seq<u8>,
    amount: u64,
    accounts: Seq<AccountInfo>,
    lido: Lido,
    total_lamports: u64,
) -> Result<u64, LidoError> {
    let roles = role_check_deposit(accounts);
    if roles is Err {
        Err(roles->Err_0)
    } else if amount == 0 {
        Err(LidoError::InvalidArgument)
    } else if lido.manager@ != accounts[3].key@ {
        Err(LidoError::InvalidOwner)
    } else if lido.stake_pool_account@ != accounts[1].key@ {
        Err(LidoError::InvalidStakePool)
    } else if lido.st_sol_mint_program@ != accounts[6].key@ {
        Err(LidoError::InvalidTokenMinter)
    } else if lido.token_program_id@ != accounts[7].key@ {
        Err(LidoError::InvalidTokenProgram)
    } else {
        match program_address(authority_seeds(accounts[0].key@, AuthorityRole::Reserve), program_id) {
            None => Err(LidoError::CalculationFailure),
            Some(p) => if p.0 != accounts[8].key@ {
                Err(LidoError::InvalidReserveAuthority)
            } else {
                match pool_tokens_for_deposit(amount, lido.st_sol_total_shares, total_lamports) {
                    None => Err(LidoError::CalculationFailure),
                    Some(minted) => if lido.st_sol_total_shares + minted > u64::MAX {
                        Err(LidoError::CalculationFailure)
                    } else {
                        Ok(minted)
                    },
                }
            },
        }
    }
}

/// The role check of a deposit's account list.
pub open spec fn role_check_deposit(accounts: Seq<AccountInfo>) -> Result<(), LidoError> {
    role_check_flags(accounts, deposit_roles())
}

/// The role check against a table given as flag pairs.
pub open spec fn role_check_flags(accounts: Seq<AccountInfo>, roles: Seq<(bool, bool)>) -> Result<(), LidoError> {
    role_check(accounts, roles.map_values(|p: (bool, bool)| Role { is_signer: p.0, is_writable: p.1 }))
}

proof fn lemma_roles_from_view(t: Seq<Role>, v: Seq<(bool, bool)>)
    requires
        roles_view(t) == v,
    ensures
        t == v.map_values(|p: (bool, bool)| Role { is_signer: p.0, is_writable: p.1 }),
{
    assert(t =~= v.map_values(|p: (bool, bool)| Role { is_signer: p.0, is_writable: p.1 })) by {
        assert forall|i: int| 0 <= i < t.len() implies t[i] == v.map_values(
            |p: (bool, bool)| Role { is_signer: p.0, is_writable: p.1 },
        )[i] by {
            assert(roles_view(t)[i] == v[i]);
        }
    }
}

/// Checks an account list against a role table built for it.
fn check_against(accounts: &[AccountInfo], table: Vec<Role>, Ghost(v): Ghost<Seq<(bool, bool)>>) -> (r: Result<(), LidoError>)
    requires
        roles_view(table@) == v,
    ensures
        r == role_check_flags(accounts@, v),
{
    proof { lemma_roles_from_view(table@, v); }
    check_accounts(accounts, table.as_slice())
}

/// Processes a deposit: on success, returns the tokens issued to the
/// depositor and adds them to the issued total; on failure the state is
/// left as it was.
pub fn process_deposit(
    program_id: &Pubkey,
    amount: u64,
    accounts: &[AccountInfo],
    lido: &mut Lido,
    total_lamports: u64,
) -> (r: Result<u64, LidoError>)
    ensures
        r == deposit_outcome(program_id@, amount, accounts@, *old(lido), total_lamports),
        r matches Ok(minted) ==> final(lido).st_sol_total_shares == old(lido).st_sol_total_shares
            + minted && *final(lido) == (Lido { st_sol_total_shares: final(lido).st_sol_total_shares, ..*old(lido) }),
        r is Err ==> *final(lido) == *old(lido),
{
    check_against(accounts, deposit_role_table(), Ghost(deposit_roles()))?;
    if amount == 0 {
        return Err(LidoError::InvalidArgument);
    }
    if !lido.manager.key_eq(&accounts[3].key) {
        return Err(LidoError::InvalidOwner);
    }
    if !lido.stake_pool_account.key_eq(&accounts[1].key) {
        return Err(LidoError::InvalidStakePool);
    }
    if !lido.st_sol_mint_program.key_eq(&accounts[6].key) {
        return Err(LidoError::InvalidTokenMinter);
    }
    if !lido.token_program_id.key_eq(&accounts[7].key) {
        return Err(LidoError::InvalidTokenProgram);
    }
    let (reserve, _) = find_authority(&accounts[0].key, AuthorityRole::Reserve, program_id)?;
    if !reserve.key_eq(&accounts[8].key) {
        return Err(LidoError::InvalidReserveAuthority);
    }
    let minted = match calc_pool_tokens_for_deposit(amount, lido.st_sol_total_shares, total_lamports) {
        Some(m) => m,
        None => return Err(LidoError::CalculationFailure),
    };
    let total = match lido.st_sol_total_shares.checked_add(minted) {
        Some(t) => t,
        None => return Err(LidoError::CalculationFailure),
    };
    lido.st_sol_total_shares = total;
    Ok(minted)
}

/// Share accounting of a deposit: a successful deposit has a positive
/// amount; it issues the deposit itself into an empty pool, and otherwise
/// `amount * issued / value` rounded down; the new issued total is the old
/// one plus what was issued, and fits in 64 bits.
pub proof fn lemma_deposit_share_accounting(
    program_id: Seq<u8>,
    amount: u64,
    accounts: Seq<AccountInfo>,
    lido: Lido,
    total_lamports: u64,
    minted: u64,
)
    requires
        deposit_outcome(program_id, amount, accounts, lido, total_lamports) == Ok::<u64, LidoError>(minted),
    ensures
        amount > 0,
        lido.st_sol_total_shares == 0 ==> minted == amount,
        lido.st_sol_total_shares > 0 ==> total_lamports > 0 && minted as int == (amount as int)
            * (lido.st_sol_total_shares as int) / (total_lamports as int),
        lido.st_sol_total_shares + minted <= u64::MAX,
{
}

/// What a stake deposit hands to the host once every check has passed: the
/// amount that funds the new stake record, and the bumps that sign for the
/// stake record, the reserve and the deposit authority.
#[derive(Clone, Copy, Debug, PartialEq, Eq, Structural)]
pub struct StakeDepositPlan {
    pub amount: u64,
    pub stake_bump_seed: u8,
    pub reserve_bump_seed: u8,
    pub deposit_bump_seed: u8,
}

/// The outcome of a stake deposit: the account list, the validator's stake
/// address, the reserve's and the deposit authority's derivations (the
/// latter becomes the record's staker and withdrawer), the amount against the stake record's
/// rent-exempt minimum and the reserve's spendable balance, and last whether
/// a stake record already exists there.
pub open spec fn stake_deposit_outcome(
    program_id: Seq<u8>,
    amount: u64,
    accounts: Seq<AccountInfo>,
    lido: Lido,
    stake_rent_minimum: u64,
    reserve_available: u64,
    stake_exists: bool,
) -> Result<StakeDepositPlan, LidoError> {
    let roles = role_check_flags(accounts, delegate_deposit_roles());
    if roles is Err {
        Err(roles->Err_0)
    } else {
        match program_address(stake_seeds(accounts[1].key@), program_id) {
            None => Err(LidoError::CalculationFailure),
            Some(stake) => if stake.0 != accounts[3].key@ {
                Err(LidoError::InvalidStaker)
            } else {
                match program_address(authority_seeds(accounts[0].key@, AuthorityRole::Reserve), program_id) {
                    None => Err(LidoError::CalculationFailure),
                    Some(reserve) => if reserve.0 != accounts[2].key@ {
                        Err(LidoError::InvalidReserveAuthority)
                    } else if !(authority_of(program_id, accounts, AuthorityRole::Deposit) matches Some(d) && d.0 == accounts[4].key@) {
                        if authority_of(program_id, accounts, AuthorityRole::Deposit) is None {
                            Err(LidoError::CalculationFailure)
                        } else {
                            Err(LidoError::InvalidDepositAuthority)
                        }
                    } else if amount < stake_rent_minimum {
                        Err(LidoError::InvalidAmount)
                    } else if amount > reserve_available {
                        Err(LidoError::AmountExceedsReserve)
                    } else if stake_exists {
                        Err(LidoError::WrongStakeState)
                    } else {
                        Ok(StakeDepositPlan {
                            amount,
                            stake_bump_seed: stake.1,
                            reserve_bump_seed: lido.sol_reserve_authority_bump_seed,
                            deposit_bump_seed: lido.deposit_authority_bump_seed,
                        })
                    },
                }
            },
        }
    }
}

/// Processes a stake deposit: decides whether a stake record for the
/// validator may be created and funded from the reserve, and with which
/// signing bumps.
pub fn process_stake_deposit(
    program_id: &Pubkey,
    amount: u64,
    accounts: &[AccountInfo],
    lido: &Lido,
    stake_rent_minimum: u64,
    reserve_available: u64,
    stake_exists: bool,
) -> (r: Result<StakeDepositPlan, LidoError>)
    ensures
        r == stake_deposit_outcome(
            program_id@,
            amount,
            accounts@,
            *lido,
            stake_rent_minimum,
            reserve_available,
            stake_exists,
        ),
{
    check_against(accounts, delegate_deposit_role_table(), Ghost(delegate_deposit_roles()))?;
    let (stake, stake_bump_seed) = find_stake_address(&accounts[1].key, program_id)?;
    if !stake.key_eq(&accounts[3].key) {
        return Err(LidoError::InvalidStaker);
    }
    let (reserve, _) = find_authority(&accounts[0].key, AuthorityRole::Reserve, program_id)?;
    if !reserve.key_eq(&accounts[2].key) {
        return Err(LidoError::InvalidReserveAuthority);
    }
    let (deposit_authority, _) = find_authority(&accounts[0].key, AuthorityRole::Deposit, program_id)?;
    if !deposit_authority.key_eq(&accounts[4].key) {
        return Err(LidoError::InvalidDepositAuthority);
    }
    if amount < stake_rent_minimum {
        return Err(LidoError::InvalidAmount);
    }
    if amount > reserve_available {
        return Err(LidoError::AmountExceedsReserve);
    }
    if stake_exists {
        return Err(LidoError::WrongStakeState);
    }
    Ok(StakeDepositPlan {
        amount,
        stake_bump_seed,
        reserve_bump_seed: lido.sol_reserve_authority_bump_seed,
        deposit_bump_seed: lido.deposit_authority_bump_seed,
    })
}

/// A second stake deposit at the same derived stake address, once the first
/// has created the record and the reserve can still cover the amount, fails
/// with a stake-state error.
pub proof fn lemma_stake_deposit_twice(
    program_id: Seq<u8>,
    amount: u64,
    accounts: Seq<AccountInfo>,
    lido: Lido,
    stake_rent_minimum: u64,
    reserve_available: u64,
    reserve_available_after: u64,
)
    requires
        stake_deposit_outcome(
            program_id,
            amount,
            accounts,
            lido,
            stake_rent_minimum,
            reserve_available,
            false,
        ) is Ok,
        amount <= reserve_available_after,
    ensures
        stake_deposit_outcome(
            program_id,
            amount,
            accounts,
            lido,
            stake_rent_minimum,
            reserve_available_after,
            true,
        ) == Err::<StakeDepositPlan, LidoError>(LidoError::WrongStakeState),
{
}

/// What the host reads for an Initialize before the processor decides: the
/// rent-exemption of the stake pool, state and reserve accounts, whether the
/// state account is already initialized, and the stake pool's and token
/// accounts' contents.
#[derive(Clone, Copy, Debug)]
pub struct InitializeInputs {
    pub stake_pool_rent_exempt: bool,
    pub lido_rent_exempt: bool,
    pub reserve_rent_exempt: bool,
    pub lido_initialized: bool,
    pub stake_pool: StakePool,
    pub pool_token_to: TokenAccount,
    pub fee_token: TokenAccount,
    pub insurance_account: TokenAccount,
    pub treasury_account: TokenAccount,
    pub manager_fee_account: TokenAccount,
}

/// A role's authority for the state account at position zero.
pub open spec fn authority_of(program_id: Seq<u8>, accounts: Seq<AccountInfo>, role: AuthorityRole) -> Option<(Seq<u8>, u8)> {
    program_address(authority_seeds(accounts[0].key@, role), program_id)
}

/// The outcome of an Initialize: the account list, rent exemption, the
/// state's and stake pool's initialization, the fee accounts' mint, the
/// validator capacity against the state account's size, the four
/// derivations, then the pre-arranged relations between the stake pool,
/// its token accounts and this program's authorities.
pub open spec fn initialize_outcome(
    program_id: Seq<u8>,
    max_validators: u32,
    max_maintainers: u32,
    accounts: Seq<AccountInfo>,
    inputs: InitializeInputs,
) -> Result<(), LidoError> {
    let roles = role_check_flags(accounts, initialize_roles());
    let mint = accounts[3].key@;
    let free = accounts[0].data_len - LIDO_CONSTANT_SIZE - maintainer_bytes(max_maintainers);
    let fee_manager = authority_of(program_id, accounts, AuthorityRole::FeeManager);
    let pool_authority = authority_of(program_id, accounts, AuthorityRole::StakePool);
    if roles is Err {
        roles
    } else if !inputs.stake_pool_rent_exempt || !inputs.lido_rent_exempt || !inputs.reserve_rent_exempt {
        Err(LidoError::AccountNotRentExempt)
    } else if inputs.lido_initialized {
        Err(LidoError::AlreadyInUse)
    } else if !inputs.stake_pool.is_initialized {
        Err(LidoError::InvalidStakePool)
    } else if inputs.insurance_account.mint@ != mint || inputs.treasury_account.mint@ != mint
        || inputs.manager_fee_account.mint@ != mint {
        Err(LidoError::InvalidTokenMinter)
    } else if free < 0 {
        Err(LidoError::CalculationFailure)
    } else if validators_fitting(free) != max_validators || max_validators == 0 {
        Err(LidoError::UnexpectedValidatorCreditAccountSize)
    } else if authority_of(program_id, accounts, AuthorityRole::Reserve) is None
        || authority_of(program_id, accounts, AuthorityRole::Deposit) is None
        || fee_manager is None || pool_authority is None {
        Err(LidoError::CalculationFailure)
    } else if inputs.stake_pool.pool_mint@ != inputs.pool_token_to.mint@ {
        Err(LidoError::InvalidTokenMinter)
    } else if pool_authority->Some_0.0 != inputs.pool_token_to.owner@ {
        Err(LidoError::InvalidOwner)
    } else if inputs.stake_pool.staker@ != pool_authority->Some_0.0 {
        Err(LidoError::InvalidManager)
    } else if inputs.stake_pool.manager_fee_account@ != accounts[5].key@ {
        Err(LidoError::InvalidFeeAccount)
    } else if inputs.fee_token.owner@ != fee_manager->Some_0.0 {
        Err(LidoError::InvalidOwner)
    } else {
        Ok(())
    }
}

/// The state an Initialize writes: the addresses of its accounts, the four
/// bumps, no tokens issued, no maintainers.
pub open spec fn initialized_state(
    l: Lido,
    program_id: Seq<u8>,
    max_validators: u32,
    accounts: Seq<AccountInfo>,
) -> bool {
    &&& l.is_initialized
    &&& l.manager@ == accounts[2].key@
    &&& l.stake_pool_account@ == accounts[1].key@
    &&& l.st_sol_mint_program@ == accounts[3].key@
    &&& l.stake_pool_token_holder@ == accounts[4].key@
    &&& l.token_program_id@ == accounts[11].key@
    &&& l.fee_recipients.insurance_account@ == accounts[6].key@
    &&& l.fee_recipients.treasury_account@ == accounts[7].key@
    &&& l.fee_recipients.manager_account@ == accounts[8].key@
    &&& l.fee_recipients.max_validators == max_validators
    &&& l.st_sol_total_shares == 0
    &&& l.maintainers@.len() == 0
    &&& l.authorities_valid(accounts[0].key@, program_id)
}

/// Processes an Initialize: checks every precondition, then returns the state
/// record to write. Nothing is returned to write when a check fails.
pub fn process_initialize(
    program_id: &Pubkey,
    fee_distribution: FeeDistribution,
    max_validators: u32,
    max_maintainers: u32,
    accounts: &[AccountInfo],
    inputs: &InitializeInputs,
) -> (r: Result<Lido, LidoError>)
    ensures
        (r matches Err(e) ==> initialize_outcome(program_id@, max_validators, max_maintainers, accounts@, *inputs) == Err::<(), LidoError>(e)),
        (r is Ok <==> initialize_outcome(program_id@, max_validators, max_maintainers, accounts@, *inputs) is Ok),
        (r matches Ok(l) ==> initialized_state(l, program_id@, max_validators, accounts@)
            && l.fee_distribution == fee_distribution),
{
    check_against(accounts, initialize_role_table(), Ghost(initialize_roles()))?;
    if !inputs.stake_pool_rent_exempt || !inputs.lido_rent_exempt || !inputs.reserve_rent_exempt {
        return Err(LidoError::AccountNotRentExempt);
    }
    if inputs.lido_initialized {
        return Err(LidoError::AlreadyInUse);
    }
    if !inputs.stake_pool.is_initialized {
        return Err(LidoError::InvalidStakePool);
    }
    let mint = accounts[3].key;
    if !inputs.insurance_account.mint.key_eq(&mint) || !inputs.treasury_account.mint.key_eq(&mint)
        || !inputs.manager_fee_account.mint.key_eq(&mint) {
        return Err(LidoError::InvalidTokenMinter);
    }
    let lido_account = accounts[0];
    let bytes_for_maintainers = maintainers_required_bytes(max_maintainers);
    let after_constant = match (lido_account.data_len as u64).checked_sub(LIDO_CONSTANT_SIZE) {
        Some(v) => v,
        None => return Err(LidoError::CalculationFailure),
    };
    let free = match after_constant.checked_sub(bytes_for_maintainers) {
        Some(v) => v,
        None => return Err(LidoError::CalculationFailure),
    };
    let expected_max_validators = maximum_validator_accounts(free);
    if expected_max_validators != max_validators as u64 || max_validators == 0 {
        return Err(LidoError::UnexpectedValidatorCreditAccountSize);
    }
    let (_, reserve_bump_seed) = find_authority(&lido_account.key, AuthorityRole::Reserve, program_id)?;
    let (_, deposit_bump_seed) = find_authority(&lido_account.key, AuthorityRole::Deposit, program_id)?;
    let (fee_manager_account, fee_manager_bump_seed) = find_authority(
        &lido_account.key,
        AuthorityRole::FeeManager,
        program_id,
    )?;
    let (stake_pool_authority, stake_pool_authority_bump_seed) = find_authority(
        &lido_account.key,
        AuthorityRole::StakePool,
        program_id,
    )?;
    if !inputs.stake_pool.pool_mint.key_eq(&inputs.pool_token_to.mint) {
        return Err(LidoError::InvalidTokenMinter);
    }
    if !stake_pool_authority.key_eq(&inputs.pool_token_to.owner) {
        return Err(LidoError::InvalidOwner);
    }
    if !inputs.stake_pool.staker.key_eq(&stake_pool_authority) {
        return Err(LidoError::InvalidManager);
    }
    if !inputs.stake_pool.manager_fee_account.key_eq(&accounts[5].key) {
        return Err(LidoError::InvalidFeeAccount);
    }
    if !inputs.fee_token.owner.key_eq(&fee_manager_account) {
        return Err(LidoError::InvalidOwner);
    }
    let l = Lido {
        is_initialized: true,
        manager: accounts[2].key,
        stake_pool_account: accounts[1].key,
        st_sol_mint_program: mint,
        stake_pool_token_holder: accounts[4].key,
        token_program_id: accounts[11].key,
        sol_reserve_authority_bump_seed: reserve_bump_seed,
        deposit_authority_bump_seed: deposit_bump_seed,
        stake_pool_authority_bump_seed: stake_pool_authority_bump_seed,
        fee_manager_bump_seed: fee_manager_bump_seed,
        st_sol_total_shares: 0,
        fee_distribution,
        fee_recipients: FeeRecipients {
            insurance_account: accounts[6].key,
            treasury_account: accounts[7].key,
            manager_account: accounts[8].key,
            max_validators,
        },
        maintainers: Vec::new(),
    };
    assert forall|role: AuthorityRole| #[trigger] program_address(authority_seeds(accounts@[0].key@, role), program_id@) matches Some(p)
        && p.1 == l.bump_of(role) by {
        match role {
            AuthorityRole::Reserve => {},
            AuthorityRole::Deposit => {},
            AuthorityRole::FeeManager => {},
            AuthorityRole::StakePool => {},
        }
    }
    Ok(l)
}

/// After a successful Initialize, re-deriving any of the four authorities
/// from the state account's address and the role's fixed seed finds the
/// stored bump; the stake pool's staker and the fee account's owner are
/// exactly the re-derived pool and fee-manager authorities.
pub proof fn lemma_initialize_authorities_rederivable(
    program_id: Seq<u8>,
    max_validators: u32,
    max_maintainers: u32,
    accounts: Seq<AccountInfo>,
    inputs: InitializeInputs,
    l: Lido,
    role: AuthorityRole,
)
    requires
        initialize_outcome(program_id, max_validators, max_maintainers, accounts, inputs) is Ok,
        initialized_state(l, program_id, max_validators, accounts),
    ensures
        program_address(authority_seeds(accounts[0].key@, role), program_id) matches Some(p)
            && p.1 == l.bump_of(role),
        program_address(authority_seeds(accounts[0].key@, AuthorityRole::StakePool), program_id)
            matches Some(p) && p.0 == inputs.stake_pool.staker@,
        program_address(authority_seeds(accounts[0].key@, AuthorityRole::FeeManager), program_id)
            matches Some(p) && p.0 == inputs.fee_token.owner@,
{
    assert(program_address(authority_seeds(accounts[0].key@, role), program_id) matches Some(p)
        && p.1 == l.bump_of(role));
}

/// The outcome of moving a delegated stake record into the pooled-stake
/// program: the account list, the stored stake pool, the maintainer, the
/// validator's stake address, the stored pool token holder; on success the
/// pooled-stake program's deposit instruction to invoke, signed by the
/// deposit authority.
pub open spec fn stake_pool_delegate_check(
    program_id: Seq<u8>,
    accounts: Seq<AccountInfo>,
    lido: Lido,
) -> Result<(), LidoError> {
    let roles = role_check_flags(accounts, stake_pool_delegate_roles());
    if roles is Err {
        roles
    } else if lido.stake_pool_account@ != accounts[7].key@ {
        Err(LidoError::InvalidStakePool)
    } else if !keys_of(lido.maintainers@).contains(accounts[0].key@) {
        Err(LidoError::InvalidMaintainer)
    } else {
        match program_address(stake_seeds(accounts[2].key@), program_id) {
            None => Err(LidoError::CalculationFailure),
            Some(stake) => if stake.0 != accounts[3].key@ {
                Err(LidoError::InvalidStaker)
            } else if lido.stake_pool_token_holder@ != accounts[5].key@ {
                Err(LidoError::InvalidPoolToken)
            } else {
                Ok(())
            },
        }
    }
}

/// The pooled-stake program's deposit that a StakePoolDelegate invokes: the
/// supplied stake pool program, its deposit tag, and its account list built
/// from the supplied accounts, crediting the stored pool token holder, with
/// the deposit authority as the only signer.
pub open spec fn pool_deposit_call(ix: Instruction, accounts: Seq<AccountInfo>, lido: Lido) -> bool {
    &&& ix.program_id@ == accounts[6].key@
    &&& ix.data@ == seq![9u8]
    &&& flags_view(ix.accounts@) == pool_deposit_roles()
    &&& keys_view(ix.accounts@) == seq![
        accounts[7].key@, accounts[8].key@, accounts[4].key@, accounts[9].key@, accounts[3].key@,
        accounts[10].key@, lido.stake_pool_token_holder@, accounts[11].key@, clock_sysvar_address(),
        stake_history_sysvar_address(), accounts[16].key@, stake_program_address(),
    ]
}

/// Processes a StakePoolDelegate: returns the pooled-stake program's deposit
/// of the validator's stake record, crediting the stored pool token holder.
pub fn process_deposit_active_stake_to_pool(
    program_id: &Pubkey,
    accounts: &[AccountInfo],
    lido: &Lido,
) -> (r: Result<Instruction, LidoError>)
    ensures
        stake_pool_delegate_check(program_id@, accounts@, *lido) matches Err(e) ==> r == Err::<
            Instruction,
            LidoError,
        >(e),
        stake_pool_delegate_check(program_id@, accounts@, *lido) is Ok ==> (r matches Ok(ix)
            && pool_deposit_call(ix, accounts@, *lido)),
{
    check_against(accounts, stake_pool_delegate_role_table(), Ghost(stake_pool_delegate_roles()))?;
    if !lido.stake_pool_account.key_eq(&accounts[7].key) {
        return Err(LidoError::InvalidStakePool);
    }
    if !lido.check_maintainer(&accounts[0].key) {
        return Err(LidoError::InvalidMaintainer);
    }
    let (stake, _) = find_stake_address(&accounts[2].key, program_id)?;
    if !stake.key_eq(&accounts[3].key) {
        return Err(LidoError::InvalidStaker);
    }
    if !lido.stake_pool_token_holder.key_eq(&accounts[5].key) {
        return Err(LidoError::InvalidPoolToken);
    }
    let r = stake_pool_deposit(
        &accounts[6].key,
        &accounts[7].key,
        &accounts[8].key,
        &accounts[4].key,
        &accounts[9].key,
        &accounts[3].key,
        &accounts[10].key,
        &lido.stake_pool_token_holder,
        &accounts[11].key,
        &accounts[16].key,
    );
    if let Ok(ix) = &r {
        assert(keys_view(ix.accounts@) =~= seq![
            accounts@[7].key@, accounts@[8].key@, accounts@[4].key@, accounts@[9].key@, accounts@[3].key@,
            accounts@[10].key@, lido.stake_pool_token_holder@, accounts@[11].key@, clock_sysvar_address(),
            stake_history_sysvar_address(), accounts@[16].key@, stake_program_address(),
        ]);
    }
    r
}

/// Processes a Withdraw: redemption is not designed yet, so this changes
/// nothing and succeeds.
pub fn process_withdraw(program_id: &Pubkey, pool_tokens: u64, accounts: &[AccountInfo]) -> (r: Result<(), LidoError>)
    ensures
        r is Ok,
{
    Ok(())
}

/// What the host reads, for whichever instruction arrives, outside the
/// processor: the reserve's balance and rent-exempt minimum, the pool tokens
/// the program holds with the pool's total value and token supply, the
/// stake record's rent-exempt minimum, whether the target stake record
/// exists, and what an Initialize needs.
#[derive(Clone, Copy, Debug)]
pub struct HostView {
    pub reserve_lamports: u64,
    pub reserve_rent_minimum: u64,
    pub held_pool_tokens: u64,
    pub pool_total_lamports: u64,
    pub pool_token_supply: u64,
    pub stake_rent_minimum: u64,
    pub stake_exists: bool,
    pub initialize: InitializeInputs,
}

/// What the reserve can spend, if its balance reaches its rent-exempt minimum.
pub open spec fn host_reserve_available(host: HostView) -> Option<u64> {
    if host.reserve_lamports >= host.reserve_rent_minimum {
        Some((host.reserve_lamports - host.reserve_rent_minimum) as u64)
    } else {
        None
    }
}

/// The value under management, if the reserve reaches its minimum and the
/// total fits in 64 bits.
pub open spec fn host_total_lamports(host: HostView) -> Option<u64> {
    match host_reserve_available(host) {
        None => None,
        Some(a) => {
            let t = total_lamports_of(a, host.held_pool_tokens, host.pool_total_lamports, host.pool_token_supply);
            if t <= u64::MAX {
                Some(t as u64)
            } else {
                None
            }
        },
    }
}

/// What the host performs after a successful instruction.
#[derive(Debug)]
pub enum Action {
    /// The state record was written for the first time.
    Initialized,
    /// Invoke `transfer` (the depositor's `amount` into the reserve), then
    /// `mint` (`minted` issued tokens to the recipient) signed with
    /// `reserve_seeds`.
    Deposit {
        amount: u64,
        minted: u64,
        transfer: Instruction,
        mint: Instruction,
        reserve_seeds: Vec<Vec<u8>>,
    },
    /// Invoke `create` (the stake record funded from the reserve, signed with
    /// `reserve_seeds` and `stake_seeds`), then `initialize` (the deposit
    /// authority as staker and withdrawer), then `delegate` (signed with
    /// `deposit_seeds`).
    CreateStake {
        plan: StakeDepositPlan,
        create: Instruction,
        initialize: Instruction,
        delegate: Instruction,
        reserve_seeds: Vec<Vec<u8>>,
        stake_seeds: Vec<Vec<u8>>,
        deposit_seeds: Vec<Vec<u8>>,
    },
    /// Invoke the pooled-stake program, signed with `signer_seeds`.
    Invoke { instruction: Instruction, signer_seeds: Vec<Vec<u8>> },
    /// Hand the decoded management instruction to the validator and fee
    /// management handlers.
    Manage(LidoInstruction),
    /// Nothing to perform.
    Nothing,
}

/// The single entry point: decodes the instruction, runs its handler on the
/// state record, and returns what the host performs next. A failure leaves
/// the state record as it was.
pub fn process(
    program_id: &Pubkey,
    accounts: &[AccountInfo],
    input: &[u8],
    lido: &mut Lido,
    host: &HostView,
) -> (r: Result<Action, LidoError>)
    ensures
        r is Err ==> *final(lido) == *old(lido),
        decoding(input@) is None ==> r == Err::<Action, LidoError>(LidoError::InvalidInstructionData),
        decoding(input@) matches Some(LidoInstruction::Initialize { fee_distribution, max_validators, max_maintainers })
            ==> {
            &&& (initialize_outcome(program_id@, max_validators, max_maintainers, accounts@, host.initialize) matches Err(e)
                ==> r == Err::<Action, LidoError>(e))
            &&& (r is Ok <==> initialize_outcome(program_id@, max_validators, max_maintainers, accounts@, host.initialize) is Ok)
            &&& (r is Ok ==> r matches Ok(Action::Initialized))
            &&& (r is Ok ==> initialized_state(*final(lido), program_id@, max_validators, accounts@)
                && final(lido).fee_distribution == fee_distribution)
        },
        decoding(input@) matches Some(LidoInstruction::Deposit { .. }) && host_total_lamports(*host) is None
            ==> r == Err::<Action, LidoError>(LidoError::CalculationFailure),
        decoding(input@) matches Some(LidoInstruction::Deposit { amount }) ==> host_total_lamports(*host) matches Some(total) ==> {
            &&& (deposit_outcome(program_id@, amount, accounts@, *old(lido), total) matches Err(e)
                ==> r == Err::<Action, LidoError>(e))
            &&& (deposit_outcome(program_id@, amount, accounts@, *old(lido), total) matches Ok(minted)
                ==> {
                &&& accounts@[7].key@ != token_program_address() ==> r == Err::<Action, LidoError>(LidoError::InvalidTokenProgram)
                &&& accounts@[7].key@ == token_program_address() ==> (r matches Ok(Action::Deposit { amount: a, minted: m, transfer, mint, reserve_seeds })
                    && a == amount && m == minted
                    && is_transfer(transfer, accounts@[4].key@, accounts@[8].key@, amount)
                    && is_mint_to(mint, accounts@[7].key@, accounts@[6].key@, accounts@[5].key@, accounts@[8].key@, minted)
                    && seeds_view(reserve_seeds@) == authority_signer_seeds(
                        accounts@[0].key@,
                        AuthorityRole::Reserve,
                        old(lido).sol_reserve_authority_bump_seed,
                    )
                    && final(lido).st_sol_total_shares == old(lido).st_sol_total_shares + minted
                    && *final(lido) == (Lido { st_sol_total_shares: final(lido).st_sol_total_shares, ..*old(lido) }))
            })
        },
        decoding(input@) matches Some(LidoInstruction::DelegateDeposit { .. }) ==> *final(lido) == *old(lido),
        decoding(input@) matches Some(LidoInstruction::DelegateDeposit { .. }) && host_reserve_available(*host) is None
            ==> r == Err::<Action, LidoError>(LidoError::CalculationFailure),
        decoding(input@) matches Some(LidoInstruction::DelegateDeposit { amount }) ==> host_reserve_available(*host) matches Some(available) ==> {
            &&& (stake_deposit_outcome(program_id@, amount, accounts@, *old(lido), host.stake_rent_minimum, available, host.stake_exists) matches Err(e)
                ==> r == Err::<Action, LidoError>(e))
            &&& (stake_deposit_outcome(program_id@, amount, accounts@, *old(lido), host.stake_rent_minimum, available, host.stake_exists) matches Ok(p)
                ==> (r matches Ok(Action::CreateStake { plan, create, initialize, delegate, reserve_seeds, stake_seeds, deposit_seeds })
                    && plan == p
                    && is_create_account(create, accounts@[2].key@, accounts@[3].key@, amount, 200, stake_program_address())
                    && is_stake_initialize(initialize, accounts@[3].key@, accounts@[4].key@)
                    && is_stake_delegate(delegate, accounts@[3].key@, accounts@[4].key@, accounts@[1].key@)
                    && seeds_view(reserve_seeds@) == authority_signer_seeds(accounts@[0].key@, AuthorityRole::Reserve, p.reserve_bump_seed)
                    && seeds_view(stake_seeds@) == stake_signer_seeds(accounts@[1].key@, p.stake_bump_seed)
                    && seeds_view(deposit_seeds@) == authority_signer_seeds(accounts@[0].key@, AuthorityRole::Deposit, p.deposit_bump_seed)))
        },
        decoding(input@) matches Some(LidoInstruction::StakePoolDelegate) ==> {
            &&& *final(lido) == *old(lido)
            &&& (stake_pool_delegate_check(program_id@, accounts@, *old(lido)) matches Err(e) ==> r == Err::<Action, LidoError>(e))
            &&& (stake_pool_delegate_check(program_id@, accounts@, *old(lido)) is Ok ==> (r matches Ok(Action::Invoke { instruction, signer_seeds })
                && pool_deposit_call(instruction, accounts@, *old(lido))
                && seeds_view(signer_seeds@) == authority_signer_seeds(
                    accounts@[1].key@,
                    AuthorityRole::Deposit,
                    old(lido).deposit_authority_bump_seed,
                )))
        },
        decoding(input@) matches Some(LidoInstruction::Withdraw { amount }) ==> {
            &&& *final(lido) == *old(lido)
            &&& r matches Ok(Action::Nothing)
        },
        decoding(input@) matches Some(i) ==> (i.is_management() ==> {
            &&& *final(lido) == *old(lido)
            &&& (r matches Ok(Action::Manage(j)) && j == i)
        }),
{
    let instruction = LidoInstruction::try_from_slice(input)?;
    match instruction {
        LidoInstruction::Initialize { fee_distribution, max_validators, max_maintainers } => {
            let l = process_initialize(
                program_id,
                fee_distribution,
                max_validators,
                max_maintainers,
                accounts,
                &host.initialize,
            )?;
            *lido = l;
            Ok(Action::Initialized)
        },
        LidoInstruction::Deposit { amount } => {
            let available = get_reserve_available_amount(host.reserve_lamports, host.reserve_rent_minimum)?;
            let total = calc_total_lamports(
                available,
                host.held_pool_tokens,
                host.pool_total_lamports,
                host.pool_token_supply,
            )?;
            let before = lido.st_sol_total_shares;
            let minted = process_deposit(program_id, amount, accounts, lido, total)?;
            let mint = match token_mint_to(&accounts[7].key, &accounts[6].key, &accounts[5].key, &accounts[8].key, minted) {
                Some(ix) => ix,
                None => {
                    lido.st_sol_total_shares = before;
                    return Err(LidoError::InvalidTokenProgram);
                },
            };
            let transfer = system_transfer(&accounts[4].key, &accounts[8].key, amount);
            let reserve_seeds = authority_signer(
                &accounts[0].key,
                AuthorityRole::Reserve,
                lido.sol_reserve_authority_bump_seed,
            );
            Ok(Action::Deposit { amount, minted, transfer, mint, reserve_seeds })
        },
        LidoInstruction::DelegateDeposit { amount } => {
            let available = get_reserve_available_amount(host.reserve_lamports, host.reserve_rent_minimum)?;
            let plan = process_stake_deposit(
                program_id,
                amount,
                accounts,
                lido,
                host.stake_rent_minimum,
                available,
                host.stake_exists,
            )?;
            let reserve_seeds = authority_signer(&accounts[0].key, AuthorityRole::Reserve, plan.reserve_bump_seed);
            let stake_seeds = stake_signer(&accounts[1].key, plan.stake_bump_seed);
            let deposit_seeds = authority_signer(&accounts[0].key, AuthorityRole::Deposit, plan.deposit_bump_seed);
            let create = system_create_account(
                &accounts[2].key,
                &accounts[3].key,
                plan.amount,
                stake_record_size(),
                &stake_program_id(),
            );
            let initialize = stake_initialize(&accounts[3].key, &accounts[4].key);
            let delegate = stake_delegate(&accounts[3].key, &accounts[4].key, &accounts[1].key);
            Ok(Action::CreateStake { plan, create, initialize, delegate, reserve_seeds, stake_seeds, deposit_seeds })
        },
        LidoInstruction::StakePoolDelegate => {
            let instruction = process_deposit_active_stake_to_pool(program_id, accounts, lido)?;
            let signer_seeds = authority_signer(
                &accounts[1].key,
                AuthorityRole::Deposit,
                lido.deposit_authority_bump_seed,
            );
            Ok(Action::Invoke { instruction, signer_seeds })
        },
        LidoInstruction::Withdraw { amount } => {
            process_withdraw(program_id, amount, accounts)?;
            Ok(Action::Nothing)
        },
        _ => Ok(Action::Manage(instruction)),
    }
}

/// What the reserve can spend: its balance above its own rent-exempt
/// minimum. A reserve below that minimum is a calculation failure.
pub fn get_reserve_available_amount(reserve_lamports: u64, reserve_rent_minimum: u64) -> (r: Result<u64, LidoError>)
    ensures
        reserve_lamports >= reserve_rent_minimum ==> r == Ok::<u64, LidoError>(
            (reserve_lamports - reserve_rent_minimum) as u64,
        ),
        reserve_lamports < reserve_rent_minimum ==> r == Err::<u64, LidoError>(LidoError::CalculationFailure),
{
    match reserve_lamports.checked_sub(reserve_rent_minimum) {
        Some(v) => Ok(v),
        None => Err(LidoError::CalculationFailure),
    }
}

/// The value under management: what the reserve can spend, plus the native
/// value of the pool tokens the program holds, at the pool's rate
/// `pool_total_lamports / pool_token_supply` rounded down (nothing while the
/// pool has issued no tokens).
pub open spec fn total_lamports_of(
    reserve_available: u64,
    held_pool_tokens: u64,
    pool_total_lamports: u64,
    pool_token_supply: u64,
) -> int {
    reserve_available + if pool_token_supply == 0 {
        0
    } else {
        (held_pool_tokens as int) * (pool_total_lamports as int) / (pool_token_supply as int)
    }
}

/// Computes the value under management; a total beyond 64 bits is a
/// calculation failure.
pub fn calc_total_lamports(
    reserve_available: u64,
    held_pool_tokens: u64,
    pool_total_lamports: u64,
    pool_token_supply: u64,
) -> (r: Result<u64, LidoError>)
    ensures
        total_lamports_of(reserve_available, held_pool_tokens, pool_total_lamports, pool_token_supply)
            <= u64::MAX ==> r == Ok::<u64, LidoError>(
            total_lamports_of(reserve_available, held_pool_tokens, pool_total_lamports, pool_token_supply) as u64,
        ),
        total_lamports_of(reserve_available, held_pool_tokens, pool_total_lamports, pool_token_supply)
            > u64::MAX ==> r == Err::<u64, LidoError>(LidoError::CalculationFailure),
{
    let pooled: u128 = if pool_token_supply == 0 {
        0
    } else {
        let a = held_pool_tokens as u128;
        let b = pool_total_lamports as u128;
        let c = pool_token_supply as u128;
        assert(a * b <= 0xfffffffffffffffe0000000000000001) by (nonlinear_arith)
            requires
                a <= u64::MAX,
                b <= u64::MAX,
        ;
        let q = a * b / c;
        assert(q <= a * b) by (nonlinear_arith)
            requires
                c >= 1,
                a * b >= 0,
                q as int == (a * b) as int / (c as int),
        ;
        q
    };
    let total = pooled + reserve_available as u128;
    if total > u64::MAX as u128 {
        Err(LidoError::CalculationFailure)
    } else {
        Ok(total as u64)
    }
}

/// A state account sized for exactly `max_validators` entries, after the
/// fixed part and the maintainer list, holds exactly that many.
pub proof fn lemma_exact_fit_capacity(data_len: int, max_validators: u32, max_maintainers: u32)
    requires
        data_len == LIDO_CONSTANT_SIZE + maintainer_bytes(max_maintainers) + VALIDATOR_LIST_HEADER
            + VALIDATOR_ENTRY_SIZE * max_validators,
    ensures
        data_len - LIDO_CONSTANT_SIZE - maintainer_bytes(max_maintainers) >= 0,
        validators_fitting(data_len - LIDO_CONSTANT_SIZE - maintainer_bytes(max_maintainers))
            == max_validators,
{
    let free = data_len - LIDO_CONSTANT_SIZE - maintainer_bytes(max_maintainers);
    assert((free - 8) / 40 == max_validators as int) by (nonlinear_arith)
        requires
            free - 8 == 40 * max_validators,
    ;
}

/// Once an Initialize succeeds with some validator capacity, the same call
/// with any other capacity fails with the sizing error.
pub proof fn lemma_initialize_capacity_unique(
    program_id: Seq<u8>,
    max_validators: u32,
    other: u32,
    max_maintainers: u32,
    accounts: Seq<AccountInfo>,
    inputs: InitializeInputs,
)
    requires
        initialize_outcome(program_id, max_validators, max_maintainers, accounts, inputs) is Ok,
        other != max_validators,
    ensures
        initialize_outcome(program_id, other, max_maintainers, accounts, inputs) == Err::<(), LidoError>(
            LidoError::UnexpectedValidatorCreditAccountSize,
        ),
{
}

} // verus!
