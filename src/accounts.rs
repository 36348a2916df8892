use vstd::prelude::*;

use crate::error::LidoError;
use crate::key::Pubkey;

verus! {

/// An account as presented to an instruction: its address, the flags the
/// caller set on it, its native balance and the length of its data.
#[derive(Clone, Copy, Debug)]
pub struct AccountInfo {
    pub key: Pubkey,
    pub is_signer: bool,
    pub is_writable: bool,
    pub lamports: u64,
    pub data_len: usize,
}

/// The role an instruction declares for one position of its account list.
#[derive(Clone, Copy, Debug, PartialEq, Eq, Structural)]
pub struct Role {
    pub is_signer: bool,
    pub is_writable: bool,
}

/// A declared role, as a pair (signer, writable).
pub open spec fn role_view(r: Role) -> (bool, bool) {
    (r.is_signer, r.is_writable)
}

/// The views of a role table, in order.
pub open spec fn roles_view(s: Seq<Role>) -> Seq<(bool, bool)> {
    s.map_values(|r: Role| role_view(r))
}

/// An account fills a role when both of its flags equal the role's.
pub open spec fn fills_role(a: AccountInfo, r: Role) -> bool {
    a.is_signer == r.is_signer && a.is_writable == r.is_writable
}

/// Each of the first `n` accounts fills the role at its position.
pub open spec fn prefix_fills(accounts: Seq<AccountInfo>, roles: Seq<Role>, n: int) -> bool {
    forall|j: int| 0 <= j < n ==> fills_role(#[trigger] accounts[j], roles[j])
}

/// The outcome of binding an ordered account list to an ordered role table.
/// Roles are consumed in order: the first position where an account's flags
/// differ from its role is a role mismatch; running out of accounts before
/// the last role is a missing account; accounts left after the last role are
/// too many.
pub open spec fn role_check(accounts: Seq<AccountInfo>, roles: Seq<Role>) -> Result<(), LidoError> {
    let n = if accounts.len() < roles.len() { accounts.len() } else { roles.len() };
    if !prefix_fills(accounts, roles, n as int) {
        Err(LidoError::InvalidAccountInfo)
    } else if accounts.len() < roles.len() {
        Err(LidoError::NotEnoughAccountKeys)
    } else if accounts.len() > roles.len() {
        Err(LidoError::TooManyAccountKeys)
    } else {
        Ok(())
    }
}

/// Checks an ordered account list against an ordered role table.
pub fn check_accounts(accounts: &[AccountInfo], roles: &[Role]) -> (r: Result<(), LidoError>)
    ensures
        r == role_check(accounts@, roles@),
{
    let mut i: usize = 0;
    while i < roles.len()
        invariant
            i <= roles@.len(),
            i <= accounts@.len(),
            prefix_fills(accounts@, roles@, i as int),
        decreases roles@.len() - i,
    {
        if i >= accounts.len() {
            return Err(LidoError::NotEnoughAccountKeys);
        }
        let a = accounts[i];
        let role = roles[i];
        if a.is_signer != role.is_signer || a.is_writable != role.is_writable {
            assert(!fills_role(accounts@[i as int], roles@[i as int]));
            return Err(LidoError::InvalidAccountInfo);
        }
        i += 1;
    }
    if accounts.len() > roles.len() {
        return Err(LidoError::TooManyAccountKeys);
    }
    Ok(())
}

/// Builds a role from its two flags.
pub fn role(is_signer: bool, is_writable: bool) -> (r: Role)
    ensures
        role_view(r) == (is_signer, is_writable),
{
    Role { is_signer, is_writable }
}

/// Roles of Initialize: state account, stake pool, manager, mint, pool token
/// holder, fee token account, insurance, treasury and manager fee accounts,
/// reserve, rent sysvar, token program.
pub open spec fn initialize_roles() -> Seq<(bool, bool)> {
    seq![
        (true, true), (true, false), (true, false), (true, false), (false, false), (false, false),
        (false, false), (false, false), (false, false), (false, false), (false, false), (false, false),
    ]
}

/// Roles of Deposit: state account, stake pool, pool token holder, manager,
/// depositor, recipient, mint, token program, reserve, system program.
pub open spec fn deposit_roles() -> Seq<(bool, bool)> {
    seq![
        (false, true), (false, false), (false, false), (false, false), (true, true), (false, true),
        (false, true), (false, false), (false, true), (false, false),
    ]
}

/// Roles of DelegateDeposit: state account, validator, reserve, stake record,
/// deposit authority, clock, system program, rent, stake program, stake
/// history, stake config.
pub open spec fn delegate_deposit_roles() -> Seq<(bool, bool)> {
    seq![
        (false, true), (false, true), (false, true), (false, true), (false, true), (false, false),
        (false, false), (false, false), (false, false), (false, false), (false, false),
    ]
}

/// Roles of StakePoolDelegate: maintainer, state account, validator, stake
/// record, deposit authority, pool token holder, stake pool program, stake
/// pool, validator list, pool withdraw authority, validator stake account,
/// pool mint, clock, stake history, system program, rent, token program,
/// stake program.
pub open spec fn stake_pool_delegate_roles() -> Seq<(bool, bool)> {
    seq![
        (true, false), (false, true), (false, true), (false, true), (false, true), (false, true),
        (false, false), (false, true), (false, true), (false, false), (false, true), (false, true),
        (false, false), (false, false), (false, false), (false, false), (false, false), (false, false),
    ]
}

pub fn initialize_role_table() -> (r: Vec<Role>)
    ensures
        roles_view(r@) == initialize_roles(),
{
    let r = vec![
        role(true, true), role(true, false), role(true, false), role(true, false),
        role(false, false), role(false, false), role(false, false), role(false, false),
        role(false, false), role(false, false), role(false, false), role(false, false),
    ];
    assert(roles_view(r@) =~= initialize_roles());
    r
}

pub fn deposit_role_table() -> (r: Vec<Role>)
    ensures
        roles_view(r@) == deposit_roles(),
{
    let r = vec![
        role(false, true), role(false, false), role(false, false), role(false, false),
        role(true, true), role(false, true), role(false, true), role(false, false),
        role(false, true), role(false, false),
    ];
    assert(roles_view(r@) =~= deposit_roles());
    r
}

pub fn delegate_deposit_role_table() -> (r: Vec<Role>)
    ensures
        roles_view(r@) == delegate_deposit_roles(),
{
    let r = vec![
        role(false, true), role(false, true), role(false, true), role(false, true),
        role(false, true), role(false, false), role(false, false), role(false, false),
        role(false, false), role(false, false), role(false, false),
    ];
    assert(roles_view(r@) =~= delegate_deposit_roles());
    r
}

pub fn stake_pool_delegate_role_table() -> (r: Vec<Role>)
    ensures
        roles_view(r@) == stake_pool_delegate_roles(),
{
    let r = vec![
        role(true, false), role(false, true), role(false, true), role(false, true),
        role(false, true), role(false, true), role(false, false), role(false, true),
        role(false, true), role(false, false), role(false, true), role(false, true),
        role(false, false), role(false, false), role(false, false), role(false, false),
        role(false, false), role(false, false),
    ];
    assert(roles_view(r@) =~= stake_pool_delegate_roles());
    r
}

/// The role check rejects every account list in which some account, at a
/// position that has a declared role, differs from that role in its signer
/// or writable flag, and every list longer than the role table.
pub proof fn lemma_role_check_rejects(accounts: Seq<AccountInfo>, roles: Seq<Role>, n: int)
    requires
        (0 <= n < accounts.len() && n < roles.len() && !fills_role(accounts[n], roles[n]))
            || accounts.len() > roles.len(),
    ensures
        role_check(accounts, roles) is Err,
        0 <= n < accounts.len() && n < roles.len() && !fills_role(accounts[n], roles[n])
            ==> role_check(accounts, roles) == Err::<(), LidoError>(LidoError::InvalidAccountInfo),
{
    let m = if accounts.len() < roles.len() { accounts.len() } else { roles.len() };
    if 0 <= n < accounts.len() && n < roles.len() && !fills_role(accounts[n], roles[n]) {
        assert(!prefix_fills(accounts, roles, m as int));
    }
}

} // verus!
