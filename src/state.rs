use vstd::prelude::*;

use crate::authority::{authority_seeds, program_address, AuthorityRole};
use crate::key::Pubkey;

verus! {

/// Bytes of the fixed part of the serialized state record: the initialized
/// flag, five addresses, four bumps, the share counter, the four fee weights
/// and three fee recipient addresses.
pub const LIDO_CONSTANT_SIZE: u64 = 285;

/// Bytes of the validator list header: its maximum and its length.
pub const VALIDATOR_LIST_HEADER: u64 = 8;

/// Bytes of one validator entry: an address and a token amount.
pub const VALIDATOR_ENTRY_SIZE: u64 = 40;

/// How the program's fees are split among insurance, treasury, validators
/// and manager, as relative weights.
#[derive(Clone, Copy, Debug, PartialEq, Eq, Structural)]
pub struct FeeDistribution {
    pub insurance_fee: u32,
    pub treasury_fee: u32,
    pub validation_fee: u32,
    pub manager_fee: u32,
}

/// The accounts that receive the program's fees, and the validator list's
/// capacity.
#[derive(Clone, Copy, Debug)]
pub struct FeeRecipients {
    pub insurance_account: Pubkey,
    pub treasury_account: Pubkey,
    pub manager_account: Pubkey,
    pub max_validators: u32,
}

/// The persistent record of one instance of the program.
#[derive(Debug)]
pub struct Lido {
    pub is_initialized: bool,
    pub manager: Pubkey,
    pub stake_pool_account: Pubkey,
    pub st_sol_mint_program: Pubkey,
    pub stake_pool_token_holder: Pubkey,
    pub token_program_id: Pubkey,
    pub sol_reserve_authority_bump_seed: u8,
    pub deposit_authority_bump_seed: u8,
    pub stake_pool_authority_bump_seed: u8,
    pub fee_manager_bump_seed: u8,
    pub st_sol_total_shares: u64,
    pub fee_distribution: FeeDistribution,
    pub fee_recipients: FeeRecipients,
    pub maintainers: Vec<Pubkey>,
}

/// The views of a list of addresses.
pub open spec fn keys_of(s: Seq<Pubkey>) -> Seq<Seq<u8>> {
    s.map_values(|k: Pubkey| k@)
}

impl Lido {
    /// The stored bump of a role's authority.
    pub open spec fn bump_of(&self, role: AuthorityRole) -> u8 {
        match role {
            AuthorityRole::Reserve => self.sol_reserve_authority_bump_seed,
            AuthorityRole::Deposit => self.deposit_authority_bump_seed,
            AuthorityRole::FeeManager => self.fee_manager_bump_seed,
            AuthorityRole::StakePool => self.stake_pool_authority_bump_seed,
        }
    }

    /// Every stored bump is the one that the derivation of its role's
    /// authority, from the state account's address, finds.
    pub open spec fn authorities_valid(&self, state: Seq<u8>, program_id: Seq<u8>) -> bool {
        forall|role: AuthorityRole|
            #[trigger] program_address(authority_seeds(state, role), program_id) matches Some(p)
                && p.1 == self.bump_of(role)
    }

    /// Whether an address is among the designated maintainers.
    pub fn check_maintainer(&self, key: &Pubkey) -> (r: bool)
        ensures
            r == keys_of(self.maintainers@).contains(key@),
    {
        let mut i: usize = 0;
        while i < self.maintainers.len()
            invariant
                i <= self.maintainers@.len(),
                forall|j: int| 0 <= j < i ==> self.maintainers@[j]@ != key@,
            decreases self.maintainers@.len() - i,
        {
            if self.maintainers[i].key_eq(key) {
                assert(keys_of(self.maintainers@)[i as int] == key@);
                return true;
            }
            i += 1;
        }
        assert forall|j: int| 0 <= j < keys_of(self.maintainers@).len() implies keys_of(
            self.maintainers@,
        )[j] != key@ by {}
        false
    }
}

/// What the processor reads of a token account: its mint and its owner.
#[derive(Clone, Copy, Debug)]
pub struct TokenAccount {
    pub mint: Pubkey,
    pub owner: Pubkey,
}

/// What the processor reads of the pooled-stake program's state.
#[derive(Clone, Copy, Debug)]
pub struct StakePool {
    pub is_initialized: bool,
    pub pool_mint: Pubkey,
    pub staker: Pubkey,
    pub manager_fee_account: Pubkey,
}

/// Bytes that the maintainer list of the given capacity takes: a length,
/// then one address per maintainer.
pub open spec fn maintainer_bytes(max_maintainers: u32) -> int {
    4 + 32 * max_maintainers
}

/// How many validator entries fit in the given number of bytes.
pub open spec fn validators_fitting(bytes: int) -> int {
    if bytes < VALIDATOR_LIST_HEADER {
        0
    } else {
        (bytes - VALIDATOR_LIST_HEADER) / (VALIDATOR_ENTRY_SIZE as int)
    }
}

/// Bytes that the maintainer list of the given capacity takes.
pub fn maintainers_required_bytes(max_maintainers: u32) -> (r: u64)
    ensures
        r == maintainer_bytes(max_maintainers),
{
    4 + 32 * (max_maintainers as u64)
}

/// How many validator entries fit in the given number of bytes.
pub fn maximum_validator_accounts(bytes: u64) -> (r: u64)
    ensures
        r == validators_fitting(bytes as int),
{
    if bytes < VALIDATOR_LIST_HEADER {
        0
    } else {
        (bytes - VALIDATOR_LIST_HEADER) / VALIDATOR_ENTRY_SIZE
    }
}

} // verus!
