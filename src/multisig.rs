use vstd::prelude::*;

use crate::authority::{find_program_address, program_address, seeds_view};
use crate::error::LidoError;
use crate::key::{AccountMeta, Pubkey};

verus! {

/// The signer address of a multisig account under the multisig program:
/// the program address derived from the multisig's address alone.
pub fn get_multisig_program_address(program_id: &Pubkey, multisig: &Pubkey) -> (r: Result<(Pubkey, u8), LidoError>)
    ensures
        program_address(seq![multisig@], program_id@) is None ==> r == Err::<(Pubkey, u8), LidoError>(LidoError::CalculationFailure),
        program_address(seq![multisig@], program_id@) matches Some(p) ==> (r matches Ok(q) && q.0@ == p.0 && q.1 == p.1),
{
    let mut seeds: Vec<Vec<u8>> = Vec::new();
    seeds.push(multisig.to_vec());
    assert(seeds_view(seeds@) =~= seq![multisig@]);
    find_program_address(&seeds, program_id)
}

/// The accounts of a transaction that a multisig executes, and the program it
/// calls.
pub struct TransactionAccounts {
    pub accounts: Vec<AccountMeta>,
    pub program_id: Pubkey,
}

impl TransactionAccounts {
    /// The account list of the outer instruction that executes the
    /// transaction: each inner account with its signer flag cleared (the
    /// multisig signs for them), then the called program, read-only.
    pub fn to_account_metas(&self) -> (r: Vec<AccountMeta>)
        ensures
            r@.len() == self.accounts@.len() + 1,
            forall|i: int|
                0 <= i < self.accounts@.len() ==> r@[i].pubkey@ == self.accounts@[i].pubkey@
                    && !r@[i].is_signer && r@[i].is_writable == self.accounts@[i].is_writable,
            r@.last().pubkey@ == self.program_id@,
            !r@.last().is_signer,
            !r@.last().is_writable,
    {
        let mut out: Vec<AccountMeta> = Vec::new();
        let mut i: usize = 0;
        while i < self.accounts.len()
            invariant
                i <= self.accounts@.len(),
                out@.len() == i,
                forall|j: int|
                    0 <= j < i ==> out@[j].pubkey@ == self.accounts@[j].pubkey@ && !out@[j].is_signer
                        && out@[j].is_writable == self.accounts@[j].is_writable,
            decreases self.accounts@.len() - i,
        {
            let a = self.accounts[i];
            out.push(AccountMeta { pubkey: a.pubkey, is_signer: false, is_writable: a.is_writable });
            i += 1;
        }
        out.push(AccountMeta::new_readonly(self.program_id, false));
        out
    }
}

/// Why a multisig cannot be created with the requested threshold.
#[derive(Clone, Copy, Debug, PartialEq, Eq, Structural)]
pub enum ThresholdError {
    /// More approvals are required than there are owners.
    AboveOwnerCount,
    /// A threshold of zero would let anyone execute.
    Zero,
}

/// Checks a multisig's approval threshold against its owner count: it must
/// be at least one and at most the number of owners.
pub fn check_threshold(threshold: u64, owner_count: usize) -> (r: Result<(), ThresholdError>)
    ensures
        threshold > owner_count ==> r == Err::<(), ThresholdError>(ThresholdError::AboveOwnerCount),
        threshold <= owner_count && threshold == 0 ==> r == Err::<(), ThresholdError>(ThresholdError::Zero),
        1 <= threshold <= owner_count ==> r == Ok::<(), ThresholdError>(()),
{
    if threshold > owner_count as u64 {
        return Err(ThresholdError::AboveOwnerCount);
    }
    if threshold == 0 {
        return Err(ThresholdError::Zero);
    }
    Ok(())
}

} // verus!
