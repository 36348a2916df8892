use vstd::prelude::*;

use crate::error::LidoError;
use crate::key::Pubkey;

verus! {

/// The roles for which the program derives a keyless authority from the
/// address of its state account.
#[derive(Clone, Copy, Debug, PartialEq, Eq, Structural)]
pub enum AuthorityRole {
    /// Holds the native reserve and signs token mints.
    Reserve,
    /// Stakes and withdraws the program's stake records.
    Deposit,
    /// Owns the token account that collects the pool's fees.
    FeeManager,
    /// Is the staker of the pooled-stake program and owns its pool tokens.
    StakePool,
}

/// The fixed seed of each authority role.
pub open spec fn role_seed(role: AuthorityRole) -> Seq<u8> {
    match role {
        AuthorityRole::Reserve => seq![114u8, 101u8, 115u8, 101u8, 114u8, 118u8, 101u8, 95u8, 97u8, 117u8, 116u8, 104u8, 111u8, 114u8, 105u8, 116u8, 121u8],
        AuthorityRole::Deposit => seq![100u8, 101u8, 112u8, 111u8, 115u8, 105u8, 116u8, 95u8, 97u8, 117u8, 116u8, 104u8, 111u8, 114u8, 105u8, 116u8, 121u8],
        AuthorityRole::FeeManager => seq![102u8, 101u8, 101u8, 95u8, 109u8, 97u8, 110u8, 97u8, 103u8, 101u8, 114u8, 95u8, 97u8, 117u8, 116u8, 104u8, 111u8, 114u8, 105u8, 116u8, 121u8],
        AuthorityRole::StakePool => seq![115u8, 116u8, 97u8, 107u8, 101u8, 95u8, 112u8, 111u8, 111u8, 108u8, 95u8, 97u8, 117u8, 116u8, 104u8, 111u8, 114u8, 105u8, 116u8, 121u8],
    }
}

impl AuthorityRole {
    /// The fixed seed of this role.
    pub fn seed(&self) -> (r: Vec<u8>)
        ensures
            r@ == role_seed(*self),
    {
        let r = match *self {
            AuthorityRole::Reserve => vec![114u8, 101u8, 115u8, 101u8, 114u8, 118u8, 101u8, 95u8, 97u8, 117u8, 116u8, 104u8, 111u8, 114u8, 105u8, 116u8, 121u8],
            AuthorityRole::Deposit => vec![100u8, 101u8, 112u8, 111u8, 115u8, 105u8, 116u8, 95u8, 97u8, 117u8, 116u8, 104u8, 111u8, 114u8, 105u8, 116u8, 121u8],
            AuthorityRole::FeeManager => vec![102u8, 101u8, 101u8, 95u8, 109u8, 97u8, 110u8, 97u8, 103u8, 101u8, 114u8, 95u8, 97u8, 117u8, 116u8, 104u8, 111u8, 114u8, 105u8, 116u8, 121u8],
            AuthorityRole::StakePool => vec![115u8, 116u8, 97u8, 107u8, 101u8, 95u8, 112u8, 111u8, 111u8, 108u8, 95u8, 97u8, 117u8, 116u8, 104u8, 111u8, 114u8, 105u8, 116u8, 121u8],
        };
        assert(r@ =~= role_seed(*self));
        r
    }
}

/// The views of a list of seeds.
pub open spec fn seeds_view(seeds: Seq<Vec<u8>>) -> Seq<Seq<u8>> {
    seeds.map_values(|s: Vec<u8>| s@)
}

/// The program address found for some seeds under a program, with its bump:
/// the first bump, counting down from the highest, for which the hash of the
/// seeds, the bump and the program lands off the curve.
pub uninterp spec fn program_address(seeds: Seq<Seq<u8>>, program_id: Seq<u8>) -> Option<(Seq<u8>, u8)>;

/// Relies on `Pubkey::try_find_program_address` of the address crate: its
/// result depends on the seeds and the program alone; it is `None` where no
/// bump gives an address off the curve or where the seeds are too many.
#[verifier::external_body]
fn try_find_program_address(seeds: &Vec<Vec<u8>>, program_id: &Pubkey) -> (r: Option<(Pubkey, u8)>)
    ensures
        r is None <==> program_address(seeds_view(seeds@), program_id@) is None,
        r matches Some(p) ==> program_address(seeds_view(seeds@), program_id@) == Some((p.0@, p.1)),
{
    let refs: Vec<&[u8]> = seeds.iter().map(|s| s.as_slice()).collect();
    let pid = solana_program::pubkey::Pubkey::new_from_array(program_id.bytes);
    match solana_program::pubkey::Pubkey::try_find_program_address(&refs, &pid) {
        Some((address, bump)) => Some((Pubkey { bytes: address.to_bytes() }, bump)),
        None => None,
    }
}

/// Finds the program address and bump for the given seeds; exhausting the
/// bump search is a calculation failure.
pub fn find_program_address(seeds: &Vec<Vec<u8>>, program_id: &Pubkey) -> (r: Result<(Pubkey, u8), LidoError>)
    ensures
        program_address(seeds_view(seeds@), program_id@) is None ==> r == Err::<(Pubkey, u8), LidoError>(LidoError::CalculationFailure),
        program_address(seeds_view(seeds@), program_id@) matches Some(p) ==> (r matches Ok(q) && q.0@ == p.0 && q.1 == p.1),
{
    match try_find_program_address(seeds, program_id) {
        Some(p) => Ok(p),
        None => Err(LidoError::CalculationFailure),
    }
}

/// The seeds of a role's authority: the state account's address, then the
/// role's seed.
pub open spec fn authority_seeds(state: Seq<u8>, role: AuthorityRole) -> Seq<Seq<u8>> {
    seq![state, role_seed(role)]
}

/// The seeds of a validator's stake record: the validator's address alone.
pub open spec fn stake_seeds(validator: Seq<u8>) -> Seq<Seq<u8>> {
    seq![validator]
}

/// Derives the address and bump of a role's authority for a state account.
pub fn find_authority(state: &Pubkey, role: AuthorityRole, program_id: &Pubkey) -> (r: Result<(Pubkey, u8), LidoError>)
    ensures
        program_address(authority_seeds(state@, role), program_id@) is None ==> r == Err::<(Pubkey, u8), LidoError>(LidoError::CalculationFailure),
        program_address(authority_seeds(state@, role), program_id@) matches Some(p) ==> (r matches Ok(q) && q.0@ == p.0 && q.1 == p.1),
{
    let mut seeds: Vec<Vec<u8>> = Vec::new();
    seeds.push(state.to_vec());
    seeds.push(role.seed());
    assert(seeds_view(seeds@) =~= authority_seeds(state@, role));
    find_program_address(&seeds, program_id)
}

/// Derives the address and bump of the stake record for a validator.
pub fn find_stake_address(validator: &Pubkey, program_id: &Pubkey) -> (r: Result<(Pubkey, u8), LidoError>)
    ensures
        program_address(stake_seeds(validator@), program_id@) is None ==> r == Err::<(Pubkey, u8), LidoError>(LidoError::CalculationFailure),
        program_address(stake_seeds(validator@), program_id@) matches Some(p) ==> (r matches Ok(q) && q.0@ == p.0 && q.1 == p.1),
{
    let mut seeds: Vec<Vec<u8>> = Vec::new();
    seeds.push(validator.to_vec());
    assert(seeds_view(seeds@) =~= stake_seeds(validator@));
    find_program_address(&seeds, program_id)
}

/// The seeds with which the program signs for a role's authority: the
/// derivation's seeds followed by the stored bump.
pub open spec fn authority_signer_seeds(state: Seq<u8>, role: AuthorityRole, bump: u8) -> Seq<Seq<u8>> {
    authority_seeds(state, role).push(seq![bump])
}

/// The seeds with which the program signs for a validator's stake record.
pub open spec fn stake_signer_seeds(validator: Seq<u8>, bump: u8) -> Seq<Seq<u8>> {
    stake_seeds(validator).push(seq![bump])
}

/// Builds the signer seeds of a role's authority.
pub fn authority_signer(state: &Pubkey, role: AuthorityRole, bump: u8) -> (r: Vec<Vec<u8>>)
    ensures
        seeds_view(r@) == authority_signer_seeds(state@, role, bump),
{
    let mut seeds: Vec<Vec<u8>> = Vec::new();
    seeds.push(state.to_vec());
    seeds.push(role.seed());
    let mut b: Vec<u8> = Vec::new();
    b.push(bump);
    assert(b@ =~= seq![bump]);
    seeds.push(b);
    assert(seeds_view(seeds@) =~= authority_signer_seeds(state@, role, bump));
    seeds
}

/// Builds the signer seeds of a validator's stake record.
pub fn stake_signer(validator: &Pubkey, bump: u8) -> (r: Vec<Vec<u8>>)
    ensures
        seeds_view(r@) == stake_signer_seeds(validator@, bump),
{
    let mut seeds: Vec<Vec<u8>> = Vec::new();
    seeds.push(validator.to_vec());
    let mut b: Vec<u8> = Vec::new();
    b.push(bump);
    assert(b@ =~= seq![bump]);
    seeds.push(b);
    assert(seeds_view(seeds@) =~= stake_signer_seeds(validator@, bump));
    seeds
}

} // verus!
