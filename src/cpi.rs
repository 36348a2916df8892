use vstd::prelude::*;

use crate::ids::{
    clock_sysvar_address, rent_sysvar_address, stake_config_address, stake_history_sysvar_address,
    stake_program_address, system_program_address, token_program_address,
};
use crate::instruction::{flags_view, keys_view, u64_le};
use crate::key::{AccountMeta, Instruction, Pubkey};

verus! {

/// A system Transfer of `lamports` from `from` (signer) to `to`.
pub open spec fn is_transfer(ix: Instruction, from: Seq<u8>, to: Seq<u8>, lamports: u64) -> bool {
    &&& ix.program_id@ == system_program_address()
    &&& keys_view(ix.accounts@) == seq![from, to]
    &&& flags_view(ix.accounts@) == seq![(true, true), (false, true)]
    &&& ix.data@ == seq![2u8, 0u8, 0u8, 0u8] + u64_le(lamports)
}

/// A system CreateAccount of `to`, funded by `from`, of the given size and owner.
pub open spec fn is_create_account(ix: Instruction, from: Seq<u8>, to: Seq<u8>, lamports: u64, space: u64, owner: Seq<u8>) -> bool {
    &&& ix.program_id@ == system_program_address()
    &&& keys_view(ix.accounts@) == seq![from, to]
    &&& flags_view(ix.accounts@) == seq![(true, true), (true, true)]
    &&& ix.data@ == seq![0u8, 0u8, 0u8, 0u8] + u64_le(lamports) + u64_le(space) + owner
}

/// A stake Initialize of `stake` with `authority` as staker and withdrawer
/// and no lockup.
pub open spec fn is_stake_initialize(ix: Instruction, stake: Seq<u8>, authority: Seq<u8>) -> bool {
    &&& ix.program_id@ == stake_program_address()
    &&& keys_view(ix.accounts@) == seq![stake, rent_sysvar_address()]
    &&& flags_view(ix.accounts@) == seq![(false, true), (false, false)]
    &&& ix.data@ == seq![0u8, 0u8, 0u8, 0u8] + authority + authority + Seq::new(48, |i: int| 0u8)
}

/// A stake DelegateStake of `stake` to `vote`, signed by `authority`.
pub open spec fn is_stake_delegate(ix: Instruction, stake: Seq<u8>, authority: Seq<u8>, vote: Seq<u8>) -> bool {
    &&& ix.program_id@ == stake_program_address()
    &&& keys_view(ix.accounts@) == seq![
        stake, vote, clock_sysvar_address(), stake_history_sysvar_address(), stake_config_address(), authority,
    ]
    &&& flags_view(ix.accounts@) == seq![
        (false, true), (false, false), (false, false), (false, false), (false, false), (true, false),
    ]
    &&& ix.data@ == seq![2u8, 0u8, 0u8, 0u8]
}

/// A token MintTo of `amount` from `mint` to `to`, signed by `authority`.
pub open spec fn is_mint_to(ix: Instruction, token_program: Seq<u8>, mint: Seq<u8>, to: Seq<u8>, authority: Seq<u8>, amount: u64) -> bool {
    &&& ix.program_id@ == token_program
    &&& keys_view(ix.accounts@) == seq![mint, to, authority]
    &&& flags_view(ix.accounts@) == seq![(false, true), (false, true), (true, false)]
    &&& ix.data@ == seq![7u8] + u64_le(amount)
}

/// Relies on `StakeStateV2::size_of` of solana-stake-interface: a stake
/// record takes 200 bytes.
#[verifier::external_body]
pub(crate) fn stake_record_size() -> (r: u64)
    ensures
        r == 200,
{
    solana_stake_interface::state::StakeStateV2::size_of() as u64
}

/// Relies on `solana_system_interface::instruction::transfer`: the system
/// program's Transfer (variant two, a four-byte little-endian tag, then the
/// amount), from a writable signer to a writable account.
#[verifier::external_body]
pub(crate) fn system_transfer(from: &Pubkey, to: &Pubkey, lamports: u64) -> (r: Instruction)
    ensures
        is_transfer(r, from@, to@, lamports),
{
    let ix = solana_system_interface::instruction::transfer(&from.bytes.into(), &to.bytes.into(), lamports);
    Instruction {
        program_id: Pubkey { bytes: ix.program_id.to_bytes() },
        accounts: ix.accounts.iter().map(|m| AccountMeta {
            pubkey: Pubkey { bytes: m.pubkey.to_bytes() },
            is_signer: m.is_signer,
            is_writable: m.is_writable,
        }).collect(),
        data: ix.data,
    }
}

/// Relies on `solana_system_interface::instruction::create_account`: the
/// system program's CreateAccount (variant zero, a four-byte tag, then the
/// amount, the space and the owner), both accounts writable signers.
#[verifier::external_body]
pub(crate) fn system_create_account(from: &Pubkey, to: &Pubkey, lamports: u64, space: u64, owner: &Pubkey) -> (r: Instruction)
    ensures
        is_create_account(r, from@, to@, lamports, space, owner@),
{
    let ix = solana_system_interface::instruction::create_account(
        &from.bytes.into(), &to.bytes.into(), lamports, space, &owner.bytes.into(),
    );
    Instruction {
        program_id: Pubkey { bytes: ix.program_id.to_bytes() },
        accounts: ix.accounts.iter().map(|m| AccountMeta {
            pubkey: Pubkey { bytes: m.pubkey.to_bytes() },
            is_signer: m.is_signer,
            is_writable: m.is_writable,
        }).collect(),
        data: ix.data,
    }
}

/// Relies on `solana_stake_interface::instruction::initialize` with an
/// authority that is both staker and withdrawer and the default (empty)
/// lockup: variant zero, a four-byte tag, the two authorities, then 48 zero
/// bytes of lockup.
#[verifier::external_body]
pub(crate) fn stake_initialize(stake: &Pubkey, authority: &Pubkey) -> (r: Instruction)
    ensures
        is_stake_initialize(r, stake@, authority@),
{
    let a = authority.bytes.into();
    let auth = solana_stake_interface::state::Authorized { staker: a, withdrawer: a };
    let ix = solana_stake_interface::instruction::initialize(&stake.bytes.into(), &auth, &Default::default());
    Instruction {
        program_id: Pubkey { bytes: ix.program_id.to_bytes() },
        accounts: ix.accounts.iter().map(|m| AccountMeta {
            pubkey: Pubkey { bytes: m.pubkey.to_bytes() },
            is_signer: m.is_signer,
            is_writable: m.is_writable,
        }).collect(),
        data: ix.data,
    }
}

/// Relies on `solana_stake_interface::instruction::delegate_stake`: variant
/// two, a four-byte tag; the stake record, the vote account, the clock, the
/// stake history, the stake config, and the authority as the only signer.
#[verifier::external_body]
pub(crate) fn stake_delegate(stake: &Pubkey, authority: &Pubkey, vote: &Pubkey) -> (r: Instruction)
    ensures
        is_stake_delegate(r, stake@, authority@, vote@),
{
    let ix = solana_stake_interface::instruction::delegate_stake(
        &stake.bytes.into(), &authority.bytes.into(), &vote.bytes.into(),
    );
    Instruction {
        program_id: Pubkey { bytes: ix.program_id.to_bytes() },
        accounts: ix.accounts.iter().map(|m| AccountMeta {
            pubkey: Pubkey { bytes: m.pubkey.to_bytes() },
            is_signer: m.is_signer,
            is_writable: m.is_writable,
        }).collect(),
        data: ix.data,
    }
}

/// Relies on `spl_token::instruction::mint_to` with no multisignature
/// signers: it refuses any token program but the token program's own
/// address; else tag seven and the amount, the mint and destination
/// writable, the single authority a read-only signer.
#[verifier::external_body]
pub(crate) fn token_mint_to(token_program: &Pubkey, mint: &Pubkey, to: &Pubkey, authority: &Pubkey, amount: u64) -> (r: Option<Instruction>)
    ensures
        r is Some <==> token_program@ == token_program_address(),
        r matches Some(ix) ==> is_mint_to(ix, token_program@, mint@, to@, authority@, amount),
{
    let (p, m, t, a) = (token_program.bytes.into(), mint.bytes.into(), to.bytes.into(), authority.bytes.into());
    spl_token::instruction::mint_to(&p, &m, &t, &a, &[], amount).ok().map(|ix| Instruction {
        program_id: Pubkey { bytes: ix.program_id.to_bytes() },
        accounts: ix.accounts.iter().map(|m| AccountMeta {
            pubkey: Pubkey { bytes: m.pubkey.to_bytes() },
            is_signer: m.is_signer,
            is_writable: m.is_writable,
        }).collect(),
        data: ix.data,
    })
}

} // verus!
