use vstd::prelude::*;

use crate::accounts::{
    delegate_deposit_roles, deposit_roles, initialize_roles, stake_pool_delegate_roles,
};
use crate::error::LidoError;
use crate::ids::{
    clock_sysvar_address, clock_sysvar_id, rent_sysvar_address, rent_sysvar_id,
    stake_config_address, stake_config_id, stake_history_sysvar_address, stake_history_sysvar_id,
    stake_program_address, stake_program_id, system_program_address, system_program_id,
    token_program_address, token_program_id,
};
use crate::key::{AccountMeta, Instruction, Pubkey};
use crate::state::FeeDistribution;
use crate::stake_pool::{pool_deposit_data, pool_initialize_data, pool_initialize_encoding, Fee};

verus! {

/// The instructions this program understands.
#[derive(Clone, Copy, Debug, PartialEq, Eq, Structural)]
pub enum LidoInstruction {
    /// Set up the program state, sized for the given validator and
    /// maintainer counts.
    Initialize { fee_distribution: FeeDistribution, max_validators: u32, max_maintainers: u32 },
    /// Deposit native units and receive issued tokens in exchange.
    Deposit { amount: u64 },
    /// Fund and delegate a stake record for a validator from the reserve.
    DelegateDeposit { amount: u64 },
    /// Move a delegated stake record into the pooled-stake program.
    StakePoolDelegate,
    /// Redeem issued tokens (performs nothing for now).
    Withdraw { amount: u64 },
    /// Distribute the collected fees (a management instruction).
    DistributeFees,
    /// Claim a validator's share of the fees (a management instruction).
    ClaimValidatorFees,
    /// Replace the fee distribution (a management instruction).
    ChangeFeeSpec { new_fee_distribution: FeeDistribution },
    /// Create a validator's stake account (a management instruction).
    CreateValidatorStakeAccount,
    /// Add a validator (a management instruction).
    AddValidator,
    /// Remove a validator (a management instruction).
    RemoveValidator,
}

impl LidoInstruction {
    /// The instructions that the validator and fee management handlers
    /// carry out, outside this processor.
    pub open spec fn is_management(&self) -> bool {
        match *self {
            LidoInstruction::DistributeFees | LidoInstruction::ClaimValidatorFees
            | LidoInstruction::ChangeFeeSpec { .. } | LidoInstruction::CreateValidatorStakeAccount
            | LidoInstruction::AddValidator | LidoInstruction::RemoveValidator => true,
            _ => false,
        }
    }
}

/// Little-endian bytes of a 32-bit integer.
pub open spec fn u32_le(x: u32) -> Seq<u8> {
    seq![x as u8, (x >> 8u32) as u8, (x >> 16u32) as u8, (x >> 24u32) as u8]
}

/// Little-endian bytes of a 64-bit integer.
pub open spec fn u64_le(x: u64) -> Seq<u8> {
    seq![
        x as u8, (x >> 8u64) as u8, (x >> 16u64) as u8, (x >> 24u64) as u8,
        (x >> 32u64) as u8, (x >> 40u64) as u8, (x >> 48u64) as u8, (x >> 56u64) as u8,
    ]
}

/// The 32-bit integer whose little-endian bytes start at `at`.
pub open spec fn read_u32_le(s: Seq<u8>, at: int) -> u32 {
    (s[at] as u32) | ((s[at + 1] as u32) << 8u32) | ((s[at + 2] as u32) << 16u32) | ((s[at
        + 3] as u32) << 24u32)
}

/// The 64-bit integer whose little-endian bytes start at `at`.
pub open spec fn read_u64_le(s: Seq<u8>, at: int) -> u64 {
    (s[at] as u64) | ((s[at + 1] as u64) << 8u64) | ((s[at + 2] as u64) << 16u64) | ((s[at
        + 3] as u64) << 24u64) | ((s[at + 4] as u64) << 32u64) | ((s[at + 5] as u64) << 40u64)
        | ((s[at + 6] as u64) << 48u64) | ((s[at + 7] as u64) << 56u64)
}

/// The wire form of a fee distribution: its four weights in order.
pub open spec fn fee_distribution_le(f: FeeDistribution) -> Seq<u8> {
    u32_le(f.insurance_fee) + u32_le(f.treasury_fee) + u32_le(f.validation_fee) + u32_le(
        f.manager_fee,
    )
}

/// The fee distribution whose wire form starts at `at`.
pub open spec fn read_fee_distribution(s: Seq<u8>, at: int) -> FeeDistribution {
    FeeDistribution {
        insurance_fee: read_u32_le(s, at),
        treasury_fee: read_u32_le(s, at + 4),
        validation_fee: read_u32_le(s, at + 8),
        manager_fee: read_u32_le(s, at + 12),
    }
}

/// The wire form of an instruction: a one-byte variant tag, then the
/// variant's fields in little-endian order.
pub open spec fn encoding(i: LidoInstruction) -> Seq<u8> {
    match i {
        LidoInstruction::Initialize { fee_distribution, max_validators, max_maintainers } => seq![0u8]
            + fee_distribution_le(fee_distribution) + u32_le(max_validators) + u32_le(max_maintainers),
        LidoInstruction::Deposit { amount } => seq![1u8] + u64_le(amount),
        LidoInstruction::DelegateDeposit { amount } => seq![2u8] + u64_le(amount),
        LidoInstruction::StakePoolDelegate => seq![3u8],
        LidoInstruction::Withdraw { amount } => seq![4u8] + u64_le(amount),
        LidoInstruction::DistributeFees => seq![5u8],
        LidoInstruction::ClaimValidatorFees => seq![6u8],
        LidoInstruction::ChangeFeeSpec { new_fee_distribution } => seq![7u8] + fee_distribution_le(
            new_fee_distribution,
        ),
        LidoInstruction::CreateValidatorStakeAccount => seq![8u8],
        LidoInstruction::AddValidator => seq![9u8],
        LidoInstruction::RemoveValidator => seq![10u8],
    }
}

/// The instruction that a byte string holds, if it is well formed: a known
/// tag followed by exactly the bytes of that variant's fields.
pub open spec fn decoding(s: Seq<u8>) -> Option<LidoInstruction> {
    if s.len() == 25 && s[0] == 0 {
        Some(
            LidoInstruction::Initialize {
                fee_distribution: read_fee_distribution(s, 1),
                max_validators: read_u32_le(s, 17),
                max_maintainers: read_u32_le(s, 21),
            },
        )
    } else if s.len() == 9 && s[0] == 1 {
        Some(LidoInstruction::Deposit { amount: read_u64_le(s, 1) })
    } else if s.len() == 9 && s[0] == 2 {
        Some(LidoInstruction::DelegateDeposit { amount: read_u64_le(s, 1) })
    } else if s.len() == 1 && s[0] == 3 {
        Some(LidoInstruction::StakePoolDelegate)
    } else if s.len() == 9 && s[0] == 4 {
        Some(LidoInstruction::Withdraw { amount: read_u64_le(s, 1) })
    } else if s.len() == 1 && s[0] == 5 {
        Some(LidoInstruction::DistributeFees)
    } else if s.len() == 1 && s[0] == 6 {
        Some(LidoInstruction::ClaimValidatorFees)
    } else if s.len() == 17 && s[0] == 7 {
        Some(LidoInstruction::ChangeFeeSpec { new_fee_distribution: read_fee_distribution(s, 1) })
    } else if s.len() == 1 && s[0] == 8 {
        Some(LidoInstruction::CreateValidatorStakeAccount)
    } else if s.len() == 1 && s[0] == 9 {
        Some(LidoInstruction::AddValidator)
    } else if s.len() == 1 && s[0] == 10 {
        Some(LidoInstruction::RemoveValidator)
    } else {
        None
    }
}

proof fn lemma_u32_bytes(x: u32)
    ensures
        ((x as u8) as u32) | ((((x >> 8u32) as u8) as u32) << 8u32) | ((((x >> 16u32) as u8)
            as u32) << 16u32) | ((((x >> 24u32) as u8) as u32) << 24u32) == x,
{
    assert(((x as u8) as u32) | ((((x >> 8u32) as u8) as u32) << 8u32) | ((((x >> 16u32) as u8)
        as u32) << 16u32) | ((((x >> 24u32) as u8) as u32) << 24u32) == x) by (bit_vector);
}

proof fn lemma_u64_bytes(x: u64)
    ensures
        ((x as u8) as u64) | ((((x >> 8u64) as u8) as u64) << 8u64) | ((((x >> 16u64) as u8)
            as u64) << 16u64) | ((((x >> 24u64) as u8) as u64) << 24u64) | ((((x >> 32u64)
            as u8) as u64) << 32u64) | ((((x >> 40u64) as u8) as u64) << 40u64) | ((((x
            >> 48u64) as u8) as u64) << 48u64) | ((((x >> 56u64) as u8) as u64) << 56u64) == x,
{
    assert(((x as u8) as u64) | ((((x >> 8u64) as u8) as u64) << 8u64) | ((((x >> 16u64) as u8)
        as u64) << 16u64) | ((((x >> 24u64) as u8) as u64) << 24u64) | ((((x >> 32u64) as u8)
        as u64) << 32u64) | ((((x >> 40u64) as u8) as u64) << 40u64) | ((((x >> 48u64) as u8)
        as u64) << 48u64) | ((((x >> 56u64) as u8) as u64) << 56u64) == x) by (bit_vector);
}

/// Decoding the wire form of any instruction gives back that instruction.
pub proof fn lemma_decode_encode(i: LidoInstruction)
    ensures
        decoding(encoding(i)) == Some(i),
{
    match i {
        LidoInstruction::Initialize { fee_distribution, max_validators, max_maintainers } => {
            lemma_u32_bytes(fee_distribution.insurance_fee);
            lemma_u32_bytes(fee_distribution.treasury_fee);
            lemma_u32_bytes(fee_distribution.validation_fee);
            lemma_u32_bytes(fee_distribution.manager_fee);
            lemma_u32_bytes(max_validators);
            lemma_u32_bytes(max_maintainers);
            let s = encoding(i);
            assert(s.len() == 25);
            assert(read_u32_le(s, 1) == fee_distribution.insurance_fee);
            assert(read_u32_le(s, 5) == fee_distribution.treasury_fee);
            assert(read_u32_le(s, 9) == fee_distribution.validation_fee);
            assert(read_u32_le(s, 13) == fee_distribution.manager_fee);
            assert(read_fee_distribution(s, 1) == fee_distribution);
            assert(read_u32_le(s, 17) == max_validators);
            assert(read_u32_le(s, 21) == max_maintainers);
        },
        LidoInstruction::Deposit { amount } => {
            lemma_u64_bytes(amount);
            assert(read_u64_le(encoding(i), 1) == amount);
        },
        LidoInstruction::DelegateDeposit { amount } => {
            lemma_u64_bytes(amount);
            assert(read_u64_le(encoding(i), 1) == amount);
        },
        LidoInstruction::StakePoolDelegate => {},
        LidoInstruction::Withdraw { amount } => {
            lemma_u64_bytes(amount);
            assert(read_u64_le(encoding(i), 1) == amount);
        },
        LidoInstruction::ChangeFeeSpec { new_fee_distribution: f } => {
            lemma_u32_bytes(f.insurance_fee);
            lemma_u32_bytes(f.treasury_fee);
            lemma_u32_bytes(f.validation_fee);
            lemma_u32_bytes(f.manager_fee);
            let s = encoding(i);
            assert(read_u32_le(s, 1) == f.insurance_fee);
            assert(read_u32_le(s, 5) == f.treasury_fee);
            assert(read_u32_le(s, 9) == f.validation_fee);
            assert(read_u32_le(s, 13) == f.manager_fee);
            assert(read_fee_distribution(s, 1) == f);
        },
        _ => {},
    }
}

fn push_u32_le(out: &mut Vec<u8>, x: u32)
    ensures
        final(out)@ == old(out)@ + u32_le(x),
{
    out.push(x as u8);
    out.push((x >> 8u32) as u8);
    out.push((x >> 16u32) as u8);
    out.push((x >> 24u32) as u8);
    assert(final(out)@ =~= old(out)@ + u32_le(x));
}

fn push_u64_le(out: &mut Vec<u8>, x: u64)
    ensures
        final(out)@ == old(out)@ + u64_le(x),
{
    out.push(x as u8);
    out.push((x >> 8u64) as u8);
    out.push((x >> 16u64) as u8);
    out.push((x >> 24u64) as u8);
    out.push((x >> 32u64) as u8);
    out.push((x >> 40u64) as u8);
    out.push((x >> 48u64) as u8);
    out.push((x >> 56u64) as u8);
    assert(final(out)@ =~= old(out)@ + u64_le(x));
}

fn get_u32_le(s: &[u8], at: usize) -> (r: u32)
    requires
        at + 4 <= s@.len(),
    ensures
        r == read_u32_le(s@, at as int),
{
    (s[at] as u32) | ((s[at + 1] as u32) << 8u32) | ((s[at + 2] as u32) << 16u32) | ((s[at
        + 3] as u32) << 24u32)
}

fn get_u64_le(s: &[u8], at: usize) -> (r: u64)
    requires
        at + 8 <= s@.len(),
    ensures
        r == read_u64_le(s@, at as int),
{
    (s[at] as u64) | ((s[at + 1] as u64) << 8u64) | ((s[at + 2] as u64) << 16u64) | ((s[at
        + 3] as u64) << 24u64) | ((s[at + 4] as u64) << 32u64) | ((s[at + 5] as u64) << 40u64)
        | ((s[at + 6] as u64) << 48u64) | ((s[at + 7] as u64) << 56u64)
}

impl LidoInstruction {
    /// The wire form of this instruction.
    pub fn try_to_vec(&self) -> (r: Vec<u8>)
        ensures
            r@ == encoding(*self),
    {
        let mut out: Vec<u8> = Vec::new();
        match *self {
            LidoInstruction::Initialize { fee_distribution, max_validators, max_maintainers } => {
                out.push(0u8);
                push_u32_le(&mut out, fee_distribution.insurance_fee);
                push_u32_le(&mut out, fee_distribution.treasury_fee);
                push_u32_le(&mut out, fee_distribution.validation_fee);
                push_u32_le(&mut out, fee_distribution.manager_fee);
                push_u32_le(&mut out, max_validators);
                push_u32_le(&mut out, max_maintainers);
            },
            LidoInstruction::Deposit { amount } => {
                out.push(1u8);
                push_u64_le(&mut out, amount);
            },
            LidoInstruction::DelegateDeposit { amount } => {
                out.push(2u8);
                push_u64_le(&mut out, amount);
            },
            LidoInstruction::StakePoolDelegate => {
                out.push(3u8);
            },
            LidoInstruction::Withdraw { amount } => {
                out.push(4u8);
                push_u64_le(&mut out, amount);
            },
            LidoInstruction::DistributeFees => {
                out.push(5u8);
            },
            LidoInstruction::ClaimValidatorFees => {
                out.push(6u8);
            },
            LidoInstruction::ChangeFeeSpec { new_fee_distribution } => {
                out.push(7u8);
                push_u32_le(&mut out, new_fee_distribution.insurance_fee);
                push_u32_le(&mut out, new_fee_distribution.treasury_fee);
                push_u32_le(&mut out, new_fee_distribution.validation_fee);
                push_u32_le(&mut out, new_fee_distribution.manager_fee);
            },
            LidoInstruction::CreateValidatorStakeAccount => {
                out.push(8u8);
            },
            LidoInstruction::AddValidator => {
                out.push(9u8);
            },
            LidoInstruction::RemoveValidator => {
                out.push(10u8);
            },
        }
        assert(out@ =~= encoding(*self));
        out
    }

    /// Reads an instruction from its wire form; fails on an unknown tag or
    /// on a payload of the wrong length.
    pub fn try_from_slice(data: &[u8]) -> (r: Result<LidoInstruction, LidoError>)
        ensures
            decoding(data@) is None ==> r == Err::<LidoInstruction, LidoError>(
                LidoError::InvalidInstructionData,
            ),
            decoding(data@) matches Some(i) ==> r == Ok::<LidoInstruction, LidoError>(i),
    {
        let n = data.len();
        if n == 25 && data[0] == 0 {
            Ok(
                LidoInstruction::Initialize {
                    fee_distribution: FeeDistribution {
                        insurance_fee: get_u32_le(data, 1),
                        treasury_fee: get_u32_le(data, 5),
                        validation_fee: get_u32_le(data, 9),
                        manager_fee: get_u32_le(data, 13),
                    },
                    max_validators: get_u32_le(data, 17),
                    max_maintainers: get_u32_le(data, 21),
                },
            )
        } else if n == 9 && data[0] == 1 {
            Ok(LidoInstruction::Deposit { amount: get_u64_le(data, 1) })
        } else if n == 9 && data[0] == 2 {
            Ok(LidoInstruction::DelegateDeposit { amount: get_u64_le(data, 1) })
        } else if n == 1 && data[0] == 3 {
            Ok(LidoInstruction::StakePoolDelegate)
        } else if n == 9 && data[0] == 4 {
            Ok(LidoInstruction::Withdraw { amount: get_u64_le(data, 1) })
        } else if n == 1 && data[0] == 5 {
            Ok(LidoInstruction::DistributeFees)
        } else if n == 1 && data[0] == 6 {
            Ok(LidoInstruction::ClaimValidatorFees)
        } else if n == 17 && data[0] == 7 {
            Ok(
                LidoInstruction::ChangeFeeSpec {
                    new_fee_distribution: FeeDistribution {
                        insurance_fee: get_u32_le(data, 1),
                        treasury_fee: get_u32_le(data, 5),
                        validation_fee: get_u32_le(data, 9),
                        manager_fee: get_u32_le(data, 13),
                    },
                },
            )
        } else if n == 1 && data[0] == 8 {
            Ok(LidoInstruction::CreateValidatorStakeAccount)
        } else if n == 1 && data[0] == 9 {
            Ok(LidoInstruction::AddValidator)
        } else if n == 1 && data[0] == 10 {
            Ok(LidoInstruction::RemoveValidator)
        } else {
            Err(LidoError::InvalidInstructionData)
        }
    }
}

/// The addresses of a list of account entries, in order.
pub open spec fn keys_view(s: Seq<AccountMeta>) -> Seq<Seq<u8>> {
    s.map_values(|m: AccountMeta| m.pubkey@)
}

/// The (signer, writable) flags of a list of account entries, in order.
pub open spec fn flags_view(s: Seq<AccountMeta>) -> Seq<(bool, bool)> {
    s.map_values(|m: AccountMeta| (m.is_signer, m.is_writable))
}

/// The addresses that an Initialize instruction names, in their order.
pub struct InitializeAccountsMeta {
    pub lido: Pubkey,
    pub stake_pool: Pubkey,
    pub manager: Pubkey,
    pub mint_program: Pubkey,
    pub pool_token_to: Pubkey,
    pub fee_token: Pubkey,
    pub insurance_account: Pubkey,
    pub treasury_account: Pubkey,
    pub manager_fee_account: Pubkey,
    pub reserve_account: Pubkey,
    pub sysvar_rent: Pubkey,
    pub spl_token: Pubkey,
}

impl InitializeAccountsMeta {
    /// The addresses in the order Initialize declares them.
    pub open spec fn keys(&self) -> Seq<Seq<u8>> {
        seq![
            self.lido@, self.stake_pool@, self.manager@, self.mint_program@,
            self.pool_token_to@, self.fee_token@, self.insurance_account@,
            self.treasury_account@, self.manager_fee_account@, self.reserve_account@,
            self.sysvar_rent@, self.spl_token@,
        ]
    }

    /// The account list of Initialize, each address with its declared role.
    pub fn to_vec(&self) -> (r: Vec<AccountMeta>)
        ensures
            keys_view(r@) == self.keys(),
            flags_view(r@) == initialize_roles(),
    {
        let r = vec![
            AccountMeta::new(self.lido, true),
            AccountMeta::new_readonly(self.stake_pool, true),
            AccountMeta::new_readonly(self.manager, true),
            AccountMeta::new_readonly(self.mint_program, true),
            AccountMeta::new_readonly(self.pool_token_to, false),
            AccountMeta::new_readonly(self.fee_token, false),
            AccountMeta::new_readonly(self.insurance_account, false),
            AccountMeta::new_readonly(self.treasury_account, false),
            AccountMeta::new_readonly(self.manager_fee_account, false),
            AccountMeta::new_readonly(self.reserve_account, false),
            AccountMeta::new_readonly(self.sysvar_rent, false),
            AccountMeta::new_readonly(self.spl_token, false),
        ];
        assert(keys_view(r@) =~= self.keys());
        assert(flags_view(r@) =~= initialize_roles());
        r
    }
}

/// Builds an Initialize instruction.
pub fn initialize(
    program_id: &Pubkey,
    accounts: &InitializeAccountsMeta,
    fee_distribution: FeeDistribution,
    max_validators: u32,
    max_maintainers: u32,
) -> (r: Result<Instruction, LidoError>)
    ensures
        r matches Ok(ix) && ix.program_id@ == program_id@
            && ix.data@ == encoding(LidoInstruction::Initialize { fee_distribution, max_validators, max_maintainers })
            && keys_view(ix.accounts@) == accounts.keys()
            && flags_view(ix.accounts@) == initialize_roles(),
{
    let data = LidoInstruction::Initialize { fee_distribution, max_validators, max_maintainers }.try_to_vec();
    Ok(Instruction { program_id: *program_id, accounts: accounts.to_vec(), data })
}

/// Builds a Deposit instruction.
pub fn deposit(
    program_id: &Pubkey,
    lido: &Pubkey,
    stake_pool: &Pubkey,
    pool_token_to: &Pubkey,
    owner: &Pubkey,
    user: &Pubkey,
    recipient: &Pubkey,
    mint_program: &Pubkey,
    reserve_authority: &Pubkey,
    amount: u64,
) -> (r: Result<Instruction, LidoError>)
    ensures
        r matches Ok(ix) && ix.program_id@ == program_id@
            && ix.data@ == encoding(LidoInstruction::Deposit { amount })
            && flags_view(ix.accounts@) == deposit_roles()
            && ix.accounts@.len() == 10
            && ix.accounts@[0].pubkey@ == lido@
            && ix.accounts@[1].pubkey@ == stake_pool@
            && ix.accounts@[2].pubkey@ == pool_token_to@
            && ix.accounts@[3].pubkey@ == owner@
            && ix.accounts@[4].pubkey@ == user@
            && ix.accounts@[5].pubkey@ == recipient@
            && ix.accounts@[6].pubkey@ == mint_program@
            && ix.accounts@[7].pubkey@ == token_program_address()
            && ix.accounts@[8].pubkey@ == reserve_authority@
            && ix.accounts@[9].pubkey@ == system_program_address(),
{
    let data = LidoInstruction::Deposit { amount }.try_to_vec();
    let accounts = vec![
        AccountMeta::new(*lido, false),
        AccountMeta::new_readonly(*stake_pool, false),
        AccountMeta::new_readonly(*pool_token_to, false),
        AccountMeta::new_readonly(*owner, false),
        AccountMeta::new(*user, true),
        AccountMeta::new(*recipient, false),
        AccountMeta::new(*mint_program, false),
        AccountMeta::new_readonly(token_program_id(), false),
        AccountMeta::new(*reserve_authority, false),
        AccountMeta::new_readonly(system_program_id(), false),
    ];
    assert(flags_view(accounts@) =~= deposit_roles());
    Ok(Instruction { program_id: *program_id, accounts, data })
}

/// Builds a DelegateDeposit instruction.
pub fn delegate_deposit(
    program_id: &Pubkey,
    lido: &Pubkey,
    validator: &Pubkey,
    reserve: &Pubkey,
    stake: &Pubkey,
    deposit_authority: &Pubkey,
    amount: u64,
) -> (r: Result<Instruction, LidoError>)
    ensures
        r matches Ok(ix) && ix.program_id@ == program_id@
            && ix.data@ == encoding(LidoInstruction::DelegateDeposit { amount })
            && flags_view(ix.accounts@) == delegate_deposit_roles()
            && ix.accounts@.len() == 11
            && ix.accounts@[0].pubkey@ == lido@
            && ix.accounts@[1].pubkey@ == validator@
            && ix.accounts@[2].pubkey@ == reserve@
            && ix.accounts@[3].pubkey@ == stake@
            && ix.accounts@[4].pubkey@ == deposit_authority@
            && ix.accounts@[5].pubkey@ == clock_sysvar_address()
            && ix.accounts@[6].pubkey@ == system_program_address()
            && ix.accounts@[7].pubkey@ == rent_sysvar_address()
            && ix.accounts@[8].pubkey@ == stake_program_address()
            && ix.accounts@[9].pubkey@ == stake_history_sysvar_address()
            && ix.accounts@[10].pubkey@ == stake_config_address(),
{
    let data = LidoInstruction::DelegateDeposit { amount }.try_to_vec();
    let accounts = vec![
        AccountMeta::new(*lido, false),
        AccountMeta::new(*validator, false),
        AccountMeta::new(*reserve, false),
        AccountMeta::new(*stake, false),
        AccountMeta::new(*deposit_authority, false),
        AccountMeta::new_readonly(clock_sysvar_id(), false),
        AccountMeta::new_readonly(system_program_id(), false),
        AccountMeta::new_readonly(rent_sysvar_id(), false),
        AccountMeta::new_readonly(stake_program_id(), false),
        AccountMeta::new_readonly(stake_history_sysvar_id(), false),
        AccountMeta::new_readonly(stake_config_id(), false),
    ];
    assert(flags_view(accounts@) =~= delegate_deposit_roles());
    Ok(Instruction { program_id: *program_id, accounts, data })
}

/// Builds a StakePoolDelegate instruction.
pub fn stake_pool_delegate(
    program_id: &Pubkey,
    maintainer: &Pubkey,
    lido: &Pubkey,
    validator: &Pubkey,
    stake: &Pubkey,
    deposit_authority: &Pubkey,
    pool_token: &Pubkey,
    stake_pool_program: &Pubkey,
    stake_pool: &Pubkey,
    stake_pool_validator_list: &Pubkey,
    stake_pool_withdraw_authority: &Pubkey,
    stake_pool_validator_stake_account: &Pubkey,
    stake_pool_mint: &Pubkey,
) -> (r: Result<Instruction, LidoError>)
    ensures
        r matches Ok(ix) && ix.program_id@ == program_id@
            && ix.data@ == encoding(LidoInstruction::StakePoolDelegate)
            && flags_view(ix.accounts@) == stake_pool_delegate_roles()
            && ix.accounts@.len() == 18
            && ix.accounts@[0].pubkey@ == maintainer@
            && ix.accounts@[1].pubkey@ == lido@
            && ix.accounts@[2].pubkey@ == validator@
            && ix.accounts@[3].pubkey@ == stake@
            && ix.accounts@[4].pubkey@ == deposit_authority@
            && ix.accounts@[5].pubkey@ == pool_token@
            && ix.accounts@[6].pubkey@ == stake_pool_program@
            && ix.accounts@[7].pubkey@ == stake_pool@
            && ix.accounts@[8].pubkey@ == stake_pool_validator_list@
            && ix.accounts@[9].pubkey@ == stake_pool_withdraw_authority@
            && ix.accounts@[10].pubkey@ == stake_pool_validator_stake_account@
            && ix.accounts@[11].pubkey@ == stake_pool_mint@
            && ix.accounts@[12].pubkey@ == clock_sysvar_address()
            && ix.accounts@[13].pubkey@ == stake_history_sysvar_address()
            && ix.accounts@[14].pubkey@ == system_program_address()
            && ix.accounts@[15].pubkey@ == rent_sysvar_address()
            && ix.accounts@[16].pubkey@ == token_program_address()
            && ix.accounts@[17].pubkey@ == stake_program_address(),
{
    let data = LidoInstruction::StakePoolDelegate.try_to_vec();
    let accounts = vec![
        AccountMeta::new_readonly(*maintainer, true),
        AccountMeta::new(*lido, false),
        AccountMeta::new(*validator, false),
        AccountMeta::new(*stake, false),
        AccountMeta::new(*deposit_authority, false),
        AccountMeta::new(*pool_token, false),
        AccountMeta::new_readonly(*stake_pool_program, false),
        AccountMeta::new(*stake_pool, false),
        AccountMeta::new(*stake_pool_validator_list, false),
        AccountMeta::new_readonly(*stake_pool_withdraw_authority, false),
        AccountMeta::new(*stake_pool_validator_stake_account, false),
        AccountMeta::new(*stake_pool_mint, false),
        AccountMeta::new_readonly(clock_sysvar_id(), false),
        AccountMeta::new_readonly(stake_history_sysvar_id(), false),
        AccountMeta::new_readonly(system_program_id(), false),
        AccountMeta::new_readonly(rent_sysvar_id(), false),
        AccountMeta::new_readonly(token_program_id(), false),
        AccountMeta::new_readonly(stake_program_id(), false),
    ];
    assert(flags_view(accounts@) =~= stake_pool_delegate_roles());
    Ok(Instruction { program_id: *program_id, accounts, data })
}

/// Builds the pooled-stake program's deposit of a delegated stake record,
/// to be signed by the deposit authority.
pub fn stake_pool_deposit(
    program_id: &Pubkey,
    stake_pool: &Pubkey,
    validator_list_storage: &Pubkey,
    deposit_authority: &Pubkey,
    stake_pool_withdraw_authority: &Pubkey,
    deposit_stake_address: &Pubkey,
    validator_stake_account: &Pubkey,
    pool_tokens_to: &Pubkey,
    pool_mint: &Pubkey,
    token_program_id: &Pubkey,
) -> (r: Result<Instruction, LidoError>)
    ensures
        r matches Ok(ix) && ix.program_id@ == program_id@ && ix.data@ == seq![9u8]
            && flags_view(ix.accounts@) == pool_deposit_roles()
            && ix.accounts@.len() == 12
            && ix.accounts@[0].pubkey@ == stake_pool@
            && ix.accounts@[1].pubkey@ == validator_list_storage@
            && ix.accounts@[2].pubkey@ == deposit_authority@
            && ix.accounts@[3].pubkey@ == stake_pool_withdraw_authority@
            && ix.accounts@[4].pubkey@ == deposit_stake_address@
            && ix.accounts@[5].pubkey@ == validator_stake_account@
            && ix.accounts@[6].pubkey@ == pool_tokens_to@
            && ix.accounts@[7].pubkey@ == pool_mint@
            && ix.accounts@[8].pubkey@ == clock_sysvar_address()
            && ix.accounts@[9].pubkey@ == stake_history_sysvar_address()
            && ix.accounts@[10].pubkey@ == token_program_id@
            && ix.accounts@[11].pubkey@ == stake_program_address(),
{
    let data = match pool_deposit_data() {
        Some(d) => d,
        None => return Err(LidoError::InvalidInstructionData),
    };
    let accounts = vec![
        AccountMeta::new(*stake_pool, false),
        AccountMeta::new(*validator_list_storage, false),
        AccountMeta::new_readonly(*deposit_authority, true),
        AccountMeta::new_readonly(*stake_pool_withdraw_authority, false),
        AccountMeta::new(*deposit_stake_address, false),
        AccountMeta::new(*validator_stake_account, false),
        AccountMeta::new(*pool_tokens_to, false),
        AccountMeta::new(*pool_mint, false),
        AccountMeta::new_readonly(clock_sysvar_id(), false),
        AccountMeta::new_readonly(stake_history_sysvar_id(), false),
        AccountMeta::new_readonly(*token_program_id, false),
        AccountMeta::new_readonly(stake_program_id(), false),
    ];
    assert(flags_view(accounts@) =~= pool_deposit_roles());
    Ok(Instruction { program_id: *program_id, accounts, data })
}

/// Roles of the pooled-stake program's deposit: pool, validator list, deposit
/// authority (signer), withdraw authority, stake record, validator stake
/// account, pool token destination, pool mint, clock, stake history, token
/// program, stake program.
pub open spec fn pool_deposit_roles() -> Seq<(bool, bool)> {
    seq![
        (false, true), (false, true), (true, false), (false, false), (false, true), (false, true),
        (false, true), (false, true), (false, false), (false, false), (false, false), (false, false),
    ]
}

/// Roles of the pooled-stake program's Initialize: pool (signer), manager
/// (signer), staker, validator list, reserve stake, pool mint, manager fee
/// account, clock, rent, token program, deposit authority.
pub open spec fn pool_initialize_roles() -> Seq<(bool, bool)> {
    seq![
        (true, true), (true, false), (false, false), (false, true), (false, false), (false, false),
        (false, false), (false, false), (false, false), (false, false), (false, false),
    ]
}

/// Builds the pooled-stake program's Initialize with a deposit authority.
pub fn initialize_stake_pool_with_authority(
    program_id: &Pubkey,
    stake_pool: &Pubkey,
    manager: &Pubkey,
    staker: &Pubkey,
    validator_list: &Pubkey,
    reserve_stake: &Pubkey,
    pool_mint: &Pubkey,
    manager_pool_account: &Pubkey,
    token_program_id: &Pubkey,
    deposit_authority: &Pubkey,
    fee: Fee,
    withdrawal_fee: Fee,
    deposit_fee: Fee,
    referral_fee: u8,
    max_validators: u32,
) -> (r: Result<Instruction, LidoError>)
    ensures
        r matches Ok(ix) && ix.program_id@ == program_id@
            && ix.data@ == pool_initialize_encoding(fee, withdrawal_fee, deposit_fee, referral_fee, max_validators)
            && flags_view(ix.accounts@) == pool_initialize_roles()
            && ix.accounts@.len() == 11
            && ix.accounts@[0].pubkey@ == stake_pool@
            && ix.accounts@[1].pubkey@ == manager@
            && ix.accounts@[2].pubkey@ == staker@
            && ix.accounts@[3].pubkey@ == validator_list@
            && ix.accounts@[4].pubkey@ == reserve_stake@
            && ix.accounts@[5].pubkey@ == pool_mint@
            && ix.accounts@[6].pubkey@ == manager_pool_account@
            && ix.accounts@[9].pubkey@ == token_program_id@
            && ix.accounts@[7].pubkey@ == clock_sysvar_address()
            && ix.accounts@[8].pubkey@ == rent_sysvar_address()
            && ix.accounts@[9].pubkey@ == token_program_id@
            && ix.accounts@[10].pubkey@ == deposit_authority@,
{
    let data = match pool_initialize_data(fee, withdrawal_fee, deposit_fee, referral_fee, max_validators) {
        Some(d) => d,
        None => return Err(LidoError::InvalidInstructionData),
    };
    let accounts = vec![
        AccountMeta::new(*stake_pool, true),
        AccountMeta::new_readonly(*manager, true),
        AccountMeta::new_readonly(*staker, false),
        AccountMeta::new(*validator_list, false),
        AccountMeta::new_readonly(*reserve_stake, false),
        AccountMeta::new_readonly(*pool_mint, false),
        AccountMeta::new_readonly(*manager_pool_account, false),
        AccountMeta::new_readonly(clock_sysvar_id(), false),
        AccountMeta::new_readonly(rent_sysvar_id(), false),
        AccountMeta::new_readonly(*token_program_id, false),
        AccountMeta::new_readonly(*deposit_authority, false),
    ];
    assert(flags_view(accounts@) =~= pool_initialize_roles());
    Ok(Instruction { program_id: *program_id, accounts, data })
}

} // verus!
