use vstd::prelude::*;

use crate::instruction::{u32_le, u64_le};

verus! {

/// A fee of the pooled-stake program, as a ratio.
#[derive(Clone, Copy, Debug, PartialEq, Eq, Structural)]
pub struct Fee {
    pub denominator: u64,
    pub numerator: u64,
}

/// The wire form of a fee: denominator, then numerator, little-endian.
pub open spec fn fee_le(f: Fee) -> Seq<u8> {
    u64_le(f.denominator) + u64_le(f.numerator)
}

/// The wire form of the pooled-stake program's Initialize instruction: tag
/// zero, the epoch, withdrawal and deposit fees, the referral share, the
/// maximum number of validators.
pub open spec fn pool_initialize_encoding(
    fee: Fee,
    withdrawal_fee: Fee,
    deposit_fee: Fee,
    referral_fee: u8,
    max_validators: u32,
) -> Seq<u8> {
    seq![0u8] + fee_le(fee) + fee_le(withdrawal_fee) + fee_le(deposit_fee) + seq![referral_fee]
        + u32_le(max_validators)
}

/// Relies on `borsh::to_vec` of `StakePoolInstruction::DepositStake` of
/// spl-stake-pool: a variant without fields is written as its index, here
/// nine, in one byte; writing into a `Vec` does not fail.
#[verifier::external_body]
pub(crate) fn pool_deposit_data() -> (r: Option<Vec<u8>>)
    ensures
        r is Some,
        r matches Some(v) ==> v@ == seq![9u8],
{
    borsh::to_vec(&spl_stake_pool::instruction::StakePoolInstruction::DepositStake).ok()
}

/// Relies on `borsh::to_vec` of `StakePoolInstruction::Initialize` of
/// spl-stake-pool: the index zero in one byte, then the fields in order,
/// each fee as its denominator and numerator, integers little-endian;
/// writing into a `Vec` does not fail.
#[verifier::external_body]
pub(crate) fn pool_initialize_data(
    fee: Fee,
    withdrawal_fee: Fee,
    deposit_fee: Fee,
    referral_fee: u8,
    max_validators: u32,
) -> (r: Option<Vec<u8>>)
    ensures
        r is Some,
        r matches Some(v) ==> v@ == pool_initialize_encoding(
            fee,
            withdrawal_fee,
            deposit_fee,
            referral_fee,
            max_validators,
        ),
{
    let conv = |f: Fee| spl_stake_pool::state::Fee { denominator: f.denominator, numerator: f.numerator };
    let ix = spl_stake_pool::instruction::StakePoolInstruction::Initialize {
        fee: conv(fee),
        withdrawal_fee: conv(withdrawal_fee),
        deposit_fee: conv(deposit_fee),
        referral_fee,
        max_validators,
    };
    borsh::to_vec(&ix).ok()
}

} // verus!
