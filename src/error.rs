use vstd::prelude::*;

verus! {

/// Every way in which an instruction of this program can fail.
#[derive(Clone, Copy, Debug, PartialEq, Eq, Structural)]
pub enum LidoError {
    /// The instruction bytes are malformed or carry an unknown tag.
    InvalidInstructionData,
    /// An argument of the instruction is out of its allowed range.
    InvalidArgument,
    /// An account's signer or writable flag differs from its declared role.
    InvalidAccountInfo,
    /// Fewer accounts were supplied than the instruction declares.
    NotEnoughAccountKeys,
    /// More accounts were supplied than the instruction declares.
    TooManyAccountKeys,
    /// A checked arithmetic operation overflowed or underflowed.
    CalculationFailure,
    /// An account does not hold the rent-exempt minimum for its size.
    AccountNotRentExempt,
    /// The program state account was already initialized.
    AlreadyInUse,
    /// The referenced stake pool is not initialized, or not the stored one.
    InvalidStakePool,
    /// A token account is minted by another mint than the expected one.
    InvalidTokenMinter,
    /// A token account is owned by another authority than the expected one.
    InvalidOwner,
    /// The stake pool is not managed by this program's derived authority.
    InvalidManager,
    /// The stake pool's fee account is not the declared fee account.
    InvalidFeeAccount,
    /// The declared maximum number of validators does not fit the state account.
    UnexpectedValidatorCreditAccountSize,
    /// The supplied token program is not the stored one.
    InvalidTokenProgram,
    /// The supplied reserve account is not the derived reserve authority.
    InvalidReserveAuthority,
    /// The supplied stake account is not the validator's derived stake address.
    InvalidStaker,
    /// The supplied deposit authority is not the derived deposit authority.
    InvalidDepositAuthority,
    /// The requested amount is below the stake account's rent-exempt minimum.
    InvalidAmount,
    /// The requested amount exceeds what the reserve can spend.
    AmountExceedsReserve,
    /// A stake record already exists at the target address.
    WrongStakeState,
    /// The supplied pool token account is not the stored token holder.
    InvalidPoolToken,
    /// The caller is not among the designated maintainers.
    InvalidMaintainer,
}

} // verus!
