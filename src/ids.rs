use vstd::prelude::*;

use crate::key::Pubkey;

verus! {

/// The address of the token program, `TokenkegQfeZyiNwAJbNbGKPFXCWuBvf9Ss623VQ5DA`, as bytes.
pub open spec fn token_program_address() -> Seq<u8> {
    seq![
        6u8, 221u8, 246u8, 225u8, 215u8, 101u8, 161u8, 147u8,
        217u8, 203u8, 225u8, 70u8, 206u8, 235u8, 121u8, 172u8,
        28u8, 180u8, 133u8, 237u8, 95u8, 91u8, 55u8, 145u8,
        58u8, 140u8, 245u8, 133u8, 126u8, 255u8, 0u8, 169u8,
    ]
}

/// Relies on `spl_token::id`: the address of the token program, `TokenkegQfeZyiNwAJbNbGKPFXCWuBvf9Ss623VQ5DA`.
#[verifier::external_body]
pub(crate) fn token_program_id() -> (r: Pubkey)
    ensures
        r@ == token_program_address(),
{
    Pubkey { bytes: spl_token::id().to_bytes() }
}

/// The address of the system program, `11111111111111111111111111111111`, as bytes.
pub open spec fn system_program_address() -> Seq<u8> {
    seq![
        0u8, 0u8, 0u8, 0u8, 0u8, 0u8, 0u8, 0u8,
        0u8, 0u8, 0u8, 0u8, 0u8, 0u8, 0u8, 0u8,
        0u8, 0u8, 0u8, 0u8, 0u8, 0u8, 0u8, 0u8,
        0u8, 0u8, 0u8, 0u8, 0u8, 0u8, 0u8, 0u8,
    ]
}

/// Relies on `solana_sdk_ids::system_program::id`: the address of the system program, `11111111111111111111111111111111`.
#[verifier::external_body]
pub(crate) fn system_program_id() -> (r: Pubkey)
    ensures
        r@ == system_program_address(),
{
    Pubkey { bytes: solana_sdk_ids::system_program::id().to_bytes() }
}

/// The address of the native stake program, `Stake11111111111111111111111111111111111111`, as bytes.
pub open spec fn stake_program_address() -> Seq<u8> {
    seq![
        6u8, 161u8, 216u8, 23u8, 145u8, 55u8, 84u8, 42u8,
        152u8, 52u8, 55u8, 189u8, 254u8, 42u8, 122u8, 178u8,
        85u8, 127u8, 83u8, 92u8, 138u8, 120u8, 114u8, 43u8,
        104u8, 164u8, 157u8, 192u8, 0u8, 0u8, 0u8, 0u8,
    ]
}

/// Relies on `solana_sdk_ids::stake::id`: the address of the native stake program, `Stake11111111111111111111111111111111111111`.
#[verifier::external_body]
pub(crate) fn stake_program_id() -> (r: Pubkey)
    ensures
        r@ == stake_program_address(),
{
    Pubkey { bytes: solana_sdk_ids::stake::id().to_bytes() }
}

/// The address of the stake configuration account, `StakeConfig11111111111111111111111111111111`, as bytes.
pub open spec fn stake_config_address() -> Seq<u8> {
    seq![
        6u8, 161u8, 216u8, 23u8, 165u8, 2u8, 5u8, 11u8,
        104u8, 7u8, 145u8, 230u8, 206u8, 109u8, 184u8, 142u8,
        30u8, 91u8, 113u8, 80u8, 246u8, 31u8, 198u8, 121u8,
        10u8, 78u8, 180u8, 209u8, 0u8, 0u8, 0u8, 0u8,
    ]
}

/// Relies on `solana_sdk_ids::stake::config::id`: the address of the stake configuration account, `StakeConfig11111111111111111111111111111111`.
#[verifier::external_body]
pub(crate) fn stake_config_id() -> (r: Pubkey)
    ensures
        r@ == stake_config_address(),
{
    Pubkey { bytes: solana_sdk_ids::stake::config::id().to_bytes() }
}

/// The address of the clock sysvar, `SysvarC1ock11111111111111111111111111111111`, as bytes.
pub open spec fn clock_sysvar_address() -> Seq<u8> {
    seq![
        6u8, 167u8, 213u8, 23u8, 24u8, 199u8, 116u8, 201u8,
        40u8, 86u8, 99u8, 152u8, 105u8, 29u8, 94u8, 182u8,
        139u8, 94u8, 184u8, 163u8, 155u8, 75u8, 109u8, 92u8,
        115u8, 85u8, 91u8, 33u8, 0u8, 0u8, 0u8, 0u8,
    ]
}

/// Relies on `solana_program::sysvar::clock::id`: the address of the clock sysvar, `SysvarC1ock11111111111111111111111111111111`.
#[verifier::external_body]
pub(crate) fn clock_sysvar_id() -> (r: Pubkey)
    ensures
        r@ == clock_sysvar_address(),
{
    Pubkey { bytes: solana_program::sysvar::clock::id().to_bytes() }
}

/// The address of the rent sysvar, `SysvarRent111111111111111111111111111111111`, as bytes.
pub open spec fn rent_sysvar_address() -> Seq<u8> {
    seq![
        6u8, 167u8, 213u8, 23u8, 25u8, 44u8, 92u8, 81u8,
        33u8, 140u8, 201u8, 76u8, 61u8, 74u8, 241u8, 127u8,
        88u8, 218u8, 238u8, 8u8, 155u8, 161u8, 253u8, 68u8,
        227u8, 219u8, 217u8, 138u8, 0u8, 0u8, 0u8, 0u8,
    ]
}

/// Relies on `solana_program::sysvar::rent::id`: the address of the rent sysvar, `SysvarRent111111111111111111111111111111111`.
#[verifier::external_body]
pub(crate) fn rent_sysvar_id() -> (r: Pubkey)
    ensures
        r@ == rent_sysvar_address(),
{
    Pubkey { bytes: solana_program::sysvar::rent::id().to_bytes() }
}

/// The address of the stake history sysvar, `SysvarStakeHistory1111111111111111111111111`, as bytes.
pub open spec fn stake_history_sysvar_address() -> Seq<u8> {
    seq![
        6u8, 167u8, 213u8, 23u8, 25u8, 53u8, 132u8, 208u8,
        254u8, 237u8, 155u8, 179u8, 67u8, 29u8, 19u8, 32u8,
        107u8, 229u8, 68u8, 40u8, 27u8, 87u8, 184u8, 86u8,
        108u8, 197u8, 55u8, 95u8, 244u8, 0u8, 0u8, 0u8,
    ]
}

/// Relies on `solana_sdk_ids::sysvar::stake_history::id`: the address of the stake history sysvar, `SysvarStakeHistory1111111111111111111111111`.
#[verifier::external_body]
pub(crate) fn stake_history_sysvar_id() -> (r: Pubkey)
    ensures
        r@ == stake_history_sysvar_address(),
{
    Pubkey { bytes: solana_sdk_ids::sysvar::stake_history::id().to_bytes() }
}

} // verus!
