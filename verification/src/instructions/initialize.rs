use vstd::prelude::*;
use crate::constants::MAX_BPS;
use crate::error::AmmError;
use crate::state::{AmmConfig, Pubkey};

verus! {

/// What the initialize instruction reads from its accounts.
#[derive(Clone, Copy, Debug, PartialEq, Eq)]
pub struct Initialize {
    /// The pool's creator, who pays for the new accounts.
    pub payer: Pubkey,
    pub mint_x: Pubkey,
    pub mint_y: Pubkey,
    /// Destination of the protocol fees.
    pub treasury: Pubkey,
    /// The LP mint created with the pool.
    pub lp_mint: Pubkey,
    /// The bump of the configuration account's address.
    pub config_bump: u8,
}

/// The configuration that a successful initialize writes.
pub open spec fn initialized_config(
    accounts: Initialize,
    seed: u64,
    fee: u16,
    protocol_fee: u16,
) -> AmmConfig {
    AmmConfig {
        seed,
        authority: Some(accounts.payer),
        mint_x: accounts.mint_x,
        mint_y: accounts.mint_y,
        lp_mint: accounts.lp_mint,
        treasury: accounts.treasury,
        locked: false,
        fee,
        protocol_fee,
        bump: accounts.config_bump,
    }
}

/// What initialize gives: the new configuration, or its refusal.
pub open spec fn initialize_outcome(
    accounts: Initialize,
    seed: u64,
    fee: u16,
    protocol_fee: u16,
) -> Result<AmmConfig, AmmError> {
    if fee < MAX_BPS {
        Ok(initialized_config(accounts, seed, fee, protocol_fee))
    } else {
        Err(AmmError::InvalidAmount)
    }
}

/// Creates the pool's configuration: refused with `InvalidAmount` exactly when
/// the swap fee is not below one whole in basis points; otherwise the pool
/// starts unlocked, owned by the payer, with the given seed and fees.
pub fn handle_initialize(
    accounts: &Initialize,
    seed: u64,
    fee: u16,
    protocol_fee: u16,
) -> (r: Result<AmmConfig, AmmError>)
    ensures
        r == initialize_outcome(*accounts, seed, fee, protocol_fee),
        r is Err <==> fee >= MAX_BPS,
        r matches Ok(config) ==> !config.locked && config.fee < MAX_BPS,
{
    if fee >= MAX_BPS {
        return Err(AmmError::InvalidAmount);
    }
    Ok(AmmConfig {
        seed,
        authority: Some(accounts.payer),
        mint_x: accounts.mint_x,
        mint_y: accounts.mint_y,
        lp_mint: accounts.lp_mint,
        treasury: accounts.treasury,
        locked: false,
        fee,
        protocol_fee,
        bump: accounts.config_bump,
    })
}

} // verus!
