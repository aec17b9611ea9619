use vstd::prelude::*;
use crate::error::AmmError;
use crate::state::AmmConfig;

verus! {

/// What the withdraw instruction reads from its accounts.
#[derive(Clone, Copy, Debug, PartialEq, Eq)]
pub struct Withdraw {
    pub config: AmmConfig,
    /// The pool's reserve of token X.
    pub vault_x: u64,
    /// The pool's reserve of token Y.
    pub vault_y: u64,
    /// The LP tokens in circulation.
    pub lp_supply: u64,
    /// The caller's LP tokens.
    pub user_lp: u64,
}

/// What an accepted withdrawal moves: `lp_amount` LP tokens burned from the
/// caller, `x_amount` and `y_amount` paid to them from the vaults.
#[derive(Clone, Copy, Debug, PartialEq, Eq)]
pub struct WithdrawPlan {
    pub lp_amount: u64,
    pub x_amount: u64,
    pub y_amount: u64,
}

impl Withdraw {
    /// No holder holds more LP tokens than are in circulation.
    pub open spec fn wf(self) -> bool {
        self.user_lp <= self.lp_supply
    }
}

/// The share of `reserve` that `amount` of `supply` LP tokens stand for,
/// rounded down.
pub open spec fn share(reserve: u64, amount: u64, supply: u64) -> int {
    reserve * amount / (supply as int)
}

/// What a withdrawal of `amount` LP tokens with floors `min_x`, `min_y` gives.
pub open spec fn withdraw_outcome(accounts: Withdraw, amount: u64, min_x: u64, min_y: u64) -> Result<
    WithdrawPlan,
    AmmError,
> {
    if accounts.config.locked {
        Err(AmmError::PoolLocked)
    } else if amount == 0 {
        Err(AmmError::InvalidAmount)
    } else if accounts.user_lp < amount {
        Err(AmmError::InsufficientFunds)
    } else {
        let x: int = share(accounts.vault_x, amount, accounts.lp_supply);
        let y: int = share(accounts.vault_y, amount, accounts.lp_supply);
        if x < min_x || y < min_y {
            Err(AmmError::SlippageExceeded)
        } else {
            Ok(WithdrawPlan { lp_amount: amount, x_amount: x as u64, y_amount: y as u64 })
        }
    }
}

/// Facts of `share` that hold whenever the amount is part of the supply: it
/// fits the reserve, and it stands in proportion to the amount.
pub proof fn lemma_share_bounds(reserve: u64, amount: u64, supply: u64)
    requires
        amount <= supply,
        supply > 0,
    ensures
        0 <= share(reserve, amount, supply) <= reserve,
        share(reserve, amount, supply) * supply <= reserve * amount,
        reserve * amount < (share(reserve, amount, supply) + 1) * supply,
        amount == supply ==> share(reserve, amount, supply) == reserve,
{
    let r: int = reserve as int;
    let a: int = amount as int;
    let s: int = supply as int;
    let q: int = r * a / s;
    assert(0 <= r * a <= r * s) by (nonlinear_arith)
        requires
            0 <= r,
            0 <= a <= s,
    ;
    assert(q * s <= r * a < (q + 1) * s) by (nonlinear_arith)
        requires
            s > 0,
            q == r * a / s,
    ;
    assert(0 <= q <= r) by (nonlinear_arith)
        requires
            s > 0,
            q == r * a / s,
            0 <= r * a <= r * s,
    ;
    if a == s {
        assert(q == r) by (nonlinear_arith)
            requires
                s > 0,
                q == r * s / s,
        ;
    }
}

/// The share of `reserve` that `amount` of `supply` LP tokens stand for.
pub fn proportional_share(reserve: u64, amount: u64, supply: u64) -> (out: u64)
    requires
        amount <= supply,
        supply > 0,
    ensures
        out == share(reserve, amount, supply),
        out <= reserve,
        out * supply <= reserve * amount < (out + 1) * supply,
{
    proof {
        lemma_share_bounds(reserve, amount, supply);
        assert((reserve as u128) * (amount as u128) <= u64::MAX * u64::MAX) by (nonlinear_arith);
    }
    let product: u128 = (reserve as u128) * (amount as u128);
    let out: u128 = product / (supply as u128);
    out as u64
}

/// Burns `amount` LP tokens for their proportional share of both reserves,
/// rounded down. A locked pool refuses it with `PoolLocked`, a zero amount
/// with `InvalidAmount`, an amount above the caller's LP tokens with
/// `InsufficientFunds`, and a share below `min_x` or `min_y` with
/// `SlippageExceeded`.
pub fn handle_withdraw(accounts: &Withdraw, amount: u64, min_x: u64, min_y: u64) -> (r: Result<
    WithdrawPlan,
    AmmError,
>)
    requires
        accounts.wf(),
    ensures
        r == withdraw_outcome(*accounts, amount, min_x, min_y),
        r matches Ok(p) ==> {
            &&& p.lp_amount == amount
            &&& min_x <= p.x_amount <= accounts.vault_x
            &&& min_y <= p.y_amount <= accounts.vault_y
            &&& p.x_amount * accounts.lp_supply <= accounts.vault_x * amount
            &&& p.y_amount * accounts.lp_supply <= accounts.vault_y * amount
            &&& accounts.vault_x * amount < (p.x_amount + 1) * accounts.lp_supply
            &&& accounts.vault_y * amount < (p.y_amount + 1) * accounts.lp_supply
        },
        r is Ok <==> (!accounts.config.locked && 0 < amount <= accounts.user_lp
            && accounts.vault_x * amount / (accounts.lp_supply as int) >= min_x
            && accounts.vault_y * amount / (accounts.lp_supply as int) >= min_y),
{
    if accounts.config.locked {
        return Err(AmmError::PoolLocked);
    }
    if amount == 0 {
        return Err(AmmError::InvalidAmount);
    }
    if accounts.user_lp < amount {
        return Err(AmmError::InsufficientFunds);
    }
    proof {
        lemma_share_bounds(accounts.vault_x, amount, accounts.lp_supply);
        lemma_share_bounds(accounts.vault_y, amount, accounts.lp_supply);
    }
    let x_amount: u64 = proportional_share(accounts.vault_x, amount, accounts.lp_supply);
    let y_amount: u64 = proportional_share(accounts.vault_y, amount, accounts.lp_supply);
    if x_amount < min_x || y_amount < min_y {
        return Err(AmmError::SlippageExceeded);
    }
    Ok(WithdrawPlan { lp_amount: amount, x_amount, y_amount })
}

} // verus!
