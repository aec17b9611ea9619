use vstd::prelude::*;
use crate::constants::LP_DECIMALS;
use crate::error::AmmError;
use crate::state::AmmConfig;

verus! {

/// What the deposit instruction reads from its accounts.
#[derive(Clone, Copy, Debug, PartialEq, Eq)]
pub struct Deposit {
    pub config: AmmConfig,
    /// The pool's reserve of token X.
    pub vault_x: u64,
    /// The pool's reserve of token Y.
    pub vault_y: u64,
    /// The LP tokens in circulation.
    pub lp_supply: u64,
}

/// The X and Y amounts that the curve asks for a deposit.
#[derive(Clone, Copy, Debug, PartialEq, Eq)]
pub struct XYAmounts {
    pub x: u64,
    pub y: u64,
}

/// The question put to the curve: which X and Y amounts buy `lp_amount` LP
/// tokens from a pool holding `x`, `y` with `l` LP tokens out, at `precision`.
#[derive(Clone, Copy, Debug, PartialEq, Eq)]
pub struct DepositQuery {
    pub x: u64,
    pub y: u64,
    pub l: u64,
    pub lp_amount: u64,
    pub precision: u8,
}

/// What an accepted deposit moves: `x_amount` and `y_amount` from the
/// depositor into the vaults, and `lp_amount` LP tokens minted to them.
#[derive(Clone, Copy, Debug, PartialEq, Eq)]
pub struct DepositPlan {
    pub x_amount: u64,
    pub y_amount: u64,
    pub lp_amount: u64,
}

impl Deposit {
    /// No LP token is out and both vaults are empty.
    pub open spec fn pool_is_empty(self) -> bool {
        self.lp_supply == 0 && self.vault_x == 0 && self.vault_y == 0
    }

    /// The deposit passes its first checks on a pool that already holds
    /// liquidity, so the amounts come from the curve.
    pub open spec fn needs_curve(self, amount: u64) -> bool {
        !self.config.locked && amount != 0 && !self.pool_is_empty()
    }

    /// The question for the curve, when the deposit needs one.
    pub open spec fn curve_query_spec(self, amount: u64) -> Option<DepositQuery> {
        if self.needs_curve(amount) {
            Some(
                DepositQuery {
                    x: self.vault_x,
                    y: self.vault_y,
                    l: self.lp_supply,
                    lp_amount: amount,
                    precision: LP_DECIMALS,
                },
            )
        } else {
            None
        }
    }

    /// Whether the pool is empty.
    pub fn is_empty_pool(&self) -> (b: bool)
        ensures
            b == self.pool_is_empty(),
            b <==> (self.lp_supply == 0 && self.vault_x == 0 && self.vault_y == 0),
    {
        self.lp_supply == 0 && self.vault_x == 0 && self.vault_y == 0
    }

    /// The question that a deposit of `amount` LP tokens puts to the curve:
    /// `None` where the deposit is decided without it.
    pub fn curve_query(&self, amount: u64) -> (q: Option<DepositQuery>)
        ensures
            q == self.curve_query_spec(amount),
            q is Some <==> (!self.config.locked && amount != 0 && !(self.lp_supply == 0
                && self.vault_x == 0 && self.vault_y == 0)),
            q matches Some(q) ==> {
                &&& q.x == self.vault_x
                &&& q.y == self.vault_y
                &&& q.l == self.lp_supply
                &&& q.lp_amount == amount
                &&& q.precision == 6
            },
    {
        if !self.config.locked && amount != 0 && !self.is_empty_pool() {
            Some(
                DepositQuery {
                    x: self.vault_x,
                    y: self.vault_y,
                    l: self.lp_supply,
                    lp_amount: amount,
                    precision: LP_DECIMALS,
                },
            )
        } else {
            None
        }
    }
}

/// What a deposit of `amount` LP tokens with caps `max_x`, `max_y` gives,
/// where `curve` is the curve's answer to the deposit's query.
pub open spec fn deposit_outcome(
    accounts: Deposit,
    amount: u64,
    max_x: u64,
    max_y: u64,
    curve: Option<XYAmounts>,
) -> Result<DepositPlan, AmmError> {
    if accounts.config.locked {
        Err(AmmError::PoolLocked)
    } else if amount == 0 {
        Err(AmmError::InvalidAmount)
    } else if accounts.pool_is_empty() {
        Ok(DepositPlan { x_amount: max_x, y_amount: max_y, lp_amount: amount })
    } else {
        let q = curve.unwrap();
        if q.x <= max_x && q.y <= max_y {
            Ok(DepositPlan { x_amount: q.x, y_amount: q.y, lp_amount: amount })
        } else {
            Err(AmmError::SlippageExceeded)
        }
    }
}

/// Decides a deposit of `amount` LP tokens. A locked pool refuses it with
/// `PoolLocked`, a zero amount with `InvalidAmount`. The first deposit into an
/// empty pool takes `max_x` and `max_y` as they are; any later one takes the
/// amounts that the curve answered to `curve_query`, and is refused with
/// `SlippageExceeded` when either exceeds its cap. The depositor always
/// receives exactly `amount` LP tokens.
///
/// `curve` is the curve's answer, needed where `curve_query` gives a
/// question; where the curve fails on it the deposit does not go on.
pub fn handle_deposit(
    accounts: &Deposit,
    amount: u64,
    max_x: u64,
    max_y: u64,
    curve: Option<XYAmounts>,
) -> (r: Result<DepositPlan, AmmError>)
    requires
        accounts.needs_curve(amount) ==> curve is Some,
    ensures
        r == deposit_outcome(*accounts, amount, max_x, max_y, curve),
        r matches Ok(p) ==> p.x_amount <= max_x && p.y_amount <= max_y && p.lp_amount == amount,
        r matches Ok(p) ==> (accounts.lp_supply == 0 && accounts.vault_x == 0 && accounts.vault_y == 0
            ==> p.x_amount == max_x && p.y_amount == max_y),
        r matches Ok(p) ==> (!(accounts.lp_supply == 0 && accounts.vault_x == 0 && accounts.vault_y == 0)
            ==> (curve matches Some(q) && p.x_amount == q.x && p.y_amount == q.y)),
        r is Ok <==> (!accounts.config.locked && amount != 0 && (
            (accounts.lp_supply == 0 && accounts.vault_x == 0 && accounts.vault_y == 0)
            || (curve matches Some(q) && q.x <= max_x && q.y <= max_y)
        )),
{
    if accounts.config.locked {
        return Err(AmmError::PoolLocked);
    }
    if amount == 0 {
        return Err(AmmError::InvalidAmount);
    }
    let (x_amount, y_amount): (u64, u64) = if accounts.is_empty_pool() {
        (max_x, max_y)
    } else {
        let amounts = curve.unwrap();
        if !(amounts.x <= max_x && amounts.y <= max_y) {
            return Err(AmmError::SlippageExceeded);
        }
        (amounts.x, amounts.y)
    };
    Ok(DepositPlan { x_amount, y_amount, lp_amount: amount })
}

} // verus!
