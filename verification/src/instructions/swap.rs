use vstd::prelude::*;
use crate::constants::{LP_DECIMALS, MAX_BPS};
use crate::error::AmmError;
use crate::state::AmmConfig;
use crate::transfer::{
    Authority, TokenAccountRole, Transfer, treasury_in, user_account_in, user_account_out,
    vault_in, vault_out,
};

verus! {

/// What the swap instruction reads from its accounts.
#[derive(Clone, Copy, Debug, PartialEq, Eq)]
pub struct Swap {
    pub config: AmmConfig,
    /// The pool's reserve of token X.
    pub vault_x: u64,
    /// The pool's reserve of token Y.
    pub vault_y: u64,
    /// The LP tokens in circulation.
    pub lp_supply: u64,
}

/// The side of the pair that a swap pays in.
#[derive(Clone, Copy, Debug, PartialEq, Eq, Structural)]
pub enum LiquidityPair {
    X,
    Y,
}

/// The question put to the curve: a curve over reserves `x`, `y` with `l`
/// LP tokens out, swap fee `fee` and `precision`, asked to swap `amount` of
/// `pair` for no less than `min`.
#[derive(Clone, Copy, Debug, PartialEq, Eq, Structural)]
pub struct SwapQuery {
    pub x: u64,
    pub y: u64,
    pub l: u64,
    pub fee: u16,
    pub precision: u8,
    pub pair: LiquidityPair,
    pub amount: u64,
    pub min: u64,
}

/// The curve's answer to a swap query.
#[derive(Clone, Copy, Debug, PartialEq, Eq, Structural)]
pub enum CurveSwap {
    /// The curve could not be built from the pool's state.
    InitFailed,
    /// The curve refused the swap.
    SwapFailed,
    /// The curve takes `deposit` in and pays `withdraw` out.
    Swapped { deposit: u64, withdraw: u64 },
}

/// What an accepted swap moves, in this order: the protocol fee to the
/// treasury, the input into the pool, the output to the caller.
#[derive(Clone, Copy, Debug, PartialEq, Eq, Structural)]
pub struct SwapPlan {
    pub protocol_fee: Transfer,
    pub deposit: Transfer,
    pub withdraw: Transfer,
}

/// The protocol's share of a swap input: `protocol_fee` basis points of
/// `amount`, rounded down.
pub open spec fn protocol_cut(amount: u64, protocol_fee: u16) -> int {
    amount * protocol_fee / (MAX_BPS as int)
}

/// Transfer of the protocol's share of the input to the treasury.
pub open spec fn protocol_fee_transfer(is_x: bool, amount: u64) -> Transfer {
    Transfer {
        from: user_account_in(is_x),
        to: treasury_in(is_x),
        amount,
        authority: Authority::User,
    }
}

/// Transfer of the swap's input into the pool.
pub open spec fn deposit_transfer(is_x: bool, amount: u64) -> Transfer {
    Transfer { from: user_account_in(is_x), to: vault_in(is_x), amount, authority: Authority::User }
}

/// Transfer of the swap's output out of the pool, signed by the pool.
pub open spec fn withdraw_transfer(is_x: bool, amount: u64) -> Transfer {
    Transfer {
        from: vault_out(is_x),
        to: user_account_out(is_x),
        amount,
        authority: Authority::Config,
    }
}

impl Swap {
    /// The swap passes its own checks, so the curve decides the rest.
    pub open spec fn needs_curve(self, amount: u64) -> bool {
        amount > 0 && !self.config.locked && self.config.protocol_fee < MAX_BPS
    }

    /// The question for the curve, when the swap needs one: the input less
    /// the protocol's share goes through the curve.
    pub open spec fn curve_query_spec(self, is_x: bool, amount: u64, min: u64) -> Option<SwapQuery> {
        if self.needs_curve(amount) {
            Some(
                SwapQuery {
                    x: self.vault_x,
                    y: self.vault_y,
                    l: self.lp_supply,
                    fee: self.config.fee,
                    precision: LP_DECIMALS,
                    pair: if is_x { LiquidityPair::X } else { LiquidityPair::Y },
                    amount: (amount - protocol_cut(amount, self.config.protocol_fee)) as u64,
                    min,
                },
            )
        } else {
            None
        }
    }

    /// What a swap of `amount` for no less than `min` gives, where `curve` is
    /// the curve's answer to the swap's query.
    pub open spec fn swap_outcome(self, is_x: bool, amount: u64, min: u64, curve: CurveSwap) -> Result<
        SwapPlan,
        AmmError,
    > {
        if amount == 0 {
            Err(AmmError::InvalidAmount)
        } else if self.config.locked {
            Err(AmmError::PoolLocked)
        } else if self.config.protocol_fee >= MAX_BPS {
            Err(AmmError::InvalidAmount)
        } else {
            match curve {
                CurveSwap::InitFailed => Err(AmmError::InvalidAmount),
                CurveSwap::SwapFailed => Err(AmmError::SlippageExceeded),
                CurveSwap::Swapped { deposit, withdraw } => {
                    if withdraw < min {
                        Err(AmmError::SlippageExceeded)
                    } else {
                        Ok(
                            SwapPlan {
                                protocol_fee: protocol_fee_transfer(
                                    is_x,
                                    protocol_cut(amount, self.config.protocol_fee) as u64,
                                ),
                                deposit: deposit_transfer(is_x, deposit),
                                withdraw: withdraw_transfer(is_x, withdraw),
                            },
                        )
                    }
                },
            }
        }
    }

    /// The protocol's share of a swap input of `amount`.
    pub fn protocol_fee_amount(&self, amount: u64) -> (cut: u64)
        requires
            self.config.protocol_fee < MAX_BPS,
        ensures
            cut == protocol_cut(amount, self.config.protocol_fee),
            cut * 10000 <= amount * self.config.protocol_fee < (cut + 1) * 10000,
            cut <= amount,
            amount > 0 ==> cut < amount,
    {
        let pf: u16 = self.config.protocol_fee;
        proof {
            assert(amount * pf <= amount * 10000) by (nonlinear_arith)
                requires
                    pf < 10000,
            ;
            assert(amount * pf / 10000 <= amount * 10000 / 10000) by (nonlinear_arith)
                requires
                    amount * pf <= amount * 10000,
            ;
            assert(amount > 0 ==> amount * pf / 10000 < amount) by (nonlinear_arith)
                requires
                    pf < 10000,
            ;
            let c: int = amount * pf / 10000;
            assert(c * 10000 <= amount * pf < (c + 1) * 10000) by (nonlinear_arith)
                requires
                    c == amount * pf / 10000,
            ;
        }
        let product: u128 = (amount as u128) * (pf as u128);
        let cut: u128 = product / (MAX_BPS as u128);
        cut as u64
    }

    /// The question that a swap of `amount` for no less than `min` puts to
    /// the curve: `None` where the swap is refused without it.
    pub fn curve_query(&self, is_x: bool, amount: u64, min: u64) -> (q: Option<SwapQuery>)
        ensures
            q == self.curve_query_spec(is_x, amount, min),
            q is Some <==> (amount > 0 && !self.config.locked && self.config.protocol_fee < 10000),
            q matches Some(q) ==> {
                &&& q.x == self.vault_x
                &&& q.y == self.vault_y
                &&& q.l == self.lp_supply
                &&& q.fee == self.config.fee
                &&& q.precision == 6
                &&& q.pair == (if is_x { LiquidityPair::X } else { LiquidityPair::Y })
                &&& q.min == min
                &&& (amount - q.amount) * 10000 <= amount * self.config.protocol_fee
                &&& amount * self.config.protocol_fee < (amount - q.amount + 1) * 10000
                &&& q.amount <= amount
            },
    {
        if amount > 0 && !self.config.locked && self.config.protocol_fee < MAX_BPS {
            let cut: u64 = self.protocol_fee_amount(amount);
            let pair = if is_x { LiquidityPair::X } else { LiquidityPair::Y };
            Some(
                SwapQuery {
                    x: self.vault_x,
                    y: self.vault_y,
                    l: self.lp_supply,
                    fee: self.config.fee,
                    precision: LP_DECIMALS,
                    pair,
                    amount: amount - cut,
                    min,
                },
            )
        } else {
            None
        }
    }

    /// Swaps `amount` of X (when `is_x`) or of Y for the other token.
    ///
    /// A zero amount is refused with `InvalidAmount`, a locked pool with
    /// `PoolLocked`, a protocol fee not below one whole with `InvalidAmount`.
    /// Otherwise `protocol_fee` basis points of `amount` (rounded down) go to
    /// the treasury, the rest goes through the curve: a curve that cannot be
    /// built gives `InvalidAmount`, a refused swap or an output below `min`
    /// gives `SlippageExceeded`; else the curve's input is paid into the
    /// pool's reserve of the input token and its output is paid from the
    /// reserve of the other token.
    ///
    /// `curve` is the curve's answer to `curve_query`; where that gives
    /// `None` the answer is not read.
    pub fn swap(&self, is_x: bool, amount: u64, min: u64, curve: CurveSwap) -> (r: Result<
        SwapPlan,
        AmmError,
    >)
        ensures
            r == self.swap_outcome(is_x, amount, min, curve),
            r matches Ok(p) ==> {
                &&& p.withdraw.amount >= min
                &&& p.protocol_fee.from == (if is_x { TokenAccountRole::UserX } else { TokenAccountRole::UserY })
                &&& p.protocol_fee.to == (if is_x { TokenAccountRole::TreasuryX } else { TokenAccountRole::TreasuryY })
                &&& p.protocol_fee.authority == Authority::User
                &&& p.protocol_fee.amount * 10000 <= amount * self.config.protocol_fee
                &&& amount * self.config.protocol_fee < (p.protocol_fee.amount + 1) * 10000
                &&& p.deposit.from == (if is_x { TokenAccountRole::UserX } else { TokenAccountRole::UserY })
                &&& p.deposit.to == (if is_x { TokenAccountRole::VaultX } else { TokenAccountRole::VaultY })
                &&& p.deposit.authority == Authority::User
                &&& p.withdraw.from == (if is_x { TokenAccountRole::VaultY } else { TokenAccountRole::VaultX })
                &&& p.withdraw.to == (if is_x { TokenAccountRole::UserY } else { TokenAccountRole::UserX })
                &&& p.withdraw.authority == Authority::Config
            },
            r matches Ok(p) ==> (curve matches CurveSwap::Swapped { deposit, withdraw }
                && p.deposit.amount == deposit && p.withdraw.amount == withdraw),
            r is Ok <==> (amount > 0 && !self.config.locked && self.config.protocol_fee < 10000
                && (curve matches CurveSwap::Swapped { withdraw, .. } && withdraw >= min)),
    {
        if amount == 0 {
            return Err(AmmError::InvalidAmount);
        }
        if self.config.locked {
            return Err(AmmError::PoolLocked);
        }
        if self.config.protocol_fee >= MAX_BPS {
            return Err(AmmError::InvalidAmount);
        }
        let cut: u64 = self.protocol_fee_amount(amount);
        match curve {
            CurveSwap::InitFailed => Err(AmmError::InvalidAmount),
            CurveSwap::SwapFailed => Err(AmmError::SlippageExceeded),
            CurveSwap::Swapped { deposit, withdraw } => {
                if withdraw < min {
                    return Err(AmmError::SlippageExceeded);
                }
                Ok(
                    SwapPlan {
                        protocol_fee: Self::protocol_fee_tokens(is_x, cut),
                        deposit: Self::deposit_tokens(is_x, deposit),
                        withdraw: Self::withdraw_tokens(is_x, withdraw),
                    },
                )
            },
        }
    }

    /// The caller pays the protocol's share to the treasury's account of the
    /// input token.
    fn protocol_fee_tokens(is_x: bool, amount: u64) -> (t: Transfer)
        ensures
            t == protocol_fee_transfer(is_x, amount),
    {
        let (from, to) = if is_x {
            (TokenAccountRole::UserX, TokenAccountRole::TreasuryX)
        } else {
            (TokenAccountRole::UserY, TokenAccountRole::TreasuryY)
        };
        Transfer { from, to, amount, authority: Authority::User }
    }

    /// The caller pays the swap's input into the pool's reserve of that token.
    fn deposit_tokens(is_x: bool, amount: u64) -> (t: Transfer)
        ensures
            t == deposit_transfer(is_x, amount),
    {
        let (from, to) = if is_x {
            (TokenAccountRole::UserX, TokenAccountRole::VaultX)
        } else {
            (TokenAccountRole::UserY, TokenAccountRole::VaultY)
        };
        Transfer { from, to, amount, authority: Authority::User }
    }

    /// The pool pays the swap's output from its reserve of the other token.
    fn withdraw_tokens(is_x: bool, amount: u64) -> (t: Transfer)
        ensures
            t == withdraw_transfer(is_x, amount),
    {
        let (from, to) = if is_x {
            (TokenAccountRole::VaultY, TokenAccountRole::UserY)
        } else {
            (TokenAccountRole::VaultX, TokenAccountRole::UserX)
        };
        Transfer { from, to, amount, authority: Authority::Config }
    }
}

} // verus!
