use vstd::prelude::*;
use crate::error::AmmError;
use crate::instructions::deposit::{deposit_outcome, Deposit, DepositPlan, XYAmounts};
use crate::instructions::swap::{CurveSwap, Swap};
use crate::instructions::withdraw::{lemma_share_bounds, share, withdraw_outcome, Withdraw, WithdrawPlan};
use crate::instructions::initialize::{initialize_outcome, Initialize};
use crate::instructions::swap::{LiquidityPair, SwapPlan};
use crate::state::{config_address_seeds_spec, config_signer_seeds_spec, lp_mint_seeds_spec, AmmConfig, Pubkey};
use crate::transfer::{holds_x, Authority, TokenAccountRole};
use vstd::bytes::spec_u64_to_le_bytes;

verus! {

/// Withdrawing the LP tokens of a pool's first deposit, out of a pool that
/// nothing else has touched, gives back exactly what was deposited.
pub proof fn law_first_deposit_round_trip(
    accounts: Deposit,
    amount: u64,
    max_x: u64,
    max_y: u64,
    curve: Option<XYAmounts>,
    min_x: u64,
    min_y: u64,
)
    requires
        accounts.pool_is_empty(),
        !accounts.config.locked,
        amount > 0,
        min_x <= max_x,
        min_y <= max_y,
    ensures
        deposit_outcome(accounts, amount, max_x, max_y, curve) == Ok::<DepositPlan, AmmError>(
            DepositPlan { x_amount: max_x, y_amount: max_y, lp_amount: amount },
        ),
        withdraw_outcome(
            Withdraw {
                config: accounts.config,
                vault_x: max_x,
                vault_y: max_y,
                lp_supply: amount,
                user_lp: amount,
            },
            amount,
            min_x,
            min_y,
        ) == Ok::<WithdrawPlan, AmmError>(
            WithdrawPlan { lp_amount: amount, x_amount: max_x, y_amount: max_y },
        ),
{
    lemma_share_bounds(max_x, amount, amount);
    lemma_share_bounds(max_y, amount, amount);
}

/// Two successive withdrawals pay out no more of a reserve than one
/// withdrawal of their sum: splitting `a + b` LP tokens into `a`, then `b`
/// out of the pool that the first one left, never gains.
pub proof fn lemma_split_share(r: u64, a: u64, b: u64, s: u64)
    requires
        s > 0,
        b > 0,
        a + b <= s,
    ensures
        share(r, a, s) <= r,
        share(r, a, s) + share((r - share(r, a, s)) as u64, b, (s - a) as u64) <= share(
            r,
            (a + b) as u64,
            s,
        ),
{
    lemma_share_bounds(r, a, s);
    let ri: int = r as int;
    let ai: int = a as int;
    let bi: int = b as int;
    let si: int = s as int;
    let q1: int = share(r, a, s);
    let r2: u64 = (r - q1) as u64;
    let s2: u64 = (s - a) as u64;
    lemma_share_bounds(r2, b, s2);
    let q2: int = share(r2, b, s2);
    let t: int = si - ai;
    // q2 * t <= (r - q1) * b
    assert(q2 * t <= (ri - q1) * bi);
    // (q1 + q2) * t <= q1 * (t - b) + r * b
    assert((q1 + q2) * t <= q1 * (t - bi) + ri * bi) by (nonlinear_arith)
        requires
            q2 * t <= (ri - q1) * bi,
    ;
    // times s, using q1 * s <= r * a and t - b >= 0
    assert(q1 * si * (t - bi) <= ri * ai * (t - bi)) by (nonlinear_arith)
        requires
            q1 * si <= ri * ai,
            t - bi >= 0,
    ;
    assert((q1 + q2) * t * si <= (q1 * (t - bi) + ri * bi) * si) by (nonlinear_arith)
        requires
            (q1 + q2) * t <= q1 * (t - bi) + ri * bi,
            si > 0,
    ;
    assert((q1 * (t - bi) + ri * bi) * si == q1 * si * (t - bi) + ri * bi * si) by (nonlinear_arith);
    assert(ri * ai * (t - bi) + ri * bi * si == ri * (ai + bi) * t) by (nonlinear_arith)
        requires
            t == si - ai,
    ;
    assert((q1 + q2) * si <= ri * (ai + bi)) by (nonlinear_arith)
        requires
            (q1 + q2) * t * si <= ri * (ai + bi) * t,
            t > 0,
    ;
    let q: int = share(r, (a + b) as u64, s);
    assert(q1 + q2 <= q) by (nonlinear_arith)
        requires
            (q1 + q2) * si <= ri * (ai + bi),
            q == ri * (ai + bi) / si,
            si > 0,
    ;
}

/// The pool that a withdrawal of `p` leaves behind.
pub open spec fn after_withdraw(accounts: Withdraw, p: WithdrawPlan) -> Withdraw {
    Withdraw {
        config: accounts.config,
        vault_x: (accounts.vault_x - p.x_amount) as u64,
        vault_y: (accounts.vault_y - p.y_amount) as u64,
        lp_supply: (accounts.lp_supply - p.lp_amount) as u64,
        user_lp: (accounts.user_lp - p.lp_amount) as u64,
    }
}

/// Splitting a withdrawal never pays more: when `a` LP tokens and then `b`
/// more are withdrawn, a single withdrawal of `a + b` is accepted at the same
/// floors and pays at least as much of each token.
pub proof fn law_split_withdrawal_never_pays_more(
    accounts: Withdraw,
    a: u64,
    b: u64,
    min_x: u64,
    min_y: u64,
)
    requires
        accounts.wf(),
        withdraw_outcome(accounts, a, min_x, min_y) is Ok,
        withdraw_outcome(
            after_withdraw(accounts, withdraw_outcome(accounts, a, min_x, min_y)->Ok_0),
            b,
            min_x,
            min_y,
        ) is Ok,
    ensures
        ({
            let p1 = withdraw_outcome(accounts, a, min_x, min_y)->Ok_0;
            let p2 = withdraw_outcome(after_withdraw(accounts, p1), b, min_x, min_y)->Ok_0;
            &&& a + b <= u64::MAX
            &&& withdraw_outcome(accounts, (a + b) as u64, min_x, min_y) matches Ok(p) && {
                &&& p.lp_amount == a + b
                &&& p1.x_amount + p2.x_amount <= p.x_amount
                &&& p1.y_amount + p2.y_amount <= p.y_amount
            }
        }),
{
    let p1 = withdraw_outcome(accounts, a, min_x, min_y)->Ok_0;
    lemma_share_bounds(accounts.vault_x, a, accounts.lp_supply);
    lemma_share_bounds(accounts.vault_y, a, accounts.lp_supply);
    lemma_split_share(accounts.vault_x, a, b, accounts.lp_supply);
    lemma_split_share(accounts.vault_y, a, b, accounts.lp_supply);
    let ab: u64 = (a + b) as u64;
    lemma_share_bounds(accounts.vault_x, ab, accounts.lp_supply);
    lemma_share_bounds(accounts.vault_y, ab, accounts.lp_supply);
    // the combined share is at least the first share, so it meets the floors
    assert(share(accounts.vault_x, a, accounts.lp_supply) <= share(accounts.vault_x, ab, accounts.lp_supply))
        by {
        lemma_share_monotone(accounts.vault_x, a, ab, accounts.lp_supply);
    }
    assert(share(accounts.vault_y, a, accounts.lp_supply) <= share(accounts.vault_y, ab, accounts.lp_supply))
        by {
        lemma_share_monotone(accounts.vault_y, a, ab, accounts.lp_supply);
    }
}

/// A larger amount of LP tokens stands for no smaller share.
pub proof fn lemma_share_monotone(r: u64, a: u64, b: u64, s: u64)
    requires
        a <= b,
        s > 0,
    ensures
        share(r, a, s) <= share(r, b, s),
{
    let ri: int = r as int;
    let ai: int = a as int;
    let bi: int = b as int;
    let si: int = s as int;
    assert(ri * ai <= ri * bi) by (nonlinear_arith)
        requires
            0 <= ri,
            ai <= bi,
    ;
    vstd::arithmetic::div_mod::lemma_div_is_ordered(ri * ai, ri * bi, si);
}

/// A locked pool moves no tokens: every deposit, swap and withdrawal is
/// refused, with `PoolLocked` unless a swap's amount is zero.
pub proof fn law_locked_pool_moves_nothing(
    deposit: Deposit,
    swap: Swap,
    withdraw: Withdraw,
    amount: u64,
    bound_x: u64,
    bound_y: u64,
    is_x: bool,
    min: u64,
    deposit_curve: Option<XYAmounts>,
    swap_curve: CurveSwap,
)
    requires
        deposit.config.locked,
        swap.config.locked,
        withdraw.config.locked,
    ensures
        deposit_outcome(deposit, amount, bound_x, bound_y, deposit_curve) == Err::<
            DepositPlan,
            AmmError,
        >(AmmError::PoolLocked),
        withdraw_outcome(withdraw, amount, bound_x, bound_y) == Err::<WithdrawPlan, AmmError>(
            AmmError::PoolLocked,
        ),
        swap.swap_outcome(is_x, amount, min, swap_curve) is Err,
        amount > 0 ==> swap.swap_outcome(is_x, amount, min, swap_curve) == Err::<
            crate::instructions::swap::SwapPlan,
            AmmError,
        >(AmmError::PoolLocked),
        deposit.curve_query_spec(amount) is None,
        swap.curve_query_spec(is_x, amount, min) is None,
{
}

/// The curve decides a deposit only where the deposit asks it: where the
/// deposit puts no question to the curve, its outcome is the same whatever
/// the curve would have answered.
pub proof fn law_deposit_consults_curve_only_when_asked(
    accounts: Deposit,
    amount: u64,
    max_x: u64,
    max_y: u64,
    curve1: Option<XYAmounts>,
    curve2: Option<XYAmounts>,
)
    requires
        accounts.curve_query_spec(amount) is None,
    ensures
        deposit_outcome(accounts, amount, max_x, max_y, curve1) == deposit_outcome(
            accounts,
            amount,
            max_x,
            max_y,
            curve2,
        ),
{
}

/// The curve decides a swap only where the swap asks it: a swap that puts
/// no question to the curve is refused, whatever the curve would answer.
pub proof fn law_swap_consults_curve_only_when_asked(
    swap: Swap,
    is_x: bool,
    amount: u64,
    min: u64,
    curve1: CurveSwap,
    curve2: CurveSwap,
)
    requires
        swap.curve_query_spec(is_x, amount, min) is None,
    ensures
        swap.swap_outcome(is_x, amount, min, curve1) is Err,
        swap.swap_outcome(is_x, amount, min, curve1) == swap.swap_outcome(is_x, amount, min, curve2),
{
}

/// Every token of a swap's input is accounted for: the protocol's share goes
/// to the treasury and the rest is what the curve is asked to swap; the
/// share, the pool's intake and the treasury's account are all in the input
/// token, the output is paid in the other token, and it meets the caller's
/// floor.
pub proof fn law_swap_accounts_for_input(
    swap: Swap,
    is_x: bool,
    amount: u64,
    min: u64,
    curve: CurveSwap,
)
    requires
        swap.swap_outcome(is_x, amount, min, curve) is Ok,
    ensures
        ({
            let p = swap.swap_outcome(is_x, amount, min, curve)->Ok_0;
            let q = swap.curve_query_spec(is_x, amount, min);
            &&& q matches Some(q) && p.protocol_fee.amount + q.amount == amount
            &&& p.protocol_fee.amount <= amount
            &&& holds_x(p.protocol_fee.from) == is_x
            &&& holds_x(p.protocol_fee.to) == is_x
            &&& holds_x(p.deposit.from) == is_x
            &&& holds_x(p.deposit.to) == is_x
            &&& holds_x(p.withdraw.from) != is_x
            &&& holds_x(p.withdraw.to) != is_x
            &&& p.withdraw.amount >= min
        }),
{
    let pf: u16 = swap.config.protocol_fee;
    assert(amount * pf / 10000 <= amount) by (nonlinear_arith)
        requires
            pf < 10000,
    ;
}


/// A new pool records the creator as its authority, the given seed, mints,
/// LP mint, treasury, fees and bump, and starts unlocked; it is refused with
/// `InvalidAmount` exactly when the swap fee is a whole or more.
pub proof fn law_initialize_records_its_inputs(
    accounts: Initialize,
    seed: u64,
    fee: u16,
    protocol_fee: u16,
)
    ensures
        fee >= 10000 ==> initialize_outcome(accounts, seed, fee, protocol_fee) == Err::<AmmConfig, AmmError>(AmmError::InvalidAmount),
        fee < 10000 ==> (initialize_outcome(accounts, seed, fee, protocol_fee) matches Ok(c) && {
            &&& c.seed == seed
            &&& c.authority == Some(accounts.payer)
            &&& c.mint_x == accounts.mint_x
            &&& c.mint_y == accounts.mint_y
            &&& c.lp_mint == accounts.lp_mint
            &&& c.treasury == accounts.treasury
            &&& !c.locked
            &&& c.fee == fee
            &&& c.protocol_fee == protocol_fee
            &&& c.bump == accounts.config_bump
        }),
{
}

/// The question a swap puts to the curve describes the pool as it is: its
/// reserve of X as `x`, of Y as `y`, its LP supply, its swap fee, the side
/// paid in, the caller's floor, and the input less the protocol's share
/// (`protocol_fee` basis points of it, rounded down). The curve is asked
/// exactly when the amount is positive, the pool unlocked and the protocol
/// fee below a whole.
pub proof fn law_swap_query_describes_the_pool(swap: Swap, is_x: bool, amount: u64, min: u64)
    ensures
        swap.curve_query_spec(is_x, amount, min) is Some <==> (amount > 0 && !swap.config.locked
            && swap.config.protocol_fee < 10000),
        swap.curve_query_spec(is_x, amount, min) matches Some(q) ==> {
            &&& q.x == swap.vault_x
            &&& q.y == swap.vault_y
            &&& q.l == swap.lp_supply
            &&& q.fee == swap.config.fee
            &&& q.precision == 6
            &&& q.pair == (if is_x { LiquidityPair::X } else { LiquidityPair::Y })
            &&& q.min == min
            &&& q.amount <= amount
            &&& (amount - q.amount) * 10000 <= amount * swap.config.protocol_fee
            &&& amount * swap.config.protocol_fee < (amount - q.amount + 1) * 10000
        },
{
    let pf: u16 = swap.config.protocol_fee;
    if amount > 0 && !swap.config.locked && pf < 10000 {
        let c: int = amount * pf / 10000;
        assert(c * 10000 <= amount * pf < (c + 1) * 10000) by (nonlinear_arith)
            requires
                c == amount * pf / 10000,
        ;
        assert(c <= amount) by (nonlinear_arith)
            requires
                c == amount * pf / 10000,
                pf < 10000,
        ;
    }
}

/// An accepted swap moves: the protocol's share from the caller's account of
/// the input token to the treasury's account of that token, signed by the
/// caller; the curve's input from the caller's account into the pool's
/// reserve of the input token, signed by the caller; the curve's output from
/// the pool's reserve of the other token to the caller's account of it,
/// signed by the pool; and the output meets the caller's floor.
pub proof fn law_swap_routes_tokens(swap: Swap, is_x: bool, amount: u64, min: u64, curve: CurveSwap)
    ensures
        swap.swap_outcome(is_x, amount, min, curve) matches Ok(p) ==> {
            &&& p.protocol_fee.from == (if is_x { TokenAccountRole::UserX } else { TokenAccountRole::UserY })
            &&& p.protocol_fee.to == (if is_x { TokenAccountRole::TreasuryX } else { TokenAccountRole::TreasuryY })
            &&& p.protocol_fee.authority == Authority::User
            &&& p.protocol_fee.amount * 10000 <= amount * swap.config.protocol_fee
            &&& amount * swap.config.protocol_fee < (p.protocol_fee.amount + 1) * 10000
            &&& p.deposit.from == (if is_x { TokenAccountRole::UserX } else { TokenAccountRole::UserY })
            &&& p.deposit.to == (if is_x { TokenAccountRole::VaultX } else { TokenAccountRole::VaultY })
            &&& p.deposit.authority == Authority::User
            &&& p.withdraw.from == (if is_x { TokenAccountRole::VaultY } else { TokenAccountRole::VaultX })
            &&& p.withdraw.to == (if is_x { TokenAccountRole::UserY } else { TokenAccountRole::UserX })
            &&& p.withdraw.authority == Authority::Config
            &&& p.withdraw.amount >= min
            &&& (curve matches CurveSwap::Swapped { deposit, withdraw } && p.deposit.amount == deposit
                && p.withdraw.amount == withdraw)
        },
{
    let pf: u16 = swap.config.protocol_fee;
    let c: int = amount * pf / 10000;
    assert(c * 10000 <= amount * pf < (c + 1) * 10000) by (nonlinear_arith)
        requires
            c == amount * pf / 10000,
    ;
    if pf < 10000 {
        assert(c <= amount) by (nonlinear_arith)
            requires
                c == amount * pf / 10000,
                pf < 10000,
        ;
    }
}

/// A swap goes through exactly when its amount is positive, the pool is
/// unlocked, the protocol fee is below a whole, and the curve swapped with an
/// output no smaller than the caller's floor.
pub proof fn law_swap_goes_through(swap: Swap, is_x: bool, amount: u64, min: u64, curve: CurveSwap)
    ensures
        swap.swap_outcome(is_x, amount, min, curve) is Ok <==> (amount > 0 && !swap.config.locked
            && swap.config.protocol_fee < 10000 && (curve matches CurveSwap::Swapped { withdraw, .. }
            && withdraw >= min)),
{
}

/// A deposit into a pool that holds liquidity takes exactly the amounts the
/// curve answered, never the caps themselves; one into an empty pool takes
/// the caps; either way it mints exactly the LP tokens asked for. It goes
/// through exactly when the pool is unlocked, the amount positive, and the
/// pool is empty or the curve's amounts are within the caps.
pub proof fn law_deposit_takes_curve_amounts(
    accounts: Deposit,
    amount: u64,
    max_x: u64,
    max_y: u64,
    curve: Option<XYAmounts>,
)
    requires
        (!accounts.config.locked && amount != 0 && !(accounts.lp_supply == 0 && accounts.vault_x == 0
            && accounts.vault_y == 0)) ==> curve is Some,
    ensures
        deposit_outcome(accounts, amount, max_x, max_y, curve) matches Ok(p) ==> {
            &&& p.lp_amount == amount
            &&& (accounts.lp_supply == 0 && accounts.vault_x == 0 && accounts.vault_y == 0)
                ==> p.x_amount == max_x && p.y_amount == max_y
            &&& !(accounts.lp_supply == 0 && accounts.vault_x == 0 && accounts.vault_y == 0)
                ==> (curve matches Some(q) && p.x_amount == q.x && p.y_amount == q.y)
        },
        (!accounts.config.locked && amount != 0 && !(accounts.lp_supply == 0 && accounts.vault_x == 0
            && accounts.vault_y == 0) && (curve matches Some(q) && q.x <= max_x && q.y <= max_y))
            ==> deposit_outcome(accounts, amount, max_x, max_y, curve) is Ok,
        deposit_outcome(accounts, amount, max_x, max_y, curve) is Ok <==> (!accounts.config.locked
            && amount != 0 && ((accounts.lp_supply == 0 && accounts.vault_x == 0 && accounts.vault_y == 0)
            || (curve matches Some(q) && q.x <= max_x && q.y <= max_y))),
{
}

/// A withdrawal goes through exactly when the pool is unlocked, the amount
/// is positive and at most the caller's LP tokens, and each reserve's share
/// `reserve * amount / supply` (rounded down) meets its floor; it then burns
/// exactly `amount` LP tokens and pays exactly those shares.
pub proof fn law_withdraw_pays_its_share(accounts: Withdraw, amount: u64, min_x: u64, min_y: u64)
    requires
        accounts.user_lp <= accounts.lp_supply,
    ensures
        withdraw_outcome(accounts, amount, min_x, min_y) is Ok <==> (!accounts.config.locked && 0
            < amount <= accounts.user_lp && accounts.vault_x * amount / (accounts.lp_supply as int)
            >= min_x && accounts.vault_y * amount / (accounts.lp_supply as int) >= min_y),
        withdraw_outcome(accounts, amount, min_x, min_y) matches Ok(p) ==> {
            &&& p.lp_amount == amount
            &&& p.x_amount * accounts.lp_supply <= accounts.vault_x * amount < (p.x_amount + 1)
                * accounts.lp_supply
            &&& p.y_amount * accounts.lp_supply <= accounts.vault_y * amount < (p.y_amount + 1)
                * accounts.lp_supply
        },
{
    if !accounts.config.locked && 0 < amount <= accounts.user_lp {
        lemma_share_bounds(accounts.vault_x, amount, accounts.lp_supply);
        lemma_share_bounds(accounts.vault_y, amount, accounts.lp_supply);
    }
}

/// The seeds of a pool's address are the bytes of `"amm_config"` and the
/// seed's eight bytes, least significant first; it signs with those and its
/// bump; its LP mint's seeds are the bytes of `"lp"` and the configuration
/// account's address, byte for byte.
pub proof fn law_seed_layout(seed: u64, bump: u8, config: Pubkey)
    ensures
        config_address_seeds_spec(seed) == seq![
            seq![97u8, 109u8, 109u8, 95u8, 99u8, 111u8, 110u8, 102u8, 105u8, 103u8],
            spec_u64_to_le_bytes(seed),
        ],
        config_signer_seeds_spec(seed, bump) == seq![
            seq![97u8, 109u8, 109u8, 95u8, 99u8, 111u8, 110u8, 102u8, 105u8, 103u8],
            spec_u64_to_le_bytes(seed),
            seq![bump],
        ],
        lp_mint_seeds_spec(config) == seq![seq![108u8, 112u8], config@],
        forall|i: int| 0 <= i < 32 ==> #[trigger] lp_mint_seeds_spec(config)[1][i] == config[i],
{
    assert(config_signer_seeds_spec(seed, bump) =~= seq![
        seq![97u8, 109u8, 109u8, 95u8, 99u8, 111u8, 110u8, 102u8, 105u8, 103u8],
        spec_u64_to_le_bytes(seed),
        seq![bump],
    ]);
}

/// The question a deposit puts to the curve describes the pool as it is:
/// its reserves of X and Y, its LP supply and the LP tokens asked for. The
/// curve is asked exactly when the pool is unlocked, the amount positive and
/// the pool not empty.
pub proof fn law_deposit_query_describes_the_pool(accounts: Deposit, amount: u64)
    ensures
        accounts.curve_query_spec(amount) is Some <==> (!accounts.config.locked && amount != 0
            && !(accounts.lp_supply == 0 && accounts.vault_x == 0 && accounts.vault_y == 0)),
        accounts.curve_query_spec(amount) matches Some(q) ==> {
            &&& q.x == accounts.vault_x
            &&& q.y == accounts.vault_y
            &&& q.l == accounts.lp_supply
            &&& q.lp_amount == amount
            &&& q.precision == 6
        },
{
}

} // verus!
