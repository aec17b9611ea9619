use amm_program::constants::{LP_DECIMALS, MAX_BPS};
use amm_program::error::AmmError;
use amm_program::instructions::deposit::{handle_deposit, Deposit, DepositPlan, DepositQuery, XYAmounts};
use amm_program::instructions::initialize::{handle_initialize, Initialize};
use amm_program::instructions::swap::{CurveSwap, LiquidityPair, Swap, SwapQuery};
use amm_program::instructions::withdraw::{handle_withdraw, proportional_share, Withdraw, WithdrawPlan};
use amm_program::state::{config_address_seeds, config_signer_seeds, lp_mint_seeds, AmmConfig};
use amm_program::transfer::{Authority, TokenAccountRole, Transfer};

fn accounts() -> Initialize {
    Initialize {
        payer: [1u8; 32],
        mint_x: [2u8; 32],
        mint_y: [3u8; 32],
        treasury: [4u8; 32],
        lp_mint: [5u8; 32],
        config_bump: 254,
    }
}

fn config(fee: u16, protocol_fee: u16) -> AmmConfig {
    handle_initialize(&accounts(), 1, fee, protocol_fee).unwrap()
}

fn locked_config() -> AmmConfig {
    let mut c = config(30, 10);
    c.locked = true;
    c
}

#[test]
fn test_full_amm_flow() {
    // Initialize
    let seed: u64 = 1;
    let config_state = handle_initialize(&accounts(), seed, 30, 10).unwrap();
    assert_eq!(config_state.seed, seed);
    assert_eq!(config_state.mint_x, [2u8; 32]);
    assert_eq!(config_state.mint_y, [3u8; 32]);
    assert_eq!(config_state.lp_mint, [5u8; 32]);
    assert_eq!(config_state.treasury, [4u8; 32]);
    assert_eq!(config_state.fee, 30);
    assert_eq!(config_state.protocol_fee, 10);

    // Deposit into the empty pool
    let deposit = Deposit { config: config_state, vault_x: 0, vault_y: 0, lp_supply: 0 };
    assert_eq!(deposit.curve_query(100_000_000), None);
    let plan = handle_deposit(&deposit, 100_000_000, 200_000_000, 200_000_000, None).unwrap();
    let vault_x = plan.x_amount;
    let vault_y = plan.y_amount;
    let user_lp = plan.lp_amount;
    assert_eq!(vault_x, 200_000_000);
    assert_eq!(vault_y, 200_000_000);
    assert_eq!(user_lp, 100_000_000);

    // Swap X for Y with the protocol fee
    let swap_amount = 10_000_000u64;
    let protocol_cut = swap_amount * 10 / 10_000;
    let swap = Swap { config: config_state, vault_x, vault_y, lp_supply: user_lp };
    let query = swap.curve_query(true, swap_amount, 1).unwrap();
    assert_eq!(query.amount, swap_amount - protocol_cut);
    let out = 9_040_000u64;
    let plan = swap
        .swap(true, swap_amount, 1, CurveSwap::Swapped { deposit: query.amount, withdraw: out })
        .unwrap();
    assert_eq!(plan.protocol_fee.to, TokenAccountRole::TreasuryX);
    assert_eq!(plan.protocol_fee.amount, protocol_cut);
    let vault_x = vault_x + plan.deposit.amount;
    let vault_y = vault_y - plan.withdraw.amount;

    // Withdraw every LP token
    let withdraw = Withdraw { config: config_state, vault_x, vault_y, lp_supply: user_lp, user_lp };
    let plan = handle_withdraw(&withdraw, 100_000_000, 1, 1).unwrap();
    assert_eq!(user_lp - plan.lp_amount, 0);
    assert_eq!(plan.x_amount, vault_x);
    assert_eq!(plan.y_amount, vault_y);
}

#[test]
fn initialize_sets_every_field() {
    let c = handle_initialize(&accounts(), 42, 9_999, 25).unwrap();
    assert_eq!(
        c,
        AmmConfig {
            seed: 42,
            authority: Some([1u8; 32]),
            mint_x: [2u8; 32],
            mint_y: [3u8; 32],
            lp_mint: [5u8; 32],
            treasury: [4u8; 32],
            locked: false,
            fee: 9_999,
            protocol_fee: 25,
            bump: 254,
        }
    );
}

#[test]
fn initialize_refuses_a_whole_fee() {
    assert_eq!(handle_initialize(&accounts(), 1, MAX_BPS, 0), Err(AmmError::InvalidAmount));
    assert_eq!(handle_initialize(&accounts(), 1, u16::MAX, 0), Err(AmmError::InvalidAmount));
}

#[test]
fn error_messages() {
    assert_eq!(AmmError::InvalidAmount.msg(), "Amount cannot be zero");
    assert_eq!(AmmError::PoolLocked.msg(), "Pool is locked");
    assert_eq!(AmmError::SlippageExceeded.msg(), "Slippage tolerance exceeded");
    assert_eq!(AmmError::InsufficientFunds.msg(), "Insufficient LP token balance");
}

#[test]
fn deposit_into_live_pool_uses_curve_amounts() {
    let d = Deposit { config: config(30, 10), vault_x: 1_000, vault_y: 2_000, lp_supply: 500 };
    assert_eq!(
        d.curve_query(50),
        Some(DepositQuery { x: 1_000, y: 2_000, l: 500, lp_amount: 50, precision: LP_DECIMALS })
    );
    let r = handle_deposit(&d, 50, 100, 200, Some(XYAmounts { x: 100, y: 200 }));
    assert_eq!(r, Ok(DepositPlan { x_amount: 100, y_amount: 200, lp_amount: 50 }));
}

#[test]
fn deposit_slippage_on_either_side() {
    let d = Deposit { config: config(30, 10), vault_x: 1_000, vault_y: 2_000, lp_supply: 500 };
    let r = handle_deposit(&d, 50, 99, 200, Some(XYAmounts { x: 100, y: 200 }));
    assert_eq!(r, Err(AmmError::SlippageExceeded));
    let r = handle_deposit(&d, 50, 100, 199, Some(XYAmounts { x: 100, y: 200 }));
    assert_eq!(r, Err(AmmError::SlippageExceeded));
}

#[test]
fn deposit_refusals() {
    let d = Deposit { config: config(30, 10), vault_x: 0, vault_y: 0, lp_supply: 0 };
    assert_eq!(handle_deposit(&d, 0, 10, 10, None), Err(AmmError::InvalidAmount));
    let l = Deposit { config: locked_config(), vault_x: 0, vault_y: 0, lp_supply: 0 };
    assert_eq!(handle_deposit(&l, 0, 10, 10, None), Err(AmmError::PoolLocked));
    assert_eq!(l.curve_query(5), None);
}

#[test]
fn deposit_with_only_one_vault_empty_asks_the_curve() {
    let d = Deposit { config: config(30, 10), vault_x: 0, vault_y: 7, lp_supply: 0 };
    assert!(!d.is_empty_pool());
    assert!(d.curve_query(3).is_some());
}

#[test]
fn swap_y_for_x_routes() {
    let s = Swap { config: config(30, 100), vault_x: 5_000, vault_y: 5_000, lp_supply: 5_000 };
    let q = s.curve_query(false, 1_000, 5).unwrap();
    assert_eq!(
        q,
        SwapQuery {
            x: 5_000,
            y: 5_000,
            l: 5_000,
            fee: 30,
            precision: LP_DECIMALS,
            pair: LiquidityPair::Y,
            amount: 990,
            min: 5,
        }
    );
    let p = s.swap(false, 1_000, 5, CurveSwap::Swapped { deposit: 990, withdraw: 820 }).unwrap();
    assert_eq!(
        p.protocol_fee,
        Transfer { from: TokenAccountRole::UserY, to: TokenAccountRole::TreasuryY, amount: 10, authority: Authority::User }
    );
    assert_eq!(
        p.deposit,
        Transfer { from: TokenAccountRole::UserY, to: TokenAccountRole::VaultY, amount: 990, authority: Authority::User }
    );
    assert_eq!(
        p.withdraw,
        Transfer { from: TokenAccountRole::VaultX, to: TokenAccountRole::UserX, amount: 820, authority: Authority::Config }
    );
}

#[test]
fn swap_x_for_y_routes() {
    let s = Swap { config: config(30, 0), vault_x: 5_000, vault_y: 5_000, lp_supply: 5_000 };
    let p = s.swap(true, 1_000, 0, CurveSwap::Swapped { deposit: 1_000, withdraw: 830 }).unwrap();
    assert_eq!(p.protocol_fee.amount, 0);
    assert_eq!(p.deposit.to, TokenAccountRole::VaultX);
    assert_eq!(p.withdraw.from, TokenAccountRole::VaultY);
    assert_eq!(p.withdraw.to, TokenAccountRole::UserY);
}

#[test]
fn swap_protocol_fee_rounds_down() {
    let s = Swap { config: config(30, 10), vault_x: 5_000, vault_y: 5_000, lp_supply: 5_000 };
    assert_eq!(s.protocol_fee_amount(999), 0);
    assert_eq!(s.protocol_fee_amount(1_999), 1);
    assert_eq!(s.protocol_fee_amount(u64::MAX), 18_446_744_073_709_551);
}

#[test]
fn swap_refusals() {
    let s = Swap { config: config(30, 10), vault_x: 5_000, vault_y: 5_000, lp_supply: 5_000 };
    let ok = CurveSwap::Swapped { deposit: 1_000, withdraw: 900 };
    assert_eq!(s.swap(true, 0, 0, ok), Err(AmmError::InvalidAmount));
    assert_eq!(s.swap(true, 1_000, 0, CurveSwap::InitFailed), Err(AmmError::InvalidAmount));
    assert_eq!(s.swap(true, 1_000, 0, CurveSwap::SwapFailed), Err(AmmError::SlippageExceeded));
    assert_eq!(s.swap(true, 1_000, 901, ok), Err(AmmError::SlippageExceeded));
    assert!(s.swap(true, 1_000, 900, ok).is_ok());
    let l = Swap { config: locked_config(), vault_x: 5_000, vault_y: 5_000, lp_supply: 5_000 };
    assert_eq!(l.swap(true, 1_000, 0, ok), Err(AmmError::PoolLocked));
    assert_eq!(l.swap(true, 0, 0, ok), Err(AmmError::InvalidAmount));
    assert_eq!(l.curve_query(true, 1_000, 0), None);
    let w = Swap { config: config(30, MAX_BPS), vault_x: 5_000, vault_y: 5_000, lp_supply: 5_000 };
    assert_eq!(w.swap(true, 1_000, 0, ok), Err(AmmError::InvalidAmount));
    assert_eq!(w.curve_query(true, 1_000, 0), None);
}

#[test]
fn withdraw_pays_proportional_share() {
    let w = Withdraw { config: config(30, 10), vault_x: 1_000, vault_y: 10, lp_supply: 3, user_lp: 2 };
    assert_eq!(handle_withdraw(&w, 1, 0, 0), Ok(WithdrawPlan { lp_amount: 1, x_amount: 333, y_amount: 3 }));
    assert_eq!(handle_withdraw(&w, 2, 0, 0), Ok(WithdrawPlan { lp_amount: 2, x_amount: 666, y_amount: 6 }));
    assert_eq!(proportional_share(u64::MAX, u64::MAX, u64::MAX), u64::MAX);
    assert_eq!(proportional_share(u64::MAX, 1, 2), u64::MAX / 2);
}

#[test]
fn withdraw_refusals() {
    let w = Withdraw { config: config(30, 10), vault_x: 1_000, vault_y: 10, lp_supply: 3, user_lp: 2 };
    assert_eq!(handle_withdraw(&w, 0, 0, 0), Err(AmmError::InvalidAmount));
    assert_eq!(handle_withdraw(&w, 3, 0, 0), Err(AmmError::InsufficientFunds));
    assert_eq!(handle_withdraw(&w, 1, 334, 0), Err(AmmError::SlippageExceeded));
    assert_eq!(handle_withdraw(&w, 1, 0, 4), Err(AmmError::SlippageExceeded));
    let l = Withdraw { config: locked_config(), vault_x: 1_000, vault_y: 10, lp_supply: 3, user_lp: 2 };
    assert_eq!(handle_withdraw(&l, 0, 0, 0), Err(AmmError::PoolLocked));
}

#[test]
fn first_deposit_round_trip() {
    let d = Deposit { config: config(30, 10), vault_x: 0, vault_y: 0, lp_supply: 0 };
    let p = handle_deposit(&d, 77, 1_234, 5_678, None).unwrap();
    let w = Withdraw {
        config: d.config,
        vault_x: p.x_amount,
        vault_y: p.y_amount,
        lp_supply: p.lp_amount,
        user_lp: p.lp_amount,
    };
    assert_eq!(handle_withdraw(&w, 77, 1_234, 5_678), Ok(WithdrawPlan { lp_amount: 77, x_amount: 1_234, y_amount: 5_678 }));
}

#[test]
fn split_withdrawal_never_pays_more() {
    let w = Withdraw { config: config(30, 10), vault_x: 10, vault_y: 7, lp_supply: 4, user_lp: 4 };
    let p1 = handle_withdraw(&w, 1, 0, 0).unwrap();
    let rest = Withdraw {
        config: w.config,
        vault_x: w.vault_x - p1.x_amount,
        vault_y: w.vault_y - p1.y_amount,
        lp_supply: w.lp_supply - 1,
        user_lp: w.user_lp - 1,
    };
    let p2 = handle_withdraw(&rest, 2, 0, 0).unwrap();
    let p = handle_withdraw(&w, 3, 0, 0).unwrap();
    assert_eq!((p1.x_amount, p2.x_amount, p.x_amount), (2, 5, 7));
    assert!(p1.y_amount + p2.y_amount <= p.y_amount);
}

#[test]
fn seeds() {
    let s = config_address_seeds(1);
    assert_eq!(s, vec![b"amm_config".to_vec(), 1u64.to_le_bytes().to_vec()]);
    let s = config_signer_seeds(0x0102_0304_0506_0708, 255);
    assert_eq!(
        s,
        vec![b"amm_config".to_vec(), vec![8, 7, 6, 5, 4, 3, 2, 1], vec![255]]
    );
    let s = lp_mint_seeds(&[9u8; 32]);
    assert_eq!(s, vec![b"lp".to_vec(), vec![9u8; 32]]);
}
