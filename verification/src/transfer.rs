use vstd::prelude::*;

verus! {

/// The token accounts that the pool's instructions move tokens between.
#[derive(Clone, Copy, Debug, PartialEq, Eq, Structural)]
pub enum TokenAccountRole {
    /// The caller's account of token X.
    UserX,
    /// The caller's account of token Y.
    UserY,
    /// The pool's reserve of token X.
    VaultX,
    /// The pool's reserve of token Y.
    VaultY,
    /// The treasury's account of token X.
    TreasuryX,
    /// The treasury's account of token Y.
    TreasuryY,
}

/// Who signs a transfer.
#[derive(Clone, Copy, Debug, PartialEq, Eq, Structural)]
pub enum Authority {
    /// The caller.
    User,
    /// The pool's configuration account, by its derived address.
    Config,
}

/// A movement of `amount` tokens from one account to another.
#[derive(Clone, Copy, Debug, PartialEq, Eq, Structural)]
pub struct Transfer {
    pub from: TokenAccountRole,
    pub to: TokenAccountRole,
    pub amount: u64,
    pub authority: Authority,
}

/// The caller's account of the token that a swap takes in.
pub open spec fn user_account_in(is_x: bool) -> TokenAccountRole {
    if is_x { TokenAccountRole::UserX } else { TokenAccountRole::UserY }
}

/// The pool's reserve of the token that a swap takes in.
pub open spec fn vault_in(is_x: bool) -> TokenAccountRole {
    if is_x { TokenAccountRole::VaultX } else { TokenAccountRole::VaultY }
}

/// The pool's reserve of the token that a swap pays out.
pub open spec fn vault_out(is_x: bool) -> TokenAccountRole {
    if is_x { TokenAccountRole::VaultY } else { TokenAccountRole::VaultX }
}

/// The caller's account of the token that a swap pays out.
pub open spec fn user_account_out(is_x: bool) -> TokenAccountRole {
    if is_x { TokenAccountRole::UserY } else { TokenAccountRole::UserX }
}

/// The treasury's account of the token that a swap takes in.
pub open spec fn treasury_in(is_x: bool) -> TokenAccountRole {
    if is_x { TokenAccountRole::TreasuryX } else { TokenAccountRole::TreasuryY }
}

/// The token that an account holds: `true` for X, `false` for Y.
pub open spec fn holds_x(role: TokenAccountRole) -> bool {
    match role {
        TokenAccountRole::UserX | TokenAccountRole::VaultX | TokenAccountRole::TreasuryX => true,
        _ => false,
    }
}

} // verus!
