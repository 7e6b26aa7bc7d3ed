//! Per-user deposit, borrow and repay ledger with a 50% loan-to-value cap.

use vstd::prelude::*;
use crate::ledger::{Address, Outcome, Transfer, outcome_view};

verus! {

/// A lending market. The interest rate is recorded but applies to no balance.
#[derive(Clone, Copy, Debug, PartialEq, Eq, Structural)]
pub struct Market {
    pub token_mint: Address,
    pub interest_rate: u16,
}

/// One user's position in a market.
#[derive(Clone, Copy, Debug, PartialEq, Eq, Structural)]
pub struct UserAccount {
    pub deposited_amount: u64,
    pub borrowed_amount: u64,
}

#[derive(Clone, Copy, Debug, PartialEq, Eq, Structural)]
pub enum ErrorCode {
    InsufficientCollateral,
    /// A deposit or a repayment of nothing.
    ZeroAmount,
    Overflow,
}

/// The token mint that a new market governs.
#[derive(Clone, Copy, Debug, PartialEq, Eq, Structural)]
pub struct Initialize {
    pub token_mint: Address,
}

/// The user's token account and the market's vault, for a deposit.
#[derive(Clone, Copy, Debug, PartialEq, Eq, Structural)]
pub struct Deposit {
    pub user_token_account: Address,
    pub vault_token_account: Address,
}

/// The user's token account and the market's vault, for a loan.
#[derive(Clone, Copy, Debug, PartialEq, Eq, Structural)]
pub struct Borrow {
    pub user_token_account: Address,
    pub vault_token_account: Address,
}

/// The user's token account and the market's vault, for a repayment.
#[derive(Clone, Copy, Debug, PartialEq, Eq, Structural)]
pub struct Repay {
    pub user_token_account: Address,
    pub vault_token_account: Address,
}

/// Debt at most half of the collateral.
pub open spec fn collateralised(a: UserAccount) -> bool {
    a.borrowed_amount * 2 <= a.deposited_amount
}

pub fn initialize(ctx: &Initialize, interest_rate: u16) -> (r: Market)
    ensures
        r == (Market { token_mint: ctx.token_mint, interest_rate }),
{
    Market { token_mint: ctx.token_mint, interest_rate }
}

/// A fresh position: nothing deposited, nothing owed.
pub fn init_user() -> (r: UserAccount)
    ensures
        r == (UserAccount { deposited_amount: 0, borrowed_amount: 0 }),
        collateralised(r),
{
    UserAccount { deposited_amount: 0, borrowed_amount: 0 }
}

pub open spec fn deposit_spec(ctx: Deposit, a: UserAccount, amount: u64) -> Result<
    (UserAccount, Seq<Transfer>),
    ErrorCode,
> {
    if amount == 0 {
        Err(ErrorCode::ZeroAmount)
    } else if a.deposited_amount + amount > u64::MAX {
        Err(ErrorCode::Overflow)
    } else {
        Ok(
            (
                UserAccount { deposited_amount: (a.deposited_amount + amount) as u64, ..a },
                seq![
                    Transfer {
                        from: ctx.user_token_account,
                        to: ctx.vault_token_account,
                        amount,
                    },
                ],
            ),
        )
    }
}

/// Moves `amount` from the user to the vault and credits it as collateral.
pub fn deposit(ctx: &Deposit, user_account: &UserAccount, amount: u64) -> (r: Result<
    Outcome<UserAccount>,
    ErrorCode,
>)
    ensures
        outcome_view(r) == deposit_spec(*ctx, *user_account, amount),
{
    if amount == 0 {
        return Err(ErrorCode::ZeroAmount);
    }
    let deposited = match user_account.deposited_amount.checked_add(amount) {
        Some(d) => d,
        None => {
            return Err(ErrorCode::Overflow);
        },
    };
    let next = UserAccount { deposited_amount: deposited, ..*user_account };
    let transfers = vec![
        Transfer { from: ctx.user_token_account, to: ctx.vault_token_account, amount },
    ];
    assert(transfers@ =~= seq![
        Transfer { from: ctx.user_token_account, to: ctx.vault_token_account, amount },
    ]);
    Ok(Outcome { next, transfers })
}

pub open spec fn borrow_spec(ctx: Borrow, a: UserAccount, amount: u64) -> Result<
    (UserAccount, Seq<Transfer>),
    ErrorCode,
> {
    if (a.borrowed_amount + amount) * 2 > a.deposited_amount {
        Err(ErrorCode::InsufficientCollateral)
    } else {
        Ok(
            (
                UserAccount { borrowed_amount: (a.borrowed_amount + amount) as u64, ..a },
                seq![
                    Transfer {
                        from: ctx.vault_token_account,
                        to: ctx.user_token_account,
                        amount,
                    },
                ],
            ),
        )
    }
}

/// Lends `amount` from the vault, provided the whole debt stays at most half
/// of the deposit.
pub fn borrow(ctx: &Borrow, user_account: &UserAccount, amount: u64) -> (r: Result<
    Outcome<UserAccount>,
    ErrorCode,
>)
    ensures
        outcome_view(r) == borrow_spec(*ctx, *user_account, amount),
{
    let new_borrowed = user_account.borrowed_amount as u128 + amount as u128;
    if new_borrowed * 2 > user_account.deposited_amount as u128 {
        return Err(ErrorCode::InsufficientCollateral);
    }
    let next = UserAccount { borrowed_amount: new_borrowed as u64, ..*user_account };
    let transfers = vec![
        Transfer { from: ctx.vault_token_account, to: ctx.user_token_account, amount },
    ];
    assert(transfers@ =~= seq![
        Transfer { from: ctx.vault_token_account, to: ctx.user_token_account, amount },
    ]);
    Ok(Outcome { next, transfers })
}

pub open spec fn repay_spec(ctx: Repay, a: UserAccount, amount: u64) -> Result<
    (UserAccount, Seq<Transfer>),
    ErrorCode,
> {
    if amount == 0 {
        Err(ErrorCode::ZeroAmount)
    } else {
        Ok(
            (
                UserAccount {
                    borrowed_amount: if a.borrowed_amount >= amount {
                        (a.borrowed_amount - amount) as u64
                    } else {
                        0
                    },
                    ..a
                },
                seq![
                    Transfer {
                        from: ctx.user_token_account,
                        to: ctx.vault_token_account,
                        amount,
                    },
                ],
            ),
        )
    }
}

/// Moves `amount` from the user to the vault and lowers the debt by it, down
/// to zero at most: an overpayment is kept by the vault.
pub fn repay(ctx: &Repay, user_account: &UserAccount, amount: u64) -> (r: Result<
    Outcome<UserAccount>,
    ErrorCode,
>)
    ensures
        outcome_view(r) == repay_spec(*ctx, *user_account, amount),
{
    if amount == 0 {
        return Err(ErrorCode::ZeroAmount);
    }
    let borrowed = if user_account.borrowed_amount >= amount {
        user_account.borrowed_amount - amount
    } else {
        0
    };
    let next = UserAccount { borrowed_amount: borrowed, ..*user_account };
    let transfers = vec![
        Transfer { from: ctx.user_token_account, to: ctx.vault_token_account, amount },
    ];
    assert(transfers@ =~= seq![
        Transfer { from: ctx.user_token_account, to: ctx.vault_token_account, amount },
    ]);
    Ok(Outcome { next, transfers })
}

/// One call on a position, with the arguments that it was given.
#[derive(Clone, Copy, Debug, PartialEq, Eq, Structural)]
pub enum LendingCall {
    Deposit(Deposit, u64),
    Borrow(Borrow, u64),
    Repay(Repay, u64),
}

/// The position after `call`, where `settled` says whether the host's
/// transfers succeeded: a failed call, or one whose transfers failed, leaves
/// it as it was.
pub open spec fn apply_call(a: UserAccount, call: LendingCall, settled: bool) -> UserAccount {
    let r = match call {
        LendingCall::Deposit(c, n) => deposit_spec(c, a, n),
        LendingCall::Borrow(c, n) => borrow_spec(c, a, n),
        LendingCall::Repay(c, n) => repay_spec(c, a, n),
    };
    match r {
        Ok((next, _)) => if settled {
            next
        } else {
            a
        },
        Err(_) => a,
    }
}

/// The position after each call of `calls` in turn.
pub open spec fn apply_calls(a: UserAccount, calls: Seq<(LendingCall, bool)>) -> UserAccount
    decreases calls.len(),
{
    if calls.len() == 0 {
        a
    } else {
        apply_call(apply_calls(a, calls.drop_last()), calls.last().0, calls.last().1)
    }
}

/// After any sequence of deposits, loans and repayments, each settled or not,
/// a position that started with its debt at most half of its collateral still
/// has it so.
pub proof fn lemma_collateral_preserved(a: UserAccount, calls: Seq<(LendingCall, bool)>)
    requires
        collateralised(a),
    ensures
        collateralised(apply_calls(a, calls)),
    decreases calls.len(),
{
    if calls.len() > 0 {
        lemma_collateral_preserved(a, calls.drop_last());
    }
}

} // verus!
