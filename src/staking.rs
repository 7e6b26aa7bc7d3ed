//! Staking pool with linear, time-weighted rewards paid on withdrawal.

use vstd::prelude::*;
use crate::ledger::{Address, Outcome, Transfer, outcome_view, outflow};

verus! {

/// The divisor applied to `elapsed * reward_rate * amount`.
pub const REWARD_SCALE: u64 = 100000;

/// A staking pool and its reward rate.
#[derive(Clone, Copy, Debug, PartialEq, Eq, Structural)]
pub struct Pool {
    pub token_mint: Address,
    pub reward_rate: u64,
}

/// One user's stake, and the time its balance last changed.
#[derive(Clone, Copy, Debug, PartialEq, Eq, Structural)]
pub struct UserStake {
    pub amount: u64,
    pub staked_at: i64,
}

#[derive(Clone, Copy, Debug, PartialEq, Eq, Structural)]
pub enum ErrorCode {
    InsufficientFunds,
    /// A stake of nothing.
    ZeroAmount,
    /// The clock reads earlier than the stake's last change.
    ClockBehind,
    Overflow,
}

/// The token mint that a new pool governs.
#[derive(Clone, Copy, Debug, PartialEq, Eq, Structural)]
pub struct Initialize {
    pub token_mint: Address,
}

/// The user's token account, the pool's vault and the time of the stake.
#[derive(Clone, Copy, Debug, PartialEq, Eq, Structural)]
pub struct Stake {
    pub user_token_account: Address,
    pub vault_token_account: Address,
    pub now: i64,
}

/// The user's token account, the pool's vault and the time of the withdrawal.
#[derive(Clone, Copy, Debug, PartialEq, Eq, Structural)]
pub struct Unstake {
    pub user_token_account: Address,
    pub vault_token_account: Address,
    pub now: i64,
}

pub fn initialize(ctx: &Initialize, reward_rate: u64) -> (r: Pool)
    ensures
        r == (Pool { token_mint: ctx.token_mint, reward_rate }),
{
    Pool { token_mint: ctx.token_mint, reward_rate }
}

/// A fresh stake of nothing.
pub fn init_stake() -> (r: UserStake)
    ensures
        r == (UserStake { amount: 0, staked_at: 0 }),
{
    UserStake { amount: 0, staked_at: 0 }
}

/// The reward for holding `amount` for `elapsed` seconds at `rate`, rounded down.
pub open spec fn reward_of(elapsed: int, rate: u64, amount: u64) -> int {
    elapsed * rate * amount / (REWARD_SCALE as int)
}

pub open spec fn stake_spec(ctx: Stake, s: UserStake, amount: u64) -> Result<
    (UserStake, Seq<Transfer>),
    ErrorCode,
> {
    if amount == 0 {
        Err(ErrorCode::ZeroAmount)
    } else if s.amount + amount > u64::MAX {
        Err(ErrorCode::Overflow)
    } else {
        Ok(
            (
                UserStake { amount: (s.amount + amount) as u64, staked_at: ctx.now },
                seq![
                    Transfer {
                        from: ctx.user_token_account,
                        to: ctx.vault_token_account,
                        amount,
                    },
                ],
            ),
        )
    }
}

/// Moves `amount` into the vault and adds it to the stake, restarting the
/// stake's clock: time accrued on the earlier balance is given up.
pub fn stake(ctx: &Stake, user_stake: &UserStake, amount: u64) -> (r: Result<
    Outcome<UserStake>,
    ErrorCode,
>)
    ensures
        outcome_view(r) == stake_spec(*ctx, *user_stake, amount),
{
    if amount == 0 {
        return Err(ErrorCode::ZeroAmount);
    }
    let total = match user_stake.amount.checked_add(amount) {
        Some(t) => t,
        None => {
            return Err(ErrorCode::Overflow);
        },
    };
    let next = UserStake { amount: total, staked_at: ctx.now };
    let transfers = vec![
        Transfer { from: ctx.user_token_account, to: ctx.vault_token_account, amount },
    ];
    assert(transfers@ =~= seq![
        Transfer { from: ctx.user_token_account, to: ctx.vault_token_account, amount },
    ]);
    Ok(Outcome { next, transfers })
}

/// The transfers of a withdrawal: the principal, then the reward if any.
pub open spec fn payout(ctx: Unstake, amount: u64, reward: u64) -> Seq<Transfer> {
    let principal = Transfer {
        from: ctx.vault_token_account,
        to: ctx.user_token_account,
        amount,
    };
    if reward > 0 {
        seq![
            principal,
            Transfer { from: ctx.vault_token_account, to: ctx.user_token_account, amount: reward },
        ]
    } else {
        seq![principal]
    }
}

pub open spec fn unstake_spec(ctx: Unstake, pool: Pool, s: UserStake, amount: u64) -> Result<
    (UserStake, Seq<Transfer>),
    ErrorCode,
> {
    if amount > s.amount {
        Err(ErrorCode::InsufficientFunds)
    } else if ctx.now < s.staked_at {
        Err(ErrorCode::ClockBehind)
    } else if reward_of(ctx.now - s.staked_at, pool.reward_rate, amount) > u64::MAX {
        Err(ErrorCode::Overflow)
    } else {
        let reward = reward_of(ctx.now - s.staked_at, pool.reward_rate, amount) as u64;
        Ok(
            (
                UserStake { amount: (s.amount - amount) as u64, staked_at: ctx.now },
                payout(ctx, amount, reward),
            ),
        )
    }
}

/// Withdraws `amount` of the stake with its reward for the time since the
/// stake last changed, and restarts the clock on what remains.
pub fn unstake(ctx: &Unstake, pool: &Pool, user_stake: &UserStake, amount: u64) -> (r: Result<
    Outcome<UserStake>,
    ErrorCode,
>)
    ensures
        outcome_view(r) == unstake_spec(*ctx, *pool, *user_stake, amount),
{
    if amount > user_stake.amount {
        return Err(ErrorCode::InsufficientFunds);
    }
    if ctx.now < user_stake.staked_at {
        return Err(ErrorCode::ClockBehind);
    }
    let elapsed = (ctx.now as i128 - user_stake.staked_at as i128) as u128;
    let rate = pool.reward_rate as u128;
    assert(elapsed * rate <= u128::MAX) by (nonlinear_arith)
        requires
            elapsed <= u64::MAX,
            rate <= u64::MAX,
    ;
    let weighted = elapsed * rate;
    let reward = match weighted.checked_mul(amount as u128) {
        Some(product) => {
            let reward = product / (REWARD_SCALE as u128);
            if reward > u64::MAX as u128 {
                return Err(ErrorCode::Overflow);
            }
            reward as u64
        },
        None => {
            assert(weighted * amount / (REWARD_SCALE as int) > u64::MAX) by (nonlinear_arith)
                requires
                    weighted * amount > u128::MAX,
            ;
            return Err(ErrorCode::Overflow);
        },
    };
    let next = UserStake { amount: user_stake.amount - amount, staked_at: ctx.now };
    let mut transfers = vec![
        Transfer { from: ctx.vault_token_account, to: ctx.user_token_account, amount },
    ];
    if reward > 0 {
        transfers.push(
            Transfer { from: ctx.vault_token_account, to: ctx.user_token_account, amount: reward },
        );
    }
    assert(transfers@ =~= payout(*ctx, amount, reward));
    Ok(Outcome { next, transfers })
}

/// A withdrawal of `amount` that succeeds moves exactly `amount` plus the
/// reward `elapsed * rate * amount / REWARD_SCALE` out of the vault, and
/// lowers the stake by exactly `amount`.
pub proof fn lemma_unstake_pays_principal_and_reward(
    ctx: Unstake,
    pool: Pool,
    s: UserStake,
    amount: u64,
)
    ensures
        unstake_spec(ctx, pool, s, amount) matches Ok((next, ts)) ==> {
            &&& outflow(ts, ctx.vault_token_account) == amount + reward_of(
                ctx.now - s.staked_at,
                pool.reward_rate,
                amount,
            )
            &&& next.amount == s.amount - amount
            &&& next.staked_at == ctx.now
        },
        amount <= s.amount && ctx.now >= s.staked_at && reward_of(
            ctx.now - s.staked_at,
            pool.reward_rate,
            amount,
        ) <= u64::MAX ==> unstake_spec(ctx, pool, s, amount) is Ok,
{
    reveal_with_fuel(outflow, 3);
    if let Ok((next, ts)) = unstake_spec(ctx, pool, s, amount) {
        let reward = reward_of(ctx.now - s.staked_at, pool.reward_rate, amount) as u64;
        if reward > 0 {
            assert(ts.drop_last().drop_last() =~= Seq::<Transfer>::empty());
        } else {
            assert(ts.drop_last() =~= Seq::<Transfer>::empty());
        }
    }
}

} // verus!
