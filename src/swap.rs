//! Two-asset constant-product swap with a basis-point fee and slippage bound.

use vstd::prelude::*;
use crate::ledger::{Address, TokenAccount, Transfer};
use vstd::arithmetic::div_mod::{lemma_div_multiples_vanish, lemma_fundamental_div_mod};

verus! {

/// Basis points in a whole.
pub const FEE_DENOMINATOR: u64 = 10000;

/// A trading pair and its fee in basis points. The vaults' balances are the
/// reserves; this record holds none.
#[derive(Clone, Copy, Debug, PartialEq, Eq, Structural)]
pub struct SwapInfo {
    pub token_a: Address,
    pub token_b: Address,
    pub fee: u16,
}

#[derive(Clone, Copy, Debug, PartialEq, Eq, Structural)]
pub enum ErrorCode {
    SlippageExceeded,
    /// A fee above 10000 basis points.
    InvalidFee,
    /// Nothing paid into a pool that holds none of the input asset: the
    /// constant-product quote has no divisor.
    EmptyPool,
}

/// The two assets of a new pair.
#[derive(Clone, Copy, Debug, PartialEq, Eq, Structural)]
pub struct Initialize {
    pub token_a: Address,
    pub token_b: Address,
}

/// The trader's two token accounts and the pair's two vaults, whose balances
/// are the reserves at the start of the swap.
#[derive(Clone, Copy, Debug, PartialEq, Eq, Structural)]
pub struct Swap {
    pub user_token_in: Address,
    pub user_token_out: Address,
    pub vault_token_in: TokenAccount,
    pub vault_token_out: TokenAccount,
}

/// Records a pair; the fee must be at most 10000 basis points.
pub fn initialize(ctx: &Initialize, fee: u16) -> (r: Result<SwapInfo, ErrorCode>)
    ensures
        fee > FEE_DENOMINATOR ==> r == Err::<SwapInfo, ErrorCode>(ErrorCode::InvalidFee),
        fee <= FEE_DENOMINATOR ==> r == Ok::<SwapInfo, ErrorCode>(
            SwapInfo { token_a: ctx.token_a, token_b: ctx.token_b, fee },
        ),
{
    if fee as u64 > FEE_DENOMINATOR {
        return Err(ErrorCode::InvalidFee);
    }
    Ok(SwapInfo { token_a: ctx.token_a, token_b: ctx.token_b, fee })
}

/// The constant-product quote `reserve_out * amount_in / (reserve_in + amount_in)`,
/// rounded down; meaningful where that divisor is positive.
pub open spec fn quote_out(reserve_in: u64, reserve_out: u64, amount_in: u64) -> int {
    reserve_out * amount_in / (reserve_in + amount_in)
}

/// The fee taken from `out`, rounded down.
pub open spec fn fee_of(out: int, fee_bps: u64) -> int {
    out * fee_bps / (FEE_DENOMINATOR as int)
}

/// What the trader receives: the quote less its fee.
pub open spec fn final_out(reserve_in: u64, reserve_out: u64, amount_in: u64, fee_bps: u64) -> int {
    quote_out(reserve_in, reserve_out, amount_in) - fee_of(
        quote_out(reserve_in, reserve_out, amount_in),
        fee_bps,
    )
}

/// The amount a trade of `amount_in` pays out against the given reserves at
/// a fee of `fee_bps` basis points.
pub fn amount_out_after_fee(reserve_in: u64, reserve_out: u64, amount_in: u64, fee_bps: u64) -> (r:
    u64)
    requires
        fee_bps <= FEE_DENOMINATOR,
        reserve_in + amount_in > 0,
    ensures
        r == final_out(reserve_in, reserve_out, amount_in, fee_bps),
        r <= reserve_out,
{
    let denominator = reserve_in as u128 + amount_in as u128;
    let ro = reserve_out as u128;
    let ai = amount_in as u128;
    assert(ro * ai <= u128::MAX) by (nonlinear_arith)
        requires
            ro <= u64::MAX,
            ai <= u64::MAX,
    ;
    let quoted = ro * ai / denominator;
    assert(quoted <= ro) by (nonlinear_arith)
        requires
            quoted == ro * ai / (denominator as int),
            ai <= denominator,
            denominator > 0,
    {
        assert(ro * ai <= ro * denominator);
        assert(ro * denominator / (denominator as int) == ro);
    }
    let f = fee_bps as u128;
    assert(quoted * f <= quoted * 10000) by (nonlinear_arith)
        requires
            f <= 10000,
    ;
    let fee = quoted * f / (FEE_DENOMINATOR as u128);
    assert(fee <= quoted) by (nonlinear_arith)
        requires
            fee == quoted * f / 10000,
            f <= 10000,
    ;
    (quoted - fee) as u64
}

pub open spec fn swap_spec(ctx: Swap, info: SwapInfo, amount_in: u64, min_amount_out: u64) -> Result<
    Seq<Transfer>,
    ErrorCode,
> {
    let out = final_out(
        ctx.vault_token_in.amount,
        ctx.vault_token_out.amount,
        amount_in,
        info.fee as u64,
    );
    if info.fee > FEE_DENOMINATOR {
        Err(ErrorCode::InvalidFee)
    } else if ctx.vault_token_in.amount + amount_in == 0 {
        Err(ErrorCode::EmptyPool)
    } else if out < min_amount_out {
        Err(ErrorCode::SlippageExceeded)
    } else {
        Ok(
            seq![
                Transfer {
                    from: ctx.user_token_in,
                    to: ctx.vault_token_in.key,
                    amount: amount_in,
                },
                Transfer {
                    from: ctx.vault_token_out.key,
                    to: ctx.user_token_out,
                    amount: out as u64,
                },
            ],
        )
    }
}

/// Prices a trade of `amount_in` against the vaults' reserves as read once at
/// the start, and asks for the inbound transfer before the outbound one;
/// fails when the trader would receive less than `min_amount_out`.
pub fn swap(ctx: &Swap, swap_info: &SwapInfo, amount_in: u64, min_amount_out: u64) -> (r: Result<
    Vec<Transfer>,
    ErrorCode,
>)
    ensures
        match r {
            Ok(ts) => swap_spec(*ctx, *swap_info, amount_in, min_amount_out) == Ok::<
                Seq<Transfer>,
                ErrorCode,
            >(ts@),
            Err(e) => swap_spec(*ctx, *swap_info, amount_in, min_amount_out) == Err::<
                Seq<Transfer>,
                ErrorCode,
            >(e),
        },
{
    if swap_info.fee as u64 > FEE_DENOMINATOR {
        return Err(ErrorCode::InvalidFee);
    }
    if ctx.vault_token_in.amount == 0 && amount_in == 0 {
        return Err(ErrorCode::EmptyPool);
    }
    let out = amount_out_after_fee(
        ctx.vault_token_in.amount,
        ctx.vault_token_out.amount,
        amount_in,
        swap_info.fee as u64,
    );
    if out < min_amount_out {
        return Err(ErrorCode::SlippageExceeded);
    }
    let transfers = vec![
        Transfer { from: ctx.user_token_in, to: ctx.vault_token_in.key, amount: amount_in },
        Transfer { from: ctx.vault_token_out.key, to: ctx.user_token_out, amount: out },
    ];
    assert(transfers@ =~= seq![
        Transfer { from: ctx.user_token_in, to: ctx.vault_token_in.key, amount: amount_in },
        Transfer { from: ctx.vault_token_out.key, to: ctx.user_token_out, amount: out },
    ]);
    Ok(transfers)
}

/// Taking the floored fee off a quote `a` leaves `floor(a * (10000 - f) / 10000)`
/// whenever that fee is a whole number of units.
pub proof fn lemma_whole_fee(a: int, f: int)
    requires
        0 <= f <= FEE_DENOMINATOR,
        (a * f) % (FEE_DENOMINATOR as int) == 0,
    ensures
        a - a * f / (FEE_DENOMINATOR as int) == a * ((FEE_DENOMINATOR as int) - f) / (
        FEE_DENOMINATOR as int),
{
    let n = FEE_DENOMINATOR as int;
    let q = a * f / n;
    lemma_fundamental_div_mod(a * f, n);
    assert(a * (n - f) == n * (a - q)) by (nonlinear_arith)
        requires
            a * f == n * q,
    ;
    lemma_div_multiples_vanish(a - q, n);
}

/// With a fee of at most 10000 basis points: a swap whose divisor
/// `reserve_in + amount_in` is zero fails with `EmptyPool` and asks for no
/// transfer; otherwise it succeeds exactly when the trader's receipt, the
/// floored quote less its floored fee, reaches `min_amount_out`, and fails with
/// `SlippageExceeded` when it does not. The receipt is
/// `floor(floor(quote) * (10000 - fee) / 10000)` whenever the fee on the quote
/// is a whole number of units.
pub proof fn lemma_swap_price(ctx: Swap, info: SwapInfo, amount_in: u64, min_amount_out: u64)
    requires
        info.fee <= FEE_DENOMINATOR,
    ensures
        ctx.vault_token_in.amount + amount_in == 0 ==> swap_spec(
            ctx,
            info,
            amount_in,
            min_amount_out,
        ) == Err::<Seq<Transfer>, ErrorCode>(ErrorCode::EmptyPool),
        ctx.vault_token_in.amount + amount_in > 0 ==> ({
            let out = final_out(
                ctx.vault_token_in.amount,
                ctx.vault_token_out.amount,
                amount_in,
                info.fee as u64,
            );
            &&& swap_spec(ctx, info, amount_in, min_amount_out) == Err::<Seq<Transfer>, ErrorCode>(
                ErrorCode::SlippageExceeded,
            ) <==> out < min_amount_out
            &&& swap_spec(ctx, info, amount_in, min_amount_out) is Ok <==> out >= min_amount_out
        }),
        ({
            let quote = quote_out(ctx.vault_token_in.amount, ctx.vault_token_out.amount, amount_in);
            ctx.vault_token_in.amount + amount_in > 0 && (quote * info.fee) % (
            FEE_DENOMINATOR as int) == 0 ==> final_out(
                ctx.vault_token_in.amount,
                ctx.vault_token_out.amount,
                amount_in,
                info.fee as u64,
            ) == quote * ((FEE_DENOMINATOR as int) - info.fee) / (FEE_DENOMINATOR as int)
        }),
{
    let quote = quote_out(ctx.vault_token_in.amount, ctx.vault_token_out.amount, amount_in);
    if (quote * info.fee) % (FEE_DENOMINATOR as int) == 0 {
        lemma_whole_fee(quote, info.fee as int);
    }
}

} // verus!
