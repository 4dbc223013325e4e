use crate::account::validation;
use crate::address::ProtocolAddresses;
use crate::error::EntryError;
use crate::error::MeteoraDAMMError;
use crate::liquidity::AddLiquidityCtx;
use crate::liquidity::RemoveAllLiquidityCtx;
use crate::liquidity::RemoveLiquidityCtx;
use crate::plan::compose;
use crate::plan::composition;
use crate::plan::delegate_only;
use crate::plan::delegation;
use crate::plan::funded_wrap_decision;
use crate::plan::funded_wrap_rule;
use crate::plan::plan_view;
use crate::plan::wrap_decision;
use crate::plan::wrap_rule;
use crate::plan::yields;
use crate::plan::AmmCallView;
use crate::plan::PoolFeeParameters;
use crate::plan::Step;
use crate::plan::StepView;
use crate::pool::InitializeCustomizablePoolCtx;
use crate::pool::InitializePoolCtx;
use crate::pool::InitializePoolWithSolCtx;
use crate::position::ClaimPositionFeeCtx;
use crate::position::ClosePositionCtx;
use crate::position::CreatePositionCtx;
use crate::swap::Swap2Ctx;
use crate::swap::SwapCtx;
use vstd::prelude::*;

verus! {

/// Adds liquidity to a position. Where token B is the wrapped native asset
/// and `sol_amount` is given, the owner's native value is wrapped into their
/// token B account first.
pub fn add_liquidity(
    ctx: &AddLiquidityCtx,
    addresses: &ProtocolAddresses,
    liquidity_delta: u128,
    token_a_amount_threshold: u64,
    token_b_amount_threshold: u64,
    sol_amount: Option<u64>,
) -> (r: Result<Vec<Step>, EntryError>)
    ensures
        yields(
            r,
            composition(
                validation(ctx.slots(*addresses)),
                wrap_rule(ctx.token_b_mint.key@ == addresses.native_mint@, sol_amount),
                ctx.wrap_accounts(),
                ctx.invocation(
                    AmmCallView::AddLiquidity {
                        liquidity_delta,
                        token_a_amount_threshold,
                        token_b_amount_threshold,
                    },
                ),
            ),
        ),
        r is Ok <==> ctx.well_formed(*addresses) && !(ctx.token_b_mint.key@
            == addresses.native_mint@ && sol_amount == Some(0u64)),
{
    let checked = ctx.validate(addresses);
    let decision = wrap_decision(addresses.is_native_mint(&ctx.token_b_mint.key), sol_amount);
    let invocation = ctx.add_liquidity_cpi(
        liquidity_delta,
        token_a_amount_threshold,
        token_b_amount_threshold,
    );
    compose(checked, decision, ctx.wrap(), invocation)
}

/// Removes liquidity from a position.
pub fn remove_liquidity(
    ctx: &RemoveLiquidityCtx,
    addresses: &ProtocolAddresses,
    liquidity_delta: u128,
    token_a_amount_threshold: u64,
    token_b_amount_threshold: u64,
) -> (r: Result<Vec<Step>, EntryError>)
    ensures
        yields(
            r,
            delegation(
                validation(ctx.slots(*addresses)),
                ctx.invocation(
                    AmmCallView::RemoveLiquidity {
                        liquidity_delta,
                        token_a_amount_threshold,
                        token_b_amount_threshold,
                    },
                ),
            ),
        ),
        r is Ok <==> ctx.well_formed(*addresses),
{
    let checked = ctx.validate(addresses);
    let invocation = ctx.remove_liquidity_cpi(
        liquidity_delta,
        token_a_amount_threshold,
        token_b_amount_threshold,
    );
    delegate_only(checked, invocation)
}

/// Swaps `amount_in` for at least `minimum_amount_out`. A referral account
/// that was not supplied reaches the delegated call as absent.
pub fn swap(
    ctx: &SwapCtx,
    addresses: &ProtocolAddresses,
    amount_in: u64,
    minimum_amount_out: u64,
) -> (r: Result<Vec<Step>, EntryError>)
    ensures
        yields(
            r,
            delegation(
                validation(ctx.slots(*addresses)),
                ctx.invocation(AmmCallView::Swap { amount_in, minimum_amount_out }),
            ),
        ),
        r is Ok <==> ctx.well_formed(*addresses),
        r matches Ok(plan) ==> plan@.len() == 1 && (plan@[0]@ matches StepView::Delegate(call)
            && call.accounts[11] == ctx.referral_token_account),
{
    let checked = ctx.validate(addresses);
    let invocation = ctx.swap_cpi(amount_in, minimum_amount_out);
    let r = delegate_only(checked, invocation);
    proof {
        if r is Ok {
            let plan = r->Ok_0@;
            let expected = seq![
                StepView::Delegate(
                    ctx.invocation(AmmCallView::Swap { amount_in, minimum_amount_out }),
                ),
            ];
            assert(plan_view(plan) == expected);
            assert(expected.len() == 1);
            assert(plan_view(plan).len() == plan.len());
            assert(plan_view(plan)[0] == plan[0]@);
        }
    }
    r
}

/// Creates a pool from a configuration account, with the creator's first
/// position. Where token B is the wrapped native asset and `sol_amount` is
/// given, the payer's native value is wrapped into their token B account
/// first.
pub fn initialize_pool(
    ctx: &InitializePoolCtx,
    addresses: &ProtocolAddresses,
    liquidity: u128,
    sqrt_price: u128,
    activation_point: Option<u64>,
    sol_amount: Option<u64>,
) -> (r: Result<Vec<Step>, EntryError>)
    ensures
        yields(
            r,
            composition(
                validation(ctx.slots(*addresses)),
                wrap_rule(ctx.token_b_mint.key@ == addresses.native_mint@, sol_amount),
                ctx.wrap_accounts(),
                ctx.invocation(
                    AmmCallView::InitializePool { liquidity, sqrt_price, activation_point },
                ),
            ),
        ),
        r is Ok <==> ctx.well_formed(*addresses) && !(ctx.token_b_mint.key@
            == addresses.native_mint@ && sol_amount == Some(0u64)),
{
    let checked = ctx.validate(addresses);
    let decision = wrap_decision(addresses.is_native_mint(&ctx.token_b_mint.key), sol_amount);
    let invocation = ctx.initialize_pool_cpi(liquidity, sqrt_price, activation_point);
    compose(checked, decision, ctx.wrap(), invocation)
}

/// Creates a position in an existing pool.
pub fn create_position(ctx: &CreatePositionCtx, addresses: &ProtocolAddresses) -> (r: Result<
    Vec<Step>,
    EntryError,
>)
    ensures
        yields(
            r,
            delegation(
                validation(ctx.slots(*addresses)),
                ctx.invocation(AmmCallView::CreatePosition),
            ),
        ),
        r is Ok <==> ctx.well_formed(*addresses),
{
    let checked = ctx.validate(addresses);
    let invocation = ctx.create_position_cpi();
    delegate_only(checked, invocation)
}

/// Creates a pool whose token B side is funded with `sol_amount` of native
/// value. An amount of zero is refused before anything is transferred.
pub fn initialize_pool_with_sol(
    ctx: &InitializePoolWithSolCtx,
    addresses: &ProtocolAddresses,
    liquidity: u128,
    sqrt_price: u128,
    activation_point: Option<u64>,
    sol_amount: u64,
) -> (r: Result<Vec<Step>, EntryError>)
    ensures
        yields(
            r,
            composition(
                validation(ctx.slots(*addresses)),
                funded_wrap_rule(ctx.token_b_mint.key@ == addresses.native_mint@, sol_amount),
                ctx.wrap_accounts(),
                ctx.invocation(
                    AmmCallView::InitializePool { liquidity, sqrt_price, activation_point },
                ),
            ),
        ),
        r is Ok <==> ctx.well_formed(*addresses) && sol_amount > 0,
        sol_amount == 0 && ctx.well_formed(*addresses) ==> r == Err::<
            Vec<Step>,
            EntryError,
        >(EntryError::Program(MeteoraDAMMError::InvalidLiquidityDelta)),
{
    let checked = ctx.validate(addresses);
    let decision = funded_wrap_decision(
        addresses.is_native_mint(&ctx.token_b_mint.key),
        sol_amount,
    );
    let invocation = ctx.initialize_pool_cpi(liquidity, sqrt_price, activation_point);
    compose(checked, decision, ctx.wrap(), invocation)
}

/// Removes all liquidity from a position.
pub fn remove_all_liquidity(
    ctx: &RemoveAllLiquidityCtx,
    addresses: &ProtocolAddresses,
    token_a_amount_threshold: u64,
    token_b_amount_threshold: u64,
) -> (r: Result<Vec<Step>, EntryError>)
    ensures
        yields(
            r,
            delegation(
                validation(ctx.slots(*addresses)),
                ctx.invocation(
                    AmmCallView::RemoveAllLiquidity {
                        token_a_amount_threshold,
                        token_b_amount_threshold,
                    },
                ),
            ),
        ),
        r is Ok <==> ctx.well_formed(*addresses),
{
    let checked = ctx.validate(addresses);
    let invocation = ctx.remove_all_liquidity_cpi(
        token_a_amount_threshold,
        token_b_amount_threshold,
    );
    delegate_only(checked, invocation)
}

/// Claims the fees that a position has earned.
pub fn claim_position_fee(ctx: &ClaimPositionFeeCtx, addresses: &ProtocolAddresses) -> (r: Result<
    Vec<Step>,
    EntryError,
>)
    ensures
        yields(
            r,
            delegation(
                validation(ctx.slots(*addresses)),
                ctx.invocation(AmmCallView::ClaimPositionFee),
            ),
        ),
        r is Ok <==> ctx.well_formed(*addresses),
{
    let checked = ctx.validate(addresses);
    let invocation = ctx.claim_position_fee_cpi();
    delegate_only(checked, invocation)
}

/// Closes a position that holds no liquidity.
pub fn close_position(ctx: &ClosePositionCtx, addresses: &ProtocolAddresses) -> (r: Result<
    Vec<Step>,
    EntryError,
>)
    ensures
        yields(
            r,
            delegation(
                validation(ctx.slots(*addresses)),
                ctx.invocation(AmmCallView::ClosePosition),
            ),
        ),
        r is Ok <==> ctx.well_formed(*addresses),
{
    let checked = ctx.validate(addresses);
    let invocation = ctx.close_position_cpi();
    delegate_only(checked, invocation)
}

/// Creates a pool whose fees and price range the caller sets. Where token B
/// is the wrapped native asset and `sol_amount` is given, the payer's native
/// value is wrapped into their token B account first.
pub fn initialize_customizable_pool(
    ctx: &InitializeCustomizablePoolCtx,
    addresses: &ProtocolAddresses,
    pool_fees: PoolFeeParameters,
    sqrt_min_price: u128,
    sqrt_max_price: u128,
    has_alpha_vault: bool,
    liquidity: u128,
    sqrt_price: u128,
    activation_type: u8,
    collect_fee_mode: u8,
    activation_point: Option<u64>,
    sol_amount: Option<u64>,
) -> (r: Result<Vec<Step>, EntryError>)
    ensures
        yields(
            r,
            composition(
                validation(ctx.slots(*addresses)),
                wrap_rule(ctx.token_b_mint.key@ == addresses.native_mint@, sol_amount),
                ctx.wrap_accounts(),
                ctx.invocation(
                    AmmCallView::InitializeCustomizablePool {
                        pool_fees: pool_fees@,
                        sqrt_min_price,
                        sqrt_max_price,
                        has_alpha_vault,
                        liquidity,
                        sqrt_price,
                        activation_type,
                        collect_fee_mode,
                        activation_point,
                    },
                ),
            ),
        ),
        r is Ok <==> ctx.well_formed(*addresses) && !(ctx.token_b_mint.key@
            == addresses.native_mint@ && sol_amount == Some(0u64)),
{
    let checked = ctx.validate(addresses);
    let decision = wrap_decision(addresses.is_native_mint(&ctx.token_b_mint.key), sol_amount);
    let invocation = ctx.initialize_customizable_pool_cpi(
        pool_fees,
        sqrt_min_price,
        sqrt_max_price,
        has_alpha_vault,
        liquidity,
        sqrt_price,
        activation_type,
        collect_fee_mode,
        activation_point,
    );
    compose(checked, decision, ctx.wrap(), invocation)
}

/// Swaps in one of the modes exact in, exact out and partial fill; what the
/// two amounts mean depends on the mode. A referral account that was not
/// supplied reaches the delegated call as absent.
pub fn swap2(
    ctx: &Swap2Ctx,
    addresses: &ProtocolAddresses,
    amount_0: u64,
    amount_1: u64,
    swap_mode: u8,
) -> (r: Result<Vec<Step>, EntryError>)
    ensures
        yields(
            r,
            delegation(
                validation(ctx.slots(*addresses)),
                ctx.invocation(AmmCallView::Swap2 { amount_0, amount_1, swap_mode }),
            ),
        ),
        r is Ok <==> ctx.well_formed(*addresses),
        r matches Ok(plan) ==> plan@.len() == 1 && (plan@[0]@ matches StepView::Delegate(call)
            && call.accounts[11] == ctx.referral_token_account),
{
    let checked = ctx.validate(addresses);
    let invocation = ctx.swap2_cpi(amount_0, amount_1, swap_mode);
    let r = delegate_only(checked, invocation);
    proof {
        if r is Ok {
            let plan = r->Ok_0@;
            let expected = seq![
                StepView::Delegate(
                    ctx.invocation(AmmCallView::Swap2 { amount_0, amount_1, swap_mode }),
                ),
            ];
            assert(plan_view(plan) == expected);
            assert(expected.len() == 1);
            assert(plan_view(plan).len() == plan.len());
            assert(plan_view(plan)[0] == plan[0]@);
        }
    }
    r
}

} // verus!
