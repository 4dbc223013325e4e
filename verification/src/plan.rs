use crate::account::AccountRef;
use crate::error::ConstraintViolation;
use crate::error::EntryError;
use crate::error::MeteoraDAMMError;
use vstd::prelude::*;

verus! {

/// Fee parameters of a customizable pool, in the encoding in which the DAMM
/// v2 program takes them. They are handed through unread.
#[derive(Clone, Debug, PartialEq, Eq)]
pub struct PoolFeeParameters {
    pub encoded: Vec<u8>,
}

impl View for PoolFeeParameters {
    type V = Seq<u8>;

    open spec fn view(&self) -> Seq<u8> {
        self.encoded@
    }
}

/// The entrypoint of the DAMM v2 program that a delegated call names, with
/// the parameter record that entrypoint takes.
#[derive(Clone, Debug, PartialEq, Eq)]
pub enum AmmCall {
    AddLiquidity {
        liquidity_delta: u128,
        token_a_amount_threshold: u64,
        token_b_amount_threshold: u64,
    },
    RemoveLiquidity {
        liquidity_delta: u128,
        token_a_amount_threshold: u64,
        token_b_amount_threshold: u64,
    },
    RemoveAllLiquidity { token_a_amount_threshold: u64, token_b_amount_threshold: u64 },
    Swap { amount_in: u64, minimum_amount_out: u64 },
    Swap2 { amount_0: u64, amount_1: u64, swap_mode: u8 },
    InitializePool { liquidity: u128, sqrt_price: u128, activation_point: Option<u64> },
    InitializeCustomizablePool {
        pool_fees: PoolFeeParameters,
        sqrt_min_price: u128,
        sqrt_max_price: u128,
        has_alpha_vault: bool,
        liquidity: u128,
        sqrt_price: u128,
        activation_type: u8,
        collect_fee_mode: u8,
        activation_point: Option<u64>,
    },
    CreatePosition,
    ClaimPositionFee,
    ClosePosition,
}

pub enum AmmCallView {
    AddLiquidity {
        liquidity_delta: u128,
        token_a_amount_threshold: u64,
        token_b_amount_threshold: u64,
    },
    RemoveLiquidity {
        liquidity_delta: u128,
        token_a_amount_threshold: u64,
        token_b_amount_threshold: u64,
    },
    RemoveAllLiquidity { token_a_amount_threshold: u64, token_b_amount_threshold: u64 },
    Swap { amount_in: u64, minimum_amount_out: u64 },
    Swap2 { amount_0: u64, amount_1: u64, swap_mode: u8 },
    InitializePool { liquidity: u128, sqrt_price: u128, activation_point: Option<u64> },
    InitializeCustomizablePool {
        pool_fees: Seq<u8>,
        sqrt_min_price: u128,
        sqrt_max_price: u128,
        has_alpha_vault: bool,
        liquidity: u128,
        sqrt_price: u128,
        activation_type: u8,
        collect_fee_mode: u8,
        activation_point: Option<u64>,
    },
    CreatePosition,
    ClaimPositionFee,
    ClosePosition,
}

impl View for AmmCall {
    type V = AmmCallView;

    open spec fn view(&self) -> AmmCallView {
        match *self {
            AmmCall::AddLiquidity {
                liquidity_delta,
                token_a_amount_threshold,
                token_b_amount_threshold,
            } => AmmCallView::AddLiquidity {
                liquidity_delta,
                token_a_amount_threshold,
                token_b_amount_threshold,
            },
            AmmCall::RemoveLiquidity {
                liquidity_delta,
                token_a_amount_threshold,
                token_b_amount_threshold,
            } => AmmCallView::RemoveLiquidity {
                liquidity_delta,
                token_a_amount_threshold,
                token_b_amount_threshold,
            },
            AmmCall::RemoveAllLiquidity { token_a_amount_threshold, token_b_amount_threshold } => {
                AmmCallView::RemoveAllLiquidity {
                    token_a_amount_threshold,
                    token_b_amount_threshold,
                }
            },
            AmmCall::Swap { amount_in, minimum_amount_out } => AmmCallView::Swap {
                amount_in,
                minimum_amount_out,
            },
            AmmCall::Swap2 { amount_0, amount_1, swap_mode } => AmmCallView::Swap2 {
                amount_0,
                amount_1,
                swap_mode,
            },
            AmmCall::InitializePool { liquidity, sqrt_price, activation_point } => {
                AmmCallView::InitializePool { liquidity, sqrt_price, activation_point }
            },
            AmmCall::InitializeCustomizablePool {
                pool_fees,
                sqrt_min_price,
                sqrt_max_price,
                has_alpha_vault,
                liquidity,
                sqrt_price,
                activation_type,
                collect_fee_mode,
                activation_point,
            } => AmmCallView::InitializeCustomizablePool {
                pool_fees: pool_fees@,
                sqrt_min_price,
                sqrt_max_price,
                has_alpha_vault,
                liquidity,
                sqrt_price,
                activation_type,
                collect_fee_mode,
                activation_point,
            },
            AmmCall::CreatePosition => AmmCallView::CreatePosition,
            AmmCall::ClaimPositionFee => AmmCallView::ClaimPositionFee,
            AmmCall::ClosePosition => AmmCallView::ClosePosition,
        }
    }
}

/// One delegated call: the program called, the accounts handed to it in the
/// order its entrypoint declares them, and the call itself. An optional
/// account that was not supplied stands in the list as `None`.
#[derive(Clone, Debug, PartialEq, Eq)]
pub struct Invocation {
    pub program: AccountRef,
    pub accounts: Vec<Option<AccountRef>>,
    pub call: AmmCall,
}

pub struct InvocationView {
    pub program: AccountRef,
    pub accounts: Seq<Option<AccountRef>>,
    pub call: AmmCallView,
}

impl View for Invocation {
    type V = InvocationView;

    open spec fn view(&self) -> InvocationView {
        InvocationView { program: self.program, accounts: self.accounts@, call: self.call@ }
    }
}

/// One fallible step of a transaction.
#[derive(Clone, Debug, PartialEq, Eq)]
pub enum Step {
    /// Move `lamports` of native value from `from` to `to` through the system
    /// program.
    Transfer { system_program: AccountRef, from: AccountRef, to: AccountRef, lamports: u64 },
    /// Have the token program bring the token balance of `account` up to the
    /// native value it holds.
    SyncNative { token_program: AccountRef, account: AccountRef },
    /// Call the DAMM v2 program.
    Delegate(Invocation),
}

pub enum StepView {
    Transfer { system_program: AccountRef, from: AccountRef, to: AccountRef, lamports: u64 },
    SyncNative { token_program: AccountRef, account: AccountRef },
    Delegate(InvocationView),
}

impl View for Step {
    type V = StepView;

    open spec fn view(&self) -> StepView {
        match *self {
            Step::Transfer { system_program, from, to, lamports } => StepView::Transfer {
                system_program,
                from,
                to,
                lamports,
            },
            Step::SyncNative { token_program, account } => StepView::SyncNative {
                token_program,
                account,
            },
            Step::Delegate(invocation) => StepView::Delegate(invocation@),
        }
    }
}

/// The steps of a plan, each by its view.
pub open spec fn plan_view(plan: Seq<Step>) -> Seq<StepView> {
    Seq::new(plan.len(), |i: int| plan[i]@)
}

/// What becomes of an entrypoint's wrap step.
#[derive(Clone, Copy, Debug, PartialEq, Eq)]
pub enum WrapDecision {
    /// No wrap: the delegated call is the only step.
    Skip,
    /// Wrap this many lamports before the delegated call.
    Wrap(u64),
    /// The funding amount is refused and nothing is executed.
    Reject,
}

/// The rule for an optional funding amount. Funding is looked at only where
/// the quote mint is the wrapped-native mint; there an amount of zero is
/// refused and any other amount is wrapped.
pub open spec fn wrap_rule(quote_is_native: bool, funding: Option<u64>) -> WrapDecision {
    match funding {
        Some(amount) if quote_is_native => if amount == 0 {
            WrapDecision::Reject
        } else {
            WrapDecision::Wrap(amount)
        },
        _ => WrapDecision::Skip,
    }
}

/// The rule for a funding amount that the entrypoint requires: zero is
/// refused whatever the quote mint is, and any other amount is wrapped where
/// the quote mint is the wrapped-native mint.
pub open spec fn funded_wrap_rule(quote_is_native: bool, amount: u64) -> WrapDecision {
    if amount == 0 {
        WrapDecision::Reject
    } else if quote_is_native {
        WrapDecision::Wrap(amount)
    } else {
        WrapDecision::Skip
    }
}

/// Decides the wrap step of an entrypoint whose funding amount is optional.
pub fn wrap_decision(quote_is_native: bool, funding: Option<u64>) -> (r: WrapDecision)
    ensures
        r == wrap_rule(quote_is_native, funding),
        r is Wrap <==> quote_is_native && funding is Some && funding->0 > 0,
        r matches WrapDecision::Wrap(amount) ==> funding == Some(amount),
{
    match funding {
        Some(amount) => if !quote_is_native {
            WrapDecision::Skip
        } else if amount == 0 {
            WrapDecision::Reject
        } else {
            WrapDecision::Wrap(amount)
        },
        None => WrapDecision::Skip,
    }
}

/// Decides the wrap step of an entrypoint that requires a funding amount.
pub fn funded_wrap_decision(quote_is_native: bool, amount: u64) -> (r: WrapDecision)
    ensures
        r == funded_wrap_rule(quote_is_native, amount),
        r is Wrap <==> quote_is_native && amount > 0,
        r is Reject <==> amount == 0,
        r matches WrapDecision::Wrap(wrapped) ==> wrapped == amount,
{
    if amount == 0 {
        WrapDecision::Reject
    } else if quote_is_native {
        WrapDecision::Wrap(amount)
    } else {
        WrapDecision::Skip
    }
}

/// The accounts that a wrap step works on.
#[derive(Clone, Copy, Debug, PartialEq, Eq)]
pub struct WrapAccounts {
    pub system_program: AccountRef,
    /// Pays the native value.
    pub funder: AccountRef,
    /// The wrapped-asset account that receives it.
    pub holder: AccountRef,
    /// The token program that owns `holder`.
    pub token_program: AccountRef,
}

/// The two steps of a wrap, in their order: the native transfer, then the
/// balance sync.
pub open spec fn wrap_steps(wrap: WrapAccounts, lamports: u64) -> Seq<StepView> {
    seq![
        StepView::Transfer {
            system_program: wrap.system_program,
            from: wrap.funder,
            to: wrap.holder,
            lamports,
        },
        StepView::SyncNative { token_program: wrap.token_program, account: wrap.holder },
    ]
}

/// What an entrypoint yields from the outcome of validation, the wrap
/// decision and the delegated call it has built: a failed validation first,
/// then a refused amount, else the steps in their order with the delegated
/// call last.
pub open spec fn composition(
    violation: Option<ConstraintViolation>,
    decision: WrapDecision,
    wrap: WrapAccounts,
    invocation: InvocationView,
) -> Result<Seq<StepView>, EntryError> {
    match violation {
        Some(v) => Err(EntryError::Constraint(v)),
        None => match decision {
            WrapDecision::Reject => Err(
                EntryError::Program(MeteoraDAMMError::InvalidLiquidityDelta),
            ),
            WrapDecision::Skip => Ok(seq![StepView::Delegate(invocation)]),
            WrapDecision::Wrap(lamports) => Ok(
                wrap_steps(wrap, lamports).push(StepView::Delegate(invocation)),
            ),
        },
    }
}

/// What an entrypoint without a wrap step yields: a failed validation, else
/// the delegated call alone.
pub open spec fn delegation(
    violation: Option<ConstraintViolation>,
    invocation: InvocationView,
) -> Result<Seq<StepView>, EntryError> {
    match violation {
        Some(v) => Err(EntryError::Constraint(v)),
        None => Ok(seq![StepView::Delegate(invocation)]),
    }
}

/// Whether a plan holds a step of a wrap: a native transfer or a sync.
pub open spec fn has_wrap_step(plan: Seq<StepView>) -> bool {
    exists|i: int| 0 <= i < plan.len() && (#[trigger] plan[i] is Transfer || plan[i] is SyncNative)
}

/// The optional-funding rule wraps exactly when the quote mint is the
/// wrapped-native mint and an amount above zero is given, and then it wraps
/// that amount.
pub proof fn lemma_wrap_rule(quote_is_native: bool, funding: Option<u64>)
    ensures
        wrap_rule(quote_is_native, funding) is Wrap <==> quote_is_native && funding is Some
            && funding->0 > 0,
        wrap_rule(quote_is_native, funding) matches WrapDecision::Wrap(amount) ==> funding == Some(
            amount,
        ),
        wrap_rule(quote_is_native, funding) is Reject <==> quote_is_native && funding == Some(0u64),
{
}

/// A plan holds wrap steps exactly when validation passed and the decision
/// was to wrap. Then the plan is the transfer of the decided amount, the
/// sync and the delegated call, in this order; every other plan is the
/// delegated call alone, and a refused amount or a failed validation yields
/// no plan at all.
pub proof fn lemma_wrap_exactly_when_decided(
    violation: Option<ConstraintViolation>,
    decision: WrapDecision,
    wrap: WrapAccounts,
    invocation: InvocationView,
)
    ensures
        ({
            let outcome = composition(violation, decision, wrap, invocation);
            &&& outcome is Ok <==> violation is None && !(decision is Reject)
            &&& (outcome is Ok && has_wrap_step(outcome->Ok_0)) <==> violation is None
                && decision is Wrap
            &&& decision matches WrapDecision::Wrap(lamports) ==> violation is None
                ==> outcome->Ok_0 == seq![
                StepView::Transfer {
                    system_program: wrap.system_program,
                    from: wrap.funder,
                    to: wrap.holder,
                    lamports,
                },
                StepView::SyncNative { token_program: wrap.token_program, account: wrap.holder },
                StepView::Delegate(invocation),
            ]
            &&& decision is Skip && violation is None ==> outcome->Ok_0 == seq![
                StepView::Delegate(invocation),
            ]
        }),
{
    let outcome = composition(violation, decision, wrap, invocation);
    if violation is None {
        match decision {
            WrapDecision::Wrap(lamports) => {
                let plan = outcome->Ok_0;
                assert(plan =~= seq![
                    StepView::Transfer {
                        system_program: wrap.system_program,
                        from: wrap.funder,
                        to: wrap.holder,
                        lamports,
                    },
                    StepView::SyncNative {
                        token_program: wrap.token_program,
                        account: wrap.holder,
                    },
                    StepView::Delegate(invocation),
                ]);
                assert(plan[0] is Transfer);
            },
            WrapDecision::Skip => {
                let plan = outcome->Ok_0;
                assert(plan.len() == 1);
                assert(forall|i: int| 0 <= i < plan.len() ==> plan[i] is Delegate);
            },
            WrapDecision::Reject => {},
        }
    }
}

/// Conditional wrap: an entrypoint with an optional funding amount plans a
/// wrap exactly when its context is valid, the quote mint is the
/// wrapped-native mint and a funding amount above zero is given. In every
/// other case nothing is transferred.
pub proof fn lemma_wrap_exactly_when_funded(
    violation: Option<ConstraintViolation>,
    quote_is_native: bool,
    funding: Option<u64>,
    wrap: WrapAccounts,
    invocation: InvocationView,
)
    ensures
        ({
            let outcome = composition(
                violation,
                wrap_rule(quote_is_native, funding),
                wrap,
                invocation,
            );
            (outcome is Ok && has_wrap_step(outcome->Ok_0)) <==> violation is None
                && quote_is_native && funding is Some && funding->0 > 0
        }),
{
    lemma_wrap_rule(quote_is_native, funding);
    lemma_wrap_exactly_when_decided(
        violation,
        wrap_rule(quote_is_native, funding),
        wrap,
        invocation,
    );
}

/// The same for an entrypoint that requires its funding amount: it plans a
/// wrap exactly when its context is valid, the quote mint is the
/// wrapped-native mint and the amount is above zero, and an amount of zero
/// yields no plan.
pub proof fn lemma_funded_wrap_exactly_when_native(
    violation: Option<ConstraintViolation>,
    quote_is_native: bool,
    amount: u64,
    wrap: WrapAccounts,
    invocation: InvocationView,
)
    ensures
        ({
            let outcome = composition(
                violation,
                funded_wrap_rule(quote_is_native, amount),
                wrap,
                invocation,
            );
            &&& (outcome is Ok && has_wrap_step(outcome->Ok_0)) <==> violation is None
                && quote_is_native && amount > 0
            &&& amount == 0 ==> outcome is Err
            &&& amount == 0 && violation is None ==> outcome == Err::<Seq<StepView>, EntryError>(
                EntryError::Program(MeteoraDAMMError::InvalidLiquidityDelta),
            )
        }),
{
    lemma_wrap_exactly_when_decided(
        violation,
        funded_wrap_rule(quote_is_native, amount),
        wrap,
        invocation,
    );
}

/// A context that fails validation yields no step: nothing is transferred
/// and nothing is delegated.
pub proof fn lemma_violation_yields_nothing(
    violation: ConstraintViolation,
    decision: WrapDecision,
    wrap: WrapAccounts,
    invocation: InvocationView,
)
    ensures
        composition(Some(violation), decision, wrap, invocation) == Err::<
            Seq<StepView>,
            EntryError,
        >(EntryError::Constraint(violation)),
        delegation(Some(violation), invocation) == Err::<Seq<StepView>, EntryError>(
            EntryError::Constraint(violation),
        ),
{
}

/// In every plan the delegated call is the last step and carries the call
/// that was built, unchanged.
pub proof fn lemma_delegation_comes_last(
    violation: Option<ConstraintViolation>,
    decision: WrapDecision,
    wrap: WrapAccounts,
    invocation: InvocationView,
)
    ensures
        composition(violation, decision, wrap, invocation) matches Ok(plan) ==> plan.len() > 0
            && plan.last() == StepView::Delegate(invocation),
        delegation(violation, invocation) matches Ok(plan) ==> plan.len() > 0 && plan.last()
            == StepView::Delegate(invocation),
{
}

/// Whether an entrypoint's result is the one `expected` describes.
pub open spec fn yields(
    result: Result<Vec<Step>, EntryError>,
    expected: Result<Seq<StepView>, EntryError>,
) -> bool {
    match result {
        Ok(plan) => expected == Ok::<Seq<StepView>, EntryError>(plan_view(plan@)),
        Err(e) => expected == Err::<Seq<StepView>, EntryError>(e),
    }
}

/// Orders the steps of an entrypoint, or refuses.
pub fn compose(
    checked: Result<(), ConstraintViolation>,
    decision: WrapDecision,
    wrap: WrapAccounts,
    invocation: Invocation,
) -> (r: Result<Vec<Step>, EntryError>)
    ensures
        yields(
            r,
            composition(
                match checked {
                    Ok(_) => None,
                    Err(v) => Some(v),
                },
                decision,
                wrap,
                invocation@,
            ),
        ),
{
    if let Err(v) = checked {
        return Err(EntryError::Constraint(v));
    }
    match decision {
        WrapDecision::Reject => Err(EntryError::Program(MeteoraDAMMError::InvalidLiquidityDelta)),
        WrapDecision::Skip => {
            let ghost view = invocation@;
            let plan = vec![Step::Delegate(invocation)];
            assert(plan_view(plan@) =~= seq![StepView::Delegate(view)]);
            Ok(plan)
        },
        WrapDecision::Wrap(lamports) => {
            let ghost view = invocation@;
            let plan = vec![
                Step::Transfer {
                    system_program: wrap.system_program,
                    from: wrap.funder,
                    to: wrap.holder,
                    lamports,
                },
                Step::SyncNative { token_program: wrap.token_program, account: wrap.holder },
                Step::Delegate(invocation),
            ];
            assert(plan_view(plan@) =~= wrap_steps(wrap, lamports).push(StepView::Delegate(view)));
            Ok(plan)
        },
    }
}

/// Orders the single step of an entrypoint that has no wrap step.
pub fn delegate_only(checked: Result<(), ConstraintViolation>, invocation: Invocation) -> (r:
    Result<Vec<Step>, EntryError>)
    ensures
        yields(
            r,
            delegation(
                match checked {
                    Ok(_) => None,
                    Err(v) => Some(v),
                },
                invocation@,
            ),
        ),
{
    match checked {
        Err(v) => Err(EntryError::Constraint(v)),
        Ok(_) => {
            let ghost view = invocation@;
            let plan = vec![Step::Delegate(invocation)];
            assert(plan_view(plan@) =~= seq![StepView::Delegate(view)]);
            Ok(plan)
        },
    }
}

} // verus!
