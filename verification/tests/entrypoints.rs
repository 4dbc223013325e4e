use meteora_damm_v2_cpi::{
    add_liquidity, claim_position_fee, close_position, create_position, funded_wrap_decision,
    initialize_customizable_pool, initialize_pool, initialize_pool_with_sol, remove_all_liquidity,
    remove_liquidity, swap, swap2, wrap_decision, AccountRef, AddLiquidityCtx, Address, AmmCall,
    ClaimPositionFeeCtx, ClosePositionCtx, ConstraintKind, ConstraintViolation,
    CreatePositionCtx, EntryError, InitializeCustomizablePoolCtx,
    InitializePoolCtx, InitializePoolWithSolCtx, Invocation, MeteoraDAMMError, PoolFeeParameters,
    ProtocolAddresses, RemoveAllLiquidityCtx, RemoveLiquidityCtx, Step, Swap2Ctx, SwapCtx,
    WrapDecision,
};

const NATIVE: u8 = 202;

fn key(n: u8) -> Address {
    Address { bytes: [n; 32] }
}

fn account(n: u8, is_signer: bool, is_writable: bool) -> AccountRef {
    AccountRef { key: key(n), is_signer, is_writable }
}

fn w(n: u8) -> AccountRef {
    account(n, false, true)
}

fn r(n: u8) -> AccountRef {
    account(n, false, false)
}

fn addresses() -> ProtocolAddresses {
    ProtocolAddresses {
        amm_program: key(200),
        pool_authority: key(201),
        native_mint: key(NATIVE),
        token_2022_program: key(203),
    }
}

fn add_ctx(token_b_mint: u8) -> AddLiquidityCtx {
    AddLiquidityCtx {
        pool: w(1),
        position: w(2),
        token_a_account: w(3),
        token_b_account: w(4),
        token_a_vault: w(5),
        token_b_vault: w(6),
        token_a_mint: r(7),
        token_b_mint: r(token_b_mint),
        position_nft_account: r(9),
        owner: account(10, true, false),
        token_a_program: r(11),
        token_b_program: r(12),
        system_program: r(0),
        event_authority: r(13),
        amm_program: r(200),
    }
}

fn add_accounts(token_b_mint: u8) -> Vec<Option<AccountRef>> {
    vec![
        Some(w(1)),
        Some(w(2)),
        Some(w(3)),
        Some(w(4)),
        Some(w(5)),
        Some(w(6)),
        Some(r(7)),
        Some(r(token_b_mint)),
        Some(r(9)),
        Some(account(10, true, false)),
        Some(r(11)),
        Some(r(12)),
        Some(r(13)),
        Some(r(200)),
    ]
}

fn position_accounts() -> Vec<Option<AccountRef>> {
    vec![
        Some(r(201)),
        Some(w(1)),
        Some(w(2)),
        Some(w(3)),
        Some(w(4)),
        Some(w(5)),
        Some(w(6)),
        Some(r(7)),
        Some(r(8)),
        Some(r(9)),
        Some(account(10, true, false)),
        Some(r(11)),
        Some(r(12)),
        Some(r(13)),
        Some(r(200)),
    ]
}

fn remove_ctx() -> RemoveLiquidityCtx {
    RemoveLiquidityCtx {
        pool_authority: r(201),
        pool: w(1),
        position: w(2),
        token_a_account: w(3),
        token_b_account: w(4),
        token_a_vault: w(5),
        token_b_vault: w(6),
        token_a_mint: r(7),
        token_b_mint: r(8),
        position_nft_account: r(9),
        owner: account(10, true, false),
        token_a_program: r(11),
        token_b_program: r(12),
        event_authority: r(13),
        amm_program: r(200),
    }
}

fn swap_ctx(referral: Option<AccountRef>) -> SwapCtx {
    SwapCtx {
        pool_authority: r(201),
        pool: w(1),
        input_token_account: w(2),
        output_token_account: w(3),
        token_a_vault: w(4),
        token_b_vault: w(5),
        token_a_mint: r(6),
        token_b_mint: r(7),
        payer: account(8, true, false),
        token_a_program: r(9),
        token_b_program: r(10),
        referral_token_account: referral,
        event_authority: r(11),
        amm_program: r(200),
    }
}

fn swap_accounts(referral: Option<AccountRef>) -> Vec<Option<AccountRef>> {
    vec![
        Some(r(201)),
        Some(w(1)),
        Some(w(2)),
        Some(w(3)),
        Some(w(4)),
        Some(w(5)),
        Some(r(6)),
        Some(r(7)),
        Some(account(8, true, false)),
        Some(r(9)),
        Some(r(10)),
        referral,
        Some(r(11)),
        Some(r(200)),
    ]
}

fn pool_ctx(token_b_mint: u8) -> InitializePoolCtx {
    InitializePoolCtx {
        creator: r(1),
        position_nft_mint: account(2, true, true),
        position_nft_account: w(3),
        payer: account(4, true, true),
        config: r(5),
        pool_authority: r(201),
        pool: w(6),
        position: w(7),
        token_a_mint: r(8),
        token_b_mint: r(token_b_mint),
        token_a_vault: w(10),
        token_b_vault: w(11),
        payer_token_a: w(12),
        payer_token_b: w(13),
        token_a_program: r(14),
        token_b_program: r(15),
        token_2022_program: r(203),
        system_program: r(0),
        event_authority: r(16),
        amm_program: r(200),
    }
}

fn pool_accounts(token_b_mint: u8, config: bool) -> Vec<Option<AccountRef>> {
    let mut v = vec![
        Some(r(1)),
        Some(account(2, true, true)),
        Some(w(3)),
        Some(account(4, true, true)),
    ];
    if config {
        v.push(Some(r(5)));
    }
    v.extend(vec![
        Some(r(201)),
        Some(w(6)),
        Some(w(7)),
        Some(r(8)),
        Some(r(token_b_mint)),
        Some(w(10)),
        Some(w(11)),
        Some(w(12)),
        Some(w(13)),
        Some(r(14)),
        Some(r(15)),
        Some(r(203)),
        Some(r(0)),
        Some(r(16)),
        Some(r(200)),
    ]);
    v
}

fn pool_sol_ctx(token_b_mint: u8) -> InitializePoolWithSolCtx {
    let c = pool_ctx(token_b_mint);
    InitializePoolWithSolCtx {
        creator: c.creator,
        position_nft_mint: c.position_nft_mint,
        position_nft_account: c.position_nft_account,
        payer: c.payer,
        config: c.config,
        pool_authority: c.pool_authority,
        pool: c.pool,
        position: c.position,
        token_a_mint: c.token_a_mint,
        token_b_mint: c.token_b_mint,
        token_a_vault: c.token_a_vault,
        token_b_vault: c.token_b_vault,
        payer_token_a: c.payer_token_a,
        payer_token_b: c.payer_token_b,
        token_a_program: c.token_a_program,
        token_b_program: c.token_b_program,
        token_2022_program: c.token_2022_program,
        system_program: c.system_program,
        event_authority: c.event_authority,
        amm_program: c.amm_program,
    }
}

fn custom_ctx(token_b_mint: u8) -> InitializeCustomizablePoolCtx {
    let c = pool_ctx(token_b_mint);
    InitializeCustomizablePoolCtx {
        creator: c.creator,
        position_nft_mint: c.position_nft_mint,
        position_nft_account: c.position_nft_account,
        payer: c.payer,
        pool_authority: c.pool_authority,
        pool: c.pool,
        position: c.position,
        token_a_mint: c.token_a_mint,
        token_b_mint: c.token_b_mint,
        token_a_vault: c.token_a_vault,
        token_b_vault: c.token_b_vault,
        payer_token_a: c.payer_token_a,
        payer_token_b: c.payer_token_b,
        token_a_program: c.token_a_program,
        token_b_program: c.token_b_program,
        token_2022_program: c.token_2022_program,
        system_program: c.system_program,
        event_authority: c.event_authority,
        amm_program: c.amm_program,
    }
}

fn fees() -> PoolFeeParameters {
    PoolFeeParameters { encoded: vec![0x40, 0x25, 0x26, 0, 0, 0, 0, 0, 9, 0, 1, 2, 3, 0] }
}

fn pool_wrap(amount: u64) -> Vec<Step> {
    vec![
        Step::Transfer {
            system_program: r(0),
            from: account(4, true, true),
            to: w(13),
            lamports: amount,
        },
        Step::SyncNative { token_program: r(15), account: w(13) },
    ]
}

fn delegate(accounts: Vec<Option<AccountRef>>, call: AmmCall) -> Step {
    Step::Delegate(Invocation { program: r(200), accounts, call })
}

fn has_transfer(plan: &[Step]) -> bool {
    plan.iter().any(|s| matches!(s, Step::Transfer { .. } | Step::SyncNative { .. }))
}

#[test]
fn add_liquidity_hands_its_parameters_on_unmodified() {
    let plan = add_liquidity(&add_ctx(8), &addresses(), 1000, 1, 1, None).unwrap();
    assert_eq!(
        plan,
        vec![delegate(
            add_accounts(8),
            AmmCall::AddLiquidity {
                liquidity_delta: 1000,
                token_a_amount_threshold: 1,
                token_b_amount_threshold: 1
            }
        )]
    );
}

#[test]
fn add_liquidity_cpi_keeps_large_values() {
    let call = add_ctx(8).add_liquidity_cpi(u128::MAX, u64::MAX, 0);
    assert_eq!(call.program, r(200));
    assert_eq!(call.accounts, add_accounts(8));
    assert_eq!(
        call.call,
        AmmCall::AddLiquidity {
            liquidity_delta: u128::MAX,
            token_a_amount_threshold: u64::MAX,
            token_b_amount_threshold: 0
        }
    );
}

#[test]
fn add_liquidity_wraps_for_a_native_quote_mint_with_funding() {
    let plan = add_liquidity(&add_ctx(NATIVE), &addresses(), 1000, 1, 1, Some(5_000)).unwrap();
    assert_eq!(
        plan,
        vec![
            Step::Transfer {
                system_program: r(0),
                from: account(10, true, false),
                to: w(4),
                lamports: 5_000
            },
            Step::SyncNative { token_program: r(12), account: w(4) },
            delegate(
                add_accounts(NATIVE),
                AmmCall::AddLiquidity {
                    liquidity_delta: 1000,
                    token_a_amount_threshold: 1,
                    token_b_amount_threshold: 1
                }
            ),
        ]
    );
}

#[test]
fn no_wrap_without_a_native_quote_mint() {
    let plan = add_liquidity(&add_ctx(8), &addresses(), 1000, 1, 1, Some(5_000)).unwrap();
    assert_eq!(plan.len(), 1);
    assert!(!has_transfer(&plan));
    let plan = add_liquidity(&add_ctx(8), &addresses(), 1000, 1, 1, Some(0)).unwrap();
    assert_eq!(plan.len(), 1);
    assert!(!has_transfer(&plan));
}

#[test]
fn no_wrap_without_a_funding_amount() {
    let plan = add_liquidity(&add_ctx(NATIVE), &addresses(), 1000, 1, 1, None).unwrap();
    assert_eq!(plan.len(), 1);
    assert!(!has_transfer(&plan));
}

#[test]
fn zero_funding_of_a_native_quote_mint_is_refused() {
    let refused = Err(EntryError::Program(MeteoraDAMMError::InvalidLiquidityDelta));
    assert_eq!(add_liquidity(&add_ctx(NATIVE), &addresses(), 1000, 1, 1, Some(0)), refused);
    assert_eq!(initialize_pool(&pool_ctx(NATIVE), &addresses(), 10, 20, None, Some(0)), refused);
    assert_eq!(
        initialize_customizable_pool(
            &custom_ctx(NATIVE),
            &addresses(),
            fees(),
            1,
            2,
            false,
            3,
            4,
            0,
            1,
            None,
            Some(0)
        ),
        refused
    );
}

#[test]
fn wrap_decision_follows_the_rule() {
    assert_eq!(wrap_decision(true, Some(7)), WrapDecision::Wrap(7));
    assert_eq!(wrap_decision(true, Some(u64::MAX)), WrapDecision::Wrap(u64::MAX));
    assert_eq!(wrap_decision(true, Some(0)), WrapDecision::Reject);
    assert_eq!(wrap_decision(true, None), WrapDecision::Skip);
    assert_eq!(wrap_decision(false, Some(7)), WrapDecision::Skip);
    assert_eq!(wrap_decision(false, Some(0)), WrapDecision::Skip);
    assert_eq!(wrap_decision(false, None), WrapDecision::Skip);
}

#[test]
fn funded_wrap_decision_follows_the_rule() {
    assert_eq!(funded_wrap_decision(true, 7), WrapDecision::Wrap(7));
    assert_eq!(funded_wrap_decision(true, 0), WrapDecision::Reject);
    assert_eq!(funded_wrap_decision(false, 0), WrapDecision::Reject);
    assert_eq!(funded_wrap_decision(false, 7), WrapDecision::Skip);
}

#[test]
fn a_substituted_authority_is_rejected_before_delegation() {
    let mut ctx = remove_ctx();
    ctx.pool_authority = r(99);
    assert_eq!(
        remove_liquidity(&ctx, &addresses(), 1, 2, 3),
        Err(EntryError::Constraint(ConstraintViolation {
            index: 0,
            name: "pool_authority",
            kind: ConstraintKind::Address
        }))
    );
    let mut ctx = pool_ctx(NATIVE);
    ctx.pool_authority = r(99);
    assert_eq!(
        initialize_pool(&ctx, &addresses(), 10, 20, None, Some(5)),
        Err(EntryError::Constraint(ConstraintViolation {
            index: 5,
            name: "pool_authority",
            kind: ConstraintKind::Address
        }))
    );
}

#[test]
fn a_failed_validation_comes_before_a_refused_amount() {
    let mut ctx = add_ctx(NATIVE);
    ctx.owner = account(10, false, false);
    assert_eq!(
        add_liquidity(&ctx, &addresses(), 1000, 1, 1, Some(0)),
        Err(EntryError::Constraint(ConstraintViolation {
            index: 9,
            name: "owner",
            kind: ConstraintKind::Signer
        }))
    );
}

#[test]
fn remove_liquidity_delegates_alone() {
    assert_eq!(
        remove_liquidity(&remove_ctx(), &addresses(), 77, 5, 6),
        Ok(vec![delegate(
            position_accounts(),
            AmmCall::RemoveLiquidity {
                liquidity_delta: 77,
                token_a_amount_threshold: 5,
                token_b_amount_threshold: 6
            }
        )])
    );
}

#[test]
fn remove_all_liquidity_delegates_alone() {
    let c = remove_ctx();
    let ctx = RemoveAllLiquidityCtx {
        pool_authority: c.pool_authority,
        pool: c.pool,
        position: c.position,
        token_a_account: c.token_a_account,
        token_b_account: c.token_b_account,
        token_a_vault: c.token_a_vault,
        token_b_vault: c.token_b_vault,
        token_a_mint: c.token_a_mint,
        token_b_mint: c.token_b_mint,
        position_nft_account: c.position_nft_account,
        owner: c.owner,
        token_a_program: c.token_a_program,
        token_b_program: c.token_b_program,
        event_authority: c.event_authority,
        amm_program: c.amm_program,
    };
    assert_eq!(
        remove_all_liquidity(&ctx, &addresses(), 5, 6),
        Ok(vec![delegate(
            position_accounts(),
            AmmCall::RemoveAllLiquidity { token_a_amount_threshold: 5, token_b_amount_threshold: 6 }
        )])
    );
}

#[test]
fn claim_position_fee_delegates_alone() {
    let c = remove_ctx();
    let ctx = ClaimPositionFeeCtx {
        pool_authority: c.pool_authority,
        pool: c.pool,
        position: c.position,
        token_a_account: c.token_a_account,
        token_b_account: c.token_b_account,
        token_a_vault: c.token_a_vault,
        token_b_vault: c.token_b_vault,
        token_a_mint: c.token_a_mint,
        token_b_mint: c.token_b_mint,
        position_nft_account: c.position_nft_account,
        owner: c.owner,
        token_a_program: c.token_a_program,
        token_b_program: c.token_b_program,
        event_authority: c.event_authority,
        amm_program: c.amm_program,
    };
    assert_eq!(
        claim_position_fee(&ctx, &addresses()),
        Ok(vec![delegate(position_accounts(), AmmCall::ClaimPositionFee)])
    );
}

#[test]
fn swap_without_a_referral_delegates_an_absent_account() {
    let plan = swap(&swap_ctx(None), &addresses(), 500, 490).unwrap();
    assert_eq!(
        plan,
        vec![delegate(swap_accounts(None), AmmCall::Swap { amount_in: 500, minimum_amount_out: 490 })]
    );
    match &plan[0] {
        Step::Delegate(call) => {
            assert_eq!(call.accounts.len(), 14);
            assert_eq!(call.accounts[11], None);
            assert_ne!(call.accounts[11], Some(r(0)));
            assert_ne!(call.accounts[11], Some(w(0)));
        }
        _ => panic!("a swap is one delegated call"),
    }
}

#[test]
fn swap_with_a_referral_delegates_that_account() {
    let plan = swap(&swap_ctx(Some(w(60))), &addresses(), 500, 490).unwrap();
    assert_eq!(
        plan,
        vec![delegate(
            swap_accounts(Some(w(60))),
            AmmCall::Swap { amount_in: 500, minimum_amount_out: 490 }
        )]
    );
}

#[test]
fn swap2_hands_on_mode_and_amounts_and_an_absent_referral() {
    let c = swap_ctx(None);
    let mut ctx = Swap2Ctx {
        pool_authority: c.pool_authority,
        pool: c.pool,
        input_token_account: c.input_token_account,
        output_token_account: c.output_token_account,
        token_a_vault: c.token_a_vault,
        token_b_vault: c.token_b_vault,
        token_a_mint: c.token_a_mint,
        token_b_mint: c.token_b_mint,
        payer: c.payer,
        token_a_program: c.token_a_program,
        token_b_program: c.token_b_program,
        referral_token_account: None,
        event_authority: c.event_authority,
        amm_program: c.amm_program,
    };
    assert_eq!(
        swap2(&ctx, &addresses(), 11, 22, 2),
        Ok(vec![delegate(
            swap_accounts(None),
            AmmCall::Swap2 { amount_0: 11, amount_1: 22, swap_mode: 2 }
        )])
    );
    ctx.referral_token_account = Some(w(61));
    assert_eq!(
        swap2(&ctx, &addresses(), 11, 22, 0),
        Ok(vec![delegate(
            swap_accounts(Some(w(61))),
            AmmCall::Swap2 { amount_0: 11, amount_1: 22, swap_mode: 0 }
        )])
    );
}

#[test]
fn initialize_pool_wraps_then_delegates() {
    let call = AmmCall::InitializePool { liquidity: 10, sqrt_price: 20, activation_point: Some(30) };
    let mut expected = pool_wrap(9);
    expected.push(delegate(pool_accounts(NATIVE, true), call.clone()));
    assert_eq!(
        initialize_pool(&pool_ctx(NATIVE), &addresses(), 10, 20, Some(30), Some(9)),
        Ok(expected)
    );
    assert_eq!(
        initialize_pool(&pool_ctx(9), &addresses(), 10, 20, Some(30), Some(9)),
        Ok(vec![delegate(pool_accounts(9, true), call.clone())])
    );
    assert_eq!(
        initialize_pool(&pool_ctx(NATIVE), &addresses(), 10, 20, Some(30), None),
        Ok(vec![delegate(pool_accounts(NATIVE, true), call)])
    );
}

#[test]
fn initialize_pool_with_sol_refuses_zero_funding() {
    let refused = Err(EntryError::Program(MeteoraDAMMError::InvalidLiquidityDelta));
    assert_eq!(
        initialize_pool_with_sol(&pool_sol_ctx(NATIVE), &addresses(), 10, 20, None, 0),
        refused
    );
    assert_eq!(initialize_pool_with_sol(&pool_sol_ctx(9), &addresses(), 10, 20, None, 0), refused);
}

#[test]
fn initialize_pool_with_sol_wraps_the_funding() {
    let call = AmmCall::InitializePool { liquidity: 10, sqrt_price: 20, activation_point: None };
    let mut expected = pool_wrap(1);
    expected.push(delegate(pool_accounts(NATIVE, true), call));
    assert_eq!(
        initialize_pool_with_sol(&pool_sol_ctx(NATIVE), &addresses(), 10, 20, None, 1),
        Ok(expected)
    );
}

#[test]
fn initialize_pool_with_sol_wraps_only_a_native_quote_mint() {
    let call = AmmCall::InitializePool { liquidity: 10, sqrt_price: 20, activation_point: None };
    assert_eq!(
        initialize_pool_with_sol(&pool_sol_ctx(9), &addresses(), 10, 20, None, 1),
        Ok(vec![delegate(pool_accounts(9, true), call)])
    );
}

#[test]
fn initialize_customizable_pool_hands_on_every_parameter() {
    let call = AmmCall::InitializeCustomizablePool {
        pool_fees: fees(),
        sqrt_min_price: 4295048016,
        sqrt_max_price: 79226673521066979257578248091,
        has_alpha_vault: true,
        liquidity: 3,
        sqrt_price: 4,
        activation_type: 1,
        collect_fee_mode: 0,
        activation_point: Some(99),
    };
    let mut expected = pool_wrap(250);
    expected.push(delegate(pool_accounts(NATIVE, false), call));
    assert_eq!(
        initialize_customizable_pool(
            &custom_ctx(NATIVE),
            &addresses(),
            fees(),
            4295048016,
            79226673521066979257578248091,
            true,
            3,
            4,
            1,
            0,
            Some(99),
            Some(250)
        ),
        Ok(expected)
    );
}

#[test]
fn create_position_delegates_its_accounts_in_order() {
    let ctx = CreatePositionCtx {
        owner: r(1),
        position_nft_mint: account(2, true, true),
        position_nft_account: w(3),
        pool: w(4),
        position: w(5),
        pool_authority: r(201),
        payer: account(6, true, true),
        token_program: r(203),
        system_program: r(0),
        event_authority: r(7),
        amm_program: r(200),
    };
    assert_eq!(
        create_position(&ctx, &addresses()),
        Ok(vec![delegate(
            vec![
                Some(r(1)),
                Some(account(2, true, true)),
                Some(w(3)),
                Some(w(4)),
                Some(w(5)),
                Some(r(201)),
                Some(account(6, true, true)),
                Some(r(203)),
                Some(r(0)),
                Some(r(7)),
                Some(r(200)),
            ],
            AmmCall::CreatePosition
        )])
    );
}

#[test]
fn close_position_delegates_its_accounts_in_order() {
    let ctx = ClosePositionCtx {
        position_nft_mint: w(1),
        position_nft_account: w(2),
        pool: w(3),
        position: w(4),
        pool_authority: r(201),
        rent_receiver: w(5),
        owner: account(6, true, false),
        token_program: r(203),
        event_authority: r(7),
        amm_program: r(200),
    };
    assert_eq!(
        close_position(&ctx, &addresses()),
        Ok(vec![delegate(
            vec![
                Some(w(1)),
                Some(w(2)),
                Some(w(3)),
                Some(w(4)),
                Some(r(201)),
                Some(w(5)),
                Some(account(6, true, false)),
                Some(r(203)),
                Some(r(7)),
                Some(r(200)),
            ],
            AmmCall::ClosePosition
        )])
    );
}

#[test]
fn entrypoints_work_with_the_deployed_addresses() {
    let deployed = ProtocolAddresses::deployed().unwrap();
    let mut ctx = add_ctx(8);
    ctx.amm_program = AccountRef { key: deployed.amm_program, is_signer: false, is_writable: false };
    ctx.token_b_mint =
        AccountRef { key: deployed.native_mint, is_signer: false, is_writable: false };
    let plan = add_liquidity(&ctx, &deployed, 1000, 1, 1, Some(3)).unwrap();
    assert_eq!(plan.len(), 3);
    assert_eq!(
        plan[0],
        Step::Transfer {
            system_program: r(0),
            from: account(10, true, false),
            to: w(4),
            lamports: 3
        }
    );
    ctx.amm_program = r(200);
    assert_eq!(
        add_liquidity(&ctx, &deployed, 1000, 1, 1, Some(3)),
        Err(EntryError::Constraint(ConstraintViolation {
            index: 14,
            name: "amm_program",
            kind: ConstraintKind::Address
        }))
    );
}
