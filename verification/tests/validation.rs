use meteora_damm_v2_cpi::{
    validate, AccountRef, Address, ClosePositionCtx, ConstraintKind, ConstraintViolation,
    CreatePositionCtx, ProtocolAddresses, RemoveLiquidityCtx, Slot, SwapCtx, Tag,
};

fn key(n: u8) -> Address {
    Address { bytes: [n; 32] }
}

fn account(n: u8, is_signer: bool, is_writable: bool) -> AccountRef {
    AccountRef { key: key(n), is_signer, is_writable }
}

fn addresses() -> ProtocolAddresses {
    ProtocolAddresses {
        amm_program: key(200),
        pool_authority: key(201),
        native_mint: key(202),
        token_2022_program: key(203),
    }
}

fn remove_ctx() -> RemoveLiquidityCtx {
    RemoveLiquidityCtx {
        pool_authority: account(201, false, false),
        pool: account(1, false, true),
        position: account(2, false, true),
        token_a_account: account(3, false, true),
        token_b_account: account(4, false, true),
        token_a_vault: account(5, false, true),
        token_b_vault: account(6, false, true),
        token_a_mint: account(7, false, false),
        token_b_mint: account(8, false, false),
        position_nft_account: account(9, false, false),
        owner: account(10, true, false),
        token_a_program: account(11, false, false),
        token_b_program: account(12, false, false),
        event_authority: account(13, false, false),
        amm_program: account(200, false, false),
    }
}

fn create_ctx() -> CreatePositionCtx {
    CreatePositionCtx {
        owner: account(1, false, false),
        position_nft_mint: account(2, true, true),
        position_nft_account: account(3, false, true),
        pool: account(4, false, true),
        position: account(5, false, true),
        pool_authority: account(201, false, false),
        payer: account(6, true, true),
        token_program: account(203, false, false),
        system_program: account(0, false, false),
        event_authority: account(7, false, false),
        amm_program: account(200, false, false),
    }
}

fn swap_ctx(referral: Option<AccountRef>) -> SwapCtx {
    SwapCtx {
        pool_authority: account(201, false, false),
        pool: account(1, false, true),
        input_token_account: account(2, false, true),
        output_token_account: account(3, false, true),
        token_a_vault: account(4, false, true),
        token_b_vault: account(5, false, true),
        token_a_mint: account(6, false, false),
        token_b_mint: account(7, false, false),
        payer: account(8, true, false),
        token_a_program: account(9, false, false),
        token_b_program: account(10, false, false),
        referral_token_account: referral,
        event_authority: account(11, false, false),
        amm_program: account(200, false, false),
    }
}

#[test]
fn a_well_formed_context_passes() {
    assert_eq!(remove_ctx().validate(&addresses()), Ok(()));
    assert_eq!(create_ctx().validate(&addresses()), Ok(()));
    assert_eq!(swap_ctx(None).validate(&addresses()), Ok(()));
}

#[test]
fn a_substituted_authority_is_a_configuration_error() {
    let mut ctx = remove_ctx();
    ctx.pool_authority = account(99, false, false);
    assert_eq!(
        ctx.validate(&addresses()),
        Err(ConstraintViolation { index: 0, name: "pool_authority", kind: ConstraintKind::Address })
    );
}

#[test]
fn the_all_zero_address_is_no_stand_in_for_a_fixed_one() {
    let mut ctx = remove_ctx();
    ctx.amm_program = account(0, false, false);
    assert_eq!(
        ctx.validate(&addresses()),
        Err(ConstraintViolation { index: 14, name: "amm_program", kind: ConstraintKind::Address })
    );
}

#[test]
fn a_wrong_token_program_is_a_configuration_error() {
    let mut ctx = create_ctx();
    ctx.token_program = account(11, false, false);
    assert_eq!(
        ctx.validate(&addresses()),
        Err(ConstraintViolation { index: 7, name: "token_program", kind: ConstraintKind::Address })
    );
}

#[test]
fn an_owner_who_did_not_sign_is_an_authorization_error() {
    let mut ctx = remove_ctx();
    ctx.owner = account(10, false, false);
    assert_eq!(
        ctx.validate(&addresses()),
        Err(ConstraintViolation { index: 10, name: "owner", kind: ConstraintKind::Signer })
    );
}

#[test]
fn a_read_only_pool_is_refused() {
    let mut ctx = remove_ctx();
    ctx.pool = account(1, false, false);
    assert_eq!(
        ctx.validate(&addresses()),
        Err(ConstraintViolation { index: 1, name: "pool", kind: ConstraintKind::Mutable })
    );
}

#[test]
fn signer_accounts_are_tested_before_any_constraint() {
    // The authority in slot 0 is wrong and the owner in slot 10 did not
    // sign: the missing signature is found when the accounts are loaded.
    let mut ctx = remove_ctx();
    ctx.pool_authority = account(99, false, false);
    ctx.owner = account(10, false, false);
    assert_eq!(
        ctx.validate(&addresses()),
        Err(ConstraintViolation { index: 10, name: "owner", kind: ConstraintKind::Signer })
    );
}

#[test]
fn constraints_are_tested_in_declaration_order() {
    let mut ctx = remove_ctx();
    ctx.position = account(2, false, false);
    ctx.token_b_vault = account(6, false, false);
    ctx.amm_program = account(77, false, false);
    assert_eq!(
        ctx.validate(&addresses()),
        Err(ConstraintViolation { index: 2, name: "position", kind: ConstraintKind::Mutable })
    );
}

#[test]
fn a_fresh_mint_must_be_writable_then_signed() {
    let mut ctx = create_ctx();
    ctx.position_nft_mint = account(2, false, false);
    assert_eq!(
        ctx.validate(&addresses()),
        Err(ConstraintViolation { index: 1, name: "position_nft_mint", kind: ConstraintKind::Mutable })
    );
    ctx.position_nft_mint = account(2, false, true);
    assert_eq!(
        ctx.validate(&addresses()),
        Err(ConstraintViolation { index: 1, name: "position_nft_mint", kind: ConstraintKind::Signer })
    );
}

#[test]
fn a_payer_must_sign_and_be_writable() {
    let mut ctx = create_ctx();
    ctx.payer = account(6, false, false);
    assert_eq!(
        ctx.validate(&addresses()),
        Err(ConstraintViolation { index: 6, name: "payer", kind: ConstraintKind::Signer })
    );
    ctx.payer = account(6, true, false);
    assert_eq!(
        ctx.validate(&addresses()),
        Err(ConstraintViolation { index: 6, name: "payer", kind: ConstraintKind::Mutable })
    );
}

#[test]
fn an_absent_referral_account_is_valid() {
    assert_eq!(swap_ctx(None).validate(&addresses()), Ok(()));
    assert_eq!(swap_ctx(Some(account(50, false, true))).validate(&addresses()), Ok(()));
}

#[test]
fn a_supplied_referral_account_must_be_writable() {
    assert_eq!(
        swap_ctx(Some(account(50, false, false))).validate(&addresses()),
        Err(ConstraintViolation {
            index: 11,
            name: "referral_token_account",
            kind: ConstraintKind::Mutable
        })
    );
}

#[test]
fn close_position_checks_its_three_fixed_and_signed_slots() {
    let good = ClosePositionCtx {
        position_nft_mint: account(1, false, true),
        position_nft_account: account(2, false, true),
        pool: account(3, false, true),
        position: account(4, false, true),
        pool_authority: account(201, false, false),
        rent_receiver: account(5, false, true),
        owner: account(6, true, false),
        token_program: account(203, false, false),
        event_authority: account(7, false, false),
        amm_program: account(200, false, false),
    };
    assert_eq!(good.validate(&addresses()), Ok(()));
    let mut bad = good;
    bad.rent_receiver = account(5, false, false);
    bad.token_program = account(9, false, false);
    assert_eq!(
        bad.validate(&addresses()),
        Err(ConstraintViolation { index: 5, name: "rent_receiver", kind: ConstraintKind::Mutable })
    );
}

#[test]
fn validate_reports_the_first_failing_slot_of_a_list() {
    let slots = vec![
        Slot::present("a", account(1, false, false), Tag::ReadOnly),
        Slot::present("b", account(2, false, true), Tag::Mutable),
        Slot::present("c", account(3, false, true), Tag::Fixed(key(4))),
        Slot::present("d", account(5, false, true), Tag::Signer),
    ];
    assert_eq!(
        validate(&slots),
        Err(ConstraintViolation { index: 3, name: "d", kind: ConstraintKind::Signer })
    );
    let slots = vec![
        Slot::present("a", account(1, false, false), Tag::ReadOnly),
        Slot::present("c", account(3, false, true), Tag::Fixed(key(4))),
        Slot::present("b", account(2, false, false), Tag::Mutable),
    ];
    assert_eq!(
        validate(&slots),
        Err(ConstraintViolation { index: 1, name: "c", kind: ConstraintKind::Address })
    );
    assert_eq!(validate(&Vec::new()), Ok(()));
    let optional = vec![Slot { name: "r", account: None, tag: Tag::MutableSigned }];
    assert_eq!(validate(&optional), Ok(()));
}

#[test]
fn check_answers_for_one_pass_at_a_time() {
    let slot = Slot::present("payer", account(1, false, false), Tag::SignerMutable);
    assert_eq!(slot.check(true), Some(ConstraintKind::Signer));
    assert_eq!(slot.check(false), Some(ConstraintKind::Mutable));
    let slot = Slot::present("mint", account(1, false, true), Tag::MutableSigned);
    assert_eq!(slot.check(true), None);
    assert_eq!(slot.check(false), Some(ConstraintKind::Signer));
    let slot = Slot::present("fixed", account(1, false, false), Tag::Fixed(key(1)));
    assert_eq!(slot.check(true), None);
    assert_eq!(slot.check(false), None);
}
