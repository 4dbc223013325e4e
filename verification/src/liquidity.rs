use crate::account::all_satisfied;
use crate::account::lemma_validation_passes_iff_satisfied;
use crate::account::validate;
use crate::account::validation;
use crate::account::AccountRef;
use crate::account::Slot;
use crate::account::Tag;
use crate::address::ProtocolAddresses;
use crate::error::ConstraintViolation;
use crate::plan::AmmCall;
use crate::plan::AmmCallView;
use crate::plan::Invocation;
use crate::plan::InvocationView;
use crate::plan::WrapAccounts;
use vstd::prelude::*;

verus! {

/// Accounts for adding liquidity to a position.
#[derive(Clone, Copy, Debug, PartialEq, Eq)]
pub struct AddLiquidityCtx {
    pub pool: AccountRef,
    pub position: AccountRef,
    /// The user's token A account.
    pub token_a_account: AccountRef,
    /// The user's token B account.
    pub token_b_account: AccountRef,
    pub token_a_vault: AccountRef,
    pub token_b_vault: AccountRef,
    pub token_a_mint: AccountRef,
    pub token_b_mint: AccountRef,
    /// Token account of the position token, which proves ownership.
    pub position_nft_account: AccountRef,
    /// Owner of the position.
    pub owner: AccountRef,
    pub token_a_program: AccountRef,
    pub token_b_program: AccountRef,
    /// Needed only where the owner funds a wrap.
    pub system_program: AccountRef,
    /// Event authority of the DAMM v2 program.
    pub event_authority: AccountRef,
    /// The DAMM v2 program, at its fixed address.
    pub amm_program: AccountRef,
}

impl AddLiquidityCtx {
    /// The slots of this context in declaration order.
    pub open spec fn slots(self, addresses: ProtocolAddresses) -> Seq<Slot> {
        seq![
            Slot { name: "pool", account: Some(self.pool), tag: Tag::Mutable },
            Slot { name: "position", account: Some(self.position), tag: Tag::Mutable },
            Slot {
                name: "token_a_account",
                account: Some(self.token_a_account),
                tag: Tag::Mutable,
            },
            Slot {
                name: "token_b_account",
                account: Some(self.token_b_account),
                tag: Tag::Mutable,
            },
            Slot { name: "token_a_vault", account: Some(self.token_a_vault), tag: Tag::Mutable },
            Slot { name: "token_b_vault", account: Some(self.token_b_vault), tag: Tag::Mutable },
            Slot { name: "token_a_mint", account: Some(self.token_a_mint), tag: Tag::ReadOnly },
            Slot { name: "token_b_mint", account: Some(self.token_b_mint), tag: Tag::ReadOnly },
            Slot {
                name: "position_nft_account",
                account: Some(self.position_nft_account),
                tag: Tag::ReadOnly,
            },
            Slot { name: "owner", account: Some(self.owner), tag: Tag::Signer },
            Slot {
                name: "token_a_program",
                account: Some(self.token_a_program),
                tag: Tag::ReadOnly,
            },
            Slot {
                name: "token_b_program",
                account: Some(self.token_b_program),
                tag: Tag::ReadOnly,
            },
            Slot { name: "system_program", account: Some(self.system_program), tag: Tag::ReadOnly },
            Slot {
                name: "event_authority",
                account: Some(self.event_authority),
                tag: Tag::ReadOnly,
            },
            Slot {
                name: "amm_program",
                account: Some(self.amm_program),
                tag: Tag::Fixed(addresses.amm_program),
            },
        ]
    }

    /// The accounts of the delegated call, in the order its entrypoint
    /// declares them.
    pub open spec fn delegated(self) -> Seq<Option<AccountRef>> {
        seq![
            Some(self.pool),
            Some(self.position),
            Some(self.token_a_account),
            Some(self.token_b_account),
            Some(self.token_a_vault),
            Some(self.token_b_vault),
            Some(self.token_a_mint),
            Some(self.token_b_mint),
            Some(self.position_nft_account),
            Some(self.owner),
            Some(self.token_a_program),
            Some(self.token_b_program),
            Some(self.event_authority),
            Some(self.amm_program),
        ]
    }

    /// The delegated call that this context makes of `call`: to the program
    /// in its `amm_program` slot, with the accounts of `delegated`.
    pub open spec fn invocation(self, call: AmmCallView) -> InvocationView {
        InvocationView { program: self.amm_program, accounts: self.delegated(), call }
    }

    /// The accounts of this context's wrap step: the owner funds their token B account.
    pub open spec fn wrap_accounts(self) -> WrapAccounts {
        WrapAccounts {
            system_program: self.system_program,
            funder: self.owner,
            holder: self.token_b_account,
            token_program: self.token_b_program,
        }
    }

    /// Every account has what its slot asks for: the writable ones are
    /// writable, the signers have signed, and the fixed ones sit at their
    /// addresses.
    pub open spec fn well_formed(self, addresses: ProtocolAddresses) -> bool {
        &&& self.pool.is_writable
        &&& self.position.is_writable
        &&& self.token_a_account.is_writable
        &&& self.token_b_account.is_writable
        &&& self.token_a_vault.is_writable
        &&& self.token_b_vault.is_writable
        &&& self.owner.is_signer
        &&& self.amm_program.key@ == addresses.amm_program@
    }

    /// Validation passes exactly on the well-formed contexts.
    pub proof fn lemma_valid_iff_well_formed(self, addresses: ProtocolAddresses)
        ensures
            validation(self.slots(addresses)) is None <==> self.well_formed(addresses),
    {
        let slots = self.slots(addresses);
        lemma_validation_passes_iff_satisfied(slots);
        if all_satisfied(slots) {
            assert(slots[0].satisfied());
            assert(slots[1].satisfied());
            assert(slots[2].satisfied());
            assert(slots[3].satisfied());
            assert(slots[4].satisfied());
            assert(slots[5].satisfied());
            assert(slots[9].satisfied());
            assert(slots[14].satisfied());
        }
    }

    /// Checks every account against the tag of its slot.
    pub fn validate(&self, addresses: &ProtocolAddresses) -> (r: Result<
        (),
        ConstraintViolation,
    >)
        ensures
            match r {
                Ok(_) => validation(self.slots(*addresses)) is None,
                Err(v) => validation(self.slots(*addresses)) == Some(v),
            },
            r is Ok <==> self.well_formed(*addresses),
    {
        let slots = vec![
            Slot::present("pool", self.pool, Tag::Mutable),
            Slot::present("position", self.position, Tag::Mutable),
            Slot::present("token_a_account", self.token_a_account, Tag::Mutable),
            Slot::present("token_b_account", self.token_b_account, Tag::Mutable),
            Slot::present("token_a_vault", self.token_a_vault, Tag::Mutable),
            Slot::present("token_b_vault", self.token_b_vault, Tag::Mutable),
            Slot::present("token_a_mint", self.token_a_mint, Tag::ReadOnly),
            Slot::present("token_b_mint", self.token_b_mint, Tag::ReadOnly),
            Slot::present("position_nft_account", self.position_nft_account, Tag::ReadOnly),
            Slot::present("owner", self.owner, Tag::Signer),
            Slot::present("token_a_program", self.token_a_program, Tag::ReadOnly),
            Slot::present("token_b_program", self.token_b_program, Tag::ReadOnly),
            Slot::present("system_program", self.system_program, Tag::ReadOnly),
            Slot::present("event_authority", self.event_authority, Tag::ReadOnly),
            Slot::present("amm_program", self.amm_program, Tag::Fixed(addresses.amm_program)),
        ];
        assert(slots@ =~= self.slots(*addresses));
        proof {
            self.lemma_valid_iff_well_formed(*addresses);
        }
        validate(&slots)
    }

    /// Builds the delegated `add_liquidity` call from this context.
    pub fn add_liquidity_cpi(
        &self,
        liquidity_delta: u128,
        token_a_amount_threshold: u64,
        token_b_amount_threshold: u64,
    ) -> (r: Invocation)
        ensures
            r@ == self.invocation(
                AmmCallView::AddLiquidity {
                    liquidity_delta,
                    token_a_amount_threshold,
                    token_b_amount_threshold,
                },
            ),
    {
        let accounts = vec![
            Some(self.pool),
            Some(self.position),
            Some(self.token_a_account),
            Some(self.token_b_account),
            Some(self.token_a_vault),
            Some(self.token_b_vault),
            Some(self.token_a_mint),
            Some(self.token_b_mint),
            Some(self.position_nft_account),
            Some(self.owner),
            Some(self.token_a_program),
            Some(self.token_b_program),
            Some(self.event_authority),
            Some(self.amm_program),
        ];
        assert(accounts@ =~= self.delegated());
        Invocation {
            program: self.amm_program,
            accounts,
            call: AmmCall::AddLiquidity {
                liquidity_delta,
                token_a_amount_threshold,
                token_b_amount_threshold,
            },
        }
    }

    /// The accounts of this context's wrap step.
    pub fn wrap(&self) -> (r: WrapAccounts)
        ensures
            r == self.wrap_accounts(),
    {
        WrapAccounts {
            system_program: self.system_program,
            funder: self.owner,
            holder: self.token_b_account,
            token_program: self.token_b_program,
        }
    }
}

/// Accounts for removing liquidity from a position.
#[derive(Clone, Copy, Debug, PartialEq, Eq)]
pub struct RemoveLiquidityCtx {
    /// Authority of the DAMM v2 program, at its fixed address.
    pub pool_authority: AccountRef,
    pub pool: AccountRef,
    pub position: AccountRef,
    /// The user's token A account.
    pub token_a_account: AccountRef,
    /// The user's token B account.
    pub token_b_account: AccountRef,
    pub token_a_vault: AccountRef,
    pub token_b_vault: AccountRef,
    pub token_a_mint: AccountRef,
    pub token_b_mint: AccountRef,
    /// Token account of the position token, which proves ownership.
    pub position_nft_account: AccountRef,
    /// Owner of the position.
    pub owner: AccountRef,
    pub token_a_program: AccountRef,
    pub token_b_program: AccountRef,
    /// Event authority of the DAMM v2 program.
    pub event_authority: AccountRef,
    /// The DAMM v2 program, at its fixed address.
    pub amm_program: AccountRef,
}

impl RemoveLiquidityCtx {
    /// The slots of this context in declaration order.
    pub open spec fn slots(self, addresses: ProtocolAddresses) -> Seq<Slot> {
        seq![
            Slot {
                name: "pool_authority",
                account: Some(self.pool_authority),
                tag: Tag::Fixed(addresses.pool_authority),
            },
            Slot { name: "pool", account: Some(self.pool), tag: Tag::Mutable },
            Slot { name: "position", account: Some(self.position), tag: Tag::Mutable },
            Slot {
                name: "token_a_account",
                account: Some(self.token_a_account),
                tag: Tag::Mutable,
            },
            Slot {
                name: "token_b_account",
                account: Some(self.token_b_account),
                tag: Tag::Mutable,
            },
            Slot { name: "token_a_vault", account: Some(self.token_a_vault), tag: Tag::Mutable },
            Slot { name: "token_b_vault", account: Some(self.token_b_vault), tag: Tag::Mutable },
            Slot { name: "token_a_mint", account: Some(self.token_a_mint), tag: Tag::ReadOnly },
            Slot { name: "token_b_mint", account: Some(self.token_b_mint), tag: Tag::ReadOnly },
            Slot {
                name: "position_nft_account",
                account: Some(self.position_nft_account),
                tag: Tag::ReadOnly,
            },
            Slot { name: "owner", account: Some(self.owner), tag: Tag::Signer },
            Slot {
                name: "token_a_program",
                account: Some(self.token_a_program),
                tag: Tag::ReadOnly,
            },
            Slot {
                name: "token_b_program",
                account: Some(self.token_b_program),
                tag: Tag::ReadOnly,
            },
            Slot {
                name: "event_authority",
                account: Some(self.event_authority),
                tag: Tag::ReadOnly,
            },
            Slot {
                name: "amm_program",
                account: Some(self.amm_program),
                tag: Tag::Fixed(addresses.amm_program),
            },
        ]
    }

    /// The accounts of the delegated call, in the order its entrypoint
    /// declares them.
    pub open spec fn delegated(self) -> Seq<Option<AccountRef>> {
        seq![
            Some(self.pool_authority),
            Some(self.pool),
            Some(self.position),
            Some(self.token_a_account),
            Some(self.token_b_account),
            Some(self.token_a_vault),
            Some(self.token_b_vault),
            Some(self.token_a_mint),
            Some(self.token_b_mint),
            Some(self.position_nft_account),
            Some(self.owner),
            Some(self.token_a_program),
            Some(self.token_b_program),
            Some(self.event_authority),
            Some(self.amm_program),
        ]
    }

    /// The delegated call that this context makes of `call`: to the program
    /// in its `amm_program` slot, with the accounts of `delegated`.
    pub open spec fn invocation(self, call: AmmCallView) -> InvocationView {
        InvocationView { program: self.amm_program, accounts: self.delegated(), call }
    }

    /// Every account has what its slot asks for: the writable ones are
    /// writable, the signers have signed, and the fixed ones sit at their
    /// addresses.
    pub open spec fn well_formed(self, addresses: ProtocolAddresses) -> bool {
        &&& self.pool_authority.key@ == addresses.pool_authority@
        &&& self.pool.is_writable
        &&& self.position.is_writable
        &&& self.token_a_account.is_writable
        &&& self.token_b_account.is_writable
        &&& self.token_a_vault.is_writable
        &&& self.token_b_vault.is_writable
        &&& self.owner.is_signer
        &&& self.amm_program.key@ == addresses.amm_program@
    }

    /// Validation passes exactly on the well-formed contexts.
    pub proof fn lemma_valid_iff_well_formed(self, addresses: ProtocolAddresses)
        ensures
            validation(self.slots(addresses)) is None <==> self.well_formed(addresses),
    {
        let slots = self.slots(addresses);
        lemma_validation_passes_iff_satisfied(slots);
        if all_satisfied(slots) {
            assert(slots[0].satisfied());
            assert(slots[1].satisfied());
            assert(slots[2].satisfied());
            assert(slots[3].satisfied());
            assert(slots[4].satisfied());
            assert(slots[5].satisfied());
            assert(slots[6].satisfied());
            assert(slots[10].satisfied());
            assert(slots[14].satisfied());
        }
    }

    /// Checks every account against the tag of its slot.
    pub fn validate(&self, addresses: &ProtocolAddresses) -> (r: Result<
        (),
        ConstraintViolation,
    >)
        ensures
            match r {
                Ok(_) => validation(self.slots(*addresses)) is None,
                Err(v) => validation(self.slots(*addresses)) == Some(v),
            },
            r is Ok <==> self.well_formed(*addresses),
    {
        let slots = vec![
            Slot::present(
                "pool_authority",
                self.pool_authority,
                Tag::Fixed(addresses.pool_authority),
            ),
            Slot::present("pool", self.pool, Tag::Mutable),
            Slot::present("position", self.position, Tag::Mutable),
            Slot::present("token_a_account", self.token_a_account, Tag::Mutable),
            Slot::present("token_b_account", self.token_b_account, Tag::Mutable),
            Slot::present("token_a_vault", self.token_a_vault, Tag::Mutable),
            Slot::present("token_b_vault", self.token_b_vault, Tag::Mutable),
            Slot::present("token_a_mint", self.token_a_mint, Tag::ReadOnly),
            Slot::present("token_b_mint", self.token_b_mint, Tag::ReadOnly),
            Slot::present("position_nft_account", self.position_nft_account, Tag::ReadOnly),
            Slot::present("owner", self.owner, Tag::Signer),
            Slot::present("token_a_program", self.token_a_program, Tag::ReadOnly),
            Slot::present("token_b_program", self.token_b_program, Tag::ReadOnly),
            Slot::present("event_authority", self.event_authority, Tag::ReadOnly),
            Slot::present("amm_program", self.amm_program, Tag::Fixed(addresses.amm_program)),
        ];
        assert(slots@ =~= self.slots(*addresses));
        proof {
            self.lemma_valid_iff_well_formed(*addresses);
        }
        validate(&slots)
    }

    /// Builds the delegated `remove_liquidity` call from this context.
    pub fn remove_liquidity_cpi(
        &self,
        liquidity_delta: u128,
        token_a_amount_threshold: u64,
        token_b_amount_threshold: u64,
    ) -> (r: Invocation)
        ensures
            r@ == self.invocation(
                AmmCallView::RemoveLiquidity {
                    liquidity_delta,
                    token_a_amount_threshold,
                    token_b_amount_threshold,
                },
            ),
    {
        let accounts = vec![
            Some(self.pool_authority),
            Some(self.pool),
            Some(self.position),
            Some(self.token_a_account),
            Some(self.token_b_account),
            Some(self.token_a_vault),
            Some(self.token_b_vault),
            Some(self.token_a_mint),
            Some(self.token_b_mint),
            Some(self.position_nft_account),
            Some(self.owner),
            Some(self.token_a_program),
            Some(self.token_b_program),
            Some(self.event_authority),
            Some(self.amm_program),
        ];
        assert(accounts@ =~= self.delegated());
        Invocation {
            program: self.amm_program,
            accounts,
            call: AmmCall::RemoveLiquidity {
                liquidity_delta,
                token_a_amount_threshold,
                token_b_amount_threshold,
            },
        }
    }
}

/// Accounts for removing all liquidity from a position.
#[derive(Clone, Copy, Debug, PartialEq, Eq)]
pub struct RemoveAllLiquidityCtx {
    /// Authority of the DAMM v2 program, at its fixed address.
    pub pool_authority: AccountRef,
    pub pool: AccountRef,
    pub position: AccountRef,
    /// The user's token A account.
    pub token_a_account: AccountRef,
    /// The user's token B account.
    pub token_b_account: AccountRef,
    pub token_a_vault: AccountRef,
    pub token_b_vault: AccountRef,
    pub token_a_mint: AccountRef,
    pub token_b_mint: AccountRef,
    /// Token account of the position token, which proves ownership.
    pub position_nft_account: AccountRef,
    /// Owner of the position.
    pub owner: AccountRef,
    pub token_a_program: AccountRef,
    pub token_b_program: AccountRef,
    /// Event authority of the DAMM v2 program.
    pub event_authority: AccountRef,
    /// The DAMM v2 program, at its fixed address.
    pub amm_program: AccountRef,
}

impl RemoveAllLiquidityCtx {
    /// The slots of this context in declaration order.
    pub open spec fn slots(self, addresses: ProtocolAddresses) -> Seq<Slot> {
        seq![
            Slot {
                name: "pool_authority",
                account: Some(self.pool_authority),
                tag: Tag::Fixed(addresses.pool_authority),
            },
            Slot { name: "pool", account: Some(self.pool), tag: Tag::Mutable },
            Slot { name: "position", account: Some(self.position), tag: Tag::Mutable },
            Slot {
                name: "token_a_account",
                account: Some(self.token_a_account),
                tag: Tag::Mutable,
            },
            Slot {
                name: "token_b_account",
                account: Some(self.token_b_account),
                tag: Tag::Mutable,
            },
            Slot { name: "token_a_vault", account: Some(self.token_a_vault), tag: Tag::Mutable },
            Slot { name: "token_b_vault", account: Some(self.token_b_vault), tag: Tag::Mutable },
            Slot { name: "token_a_mint", account: Some(self.token_a_mint), tag: Tag::ReadOnly },
            Slot { name: "token_b_mint", account: Some(self.token_b_mint), tag: Tag::ReadOnly },
            Slot {
                name: "position_nft_account",
                account: Some(self.position_nft_account),
                tag: Tag::ReadOnly,
            },
            Slot { name: "owner", account: Some(self.owner), tag: Tag::Signer },
            Slot {
                name: "token_a_program",
                account: Some(self.token_a_program),
                tag: Tag::ReadOnly,
            },
            Slot {
                name: "token_b_program",
                account: Some(self.token_b_program),
                tag: Tag::ReadOnly,
            },
            Slot {
                name: "event_authority",
                account: Some(self.event_authority),
                tag: Tag::ReadOnly,
            },
            Slot {
                name: "amm_program",
                account: Some(self.amm_program),
                tag: Tag::Fixed(addresses.amm_program),
            },
        ]
    }

    /// The accounts of the delegated call, in the order its entrypoint
    /// declares them.
    pub open spec fn delegated(self) -> Seq<Option<AccountRef>> {
        seq![
            Some(self.pool_authority),
            Some(self.pool),
            Some(self.position),
            Some(self.token_a_account),
            Some(self.token_b_account),
            Some(self.token_a_vault),
            Some(self.token_b_vault),
            Some(self.token_a_mint),
            Some(self.token_b_mint),
            Some(self.position_nft_account),
            Some(self.owner),
            Some(self.token_a_program),
            Some(self.token_b_program),
            Some(self.event_authority),
            Some(self.amm_program),
        ]
    }

    /// The delegated call that this context makes of `call`: to the program
    /// in its `amm_program` slot, with the accounts of `delegated`.
    pub open spec fn invocation(self, call: AmmCallView) -> InvocationView {
        InvocationView { program: self.amm_program, accounts: self.delegated(), call }
    }

    /// Every account has what its slot asks for: the writable ones are
    /// writable, the signers have signed, and the fixed ones sit at their
    /// addresses.
    pub open spec fn well_formed(self, addresses: ProtocolAddresses) -> bool {
        &&& self.pool_authority.key@ == addresses.pool_authority@
        &&& self.pool.is_writable
        &&& self.position.is_writable
        &&& self.token_a_account.is_writable
        &&& self.token_b_account.is_writable
        &&& self.token_a_vault.is_writable
        &&& self.token_b_vault.is_writable
        &&& self.owner.is_signer
        &&& self.amm_program.key@ == addresses.amm_program@
    }

    /// Validation passes exactly on the well-formed contexts.
    pub proof fn lemma_valid_iff_well_formed(self, addresses: ProtocolAddresses)
        ensures
            validation(self.slots(addresses)) is None <==> self.well_formed(addresses),
    {
        let slots = self.slots(addresses);
        lemma_validation_passes_iff_satisfied(slots);
        if all_satisfied(slots) {
            assert(slots[0].satisfied());
            assert(slots[1].satisfied());
            assert(slots[2].satisfied());
            assert(slots[3].satisfied());
            assert(slots[4].satisfied());
            assert(slots[5].satisfied());
            assert(slots[6].satisfied());
            assert(slots[10].satisfied());
            assert(slots[14].satisfied());
        }
    }

    /// Checks every account against the tag of its slot.
    pub fn validate(&self, addresses: &ProtocolAddresses) -> (r: Result<
        (),
        ConstraintViolation,
    >)
        ensures
            match r {
                Ok(_) => validation(self.slots(*addresses)) is None,
                Err(v) => validation(self.slots(*addresses)) == Some(v),
            },
            r is Ok <==> self.well_formed(*addresses),
    {
        let slots = vec![
            Slot::present(
                "pool_authority",
                self.pool_authority,
                Tag::Fixed(addresses.pool_authority),
            ),
            Slot::present("pool", self.pool, Tag::Mutable),
            Slot::present("position", self.position, Tag::Mutable),
            Slot::present("token_a_account", self.token_a_account, Tag::Mutable),
            Slot::present("token_b_account", self.token_b_account, Tag::Mutable),
            Slot::present("token_a_vault", self.token_a_vault, Tag::Mutable),
            Slot::present("token_b_vault", self.token_b_vault, Tag::Mutable),
            Slot::present("token_a_mint", self.token_a_mint, Tag::ReadOnly),
            Slot::present("token_b_mint", self.token_b_mint, Tag::ReadOnly),
            Slot::present("position_nft_account", self.position_nft_account, Tag::ReadOnly),
            Slot::present("owner", self.owner, Tag::Signer),
            Slot::present("token_a_program", self.token_a_program, Tag::ReadOnly),
            Slot::present("token_b_program", self.token_b_program, Tag::ReadOnly),
            Slot::present("event_authority", self.event_authority, Tag::ReadOnly),
            Slot::present("amm_program", self.amm_program, Tag::Fixed(addresses.amm_program)),
        ];
        assert(slots@ =~= self.slots(*addresses));
        proof {
            self.lemma_valid_iff_well_formed(*addresses);
        }
        validate(&slots)
    }

    /// Builds the delegated `remove_all_liquidity` call from this context.
    pub fn remove_all_liquidity_cpi(
        &self,
        token_a_amount_threshold: u64,
        token_b_amount_threshold: u64,
    ) -> (r: Invocation)
        ensures
            r@ == self.invocation(
                AmmCallView::RemoveAllLiquidity {
                    token_a_amount_threshold,
                    token_b_amount_threshold,
                },
            ),
    {
        let accounts = vec![
            Some(self.pool_authority),
            Some(self.pool),
            Some(self.position),
            Some(self.token_a_account),
            Some(self.token_b_account),
            Some(self.token_a_vault),
            Some(self.token_b_vault),
            Some(self.token_a_mint),
            Some(self.token_b_mint),
            Some(self.position_nft_account),
            Some(self.owner),
            Some(self.token_a_program),
            Some(self.token_b_program),
            Some(self.event_authority),
            Some(self.amm_program),
        ];
        assert(accounts@ =~= self.delegated());
        Invocation {
            program: self.amm_program,
            accounts,
            call: AmmCall::RemoveAllLiquidity {
                token_a_amount_threshold,
                token_b_amount_threshold,
            },
        }
    }
}
} // verus!
