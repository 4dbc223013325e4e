use crate::account::all_satisfied;
use crate::account::lemma_validation_passes_iff_satisfied;
use crate::account::validate;
use crate::account::validation;
use crate::account::AccountRef;
use crate::account::Slot;
use crate::account::Tag;
use crate::address::ProtocolAddresses;
use crate::error::ConstraintViolation;
use crate::plan::AmmCall;
use crate::plan::AmmCallView;
use crate::plan::Invocation;
use crate::plan::InvocationView;
use crate::plan::PoolFeeParameters;
use crate::plan::WrapAccounts;
use vstd::prelude::*;

verus! {

/// Accounts for creating a pool from a configuration account, with its first position.
#[derive(Clone, Copy, Debug, PartialEq, Eq)]
pub struct InitializePoolCtx {
    /// Creator of the pool; any account.
    pub creator: AccountRef,
    /// Mint of the position token: a fresh account that signs.
    pub position_nft_mint: AccountRef,
    pub position_nft_account: AccountRef,
    /// Pays for the new accounts, and funds a wrap.
    pub payer: AccountRef,
    /// Configuration account of the pool.
    pub config: AccountRef,
    /// Authority of the DAMM v2 program, at its fixed address.
    pub pool_authority: AccountRef,
    pub pool: AccountRef,
    pub position: AccountRef,
    pub token_a_mint: AccountRef,
    /// The quote mint.
    pub token_b_mint: AccountRef,
    pub token_a_vault: AccountRef,
    pub token_b_vault: AccountRef,
    pub payer_token_a: AccountRef,
    /// The payer's token B account, holder of a wrap.
    pub payer_token_b: AccountRef,
    pub token_a_program: AccountRef,
    pub token_b_program: AccountRef,
    /// The Token-2022 program, at its fixed address.
    pub token_2022_program: AccountRef,
    pub system_program: AccountRef,
    /// Event authority of the DAMM v2 program.
    pub event_authority: AccountRef,
    /// The DAMM v2 program, at its fixed address.
    pub amm_program: AccountRef,
}

impl InitializePoolCtx {
    /// The slots of this context in declaration order.
    pub open spec fn slots(self, addresses: ProtocolAddresses) -> Seq<Slot> {
        seq![
            Slot { name: "creator", account: Some(self.creator), tag: Tag::ReadOnly },
            Slot {
                name: "position_nft_mint",
                account: Some(self.position_nft_mint),
                tag: Tag::MutableSigned,
            },
            Slot {
                name: "position_nft_account",
                account: Some(self.position_nft_account),
                tag: Tag::Mutable,
            },
            Slot { name: "payer", account: Some(self.payer), tag: Tag::SignerMutable },
            Slot { name: "config", account: Some(self.config), tag: Tag::ReadOnly },
            Slot {
                name: "pool_authority",
                account: Some(self.pool_authority),
                tag: Tag::Fixed(addresses.pool_authority),
            },
            Slot { name: "pool", account: Some(self.pool), tag: Tag::Mutable },
            Slot { name: "position", account: Some(self.position), tag: Tag::Mutable },
            Slot { name: "token_a_mint", account: Some(self.token_a_mint), tag: Tag::ReadOnly },
            Slot { name: "token_b_mint", account: Some(self.token_b_mint), tag: Tag::ReadOnly },
            Slot { name: "token_a_vault", account: Some(self.token_a_vault), tag: Tag::Mutable },
            Slot { name: "token_b_vault", account: Some(self.token_b_vault), tag: Tag::Mutable },
            Slot { name: "payer_token_a", account: Some(self.payer_token_a), tag: Tag::Mutable },
            Slot { name: "payer_token_b", account: Some(self.payer_token_b), tag: Tag::Mutable },
            Slot {
                name: "token_a_program",
                account: Some(self.token_a_program),
                tag: Tag::ReadOnly,
            },
            Slot {
                name: "token_b_program",
                account: Some(self.token_b_program),
                tag: Tag::ReadOnly,
            },
            Slot {
                name: "token_2022_program",
                account: Some(self.token_2022_program),
                tag: Tag::Fixed(addresses.token_2022_program),
            },
            Slot { name: "system_program", account: Some(self.system_program), tag: Tag::ReadOnly },
            Slot {
                name: "event_authority",
                account: Some(self.event_authority),
                tag: Tag::ReadOnly,
            },
            Slot {
                name: "amm_program",
                account: Some(self.amm_program),
                tag: Tag::Fixed(addresses.amm_program),
            },
        ]
    }

    /// The accounts of the delegated call, in the order its entrypoint
    /// declares them.
    pub open spec fn delegated(self) -> Seq<Option<AccountRef>> {
        seq![
            Some(self.creator),
            Some(self.position_nft_mint),
            Some(self.position_nft_account),
            Some(self.payer),
            Some(self.config),
            Some(self.pool_authority),
            Some(self.pool),
            Some(self.position),
            Some(self.token_a_mint),
            Some(self.token_b_mint),
            Some(self.token_a_vault),
            Some(self.token_b_vault),
            Some(self.payer_token_a),
            Some(self.payer_token_b),
            Some(self.token_a_program),
            Some(self.token_b_program),
            Some(self.token_2022_program),
            Some(self.system_program),
            Some(self.event_authority),
            Some(self.amm_program),
        ]
    }

    /// The delegated call that this context makes of `call`: to the program
    /// in its `amm_program` slot, with the accounts of `delegated`.
    pub open spec fn invocation(self, call: AmmCallView) -> InvocationView {
        InvocationView { program: self.amm_program, accounts: self.delegated(), call }
    }

    /// The accounts of this context's wrap step: the payer funds their token B account.
    pub open spec fn wrap_accounts(self) -> WrapAccounts {
        WrapAccounts {
            system_program: self.system_program,
            funder: self.payer,
            holder: self.payer_token_b,
            token_program: self.token_b_program,
        }
    }

    /// Every account has what its slot asks for: the writable ones are
    /// writable, the signers have signed, and the fixed ones sit at their
    /// addresses.
    pub open spec fn well_formed(self, addresses: ProtocolAddresses) -> bool {
        &&& self.position_nft_mint.is_signer
        &&& self.position_nft_mint.is_writable
        &&& self.position_nft_account.is_writable
        &&& self.payer.is_signer
        &&& self.payer.is_writable
        &&& self.pool_authority.key@ == addresses.pool_authority@
        &&& self.pool.is_writable
        &&& self.position.is_writable
        &&& self.token_a_vault.is_writable
        &&& self.token_b_vault.is_writable
        &&& self.payer_token_a.is_writable
        &&& self.payer_token_b.is_writable
        &&& self.token_2022_program.key@ == addresses.token_2022_program@
        &&& self.amm_program.key@ == addresses.amm_program@
    }

    /// Validation passes exactly on the well-formed contexts.
    pub proof fn lemma_valid_iff_well_formed(self, addresses: ProtocolAddresses)
        ensures
            validation(self.slots(addresses)) is None <==> self.well_formed(addresses),
    {
        let slots = self.slots(addresses);
        lemma_validation_passes_iff_satisfied(slots);
        if all_satisfied(slots) {
            assert(slots[1].satisfied());
            assert(slots[2].satisfied());
            assert(slots[3].satisfied());
            assert(slots[5].satisfied());
            assert(slots[6].satisfied());
            assert(slots[7].satisfied());
            assert(slots[10].satisfied());
            assert(slots[11].satisfied());
            assert(slots[12].satisfied());
            assert(slots[13].satisfied());
            assert(slots[16].satisfied());
            assert(slots[19].satisfied());
        }
    }

    /// Checks every account against the tag of its slot.
    pub fn validate(&self, addresses: &ProtocolAddresses) -> (r: Result<
        (),
        ConstraintViolation,
    >)
        ensures
            match r {
                Ok(_) => validation(self.slots(*addresses)) is None,
                Err(v) => validation(self.slots(*addresses)) == Some(v),
            },
            r is Ok <==> self.well_formed(*addresses),
    {
        let slots = vec![
            Slot::present("creator", self.creator, Tag::ReadOnly),
            Slot::present("position_nft_mint", self.position_nft_mint, Tag::MutableSigned),
            Slot::present("position_nft_account", self.position_nft_account, Tag::Mutable),
            Slot::present("payer", self.payer, Tag::SignerMutable),
            Slot::present("config", self.config, Tag::ReadOnly),
            Slot::present(
                "pool_authority",
                self.pool_authority,
                Tag::Fixed(addresses.pool_authority),
            ),
            Slot::present("pool", self.pool, Tag::Mutable),
            Slot::present("position", self.position, Tag::Mutable),
            Slot::present("token_a_mint", self.token_a_mint, Tag::ReadOnly),
            Slot::present("token_b_mint", self.token_b_mint, Tag::ReadOnly),
            Slot::present("token_a_vault", self.token_a_vault, Tag::Mutable),
            Slot::present("token_b_vault", self.token_b_vault, Tag::Mutable),
            Slot::present("payer_token_a", self.payer_token_a, Tag::Mutable),
            Slot::present("payer_token_b", self.payer_token_b, Tag::Mutable),
            Slot::present("token_a_program", self.token_a_program, Tag::ReadOnly),
            Slot::present("token_b_program", self.token_b_program, Tag::ReadOnly),
            Slot::present(
                "token_2022_program",
                self.token_2022_program,
                Tag::Fixed(addresses.token_2022_program),
            ),
            Slot::present("system_program", self.system_program, Tag::ReadOnly),
            Slot::present("event_authority", self.event_authority, Tag::ReadOnly),
            Slot::present("amm_program", self.amm_program, Tag::Fixed(addresses.amm_program)),
        ];
        assert(slots@ =~= self.slots(*addresses));
        proof {
            self.lemma_valid_iff_well_formed(*addresses);
        }
        validate(&slots)
    }

    /// Builds the delegated `initialize_pool` call from this context.
    pub fn initialize_pool_cpi(
        &self,
        liquidity: u128,
        sqrt_price: u128,
        activation_point: Option<u64>,
    ) -> (r: Invocation)
        ensures
            r@ == self.invocation(
                AmmCallView::InitializePool { liquidity, sqrt_price, activation_point },
            ),
    {
        let accounts = vec![
            Some(self.creator),
            Some(self.position_nft_mint),
            Some(self.position_nft_account),
            Some(self.payer),
            Some(self.config),
            Some(self.pool_authority),
            Some(self.pool),
            Some(self.position),
            Some(self.token_a_mint),
            Some(self.token_b_mint),
            Some(self.token_a_vault),
            Some(self.token_b_vault),
            Some(self.payer_token_a),
            Some(self.payer_token_b),
            Some(self.token_a_program),
            Some(self.token_b_program),
            Some(self.token_2022_program),
            Some(self.system_program),
            Some(self.event_authority),
            Some(self.amm_program),
        ];
        assert(accounts@ =~= self.delegated());
        Invocation {
            program: self.amm_program,
            accounts,
            call: AmmCall::InitializePool { liquidity, sqrt_price, activation_point },
        }
    }

    /// The accounts of this context's wrap step.
    pub fn wrap(&self) -> (r: WrapAccounts)
        ensures
            r == self.wrap_accounts(),
    {
        WrapAccounts {
            system_program: self.system_program,
            funder: self.payer,
            holder: self.payer_token_b,
            token_program: self.token_b_program,
        }
    }
}

/// Accounts for creating a pool whose token B side is funded from native value.
#[derive(Clone, Copy, Debug, PartialEq, Eq)]
pub struct InitializePoolWithSolCtx {
    /// Creator of the pool; any account.
    pub creator: AccountRef,
    /// Mint of the position token: a fresh account that signs.
    pub position_nft_mint: AccountRef,
    pub position_nft_account: AccountRef,
    /// Pays for the new accounts, and funds a wrap.
    pub payer: AccountRef,
    /// Configuration account of the pool.
    pub config: AccountRef,
    /// Authority of the DAMM v2 program, at its fixed address.
    pub pool_authority: AccountRef,
    pub pool: AccountRef,
    pub position: AccountRef,
    pub token_a_mint: AccountRef,
    /// The quote mint.
    pub token_b_mint: AccountRef,
    pub token_a_vault: AccountRef,
    pub token_b_vault: AccountRef,
    pub payer_token_a: AccountRef,
    /// The payer's token B account, holder of a wrap.
    pub payer_token_b: AccountRef,
    pub token_a_program: AccountRef,
    pub token_b_program: AccountRef,
    /// The Token-2022 program, at its fixed address.
    pub token_2022_program: AccountRef,
    pub system_program: AccountRef,
    /// Event authority of the DAMM v2 program.
    pub event_authority: AccountRef,
    /// The DAMM v2 program, at its fixed address.
    pub amm_program: AccountRef,
}

impl InitializePoolWithSolCtx {
    /// The slots of this context in declaration order.
    pub open spec fn slots(self, addresses: ProtocolAddresses) -> Seq<Slot> {
        seq![
            Slot { name: "creator", account: Some(self.creator), tag: Tag::ReadOnly },
            Slot {
                name: "position_nft_mint",
                account: Some(self.position_nft_mint),
                tag: Tag::MutableSigned,
            },
            Slot {
                name: "position_nft_account",
                account: Some(self.position_nft_account),
                tag: Tag::Mutable,
            },
            Slot { name: "payer", account: Some(self.payer), tag: Tag::SignerMutable },
            Slot { name: "config", account: Some(self.config), tag: Tag::ReadOnly },
            Slot {
                name: "pool_authority",
                account: Some(self.pool_authority),
                tag: Tag::Fixed(addresses.pool_authority),
            },
            Slot { name: "pool", account: Some(self.pool), tag: Tag::Mutable },
            Slot { name: "position", account: Some(self.position), tag: Tag::Mutable },
            Slot { name: "token_a_mint", account: Some(self.token_a_mint), tag: Tag::ReadOnly },
            Slot { name: "token_b_mint", account: Some(self.token_b_mint), tag: Tag::ReadOnly },
            Slot { name: "token_a_vault", account: Some(self.token_a_vault), tag: Tag::Mutable },
            Slot { name: "token_b_vault", account: Some(self.token_b_vault), tag: Tag::Mutable },
            Slot { name: "payer_token_a", account: Some(self.payer_token_a), tag: Tag::Mutable },
            Slot { name: "payer_token_b", account: Some(self.payer_token_b), tag: Tag::Mutable },
            Slot {
                name: "token_a_program",
                account: Some(self.token_a_program),
                tag: Tag::ReadOnly,
            },
            Slot {
                name: "token_b_program",
                account: Some(self.token_b_program),
                tag: Tag::ReadOnly,
            },
            Slot {
                name: "token_2022_program",
                account: Some(self.token_2022_program),
                tag: Tag::Fixed(addresses.token_2022_program),
            },
            Slot { name: "system_program", account: Some(self.system_program), tag: Tag::ReadOnly },
            Slot {
                name: "event_authority",
                account: Some(self.event_authority),
                tag: Tag::ReadOnly,
            },
            Slot {
                name: "amm_program",
                account: Some(self.amm_program),
                tag: Tag::Fixed(addresses.amm_program),
            },
        ]
    }

    /// The accounts of the delegated call, in the order its entrypoint
    /// declares them.
    pub open spec fn delegated(self) -> Seq<Option<AccountRef>> {
        seq![
            Some(self.creator),
            Some(self.position_nft_mint),
            Some(self.position_nft_account),
            Some(self.payer),
            Some(self.config),
            Some(self.pool_authority),
            Some(self.pool),
            Some(self.position),
            Some(self.token_a_mint),
            Some(self.token_b_mint),
            Some(self.token_a_vault),
            Some(self.token_b_vault),
            Some(self.payer_token_a),
            Some(self.payer_token_b),
            Some(self.token_a_program),
            Some(self.token_b_program),
            Some(self.token_2022_program),
            Some(self.system_program),
            Some(self.event_authority),
            Some(self.amm_program),
        ]
    }

    /// The delegated call that this context makes of `call`: to the program
    /// in its `amm_program` slot, with the accounts of `delegated`.
    pub open spec fn invocation(self, call: AmmCallView) -> InvocationView {
        InvocationView { program: self.amm_program, accounts: self.delegated(), call }
    }

    /// The accounts of this context's wrap step: the payer funds their token B account.
    pub open spec fn wrap_accounts(self) -> WrapAccounts {
        WrapAccounts {
            system_program: self.system_program,
            funder: self.payer,
            holder: self.payer_token_b,
            token_program: self.token_b_program,
        }
    }

    /// Every account has what its slot asks for: the writable ones are
    /// writable, the signers have signed, and the fixed ones sit at their
    /// addresses.
    pub open spec fn well_formed(self, addresses: ProtocolAddresses) -> bool {
        &&& self.position_nft_mint.is_signer
        &&& self.position_nft_mint.is_writable
        &&& self.position_nft_account.is_writable
        &&& self.payer.is_signer
        &&& self.payer.is_writable
        &&& self.pool_authority.key@ == addresses.pool_authority@
        &&& self.pool.is_writable
        &&& self.position.is_writable
        &&& self.token_a_vault.is_writable
        &&& self.token_b_vault.is_writable
        &&& self.payer_token_a.is_writable
        &&& self.payer_token_b.is_writable
        &&& self.token_2022_program.key@ == addresses.token_2022_program@
        &&& self.amm_program.key@ == addresses.amm_program@
    }

    /// Validation passes exactly on the well-formed contexts.
    pub proof fn lemma_valid_iff_well_formed(self, addresses: ProtocolAddresses)
        ensures
            validation(self.slots(addresses)) is None <==> self.well_formed(addresses),
    {
        let slots = self.slots(addresses);
        lemma_validation_passes_iff_satisfied(slots);
        if all_satisfied(slots) {
            assert(slots[1].satisfied());
            assert(slots[2].satisfied());
            assert(slots[3].satisfied());
            assert(slots[5].satisfied());
            assert(slots[6].satisfied());
            assert(slots[7].satisfied());
            assert(slots[10].satisfied());
            assert(slots[11].satisfied());
            assert(slots[12].satisfied());
            assert(slots[13].satisfied());
            assert(slots[16].satisfied());
            assert(slots[19].satisfied());
        }
    }

    /// Checks every account against the tag of its slot.
    pub fn validate(&self, addresses: &ProtocolAddresses) -> (r: Result<
        (),
        ConstraintViolation,
    >)
        ensures
            match r {
                Ok(_) => validation(self.slots(*addresses)) is None,
                Err(v) => validation(self.slots(*addresses)) == Some(v),
            },
            r is Ok <==> self.well_formed(*addresses),
    {
        let slots = vec![
            Slot::present("creator", self.creator, Tag::ReadOnly),
            Slot::present("position_nft_mint", self.position_nft_mint, Tag::MutableSigned),
            Slot::present("position_nft_account", self.position_nft_account, Tag::Mutable),
            Slot::present("payer", self.payer, Tag::SignerMutable),
            Slot::present("config", self.config, Tag::ReadOnly),
            Slot::present(
                "pool_authority",
                self.pool_authority,
                Tag::Fixed(addresses.pool_authority),
            ),
            Slot::present("pool", self.pool, Tag::Mutable),
            Slot::present("position", self.position, Tag::Mutable),
            Slot::present("token_a_mint", self.token_a_mint, Tag::ReadOnly),
            Slot::present("token_b_mint", self.token_b_mint, Tag::ReadOnly),
            Slot::present("token_a_vault", self.token_a_vault, Tag::Mutable),
            Slot::present("token_b_vault", self.token_b_vault, Tag::Mutable),
            Slot::present("payer_token_a", self.payer_token_a, Tag::Mutable),
            Slot::present("payer_token_b", self.payer_token_b, Tag::Mutable),
            Slot::present("token_a_program", self.token_a_program, Tag::ReadOnly),
            Slot::present("token_b_program", self.token_b_program, Tag::ReadOnly),
            Slot::present(
                "token_2022_program",
                self.token_2022_program,
                Tag::Fixed(addresses.token_2022_program),
            ),
            Slot::present("system_program", self.system_program, Tag::ReadOnly),
            Slot::present("event_authority", self.event_authority, Tag::ReadOnly),
            Slot::present("amm_program", self.amm_program, Tag::Fixed(addresses.amm_program)),
        ];
        assert(slots@ =~= self.slots(*addresses));
        proof {
            self.lemma_valid_iff_well_formed(*addresses);
        }
        validate(&slots)
    }

    /// Builds the delegated `initialize_pool` call from this context.
    pub fn initialize_pool_cpi(
        &self,
        liquidity: u128,
        sqrt_price: u128,
        activation_point: Option<u64>,
    ) -> (r: Invocation)
        ensures
            r@ == self.invocation(
                AmmCallView::InitializePool { liquidity, sqrt_price, activation_point },
            ),
    {
        let accounts = vec![
            Some(self.creator),
            Some(self.position_nft_mint),
            Some(self.position_nft_account),
            Some(self.payer),
            Some(self.config),
            Some(self.pool_authority),
            Some(self.pool),
            Some(self.position),
            Some(self.token_a_mint),
            Some(self.token_b_mint),
            Some(self.token_a_vault),
            Some(self.token_b_vault),
            Some(self.payer_token_a),
            Some(self.payer_token_b),
            Some(self.token_a_program),
            Some(self.token_b_program),
            Some(self.token_2022_program),
            Some(self.system_program),
            Some(self.event_authority),
            Some(self.amm_program),
        ];
        assert(accounts@ =~= self.delegated());
        Invocation {
            program: self.amm_program,
            accounts,
            call: AmmCall::InitializePool { liquidity, sqrt_price, activation_point },
        }
    }

    /// The accounts of this context's wrap step.
    pub fn wrap(&self) -> (r: WrapAccounts)
        ensures
            r == self.wrap_accounts(),
    {
        WrapAccounts {
            system_program: self.system_program,
            funder: self.payer,
            holder: self.payer_token_b,
            token_program: self.token_b_program,
        }
    }
}

/// Accounts for creating a pool whose parameters the caller sets, without a configuration account.
#[derive(Clone, Copy, Debug, PartialEq, Eq)]
pub struct InitializeCustomizablePoolCtx {
    /// Creator of the pool; any account.
    pub creator: AccountRef,
    /// Mint of the position token: a fresh account that signs.
    pub position_nft_mint: AccountRef,
    pub position_nft_account: AccountRef,
    /// Pays for the new accounts, and funds a wrap.
    pub payer: AccountRef,
    /// Authority of the DAMM v2 program, at its fixed address.
    pub pool_authority: AccountRef,
    pub pool: AccountRef,
    pub position: AccountRef,
    pub token_a_mint: AccountRef,
    /// The quote mint.
    pub token_b_mint: AccountRef,
    pub token_a_vault: AccountRef,
    pub token_b_vault: AccountRef,
    pub payer_token_a: AccountRef,
    /// The payer's token B account, holder of a wrap.
    pub payer_token_b: AccountRef,
    pub token_a_program: AccountRef,
    pub token_b_program: AccountRef,
    /// The Token-2022 program, at its fixed address.
    pub token_2022_program: AccountRef,
    pub system_program: AccountRef,
    /// Event authority of the DAMM v2 program.
    pub event_authority: AccountRef,
    /// The DAMM v2 program, at its fixed address.
    pub amm_program: AccountRef,
}

impl InitializeCustomizablePoolCtx {
    /// The slots of this context in declaration order.
    pub open spec fn slots(self, addresses: ProtocolAddresses) -> Seq<Slot> {
        seq![
            Slot { name: "creator", account: Some(self.creator), tag: Tag::ReadOnly },
            Slot {
                name: "position_nft_mint",
                account: Some(self.position_nft_mint),
                tag: Tag::MutableSigned,
            },
            Slot {
                name: "position_nft_account",
                account: Some(self.position_nft_account),
                tag: Tag::Mutable,
            },
            Slot { name: "payer", account: Some(self.payer), tag: Tag::SignerMutable },
            Slot {
                name: "pool_authority",
                account: Some(self.pool_authority),
                tag: Tag::Fixed(addresses.pool_authority),
            },
            Slot { name: "pool", account: Some(self.pool), tag: Tag::Mutable },
            Slot { name: "position", account: Some(self.position), tag: Tag::Mutable },
            Slot { name: "token_a_mint", account: Some(self.token_a_mint), tag: Tag::ReadOnly },
            Slot { name: "token_b_mint", account: Some(self.token_b_mint), tag: Tag::ReadOnly },
            Slot { name: "token_a_vault", account: Some(self.token_a_vault), tag: Tag::Mutable },
            Slot { name: "token_b_vault", account: Some(self.token_b_vault), tag: Tag::Mutable },
            Slot { name: "payer_token_a", account: Some(self.payer_token_a), tag: Tag::Mutable },
            Slot { name: "payer_token_b", account: Some(self.payer_token_b), tag: Tag::Mutable },
            Slot {
                name: "token_a_program",
                account: Some(self.token_a_program),
                tag: Tag::ReadOnly,
            },
            Slot {
                name: "token_b_program",
                account: Some(self.token_b_program),
                tag: Tag::ReadOnly,
            },
            Slot {
                name: "token_2022_program",
                account: Some(self.token_2022_program),
                tag: Tag::Fixed(addresses.token_2022_program),
            },
            Slot { name: "system_program", account: Some(self.system_program), tag: Tag::ReadOnly },
            Slot {
                name: "event_authority",
                account: Some(self.event_authority),
                tag: Tag::ReadOnly,
            },
            Slot {
                name: "amm_program",
                account: Some(self.amm_program),
                tag: Tag::Fixed(addresses.amm_program),
            },
        ]
    }

    /// The accounts of the delegated call, in the order its entrypoint
    /// declares them.
    pub open spec fn delegated(self) -> Seq<Option<AccountRef>> {
        seq![
            Some(self.creator),
            Some(self.position_nft_mint),
            Some(self.position_nft_account),
            Some(self.payer),
            Some(self.pool_authority),
            Some(self.pool),
            Some(self.position),
            Some(self.token_a_mint),
            Some(self.token_b_mint),
            Some(self.token_a_vault),
            Some(self.token_b_vault),
            Some(self.payer_token_a),
            Some(self.payer_token_b),
            Some(self.token_a_program),
            Some(self.token_b_program),
            Some(self.token_2022_program),
            Some(self.system_program),
            Some(self.event_authority),
            Some(self.amm_program),
        ]
    }

    /// The delegated call that this context makes of `call`: to the program
    /// in its `amm_program` slot, with the accounts of `delegated`.
    pub open spec fn invocation(self, call: AmmCallView) -> InvocationView {
        InvocationView { program: self.amm_program, accounts: self.delegated(), call }
    }

    /// The accounts of this context's wrap step: the payer funds their token B account.
    pub open spec fn wrap_accounts(self) -> WrapAccounts {
        WrapAccounts {
            system_program: self.system_program,
            funder: self.payer,
            holder: self.payer_token_b,
            token_program: self.token_b_program,
        }
    }

    /// Every account has what its slot asks for: the writable ones are
    /// writable, the signers have signed, and the fixed ones sit at their
    /// addresses.
    pub open spec fn well_formed(self, addresses: ProtocolAddresses) -> bool {
        &&& self.position_nft_mint.is_signer
        &&& self.position_nft_mint.is_writable
        &&& self.position_nft_account.is_writable
        &&& self.payer.is_signer
        &&& self.payer.is_writable
        &&& self.pool_authority.key@ == addresses.pool_authority@
        &&& self.pool.is_writable
        &&& self.position.is_writable
        &&& self.token_a_vault.is_writable
        &&& self.token_b_vault.is_writable
        &&& self.payer_token_a.is_writable
        &&& self.payer_token_b.is_writable
        &&& self.token_2022_program.key@ == addresses.token_2022_program@
        &&& self.amm_program.key@ == addresses.amm_program@
    }

    /// Validation passes exactly on the well-formed contexts.
    pub proof fn lemma_valid_iff_well_formed(self, addresses: ProtocolAddresses)
        ensures
            validation(self.slots(addresses)) is None <==> self.well_formed(addresses),
    {
        let slots = self.slots(addresses);
        lemma_validation_passes_iff_satisfied(slots);
        if all_satisfied(slots) {
            assert(slots[1].satisfied());
            assert(slots[2].satisfied());
            assert(slots[3].satisfied());
            assert(slots[4].satisfied());
            assert(slots[5].satisfied());
            assert(slots[6].satisfied());
            assert(slots[9].satisfied());
            assert(slots[10].satisfied());
            assert(slots[11].satisfied());
            assert(slots[12].satisfied());
            assert(slots[15].satisfied());
            assert(slots[18].satisfied());
        }
    }

    /// Checks every account against the tag of its slot.
    pub fn validate(&self, addresses: &ProtocolAddresses) -> (r: Result<
        (),
        ConstraintViolation,
    >)
        ensures
            match r {
                Ok(_) => validation(self.slots(*addresses)) is None,
                Err(v) => validation(self.slots(*addresses)) == Some(v),
            },
            r is Ok <==> self.well_formed(*addresses),
    {
        let slots = vec![
            Slot::present("creator", self.creator, Tag::ReadOnly),
            Slot::present("position_nft_mint", self.position_nft_mint, Tag::MutableSigned),
            Slot::present("position_nft_account", self.position_nft_account, Tag::Mutable),
            Slot::present("payer", self.payer, Tag::SignerMutable),
            Slot::present(
                "pool_authority",
                self.pool_authority,
                Tag::Fixed(addresses.pool_authority),
            ),
            Slot::present("pool", self.pool, Tag::Mutable),
            Slot::present("position", self.position, Tag::Mutable),
            Slot::present("token_a_mint", self.token_a_mint, Tag::ReadOnly),
            Slot::present("token_b_mint", self.token_b_mint, Tag::ReadOnly),
            Slot::present("token_a_vault", self.token_a_vault, Tag::Mutable),
            Slot::present("token_b_vault", self.token_b_vault, Tag::Mutable),
            Slot::present("payer_token_a", self.payer_token_a, Tag::Mutable),
            Slot::present("payer_token_b", self.payer_token_b, Tag::Mutable),
            Slot::present("token_a_program", self.token_a_program, Tag::ReadOnly),
            Slot::present("token_b_program", self.token_b_program, Tag::ReadOnly),
            Slot::present(
                "token_2022_program",
                self.token_2022_program,
                Tag::Fixed(addresses.token_2022_program),
            ),
            Slot::present("system_program", self.system_program, Tag::ReadOnly),
            Slot::present("event_authority", self.event_authority, Tag::ReadOnly),
            Slot::present("amm_program", self.amm_program, Tag::Fixed(addresses.amm_program)),
        ];
        assert(slots@ =~= self.slots(*addresses));
        proof {
            self.lemma_valid_iff_well_formed(*addresses);
        }
        validate(&slots)
    }

    /// Builds the delegated `initialize_customizable_pool` call from this context.
    pub fn initialize_customizable_pool_cpi(
        &self,
        pool_fees: PoolFeeParameters,
        sqrt_min_price: u128,
        sqrt_max_price: u128,
        has_alpha_vault: bool,
        liquidity: u128,
        sqrt_price: u128,
        activation_type: u8,
        collect_fee_mode: u8,
        activation_point: Option<u64>,
    ) -> (r: Invocation)
        ensures
            r@ == self.invocation(
                AmmCallView::InitializeCustomizablePool {
                    pool_fees: pool_fees@,
                    sqrt_min_price,
                    sqrt_max_price,
                    has_alpha_vault,
                    liquidity,
                    sqrt_price,
                    activation_type,
                    collect_fee_mode,
                    activation_point,
                },
            ),
    {
        let accounts = vec![
            Some(self.creator),
            Some(self.position_nft_mint),
            Some(self.position_nft_account),
            Some(self.payer),
            Some(self.pool_authority),
            Some(self.pool),
            Some(self.position),
            Some(self.token_a_mint),
            Some(self.token_b_mint),
            Some(self.token_a_vault),
            Some(self.token_b_vault),
            Some(self.payer_token_a),
            Some(self.payer_token_b),
            Some(self.token_a_program),
            Some(self.token_b_program),
            Some(self.token_2022_program),
            Some(self.system_program),
            Some(self.event_authority),
            Some(self.amm_program),
        ];
        assert(accounts@ =~= self.delegated());
        Invocation {
            program: self.amm_program,
            accounts,
            call: AmmCall::InitializeCustomizablePool {
                pool_fees,
                sqrt_min_price,
                sqrt_max_price,
                has_alpha_vault,
                liquidity,
                sqrt_price,
                activation_type,
                collect_fee_mode,
                activation_point,
            },
        }
    }

    /// The accounts of this context's wrap step.
    pub fn wrap(&self) -> (r: WrapAccounts)
        ensures
            r == self.wrap_accounts(),
    {
        WrapAccounts {
            system_program: self.system_program,
            funder: self.payer,
            holder: self.payer_token_b,
            token_program: self.token_b_program,
        }
    }
}
} // verus!
