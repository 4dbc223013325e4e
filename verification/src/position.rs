use crate::account::all_satisfied;
use crate::account::lemma_validation_passes_iff_satisfied;
use crate::account::validate;
use crate::account::validation;
use crate::account::AccountRef;
use crate::account::Slot;
use crate::account::Tag;
use crate::address::ProtocolAddresses;
use crate::error::ConstraintViolation;
use crate::plan::AmmCall;
use crate::plan::AmmCallView;
use crate::plan::Invocation;
use crate::plan::InvocationView;
use vstd::prelude::*;

verus! {

/// Accounts for creating a position in an existing pool.
#[derive(Clone, Copy, Debug, PartialEq, Eq)]
pub struct CreatePositionCtx {
    /// Owner of the new position; any account.
    pub owner: AccountRef,
    /// Mint of the position token: a fresh account that signs.
    pub position_nft_mint: AccountRef,
    pub position_nft_account: AccountRef,
    pub pool: AccountRef,
    pub position: AccountRef,
    /// Authority of the DAMM v2 program, at its fixed address.
    pub pool_authority: AccountRef,
    /// Pays for the new accounts.
    pub payer: AccountRef,
    /// The Token-2022 program, at its fixed address.
    pub token_program: AccountRef,
    pub system_program: AccountRef,
    /// Event authority of the DAMM v2 program.
    pub event_authority: AccountRef,
    /// The DAMM v2 program, at its fixed address.
    pub amm_program: AccountRef,
}

impl CreatePositionCtx {
    /// The slots of this context in declaration order.
    pub open spec fn slots(self, addresses: ProtocolAddresses) -> Seq<Slot> {
        seq![
            Slot { name: "owner", account: Some(self.owner), tag: Tag::ReadOnly },
            Slot {
                name: "position_nft_mint",
                account: Some(self.position_nft_mint),
                tag: Tag::MutableSigned,
            },
            Slot {
                name: "position_nft_account",
                account: Some(self.position_nft_account),
                tag: Tag::Mutable,
            },
            Slot { name: "pool", account: Some(self.pool), tag: Tag::Mutable },
            Slot { name: "position", account: Some(self.position), tag: Tag::Mutable },
            Slot {
                name: "pool_authority",
                account: Some(self.pool_authority),
                tag: Tag::Fixed(addresses.pool_authority),
            },
            Slot { name: "payer", account: Some(self.payer), tag: Tag::SignerMutable },
            Slot {
                name: "token_program",
                account: Some(self.token_program),
                tag: Tag::Fixed(addresses.token_2022_program),
            },
            Slot { name: "system_program", account: Some(self.system_program), tag: Tag::ReadOnly },
            Slot {
                name: "event_authority",
                account: Some(self.event_authority),
                tag: Tag::ReadOnly,
            },
            Slot {
                name: "amm_program",
                account: Some(self.amm_program),
                tag: Tag::Fixed(addresses.amm_program),
            },
        ]
    }

    /// The accounts of the delegated call, in the order its entrypoint
    /// declares them.
    pub open spec fn delegated(self) -> Seq<Option<AccountRef>> {
        seq![
            Some(self.owner),
            Some(self.position_nft_mint),
            Some(self.position_nft_account),
            Some(self.pool),
            Some(self.position),
            Some(self.pool_authority),
            Some(self.payer),
            Some(self.token_program),
            Some(self.system_program),
            Some(self.event_authority),
            Some(self.amm_program),
        ]
    }

    /// The delegated call that this context makes of `call`: to the program
    /// in its `amm_program` slot, with the accounts of `delegated`.
    pub open spec fn invocation(self, call: AmmCallView) -> InvocationView {
        InvocationView { program: self.amm_program, accounts: self.delegated(), call }
    }

    /// Every account has what its slot asks for: the writable ones are
    /// writable, the signers have signed, and the fixed ones sit at their
    /// addresses.
    pub open spec fn well_formed(self, addresses: ProtocolAddresses) -> bool {
        &&& self.position_nft_mint.is_signer
        &&& self.position_nft_mint.is_writable
        &&& self.position_nft_account.is_writable
        &&& self.pool.is_writable
        &&& self.position.is_writable
        &&& self.pool_authority.key@ == addresses.pool_authority@
        &&& self.payer.is_signer
        &&& self.payer.is_writable
        &&& self.token_program.key@ == addresses.token_2022_program@
        &&& self.amm_program.key@ == addresses.amm_program@
    }

    /// Validation passes exactly on the well-formed contexts.
    pub proof fn lemma_valid_iff_well_formed(self, addresses: ProtocolAddresses)
        ensures
            validation(self.slots(addresses)) is None <==> self.well_formed(addresses),
    {
        let slots = self.slots(addresses);
        lemma_validation_passes_iff_satisfied(slots);
        if all_satisfied(slots) {
            assert(slots[1].satisfied());
            assert(slots[2].satisfied());
            assert(slots[3].satisfied());
            assert(slots[4].satisfied());
            assert(slots[5].satisfied());
            assert(slots[6].satisfied());
            assert(slots[7].satisfied());
            assert(slots[10].satisfied());
        }
    }

    /// Checks every account against the tag of its slot.
    pub fn validate(&self, addresses: &ProtocolAddresses) -> (r: Result<
        (),
        ConstraintViolation,
    >)
        ensures
            match r {
                Ok(_) => validation(self.slots(*addresses)) is None,
                Err(v) => validation(self.slots(*addresses)) == Some(v),
            },
            r is Ok <==> self.well_formed(*addresses),
    {
        let slots = vec![
            Slot::present("owner", self.owner, Tag::ReadOnly),
            Slot::present("position_nft_mint", self.position_nft_mint, Tag::MutableSigned),
            Slot::present("position_nft_account", self.position_nft_account, Tag::Mutable),
            Slot::present("pool", self.pool, Tag::Mutable),
            Slot::present("position", self.position, Tag::Mutable),
            Slot::present(
                "pool_authority",
                self.pool_authority,
                Tag::Fixed(addresses.pool_authority),
            ),
            Slot::present("payer", self.payer, Tag::SignerMutable),
            Slot::present(
                "token_program",
                self.token_program,
                Tag::Fixed(addresses.token_2022_program),
            ),
            Slot::present("system_program", self.system_program, Tag::ReadOnly),
            Slot::present("event_authority", self.event_authority, Tag::ReadOnly),
            Slot::present("amm_program", self.amm_program, Tag::Fixed(addresses.amm_program)),
        ];
        assert(slots@ =~= self.slots(*addresses));
        proof {
            self.lemma_valid_iff_well_formed(*addresses);
        }
        validate(&slots)
    }

    /// Builds the delegated `create_position` call from this context.
    pub fn create_position_cpi(&self) -> (r: Invocation)
        ensures
            r@ == self.invocation(AmmCallView::CreatePosition),
    {
        let accounts = vec![
            Some(self.owner),
            Some(self.position_nft_mint),
            Some(self.position_nft_account),
            Some(self.pool),
            Some(self.position),
            Some(self.pool_authority),
            Some(self.payer),
            Some(self.token_program),
            Some(self.system_program),
            Some(self.event_authority),
            Some(self.amm_program),
        ];
        assert(accounts@ =~= self.delegated());
        Invocation {
            program: self.amm_program,
            accounts,
            call: AmmCall::CreatePosition,
        }
    }
}

/// Accounts for claiming the fees that a position has earned.
#[derive(Clone, Copy, Debug, PartialEq, Eq)]
pub struct ClaimPositionFeeCtx {
    /// Authority of the DAMM v2 program, at its fixed address.
    pub pool_authority: AccountRef,
    pub pool: AccountRef,
    pub position: AccountRef,
    /// The user's token A account.
    pub token_a_account: AccountRef,
    /// The user's token B account.
    pub token_b_account: AccountRef,
    pub token_a_vault: AccountRef,
    pub token_b_vault: AccountRef,
    pub token_a_mint: AccountRef,
    pub token_b_mint: AccountRef,
    /// Token account of the position token, which proves ownership.
    pub position_nft_account: AccountRef,
    /// Owner of the position.
    pub owner: AccountRef,
    pub token_a_program: AccountRef,
    pub token_b_program: AccountRef,
    /// Event authority of the DAMM v2 program.
    pub event_authority: AccountRef,
    /// The DAMM v2 program, at its fixed address.
    pub amm_program: AccountRef,
}

impl ClaimPositionFeeCtx {
    /// The slots of this context in declaration order.
    pub open spec fn slots(self, addresses: ProtocolAddresses) -> Seq<Slot> {
        seq![
            Slot {
                name: "pool_authority",
                account: Some(self.pool_authority),
                tag: Tag::Fixed(addresses.pool_authority),
            },
            Slot { name: "pool", account: Some(self.pool), tag: Tag::Mutable },
            Slot { name: "position", account: Some(self.position), tag: Tag::Mutable },
            Slot {
                name: "token_a_account",
                account: Some(self.token_a_account),
                tag: Tag::Mutable,
            },
            Slot {
                name: "token_b_account",
                account: Some(self.token_b_account),
                tag: Tag::Mutable,
            },
            Slot { name: "token_a_vault", account: Some(self.token_a_vault), tag: Tag::Mutable },
            Slot { name: "token_b_vault", account: Some(self.token_b_vault), tag: Tag::Mutable },
            Slot { name: "token_a_mint", account: Some(self.token_a_mint), tag: Tag::ReadOnly },
            Slot { name: "token_b_mint", account: Some(self.token_b_mint), tag: Tag::ReadOnly },
            Slot {
                name: "position_nft_account",
                account: Some(self.position_nft_account),
                tag: Tag::ReadOnly,
            },
            Slot { name: "owner", account: Some(self.owner), tag: Tag::Signer },
            Slot {
                name: "token_a_program",
                account: Some(self.token_a_program),
                tag: Tag::ReadOnly,
            },
            Slot {
                name: "token_b_program",
                account: Some(self.token_b_program),
                tag: Tag::ReadOnly,
            },
            Slot {
                name: "event_authority",
                account: Some(self.event_authority),
                tag: Tag::ReadOnly,
            },
            Slot {
                name: "amm_program",
                account: Some(self.amm_program),
                tag: Tag::Fixed(addresses.amm_program),
            },
        ]
    }

    /// The accounts of the delegated call, in the order its entrypoint
    /// declares them.
    pub open spec fn delegated(self) -> Seq<Option<AccountRef>> {
        seq![
            Some(self.pool_authority),
            Some(self.pool),
            Some(self.position),
            Some(self.token_a_account),
            Some(self.token_b_account),
            Some(self.token_a_vault),
            Some(self.token_b_vault),
            Some(self.token_a_mint),
            Some(self.token_b_mint),
            Some(self.position_nft_account),
            Some(self.owner),
            Some(self.token_a_program),
            Some(self.token_b_program),
            Some(self.event_authority),
            Some(self.amm_program),
        ]
    }

    /// The delegated call that this context makes of `call`: to the program
    /// in its `amm_program` slot, with the accounts of `delegated`.
    pub open spec fn invocation(self, call: AmmCallView) -> InvocationView {
        InvocationView { program: self.amm_program, accounts: self.delegated(), call }
    }

    /// Every account has what its slot asks for: the writable ones are
    /// writable, the signers have signed, and the fixed ones sit at their
    /// addresses.
    pub open spec fn well_formed(self, addresses: ProtocolAddresses) -> bool {
        &&& self.pool_authority.key@ == addresses.pool_authority@
        &&& self.pool.is_writable
        &&& self.position.is_writable
        &&& self.token_a_account.is_writable
        &&& self.token_b_account.is_writable
        &&& self.token_a_vault.is_writable
        &&& self.token_b_vault.is_writable
        &&& self.owner.is_signer
        &&& self.amm_program.key@ == addresses.amm_program@
    }

    /// Validation passes exactly on the well-formed contexts.
    pub proof fn lemma_valid_iff_well_formed(self, addresses: ProtocolAddresses)
        ensures
            validation(self.slots(addresses)) is None <==> self.well_formed(addresses),
    {
        let slots = self.slots(addresses);
        lemma_validation_passes_iff_satisfied(slots);
        if all_satisfied(slots) {
            assert(slots[0].satisfied());
            assert(slots[1].satisfied());
            assert(slots[2].satisfied());
            assert(slots[3].satisfied());
            assert(slots[4].satisfied());
            assert(slots[5].satisfied());
            assert(slots[6].satisfied());
            assert(slots[10].satisfied());
            assert(slots[14].satisfied());
        }
    }

    /// Checks every account against the tag of its slot.
    pub fn validate(&self, addresses: &ProtocolAddresses) -> (r: Result<
        (),
        ConstraintViolation,
    >)
        ensures
            match r {
                Ok(_) => validation(self.slots(*addresses)) is None,
                Err(v) => validation(self.slots(*addresses)) == Some(v),
            },
            r is Ok <==> self.well_formed(*addresses),
    {
        let slots = vec![
            Slot::present(
                "pool_authority",
                self.pool_authority,
                Tag::Fixed(addresses.pool_authority),
            ),
            Slot::present("pool", self.pool, Tag::Mutable),
            Slot::present("position", self.position, Tag::Mutable),
            Slot::present("token_a_account", self.token_a_account, Tag::Mutable),
            Slot::present("token_b_account", self.token_b_account, Tag::Mutable),
            Slot::present("token_a_vault", self.token_a_vault, Tag::Mutable),
            Slot::present("token_b_vault", self.token_b_vault, Tag::Mutable),
            Slot::present("token_a_mint", self.token_a_mint, Tag::ReadOnly),
            Slot::present("token_b_mint", self.token_b_mint, Tag::ReadOnly),
            Slot::present("position_nft_account", self.position_nft_account, Tag::ReadOnly),
            Slot::present("owner", self.owner, Tag::Signer),
            Slot::present("token_a_program", self.token_a_program, Tag::ReadOnly),
            Slot::present("token_b_program", self.token_b_program, Tag::ReadOnly),
            Slot::present("event_authority", self.event_authority, Tag::ReadOnly),
            Slot::present("amm_program", self.amm_program, Tag::Fixed(addresses.amm_program)),
        ];
        assert(slots@ =~= self.slots(*addresses));
        proof {
            self.lemma_valid_iff_well_formed(*addresses);
        }
        validate(&slots)
    }

    /// Builds the delegated `claim_position_fee` call from this context.
    pub fn claim_position_fee_cpi(&self) -> (r: Invocation)
        ensures
            r@ == self.invocation(AmmCallView::ClaimPositionFee),
    {
        let accounts = vec![
            Some(self.pool_authority),
            Some(self.pool),
            Some(self.position),
            Some(self.token_a_account),
            Some(self.token_b_account),
            Some(self.token_a_vault),
            Some(self.token_b_vault),
            Some(self.token_a_mint),
            Some(self.token_b_mint),
            Some(self.position_nft_account),
            Some(self.owner),
            Some(self.token_a_program),
            Some(self.token_b_program),
            Some(self.event_authority),
            Some(self.amm_program),
        ];
        assert(accounts@ =~= self.delegated());
        Invocation {
            program: self.amm_program,
            accounts,
            call: AmmCall::ClaimPositionFee,
        }
    }
}

/// Accounts for closing a position that holds no liquidity.
#[derive(Clone, Copy, Debug, PartialEq, Eq)]
pub struct ClosePositionCtx {
    /// Mint of the position token, which is burned.
    pub position_nft_mint: AccountRef,
    pub position_nft_account: AccountRef,
    pub pool: AccountRef,
    pub position: AccountRef,
    /// Authority of the DAMM v2 program, at its fixed address.
    pub pool_authority: AccountRef,
    /// Receives the rent of the closed position.
    pub rent_receiver: AccountRef,
    /// Owner of the position.
    pub owner: AccountRef,
    /// The Token-2022 program, at its fixed address.
    pub token_program: AccountRef,
    /// Event authority of the DAMM v2 program.
    pub event_authority: AccountRef,
    /// The DAMM v2 program, at its fixed address.
    pub amm_program: AccountRef,
}

impl ClosePositionCtx {
    /// The slots of this context in declaration order.
    pub open spec fn slots(self, addresses: ProtocolAddresses) -> Seq<Slot> {
        seq![
            Slot {
                name: "position_nft_mint",
                account: Some(self.position_nft_mint),
                tag: Tag::Mutable,
            },
            Slot {
                name: "position_nft_account",
                account: Some(self.position_nft_account),
                tag: Tag::Mutable,
            },
            Slot { name: "pool", account: Some(self.pool), tag: Tag::Mutable },
            Slot { name: "position", account: Some(self.position), tag: Tag::Mutable },
            Slot {
                name: "pool_authority",
                account: Some(self.pool_authority),
                tag: Tag::Fixed(addresses.pool_authority),
            },
            Slot { name: "rent_receiver", account: Some(self.rent_receiver), tag: Tag::Mutable },
            Slot { name: "owner", account: Some(self.owner), tag: Tag::Signer },
            Slot {
                name: "token_program",
                account: Some(self.token_program),
                tag: Tag::Fixed(addresses.token_2022_program),
            },
            Slot {
                name: "event_authority",
                account: Some(self.event_authority),
                tag: Tag::ReadOnly,
            },
            Slot {
                name: "amm_program",
                account: Some(self.amm_program),
                tag: Tag::Fixed(addresses.amm_program),
            },
        ]
    }

    /// The accounts of the delegated call, in the order its entrypoint
    /// declares them.
    pub open spec fn delegated(self) -> Seq<Option<AccountRef>> {
        seq![
            Some(self.position_nft_mint),
            Some(self.position_nft_account),
            Some(self.pool),
            Some(self.position),
            Some(self.pool_authority),
            Some(self.rent_receiver),
            Some(self.owner),
            Some(self.token_program),
            Some(self.event_authority),
            Some(self.amm_program),
        ]
    }

    /// The delegated call that this context makes of `call`: to the program
    /// in its `amm_program` slot, with the accounts of `delegated`.
    pub open spec fn invocation(self, call: AmmCallView) -> InvocationView {
        InvocationView { program: self.amm_program, accounts: self.delegated(), call }
    }

    /// Every account has what its slot asks for: the writable ones are
    /// writable, the signers have signed, and the fixed ones sit at their
    /// addresses.
    pub open spec fn well_formed(self, addresses: ProtocolAddresses) -> bool {
        &&& self.position_nft_mint.is_writable
        &&& self.position_nft_account.is_writable
        &&& self.pool.is_writable
        &&& self.position.is_writable
        &&& self.pool_authority.key@ == addresses.pool_authority@
        &&& self.rent_receiver.is_writable
        &&& self.owner.is_signer
        &&& self.token_program.key@ == addresses.token_2022_program@
        &&& self.amm_program.key@ == addresses.amm_program@
    }

    /// Validation passes exactly on the well-formed contexts.
    pub proof fn lemma_valid_iff_well_formed(self, addresses: ProtocolAddresses)
        ensures
            validation(self.slots(addresses)) is None <==> self.well_formed(addresses),
    {
        let slots = self.slots(addresses);
        lemma_validation_passes_iff_satisfied(slots);
        if all_satisfied(slots) {
            assert(slots[0].satisfied());
            assert(slots[1].satisfied());
            assert(slots[2].satisfied());
            assert(slots[3].satisfied());
            assert(slots[4].satisfied());
            assert(slots[5].satisfied());
            assert(slots[6].satisfied());
            assert(slots[7].satisfied());
            assert(slots[9].satisfied());
        }
    }

    /// Checks every account against the tag of its slot.
    pub fn validate(&self, addresses: &ProtocolAddresses) -> (r: Result<
        (),
        ConstraintViolation,
    >)
        ensures
            match r {
                Ok(_) => validation(self.slots(*addresses)) is None,
                Err(v) => validation(self.slots(*addresses)) == Some(v),
            },
            r is Ok <==> self.well_formed(*addresses),
    {
        let slots = vec![
            Slot::present("position_nft_mint", self.position_nft_mint, Tag::Mutable),
            Slot::present("position_nft_account", self.position_nft_account, Tag::Mutable),
            Slot::present("pool", self.pool, Tag::Mutable),
            Slot::present("position", self.position, Tag::Mutable),
            Slot::present(
                "pool_authority",
                self.pool_authority,
                Tag::Fixed(addresses.pool_authority),
            ),
            Slot::present("rent_receiver", self.rent_receiver, Tag::Mutable),
            Slot::present("owner", self.owner, Tag::Signer),
            Slot::present(
                "token_program",
                self.token_program,
                Tag::Fixed(addresses.token_2022_program),
            ),
            Slot::present("event_authority", self.event_authority, Tag::ReadOnly),
            Slot::present("amm_program", self.amm_program, Tag::Fixed(addresses.amm_program)),
        ];
        assert(slots@ =~= self.slots(*addresses));
        proof {
            self.lemma_valid_iff_well_formed(*addresses);
        }
        validate(&slots)
    }

    /// Builds the delegated `close_position` call from this context.
    pub fn close_position_cpi(&self) -> (r: Invocation)
        ensures
            r@ == self.invocation(AmmCallView::ClosePosition),
    {
        let accounts = vec![
            Some(self.position_nft_mint),
            Some(self.position_nft_account),
            Some(self.pool),
            Some(self.position),
            Some(self.pool_authority),
            Some(self.rent_receiver),
            Some(self.owner),
            Some(self.token_program),
            Some(self.event_authority),
            Some(self.amm_program),
        ];
        assert(accounts@ =~= self.delegated());
        Invocation {
            program: self.amm_program,
            accounts,
            call: AmmCall::ClosePosition,
        }
    }
}
} // verus!
