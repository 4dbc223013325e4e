use crate::account::all_satisfied;
use crate::account::lemma_validation_passes_iff_satisfied;
use crate::account::validate;
use crate::account::validation;
use crate::account::AccountRef;
use crate::account::Slot;
use crate::account::Tag;
use crate::address::ProtocolAddresses;
use crate::error::ConstraintViolation;
use crate::plan::AmmCall;
use crate::plan::AmmCallView;
use crate::plan::Invocation;
use crate::plan::InvocationView;
use vstd::prelude::*;

verus! {

/// Accounts for a swap.
#[derive(Clone, Copy, Debug, PartialEq, Eq)]
pub struct SwapCtx {
    /// Authority of the DAMM v2 program, at its fixed address.
    pub pool_authority: AccountRef,
    pub pool: AccountRef,
    /// The user's account that the input is taken from.
    pub input_token_account: AccountRef,
    /// The user's account that receives the output.
    pub output_token_account: AccountRef,
    pub token_a_vault: AccountRef,
    pub token_b_vault: AccountRef,
    pub token_a_mint: AccountRef,
    pub token_b_mint: AccountRef,
    /// The user who swaps.
    pub payer: AccountRef,
    pub token_a_program: AccountRef,
    pub token_b_program: AccountRef,
    /// Receives the referral fee where one is supplied.
    pub referral_token_account: Option<AccountRef>,
    /// Event authority of the DAMM v2 program.
    pub event_authority: AccountRef,
    /// The DAMM v2 program, at its fixed address.
    pub amm_program: AccountRef,
}

impl SwapCtx {
    /// The slots of this context in declaration order.
    pub open spec fn slots(self, addresses: ProtocolAddresses) -> Seq<Slot> {
        seq![
            Slot {
                name: "pool_authority",
                account: Some(self.pool_authority),
                tag: Tag::Fixed(addresses.pool_authority),
            },
            Slot { name: "pool", account: Some(self.pool), tag: Tag::Mutable },
            Slot {
                name: "input_token_account",
                account: Some(self.input_token_account),
                tag: Tag::Mutable,
            },
            Slot {
                name: "output_token_account",
                account: Some(self.output_token_account),
                tag: Tag::Mutable,
            },
            Slot { name: "token_a_vault", account: Some(self.token_a_vault), tag: Tag::Mutable },
            Slot { name: "token_b_vault", account: Some(self.token_b_vault), tag: Tag::Mutable },
            Slot { name: "token_a_mint", account: Some(self.token_a_mint), tag: Tag::ReadOnly },
            Slot { name: "token_b_mint", account: Some(self.token_b_mint), tag: Tag::ReadOnly },
            Slot { name: "payer", account: Some(self.payer), tag: Tag::Signer },
            Slot {
                name: "token_a_program",
                account: Some(self.token_a_program),
                tag: Tag::ReadOnly,
            },
            Slot {
                name: "token_b_program",
                account: Some(self.token_b_program),
                tag: Tag::ReadOnly,
            },
            Slot {
                name: "referral_token_account",
                account: self.referral_token_account,
                tag: Tag::Mutable,
            },
            Slot {
                name: "event_authority",
                account: Some(self.event_authority),
                tag: Tag::ReadOnly,
            },
            Slot {
                name: "amm_program",
                account: Some(self.amm_program),
                tag: Tag::Fixed(addresses.amm_program),
            },
        ]
    }

    /// The accounts of the delegated call, in the order its entrypoint
    /// declares them.
    pub open spec fn delegated(self) -> Seq<Option<AccountRef>> {
        seq![
            Some(self.pool_authority),
            Some(self.pool),
            Some(self.input_token_account),
            Some(self.output_token_account),
            Some(self.token_a_vault),
            Some(self.token_b_vault),
            Some(self.token_a_mint),
            Some(self.token_b_mint),
            Some(self.payer),
            Some(self.token_a_program),
            Some(self.token_b_program),
            self.referral_token_account,
            Some(self.event_authority),
            Some(self.amm_program),
        ]
    }

    /// The delegated call that this context makes of `call`: to the program
    /// in its `amm_program` slot, with the accounts of `delegated`.
    pub open spec fn invocation(self, call: AmmCallView) -> InvocationView {
        InvocationView { program: self.amm_program, accounts: self.delegated(), call }
    }

    /// Every account has what its slot asks for: the writable ones are
    /// writable, the signers have signed, and the fixed ones sit at their
    /// addresses.
    pub open spec fn well_formed(self, addresses: ProtocolAddresses) -> bool {
        &&& self.pool_authority.key@ == addresses.pool_authority@
        &&& self.pool.is_writable
        &&& self.input_token_account.is_writable
        &&& self.output_token_account.is_writable
        &&& self.token_a_vault.is_writable
        &&& self.token_b_vault.is_writable
        &&& self.payer.is_signer
        &&& self.referral_token_account matches Some(account) ==> account.is_writable
        &&& self.amm_program.key@ == addresses.amm_program@
    }

    /// Validation passes exactly on the well-formed contexts.
    pub proof fn lemma_valid_iff_well_formed(self, addresses: ProtocolAddresses)
        ensures
            validation(self.slots(addresses)) is None <==> self.well_formed(addresses),
    {
        let slots = self.slots(addresses);
        lemma_validation_passes_iff_satisfied(slots);
        if all_satisfied(slots) {
            assert(slots[0].satisfied());
            assert(slots[1].satisfied());
            assert(slots[2].satisfied());
            assert(slots[3].satisfied());
            assert(slots[4].satisfied());
            assert(slots[5].satisfied());
            assert(slots[8].satisfied());
            assert(slots[11].satisfied());
            assert(slots[13].satisfied());
        }
    }

    /// Checks every account against the tag of its slot.
    pub fn validate(&self, addresses: &ProtocolAddresses) -> (r: Result<
        (),
        ConstraintViolation,
    >)
        ensures
            match r {
                Ok(_) => validation(self.slots(*addresses)) is None,
                Err(v) => validation(self.slots(*addresses)) == Some(v),
            },
            r is Ok <==> self.well_formed(*addresses),
    {
        let slots = vec![
            Slot::present(
                "pool_authority",
                self.pool_authority,
                Tag::Fixed(addresses.pool_authority),
            ),
            Slot::present("pool", self.pool, Tag::Mutable),
            Slot::present("input_token_account", self.input_token_account, Tag::Mutable),
            Slot::present("output_token_account", self.output_token_account, Tag::Mutable),
            Slot::present("token_a_vault", self.token_a_vault, Tag::Mutable),
            Slot::present("token_b_vault", self.token_b_vault, Tag::Mutable),
            Slot::present("token_a_mint", self.token_a_mint, Tag::ReadOnly),
            Slot::present("token_b_mint", self.token_b_mint, Tag::ReadOnly),
            Slot::present("payer", self.payer, Tag::Signer),
            Slot::present("token_a_program", self.token_a_program, Tag::ReadOnly),
            Slot::present("token_b_program", self.token_b_program, Tag::ReadOnly),
            Slot {
                name: "referral_token_account",
                account: self.referral_token_account,
                tag: Tag::Mutable,
            },
            Slot::present("event_authority", self.event_authority, Tag::ReadOnly),
            Slot::present("amm_program", self.amm_program, Tag::Fixed(addresses.amm_program)),
        ];
        assert(slots@ =~= self.slots(*addresses));
        proof {
            self.lemma_valid_iff_well_formed(*addresses);
        }
        validate(&slots)
    }

    /// Builds the delegated `swap` call from this context.
    /// A referral account that was not supplied is handed on as absent.
    pub fn swap_cpi(&self, amount_in: u64, minimum_amount_out: u64) -> (r: Invocation)
        ensures
            r@ == self.invocation(
                AmmCallView::Swap { amount_in, minimum_amount_out },
            ),
            r@.accounts.len() == 14,
            r@.accounts[11] == self.referral_token_account,
    {
        let accounts = vec![
            Some(self.pool_authority),
            Some(self.pool),
            Some(self.input_token_account),
            Some(self.output_token_account),
            Some(self.token_a_vault),
            Some(self.token_b_vault),
            Some(self.token_a_mint),
            Some(self.token_b_mint),
            Some(self.payer),
            Some(self.token_a_program),
            Some(self.token_b_program),
            self.referral_token_account,
            Some(self.event_authority),
            Some(self.amm_program),
        ];
        assert(accounts@ =~= self.delegated());
        Invocation {
            program: self.amm_program,
            accounts,
            call: AmmCall::Swap { amount_in, minimum_amount_out },
        }
    }
}

/// Accounts for a swap with a mode: exact in, exact out or partial fill.
#[derive(Clone, Copy, Debug, PartialEq, Eq)]
pub struct Swap2Ctx {
    /// Authority of the DAMM v2 program, at its fixed address.
    pub pool_authority: AccountRef,
    pub pool: AccountRef,
    /// The user's account that the input is taken from.
    pub input_token_account: AccountRef,
    /// The user's account that receives the output.
    pub output_token_account: AccountRef,
    pub token_a_vault: AccountRef,
    pub token_b_vault: AccountRef,
    pub token_a_mint: AccountRef,
    pub token_b_mint: AccountRef,
    /// The user who swaps.
    pub payer: AccountRef,
    pub token_a_program: AccountRef,
    pub token_b_program: AccountRef,
    /// Receives the referral fee where one is supplied.
    pub referral_token_account: Option<AccountRef>,
    /// Event authority of the DAMM v2 program.
    pub event_authority: AccountRef,
    /// The DAMM v2 program, at its fixed address.
    pub amm_program: AccountRef,
}

impl Swap2Ctx {
    /// The slots of this context in declaration order.
    pub open spec fn slots(self, addresses: ProtocolAddresses) -> Seq<Slot> {
        seq![
            Slot {
                name: "pool_authority",
                account: Some(self.pool_authority),
                tag: Tag::Fixed(addresses.pool_authority),
            },
            Slot { name: "pool", account: Some(self.pool), tag: Tag::Mutable },
            Slot {
                name: "input_token_account",
                account: Some(self.input_token_account),
                tag: Tag::Mutable,
            },
            Slot {
                name: "output_token_account",
                account: Some(self.output_token_account),
                tag: Tag::Mutable,
            },
            Slot { name: "token_a_vault", account: Some(self.token_a_vault), tag: Tag::Mutable },
            Slot { name: "token_b_vault", account: Some(self.token_b_vault), tag: Tag::Mutable },
            Slot { name: "token_a_mint", account: Some(self.token_a_mint), tag: Tag::ReadOnly },
            Slot { name: "token_b_mint", account: Some(self.token_b_mint), tag: Tag::ReadOnly },
            Slot { name: "payer", account: Some(self.payer), tag: Tag::Signer },
            Slot {
                name: "token_a_program",
                account: Some(self.token_a_program),
                tag: Tag::ReadOnly,
            },
            Slot {
                name: "token_b_program",
                account: Some(self.token_b_program),
                tag: Tag::ReadOnly,
            },
            Slot {
                name: "referral_token_account",
                account: self.referral_token_account,
                tag: Tag::Mutable,
            },
            Slot {
                name: "event_authority",
                account: Some(self.event_authority),
                tag: Tag::ReadOnly,
            },
            Slot {
                name: "amm_program",
                account: Some(self.amm_program),
                tag: Tag::Fixed(addresses.amm_program),
            },
        ]
    }

    /// The accounts of the delegated call, in the order its entrypoint
    /// declares them.
    pub open spec fn delegated(self) -> Seq<Option<AccountRef>> {
        seq![
            Some(self.pool_authority),
            Some(self.pool),
            Some(self.input_token_account),
            Some(self.output_token_account),
            Some(self.token_a_vault),
            Some(self.token_b_vault),
            Some(self.token_a_mint),
            Some(self.token_b_mint),
            Some(self.payer),
            Some(self.token_a_program),
            Some(self.token_b_program),
            self.referral_token_account,
            Some(self.event_authority),
            Some(self.amm_program),
        ]
    }

    /// The delegated call that this context makes of `call`: to the program
    /// in its `amm_program` slot, with the accounts of `delegated`.
    pub open spec fn invocation(self, call: AmmCallView) -> InvocationView {
        InvocationView { program: self.amm_program, accounts: self.delegated(), call }
    }

    /// Every account has what its slot asks for: the writable ones are
    /// writable, the signers have signed, and the fixed ones sit at their
    /// addresses.
    pub open spec fn well_formed(self, addresses: ProtocolAddresses) -> bool {
        &&& self.pool_authority.key@ == addresses.pool_authority@
        &&& self.pool.is_writable
        &&& self.input_token_account.is_writable
        &&& self.output_token_account.is_writable
        &&& self.token_a_vault.is_writable
        &&& self.token_b_vault.is_writable
        &&& self.payer.is_signer
        &&& self.referral_token_account matches Some(account) ==> account.is_writable
        &&& self.amm_program.key@ == addresses.amm_program@
    }

    /// Validation passes exactly on the well-formed contexts.
    pub proof fn lemma_valid_iff_well_formed(self, addresses: ProtocolAddresses)
        ensures
            validation(self.slots(addresses)) is None <==> self.well_formed(addresses),
    {
        let slots = self.slots(addresses);
        lemma_validation_passes_iff_satisfied(slots);
        if all_satisfied(slots) {
            assert(slots[0].satisfied());
            assert(slots[1].satisfied());
            assert(slots[2].satisfied());
            assert(slots[3].satisfied());
            assert(slots[4].satisfied());
            assert(slots[5].satisfied());
            assert(slots[8].satisfied());
            assert(slots[11].satisfied());
            assert(slots[13].satisfied());
        }
    }

    /// Checks every account against the tag of its slot.
    pub fn validate(&self, addresses: &ProtocolAddresses) -> (r: Result<
        (),
        ConstraintViolation,
    >)
        ensures
            match r {
                Ok(_) => validation(self.slots(*addresses)) is None,
                Err(v) => validation(self.slots(*addresses)) == Some(v),
            },
            r is Ok <==> self.well_formed(*addresses),
    {
        let slots = vec![
            Slot::present(
                "pool_authority",
                self.pool_authority,
                Tag::Fixed(addresses.pool_authority),
            ),
            Slot::present("pool", self.pool, Tag::Mutable),
            Slot::present("input_token_account", self.input_token_account, Tag::Mutable),
            Slot::present("output_token_account", self.output_token_account, Tag::Mutable),
            Slot::present("token_a_vault", self.token_a_vault, Tag::Mutable),
            Slot::present("token_b_vault", self.token_b_vault, Tag::Mutable),
            Slot::present("token_a_mint", self.token_a_mint, Tag::ReadOnly),
            Slot::present("token_b_mint", self.token_b_mint, Tag::ReadOnly),
            Slot::present("payer", self.payer, Tag::Signer),
            Slot::present("token_a_program", self.token_a_program, Tag::ReadOnly),
            Slot::present("token_b_program", self.token_b_program, Tag::ReadOnly),
            Slot {
                name: "referral_token_account",
                account: self.referral_token_account,
                tag: Tag::Mutable,
            },
            Slot::present("event_authority", self.event_authority, Tag::ReadOnly),
            Slot::present("amm_program", self.amm_program, Tag::Fixed(addresses.amm_program)),
        ];
        assert(slots@ =~= self.slots(*addresses));
        proof {
            self.lemma_valid_iff_well_formed(*addresses);
        }
        validate(&slots)
    }

    /// Builds the delegated `swap2` call from this context.
    /// A referral account that was not supplied is handed on as absent.
    pub fn swap2_cpi(&self, amount_0: u64, amount_1: u64, swap_mode: u8) -> (r: Invocation)
        ensures
            r@ == self.invocation(
                AmmCallView::Swap2 { amount_0, amount_1, swap_mode },
            ),
            r@.accounts.len() == 14,
            r@.accounts[11] == self.referral_token_account,
    {
        let accounts = vec![
            Some(self.pool_authority),
            Some(self.pool),
            Some(self.input_token_account),
            Some(self.output_token_account),
            Some(self.token_a_vault),
            Some(self.token_b_vault),
            Some(self.token_a_mint),
            Some(self.token_b_mint),
            Some(self.payer),
            Some(self.token_a_program),
            Some(self.token_b_program),
            self.referral_token_account,
            Some(self.event_authority),
            Some(self.amm_program),
        ];
        assert(accounts@ =~= self.delegated());
        Invocation {
            program: self.amm_program,
            accounts,
            call: AmmCall::Swap2 { amount_0, amount_1, swap_mode },
        }
    }
}
} // verus!
