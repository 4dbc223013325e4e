use crate::address::Address;
use crate::error::ConstraintKind;
use crate::error::ConstraintViolation;
use vstd::prelude::*;

verus! {

/// One account as the transaction presents it: its address and the two
/// capabilities the ledger grants it for this transaction.
#[derive(Clone, Copy, Debug, PartialEq, Eq)]
pub struct AccountRef {
    pub key: Address,
    pub is_signer: bool,
    pub is_writable: bool,
}

/// What a context demands of the account in one of its slots.
#[derive(Clone, Copy, Debug, PartialEq, Eq)]
pub enum Tag {
    /// Nothing is asked of the account.
    ReadOnly,
    /// The account must be writable.
    Mutable,
    /// The slot is declared as a signer account: the signature is tested when
    /// the account is loaded, before any constraint of any slot.
    Signer,
    /// A signer account that must also be writable.
    SignerMutable,
    /// An otherwise unchecked account constrained to be writable and to have
    /// signed, tested in that order.
    MutableSigned,
    /// The account must sit at this address.
    Fixed(Address),
}

impl Tag {
    /// The tag asks for the account's signature.
    pub open spec fn wants_signature(self) -> bool {
        self is Signer || self is SignerMutable || self is MutableSigned
    }

    /// The tag asks for a writable account.
    pub open spec fn wants_writable(self) -> bool {
        self is Mutable || self is SignerMutable || self is MutableSigned
    }
}

/// A named slot of a context: what is asked of its account and the account
/// supplied for it. Only an optional slot is ever built without an account,
/// and an absent account has nothing to fail.
#[derive(Clone, Copy, Debug, PartialEq, Eq)]
pub struct Slot {
    pub name: &'static str,
    pub account: Option<AccountRef>,
    pub tag: Tag,
}

impl Slot {
    /// A slot whose account was supplied.
    pub fn present(name: &'static str, account: AccountRef, tag: Tag) -> (r: Slot)
        ensures
            r == (Slot { name, account: Some(account), tag }),
    {
        Slot { name, account: Some(account), tag }
    }

    /// Whether the account meets the slot's fixed-address tag.
    pub open spec fn address_met(self) -> bool {
        match (self.account, self.tag) {
            (Some(account), Tag::Fixed(expected)) => expected@ == account.key@,
            _ => true,
        }
    }

    /// What the slot fails when its account is loaded.
    pub open spec fn load_failure(self) -> Option<ConstraintKind> {
        match self.account {
            Some(account) => if (self.tag is Signer || self.tag is SignerMutable)
                && !account.is_signer {
                Some(ConstraintKind::Signer)
            } else {
                None
            },
            None => None,
        }
    }

    /// The first constraint the slot fails: writable, then signed, then the
    /// fixed address.
    pub open spec fn constraint_failure(self) -> Option<ConstraintKind> {
        match self.account {
            Some(account) => if self.tag.wants_writable() && !account.is_writable {
                Some(ConstraintKind::Mutable)
            } else if self.tag is MutableSigned && !account.is_signer {
                Some(ConstraintKind::Signer)
            } else if !self.address_met() {
                Some(ConstraintKind::Address)
            } else {
                None
            },
            None => None,
        }
    }

    /// What the slot fails in one of the two passes of validation.
    pub open spec fn failure(self, loading: bool) -> Option<ConstraintKind> {
        if loading {
            self.load_failure()
        } else {
            self.constraint_failure()
        }
    }

    /// The account, if one was supplied, satisfies the slot's tag.
    pub open spec fn satisfied(self) -> bool {
        match self.account {
            Some(account) => {
                &&& self.tag.wants_signature() ==> account.is_signer
                &&& self.tag.wants_writable() ==> account.is_writable
                &&& self.address_met()
            },
            None => true,
        }
    }

    /// The failure of this slot in one of the two passes, if it has one.
    pub fn check(&self, loading: bool) -> (r: Option<ConstraintKind>)
        ensures
            r == self.failure(loading),
    {
        let account = match self.account {
            Some(account) => account,
            None => {
                return None;
            },
        };
        if loading {
            match self.tag {
                Tag::Signer | Tag::SignerMutable => if account.is_signer {
                    None
                } else {
                    Some(ConstraintKind::Signer)
                },
                _ => None,
            }
        } else {
            match self.tag {
                Tag::ReadOnly | Tag::Signer => None,
                Tag::Mutable | Tag::SignerMutable => if account.is_writable {
                    None
                } else {
                    Some(ConstraintKind::Mutable)
                },
                Tag::MutableSigned => if !account.is_writable {
                    Some(ConstraintKind::Mutable)
                } else if !account.is_signer {
                    Some(ConstraintKind::Signer)
                } else {
                    None
                },
                Tag::Fixed(expected) => if expected.same(&account.key) {
                    None
                } else {
                    Some(ConstraintKind::Address)
                },
            }
        }
    }
}

/// The first slot at or after `from` that fails in the given pass.
pub open spec fn first_failure(slots: Seq<Slot>, from: int, loading: bool) -> Option<
    ConstraintViolation,
>
    decreases slots.len() - from,
{
    if from < 0 || from >= slots.len() {
        None
    } else {
        match slots[from].failure(loading) {
            Some(kind) => Some(
                ConstraintViolation { index: from as usize, name: slots[from].name, kind },
            ),
            None => first_failure(slots, from + 1, loading),
        }
    }
}

/// What validation reports for a context's slots: the first account that
/// fails to load, else the first constraint failed in declaration order.
pub open spec fn validation(slots: Seq<Slot>) -> Option<ConstraintViolation> {
    match first_failure(slots, 0, true) {
        Some(v) => Some(v),
        None => first_failure(slots, 0, false),
    }
}

/// Every account of the context satisfies every tag of its slot.
pub open spec fn all_satisfied(slots: Seq<Slot>) -> bool {
    forall|i: int| 0 <= i < slots.len() ==> (#[trigger] slots[i]).satisfied()
}

/// One pass over the slots in declaration order, up to the first failure.
fn scan(slots: &Vec<Slot>, loading: bool) -> (r: Option<ConstraintViolation>)
    ensures
        r == first_failure(slots@, 0, loading),
{
    let mut i: usize = 0;
    while i < slots.len()
        invariant
            i <= slots.len(),
            first_failure(slots@, 0, loading) == first_failure(slots@, i as int, loading),
        decreases slots.len() - i,
    {
        match slots[i].check(loading) {
            Some(kind) => {
                return Some(ConstraintViolation { index: i, name: slots[i].name, kind });
            },
            None => {},
        }
        i += 1;
    }
    None
}

/// Validates a context's slots before any step is planned.
pub fn validate(slots: &Vec<Slot>) -> (r: Result<(), ConstraintViolation>)
    ensures
        match r {
            Ok(_) => validation(slots@) is None,
            Err(v) => validation(slots@) == Some(v),
        },
        r is Ok <==> all_satisfied(slots@),
{
    proof {
        lemma_validation_passes_iff_satisfied(slots@);
    }
    match scan(slots, true) {
        Some(v) => Err(v),
        None => match scan(slots, false) {
            Some(v) => Err(v),
            None => Ok(()),
        },
    }
}

/// A pass reports nothing from `from` on exactly when no slot from there on
/// fails in it.
pub proof fn lemma_first_failure_none(slots: Seq<Slot>, from: int, loading: bool)
    requires
        0 <= from <= slots.len(),
    ensures
        first_failure(slots, from, loading) is None <==> forall|i: int|
            from <= i < slots.len() ==> (#[trigger] slots[i]).failure(loading) is None,
    decreases slots.len() - from,
{
    if from < slots.len() {
        lemma_first_failure_none(slots, from + 1, loading);
    }
}

/// What a pass reports is the earliest failing slot from `from` on, with that
/// slot's name and its failure.
pub proof fn lemma_first_failure_earliest(slots: Seq<Slot>, from: int, loading: bool)
    requires
        0 <= from <= slots.len() <= usize::MAX,
    ensures
        first_failure(slots, from, loading) matches Some(v) ==> {
            &&& from <= v.index < slots.len()
            &&& v.name == slots[v.index as int].name
            &&& slots[v.index as int].failure(loading) == Some(v.kind)
            &&& forall|i: int|
                from <= i < v.index ==> (#[trigger] slots[i]).failure(loading) is None
        },
    decreases slots.len() - from,
{
    if from < slots.len() {
        lemma_first_failure_earliest(slots, from + 1, loading);
    }
}

/// Validation passes exactly when every account satisfies every tag of its
/// slot.
pub proof fn lemma_validation_passes_iff_satisfied(slots: Seq<Slot>)
    ensures
        validation(slots) is None <==> all_satisfied(slots),
{
    lemma_first_failure_none(slots, 0, true);
    lemma_first_failure_none(slots, 0, false);
    if validation(slots) is None {
        assert forall|i: int| 0 <= i < slots.len() implies (#[trigger] slots[i]).satisfied() by {
            assert(slots[i].failure(true) is None);
            assert(slots[i].failure(false) is None);
        }
    }
    if all_satisfied(slots) {
        assert forall|i: int| 0 <= i < slots.len() implies (#[trigger] slots[i]).failure(
            true,
        ) is None by {
            assert(slots[i].satisfied());
        }
        assert forall|i: int| 0 <= i < slots.len() implies (#[trigger] slots[i]).failure(
            false,
        ) is None by {
            assert(slots[i].satisfied());
        }
    }
}

/// An account in a fixed-address slot that sits at another address makes
/// validation fail, whatever the other accounts are.
pub proof fn lemma_wrong_address_rejected(slots: Seq<Slot>, i: int)
    requires
        0 <= i < slots.len(),
        !slots[i].address_met(),
    ensures
        validation(slots) is Some,
{
    lemma_validation_passes_iff_satisfied(slots);
    assert(!slots[i].satisfied());
}

/// A slot that requires a signature and holds an account that did not sign
/// makes validation fail.
pub proof fn lemma_missing_signature_rejected(slots: Seq<Slot>, i: int)
    requires
        0 <= i < slots.len(),
        slots[i].tag.wants_signature(),
        slots[i].account matches Some(account) && !account.is_signer,
    ensures
        validation(slots) is Some,
{
    lemma_validation_passes_iff_satisfied(slots);
    assert(!slots[i].satisfied());
}

} // verus!
