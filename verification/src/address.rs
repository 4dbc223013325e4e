use anchor_lang::prelude::Pubkey;
use std::str::FromStr;
use vstd::prelude::*;

verus! {

/// A 32-byte ledger address.
#[derive(Clone, Copy, Debug, PartialEq, Eq)]
pub struct Address {
    pub bytes: [u8; 32],
}

impl View for Address {
    type V = Seq<u8>;

    open spec fn view(&self) -> Seq<u8> {
        self.bytes@
    }
}

/// What `Pubkey::from_str` makes of a text: the 32 bytes it decodes to, or
/// `None` where it reports a parse error.
pub uninterp spec fn base58_pubkey(text: Seq<char>) -> Option<Seq<u8>>;

/// Calls `<Pubkey as FromStr>::from_str` and hands out the key's bytes. The
/// call reads nothing but its argument and reports bad input as an error, so
/// the result is the named decoding of the text.
#[verifier::external_body]
fn decode_pubkey(text: &str) -> (r: Option<[u8; 32]>)
    ensures
        match r {
            Some(bytes) => base58_pubkey(text@) == Some(bytes@),
            None => base58_pubkey(text@) is None,
        },
{
    match Pubkey::from_str(text) {
        Ok(key) => Some(key.to_bytes()),
        Err(_) => None,
    }
}

pub open spec fn native_mint_text() -> Seq<char> {
    "So11111111111111111111111111111111111111112"@
}

pub open spec fn pool_authority_text() -> Seq<char> {
    "HLnpSz9h2S4hiLQ43rnSD9XkcUThA7B8hQMKmDaiTLcC"@
}

pub open spec fn token_2022_text() -> Seq<char> {
    "TokenzQdBNbLqP5VEhdkAS6EPFLC1PHnBqCXEpPxuEb"@
}

pub open spec fn damm_v2_text() -> Seq<char> {
    "cpamdpZCGKUy5JxQXB4dcpGPiikHawvSWAd6mEn1sGG"@
}

impl Address {
    /// The address that a base58 text stands for, if it stands for one.
    pub fn from_base58(text: &str) -> (r: Option<Address>)
        ensures
            match r {
                Some(a) => base58_pubkey(text@) == Some(a@),
                None => base58_pubkey(text@) is None,
            },
    {
        match decode_pubkey(text) {
            Some(bytes) => Some(Address { bytes }),
            None => None,
        }
    }

    /// Whether two addresses hold the same 32 bytes.
    pub fn same(&self, other: &Address) -> (r: bool)
        ensures
            r == (self@ == other@),
    {
        let mut i: usize = 0;
        while i < 32
            invariant
                i <= 32,
                forall|j: int| 0 <= j < i ==> self.bytes@[j] == other.bytes@[j],
            decreases 32 - i,
        {
            if self.bytes[i] != other.bytes[i] {
                return false;
            }
            i += 1;
        }
        assert(self@ =~= other@);
        true
    }
}

/// Mint of the wrapped native asset.
pub fn native_mint() -> (r: Option<Address>)
    ensures
        match r {
            Some(a) => base58_pubkey(native_mint_text()) == Some(a@),
            None => base58_pubkey(native_mint_text()) is None,
        },
{
    Address::from_base58("So11111111111111111111111111111111111111112")
}

/// Fixed authority address of the DAMM v2 program.
pub fn damm_v2_pool_authority() -> (r: Option<Address>)
    ensures
        match r {
            Some(a) => base58_pubkey(pool_authority_text()) == Some(a@),
            None => base58_pubkey(pool_authority_text()) is None,
        },
{
    Address::from_base58("HLnpSz9h2S4hiLQ43rnSD9XkcUThA7B8hQMKmDaiTLcC")
}

/// Id of the Token-2022 program, which holds the position tokens.
pub fn token_2022_program_id() -> (r: Option<Address>)
    ensures
        match r {
            Some(a) => base58_pubkey(token_2022_text()) == Some(a@),
            None => base58_pubkey(token_2022_text()) is None,
        },
{
    Address::from_base58("TokenzQdBNbLqP5VEhdkAS6EPFLC1PHnBqCXEpPxuEb")
}

/// Id of the DAMM v2 program.
pub fn damm_v2_program_id() -> (r: Option<Address>)
    ensures
        match r {
            Some(a) => base58_pubkey(damm_v2_text()) == Some(a@),
            None => base58_pubkey(damm_v2_text()) is None,
        },
{
    Address::from_base58("cpamdpZCGKUy5JxQXB4dcpGPiikHawvSWAd6mEn1sGG")
}

/// Whether `mint` is the mint of the wrapped native asset.
pub fn is_native_mint(mint: &Address) -> (r: bool)
    ensures
        r == (base58_pubkey(native_mint_text()) == Some(mint@)),
{
    match native_mint() {
        Some(native) => native.same(mint),
        None => false,
    }
}

/// The four fixed addresses that account contexts are checked against.
#[derive(Clone, Copy, Debug, PartialEq, Eq)]
pub struct ProtocolAddresses {
    /// Id of the DAMM v2 program.
    pub amm_program: Address,
    /// Authority address of the DAMM v2 program.
    pub pool_authority: Address,
    /// Mint of the wrapped native asset.
    pub native_mint: Address,
    /// Id of the Token-2022 program.
    pub token_2022_program: Address,
}

impl ProtocolAddresses {
    /// Puts four addresses together, if all four are there.
    pub fn assemble(
        amm_program: Option<Address>,
        pool_authority: Option<Address>,
        native_mint: Option<Address>,
        token_2022_program: Option<Address>,
    ) -> (r: Option<ProtocolAddresses>)
        ensures
            r is Some <==> amm_program is Some && pool_authority is Some && native_mint is Some
                && token_2022_program is Some,
            r matches Some(p) ==> {
                &&& amm_program == Some(p.amm_program)
                &&& pool_authority == Some(p.pool_authority)
                &&& native_mint == Some(p.native_mint)
                &&& token_2022_program == Some(p.token_2022_program)
            },
    {
        match (amm_program, pool_authority, native_mint, token_2022_program) {
            (
                Some(amm_program),
                Some(pool_authority),
                Some(native_mint),
                Some(token_2022_program),
            ) => Some(
                ProtocolAddresses { amm_program, pool_authority, native_mint, token_2022_program },
            ),
            _ => None,
        }
    }

    /// The addresses of the deployed protocol: each field is the decoding of
    /// its base58 text, and the result is `None` only if one of the four
    /// texts does not decode.
    pub fn deployed() -> (r: Option<ProtocolAddresses>)
        ensures
            match r {
                Some(p) => {
                    &&& base58_pubkey(damm_v2_text()) == Some(p.amm_program@)
                    &&& base58_pubkey(pool_authority_text()) == Some(p.pool_authority@)
                    &&& base58_pubkey(native_mint_text()) == Some(p.native_mint@)
                    &&& base58_pubkey(token_2022_text()) == Some(p.token_2022_program@)
                },
                None => {
                    ||| base58_pubkey(damm_v2_text()) is None
                    ||| base58_pubkey(pool_authority_text()) is None
                    ||| base58_pubkey(native_mint_text()) is None
                    ||| base58_pubkey(token_2022_text()) is None
                },
            },
    {
        ProtocolAddresses::assemble(
            damm_v2_program_id(),
            damm_v2_pool_authority(),
            native_mint(),
            token_2022_program_id(),
        )
    }

    /// Whether `mint` is this configuration's wrapped-native mint.
    pub fn is_native_mint(&self, mint: &Address) -> (r: bool)
        ensures
            r == (mint@ == self.native_mint@),
    {
        mint.same(&self.native_mint)
    }
}

} // verus!
