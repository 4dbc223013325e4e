use vstd::prelude::*;

verus! {

/// The program's own failures. Each has a stable numeric code and a message.
#[derive(Clone, Copy, Debug, PartialEq, Eq, Structural)]
pub enum MeteoraDAMMError {
    /// A liquidity delta or a funding amount of zero.
    InvalidLiquidityDelta,
    /// Output below the minimum the caller asked for.
    SlippageExceeded,
    InvalidSwapAmount,
    InvalidPoolState,
    InsufficientLiquidity,
}

/// Codes of a program's own errors start here.
pub const ERROR_CODE_OFFSET: u32 = 6000;

impl MeteoraDAMMError {
    /// Position of the variant in the declaration, counted from zero.
    pub open spec fn ordinal(self) -> nat {
        match self {
            MeteoraDAMMError::InvalidLiquidityDelta => 0,
            MeteoraDAMMError::SlippageExceeded => 1,
            MeteoraDAMMError::InvalidSwapAmount => 2,
            MeteoraDAMMError::InvalidPoolState => 3,
            MeteoraDAMMError::InsufficientLiquidity => 4,
        }
    }

    pub open spec fn message_text(self) -> Seq<char> {
        match self {
            MeteoraDAMMError::InvalidLiquidityDelta => "Invalid liquidity delta"@,
            MeteoraDAMMError::SlippageExceeded => "Slippage tolerance exceeded"@,
            MeteoraDAMMError::InvalidSwapAmount => "Invalid swap amount"@,
            MeteoraDAMMError::InvalidPoolState => "Invalid pool state"@,
            MeteoraDAMMError::InsufficientLiquidity => "Insufficient liquidity"@,
        }
    }

    /// The number under which the ledger reports this error.
    pub fn code(&self) -> (r: u32)
        ensures
            r == ERROR_CODE_OFFSET + self.ordinal(),
    {
        match self {
            MeteoraDAMMError::InvalidLiquidityDelta => 6000,
            MeteoraDAMMError::SlippageExceeded => 6001,
            MeteoraDAMMError::InvalidSwapAmount => 6002,
            MeteoraDAMMError::InvalidPoolState => 6003,
            MeteoraDAMMError::InsufficientLiquidity => 6004,
        }
    }

    /// The text shown to the user for this error.
    pub fn message(&self) -> (r: &'static str)
        ensures
            r@ == self.message_text(),
    {
        match self {
            MeteoraDAMMError::InvalidLiquidityDelta => "Invalid liquidity delta",
            MeteoraDAMMError::SlippageExceeded => "Slippage tolerance exceeded",
            MeteoraDAMMError::InvalidSwapAmount => "Invalid swap amount",
            MeteoraDAMMError::InvalidPoolState => "Invalid pool state",
            MeteoraDAMMError::InsufficientLiquidity => "Insufficient liquidity",
        }
    }
}

/// Which structural requirement an account failed.
#[derive(Clone, Copy, Debug, PartialEq, Eq, Structural)]
pub enum ConstraintKind {
    /// Authorization: the account had to sign the transaction and did not.
    Signer,
    /// The account had to be writable and was passed read-only.
    Mutable,
    /// Configuration: the account's address is not the fixed one required.
    Address,
}

/// The first requirement that an account context fails, and where.
#[derive(Clone, Copy, Debug, PartialEq, Eq)]
pub struct ConstraintViolation {
    /// Position of the account in its context's declaration.
    pub index: usize,
    /// Name of the account in its context.
    pub name: &'static str,
    pub kind: ConstraintKind,
}

/// Why an entrypoint produced nothing to execute.
#[derive(Clone, Copy, Debug, PartialEq, Eq)]
pub enum EntryError {
    /// The account context failed validation.
    Constraint(ConstraintViolation),
    /// A parameter was rejected.
    Program(MeteoraDAMMError),
}

} // verus!
