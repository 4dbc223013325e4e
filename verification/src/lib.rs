//! Composition of atomic ledger transactions that pair an optional wrap of the
//! native asset with one delegated call into the DAMM v2 market-maker program.
//!
//! The crate decides, validates and orders; it performs no ledger operation
//! itself. Every entrypoint turns an account context and its parameters into
//! an ordered list of steps, and a `Transaction` drives such a list to its
//! all-or-nothing end from the outcomes that its caller reports.

pub mod account;
pub mod address;
pub mod error;
pub mod instructions;
pub mod liquidity;
pub mod plan;
pub mod pool;
pub mod position;
pub mod swap;
pub mod transaction;

pub use crate::account::validate;
pub use crate::account::AccountRef;
pub use crate::account::Slot;
pub use crate::account::Tag;
pub use crate::address::damm_v2_pool_authority;
pub use crate::address::damm_v2_program_id;
pub use crate::address::is_native_mint;
pub use crate::address::native_mint;
pub use crate::address::token_2022_program_id;
pub use crate::address::Address;
pub use crate::address::ProtocolAddresses;
pub use crate::error::ConstraintKind;
pub use crate::error::ConstraintViolation;
pub use crate::error::EntryError;
pub use crate::error::MeteoraDAMMError;
pub use crate::instructions::add_liquidity;
pub use crate::instructions::claim_position_fee;
pub use crate::instructions::close_position;
pub use crate::instructions::create_position;
pub use crate::instructions::initialize_customizable_pool;
pub use crate::instructions::initialize_pool;
pub use crate::instructions::initialize_pool_with_sol;
pub use crate::instructions::remove_all_liquidity;
pub use crate::instructions::remove_liquidity;
pub use crate::instructions::swap;
pub use crate::instructions::swap2;
pub use crate::liquidity::AddLiquidityCtx;
pub use crate::liquidity::RemoveAllLiquidityCtx;
pub use crate::liquidity::RemoveLiquidityCtx;
pub use crate::plan::funded_wrap_decision;
pub use crate::plan::wrap_decision;
pub use crate::plan::AmmCall;

pub use crate::plan::Invocation;
pub use crate::plan::PoolFeeParameters;
pub use crate::plan::Step;
pub use crate::plan::WrapAccounts;
pub use crate::plan::WrapDecision;
pub use crate::pool::InitializeCustomizablePoolCtx;
pub use crate::pool::InitializePoolCtx;
pub use crate::pool::InitializePoolWithSolCtx;
pub use crate::position::ClaimPositionFeeCtx;
pub use crate::position::ClosePositionCtx;
pub use crate::position::CreatePositionCtx;
pub use crate::swap::Swap2Ctx;
pub use crate::swap::SwapCtx;
pub use crate::transaction::Phase;
pub use crate::transaction::Transaction;
