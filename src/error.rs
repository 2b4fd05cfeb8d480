//! The errors the ledger reports.

use vstd::prelude::*;

verus! {

/// Why a ledger operation failed.
#[derive(Debug, Clone, Copy, PartialEq, Eq, Structural)]
pub enum LedgerError {
    /// A transaction without a signature was submitted to the pool.
    InvalidTransaction,
    /// Mining was asked for while the pool was empty.
    EmptyPool,
    /// A candidate block failed the index, link or proof-of-work checks.
    InvalidBlock,
    /// The chain holds no block at all.
    ChainEmpty,
    /// The signing provider failed.
    SigningFailure,
}

} // verus!
