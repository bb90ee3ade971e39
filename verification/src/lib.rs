//! Point-in-time, read-only queries against an append-only Ethereum chain
//! database: block resolution, height-scoped state reads, synthetic call
//! preparation, receipt reconstruction, and the adapter between the
//! storage-side and client-side type systems.
//!
//! The storage engine, the EVM and the block codec are external
//! collaborators: the committed chain view they serve is modelled here as
//! plain data ([`chain::ChainDb`]), and everything an execution engine
//! reports about a transaction is taken as an input value
//! ([`chain::TxOutcome`], [`call::ExecOutcome`]), so that every query rule is
//! verified for every value those collaborators could hand back.

pub mod call;
pub mod chain;
pub mod client;
pub mod db_wrapper;
pub mod jsonrpc;
pub mod receipts;
pub mod resolve;
pub mod state;
pub mod utils;
pub mod words;

use vstd::prelude::*;

verus! {

/// The failure taxonomy of every query operation.
///
/// Absence that the caller's contract allows (an unknown transaction hash, an
/// unresolvable block for a block fetch) is surfaced as `None`, never through
/// this type.
#[derive(Clone, Copy, Debug, PartialEq, Eq, Structural)]
pub enum QueryError {
    /// A block, header, body or chain-configuration read found nothing and
    /// the operation cannot answer without it.
    NotFound,
    /// No chain configuration is available for the resolved block.
    ChainSpecMissing,
    /// The two type systems disagree in a way that cannot be bridged, e.g. a
    /// name where an address is required, or a creation-intent call on the
    /// call-only path.
    ConversionError,
    /// The execution engine reported a setup failure, distinct from an
    /// in-EVM revert (which is a result, not an error).
    ExecutionError,
    /// A lookup index pointed at data that is absent or contradicts it; not
    /// recoverable for this request.
    Inconsistency,
}

} // verus!
