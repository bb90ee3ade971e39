//! The Block Resolver: an opaque block identifier becomes a canonical
//! (number, hash) pair, or `NotFound`.
//!
//! `Latest` reads the finished-sync-stage cursor, `Earliest` is block 0,
//! `Pending` degrades to `Latest` (no mempool is modelled). A number is
//! looked up in the canonical-hash index; a hash must both be a stored
//! block and still be the canonical block of its height, so a hash from an
//! orphaned branch resolves to nothing.

use vstd::prelude::*;

use crate::chain::ChainDb;
use crate::words::H256;
use crate::QueryError;

verus! {

/// A block number selector of the storage-side type system.
#[derive(Clone, Copy)]
pub enum BlockSelector {
    Latest,
    Earliest,
    Pending,
    Number(u64),
}

/// A block identifier: a number selector or a block hash.
pub enum BlockId {
    Number(BlockSelector),
    Hash(H256),
}

impl BlockId {
    pub open spec fn wf(&self) -> bool {
        match self {
            BlockId::Number(_) => true,
            BlockId::Hash(h) => h.wf(),
        }
    }
}

/// A resolved reference to a canonical block; valid only as of the query
/// that produced it.
pub struct CanonicalBlockRef {
    pub number: u64,
    pub hash: H256,
}

impl CanonicalBlockRef {
    pub open spec fn wf(&self) -> bool {
        self.hash.wf()
    }
}

/// The height a number selector asks for.
pub open spec fn selector_height(db: ChainDb, sel: BlockSelector) -> u64 {
    match sel {
        BlockSelector::Latest => db.spec_latest_height(),
        BlockSelector::Pending => db.spec_latest_height(),
        BlockSelector::Earliest => 0u64,
        BlockSelector::Number(n) => n,
    }
}

/// What resolution returns: the canonical (number, hash) pair for the
/// identifier, or nothing.
pub open spec fn resolve_spec(db: ChainDb, id: BlockId) -> Option<(u64, Seq<u8>)> {
    match id {
        BlockId::Number(sel) => {
            let n = selector_height(db, sel);
            match db.spec_canonical_hash(n) {
                Some(h) => Some((n, h)),
                None => None,
            }
        },
        BlockId::Hash(h) => {
            if db.has_block(h@) {
                let n = db.spec_block(h@).header.number;
                if db.spec_canonical_hash(n) == Some(h@) {
                    Some((n, h@))
                } else {
                    None
                }
            } else {
                None
            }
        },
    }
}

impl ChainDb {
    /// The height `Latest` resolves to.
    pub fn latest_height(&self) -> (r: u64)
        ensures
            r == self.spec_latest_height(),
    {
        match self.sync_height {
            Some(h) => h,
            None => 0,
        }
    }

    /// Resolve a block identifier to a canonical block reference.
    ///
    /// A single deterministic read against the committed view: no retries.
    /// Fails with `NotFound` exactly when the identifier names no block that
    /// is canonical as of this view — a height beyond the tip, an unknown
    /// hash, or the hash of an orphaned block.
    pub fn resolve(&self, id: &BlockId) -> (r: Result<CanonicalBlockRef, QueryError>)
        requires
            self.wf(),
        ensures
            match r {
                Ok(c) => resolve_spec(*self, *id) == Some((c.number, c.hash@)) && c.wf(),
                Err(e) => e == QueryError::NotFound && resolve_spec(*self, *id) is None,
            },
    {
        match id {
            BlockId::Number(sel) => {
                let n: u64 = match sel {
                    BlockSelector::Latest => self.latest_height(),
                    BlockSelector::Pending => self.latest_height(),
                    BlockSelector::Earliest => 0,
                    BlockSelector::Number(x) => *x,
                };
                match self.canonical_hash(n) {
                    Some(h) => Ok(CanonicalBlockRef { number: n, hash: h }),
                    None => Err(QueryError::NotFound),
                }
            },
            BlockId::Hash(h) => {
                match self.find_block(h) {
                    Some(b) => {
                        let n = b.header.number;
                        match self.canonical_hash(n) {
                            Some(ch) => {
                                if ch.eq_value(h) {
                                    Ok(CanonicalBlockRef { number: n, hash: h.dup() })
                                } else {
                                    Err(QueryError::NotFound)
                                }
                            },
                            None => Err(QueryError::NotFound),
                        }
                    },
                    None => Err(QueryError::NotFound),
                }
            },
        }
    }
}

/// `resolve(Earliest)` returns block 0 of any chain whose canonical index is
/// non-empty, whatever else the view holds.
pub proof fn lemma_resolve_earliest(db: ChainDb)
    requires
        db.canonical@.len() > 0,
    ensures
        resolve_spec(db, BlockId::Number(BlockSelector::Earliest)) == Some(
            (0u64, db.canonical@[0]@),
        ),
{
}

/// The hash of a stored block that is no longer canonical at its height
/// resolves to nothing.
pub proof fn lemma_resolve_orphaned_hash(db: ChainDb, h: H256)
    requires
        db.has_block(h@),
        db.spec_canonical_hash(db.spec_block(h@).header.number) != Some(h@),
    ensures
        resolve_spec(db, BlockId::Hash(h)) is None,
{
}

} // verus!
