//! The query interface over a committed chain view: every outward-facing
//! operation the node exposes to the client-library adapter.
//!
//! Each operation re-resolves its block identifier against the view it was
//! handed (nothing is cached across calls), reads through a height-scoped
//! snapshot, and never mutates anything. Ordinary absence (an unknown
//! transaction, an unresolvable block on a fetch) is `None`, never an
//! error; everything else is a [`QueryError`].
//!
//! The EVM is an external collaborator: `call` and `estimate_gas` prepare
//! the synthetic message here (`prepare_call`), and take what the engine
//! reported for it as an [`ExecOutcome`] argument, so their accounting is
//! verified for every value the engine could return.

use vstd::prelude::*;

use crate::call::{build_call_message, build_message_spec, CallMessage, CallMessageView,
    ExecOutcome, MessageCall};
use crate::chain::ChainDb;
use crate::jsonrpc::{block_matches, build_block, build_transaction, build_uncle_block,
    tx_matches, uncle_block_matches, Block, Transaction};
use crate::receipts::{build_receipt, receipt_matches, TransactionReceipt};
use crate::resolve::{resolve_spec, BlockId, BlockSelector, CanonicalBlockRef};
use crate::state::{account_at, balance_at, code_at, nonce_at, slot_at};
use crate::words::{copy_bytes, zero_u256_bytes, Address, StorageU256, H256};
use crate::QueryError;

verus! {

/// Read-only query access to a committed chain view, with the configured
/// gas ceiling for synthetic calls.
pub struct DbWrapper {
    pub db: ChainDb,
    pub call_gas_limit: u64,
}

/// Everything `prepare_call` derives before the execution engine runs: the
/// canonical block, the chain id, the block's own gas limit, and the
/// synthetic message.
pub struct CallEnv {
    pub block: CanonicalBlockRef,
    pub chain_id: u64,
    pub block_gas_limit: u64,
    pub message: CallMessage,
}

/// What call preparation yields: the message, or the exact error. The
/// identifier must resolve (`NotFound`), a chain configuration must exist
/// (`ChainSpecMissing`), the resolved block must be stored
/// (`Inconsistency`), and the parameters must name a recipient
/// (`ConversionError`).
pub open spec fn prepare_call_spec(
    w: DbWrapper,
    call: MessageCall,
    id: BlockId,
    gas_ceiling: Option<u64>,
) -> Result<CallMessageView, QueryError> {
    match resolve_spec(w.db, id) {
        None => Err(QueryError::NotFound),
        Some((number, hash)) => {
            if w.db.config is None {
                Err(QueryError::ChainSpecMissing)
            } else if !w.db.has_block(hash) {
                Err(QueryError::Inconsistency)
            } else {
                let header = w.db.spec_block(hash).header;
                let default_gas = match gas_ceiling {
                    Some(g) => g,
                    None => header.gas_limit,
                };
                match build_message_spec(w.db, call, number, default_gas) {
                    None => Err(QueryError::ConversionError),
                    Some(m) => Ok(m),
                }
            }
        },
    }
}

/// The gas limit of the block an estimate runs against; meaningful when the
/// identifier resolves to a stored block.
pub open spec fn resolved_gas_limit(db: ChainDb, id: BlockId) -> u64 {
    match resolve_spec(db, id) {
        Some((number, hash)) => db.spec_block(hash).header.gas_limit,
        None => 0u64,
    }
}

/// Snapshot isolation of the call path: an estimate (or call) prepared at
/// a height reads nothing that later blocks wrote. If a second view extends
/// the first — same stored block at that height, a canonical index that
/// grew only above it, the same configuration, and the same account writes
/// at heights up to it — then preparation yields the very same message,
/// whatever was appended above the height.
pub proof fn lemma_prepare_ignores_later_state(
    w1: DbWrapper,
    w2: DbWrapper,
    call: MessageCall,
    height: u64,
    gas_ceiling: Option<u64>,
)
    requires
        w1.call_gas_limit == w2.call_gas_limit,
        w1.db.config == w2.db.config,
        height < w1.db.canonical@.len(),
        w1.db.canonical@.len() <= w2.db.canonical@.len(),
        w2.db.canonical@.take(w1.db.canonical@.len() as int) == w1.db.canonical@,
        w1.db.has_block(w1.db.canonical@[height as int]@) <==> w2.db.has_block(
            w1.db.canonical@[height as int]@,
        ),
        w1.db.has_block(w1.db.canonical@[height as int]@) ==> w2.db.spec_block(
            w1.db.canonical@[height as int]@,
        ) == w1.db.spec_block(w1.db.canonical@[height as int]@),
        crate::state::account_writes_up_to(w1.db.account_writes@, height)
            == crate::state::account_writes_up_to(w2.db.account_writes@, height),
    ensures
        prepare_call_spec(
            w1,
            call,
            BlockId::Number(BlockSelector::Number(height)),
            gas_ceiling,
        ) == prepare_call_spec(
            w2,
            call,
            BlockId::Number(BlockSelector::Number(height)),
            gas_ceiling,
        ),
{
    let id = BlockId::Number(BlockSelector::Number(height));
    assert(w2.db.canonical@[height as int] == w1.db.canonical@[height as int]);
    let ch = w1.db.canonical@[height as int]@;
    assert(resolve_spec(w1.db, id) == Some((height, ch)));
    assert(resolve_spec(w2.db, id) == Some((height, ch)));
    if w1.db.config is None {
    } else if !w1.db.has_block(ch) {
    } else {
        crate::state::lemma_snapshot_isolation_account(
            w1.db.account_writes@,
            w2.db.account_writes@,
            call.spec_sender_bytes(),
            height,
        );
        assert(crate::state::nonce_at(w1.db.account_writes@, call.spec_sender_bytes(), height)
            == crate::state::nonce_at(w2.db.account_writes@, call.spec_sender_bytes(), height));
        let header = w1.db.spec_block(ch).header;
        let default_gas = match gas_ceiling {
            Some(g) => g,
            None => header.gas_limit,
        };
        assert(build_message_spec(w1.db, call, height, default_gas) == build_message_spec(
            w2.db,
            call,
            height,
            default_gas,
        ));
    }
}

impl DbWrapper {
    pub fn new(db: ChainDb, call_gas_limit: u64) -> (r: Self)
        ensures
            r.db == db,
            r.call_gas_limit == call_gas_limit,
    {
        DbWrapper { db, call_gas_limit }
    }

    /// The chain height: the finished-sync-stage cursor, or 0 when the
    /// cursor was never written.
    pub fn block_number(&self) -> (r: u64)
        ensures
            r == self.db.spec_latest_height(),
    {
        self.db.latest_height()
    }

    /// Resolve the block, open the height-scoped snapshot, and build the
    /// synthetic message with the given gas default (`None` means the
    /// block's own gas limit). This is everything a call derives before
    /// the execution engine runs.
    pub fn prepare_call(
        &self,
        call_data: &MessageCall,
        block_id: &BlockId,
        gas_ceiling: Option<u64>,
    ) -> (r: Result<CallEnv, QueryError>)
        requires
            self.db.wf(),
            call_data.wf(),
        ensures
            match r {
                Ok(env) => {
                    &&& prepare_call_spec(*self, *call_data, *block_id, gas_ceiling) == Ok::<
                        _,
                        QueryError,
                    >(env.message@)
                    &&& resolve_spec(self.db, *block_id) == Some(
                        (env.block.number, env.block.hash@),
                    )
                    &&& self.db.config matches Some(c) && env.chain_id == c.chain_id
                    &&& env.block_gas_limit == resolved_gas_limit(self.db, *block_id)
                    &&& env.message.wf()
                    &&& env.block.wf()
                },
                Err(e) => prepare_call_spec(*self, *call_data, *block_id, gas_ceiling) == Err::<
                    CallMessageView,
                    _,
                >(e),
            },
    {
        let block = match self.db.resolve(block_id) {
            Ok(c) => c,
            Err(e) => {
                return Err(e);
            },
        };
        let chain_id = match &self.db.config {
            Some(s) => s.chain_id,
            None => {
                return Err(QueryError::ChainSpecMissing);
            },
        };
        let stored = match self.db.find_block(&block.hash) {
            Some(b) => b,
            None => {
                return Err(QueryError::Inconsistency);
            },
        };
        let block_gas_limit = stored.header.gas_limit;
        let default_gas = match gas_ceiling {
            Some(g) => g,
            None => block_gas_limit,
        };
        let message = match build_call_message(&self.db, call_data, block.number, default_gas) {
            Ok(m) => m,
            Err(e) => {
                return Err(e);
            },
        };
        Ok(CallEnv { block, chain_id, block_gas_limit, message })
    }

    /// Execute a synthetic call: prepare the message against the resolved
    /// snapshot (gas defaults to the configured call ceiling) and return
    /// the bytes the execution engine reported for it. A revert is an
    /// engine-level result reflected in the outcome, not an error here.
    pub fn call(
        &self,
        call_data: &MessageCall,
        block_id: &BlockId,
        outcome: &ExecOutcome,
    ) -> (r: Result<Vec<u8>, QueryError>)
        requires
            self.db.wf(),
            call_data.wf(),
        ensures
            match r {
                Ok(out) => prepare_call_spec(
                    *self,
                    *call_data,
                    *block_id,
                    Some(self.call_gas_limit),
                ) is Ok && out@ == outcome.output@,
                Err(e) => prepare_call_spec(
                    *self,
                    *call_data,
                    *block_id,
                    Some(self.call_gas_limit),
                ) == Err::<CallMessageView, _>(e),
            },
    {
        match self.prepare_call(call_data, block_id, Some(self.call_gas_limit)) {
            Ok(_) => Ok(copy_bytes(&outcome.output)),
            Err(e) => Err(e),
        }
    }

    /// Estimate gas by a single direct execution, not a binary search: the
    /// message's gas defaults to the target block's full gas limit, and the
    /// estimate is that limit minus the gas the engine left. An outcome
    /// reporting more gas left than the block limit is a setup failure.
    pub fn estimate_gas(
        &self,
        call_data: &MessageCall,
        block_number: &BlockSelector,
        outcome: &ExecOutcome,
    ) -> (r: Result<u64, QueryError>)
        requires
            self.db.wf(),
            call_data.wf(),
        ensures
            match r {
                Ok(g) => {
                    &&& prepare_call_spec(
                        *self,
                        *call_data,
                        BlockId::Number(*block_number),
                        None,
                    ) is Ok
                    &&& outcome.gas_left <= resolved_gas_limit(
                        self.db,
                        BlockId::Number(*block_number),
                    )
                    &&& g == resolved_gas_limit(self.db, BlockId::Number(*block_number))
                        - outcome.gas_left
                },
                Err(e) => {
                    ||| prepare_call_spec(*self, *call_data, BlockId::Number(*block_number), None)
                        == Err::<CallMessageView, _>(e)
                    ||| (prepare_call_spec(
                        *self,
                        *call_data,
                        BlockId::Number(*block_number),
                        None,
                    ) is Ok && outcome.gas_left > resolved_gas_limit(
                        self.db,
                        BlockId::Number(*block_number),
                    ) && e == QueryError::ExecutionError)
                },
            },
    {
        let id = BlockId::Number(*block_number);
        match self.prepare_call(call_data, &id, None) {
            Ok(env) => {
                if outcome.gas_left <= env.block_gas_limit {
                    Ok(env.block_gas_limit - outcome.gas_left)
                } else {
                    Err(QueryError::ExecutionError)
                }
            },
            Err(e) => Err(e),
        }
    }

    /// The balance visible at the resolved height; zero for an account
    /// never observed there.
    pub fn get_balance(&self, address: &Address, block_id: &BlockId) -> (r: Result<
        StorageU256,
        QueryError,
    >)
        requires
            self.db.wf(),
        ensures
            match r {
                Ok(v) => resolve_spec(self.db, *block_id) matches Some(p) && v@ == balance_at(
                    self.db.account_writes@,
                    address@,
                    p.0,
                ) && v.wf(),
                Err(e) => e == QueryError::NotFound && resolve_spec(self.db, *block_id) is None,
            },
    {
        let block = match self.db.resolve(block_id) {
            Ok(c) => c,
            Err(e) => {
                return Err(e);
            },
        };
        match self.db.read_account(address, block.number) {
            Some(a) => Ok(a.balance),
            None => Ok(StorageU256::zero()),
        }
    }

    /// The code of the account visible at the resolved height: empty for an
    /// absent account; a stored account whose code hash has no code entry
    /// is an index inconsistency.
    pub fn get_code(&self, address: &Address, block_id: &BlockId) -> (r: Result<
        Vec<u8>,
        QueryError,
    >)
        requires
            self.db.wf(),
        ensures
            match r {
                Ok(c) => resolve_spec(self.db, *block_id) matches Some(p) && match account_at(
                    self.db.account_writes@,
                    address@,
                    p.0,
                ) {
                    Some(a) => code_at(self.db.code@, a.code_hash) == Some(c@),
                    None => c@ == Seq::<u8>::empty(),
                },
                Err(e) => {
                    ||| (e == QueryError::NotFound && resolve_spec(self.db, *block_id) is None)
                    ||| (e == QueryError::Inconsistency && (resolve_spec(self.db, *block_id)
                        matches Some(p) && (account_at(self.db.account_writes@, address@, p.0)
                        matches Some(a) && code_at(self.db.code@, a.code_hash) is None)))
                },
            },
    {
        let block = match self.db.resolve(block_id) {
            Ok(c) => c,
            Err(e) => {
                return Err(e);
            },
        };
        match self.db.read_account(address, block.number) {
            Some(a) => {
                match self.db.read_code(&a.code_hash) {
                    Some(code) => Ok(code),
                    None => Err(QueryError::Inconsistency),
                }
            },
            None => Ok(Vec::new()),
        }
    }

    /// The storage slot visible at the resolved height; zero for a slot
    /// never written.
    pub fn get_storage_at(
        &self,
        address: &Address,
        key: &StorageU256,
        block_id: &BlockId,
    ) -> (r: Result<StorageU256, QueryError>)
        requires
            self.db.wf(),
        ensures
            match r {
                Ok(v) => resolve_spec(self.db, *block_id) matches Some(p) && v.wf() && match slot_at(
                    self.db.storage_writes@,
                    address@,
                    key@,
                    p.0,
                ) {
                    Some(x) => v@ == x,
                    None => v@ == zero_u256_bytes(),
                },
                Err(e) => e == QueryError::NotFound && resolve_spec(self.db, *block_id) is None,
            },
    {
        let block = match self.db.resolve(block_id) {
            Ok(c) => c,
            Err(e) => {
                return Err(e);
            },
        };
        Ok(self.db.read_storage(address, key, block.number))
    }

    /// The nonce visible at the resolved height; zero for an account never
    /// observed there.
    pub fn get_transaction_count(&self, address: &Address, block_id: &BlockId) -> (r: Result<
        u64,
        QueryError,
    >)
        requires
            self.db.wf(),
        ensures
            match r {
                Ok(n) => resolve_spec(self.db, *block_id) matches Some(p) && n == nonce_at(
                    self.db.account_writes@,
                    address@,
                    p.0,
                ),
                Err(e) => e == QueryError::NotFound && resolve_spec(self.db, *block_id) is None,
            },
    {
        let block = match self.db.resolve(block_id) {
            Ok(c) => c,
            Err(e) => {
                return Err(e);
            },
        };
        match self.db.read_account(address, block.number) {
            Some(a) => Ok(a.nonce),
            None => Ok(0),
        }
    }

    /// List a block, with full transactions or bare hashes. An identifier
    /// that resolves to nothing is ordinary absence (`None`); a canonical
    /// hash whose block is not stored is an index inconsistency.
    pub fn get_block(&self, block_id: &BlockId, include_txs: bool) -> (r: Result<
        Option<Block>,
        QueryError,
    >)
        requires
            self.db.wf(),
        ensures
            match r {
                Ok(None) => resolve_spec(self.db, *block_id) is None,
                Ok(Some(b)) => resolve_spec(self.db, *block_id) matches Some(p)
                    && self.db.has_block(p.1) && block_matches(
                    b,
                    self.db.spec_block(p.1),
                    include_txs,
                ),
                Err(e) => e == QueryError::Inconsistency && (resolve_spec(self.db, *block_id)
                    matches Some(p) && !self.db.has_block(p.1)),
            },
    {
        let block = match self.db.resolve(block_id) {
            Ok(c) => c,
            Err(_) => {
                return Ok(None);
            },
        };
        match self.db.find_block(&block.hash) {
            Some(sb) => Ok(Some(build_block(sb, include_txs))),
            None => Err(QueryError::Inconsistency),
        }
    }

    /// Look a transaction up by hash. An unknown hash is ordinary absence;
    /// a lookup entry whose block or transaction cannot be found where the
    /// index said is an inconsistency.
    pub fn get_transaction_by_hash(&self, hash: &H256) -> (r: Result<
        Option<Transaction>,
        QueryError,
    >)
        requires
            self.db.wf(),
        ensures
            match r {
                Ok(None) => self.db.spec_tx_lookup(hash@) is None,
                Ok(Some(t)) => self.db.spec_tx_lookup(hash@) matches Some(number)
                    && self.db.spec_canonical_hash(number) matches Some(ch) && self.db.has_block(
                    ch,
                ) && self.db.spec_block(ch).body.has_tx(hash@) && tx_matches(
                    t,
                    self.db.spec_block(ch).body.transactions@[self.db.spec_block(
                        ch,
                    ).body.spec_tx_idx(hash@)],
                    ch,
                    number,
                    self.db.spec_block(ch).body.spec_tx_idx(hash@) as u64,
                ) && t.wf(),
                Err(e) => e == QueryError::Inconsistency && (self.db.spec_tx_lookup(hash@)
                    matches Some(number) && {
                    ||| self.db.spec_canonical_hash(number) is None
                    ||| (self.db.spec_canonical_hash(number) matches Some(ch)
                        && !self.db.has_block(ch))
                    ||| (self.db.spec_canonical_hash(number) matches Some(ch)
                        && self.db.has_block(ch) && !self.db.spec_block(ch).body.has_tx(hash@))
                }),
            },
    {
        let number = match self.db.read_tx_lookup(hash) {
            Some(n) => n,
            None => {
                return Ok(None);
            },
        };
        let block_hash = match self.db.canonical_hash(number) {
            Some(h) => h,
            None => {
                return Err(QueryError::Inconsistency);
            },
        };
        let stored = match self.db.find_block(&block_hash) {
            Some(b) => b,
            None => {
                return Err(QueryError::Inconsistency);
            },
        };
        let index = match stored.body.find_tx_index(hash) {
            Some(i) => i,
            None => {
                return Err(QueryError::Inconsistency);
            },
        };
        let rec = &stored.body.transactions[index];
        Ok(Some(build_transaction(rec, &stored.hash, number, index as u64)))
    }

    /// Reconstruct a transaction's receipt by replaying its block up to and
    /// including its index. An unknown hash is ordinary absence, not an
    /// error; an index that points at a block which no longer carries the
    /// transaction is an inconsistency.
    pub fn get_transaction_receipt(&self, hash: &H256) -> (r: Result<
        Option<TransactionReceipt>,
        QueryError,
    >)
        requires
            self.db.wf(),
        ensures
            match r {
                Ok(None) => self.db.spec_tx_lookup(hash@) is None,
                Ok(Some(rcpt)) => self.db.spec_tx_lookup(hash@) matches Some(number)
                    && self.db.spec_canonical_hash(number) matches Some(ch) && self.db.has_block(
                    ch,
                ) && self.db.config is Some && self.db.spec_block(ch).body.has_tx(hash@)
                    && receipt_matches(
                    rcpt,
                    self.db.spec_block(ch),
                    self.db.spec_block(ch).body.spec_tx_idx(hash@),
                ),
                Err(e) => self.db.spec_tx_lookup(hash@) matches Some(number) && {
                    ||| (e == QueryError::Inconsistency && self.db.spec_canonical_hash(number)
                        is None)
                    ||| (e == QueryError::Inconsistency && (self.db.spec_canonical_hash(number)
                        matches Some(ch) && !self.db.has_block(ch)))
                    ||| (e == QueryError::ChainSpecMissing && (self.db.spec_canonical_hash(number)
                        matches Some(ch) && self.db.has_block(ch) && self.db.config is None))
                    ||| (e == QueryError::Inconsistency && (self.db.spec_canonical_hash(number)
                        matches Some(ch) && self.db.has_block(ch) && self.db.config is Some
                        && !self.db.spec_block(ch).body.has_tx(hash@)))
                },
            },
    {
        let number = match self.db.read_tx_lookup(hash) {
            Some(n) => n,
            None => {
                return Ok(None);
            },
        };
        let block_hash = match self.db.canonical_hash(number) {
            Some(h) => h,
            None => {
                return Err(QueryError::Inconsistency);
            },
        };
        let stored = match self.db.find_block(&block_hash) {
            Some(b) => b,
            None => {
                return Err(QueryError::Inconsistency);
            },
        };
        if self.db.config.is_none() {
            return Err(QueryError::ChainSpecMissing);
        }
        let index = match stored.body.find_tx_index(hash) {
            Some(i) => i,
            None => {
                return Err(QueryError::Inconsistency);
            },
        };
        Ok(Some(build_receipt(stored, index)))
    }

    /// List one uncle of a block. An unresolvable identifier or an index
    /// past the uncle list is ordinary absence.
    pub fn get_uncle_by_block_number_and_index(&self, block_id: &BlockId, index: u64) -> (r:
        Result<Option<Block>, QueryError>)
        requires
            self.db.wf(),
        ensures
            match r {
                Ok(None) => {
                    ||| resolve_spec(self.db, *block_id) is None
                    ||| (resolve_spec(self.db, *block_id) matches Some(p) && self.db.has_block(
                        p.1,
                    ) && index >= self.db.spec_block(p.1).body.uncles@.len())
                },
                Ok(Some(b)) => resolve_spec(self.db, *block_id) matches Some(p)
                    && self.db.has_block(p.1) && index < self.db.spec_block(
                    p.1,
                ).body.uncles@.len() && uncle_block_matches(
                    b,
                    self.db.spec_block(p.1).body.uncles@[index as int],
                ),
                Err(e) => e == QueryError::Inconsistency && (resolve_spec(self.db, *block_id)
                    matches Some(p) && !self.db.has_block(p.1)),
            },
    {
        let block = match self.db.resolve(block_id) {
            Ok(c) => c,
            Err(_) => {
                return Ok(None);
            },
        };
        let stored = match self.db.find_block(&block.hash) {
            Some(b) => b,
            None => {
                return Err(QueryError::Inconsistency);
            },
        };
        let count: u64 = stored.body.uncles.len() as u64;
        if index < count {
            Ok(Some(build_uncle_block(&stored.body.uncles[index as usize])))
        } else {
            Ok(None)
        }
    }

    /// The number of uncles of the resolved block; 0 when the body is not
    /// stored.
    pub fn get_uncle_count(&self, block_id: &BlockId) -> (r: Result<u64, QueryError>)
        requires
            self.db.wf(),
        ensures
            match r {
                Ok(c) => resolve_spec(self.db, *block_id) matches Some(p) && c == (
                if self.db.has_block(p.1) {
                    self.db.spec_block(p.1).body.uncles@.len()
                } else {
                    0
                }),
                Err(e) => e == QueryError::NotFound && resolve_spec(self.db, *block_id) is None,
            },
    {
        let block = match self.db.resolve(block_id) {
            Ok(c) => c,
            Err(e) => {
                return Err(e);
            },
        };
        match self.db.find_block(&block.hash) {
            Some(sb) => Ok(sb.body.uncles.len() as u64),
            None => Ok(0),
        }
    }
}

} // verus!
