//! The storage-side RPC view of transactions and blocks: what a node
//! reports for `get_transaction_by_hash` and `get_block`, before the
//! adapter translates it into the client-side type system.

use vstd::prelude::*;

use crate::chain::{StoredBlock, TxAction, TxRecord, UncleRecord};
use crate::words::{copy_bytes, Address, Bloom, H256, H64, StorageU256};

verus! {

/// A transaction as a node lists it: flattened, with the fee-market fee cap
/// standing in for the gas price of that shape.
pub struct Transaction {
    pub hash: H256,
    pub nonce: u64,
    pub block_hash: Option<H256>,
    pub block_number: Option<u64>,
    pub from: Address,
    pub gas: u64,
    pub gas_price: StorageU256,
    pub input: Vec<u8>,
    pub to: Option<Address>,
    pub transaction_index: Option<u64>,
    pub value: StorageU256,
    pub v: u64,
    pub r: H256,
    pub s: H256,
}

impl Transaction {
    pub open spec fn wf(&self) -> bool {
        &&& self.hash.wf()
        &&& self.from.wf()
        &&& self.gas_price.wf()
        &&& match self.to {
            Some(a) => a.wf(),
            None => true,
        }
        &&& self.value.wf()
        &&& self.r.wf()
        &&& self.s.wf()
    }
}

/// The listing a stored transaction produces at position `index` of the
/// canonical block `block_hash`/`block_number`.
pub open spec fn tx_matches(
    t: Transaction,
    rec: TxRecord,
    block_hash: Seq<u8>,
    block_number: u64,
    index: u64,
) -> bool {
    &&& t.hash@ == rec.hash@
    &&& t.nonce == rec.message.spec_nonce()
    &&& t.block_hash matches Some(h) && h@ == block_hash
    &&& t.block_number == Some(block_number)
    &&& t.from@ == rec.sender@
    &&& t.gas == rec.message.spec_gas_limit()
    &&& t.gas_price@ == rec.message.spec_display_price()
    &&& t.input@ == rec.message.spec_input()
    &&& match rec.message.spec_action() {
        TxAction::Create => t.to is None,
        TxAction::Call(a) => t.to matches Some(b) && b@ == a@,
    }
    &&& t.transaction_index == Some(index)
    &&& t.value@ == rec.message.spec_value()@
    &&& t.v == rec.v
    &&& t.r@ == rec.r@
    &&& t.s@ == rec.s@
}

/// Build the listing of one stored transaction.
pub fn build_transaction(
    rec: &TxRecord,
    block_hash: &H256,
    block_number: u64,
    index: u64,
) -> (t: Transaction)
    requires
        rec.wf(),
        block_hash.wf(),
    ensures
        tx_matches(t, *rec, block_hash@, block_number, index),
        t.wf(),
{
    let gas_price = match &rec.message {
        crate::chain::TxMessage::Legacy { gas_price, .. } => gas_price.dup(),
        crate::chain::TxMessage::AccessList { gas_price, .. } => gas_price.dup(),
        crate::chain::TxMessage::FeeMarket { max_fee_per_gas, .. } => max_fee_per_gas.dup(),
    };
    let input = match &rec.message {
        crate::chain::TxMessage::Legacy { input, .. } => copy_bytes(input),
        crate::chain::TxMessage::AccessList { input, .. } => copy_bytes(input),
        crate::chain::TxMessage::FeeMarket { input, .. } => copy_bytes(input),
    };
    let value = match &rec.message {
        crate::chain::TxMessage::Legacy { value, .. } => value.dup(),
        crate::chain::TxMessage::AccessList { value, .. } => value.dup(),
        crate::chain::TxMessage::FeeMarket { value, .. } => value.dup(),
    };
    Transaction {
        hash: rec.hash.dup(),
        nonce: rec.message.nonce(),
        block_hash: Some(block_hash.dup()),
        block_number: Some(block_number),
        from: rec.sender.dup(),
        gas: rec.message.gas_limit(),
        gas_price,
        input,
        to: rec.message.recipient(),
        transaction_index: Some(index),
        value,
        v: rec.v,
        r: rec.r.dup(),
        s: rec.s.dup(),
    }
}

/// A transaction entry of a block listing: the bare hash, or the full
/// listing when the caller asked for transactions.
pub enum Tx {
    Hash(H256),
    Full(Transaction),
}

/// A block as a node lists it.
pub struct Block {
    pub hash: Option<H256>,
    pub parent_hash: H256,
    pub sha3_uncles: H256,
    pub miner: Address,
    pub state_root: H256,
    pub transactions_root: H256,
    pub receipts_root: H256,
    pub number: Option<u64>,
    pub gas_used: u64,
    pub gas_limit: u64,
    pub extra_data: Vec<u8>,
    pub logs_bloom: Option<Bloom>,
    pub timestamp: u64,
    pub difficulty: StorageU256,
    pub total_difficulty: Option<StorageU256>,
    pub transactions: Vec<Tx>,
    pub uncles: Vec<H256>,
    pub size: u64,
    pub mix_hash: H256,
    pub nonce: Option<H64>,
    pub base_fee_per_gas: Option<StorageU256>,
}

/// The listing a stored canonical block produces. With `include_txs` the
/// transaction entries are full listings in body order; without it they are
/// the transaction hashes, in the same order. The uncle entries are always
/// the uncle hashes.
pub open spec fn block_matches(b: Block, sb: StoredBlock, include_txs: bool) -> bool {
    &&& b.hash matches Some(h) && h@ == sb.hash@
    &&& b.parent_hash@ == sb.header.parent_hash@
    &&& b.sha3_uncles@ == sb.header.ommers_hash@
    &&& b.miner@ == sb.header.beneficiary@
    &&& b.state_root@ == sb.header.state_root@
    &&& b.transactions_root@ == sb.header.transactions_root@
    &&& b.receipts_root@ == sb.header.receipts_root@
    &&& b.number == Some(sb.header.number)
    &&& b.gas_used == sb.header.gas_used
    &&& b.gas_limit == sb.header.gas_limit
    &&& b.extra_data@ == sb.header.extra_data@
    &&& b.logs_bloom matches Some(lb) && lb@ == sb.header.logs_bloom@
    &&& b.timestamp == sb.header.timestamp
    &&& b.difficulty@ == sb.header.difficulty@
    &&& b.total_difficulty matches Some(td) && td@ == sb.total_difficulty@
    &&& b.transactions@.len() == sb.body.transactions@.len()
    &&& (forall|i: int|
        0 <= i < b.transactions@.len() ==> {
            if include_txs {
                (#[trigger] b.transactions@[i]) matches Tx::Full(t) && tx_matches(
                    t,
                    sb.body.transactions@[i],
                    sb.hash@,
                    sb.header.number,
                    i as u64,
                )
            } else {
                (#[trigger] b.transactions@[i]) matches Tx::Hash(h) && h@
                    == sb.body.transactions@[i].hash@
            }
        })
    &&& b.uncles@.len() == sb.body.uncles@.len()
    &&& (forall|i: int|
        0 <= i < b.uncles@.len() ==> (#[trigger] b.uncles@[i])@ == sb.body.uncles@[i].hash@)
    &&& b.size == sb.size
    &&& b.mix_hash@ == sb.header.mix_hash@
    &&& b.nonce matches Some(n) && n@ == sb.header.nonce@
    &&& match sb.header.base_fee_per_gas {
        Some(f) => b.base_fee_per_gas matches Some(g) && g@ == f@,
        None => b.base_fee_per_gas is None,
    }
}

/// Build the listing of a stored canonical block.
pub fn build_block(sb: &StoredBlock, include_txs: bool) -> (b: Block)
    requires
        sb.wf(),
    ensures
        block_matches(b, *sb, include_txs),
{
    let n = sb.body.transactions.len();
    let mut txs: Vec<Tx> = Vec::new();
    let mut i: usize = 0;
    while i < n
        invariant
            sb.wf(),
            i <= n,
            n == sb.body.transactions@.len(),
            n <= u64::MAX,
            txs@.len() == i,
            forall|k: int|
                0 <= k < i ==> {
                    if include_txs {
                        (#[trigger] txs@[k]) matches Tx::Full(t) && tx_matches(
                            t,
                            sb.body.transactions@[k],
                            sb.hash@,
                            sb.header.number,
                            k as u64,
                        )
                    } else {
                        (#[trigger] txs@[k]) matches Tx::Hash(h) && h@
                            == sb.body.transactions@[k].hash@
                    }
                },
        decreases n - i,
    {
        let rec = &sb.body.transactions[i];
        if include_txs {
            txs.push(Tx::Full(build_transaction(rec, &sb.hash, sb.header.number, i as u64)));
        } else {
            txs.push(Tx::Hash(rec.hash.dup()));
        }
        i = i + 1;
    }
    let un = sb.body.uncles.len();
    let mut uncles: Vec<H256> = Vec::new();
    let mut u: usize = 0;
    while u < un
        invariant
            sb.wf(),
            u <= un,
            un == sb.body.uncles@.len(),
            uncles@.len() == u,
            forall|k: int|
                0 <= k < u ==> (#[trigger] uncles@[k])@ == sb.body.uncles@[k].hash@,
        decreases un - u,
    {
        uncles.push(sb.body.uncles[u].hash.dup());
        u = u + 1;
    }
    Block {
        hash: Some(sb.hash.dup()),
        parent_hash: sb.header.parent_hash.dup(),
        sha3_uncles: sb.header.ommers_hash.dup(),
        miner: sb.header.beneficiary.dup(),
        state_root: sb.header.state_root.dup(),
        transactions_root: sb.header.transactions_root.dup(),
        receipts_root: sb.header.receipts_root.dup(),
        number: Some(sb.header.number),
        gas_used: sb.header.gas_used,
        gas_limit: sb.header.gas_limit,
        extra_data: copy_bytes(&sb.header.extra_data),
        logs_bloom: Some(sb.header.logs_bloom.dup()),
        timestamp: sb.header.timestamp,
        difficulty: sb.header.difficulty.dup(),
        total_difficulty: Some(sb.total_difficulty.dup()),
        transactions: txs,
        uncles,
        size: sb.size,
        mix_hash: sb.header.mix_hash.dup(),
        nonce: Some(sb.header.nonce.dup()),
        base_fee_per_gas: match &sb.header.base_fee_per_gas {
            Some(f) => Some(f.dup()),
            None => None,
        },
    }
}

/// The listing an uncle header produces: the header's own fields under the
/// uncle's stored hash, with no transactions, no uncles of its own, and no
/// codec- or consensus-derived extras.
pub open spec fn uncle_block_matches(b: Block, u: UncleRecord) -> bool {
    &&& b.hash matches Some(h) && h@ == u.hash@
    &&& b.parent_hash@ == u.header.parent_hash@
    &&& b.sha3_uncles@ == u.header.ommers_hash@
    &&& b.miner@ == u.header.beneficiary@
    &&& b.state_root@ == u.header.state_root@
    &&& b.transactions_root@ == u.header.transactions_root@
    &&& b.receipts_root@ == u.header.receipts_root@
    &&& b.number == Some(u.header.number)
    &&& b.gas_used == u.header.gas_used
    &&& b.gas_limit == u.header.gas_limit
    &&& b.extra_data@ == u.header.extra_data@
    &&& b.logs_bloom matches Some(lb) && lb@ == u.header.logs_bloom@
    &&& b.timestamp == u.header.timestamp
    &&& b.difficulty@ == u.header.difficulty@
    &&& b.total_difficulty is None
    &&& b.transactions@.len() == 0
    &&& b.uncles@.len() == 0
    &&& b.size == 0
    &&& b.mix_hash@ == u.header.mix_hash@
    &&& b.nonce matches Some(n) && n@ == u.header.nonce@
    &&& match u.header.base_fee_per_gas {
        Some(f) => b.base_fee_per_gas matches Some(g) && g@ == f@,
        None => b.base_fee_per_gas is None,
    }
}

/// Build the listing of one uncle header.
pub fn build_uncle_block(u: &UncleRecord) -> (b: Block)
    requires
        u.wf(),
    ensures
        uncle_block_matches(b, *u),
{
    Block {
        hash: Some(u.hash.dup()),
        parent_hash: u.header.parent_hash.dup(),
        sha3_uncles: u.header.ommers_hash.dup(),
        miner: u.header.beneficiary.dup(),
        state_root: u.header.state_root.dup(),
        transactions_root: u.header.transactions_root.dup(),
        receipts_root: u.header.receipts_root.dup(),
        number: Some(u.header.number),
        gas_used: u.header.gas_used,
        gas_limit: u.header.gas_limit,
        extra_data: copy_bytes(&u.header.extra_data),
        logs_bloom: Some(u.header.logs_bloom.dup()),
        timestamp: u.header.timestamp,
        difficulty: u.header.difficulty.dup(),
        total_difficulty: None,
        transactions: Vec::new(),
        uncles: Vec::new(),
        size: 0,
        mix_hash: u.header.mix_hash.dup(),
        nonce: Some(u.header.nonce.dup()),
        base_fee_per_gas: match &u.header.base_fee_per_gas {
            Some(f) => Some(f.dup()),
            None => None,
        },
    }
}

} // verus!
