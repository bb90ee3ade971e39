//! Block resolution, height-scoped state reads, and block/transaction
//! listings, exercised on small concrete chain views.

use akula_middleware::chain::{
    Account, AccountWrite, BlockBody, ChainDb, ChainSpec, CodeEntry, Header, StorageWrite,
    StoredBlock, TxAction, TxMessage, TxOutcome, TxRecord, UncleRecord,
};
use akula_middleware::db_wrapper::DbWrapper;
use akula_middleware::jsonrpc::Tx;
use akula_middleware::resolve::{BlockId, BlockSelector};
use akula_middleware::words::{Address, Bloom, StorageU256, H256, H64};
use akula_middleware::QueryError;

fn h256(n: u8) -> H256 {
    let mut bytes = vec![0u8; 32];
    bytes[31] = n;
    H256 { bytes }
}

fn addr(n: u8) -> Address {
    let mut bytes = vec![0u8; 20];
    bytes[19] = n;
    Address { bytes }
}

fn su(n: u8) -> StorageU256 {
    let mut bytes = vec![0u8; 32];
    bytes[0] = n;
    StorageU256 { bytes }
}

fn bloom() -> Bloom {
    Bloom { bytes: vec![0u8; 256] }
}

fn header(number: u64, gas_limit: u64) -> Header {
    Header {
        parent_hash: h256(0),
        ommers_hash: h256(0),
        beneficiary: addr(0),
        state_root: h256(0),
        transactions_root: h256(0),
        receipts_root: h256(0),
        logs_bloom: bloom(),
        difficulty: su(1),
        number,
        gas_limit,
        gas_used: 0,
        timestamp: 1_600_000_000 + number,
        extra_data: Vec::new(),
        mix_hash: h256(0),
        nonce: H64 { bytes: vec![0u8; 8] },
        base_fee_per_gas: None,
    }
}

fn legacy_tx(hash: H256, nonce: u64, to: Option<Address>, sender: Address) -> TxRecord {
    TxRecord {
        hash,
        message: TxMessage::Legacy {
            chain_id: Some(1),
            nonce,
            gas_price: su(2),
            gas_limit: 21000,
            action: match to {
                Some(a) => TxAction::Call(a),
                None => TxAction::Create,
            },
            value: su(5),
            input: Vec::new(),
        },
        v: 27,
        r: h256(9),
        s: h256(8),
        sender,
    }
}

fn outcome(gas_used: u64) -> TxOutcome {
    TxOutcome { gas_used, success: true, logs: Vec::new(), bloom: bloom() }
}

fn empty_block(hash: H256, number: u64) -> StoredBlock {
    StoredBlock {
        hash,
        header: header(number, 30_000_000),
        body: BlockBody { transactions: Vec::new(), uncles: Vec::new() },
        outcomes: Vec::new(),
        total_difficulty: su(7),
        size: 500,
    }
}

/// Genesis plus two blocks; block 2 carries one transaction.
fn small_chain() -> ChainDb {
    let tx = legacy_tx(h256(0xAA), 0, Some(addr(2)), addr(1));
    let block2 = StoredBlock {
        hash: h256(12),
        header: header(2, 30_000_000),
        body: BlockBody { transactions: vec![tx], uncles: Vec::new() },
        outcomes: vec![outcome(21000)],
        total_difficulty: su(7),
        size: 700,
    };
    ChainDb {
        blocks: vec![empty_block(h256(10), 0), empty_block(h256(11), 1), block2],
        canonical: vec![h256(10), h256(11), h256(12)],
        tx_lookup: vec![akula_middleware::chain::TxLookupEntry {
            tx_hash: h256(0xAA),
            block_number: 2,
        }],
        account_writes: vec![
            AccountWrite {
                height: 1,
                address: addr(1),
                account: Account { nonce: 4, balance: su(100), code_hash: h256(0xCC) },
            },
            AccountWrite {
                height: 2,
                address: addr(1),
                account: Account { nonce: 5, balance: su(90), code_hash: h256(0xCC) },
            },
        ],
        storage_writes: vec![StorageWrite {
            height: 1,
            address: addr(2),
            key: su(1),
            value: su(42),
        }],
        code: vec![CodeEntry { code_hash: h256(0xCC), code: vec![0x60, 0x00] }],
        sync_height: Some(2),
        config: Some(ChainSpec { chain_id: 1 }),
    }
}

#[test]
fn block_number_reads_sync_cursor() {
    let w = DbWrapper::new(small_chain(), 100_000_000);
    assert_eq!(w.block_number(), 2);
}

#[test]
fn block_number_defaults_to_zero_without_cursor() {
    let mut db = small_chain();
    db.sync_height = None;
    let w = DbWrapper::new(db, 100_000_000);
    assert_eq!(w.block_number(), 0);
}

#[test]
fn resolve_earliest_returns_genesis() {
    let db = small_chain();
    let r = db.resolve(&BlockId::Number(BlockSelector::Earliest)).unwrap();
    assert_eq!(r.number, 0);
    assert_eq!(r.hash.bytes, h256(10).bytes);
}

#[test]
fn resolve_earliest_fails_on_empty_chain() {
    let mut db = small_chain();
    db.canonical = Vec::new();
    assert!(matches!(
        db.resolve(&BlockId::Number(BlockSelector::Earliest)),
        Err(QueryError::NotFound)
    ));
}

#[test]
fn resolve_latest_and_pending_use_cursor() {
    let db = small_chain();
    let latest = db.resolve(&BlockId::Number(BlockSelector::Latest)).unwrap();
    assert_eq!(latest.number, 2);
    let pending = db.resolve(&BlockId::Number(BlockSelector::Pending)).unwrap();
    assert_eq!(pending.number, 2);
}

#[test]
fn resolve_number_beyond_tip_is_not_found() {
    let db = small_chain();
    assert!(matches!(
        db.resolve(&BlockId::Number(BlockSelector::Number(3))),
        Err(QueryError::NotFound)
    ));
}

#[test]
fn resolve_canonical_hash_succeeds() {
    let db = small_chain();
    let r = db.resolve(&BlockId::Hash(h256(11))).unwrap();
    assert_eq!(r.number, 1);
}

#[test]
fn resolve_orphaned_hash_is_not_found() {
    let mut db = small_chain();
    // An orphaned sibling of block 1: stored, but not canonical at height 1.
    db.blocks.push(empty_block(h256(0x5B), 1));
    assert!(matches!(db.resolve(&BlockId::Hash(h256(0x5B))), Err(QueryError::NotFound)));
}

#[test]
fn resolve_unknown_hash_is_not_found() {
    let db = small_chain();
    assert!(matches!(db.resolve(&BlockId::Hash(h256(0x77))), Err(QueryError::NotFound)));
}

#[test]
fn balance_reads_value_at_height() {
    let w = DbWrapper::new(small_chain(), 100_000_000);
    let at1 = w.get_balance(&addr(1), &BlockId::Number(BlockSelector::Number(1))).unwrap();
    assert_eq!(at1.bytes, su(100).bytes);
    let at2 = w.get_balance(&addr(1), &BlockId::Number(BlockSelector::Number(2))).unwrap();
    assert_eq!(at2.bytes, su(90).bytes);
}

#[test]
fn balance_of_unknown_account_is_zero() {
    let w = DbWrapper::new(small_chain(), 100_000_000);
    let v = w.get_balance(&addr(9), &BlockId::Number(BlockSelector::Latest)).unwrap();
    assert_eq!(v.bytes, vec![0u8; 32]);
}

#[test]
fn balance_ignores_later_writes() {
    // A write at height 2 must not leak into a read at height 0.
    let w = DbWrapper::new(small_chain(), 100_000_000);
    let v = w.get_balance(&addr(1), &BlockId::Number(BlockSelector::Number(0))).unwrap();
    assert_eq!(v.bytes, vec![0u8; 32]);
}

#[test]
fn transaction_count_reads_nonce_at_height() {
    let w = DbWrapper::new(small_chain(), 100_000_000);
    assert_eq!(
        w.get_transaction_count(&addr(1), &BlockId::Number(BlockSelector::Number(1))).unwrap(),
        4
    );
    assert_eq!(
        w.get_transaction_count(&addr(1), &BlockId::Number(BlockSelector::Latest)).unwrap(),
        5
    );
    assert_eq!(
        w.get_transaction_count(&addr(9), &BlockId::Number(BlockSelector::Latest)).unwrap(),
        0
    );
}

#[test]
fn storage_read_at_height() {
    let w = DbWrapper::new(small_chain(), 100_000_000);
    let v = w
        .get_storage_at(&addr(2), &su(1), &BlockId::Number(BlockSelector::Latest))
        .unwrap();
    assert_eq!(v.bytes, su(42).bytes);
    // Before the write the slot is zero.
    let v0 = w
        .get_storage_at(&addr(2), &su(1), &BlockId::Number(BlockSelector::Number(0)))
        .unwrap();
    assert_eq!(v0.bytes, vec![0u8; 32]);
}

#[test]
fn code_read_follows_code_hash() {
    let w = DbWrapper::new(small_chain(), 100_000_000);
    let code = w.get_code(&addr(1), &BlockId::Number(BlockSelector::Latest)).unwrap();
    assert_eq!(code, vec![0x60, 0x00]);
    // An absent account has empty code.
    let none = w.get_code(&addr(9), &BlockId::Number(BlockSelector::Latest)).unwrap();
    assert!(none.is_empty());
}

#[test]
fn code_missing_for_stored_hash_is_inconsistency() {
    let mut db = small_chain();
    db.code = Vec::new();
    let w = DbWrapper::new(db, 100_000_000);
    assert!(matches!(
        w.get_code(&addr(1), &BlockId::Number(BlockSelector::Latest)),
        Err(QueryError::Inconsistency)
    ));
}

#[test]
fn get_block_lists_hashes_and_full_txs() {
    let w = DbWrapper::new(small_chain(), 100_000_000);
    let b = w
        .get_block(&BlockId::Number(BlockSelector::Number(2)), false)
        .unwrap()
        .unwrap();
    assert_eq!(b.number, Some(2));
    assert_eq!(b.transactions.len(), 1);
    match &b.transactions[0] {
        Tx::Hash(h) => assert_eq!(h.bytes, h256(0xAA).bytes),
        Tx::Full(_) => panic!("expected a bare hash entry"),
    }
    let bt = w
        .get_block(&BlockId::Number(BlockSelector::Number(2)), true)
        .unwrap()
        .unwrap();
    match &bt.transactions[0] {
        Tx::Full(t) => {
            assert_eq!(t.hash.bytes, h256(0xAA).bytes);
            assert_eq!(t.transaction_index, Some(0));
            assert_eq!(t.gas, 21000);
        }
        Tx::Hash(_) => panic!("expected a full entry"),
    }
}

#[test]
fn get_block_unresolvable_is_none() {
    let w = DbWrapper::new(small_chain(), 100_000_000);
    assert!(w
        .get_block(&BlockId::Number(BlockSelector::Number(9)), false)
        .unwrap()
        .is_none());
}

#[test]
fn get_transaction_by_hash_finds_position() {
    let w = DbWrapper::new(small_chain(), 100_000_000);
    let t = w.get_transaction_by_hash(&h256(0xAA)).unwrap().unwrap();
    assert_eq!(t.block_number, Some(2));
    assert_eq!(t.transaction_index, Some(0));
    assert_eq!(t.from.bytes, addr(1).bytes);
    assert_eq!(t.to.as_ref().unwrap().bytes, addr(2).bytes);
    assert_eq!(t.gas_price.bytes, su(2).bytes);
}

#[test]
fn get_transaction_by_hash_unknown_is_none() {
    let w = DbWrapper::new(small_chain(), 100_000_000);
    assert!(w.get_transaction_by_hash(&h256(0x77)).unwrap().is_none());
}

#[test]
fn get_transaction_by_hash_stale_index_is_inconsistency() {
    let mut db = small_chain();
    // The lookup index points at block 2, but the block no longer carries
    // the transaction.
    db.blocks[2].body.transactions = Vec::new();
    db.blocks[2].outcomes = Vec::new();
    let w = DbWrapper::new(db, 100_000_000);
    assert!(matches!(
        w.get_transaction_by_hash(&h256(0xAA)),
        Err(QueryError::Inconsistency)
    ));
}

#[test]
fn uncle_count_and_lookup() {
    let mut db = small_chain();
    db.blocks[1].body.uncles = vec![UncleRecord { hash: h256(0xEE), header: header(0, 8_000_000) }];
    let w = DbWrapper::new(db, 100_000_000);
    let id = BlockId::Number(BlockSelector::Number(1));
    assert_eq!(w.get_uncle_count(&id).unwrap(), 1);
    let u = w.get_uncle_by_block_number_and_index(&id, 0).unwrap().unwrap();
    assert_eq!(u.hash.as_ref().unwrap().bytes, h256(0xEE).bytes);
    assert!(u.transactions.is_empty());
    assert!(w.get_uncle_by_block_number_and_index(&id, 1).unwrap().is_none());
    assert!(matches!(
        w.get_uncle_count(&BlockId::Number(BlockSelector::Number(9))),
        Err(QueryError::NotFound)
    ));
}
