//! Receipt reconstruction: cumulative-gas accounting, log indexing,
//! contract-address derivation, and the failure taxonomy.

use akula_middleware::chain::{
    Account, AccountWrite, BlockBody, ChainDb, ChainSpec, Header, LogRecord, StoredBlock,
    TxAction, TxLookupEntry, TxMessage, TxOutcome, TxRecord,
};
use akula_middleware::db_wrapper::DbWrapper;
use akula_middleware::words::{Address, Bloom, StorageU256, H256, H64};
use akula_middleware::QueryError;

fn h256(n: u8) -> H256 {
    let mut bytes = vec![0u8; 32];
    bytes[31] = n;
    H256 { bytes }
}

fn addr(n: u8) -> Address {
    let mut bytes = vec![0u8; 20];
    bytes[19] = n;
    Address { bytes }
}

fn su(n: u8) -> StorageU256 {
    let mut bytes = vec![0u8; 32];
    bytes[0] = n;
    StorageU256 { bytes }
}

fn bloom() -> Bloom {
    Bloom { bytes: vec![0u8; 256] }
}

fn header(number: u64, gas_limit: u64) -> Header {
    Header {
        parent_hash: h256(0),
        ommers_hash: h256(0),
        beneficiary: addr(0),
        state_root: h256(0),
        transactions_root: h256(0),
        receipts_root: h256(0),
        logs_bloom: bloom(),
        difficulty: su(1),
        number,
        gas_limit,
        gas_used: 0,
        timestamp: 1_600_000_000 + number,
        extra_data: Vec::new(),
        mix_hash: h256(0),
        nonce: H64 { bytes: vec![0u8; 8] },
        base_fee_per_gas: None,
    }
}

fn tx(hash: H256, nonce: u64, action: TxAction, sender: Address) -> TxRecord {
    TxRecord {
        hash,
        message: TxMessage::Legacy {
            chain_id: Some(1),
            nonce,
            gas_price: su(2),
            gas_limit: 100_000,
            action,
            value: su(0),
            input: Vec::new(),
        },
        v: 27,
        r: h256(9),
        s: h256(8),
        sender,
    }
}

fn outcome(gas_used: u64, success: bool, logs: Vec<LogRecord>) -> TxOutcome {
    TxOutcome { gas_used, success, logs, bloom: bloom() }
}

fn empty_block(hash: H256, number: u64) -> StoredBlock {
    StoredBlock {
        hash,
        header: header(number, 30_000_000),
        body: BlockBody { transactions: Vec::new(), uncles: Vec::new() },
        outcomes: Vec::new(),
        total_difficulty: su(7),
        size: 500,
    }
}

/// Genesis plus two blocks; block 2 carries three transactions whose
/// replay consumed [21000, 50000, 30000] gas.
fn chain_with_three_txs() -> ChainDb {
    let t0 = tx(h256(0xA0), 0, TxAction::Call(addr(2)), addr(1));
    let t1 = tx(h256(0xA1), 1, TxAction::Call(addr(2)), addr(1));
    let t2 = tx(h256(0xA2), 2, TxAction::Call(addr(3)), addr(1));
    let logs = vec![
        LogRecord { address: addr(2), topics: vec![h256(0xD0)], data: vec![1, 2, 3] },
        LogRecord { address: addr(2), topics: Vec::new(), data: Vec::new() },
    ];
    let block2 = StoredBlock {
        hash: h256(12),
        header: header(2, 30_000_000),
        body: BlockBody { transactions: vec![t0, t1, t2], uncles: Vec::new() },
        outcomes: vec![
            outcome(21000, true, Vec::new()),
            outcome(50000, true, logs),
            outcome(30000, false, Vec::new()),
        ],
        total_difficulty: su(7),
        size: 900,
    };
    ChainDb {
        blocks: vec![empty_block(h256(10), 0), empty_block(h256(11), 1), block2],
        canonical: vec![h256(10), h256(11), h256(12)],
        tx_lookup: vec![
            TxLookupEntry { tx_hash: h256(0xA0), block_number: 2 },
            TxLookupEntry { tx_hash: h256(0xA1), block_number: 2 },
            TxLookupEntry { tx_hash: h256(0xA2), block_number: 2 },
        ],
        account_writes: vec![AccountWrite {
            height: 1,
            address: addr(1),
            account: Account { nonce: 0, balance: su(100), code_hash: h256(0xCC) },
        }],
        storage_writes: Vec::new(),
        code: Vec::new(),
        sync_height: Some(2),
        config: Some(ChainSpec { chain_id: 1 }),
    }
}

#[test]
fn second_receipt_reports_cumulative_and_delta() {
    let w = DbWrapper::new(chain_with_three_txs(), 100_000_000);
    let r = w.get_transaction_receipt(&h256(0xA1)).unwrap().unwrap();
    assert_eq!(r.cumulative_gas_used, 71000);
    assert_eq!(r.gas_used, 50000);
    assert_eq!(r.transaction_index, 1);
    assert_eq!(r.block_number, 2);
    assert_eq!(r.status, 1);
}

#[test]
fn first_receipt_gas_used_equals_cumulative() {
    let w = DbWrapper::new(chain_with_three_txs(), 100_000_000);
    let r = w.get_transaction_receipt(&h256(0xA0)).unwrap().unwrap();
    assert_eq!(r.cumulative_gas_used, 21000);
    assert_eq!(r.gas_used, 21000);
}

#[test]
fn gas_used_sums_to_final_cumulative() {
    let w = DbWrapper::new(chain_with_three_txs(), 100_000_000);
    let hashes = [h256(0xA0), h256(0xA1), h256(0xA2)];
    let mut sum: u64 = 0;
    for h in &hashes {
        sum += w.get_transaction_receipt(h).unwrap().unwrap().gas_used;
    }
    let last = w.get_transaction_receipt(&h256(0xA2)).unwrap().unwrap();
    assert_eq!(sum, last.cumulative_gas_used);
    assert_eq!(sum, 101_000);
}

#[test]
fn cumulative_gas_is_monotonic_across_receipts() {
    let w = DbWrapper::new(chain_with_three_txs(), 100_000_000);
    let r0 = w.get_transaction_receipt(&h256(0xA0)).unwrap().unwrap();
    let r1 = w.get_transaction_receipt(&h256(0xA1)).unwrap().unwrap();
    let r2 = w.get_transaction_receipt(&h256(0xA2)).unwrap().unwrap();
    assert!(r0.cumulative_gas_used <= r1.cumulative_gas_used);
    assert!(r1.cumulative_gas_used <= r2.cumulative_gas_used);
}

#[test]
fn failed_transaction_reports_status_zero() {
    let w = DbWrapper::new(chain_with_three_txs(), 100_000_000);
    let r = w.get_transaction_receipt(&h256(0xA2)).unwrap().unwrap();
    assert_eq!(r.status, 0);
}

#[test]
fn log_indices_are_local_to_the_receipt() {
    let w = DbWrapper::new(chain_with_three_txs(), 100_000_000);
    let r = w.get_transaction_receipt(&h256(0xA1)).unwrap().unwrap();
    assert_eq!(r.logs.len(), 2);
    assert_eq!(r.logs[0].log_index, Some(0));
    assert_eq!(r.logs[1].log_index, Some(1));
    assert_eq!(r.logs[0].transaction_index, Some(1));
    assert_eq!(r.logs[0].data, vec![1, 2, 3]);
    assert_eq!(r.logs[0].block_number, Some(2));
}

#[test]
fn call_transaction_has_no_contract_address() {
    let w = DbWrapper::new(chain_with_three_txs(), 100_000_000);
    let r = w.get_transaction_receipt(&h256(0xA0)).unwrap().unwrap();
    assert!(r.contract_address.is_none());
    assert_eq!(r.to.as_ref().unwrap().bytes, addr(2).bytes);
}

#[test]
fn creation_receipt_derives_known_contract_address() {
    // A well-known derivation pair: this sender at nonce 0 deploys to this
    // contract address.
    let sender = Address {
        bytes: vec![
            0x6a, 0xc7, 0xea, 0x33, 0xf8, 0x83, 0x1e, 0xa9, 0xdc, 0xc5, 0x33, 0x93, 0xaa, 0xa8,
            0x8b, 0x25, 0xa7, 0x85, 0xdb, 0xf0,
        ],
    };
    let expected = vec![
        0xcd, 0x23, 0x4a, 0x47, 0x1b, 0x72, 0xba, 0x2f, 0x1c, 0xcf, 0x0a, 0x70, 0xfc, 0xab, 0xa6,
        0x48, 0xa5, 0xee, 0xcd, 0x8d,
    ];
    let mut db = chain_with_three_txs();
    db.blocks[2].body.transactions = vec![tx(h256(0xB0), 0, TxAction::Create, sender)];
    db.blocks[2].outcomes = vec![outcome(53000, true, Vec::new())];
    db.tx_lookup = vec![TxLookupEntry { tx_hash: h256(0xB0), block_number: 2 }];
    let w = DbWrapper::new(db, 100_000_000);
    let r = w.get_transaction_receipt(&h256(0xB0)).unwrap().unwrap();
    assert!(r.to.is_none());
    assert_eq!(r.contract_address.unwrap().bytes, expected);
}

#[test]
fn unknown_hash_yields_none_not_error() {
    let w = DbWrapper::new(chain_with_three_txs(), 100_000_000);
    let r = w.get_transaction_receipt(&h256(0x77)).unwrap();
    assert!(r.is_none());
}

#[test]
fn receipt_without_chain_spec_is_an_error() {
    let mut db = chain_with_three_txs();
    db.config = None;
    let w = DbWrapper::new(db, 100_000_000);
    assert!(matches!(
        w.get_transaction_receipt(&h256(0xA0)),
        Err(QueryError::ChainSpecMissing)
    ));
}

#[test]
fn receipt_with_missing_canonical_hash_is_inconsistency() {
    let mut db = chain_with_three_txs();
    db.canonical.truncate(2);
    let w = DbWrapper::new(db, 100_000_000);
    assert!(matches!(
        w.get_transaction_receipt(&h256(0xA0)),
        Err(QueryError::Inconsistency)
    ));
}

#[test]
fn receipt_with_stale_lookup_entry_is_inconsistency() {
    let mut db = chain_with_three_txs();
    db.blocks[2].body.transactions.remove(0);
    db.blocks[2].outcomes.remove(0);
    let w = DbWrapper::new(db, 100_000_000);
    assert!(matches!(
        w.get_transaction_receipt(&h256(0xA0)),
        Err(QueryError::Inconsistency)
    ));
}
