//! The type adapter's conversions and round trips, and the call/estimate
//! path with its defaulting rules.

use akula_middleware::call::{ExecOutcome, MessageCall};
use akula_middleware::chain::{
    Account, AccountWrite, BlockBody, ChainDb, ChainSpec, Header, StoredBlock, TxAction,
    TxMessage, TxRecord,
};
use akula_middleware::client::{
    ClientAccessListItem, ClientBlockId, ClientBlockNumber, ClientEnvelope, ClientNameOrAddress,
    ClientSignedTx, ClientTypedTx,
};
use akula_middleware::db_wrapper::DbWrapper;
use akula_middleware::jsonrpc::{Block as RpcBlock, Transaction, Tx};
use akula_middleware::resolve::{BlockId, BlockSelector};
use akula_middleware::receipts::{TransactionLog, TransactionReceipt};
use akula_middleware::utils::{
    client_tx_to_tx_record, ethers_block_id_to_akula, ethers_typed_tx_to_message_call,
    jsonrpc_block_with_hashes_to_ethers, jsonrpc_block_with_txs_to_ethers,
    jsonrpc_receipt_to_ethers, jsonrpc_tx_to_ethers, tx_record_to_client,
};
use akula_middleware::words::{
    ethers_u256_to_ethnum, ethnum_u256_to_ethers, Address, Bloom, ClientU256, StorageU256, H256,
    H64,
};
use akula_middleware::QueryError;

fn h256(n: u8) -> H256 {
    let mut bytes = vec![0u8; 32];
    bytes[31] = n;
    H256 { bytes }
}

fn addr(n: u8) -> Address {
    let mut bytes = vec![0u8; 20];
    bytes[19] = n;
    Address { bytes }
}

fn su(n: u8) -> StorageU256 {
    let mut bytes = vec![0u8; 32];
    bytes[0] = n;
    StorageU256 { bytes }
}

fn cu(n: u8) -> ClientU256 {
    let mut bytes = vec![0u8; 32];
    bytes[31] = n;
    ClientU256 { bytes }
}

fn bloom() -> Bloom {
    Bloom { bytes: vec![0u8; 256] }
}

fn header(number: u64, gas_limit: u64) -> Header {
    Header {
        parent_hash: h256(0),
        ommers_hash: h256(0),
        beneficiary: addr(0),
        state_root: h256(0),
        transactions_root: h256(0),
        receipts_root: h256(0),
        logs_bloom: bloom(),
        difficulty: su(1),
        number,
        gas_limit,
        gas_used: 0,
        timestamp: 1_600_000_000 + number,
        extra_data: Vec::new(),
        mix_hash: h256(0),
        nonce: H64 { bytes: vec![0u8; 8] },
        base_fee_per_gas: None,
    }
}

fn empty_block(hash: H256, number: u64, gas_limit: u64) -> StoredBlock {
    StoredBlock {
        hash,
        header: header(number, gas_limit),
        body: BlockBody { transactions: Vec::new(), uncles: Vec::new() },
        outcomes: Vec::new(),
        total_difficulty: su(7),
        size: 500,
    }
}

fn call_chain() -> ChainDb {
    ChainDb {
        blocks: vec![
            empty_block(h256(10), 0, 30_000_000),
            empty_block(h256(11), 1, 30_000_000),
            empty_block(h256(12), 2, 30_000_000),
        ],
        canonical: vec![h256(10), h256(11), h256(12)],
        tx_lookup: Vec::new(),
        account_writes: vec![
            AccountWrite {
                height: 1,
                address: addr(1),
                account: Account { nonce: 7, balance: su(100), code_hash: h256(0xCC) },
            },
            AccountWrite {
                height: 2,
                address: addr(1),
                account: Account { nonce: 9, balance: su(90), code_hash: h256(0xCC) },
            },
        ],
        storage_writes: Vec::new(),
        code: Vec::new(),
        sync_height: Some(2),
        config: Some(ChainSpec { chain_id: 1 }),
    }
}

fn simple_call(to: Option<Address>) -> MessageCall {
    MessageCall::Legacy {
        from: Some(addr(1)),
        to,
        gas: None,
        gas_price: Some(su(3)),
        value: None,
        data: Some(vec![0xAB, 0xCD]),
    }
}

fn ok_outcome(gas_left: u64) -> ExecOutcome {
    ExecOutcome { output: vec![0xFE, 0xED], gas_left, success: true, logs: Vec::new() }
}

// ---- 256-bit endianness round trips ----

#[test]
fn u256_round_trip_client_to_storage_and_back() {
    let v = ClientU256 { bytes: (0u8..32).collect() };
    let back = ethnum_u256_to_ethers(&ethers_u256_to_ethnum(&v));
    assert_eq!(back.bytes, v.bytes);
}

#[test]
fn u256_round_trip_storage_to_client_and_back() {
    let v = StorageU256 { bytes: (100u8..132).collect() };
    let back = ethers_u256_to_ethnum(&ethnum_u256_to_ethers(&v));
    assert_eq!(back.bytes, v.bytes);
}

#[test]
fn u256_conversion_flips_byte_order() {
    // The value 1: storage side keeps it in the first byte (little-endian),
    // the client side in the last byte (big-endian).
    let one_storage = su(1);
    let one_client = ethnum_u256_to_ethers(&one_storage);
    assert_eq!(one_client.bytes, cu(1).bytes);
}

// ---- block identifier conversion ----

#[test]
fn block_id_conversion_degrades_pending_to_latest() {
    assert!(matches!(
        ethers_block_id_to_akula(ClientBlockId::Number(ClientBlockNumber::Pending)),
        BlockId::Number(BlockSelector::Latest)
    ));
    assert!(matches!(
        ethers_block_id_to_akula(ClientBlockId::Number(ClientBlockNumber::Earliest)),
        BlockId::Number(BlockSelector::Earliest)
    ));
    assert!(matches!(
        ethers_block_id_to_akula(ClientBlockId::Number(ClientBlockNumber::Number(7))),
        BlockId::Number(BlockSelector::Number(7))
    ));
    match ethers_block_id_to_akula(ClientBlockId::Hash(h256(5))) {
        BlockId::Hash(h) => assert_eq!(h.bytes, h256(5).bytes),
        _ => panic!("expected a hash identifier"),
    }
}

// ---- transaction request conversion ----

#[test]
fn typed_tx_with_name_recipient_is_conversion_error() {
    let tx = ClientTypedTx::Legacy {
        from: None,
        to: Some(ClientNameOrAddress::Name(String::from("example.eth"))),
        gas: None,
        gas_price: None,
        value: None,
        data: None,
    };
    assert!(matches!(
        ethers_typed_tx_to_message_call(&tx),
        Err(QueryError::ConversionError)
    ));
}

#[test]
fn typed_tx_conversion_flips_prices_and_keeps_absence() {
    let tx = ClientTypedTx::FeeMarket {
        from: Some(addr(1)),
        to: Some(ClientNameOrAddress::Addr(addr(2))),
        gas: Some(50_000),
        max_fee_per_gas: Some(cu(9)),
        max_priority_fee_per_gas: None,
        value: None,
        data: None,
        access_list: vec![ClientAccessListItem { address: addr(3), storage_keys: vec![h256(4)] }],
    };
    match ethers_typed_tx_to_message_call(&tx).unwrap() {
        MessageCall::FeeMarket {
            from,
            to,
            gas,
            max_fee_per_gas,
            max_priority_fee_per_gas,
            value,
            data,
            access_list,
        } => {
            assert_eq!(from.unwrap().bytes, addr(1).bytes);
            assert_eq!(to.unwrap().bytes, addr(2).bytes);
            assert_eq!(gas, Some(50_000));
            assert_eq!(max_fee_per_gas.unwrap().bytes, su(9).bytes);
            assert!(max_priority_fee_per_gas.is_none());
            assert!(value.is_none());
            assert!(data.is_none());
            let al = access_list.unwrap();
            assert_eq!(al.len(), 1);
            assert_eq!(al[0].address.bytes, addr(3).bytes);
            assert_eq!(al[0].storage_keys[0].bytes, h256(4).bytes);
        }
        _ => panic!("variant must be preserved"),
    }
}

// ---- lossless signed-transaction round trips ----

fn assert_records_equal(a: &TxRecord, b: &TxRecord) {
    assert_eq!(a.hash.bytes, b.hash.bytes);
    assert_eq!(a.v, b.v);
    assert_eq!(a.r.bytes, b.r.bytes);
    assert_eq!(a.s.bytes, b.s.bytes);
    assert_eq!(a.sender.bytes, b.sender.bytes);
    match (&a.message, &b.message) {
        (
            TxMessage::Legacy { chain_id, nonce, gas_price, gas_limit, action, value, input },
            TxMessage::Legacy {
                chain_id: c2,
                nonce: n2,
                gas_price: p2,
                gas_limit: g2,
                action: a2,
                value: v2,
                input: i2,
            },
        ) => {
            assert_eq!(chain_id, c2);
            assert_eq!(nonce, n2);
            assert_eq!(gas_price.bytes, p2.bytes);
            assert_eq!(gas_limit, g2);
            assert_actions_equal(action, a2);
            assert_eq!(value.bytes, v2.bytes);
            assert_eq!(input, i2);
        }
        (
            TxMessage::AccessList {
                chain_id,
                nonce,
                gas_price,
                gas_limit,
                action,
                value,
                input,
                access_list,
            },
            TxMessage::AccessList {
                chain_id: c2,
                nonce: n2,
                gas_price: p2,
                gas_limit: g2,
                action: a2,
                value: v2,
                input: i2,
                access_list: al2,
            },
        ) => {
            assert_eq!(chain_id, c2);
            assert_eq!(nonce, n2);
            assert_eq!(gas_price.bytes, p2.bytes);
            assert_eq!(gas_limit, g2);
            assert_actions_equal(action, a2);
            assert_eq!(value.bytes, v2.bytes);
            assert_eq!(input, i2);
            assert_eq!(access_list.len(), al2.len());
            for (x, y) in access_list.iter().zip(al2.iter()) {
                assert_eq!(x.address.bytes, y.address.bytes);
                assert_eq!(x.storage_keys.len(), y.storage_keys.len());
                for (k1, k2) in x.storage_keys.iter().zip(y.storage_keys.iter()) {
                    assert_eq!(k1.bytes, k2.bytes);
                }
            }
        }
        (
            TxMessage::FeeMarket {
                chain_id,
                nonce,
                max_priority_fee_per_gas,
                max_fee_per_gas,
                gas_limit,
                action,
                value,
                input,
                access_list,
            },
            TxMessage::FeeMarket {
                chain_id: c2,
                nonce: n2,
                max_priority_fee_per_gas: mp2,
                max_fee_per_gas: mf2,
                gas_limit: g2,
                action: a2,
                value: v2,
                input: i2,
                access_list: al2,
            },
        ) => {
            assert_eq!(chain_id, c2);
            assert_eq!(nonce, n2);
            assert_eq!(max_priority_fee_per_gas.bytes, mp2.bytes);
            assert_eq!(max_fee_per_gas.bytes, mf2.bytes);
            assert_eq!(gas_limit, g2);
            assert_actions_equal(action, a2);
            assert_eq!(value.bytes, v2.bytes);
            assert_eq!(input, i2);
            assert_eq!(access_list.len(), al2.len());
        }
        _ => panic!("round trip changed the envelope variant"),
    }
}

fn assert_actions_equal(a: &TxAction, b: &TxAction) {
    match (a, b) {
        (TxAction::Create, TxAction::Create) => {}
        (TxAction::Call(x), TxAction::Call(y)) => assert_eq!(x.bytes, y.bytes),
        _ => panic!("round trip changed the action"),
    }
}

fn legacy_record() -> TxRecord {
    TxRecord {
        hash: h256(0xA0),
        message: TxMessage::Legacy {
            chain_id: None,
            nonce: 3,
            gas_price: su(2),
            gas_limit: 21000,
            action: TxAction::Call(addr(2)),
            value: su(5),
            input: vec![1, 2, 3],
        },
        v: 27,
        r: h256(9),
        s: h256(8),
        sender: addr(1),
    }
}

fn access_list_record() -> TxRecord {
    TxRecord {
        hash: h256(0xA1),
        message: TxMessage::AccessList {
            chain_id: 1,
            nonce: 4,
            gas_price: su(2),
            gas_limit: 30000,
            action: TxAction::Call(addr(2)),
            value: su(5),
            input: vec![9],
            access_list: vec![akula_middleware::chain::AccessListEntry {
                address: addr(3),
                storage_keys: vec![h256(4), h256(5)],
            }],
        },
        v: 1,
        r: h256(9),
        s: h256(8),
        sender: addr(1),
    }
}

fn fee_market_record() -> TxRecord {
    TxRecord {
        hash: h256(0xA2),
        message: TxMessage::FeeMarket {
            chain_id: 1,
            nonce: 5,
            max_priority_fee_per_gas: su(1),
            max_fee_per_gas: su(6),
            gas_limit: 40000,
            action: TxAction::Create,
            value: su(0),
            input: Vec::new(),
            access_list: Vec::new(),
        },
        v: 0,
        r: h256(9),
        s: h256(8),
        sender: addr(1),
    }
}

#[test]
fn legacy_record_round_trips_losslessly() {
    let rec = legacy_record();
    let back = client_tx_to_tx_record(&tx_record_to_client(&rec));
    assert_records_equal(&rec, &back);
}

#[test]
fn access_list_record_round_trips_losslessly() {
    let rec = access_list_record();
    let back = client_tx_to_tx_record(&tx_record_to_client(&rec));
    assert_records_equal(&rec, &back);
}

#[test]
fn fee_market_record_round_trips_losslessly() {
    let rec = fee_market_record();
    let back = client_tx_to_tx_record(&tx_record_to_client(&rec));
    assert_records_equal(&rec, &back);
}

#[test]
fn legacy_client_tx_has_no_access_list() {
    // A legacy transaction maps to "no access list", not an empty one.
    match tx_record_to_client(&legacy_record()).envelope {
        ClientEnvelope::Legacy { gas_price, .. } => {
            // Little-endian 2 becomes big-endian 2.
            assert_eq!(gas_price.bytes, cu(2).bytes);
        }
        _ => panic!("legacy must stay legacy"),
    }
}

#[test]
fn signed_tx_conversion_flips_values() {
    let c: ClientSignedTx = tx_record_to_client(&fee_market_record());
    match c.envelope {
        ClientEnvelope::FeeMarket { max_fee_per_gas, max_priority_fee_per_gas, .. } => {
            assert_eq!(max_fee_per_gas.bytes, cu(6).bytes);
            assert_eq!(max_priority_fee_per_gas.bytes, cu(1).bytes);
        }
        _ => panic!("fee-market must stay fee-market"),
    }
}

// ---- flat listing conversion ----

#[test]
fn flat_tx_listing_flips_value_and_price() {
    let t = Transaction {
        hash: h256(0xA0),
        nonce: 3,
        block_hash: Some(h256(12)),
        block_number: Some(2),
        from: addr(1),
        gas: 21000,
        gas_price: su(2),
        input: vec![1],
        to: Some(addr(2)),
        transaction_index: Some(0),
        value: su(5),
        v: 27,
        r: h256(9),
        s: h256(8),
    };
    let c = jsonrpc_tx_to_ethers(&t);
    assert_eq!(c.value.bytes, cu(5).bytes);
    assert_eq!(c.gas_price.unwrap().bytes, cu(2).bytes);
    assert_eq!(c.r.bytes, h256(9).bytes);
    assert!(c.access_list.is_none());
    assert!(c.max_fee_per_gas.is_none());
    assert!(c.chain_id.is_none());
}

#[test]
fn block_listing_conversion_filters_by_entry_kind() {
    let full = Transaction {
        hash: h256(0xA0),
        nonce: 3,
        block_hash: Some(h256(12)),
        block_number: Some(2),
        from: addr(1),
        gas: 21000,
        gas_price: su(2),
        input: vec![1],
        to: Some(addr(2)),
        transaction_index: Some(0),
        value: su(5),
        v: 27,
        r: h256(9),
        s: h256(8),
    };
    let b = RpcBlock {
        hash: Some(h256(12)),
        parent_hash: h256(11),
        sha3_uncles: h256(0),
        miner: addr(0),
        state_root: h256(0),
        transactions_root: h256(0),
        receipts_root: h256(0),
        number: Some(2),
        gas_used: 21000,
        gas_limit: 30_000_000,
        extra_data: Vec::new(),
        logs_bloom: Some(bloom()),
        timestamp: 99,
        difficulty: su(1),
        total_difficulty: Some(su(7)),
        transactions: vec![Tx::Full(full)],
        uncles: Vec::new(),
        size: 700,
        mix_hash: h256(0),
        nonce: Some(H64 { bytes: vec![0u8; 8] }),
        base_fee_per_gas: None,
    };
    let with_txs = jsonrpc_block_with_txs_to_ethers(&b);
    assert_eq!(with_txs.transactions.len(), 1);
    assert_eq!(with_txs.transactions[0].hash.bytes, h256(0xA0).bytes);
    assert_eq!(with_txs.number, Some(2));
    assert_eq!(with_txs.author.as_ref().unwrap().bytes, addr(0).bytes);
    // The difficulty crosses the boundary byte-flipped.
    assert_eq!(with_txs.difficulty.bytes, cu(1).bytes);
    assert_eq!(with_txs.size, Some(700));
    // A full entry is not a hash entry: the hash-only listing drops it.
    let with_hashes = jsonrpc_block_with_hashes_to_ethers(&b);
    assert!(with_hashes.transactions.is_empty());
}

#[test]
fn receipt_conversion_wraps_and_keeps_accounting() {
    let t = TransactionReceipt {
        transaction_hash: h256(0xA1),
        transaction_index: 1,
        block_hash: h256(12),
        block_number: 2,
        from: addr(1),
        to: Some(addr(2)),
        cumulative_gas_used: 71000,
        gas_used: 50000,
        contract_address: None,
        logs: vec![TransactionLog {
            log_index: Some(0),
            transaction_index: Some(1),
            transaction_hash: Some(h256(0xA1)),
            block_hash: Some(h256(12)),
            block_number: Some(2),
            address: addr(2),
            data: vec![1, 2],
            topics: vec![h256(0xD0)],
        }],
        logs_bloom: bloom(),
        status: 1,
    };
    let c = jsonrpc_receipt_to_ethers(&t);
    assert_eq!(c.cumulative_gas_used, 71000);
    assert_eq!(c.gas_used, Some(50000));
    assert_eq!(c.status, Some(1));
    assert_eq!(c.block_number, Some(2));
    assert_eq!(c.logs.len(), 1);
    assert_eq!(c.logs[0].log_index, Some(0));
    assert_eq!(c.logs[0].data, vec![1, 2]);
}

// ---- the call path ----

#[test]
fn call_without_recipient_is_conversion_error() {
    let w = DbWrapper::new(call_chain(), 100_000_000);
    let r = w.call(
        &simple_call(None),
        &BlockId::Number(BlockSelector::Latest),
        &ok_outcome(0),
    );
    assert!(matches!(r, Err(QueryError::ConversionError)));
}

#[test]
fn call_returns_engine_output() {
    let w = DbWrapper::new(call_chain(), 100_000_000);
    let out = w
        .call(
            &simple_call(Some(addr(2))),
            &BlockId::Number(BlockSelector::Latest),
            &ok_outcome(0),
        )
        .unwrap();
    assert_eq!(out, vec![0xFE, 0xED]);
}

#[test]
fn call_on_unresolvable_block_is_not_found() {
    let w = DbWrapper::new(call_chain(), 100_000_000);
    let r = w.call(
        &simple_call(Some(addr(2))),
        &BlockId::Number(BlockSelector::Number(9)),
        &ok_outcome(0),
    );
    assert!(matches!(r, Err(QueryError::NotFound)));
}

#[test]
fn call_without_chain_spec_is_an_error() {
    let mut db = call_chain();
    db.config = None;
    let w = DbWrapper::new(db, 100_000_000);
    let r = w.call(
        &simple_call(Some(addr(2))),
        &BlockId::Number(BlockSelector::Latest),
        &ok_outcome(0),
    );
    assert!(matches!(r, Err(QueryError::ChainSpecMissing)));
}

#[test]
fn prepare_call_defaults_sender_gas_and_nonce() {
    let w = DbWrapper::new(call_chain(), 100_000_000);
    let env = w
        .prepare_call(
            &MessageCall::Legacy {
                from: None,
                to: Some(addr(2)),
                gas: None,
                gas_price: None,
                value: None,
                data: None,
            },
            &BlockId::Number(BlockSelector::Latest),
            Some(100_000_000),
        )
        .unwrap();
    assert_eq!(env.message.sender.bytes, vec![0u8; 20]);
    assert_eq!(env.message.gas_limit, 100_000_000);
    assert_eq!(env.message.gas_price.bytes, vec![0u8; 32]);
    assert_eq!(env.message.nonce, 0);
    assert_eq!(env.chain_id, 1);
    // A named sender reads its nonce from the snapshot at the resolved
    // height.
    let env2 = w
        .prepare_call(
            &simple_call(Some(addr(2))),
            &BlockId::Number(BlockSelector::Number(1)),
            Some(100_000_000),
        )
        .unwrap();
    assert_eq!(env2.message.nonce, 7);
}

#[test]
fn estimate_gas_is_limit_minus_gas_left() {
    let w = DbWrapper::new(call_chain(), 100_000_000);
    let g = w
        .estimate_gas(
            &simple_call(Some(addr(2))),
            &BlockSelector::Latest,
            &ok_outcome(29_979_000),
        )
        .unwrap();
    assert_eq!(g, 21_000);
}

#[test]
fn estimate_gas_rejects_impossible_outcome() {
    let w = DbWrapper::new(call_chain(), 100_000_000);
    let r = w.estimate_gas(
        &simple_call(Some(addr(2))),
        &BlockSelector::Latest,
        &ok_outcome(30_000_001),
    );
    assert!(matches!(r, Err(QueryError::ExecutionError)));
}

#[test]
fn estimate_preparation_ignores_state_above_its_height() {
    // Snapshot isolation: growing the chain above the target height does
    // not change what an estimate at that height reads.
    let w1 = DbWrapper::new(call_chain(), 100_000_000);
    let env1 = w1
        .prepare_call(
            &simple_call(Some(addr(2))),
            &BlockId::Number(BlockSelector::Number(1)),
            None,
        )
        .unwrap();
    let mut later = call_chain();
    later.blocks.push(empty_block(h256(13), 3, 30_000_000));
    later.canonical.push(h256(13));
    later.sync_height = Some(3);
    later.account_writes.push(AccountWrite {
        height: 3,
        address: addr(1),
        account: Account { nonce: 50, balance: su(1), code_hash: h256(0xCC) },
    });
    let w2 = DbWrapper::new(later, 100_000_000);
    let env2 = w2
        .prepare_call(
            &simple_call(Some(addr(2))),
            &BlockId::Number(BlockSelector::Number(1)),
            None,
        )
        .unwrap();
    assert_eq!(env1.message.nonce, env2.message.nonce);
    assert_eq!(env1.message.gas_limit, env2.message.gas_limit);
    assert_eq!(env1.block.number, env2.block.number);
    // The same holds for the estimate itself, given the same engine report.
    let g1 = w1
        .estimate_gas(&simple_call(Some(addr(2))), &BlockSelector::Number(1), &ok_outcome(29_000_000))
        .unwrap();
    let g2 = w2
        .estimate_gas(&simple_call(Some(addr(2))), &BlockSelector::Number(1), &ok_outcome(29_000_000))
        .unwrap();
    assert_eq!(g1, g2);
}
