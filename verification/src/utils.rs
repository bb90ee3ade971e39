//! The Type Adapter: explicit, bidirectional translation between the
//! storage-side and the client-side Ethereum type systems — one pure
//! function per direction per entity.
//!
//! Three concerns shape it. Every 256-bit number crossing the boundary
//! undergoes an explicit byte-order flip (little-endian storage side,
//! big-endian client side). The three transaction envelopes are translated
//! variant by variant, never fabricating a field the source shape does not
//! carry: a legacy transaction maps to "no access list", not an empty one.
//! And a client request that names a recipient this core cannot resolve
//! (an unresolved name) is an explicit conversion error, not a guess.

use vstd::prelude::*;

use crate::chain::{AccessListEntry, TxMessageView, TxRecord, TxRecordView};
use crate::client::{ClientAccessListItem, ClientBlock, ClientBlockId, ClientBlockNumber,
    ClientEnvelope, ClientEnvelopeView, ClientLog, ClientNameOrAddress, ClientReceipt,
    ClientSignedTx, ClientSignedTxView, ClientTransaction, ClientTypedTx};
use crate::call::MessageCall;
use crate::jsonrpc::{Block, Transaction, Tx};
use crate::receipts::{TransactionLog, TransactionReceipt};
use crate::resolve::{BlockId, BlockSelector};
use crate::words::{copy_bytes, ethers_u256_to_ethnum, ethnum_u256_to_ethers, rev_bytes, Address,
    ClientU256, StorageU256, H256};
use crate::QueryError;

verus! {

/// The storage-side identifier a client identifier converts to: `Pending`
/// degrades to `Latest`, everything else maps across unchanged.
pub open spec fn block_id_converted(c: ClientBlockId, s: BlockId) -> bool {
    match c {
        ClientBlockId::Number(n) => match n {
            ClientBlockNumber::Latest => s == BlockId::Number(BlockSelector::Latest),
            ClientBlockNumber::Pending => s == BlockId::Number(BlockSelector::Latest),
            ClientBlockNumber::Earliest => s == BlockId::Number(BlockSelector::Earliest),
            ClientBlockNumber::Number(x) => s == BlockId::Number(BlockSelector::Number(x)),
        },
        ClientBlockId::Hash(h) => s matches BlockId::Hash(h2) && h2@ == h@,
    }
}

/// Convert a client block identifier to the storage-side identifier.
pub fn ethers_block_id_to_akula(block_id: ClientBlockId) -> (r: BlockId)
    ensures
        block_id_converted(block_id, r),
{
    match block_id {
        ClientBlockId::Number(number) => match number {
            ClientBlockNumber::Latest => BlockId::Number(BlockSelector::Latest),
            ClientBlockNumber::Pending => BlockId::Number(BlockSelector::Latest),
            ClientBlockNumber::Earliest => BlockId::Number(BlockSelector::Earliest),
            ClientBlockNumber::Number(n) => BlockId::Number(BlockSelector::Number(n)),
        },
        ClientBlockId::Hash(hash) => BlockId::Hash(hash),
    }
}

pub open spec fn opt_addr_eq(a: Option<Address>, b: Option<Address>) -> bool {
    match (a, b) {
        (None, None) => true,
        (Some(x), Some(y)) => x@ == y@,
        _ => false,
    }
}

pub open spec fn opt_h256_eq(a: Option<H256>, b: Option<H256>) -> bool {
    match (a, b) {
        (None, None) => true,
        (Some(x), Some(y)) => x@ == y@,
        _ => false,
    }
}

/// A storage-side optional number carries the byte-flipped image of the
/// client-side one.
pub open spec fn opt_u256_flipped(s: Option<StorageU256>, c: Option<ClientU256>) -> bool {
    match (s, c) {
        (None, None) => true,
        (Some(x), Some(y)) => x@ == rev_bytes(y@),
        _ => false,
    }
}

pub open spec fn opt_bytes_eq(a: Option<Vec<u8>>, b: Option<Vec<u8>>) -> bool {
    match (a, b) {
        (None, None) => true,
        (Some(x), Some(y)) => x@ == y@,
        _ => false,
    }
}

/// The storage-side recipient a client recipient converts to: an address
/// maps across, absence stays absent, a name is inconvertible.
pub open spec fn to_converted(c: Option<ClientNameOrAddress>, s: Option<Address>) -> bool {
    match (c, s) {
        (None, None) => true,
        (Some(ClientNameOrAddress::Addr(a)), Some(b)) => b@ == a@,
        _ => false,
    }
}

/// The two access lists carry the same items in the same order.
pub open spec fn access_items_eq(s: Seq<AccessListEntry>, c: Seq<ClientAccessListItem>) -> bool {
    s.len() == c.len() && forall|i: int| 0 <= i < s.len() ==> s[i]@ == c[i]@
}

fn dup_keys(keys: &Vec<H256>) -> (r: Vec<H256>)
    ensures
        r@.len() == keys@.len(),
        forall|i: int| 0 <= i < r@.len() ==> (#[trigger] r@[i])@ == keys@[i]@,
        r@.map_values(|k: H256| k@) == keys@.map_values(|k: H256| k@),
        forall|i: int| 0 <= i < r@.len() ==> keys@[i].wf() ==> (#[trigger] r@[i]).wf(),
{
    let n = keys.len();
    let mut r: Vec<H256> = Vec::new();
    let mut i: usize = 0;
    while i < n
        invariant
            i <= n,
            n == keys@.len(),
            r@.len() == i,
            forall|j: int| 0 <= j < i ==> (#[trigger] r@[j])@ == keys@[j]@,
        decreases n - i,
    {
        r.push(keys[i].dup());
        i = i + 1;
    }
    proof {
        assert(r@.map_values(|k: H256| k@) =~= keys@.map_values(|k: H256| k@));
    }
    r
}

/// Convert a client access list to the storage-side list, item for item.
fn access_list_to_storage(items: &Vec<ClientAccessListItem>) -> (r: Vec<AccessListEntry>)
    requires
        forall|i: int| 0 <= i < items@.len() ==> (#[trigger] items@[i]).wf(),
    ensures
        access_items_eq(r@, items@),
        crate::chain::access_list_wf(r@),
{
    let n = items.len();
    let mut r: Vec<AccessListEntry> = Vec::new();
    let mut i: usize = 0;
    while i < n
        invariant
            forall|k: int| 0 <= k < items@.len() ==> (#[trigger] items@[k]).wf(),
            i <= n,
            n == items@.len(),
            r@.len() == i,
            forall|j: int| 0 <= j < i ==> (#[trigger] r@[j])@ == items@[j]@,
            forall|j: int| 0 <= j < i ==> (#[trigger] r@[j]).wf(),
        decreases n - i,
    {
        let item = &items[i];
        let entry = AccessListEntry {
            address: item.address.dup(),
            storage_keys: dup_keys(&item.storage_keys),
        };
        proof {
            assert(entry@ == item@);
        }
        r.push(entry);
        i = i + 1;
    }
    r
}

/// Convert a storage-side access list to the client list, item for item.
fn access_list_to_client(items: &Vec<AccessListEntry>) -> (r: Vec<ClientAccessListItem>)
    requires
        crate::chain::access_list_wf(items@),
    ensures
        access_items_eq(items@, r@),
        forall|i: int| 0 <= i < r@.len() ==> (#[trigger] r@[i]).wf(),
{
    let n = items.len();
    let mut r: Vec<ClientAccessListItem> = Vec::new();
    let mut i: usize = 0;
    while i < n
        invariant
            crate::chain::access_list_wf(items@),
            i <= n,
            n == items@.len(),
            r@.len() == i,
            forall|j: int| 0 <= j < i ==> items@[j]@ == (#[trigger] r@[j])@,
            forall|j: int| 0 <= j < i ==> (#[trigger] r@[j]).wf(),
        decreases n - i,
    {
        let item = &items[i];
        let entry = ClientAccessListItem {
            address: item.address.dup(),
            storage_keys: dup_keys(&item.storage_keys),
        };
        proof {
            assert(entry@ == item@);
        }
        r.push(entry);
        i = i + 1;
    }
    r
}

/// The storage-side message call a client request converts to: the same
/// envelope, every optional field carried across (absence preserved, never
/// defaulted), prices byte-flipped, access lists item for item.
pub open spec fn message_call_converted(tx: ClientTypedTx, mc: MessageCall) -> bool {
    match (tx, mc) {
        (
            ClientTypedTx::Legacy { from, to, gas, gas_price, value, data },
            MessageCall::Legacy {
                from: from2,
                to: to2,
                gas: gas2,
                gas_price: price2,
                value: value2,
                data: data2,
            },
        ) => {
            &&& opt_addr_eq(from2, from)
            &&& to_converted(to, to2)
            &&& gas2 == gas
            &&& opt_u256_flipped(price2, gas_price)
            &&& opt_u256_flipped(value2, value)
            &&& opt_bytes_eq(data2, data)
        },
        (
            ClientTypedTx::AccessList { from, to, gas, gas_price, value, data, access_list },
            MessageCall::AccessList {
                from: from2,
                to: to2,
                gas: gas2,
                gas_price: price2,
                value: value2,
                data: data2,
                access_list: access2,
            },
        ) => {
            &&& opt_addr_eq(from2, from)
            &&& to_converted(to, to2)
            &&& gas2 == gas
            &&& opt_u256_flipped(price2, gas_price)
            &&& opt_u256_flipped(value2, value)
            &&& opt_bytes_eq(data2, data)
            &&& access2 matches Some(al) && access_items_eq(al@, access_list@)
        },
        (
            ClientTypedTx::FeeMarket {
                from,
                to,
                gas,
                max_fee_per_gas,
                max_priority_fee_per_gas,
                value,
                data,
                access_list,
            },
            MessageCall::FeeMarket {
                from: from2,
                to: to2,
                gas: gas2,
                max_fee_per_gas: max2,
                max_priority_fee_per_gas: prio2,
                value: value2,
                data: data2,
                access_list: access2,
            },
        ) => {
            &&& opt_addr_eq(from2, from)
            &&& to_converted(to, to2)
            &&& gas2 == gas
            &&& opt_u256_flipped(max2, max_fee_per_gas)
            &&& opt_u256_flipped(prio2, max_priority_fee_per_gas)
            &&& opt_u256_flipped(value2, value)
            &&& opt_bytes_eq(data2, data)
            &&& access2 matches Some(al) && access_items_eq(al@, access_list@)
        },
        _ => false,
    }
}

fn convert_opt_addr(a: &Option<Address>) -> (r: Option<Address>)
    ensures
        opt_addr_eq(r, *a),
{
    match a {
        Some(x) => Some(x.dup()),
        None => None,
    }
}

fn convert_opt_u256(c: &Option<ClientU256>) -> (r: Option<StorageU256>)
    ensures
        opt_u256_flipped(r, *c),
        match r {
            Some(x) => x.wf() == (match c {
                Some(y) => y.wf(),
                None => true,
            }),
            None => true,
        },
{
    match c {
        Some(y) => Some(ethers_u256_to_ethnum(y)),
        None => None,
    }
}

fn convert_opt_bytes(a: &Option<Vec<u8>>) -> (r: Option<Vec<u8>>)
    ensures
        opt_bytes_eq(r, *a),
{
    match a {
        Some(x) => Some(copy_bytes(x)),
        None => None,
    }
}

fn convert_to_field(to: &Option<ClientNameOrAddress>) -> (r: Result<Option<Address>, QueryError>)
    ensures
        match r {
            Ok(t) => to_converted(*to, t) && match t {
                Some(a) => (*to matches Some(ClientNameOrAddress::Addr(b)) && b.wf() ==> a.wf()),
                None => true,
            },
            Err(e) => e == QueryError::ConversionError && *to matches Some(
                ClientNameOrAddress::Name(_),
            ),
        },
{
    match to {
        Some(ClientNameOrAddress::Addr(a)) => Ok(Some(a.dup())),
        Some(ClientNameOrAddress::Name(_)) => Err(QueryError::ConversionError),
        None => Ok(None),
    }
}

/// Convert a client transaction request to a storage-side message call.
///
/// Fails with `ConversionError` exactly when the recipient is an
/// unresolved name, which this core cannot turn into an address.
pub fn ethers_typed_tx_to_message_call(typed_transaction: &ClientTypedTx) -> (r: Result<
    MessageCall,
    QueryError,
>)
    requires
        typed_transaction.wf(),
        match typed_transaction {
            ClientTypedTx::Legacy { .. } => true,
            ClientTypedTx::AccessList { access_list, .. } => forall|i: int|
                0 <= i < access_list@.len() ==> (#[trigger] access_list@[i]).wf(),
            ClientTypedTx::FeeMarket { access_list, .. } => forall|i: int|
                0 <= i < access_list@.len() ==> (#[trigger] access_list@[i]).wf(),
        },
    ensures
        match r {
            Ok(mc) => message_call_converted(*typed_transaction, mc) && mc.wf(),
            Err(e) => e == QueryError::ConversionError && typed_transaction.spec_to() matches Some(
                ClientNameOrAddress::Name(_),
            ),
        },
{
    match typed_transaction {
        ClientTypedTx::Legacy { from, to, gas, gas_price, value, data } => {
            let to2 = match convert_to_field(to) {
                Ok(t) => t,
                Err(e) => {
                    return Err(e);
                },
            };
            Ok(
                MessageCall::Legacy {
                    from: convert_opt_addr(from),
                    to: to2,
                    gas: *gas,
                    gas_price: convert_opt_u256(gas_price),
                    value: convert_opt_u256(value),
                    data: convert_opt_bytes(data),
                },
            )
        },
        ClientTypedTx::AccessList { from, to, gas, gas_price, value, data, access_list } => {
            let to2 = match convert_to_field(to) {
                Ok(t) => t,
                Err(e) => {
                    return Err(e);
                },
            };
            Ok(
                MessageCall::AccessList {
                    from: convert_opt_addr(from),
                    to: to2,
                    gas: *gas,
                    gas_price: convert_opt_u256(gas_price),
                    value: convert_opt_u256(value),
                    data: convert_opt_bytes(data),
                    access_list: Some(access_list_to_storage(access_list)),
                },
            )
        },
        ClientTypedTx::FeeMarket {
            from,
            to,
            gas,
            max_fee_per_gas,
            max_priority_fee_per_gas,
            value,
            data,
            access_list,
        } => {
            let to2 = match convert_to_field(to) {
                Ok(t) => t,
                Err(e) => {
                    return Err(e);
                },
            };
            Ok(
                MessageCall::FeeMarket {
                    from: convert_opt_addr(from),
                    to: to2,
                    gas: *gas,
                    max_fee_per_gas: convert_opt_u256(max_fee_per_gas),
                    max_priority_fee_per_gas: convert_opt_u256(max_priority_fee_per_gas),
                    value: convert_opt_u256(value),
                    data: convert_opt_bytes(data),
                    access_list: Some(access_list_to_storage(access_list)),
                },
            )
        },
    }
}

/// The flattened client listing of a storage-side transaction listing: the
/// value and price byte-flipped, the signature words carried across, and
/// the variant-specific extras reported as absent (the flat listing does
/// not reconstruct them).
pub open spec fn client_tx_of(t: Transaction, c: ClientTransaction) -> bool {
    &&& c.hash@ == t.hash@
    &&& c.nonce == t.nonce
    &&& opt_h256_eq(c.block_hash, t.block_hash)
    &&& c.block_number == t.block_number
    &&& c.transaction_index == t.transaction_index
    &&& c.from@ == t.from@
    &&& opt_addr_eq(c.to, t.to)
    &&& c.value@ == rev_bytes(t.value@)
    &&& c.gas == t.gas
    &&& c.gas_price matches Some(p) && p@ == rev_bytes(t.gas_price@)
    &&& c.input@ == t.input@
    &&& c.v == t.v
    &&& c.r@ == t.r@
    &&& c.s@ == t.s@
    &&& c.transaction_type is None
    &&& c.access_list is None
    &&& c.max_priority_fee_per_gas is None
    &&& c.max_fee_per_gas is None
    &&& c.chain_id is None
}

fn convert_opt_h256(a: &Option<H256>) -> (r: Option<H256>)
    ensures
        opt_h256_eq(r, *a),
{
    match a {
        Some(x) => Some(x.dup()),
        None => None,
    }
}

/// Convert a storage-side transaction listing to the client listing.
pub fn jsonrpc_tx_to_ethers(tx: &Transaction) -> (r: ClientTransaction)
    requires
        tx.wf(),
    ensures
        client_tx_of(*tx, r),
{
    ClientTransaction {
        hash: tx.hash.dup(),
        nonce: tx.nonce,
        block_hash: convert_opt_h256(&tx.block_hash),
        block_number: tx.block_number,
        transaction_index: tx.transaction_index,
        from: tx.from.dup(),
        to: convert_opt_addr(&tx.to),
        value: ethnum_u256_to_ethers(&tx.value),
        gas: tx.gas,
        gas_price: Some(ethnum_u256_to_ethers(&tx.gas_price)),
        input: copy_bytes(&tx.input),
        v: tx.v,
        r: ClientU256::new(copy_bytes(&tx.r.bytes)),
        s: ClientU256::new(copy_bytes(&tx.s.bytes)),
        transaction_type: None,
        access_list: None,
        max_priority_fee_per_gas: None,
        max_fee_per_gas: None,
        chain_id: None,
    }
}

/// The client image of one receipt log.
pub open spec fn client_log_of(l: TransactionLog, c: ClientLog) -> bool {
    &&& c.address@ == l.address@
    &&& c.topics@.len() == l.topics@.len()
    &&& (forall|i: int| 0 <= i < c.topics@.len() ==> (#[trigger] c.topics@[i])@ == l.topics@[i]@)
    &&& c.data@ == l.data@
    &&& opt_h256_eq(c.block_hash, l.block_hash)
    &&& c.block_number == l.block_number
    &&& opt_h256_eq(c.transaction_hash, l.transaction_hash)
    &&& c.transaction_index == l.transaction_index
    &&& c.log_index == l.log_index
}

/// Convert one storage-side receipt log to the client log.
pub fn jsonrpc_log_to_ethers(log: &TransactionLog) -> (r: ClientLog)
    ensures
        client_log_of(*log, r),
{
    let n = log.topics.len();
    let mut topics: Vec<H256> = Vec::new();
    let mut i: usize = 0;
    while i < n
        invariant
            i <= n,
            n == log.topics@.len(),
            topics@.len() == i,
            forall|j: int| 0 <= j < i ==> (#[trigger] topics@[j])@ == log.topics@[j]@,
        decreases n - i,
    {
        topics.push(log.topics[i].dup());
        i = i + 1;
    }
    ClientLog {
        address: log.address.dup(),
        topics,
        data: copy_bytes(&log.data),
        block_hash: convert_opt_h256(&log.block_hash),
        block_number: log.block_number,
        transaction_hash: convert_opt_h256(&log.transaction_hash),
        transaction_index: log.transaction_index,
        log_index: log.log_index,
    }
}

/// The client image of a reconstructed receipt.
pub open spec fn client_receipt_of(t: TransactionReceipt, c: ClientReceipt) -> bool {
    &&& c.transaction_hash@ == t.transaction_hash@
    &&& c.block_hash matches Some(h) && h@ == t.block_hash@
    &&& c.block_number == Some(t.block_number)
    &&& c.transaction_index == t.transaction_index
    &&& c.from@ == t.from@
    &&& opt_addr_eq(c.to, t.to)
    &&& c.cumulative_gas_used == t.cumulative_gas_used
    &&& c.gas_used == Some(t.gas_used)
    &&& opt_addr_eq(c.contract_address, t.contract_address)
    &&& c.logs@.len() == t.logs@.len()
    &&& (forall|i: int|
        0 <= i < c.logs@.len() ==> client_log_of(t.logs@[i], #[trigger] c.logs@[i]))
    &&& c.logs_bloom@ == t.logs_bloom@
    &&& c.status == Some(t.status)
}

/// Convert a storage-side receipt to the client receipt.
pub fn jsonrpc_receipt_to_ethers(tx: &TransactionReceipt) -> (r: ClientReceipt)
    ensures
        client_receipt_of(*tx, r),
{
    let n = tx.logs.len();
    let mut logs: Vec<ClientLog> = Vec::new();
    let mut i: usize = 0;
    while i < n
        invariant
            i <= n,
            n == tx.logs@.len(),
            logs@.len() == i,
            forall|j: int| 0 <= j < i ==> client_log_of(tx.logs@[j], #[trigger] logs@[j]),
        decreases n - i,
    {
        logs.push(jsonrpc_log_to_ethers(&tx.logs[i]));
        i = i + 1;
    }
    ClientReceipt {
        transaction_hash: tx.transaction_hash.dup(),
        block_hash: Some(tx.block_hash.dup()),
        block_number: Some(tx.block_number),
        transaction_index: tx.transaction_index,
        from: tx.from.dup(),
        to: convert_opt_addr(&tx.to),
        cumulative_gas_used: tx.cumulative_gas_used,
        gas_used: Some(tx.gas_used),
        contract_address: convert_opt_addr(&tx.contract_address),
        logs,
        logs_bloom: tx.logs_bloom.dup(),
        status: Some(tx.status),
    }
}

/// The hashes among a block listing's transaction entries, in order.
pub open spec fn tx_hash_entries(txs: Seq<Tx>) -> Seq<Seq<u8>>
    decreases txs.len(),
{
    if txs.len() == 0 {
        Seq::empty()
    } else {
        let init = tx_hash_entries(txs.drop_last());
        match txs.last() {
            Tx::Hash(h) => init.push(h@),
            Tx::Full(_) => init,
        }
    }
}

/// The full listings among a block listing's transaction entries, in order.
pub open spec fn full_tx_entries(txs: Seq<Tx>) -> Seq<Transaction>
    decreases txs.len(),
{
    if txs.len() == 0 {
        Seq::empty()
    } else {
        let init = full_tx_entries(txs.drop_last());
        match txs.last() {
            Tx::Hash(_) => init,
            Tx::Full(t) => init.push(t),
        }
    }
}

/// The header-level part of the client image of a block listing: numbers
/// flipped to the client layout, the size wrapped, and no base fee (the
/// flat listing does not carry one).
pub open spec fn client_block_header_of<TX>(b: Block, c: ClientBlock<TX>) -> bool {
    &&& opt_h256_eq(c.hash, b.hash)
    &&& c.parent_hash@ == b.parent_hash@
    &&& c.author matches Some(a) && a@ == b.miner@
    &&& c.state_root@ == b.state_root@
    &&& c.transactions_root@ == b.transactions_root@
    &&& c.receipts_root@ == b.receipts_root@
    &&& c.number == b.number
    &&& c.gas_used == b.gas_used
    &&& c.extra_data@ == b.extra_data@
    &&& match b.logs_bloom {
        Some(lb) => c.logs_bloom matches Some(cb) && cb@ == lb@,
        None => c.logs_bloom is None,
    }
    &&& c.timestamp == b.timestamp
    &&& match b.total_difficulty {
        Some(td) => c.total_difficulty matches Some(cd) && cd@ == rev_bytes(td@),
        None => c.total_difficulty is None,
    }
    &&& c.size == Some(b.size)
    &&& c.base_fee_per_gas is None
    &&& c.uncles_hash@ == b.sha3_uncles@
    &&& c.gas_limit == b.gas_limit
    &&& c.difficulty@ == rev_bytes(b.difficulty@)
    &&& c.uncles@.len() == b.uncles@.len()
    &&& (forall|i: int| 0 <= i < c.uncles@.len() ==> (#[trigger] c.uncles@[i])@ == b.uncles@[i]@)
    &&& c.mix_hash@ == b.mix_hash@
    &&& match b.nonce {
        Some(x) => c.nonce matches Some(y) && y@ == x@,
        None => c.nonce is None,
    }
}

fn convert_block_uncles(b: &Block) -> (r: Vec<H256>)
    ensures
        r@.len() == b.uncles@.len(),
        forall|i: int| 0 <= i < r@.len() ==> (#[trigger] r@[i])@ == b.uncles@[i]@,
{
    let n = b.uncles.len();
    let mut r: Vec<H256> = Vec::new();
    let mut i: usize = 0;
    while i < n
        invariant
            i <= n,
            n == b.uncles@.len(),
            r@.len() == i,
            forall|j: int| 0 <= j < i ==> (#[trigger] r@[j])@ == b.uncles@[j]@,
        decreases n - i,
    {
        r.push(b.uncles[i].dup());
        i = i + 1;
    }
    r
}

/// Convert a block listing to the client block over full transaction
/// listings: the full entries are converted in order, bare hash entries are
/// dropped.
pub fn jsonrpc_block_with_txs_to_ethers(block: &Block) -> (r: ClientBlock<ClientTransaction>)
    requires
        forall|i: int|
            0 <= i < block.transactions@.len() ==> ((#[trigger] block.transactions@[i])
                matches Tx::Full(t) ==> t.wf()),
    ensures
        client_block_header_of(*block, r),
        r.transactions@.len() == full_tx_entries(block.transactions@).len(),
        forall|i: int|
            0 <= i < r.transactions@.len() ==> client_tx_of(
                full_tx_entries(block.transactions@)[i],
                #[trigger] r.transactions@[i],
            ),
{
    let n = block.transactions.len();
    let mut txs: Vec<ClientTransaction> = Vec::new();
    let mut i: usize = 0;
    proof {
        assert(block.transactions@.take(0) =~= Seq::<Tx>::empty());
    }
    while i < n
        invariant
            forall|k: int|
                0 <= k < block.transactions@.len() ==> ((#[trigger] block.transactions@[k])
                    matches Tx::Full(t) ==> t.wf()),
            i <= n,
            n == block.transactions@.len(),
            txs@.len() == full_tx_entries(block.transactions@.take(i as int)).len(),
            forall|j: int|
                0 <= j < txs@.len() ==> client_tx_of(
                    full_tx_entries(block.transactions@.take(i as int))[j],
                    #[trigger] txs@[j],
                ),
        decreases n - i,
    {
        proof {
            assert(block.transactions@.take(i + 1).drop_last() =~= block.transactions@.take(
                i as int,
            ));
            assert(block.transactions@.take(i + 1).last() == block.transactions@[i as int]);
        }
        match &block.transactions[i] {
            Tx::Full(t) => {
                txs.push(jsonrpc_tx_to_ethers(t));
            },
            Tx::Hash(_) => {},
        }
        i = i + 1;
    }
    proof {
        assert(block.transactions@.take(n as int) =~= block.transactions@);
    }
    ClientBlock {
        hash: convert_opt_h256(&block.hash),
        parent_hash: block.parent_hash.dup(),
        author: Some(block.miner.dup()),
        state_root: block.state_root.dup(),
        transactions_root: block.transactions_root.dup(),
        receipts_root: block.receipts_root.dup(),
        number: block.number,
        gas_used: block.gas_used,
        extra_data: copy_bytes(&block.extra_data),
        logs_bloom: match &block.logs_bloom {
            Some(lb) => Some(lb.dup()),
            None => None,
        },
        timestamp: block.timestamp,
        total_difficulty: match &block.total_difficulty {
            Some(td) => Some(ethnum_u256_to_ethers(td)),
            None => None,
        },
        transactions: txs,
        size: Some(block.size),
        base_fee_per_gas: None,
        uncles_hash: block.sha3_uncles.dup(),
        gas_limit: block.gas_limit,
        difficulty: ethnum_u256_to_ethers(&block.difficulty),
        uncles: convert_block_uncles(block),
        mix_hash: block.mix_hash.dup(),
        nonce: match &block.nonce {
            Some(x) => Some(x.dup()),
            None => None,
        },
    }
}

/// Convert a block listing to the client block over transaction hashes:
/// the bare hash entries are carried across in order, full entries are
/// dropped.
pub fn jsonrpc_block_with_hashes_to_ethers(block: &Block) -> (r: ClientBlock<H256>)
    ensures
        client_block_header_of(*block, r),
        r.transactions@.len() == tx_hash_entries(block.transactions@).len(),
        forall|i: int|
            0 <= i < r.transactions@.len() ==> (#[trigger] r.transactions@[i])@ == tx_hash_entries(
                block.transactions@,
            )[i],
{
    let n = block.transactions.len();
    let mut txs: Vec<H256> = Vec::new();
    let mut i: usize = 0;
    proof {
        assert(block.transactions@.take(0) =~= Seq::<Tx>::empty());
    }
    while i < n
        invariant
            i <= n,
            n == block.transactions@.len(),
            txs@.len() == tx_hash_entries(block.transactions@.take(i as int)).len(),
            forall|j: int|
                0 <= j < txs@.len() ==> (#[trigger] txs@[j])@ == tx_hash_entries(
                    block.transactions@.take(i as int),
                )[j],
        decreases n - i,
    {
        proof {
            assert(block.transactions@.take(i + 1).drop_last() =~= block.transactions@.take(
                i as int,
            ));
            assert(block.transactions@.take(i + 1).last() == block.transactions@[i as int]);
        }
        match &block.transactions[i] {
            Tx::Hash(h) => {
                txs.push(h.dup());
            },
            Tx::Full(_) => {},
        }
        i = i + 1;
    }
    proof {
        assert(block.transactions@.take(n as int) =~= block.transactions@);
    }
    ClientBlock {
        hash: convert_opt_h256(&block.hash),
        parent_hash: block.parent_hash.dup(),
        author: Some(block.miner.dup()),
        state_root: block.state_root.dup(),
        transactions_root: block.transactions_root.dup(),
        receipts_root: block.receipts_root.dup(),
        number: block.number,
        gas_used: block.gas_used,
        extra_data: copy_bytes(&block.extra_data),
        logs_bloom: match &block.logs_bloom {
            Some(lb) => Some(lb.dup()),
            None => None,
        },
        timestamp: block.timestamp,
        total_difficulty: match &block.total_difficulty {
            Some(td) => Some(ethnum_u256_to_ethers(td)),
            None => None,
        },
        transactions: txs,
        size: Some(block.size),
        base_fee_per_gas: None,
        uncles_hash: block.sha3_uncles.dup(),
        gas_limit: block.gas_limit,
        difficulty: ethnum_u256_to_ethers(&block.difficulty),
        uncles: convert_block_uncles(block),
        mix_hash: block.mix_hash.dup(),
        nonce: match &block.nonce {
            Some(x) => Some(x.dup()),
            None => None,
        },
    }
}

/// The client image of a storage-side envelope: the same variant, every
/// field carried across, the 256-bit numbers byte-flipped to the big-endian
/// client layout.
pub open spec fn envelope_to_client(m: TxMessageView) -> ClientEnvelopeView {
    match m {
        TxMessageView::Legacy { chain_id, nonce, gas_price, gas_limit, to, value, input } => {
            ClientEnvelopeView::Legacy {
                chain_id,
                nonce,
                gas_price: rev_bytes(gas_price),
                gas_limit,
                to,
                value: rev_bytes(value),
                input,
            }
        },
        TxMessageView::AccessList {
            chain_id,
            nonce,
            gas_price,
            gas_limit,
            to,
            value,
            input,
            access_list,
        } => {
            ClientEnvelopeView::AccessList {
                chain_id,
                nonce,
                gas_price: rev_bytes(gas_price),
                gas_limit,
                to,
                value: rev_bytes(value),
                input,
                access_list,
            }
        },
        TxMessageView::FeeMarket {
            chain_id,
            nonce,
            max_priority_fee_per_gas,
            max_fee_per_gas,
            gas_limit,
            to,
            value,
            input,
            access_list,
        } => {
            ClientEnvelopeView::FeeMarket {
                chain_id,
                nonce,
                max_priority_fee_per_gas: rev_bytes(max_priority_fee_per_gas),
                max_fee_per_gas: rev_bytes(max_fee_per_gas),
                gas_limit,
                to,
                value: rev_bytes(value),
                input,
                access_list,
            }
        },
    }
}

/// The storage image of a client envelope: the inverse flip, the same
/// variant and fields.
pub open spec fn envelope_to_storage(e: ClientEnvelopeView) -> TxMessageView {
    match e {
        ClientEnvelopeView::Legacy { chain_id, nonce, gas_price, gas_limit, to, value, input } => {
            TxMessageView::Legacy {
                chain_id,
                nonce,
                gas_price: rev_bytes(gas_price),
                gas_limit,
                to,
                value: rev_bytes(value),
                input,
            }
        },
        ClientEnvelopeView::AccessList {
            chain_id,
            nonce,
            gas_price,
            gas_limit,
            to,
            value,
            input,
            access_list,
        } => {
            TxMessageView::AccessList {
                chain_id,
                nonce,
                gas_price: rev_bytes(gas_price),
                gas_limit,
                to,
                value: rev_bytes(value),
                input,
                access_list,
            }
        },
        ClientEnvelopeView::FeeMarket {
            chain_id,
            nonce,
            max_priority_fee_per_gas,
            max_fee_per_gas,
            gas_limit,
            to,
            value,
            input,
            access_list,
        } => {
            TxMessageView::FeeMarket {
                chain_id,
                nonce,
                max_priority_fee_per_gas: rev_bytes(max_priority_fee_per_gas),
                max_fee_per_gas: rev_bytes(max_fee_per_gas),
                gas_limit,
                to,
                value: rev_bytes(value),
                input,
                access_list,
            }
        },
    }
}

/// The client image of a stored transaction: hash, signature and sender
/// unchanged, the envelope converted.
pub open spec fn record_to_client(r: TxRecordView) -> ClientSignedTxView {
    ClientSignedTxView {
        hash: r.hash,
        envelope: envelope_to_client(r.message),
        v: r.v,
        r: r.r,
        s: r.s,
        sender: r.sender,
    }
}

/// The storage image of a client signed transaction.
pub open spec fn record_from_client(c: ClientSignedTxView) -> TxRecordView {
    TxRecordView {
        hash: c.hash,
        message: envelope_to_storage(c.envelope),
        v: c.v,
        r: c.r,
        s: c.s,
        sender: c.sender,
    }
}

/// Round trip of the lossless transaction conversion: a stored legacy,
/// access-list or fee-market transaction converted to the client
/// representation and back is unchanged — no field is lost, none is
/// fabricated.
pub proof fn lemma_tx_record_round_trip(r: TxRecordView)
    ensures
        record_from_client(record_to_client(r)) == r,
{
    match r.message {
        TxMessageView::Legacy { gas_price, value, .. } => {
            crate::words::lemma_rev_bytes_involutive(gas_price);
            crate::words::lemma_rev_bytes_involutive(value);
        },
        TxMessageView::AccessList { gas_price, value, .. } => {
            crate::words::lemma_rev_bytes_involutive(gas_price);
            crate::words::lemma_rev_bytes_involutive(value);
        },
        TxMessageView::FeeMarket { max_priority_fee_per_gas, max_fee_per_gas, value, .. } => {
            crate::words::lemma_rev_bytes_involutive(max_priority_fee_per_gas);
            crate::words::lemma_rev_bytes_involutive(max_fee_per_gas);
            crate::words::lemma_rev_bytes_involutive(value);
        },
    }
}

/// Round trip in the other direction: a client signed transaction
/// converted to the storage representation and back is unchanged.
pub proof fn lemma_client_tx_round_trip(c: ClientSignedTxView)
    ensures
        record_to_client(record_from_client(c)) == c,
{
    match c.envelope {
        ClientEnvelopeView::Legacy { gas_price, value, .. } => {
            crate::words::lemma_rev_bytes_involutive(gas_price);
            crate::words::lemma_rev_bytes_involutive(value);
        },
        ClientEnvelopeView::AccessList { gas_price, value, .. } => {
            crate::words::lemma_rev_bytes_involutive(gas_price);
            crate::words::lemma_rev_bytes_involutive(value);
        },
        ClientEnvelopeView::FeeMarket { max_priority_fee_per_gas, max_fee_per_gas, value, .. } => {
            crate::words::lemma_rev_bytes_involutive(max_priority_fee_per_gas);
            crate::words::lemma_rev_bytes_involutive(max_fee_per_gas);
            crate::words::lemma_rev_bytes_involutive(value);
        },
    }
}

fn to_action(to: &Option<Address>) -> (r: crate::chain::TxAction)
    ensures
        crate::chain::action_view(r) == crate::client::opt_addr_view(*to),
        match to {
            Some(a) => a.wf() ==> r.wf(),
            None => r.wf(),
        },
{
    match to {
        Some(a) => crate::chain::TxAction::Call(a.dup()),
        None => crate::chain::TxAction::Create,
    }
}

/// Convert a stored transaction to its lossless client representation.
pub fn tx_record_to_client(rec: &TxRecord) -> (r: ClientSignedTx)
    requires
        rec.wf(),
    ensures
        r@ == record_to_client(rec@),
        r.wf(),
{
    let envelope = match &rec.message {
        crate::chain::TxMessage::Legacy {
            chain_id,
            nonce,
            gas_price,
            gas_limit,
            action,
            value,
            input,
        } => {
            let e = ClientEnvelope::Legacy {
                chain_id: *chain_id,
                nonce: *nonce,
                gas_price: ethnum_u256_to_ethers(gas_price),
                gas_limit: *gas_limit,
                to: match action {
                    crate::chain::TxAction::Call(a) => Some(a.dup()),
                    crate::chain::TxAction::Create => None,
                },
                value: ethnum_u256_to_ethers(value),
                input: copy_bytes(input),
            };
            e
        },
        crate::chain::TxMessage::AccessList {
            chain_id,
            nonce,
            gas_price,
            gas_limit,
            action,
            value,
            input,
            access_list,
        } => {
            let al = access_list_to_client(access_list);
            proof {
                assert(al@.map_values(|x: ClientAccessListItem| x@) =~= access_list@.map_values(
                    |x: AccessListEntry| x@,
                ));
            }
            ClientEnvelope::AccessList {
                chain_id: *chain_id,
                nonce: *nonce,
                gas_price: ethnum_u256_to_ethers(gas_price),
                gas_limit: *gas_limit,
                to: match action {
                    crate::chain::TxAction::Call(a) => Some(a.dup()),
                    crate::chain::TxAction::Create => None,
                },
                value: ethnum_u256_to_ethers(value),
                input: copy_bytes(input),
                access_list: al,
            }
        },
        crate::chain::TxMessage::FeeMarket {
            chain_id,
            nonce,
            max_priority_fee_per_gas,
            max_fee_per_gas,
            gas_limit,
            action,
            value,
            input,
            access_list,
        } => {
            let al = access_list_to_client(access_list);
            proof {
                assert(al@.map_values(|x: ClientAccessListItem| x@) =~= access_list@.map_values(
                    |x: AccessListEntry| x@,
                ));
            }
            ClientEnvelope::FeeMarket {
                chain_id: *chain_id,
                nonce: *nonce,
                max_priority_fee_per_gas: ethnum_u256_to_ethers(max_priority_fee_per_gas),
                max_fee_per_gas: ethnum_u256_to_ethers(max_fee_per_gas),
                gas_limit: *gas_limit,
                to: match action {
                    crate::chain::TxAction::Call(a) => Some(a.dup()),
                    crate::chain::TxAction::Create => None,
                },
                value: ethnum_u256_to_ethers(value),
                input: copy_bytes(input),
                access_list: al,
            }
        },
    };
    ClientSignedTx {
        hash: rec.hash.dup(),
        envelope,
        v: rec.v,
        r: rec.r.dup(),
        s: rec.s.dup(),
        sender: rec.sender.dup(),
    }
}

/// Convert a client signed transaction back to the storage representation.
pub fn client_tx_to_tx_record(tx: &ClientSignedTx) -> (r: TxRecord)
    requires
        tx.wf(),
    ensures
        r@ == record_from_client(tx@),
        r.wf(),
{
    let message = match &tx.envelope {
        ClientEnvelope::Legacy { chain_id, nonce, gas_price, gas_limit, to, value, input } => {
            crate::chain::TxMessage::Legacy {
                chain_id: *chain_id,
                nonce: *nonce,
                gas_price: ethers_u256_to_ethnum(gas_price),
                gas_limit: *gas_limit,
                action: to_action(to),
                value: ethers_u256_to_ethnum(value),
                input: copy_bytes(input),
            }
        },
        ClientEnvelope::AccessList {
            chain_id,
            nonce,
            gas_price,
            gas_limit,
            to,
            value,
            input,
            access_list,
        } => {
            let al = access_list_to_storage(access_list);
            proof {
                assert(al@.map_values(|x: AccessListEntry| x@) =~= access_list@.map_values(
                    |x: ClientAccessListItem| x@,
                ));
            }
            crate::chain::TxMessage::AccessList {
                chain_id: *chain_id,
                nonce: *nonce,
                gas_price: ethers_u256_to_ethnum(gas_price),
                gas_limit: *gas_limit,
                action: to_action(to),
                value: ethers_u256_to_ethnum(value),
                input: copy_bytes(input),
                access_list: al,
            }
        },
        ClientEnvelope::FeeMarket {
            chain_id,
            nonce,
            max_priority_fee_per_gas,
            max_fee_per_gas,
            gas_limit,
            to,
            value,
            input,
            access_list,
        } => {
            let al = access_list_to_storage(access_list);
            proof {
                assert(al@.map_values(|x: AccessListEntry| x@) =~= access_list@.map_values(
                    |x: ClientAccessListItem| x@,
                ));
            }
            crate::chain::TxMessage::FeeMarket {
                chain_id: *chain_id,
                nonce: *nonce,
                max_priority_fee_per_gas: ethers_u256_to_ethnum(max_priority_fee_per_gas),
                max_fee_per_gas: ethers_u256_to_ethnum(max_fee_per_gas),
                gas_limit: *gas_limit,
                action: to_action(to),
                value: ethers_u256_to_ethnum(value),
                input: copy_bytes(input),
                access_list: al,
            }
        },
    };
    TxRecord {
        hash: tx.hash.dup(),
        message,
        v: tx.v,
        r: tx.r.dup(),
        s: tx.s.dup(),
        sender: tx.sender.dup(),
    }
}

} // verus!
