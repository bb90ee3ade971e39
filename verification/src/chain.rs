//! The committed chain view that the storage engine serves, modelled as
//! plain data.
//!
//! The storage engine itself (key-value store, canonical-hash and
//! transaction-lookup indices, versioned account/storage accessor) is an
//! external collaborator; [`ChainDb`] holds what its committed view contains
//! at query time, so that every read rule can be verified. Everything that
//! only an execution engine or a codec can compute — a transaction's hash,
//! a sender recovered from a signature, an uncle header's hash, a block's
//! encoded size, the deterministic replay outcome of each transaction of a
//! block — is likewise held as data.

use vstd::prelude::*;

use crate::words::{Address, Bloom, H256, H64, StorageU256};

verus! {

/// An account as the state accessor returns it.
pub struct Account {
    pub nonce: u64,
    pub balance: StorageU256,
    pub code_hash: H256,
}

/// The ghost image of an [`Account`].
pub ghost struct AccountView {
    pub nonce: u64,
    pub balance: Seq<u8>,
    pub code_hash: Seq<u8>,
}

impl View for Account {
    type V = AccountView;

    open spec fn view(&self) -> AccountView {
        AccountView { nonce: self.nonce, balance: self.balance@, code_hash: self.code_hash@ }
    }
}

impl Account {
    pub open spec fn wf(&self) -> bool {
        self.balance.wf() && self.code_hash.wf()
    }

    pub fn dup(&self) -> (r: Self)
        ensures
            r@ == self@,
    {
        Account { nonce: self.nonce, balance: self.balance.dup(), code_hash: self.code_hash.dup() }
    }
}

/// One versioned write of an account: at `height`, `address` took `account`.
/// The write list is chronological, so the value visible at height `h` is
/// the last listed write with `height <= h`.
pub struct AccountWrite {
    pub height: u64,
    pub address: Address,
    pub account: Account,
}

impl AccountWrite {
    pub open spec fn wf(&self) -> bool {
        self.address.wf() && self.account.wf()
    }
}

/// One versioned write of a storage slot.
pub struct StorageWrite {
    pub height: u64,
    pub address: Address,
    pub key: StorageU256,
    pub value: StorageU256,
}

impl StorageWrite {
    pub open spec fn wf(&self) -> bool {
        self.address.wf() && self.key.wf() && self.value.wf()
    }
}

/// One entry of the code table, keyed by code hash.
pub struct CodeEntry {
    pub code_hash: H256,
    pub code: Vec<u8>,
}

impl CodeEntry {
    pub open spec fn wf(&self) -> bool {
        self.code_hash.wf()
    }
}

/// The chain configuration; only the chain id matters to the call path.
pub struct ChainSpec {
    pub chain_id: u64,
}

/// What a transaction does: call an existing account, or create a contract.
pub enum TxAction {
    Create,
    Call(Address),
}

impl TxAction {
    pub open spec fn wf(&self) -> bool {
        match self {
            TxAction::Create => true,
            TxAction::Call(a) => a.wf(),
        }
    }
}

/// One pre-declared address with its storage keys (EIP-2930).
pub struct AccessListEntry {
    pub address: Address,
    pub storage_keys: Vec<H256>,
}

impl AccessListEntry {
    pub open spec fn wf(&self) -> bool {
        self.address.wf() && forall|i: int|
            0 <= i < self.storage_keys@.len() ==> self.storage_keys@[i].wf()
    }
}

pub open spec fn access_list_wf(al: Seq<AccessListEntry>) -> bool {
    forall|i: int| 0 <= i < al.len() ==> al[i].wf()
}

/// The ghost image of an access-list item, shared by both type systems.
pub ghost struct AccessItemView {
    pub address: Seq<u8>,
    pub storage_keys: Seq<Seq<u8>>,
}

impl View for AccessListEntry {
    type V = AccessItemView;

    open spec fn view(&self) -> AccessItemView {
        AccessItemView {
            address: self.address@,
            storage_keys: self.storage_keys@.map_values(|k: H256| k@),
        }
    }
}

/// The three transaction envelopes of the storage-side type system. The fee
/// fields are mutually exclusive by construction: a legacy transaction has no
/// access list at all, rather than an empty one, and only the fee-market
/// shape separates the base fee from the priority fee.
pub enum TxMessage {
    Legacy {
        chain_id: Option<u64>,
        nonce: u64,
        gas_price: StorageU256,
        gas_limit: u64,
        action: TxAction,
        value: StorageU256,
        input: Vec<u8>,
    },
    AccessList {
        chain_id: u64,
        nonce: u64,
        gas_price: StorageU256,
        gas_limit: u64,
        action: TxAction,
        value: StorageU256,
        input: Vec<u8>,
        access_list: Vec<AccessListEntry>,
    },
    FeeMarket {
        chain_id: u64,
        nonce: u64,
        max_priority_fee_per_gas: StorageU256,
        max_fee_per_gas: StorageU256,
        gas_limit: u64,
        action: TxAction,
        value: StorageU256,
        input: Vec<u8>,
        access_list: Vec<AccessListEntry>,
    },
}

impl TxMessage {
    pub open spec fn wf(&self) -> bool {
        match self {
            TxMessage::Legacy { gas_price, action, value, .. } => gas_price.wf() && action.wf()
                && value.wf(),
            TxMessage::AccessList { gas_price, action, value, access_list, .. } => gas_price.wf()
                && action.wf() && value.wf() && access_list_wf(access_list@),
            TxMessage::FeeMarket {
                max_priority_fee_per_gas,
                max_fee_per_gas,
                action,
                value,
                access_list,
                ..
            } => max_priority_fee_per_gas.wf() && max_fee_per_gas.wf() && action.wf() && value.wf()
                && access_list_wf(access_list@),
        }
    }

    pub open spec fn spec_nonce(&self) -> u64 {
        match self {
            TxMessage::Legacy { nonce, .. } => *nonce,
            TxMessage::AccessList { nonce, .. } => *nonce,
            TxMessage::FeeMarket { nonce, .. } => *nonce,
        }
    }

    pub open spec fn spec_gas_limit(&self) -> u64 {
        match self {
            TxMessage::Legacy { gas_limit, .. } => *gas_limit,
            TxMessage::AccessList { gas_limit, .. } => *gas_limit,
            TxMessage::FeeMarket { gas_limit, .. } => *gas_limit,
        }
    }

    pub open spec fn spec_action(&self) -> TxAction {
        match self {
            TxMessage::Legacy { action, .. } => *action,
            TxMessage::AccessList { action, .. } => *action,
            TxMessage::FeeMarket { action, .. } => *action,
        }
    }

    pub open spec fn spec_value(&self) -> StorageU256 {
        match self {
            TxMessage::Legacy { value, .. } => *value,
            TxMessage::AccessList { value, .. } => *value,
            TxMessage::FeeMarket { value, .. } => *value,
        }
    }

    pub open spec fn spec_input(&self) -> Seq<u8> {
        match self {
            TxMessage::Legacy { input, .. } => input@,
            TxMessage::AccessList { input, .. } => input@,
            TxMessage::FeeMarket { input, .. } => input@,
        }
    }

    /// The price a flat listing reports: the gas price where there is one,
    /// the fee cap for the fee-market shape.
    pub open spec fn spec_display_price(&self) -> Seq<u8> {
        match self {
            TxMessage::Legacy { gas_price, .. } => gas_price@,
            TxMessage::AccessList { gas_price, .. } => gas_price@,
            TxMessage::FeeMarket { max_fee_per_gas, .. } => max_fee_per_gas@,
        }
    }

    pub fn nonce(&self) -> (r: u64)
        ensures
            r == self.spec_nonce(),
    {
        match self {
            TxMessage::Legacy { nonce, .. } => *nonce,
            TxMessage::AccessList { nonce, .. } => *nonce,
            TxMessage::FeeMarket { nonce, .. } => *nonce,
        }
    }

    pub fn gas_limit(&self) -> (r: u64)
        ensures
            r == self.spec_gas_limit(),
    {
        match self {
            TxMessage::Legacy { gas_limit, .. } => *gas_limit,
            TxMessage::AccessList { gas_limit, .. } => *gas_limit,
            TxMessage::FeeMarket { gas_limit, .. } => *gas_limit,
        }
    }

    /// The recipient as an owned option: `None` for a creation.
    pub fn recipient(&self) -> (r: Option<Address>)
        ensures
            match self.spec_action() {
                TxAction::Create => r is None,
                TxAction::Call(a) => r matches Some(b) && b@ == a@,
            },
    {
        match self {
            TxMessage::Legacy { action, .. } => action_recipient(action),
            TxMessage::AccessList { action, .. } => action_recipient(action),
            TxMessage::FeeMarket { action, .. } => action_recipient(action),
        }
    }
}

fn action_recipient(action: &TxAction) -> (r: Option<Address>)
    ensures
        match action {
            TxAction::Create => r is None,
            TxAction::Call(a) => r matches Some(b) && b@ == a@,
        },
{
    match action {
        TxAction::Create => None,
        TxAction::Call(a) => Some(a.dup()),
    }
}

/// The ghost image of a [`TxMessage`]: the same three envelopes over
/// mathematical values, with the recipient as `None` for a creation.
pub ghost enum TxMessageView {
    Legacy {
        chain_id: Option<u64>,
        nonce: u64,
        gas_price: Seq<u8>,
        gas_limit: u64,
        to: Option<Seq<u8>>,
        value: Seq<u8>,
        input: Seq<u8>,
    },
    AccessList {
        chain_id: u64,
        nonce: u64,
        gas_price: Seq<u8>,
        gas_limit: u64,
        to: Option<Seq<u8>>,
        value: Seq<u8>,
        input: Seq<u8>,
        access_list: Seq<AccessItemView>,
    },
    FeeMarket {
        chain_id: u64,
        nonce: u64,
        max_priority_fee_per_gas: Seq<u8>,
        max_fee_per_gas: Seq<u8>,
        gas_limit: u64,
        to: Option<Seq<u8>>,
        value: Seq<u8>,
        input: Seq<u8>,
        access_list: Seq<AccessItemView>,
    },
}

pub open spec fn action_view(a: TxAction) -> Option<Seq<u8>> {
    match a {
        TxAction::Create => None,
        TxAction::Call(addr) => Some(addr@),
    }
}

impl View for TxMessage {
    type V = TxMessageView;

    open spec fn view(&self) -> TxMessageView {
        match self {
            TxMessage::Legacy { chain_id, nonce, gas_price, gas_limit, action, value, input } => {
                TxMessageView::Legacy {
                    chain_id: *chain_id,
                    nonce: *nonce,
                    gas_price: gas_price@,
                    gas_limit: *gas_limit,
                    to: action_view(*action),
                    value: value@,
                    input: input@,
                }
            },
            TxMessage::AccessList {
                chain_id,
                nonce,
                gas_price,
                gas_limit,
                action,
                value,
                input,
                access_list,
            } => {
                TxMessageView::AccessList {
                    chain_id: *chain_id,
                    nonce: *nonce,
                    gas_price: gas_price@,
                    gas_limit: *gas_limit,
                    to: action_view(*action),
                    value: value@,
                    input: input@,
                    access_list: access_list@.map_values(|e: AccessListEntry| e@),
                }
            },
            TxMessage::FeeMarket {
                chain_id,
                nonce,
                max_priority_fee_per_gas,
                max_fee_per_gas,
                gas_limit,
                action,
                value,
                input,
                access_list,
            } => {
                TxMessageView::FeeMarket {
                    chain_id: *chain_id,
                    nonce: *nonce,
                    max_priority_fee_per_gas: max_priority_fee_per_gas@,
                    max_fee_per_gas: max_fee_per_gas@,
                    gas_limit: *gas_limit,
                    to: action_view(*action),
                    value: value@,
                    input: input@,
                    access_list: access_list@.map_values(|e: AccessListEntry| e@),
                }
            },
        }
    }
}

/// A stored transaction: envelope, signature, and what only the codec and
/// signature recovery can compute — its hash and its sender.
pub struct TxRecord {
    pub hash: H256,
    pub message: TxMessage,
    pub v: u64,
    pub r: H256,
    pub s: H256,
    pub sender: Address,
}

impl TxRecord {
    pub open spec fn wf(&self) -> bool {
        self.hash.wf() && self.message.wf() && self.r.wf() && self.s.wf() && self.sender.wf()
    }
}

/// The ghost image of a [`TxRecord`].
pub ghost struct TxRecordView {
    pub hash: Seq<u8>,
    pub message: TxMessageView,
    pub v: u64,
    pub r: Seq<u8>,
    pub s: Seq<u8>,
    pub sender: Seq<u8>,
}

impl View for TxRecord {
    type V = TxRecordView;

    open spec fn view(&self) -> TxRecordView {
        TxRecordView {
            hash: self.hash@,
            message: self.message@,
            v: self.v,
            r: self.r@,
            s: self.s@,
            sender: self.sender@,
        }
    }
}

/// One log emitted during execution.
pub struct LogRecord {
    pub address: Address,
    pub topics: Vec<H256>,
    pub data: Vec<u8>,
}

impl LogRecord {
    pub open spec fn wf(&self) -> bool {
        self.address.wf() && forall|i: int| 0 <= i < self.topics@.len() ==> self.topics@[i].wf()
    }
}

/// What the execution engine reports for one transaction of a block when the
/// block is replayed in order: the gas that transaction consumed, whether it
/// succeeded, its logs and their bloom. Replay of committed data is
/// deterministic, so this is a function of the chain up to the block.
pub struct TxOutcome {
    pub gas_used: u64,
    pub success: bool,
    pub logs: Vec<LogRecord>,
    pub bloom: Bloom,
}

impl TxOutcome {
    pub open spec fn wf(&self) -> bool {
        self.bloom.wf() && forall|i: int| 0 <= i < self.logs@.len() ==> self.logs@[i].wf()
    }
}

/// Gas consumed by the first `n` outcomes together; the cumulative gas of
/// transaction `n - 1`.
pub open spec fn sum_gas(outcomes: Seq<TxOutcome>, n: int) -> int
    decreases n,
{
    if n <= 0 {
        0
    } else {
        sum_gas(outcomes, n - 1) + outcomes[n - 1].gas_used
    }
}

/// A block header as stored.
pub struct Header {
    pub parent_hash: H256,
    pub ommers_hash: H256,
    pub beneficiary: Address,
    pub state_root: H256,
    pub transactions_root: H256,
    pub receipts_root: H256,
    pub logs_bloom: Bloom,
    pub difficulty: StorageU256,
    pub number: u64,
    pub gas_limit: u64,
    pub gas_used: u64,
    pub timestamp: u64,
    pub extra_data: Vec<u8>,
    pub mix_hash: H256,
    pub nonce: H64,
    pub base_fee_per_gas: Option<StorageU256>,
}

impl Header {
    pub open spec fn wf(&self) -> bool {
        self.parent_hash.wf() && self.ommers_hash.wf() && self.beneficiary.wf()
            && self.state_root.wf() && self.transactions_root.wf() && self.receipts_root.wf()
            && self.logs_bloom.wf() && self.difficulty.wf() && self.mix_hash.wf()
            && self.nonce.wf() && match self.base_fee_per_gas {
            Some(f) => f.wf(),
            None => true,
        }
    }
}

/// An uncle header together with its hash (computed by the codec when the
/// block was stored).
pub struct UncleRecord {
    pub hash: H256,
    pub header: Header,
}

impl UncleRecord {
    pub open spec fn wf(&self) -> bool {
        self.hash.wf() && self.header.wf()
    }
}

/// A block body: the ordered transactions (order is execution order and
/// on-chain index — load-bearing, never reordered) and the uncle headers.
pub struct BlockBody {
    pub transactions: Vec<TxRecord>,
    pub uncles: Vec<UncleRecord>,
}

impl BlockBody {
    pub open spec fn wf(&self) -> bool {
        &&& (forall|i: int| 0 <= i < self.transactions@.len() ==> self.transactions@[i].wf())
        &&& (forall|i: int, j: int|
            0 <= i < j < self.transactions@.len() ==> self.transactions@[i].hash@
                != self.transactions@[j].hash@)
        &&& (forall|i: int| 0 <= i < self.uncles@.len() ==> self.uncles@[i].wf())
    }

    /// Whether some transaction of this body has the given hash.
    pub open spec fn has_tx(&self, hash: Seq<u8>) -> bool {
        exists|i: int|
            0 <= i < self.transactions@.len() && self.transactions@[i].hash@ == hash
    }

    /// The position of the transaction with this hash; meaningful only when
    /// `has_tx` holds (hashes are unique in a well-formed body).
    pub open spec fn spec_tx_idx(&self, hash: Seq<u8>) -> int {
        choose|i: int|
            0 <= i < self.transactions@.len() && self.transactions@[i].hash@ == hash
    }

    /// Locate a transaction inside this body by hash equality.
    pub fn find_tx_index(&self, hash: &H256) -> (r: Option<usize>)
        requires
            self.wf(),
        ensures
            match r {
                Some(i) => self.has_tx(hash@) && i == self.spec_tx_idx(hash@) && i
                    < self.transactions@.len() && self.transactions@[i as int].hash@ == hash@,
                None => !self.has_tx(hash@),
            },
    {
        let n = self.transactions.len();
        let mut i: usize = 0;
        while i < n
            invariant
                self.wf(),
                i <= n,
                n == self.transactions@.len(),
                forall|j: int| 0 <= j < i ==> self.transactions@[j].hash@ != hash@,
            decreases n - i,
        {
            if self.transactions[i].hash.eq_value(hash) {
                assert(self.has_tx(hash@));
                proof {
                    let k = self.spec_tx_idx(hash@);
                    assert(0 <= k < self.transactions@.len() && self.transactions@[k].hash@
                        == hash@);
                    assert(k == i);
                }
                return Some(i);
            }
            i = i + 1;
        }
        None
    }
}

/// A stored block: header, body, per-transaction replay outcomes, and the
/// codec- and consensus-derived extras a block listing reports.
pub struct StoredBlock {
    pub hash: H256,
    pub header: Header,
    pub body: BlockBody,
    pub outcomes: Vec<TxOutcome>,
    pub total_difficulty: StorageU256,
    pub size: u64,
}

impl StoredBlock {
    pub open spec fn wf(&self) -> bool {
        &&& self.hash.wf()
        &&& self.header.wf()
        &&& self.body.wf()
        &&& self.total_difficulty.wf()
        &&& self.outcomes@.len() == self.body.transactions@.len()
        &&& (forall|i: int| 0 <= i < self.outcomes@.len() ==> self.outcomes@[i].wf())
        &&& sum_gas(self.outcomes@, self.outcomes@.len() as int) <= self.header.gas_limit
    }
}

/// One entry of the transaction-lookup index: transaction hash to the height
/// of its containing block.
pub struct TxLookupEntry {
    pub tx_hash: H256,
    pub block_number: u64,
}

impl TxLookupEntry {
    pub open spec fn wf(&self) -> bool {
        self.tx_hash.wf()
    }
}

/// The height recorded for a transaction hash: the last entry of the
/// chronological lookup index that carries it.
pub open spec fn tx_lookup_at(lookup: Seq<TxLookupEntry>, hash: Seq<u8>) -> Option<u64>
    decreases lookup.len(),
{
    if lookup.len() == 0 {
        None
    } else if lookup.last().tx_hash@ == hash {
        Some(lookup.last().block_number)
    } else {
        tx_lookup_at(lookup.drop_last(), hash)
    }
}

/// The committed view of the chain database at query time.
///
/// `blocks` holds every stored block, canonical or orphaned; `canonical`
/// maps each height to the hash of the single canonical block there;
/// `sync_height` is the persisted progress cursor of the last finished sync
/// stage. The write lists are chronological (the chain is append-only).
pub struct ChainDb {
    pub blocks: Vec<StoredBlock>,
    pub canonical: Vec<H256>,
    pub tx_lookup: Vec<TxLookupEntry>,
    pub account_writes: Vec<AccountWrite>,
    pub storage_writes: Vec<StorageWrite>,
    pub code: Vec<CodeEntry>,
    pub sync_height: Option<u64>,
    pub config: Option<ChainSpec>,
}

impl ChainDb {
    pub open spec fn wf(&self) -> bool {
        &&& (forall|i: int| 0 <= i < self.blocks@.len() ==> self.blocks@[i].wf())
        &&& (forall|i: int, j: int|
            0 <= i < j < self.blocks@.len() ==> self.blocks@[i].hash@ != self.blocks@[j].hash@)
        &&& (forall|i: int| 0 <= i < self.canonical@.len() ==> self.canonical@[i].wf())
        &&& (forall|i: int| 0 <= i < self.tx_lookup@.len() ==> self.tx_lookup@[i].wf())
        &&& (forall|i: int| 0 <= i < self.account_writes@.len() ==> self.account_writes@[i].wf())
        &&& (forall|i: int| 0 <= i < self.storage_writes@.len() ==> self.storage_writes@[i].wf())
        &&& (forall|i: int| 0 <= i < self.code@.len() ==> self.code@[i].wf())
    }

    /// The height `Latest` resolves to: the finished-stage cursor, or 0 when
    /// the cursor was never written.
    pub open spec fn spec_latest_height(&self) -> u64 {
        match self.sync_height {
            Some(h) => h,
            None => 0,
        }
    }

    /// The canonical hash stored for a height, if any.
    pub open spec fn spec_canonical_hash(&self, number: u64) -> Option<Seq<u8>> {
        if number < self.canonical@.len() {
            Some(self.canonical@[number as int]@)
        } else {
            None
        }
    }

    /// Whether some stored block has this hash.
    pub open spec fn has_block(&self, hash: Seq<u8>) -> bool {
        exists|i: int| 0 <= i < self.blocks@.len() && self.blocks@[i].hash@ == hash
    }

    /// The index of the stored block with this hash; meaningful only when
    /// `has_block` holds (block hashes are unique in a well-formed view).
    pub open spec fn spec_block_idx(&self, hash: Seq<u8>) -> int {
        choose|i: int| 0 <= i < self.blocks@.len() && self.blocks@[i].hash@ == hash
    }

    /// The stored block with this hash.
    pub open spec fn spec_block(&self, hash: Seq<u8>) -> StoredBlock {
        self.blocks@[self.spec_block_idx(hash)]
    }

    /// Find the stored block with the given hash.
    pub fn find_block(&self, hash: &H256) -> (r: Option<&StoredBlock>)
        requires
            self.wf(),
        ensures
            match r {
                Some(b) => self.has_block(hash@) && *b == self.spec_block(hash@) && b.hash@
                    == hash@,
                None => !self.has_block(hash@),
            },
    {
        let n = self.blocks.len();
        let mut i: usize = 0;
        while i < n
            invariant
                self.wf(),
                i <= n,
                n == self.blocks@.len(),
                forall|j: int| 0 <= j < i ==> self.blocks@[j].hash@ != hash@,
            decreases n - i,
        {
            if self.blocks[i].hash.eq_value(hash) {
                assert(self.has_block(hash@));
                proof {
                    let k = self.spec_block_idx(hash@);
                    assert(0 <= k < self.blocks@.len() && self.blocks@[k].hash@ == hash@);
                    assert(k == i);
                }
                return Some(&self.blocks[i]);
            }
            i = i + 1;
        }
        None
    }

    /// The height the transaction-lookup index records for a transaction
    /// hash, if any.
    pub open spec fn spec_tx_lookup(&self, hash: Seq<u8>) -> Option<u64> {
        tx_lookup_at(self.tx_lookup@, hash)
    }

    /// Read the transaction-lookup index.
    pub fn read_tx_lookup(&self, hash: &H256) -> (r: Option<u64>)
        requires
            self.wf(),
        ensures
            r == self.spec_tx_lookup(hash@),
    {
        let n = self.tx_lookup.len();
        let mut i: usize = n;
        proof {
            assert(self.tx_lookup@.take(n as int) =~= self.tx_lookup@);
        }
        while i > 0
            invariant
                self.wf(),
                i <= n,
                n == self.tx_lookup@.len(),
                tx_lookup_at(self.tx_lookup@, hash@) == tx_lookup_at(
                    self.tx_lookup@.take(i as int),
                    hash@,
                ),
            decreases i,
        {
            let e = &self.tx_lookup[i - 1];
            proof {
                assert(self.tx_lookup@.take(i as int).last() == self.tx_lookup@[i - 1]);
                assert(self.tx_lookup@.take(i as int).drop_last() =~= self.tx_lookup@.take(
                    i - 1,
                ));
            }
            if e.tx_hash.eq_value(hash) {
                return Some(e.block_number);
            }
            i = i - 1;
        }
        proof {
            assert(self.tx_lookup@.take(0) =~= Seq::<TxLookupEntry>::empty());
        }
        None
    }

    /// The canonical hash stored for a height, duplicated for the caller.
    pub fn canonical_hash(&self, number: u64) -> (r: Option<H256>)
        requires
            self.wf(),
        ensures
            match r {
                Some(h) => self.spec_canonical_hash(number) == Some(h@) && h.wf(),
                None => self.spec_canonical_hash(number) is None,
            },
    {
        let len: u64 = self.canonical.len() as u64;
        if number < len {
            Some(self.canonical[number as usize].dup())
        } else {
            None
        }
    }
}

} // verus!
