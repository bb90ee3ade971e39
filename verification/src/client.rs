//! The client-library-side Ethereum type system: what the adapter
//! translates the storage-side types into and out of.
//!
//! It is independently designed: 256-bit numbers are big-endian-backed
//! ([`crate::words::ClientU256`]), a recipient may be an unresolved name,
//! and block listings are flattened. The two systems are bridged only by
//! the explicit conversion functions of [`crate::utils`], one pure function
//! per direction per entity.

use vstd::prelude::*;

use crate::chain::AccessItemView;
use crate::words::{Address, Bloom, ClientU256, H256, H64};

verus! {

/// A client-side block number selector.
#[derive(Clone, Copy)]
pub enum ClientBlockNumber {
    Latest,
    Earliest,
    Pending,
    Number(u64),
}

/// A client-side block identifier.
pub enum ClientBlockId {
    Number(ClientBlockNumber),
    Hash(H256),
}

/// A recipient as the client names it: an address, or a name that only a
/// name service could resolve (which this core cannot).
pub enum ClientNameOrAddress {
    Name(String),
    Addr(Address),
}

/// One pre-declared address with its storage keys, client-side.
pub struct ClientAccessListItem {
    pub address: Address,
    pub storage_keys: Vec<H256>,
}

impl View for ClientAccessListItem {
    type V = AccessItemView;

    open spec fn view(&self) -> AccessItemView {
        AccessItemView {
            address: self.address@,
            storage_keys: self.storage_keys@.map_values(|k: H256| k@),
        }
    }
}

impl ClientAccessListItem {
    pub open spec fn wf(&self) -> bool {
        self.address.wf() && forall|i: int|
            0 <= i < self.storage_keys@.len() ==> self.storage_keys@[i].wf()
    }
}

/// A caller's transaction request, client-side: the three envelopes, every
/// omittable field optional. The access-list shapes always carry a list
/// (possibly empty); the legacy shape carries none at all.
pub enum ClientTypedTx {
    Legacy {
        from: Option<Address>,
        to: Option<ClientNameOrAddress>,
        gas: Option<u64>,
        gas_price: Option<ClientU256>,
        value: Option<ClientU256>,
        data: Option<Vec<u8>>,
    },
    AccessList {
        from: Option<Address>,
        to: Option<ClientNameOrAddress>,
        gas: Option<u64>,
        gas_price: Option<ClientU256>,
        value: Option<ClientU256>,
        data: Option<Vec<u8>>,
        access_list: Vec<ClientAccessListItem>,
    },
    FeeMarket {
        from: Option<Address>,
        to: Option<ClientNameOrAddress>,
        gas: Option<u64>,
        max_fee_per_gas: Option<ClientU256>,
        max_priority_fee_per_gas: Option<ClientU256>,
        value: Option<ClientU256>,
        data: Option<Vec<u8>>,
        access_list: Vec<ClientAccessListItem>,
    },
}

impl ClientTypedTx {
    pub open spec fn wf(&self) -> bool {
        &&& match self.spec_from() {
            Some(a) => a.wf(),
            None => true,
        }
        &&& match self.spec_to() {
            Some(ClientNameOrAddress::Addr(a)) => a.wf(),
            _ => true,
        }
        &&& match self.spec_price() {
            Some(p) => p.wf(),
            None => true,
        }
        &&& match self.spec_priority_price() {
            Some(p) => p.wf(),
            None => true,
        }
        &&& match self.spec_value() {
            Some(v) => v.wf(),
            None => true,
        }
    }

    pub open spec fn spec_from(&self) -> Option<Address> {
        match self {
            ClientTypedTx::Legacy { from, .. } => *from,
            ClientTypedTx::AccessList { from, .. } => *from,
            ClientTypedTx::FeeMarket { from, .. } => *from,
        }
    }

    pub open spec fn spec_to(&self) -> Option<ClientNameOrAddress> {
        match self {
            ClientTypedTx::Legacy { to, .. } => *to,
            ClientTypedTx::AccessList { to, .. } => *to,
            ClientTypedTx::FeeMarket { to, .. } => *to,
        }
    }

    pub open spec fn spec_gas(&self) -> Option<u64> {
        match self {
            ClientTypedTx::Legacy { gas, .. } => *gas,
            ClientTypedTx::AccessList { gas, .. } => *gas,
            ClientTypedTx::FeeMarket { gas, .. } => *gas,
        }
    }

    /// The price field of the shape: the gas price, or the fee cap for the
    /// fee-market shape.
    pub open spec fn spec_price(&self) -> Option<ClientU256> {
        match self {
            ClientTypedTx::Legacy { gas_price, .. } => *gas_price,
            ClientTypedTx::AccessList { gas_price, .. } => *gas_price,
            ClientTypedTx::FeeMarket { max_fee_per_gas, .. } => *max_fee_per_gas,
        }
    }

    pub open spec fn spec_priority_price(&self) -> Option<ClientU256> {
        match self {
            ClientTypedTx::FeeMarket { max_priority_fee_per_gas, .. } => *max_priority_fee_per_gas,
            _ => None,
        }
    }

    pub open spec fn spec_value(&self) -> Option<ClientU256> {
        match self {
            ClientTypedTx::Legacy { value, .. } => *value,
            ClientTypedTx::AccessList { value, .. } => *value,
            ClientTypedTx::FeeMarket { value, .. } => *value,
        }
    }

    pub open spec fn spec_data(&self) -> Option<Seq<u8>> {
        match self {
            ClientTypedTx::Legacy { data: Some(d), .. } => Some(d@),
            ClientTypedTx::Legacy { data: None, .. } => None,
            ClientTypedTx::AccessList { data: Some(d), .. } => Some(d@),
            ClientTypedTx::AccessList { data: None, .. } => None,
            ClientTypedTx::FeeMarket { data: Some(d), .. } => Some(d@),
            ClientTypedTx::FeeMarket { data: None, .. } => None,
        }
    }
}

/// A full signed transaction in the client-side type system, with its
/// envelope intact: the lossless counterpart of a stored
/// [`crate::chain::TxRecord`]. Every 256-bit number is big-endian-backed.
pub enum ClientEnvelope {
    Legacy {
        chain_id: Option<u64>,
        nonce: u64,
        gas_price: ClientU256,
        gas_limit: u64,
        to: Option<Address>,
        value: ClientU256,
        input: Vec<u8>,
    },
    AccessList {
        chain_id: u64,
        nonce: u64,
        gas_price: ClientU256,
        gas_limit: u64,
        to: Option<Address>,
        value: ClientU256,
        input: Vec<u8>,
        access_list: Vec<ClientAccessListItem>,
    },
    FeeMarket {
        chain_id: u64,
        nonce: u64,
        max_priority_fee_per_gas: ClientU256,
        max_fee_per_gas: ClientU256,
        gas_limit: u64,
        to: Option<Address>,
        value: ClientU256,
        input: Vec<u8>,
        access_list: Vec<ClientAccessListItem>,
    },
}

/// The ghost image of a [`ClientEnvelope`].
pub ghost enum ClientEnvelopeView {
    Legacy {
        chain_id: Option<u64>,
        nonce: u64,
        gas_price: Seq<u8>,
        gas_limit: u64,
        to: Option<Seq<u8>>,
        value: Seq<u8>,
        input: Seq<u8>,
    },
    AccessList {
        chain_id: u64,
        nonce: u64,
        gas_price: Seq<u8>,
        gas_limit: u64,
        to: Option<Seq<u8>>,
        value: Seq<u8>,
        input: Seq<u8>,
        access_list: Seq<AccessItemView>,
    },
    FeeMarket {
        chain_id: u64,
        nonce: u64,
        max_priority_fee_per_gas: Seq<u8>,
        max_fee_per_gas: Seq<u8>,
        gas_limit: u64,
        to: Option<Seq<u8>>,
        value: Seq<u8>,
        input: Seq<u8>,
        access_list: Seq<AccessItemView>,
    },
}

pub open spec fn opt_addr_view(a: Option<Address>) -> Option<Seq<u8>> {
    match a {
        Some(x) => Some(x@),
        None => None,
    }
}

impl View for ClientEnvelope {
    type V = ClientEnvelopeView;

    open spec fn view(&self) -> ClientEnvelopeView {
        match self {
            ClientEnvelope::Legacy { chain_id, nonce, gas_price, gas_limit, to, value, input } => {
                ClientEnvelopeView::Legacy {
                    chain_id: *chain_id,
                    nonce: *nonce,
                    gas_price: gas_price@,
                    gas_limit: *gas_limit,
                    to: opt_addr_view(*to),
                    value: value@,
                    input: input@,
                }
            },
            ClientEnvelope::AccessList {
                chain_id,
                nonce,
                gas_price,
                gas_limit,
                to,
                value,
                input,
                access_list,
            } => {
                ClientEnvelopeView::AccessList {
                    chain_id: *chain_id,
                    nonce: *nonce,
                    gas_price: gas_price@,
                    gas_limit: *gas_limit,
                    to: opt_addr_view(*to),
                    value: value@,
                    input: input@,
                    access_list: access_list@.map_values(|e: ClientAccessListItem| e@),
                }
            },
            ClientEnvelope::FeeMarket {
                chain_id,
                nonce,
                max_priority_fee_per_gas,
                max_fee_per_gas,
                gas_limit,
                to,
                value,
                input,
                access_list,
            } => {
                ClientEnvelopeView::FeeMarket {
                    chain_id: *chain_id,
                    nonce: *nonce,
                    max_priority_fee_per_gas: max_priority_fee_per_gas@,
                    max_fee_per_gas: max_fee_per_gas@,
                    gas_limit: *gas_limit,
                    to: opt_addr_view(*to),
                    value: value@,
                    input: input@,
                    access_list: access_list@.map_values(|e: ClientAccessListItem| e@),
                }
            },
        }
    }
}

impl ClientEnvelope {
    pub open spec fn wf(&self) -> bool {
        match self {
            ClientEnvelope::Legacy { gas_price, to, value, .. } => gas_price.wf() && value.wf()
                && match to {
                Some(a) => a.wf(),
                None => true,
            },
            ClientEnvelope::AccessList { gas_price, to, value, access_list, .. } => gas_price.wf()
                && value.wf() && (match to {
                Some(a) => a.wf(),
                None => true,
            }) && (forall|i: int|
                0 <= i < access_list@.len() ==> (#[trigger] access_list@[i]).wf()),
            ClientEnvelope::FeeMarket {
                max_priority_fee_per_gas,
                max_fee_per_gas,
                to,
                value,
                access_list,
                ..
            } => max_priority_fee_per_gas.wf() && max_fee_per_gas.wf() && value.wf() && (match to {
                Some(a) => a.wf(),
                None => true,
            }) && (forall|i: int|
                0 <= i < access_list@.len() ==> (#[trigger] access_list@[i]).wf()),
        }
    }
}

/// A signed transaction, client-side: envelope plus signature, sender and
/// hash.
pub struct ClientSignedTx {
    pub hash: H256,
    pub envelope: ClientEnvelope,
    pub v: u64,
    pub r: H256,
    pub s: H256,
    pub sender: Address,
}

/// The ghost image of a [`ClientSignedTx`].
pub ghost struct ClientSignedTxView {
    pub hash: Seq<u8>,
    pub envelope: ClientEnvelopeView,
    pub v: u64,
    pub r: Seq<u8>,
    pub s: Seq<u8>,
    pub sender: Seq<u8>,
}

impl View for ClientSignedTx {
    type V = ClientSignedTxView;

    open spec fn view(&self) -> ClientSignedTxView {
        ClientSignedTxView {
            hash: self.hash@,
            envelope: self.envelope@,
            v: self.v,
            r: self.r@,
            s: self.s@,
            sender: self.sender@,
        }
    }
}

impl ClientSignedTx {
    pub open spec fn wf(&self) -> bool {
        self.hash.wf() && self.envelope.wf() && self.r.wf() && self.s.wf() && self.sender.wf()
    }
}

/// A transaction as the client library lists it: flattened, the variant
/// erased, the fee-market and access-list extras reported as absent (the
/// listing path does not reconstruct them).
pub struct ClientTransaction {
    pub hash: H256,
    pub nonce: u64,
    pub block_hash: Option<H256>,
    pub block_number: Option<u64>,
    pub transaction_index: Option<u64>,
    pub from: Address,
    pub to: Option<Address>,
    pub value: ClientU256,
    pub gas: u64,
    pub gas_price: Option<ClientU256>,
    pub input: Vec<u8>,
    pub v: u64,
    pub r: ClientU256,
    pub s: ClientU256,
    pub transaction_type: Option<u64>,
    pub access_list: Option<Vec<ClientAccessListItem>>,
    pub max_priority_fee_per_gas: Option<ClientU256>,
    pub max_fee_per_gas: Option<ClientU256>,
    pub chain_id: Option<u64>,
}

/// A log as the client library reports it.
pub struct ClientLog {
    pub address: Address,
    pub topics: Vec<H256>,
    pub data: Vec<u8>,
    pub block_hash: Option<H256>,
    pub block_number: Option<u64>,
    pub transaction_hash: Option<H256>,
    pub transaction_index: Option<u64>,
    pub log_index: Option<u64>,
}

/// A receipt as the client library reports it.
pub struct ClientReceipt {
    pub transaction_hash: H256,
    pub block_hash: Option<H256>,
    pub block_number: Option<u64>,
    pub transaction_index: u64,
    pub from: Address,
    pub to: Option<Address>,
    pub cumulative_gas_used: u64,
    pub gas_used: Option<u64>,
    pub contract_address: Option<Address>,
    pub logs: Vec<ClientLog>,
    pub logs_bloom: Bloom,
    pub status: Option<u64>,
}

/// A block as the client library reports it, over either transaction
/// hashes or full transaction listings.
pub struct ClientBlock<TX> {
    pub hash: Option<H256>,
    pub parent_hash: H256,
    pub author: Option<Address>,
    pub state_root: H256,
    pub transactions_root: H256,
    pub receipts_root: H256,
    pub number: Option<u64>,
    pub gas_used: u64,
    pub extra_data: Vec<u8>,
    pub logs_bloom: Option<Bloom>,
    pub timestamp: u64,
    pub total_difficulty: Option<ClientU256>,
    pub transactions: Vec<TX>,
    pub size: Option<u64>,
    pub base_fee_per_gas: Option<ClientU256>,
    pub uncles_hash: H256,
    pub gas_limit: u64,
    pub difficulty: ClientU256,
    pub uncles: Vec<H256>,
    pub mix_hash: H256,
    pub nonce: Option<H64>,
}

} // verus!
