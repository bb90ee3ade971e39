//! The Receipt Reconstructor: a transaction's receipt, derived on every
//! request by locating the transaction in its canonical block and reading
//! the deterministic replay outcomes of that block up to and including the
//! target index.
//!
//! Cumulative gas strictly accumulates in transaction-index order;
//! `gas_used` is the delta between neighbouring cumulative values; log
//! indices are local to the receipt; the contract address exists only for
//! a creation and is derived from the sender and the transaction nonce.

use vstd::prelude::*;

use sha3::{Digest, Keccak256};

use crate::chain::{sum_gas, StoredBlock, TxAction, TxOutcome, TxRecord};
use crate::words::{copy_bytes, Address, Bloom, H256};

verus! {

/// What the Keccak-256 permutation returns for the given bytes; the digest
/// depends on those bytes alone.
pub uninterp spec fn keccak_of(data: Seq<u8>) -> Seq<u8>;

/// Relies on sha3::Keccak256: a 32-byte digest that is a function of the
/// input bytes alone.
#[verifier::external_body]
fn keccak256(data: &Vec<u8>) -> (r: Vec<u8>)
    ensures
        r@ == keccak_of(data@),
        r@.len() == 32,
{
    Keccak256::digest(data.as_slice()).to_vec()
}

/// The minimal big-endian bytes of an integer: empty for zero, no leading
/// zero byte otherwise.
pub open spec fn be_min_bytes(n: u64) -> Seq<u8>
    decreases n,
{
    if n == 0 {
        Seq::empty()
    } else {
        be_min_bytes((n / 256) as u64).push((n % 256) as u8)
    }
}

/// At most eight bytes encode any 64-bit integer.
pub proof fn lemma_be_min_bytes_len(n: u64)
    ensures
        be_min_bytes(n).len() <= 8,
{
    let n1 = (n / 256) as u64;
    let n2 = (n1 / 256) as u64;
    let n3 = (n2 / 256) as u64;
    let n4 = (n3 / 256) as u64;
    let n5 = (n4 / 256) as u64;
    let n6 = (n5 / 256) as u64;
    let n7 = (n6 / 256) as u64;
    let n8 = (n7 / 256) as u64;
    assert(n8 == 0);
    assert(be_min_bytes(n8).len() == 0);
    assert(be_min_bytes(n7).len() <= 1);
    assert(be_min_bytes(n6).len() <= 2);
    assert(be_min_bytes(n5).len() <= 3);
    assert(be_min_bytes(n4).len() <= 4);
    assert(be_min_bytes(n3).len() <= 5);
    assert(be_min_bytes(n2).len() <= 6);
    assert(be_min_bytes(n1).len() <= 7);
    assert(be_min_bytes(n).len() <= 8);
}

fn be_min_bytes_vec(n: u64) -> (r: Vec<u8>)
    ensures
        r@ == be_min_bytes(n),
    decreases n,
{
    if n == 0 {
        Vec::new()
    } else {
        let mut r = be_min_bytes_vec(n / 256);
        r.push((n % 256) as u8);
        r
    }
}

/// The recursive-length-prefix encoding of an integer: the empty string for
/// zero, the byte itself below 0x80, otherwise a short-string header before
/// the minimal big-endian bytes.
pub open spec fn rlp_int(n: u64) -> Seq<u8> {
    if n == 0 {
        seq![0x80u8]
    } else if n < 0x80 {
        seq![n as u8]
    } else {
        seq![(0x80 + be_min_bytes(n).len()) as u8] + be_min_bytes(n)
    }
}

pub proof fn lemma_rlp_int_len(n: u64)
    ensures
        1 <= rlp_int(n).len() <= 9,
{
    lemma_be_min_bytes_len(n);
}

fn rlp_int_vec(n: u64) -> (r: Vec<u8>)
    ensures
        r@ == rlp_int(n),
{
    let mut r: Vec<u8> = Vec::new();
    if n == 0 {
        r.push(0x80u8);
        assert(r@ =~= rlp_int(n));
    } else if n < 0x80 {
        r.push(n as u8);
        assert(r@ =~= rlp_int(n));
    } else {
        let mut be = be_min_bytes_vec(n);
        proof {
            lemma_be_min_bytes_len(n);
        }
        let tag: u8 = 0x80u8 + (be.len() as u8);
        r.push(tag);
        r.append(&mut be);
        assert(r@ =~= rlp_int(n));
    }
    r
}

/// The recursive-length-prefix encoding of the pair (sender address,
/// nonce): a 20-byte string item and an integer item under a short-list
/// header.
pub open spec fn rlp_sender_nonce(sender: Seq<u8>, nonce: u64) -> Seq<u8> {
    let payload = seq![0x94u8] + sender + rlp_int(nonce);
    seq![(0xc0 + payload.len()) as u8] + payload
}

/// The address a creation by `sender` at `nonce` deploys to: the last 20
/// bytes of the Keccak-256 digest of the encoded (sender, nonce) pair.
pub open spec fn create_address_spec(sender: Seq<u8>, nonce: u64) -> Seq<u8> {
    keccak_of(rlp_sender_nonce(sender, nonce)).skip(12)
}

/// Derive the contract address deployed by a creation transaction.
pub fn create_address(sender: &Address, nonce: u64) -> (r: Address)
    requires
        sender.wf(),
    ensures
        r@ == create_address_spec(sender@, nonce),
        r.wf(),
{
    let mut payload: Vec<u8> = Vec::new();
    payload.push(0x94u8);
    let mut i: usize = 0;
    while i < 20
        invariant
            i <= 20,
            sender.bytes@.len() == 20,
            payload@ =~= seq![0x94u8] + sender.bytes@.take(i as int),
        decreases 20 - i,
    {
        payload.push(sender.bytes[i]);
        assert(payload@ =~= seq![0x94u8] + sender.bytes@.take(i + 1));
        i = i + 1;
    }
    let mut nonce_enc = rlp_int_vec(nonce);
    proof {
        lemma_rlp_int_len(nonce);
        assert(sender.bytes@.take(20) =~= sender@);
    }
    payload.append(&mut nonce_enc);
    assert(payload@ == seq![0x94u8] + sender@ + rlp_int(nonce));
    let plen = payload.len();
    let mut enc: Vec<u8> = Vec::new();
    enc.push(0xc0u8 + (plen as u8));
    enc.append(&mut payload);
    assert(enc@ =~= rlp_sender_nonce(sender@, nonce));
    let digest = keccak256(&enc);
    let mut out: Vec<u8> = Vec::new();
    let mut j: usize = 12;
    while j < 32
        invariant
            12 <= j <= 32,
            digest@.len() == 32,
            digest@ == keccak_of(rlp_sender_nonce(sender@, nonce)),
            out@ =~= digest@.subrange(12, j as int),
        decreases 32 - j,
    {
        out.push(digest[j]);
        assert(out@ =~= digest@.subrange(12, j + 1));
        j = j + 1;
    }
    assert(out@ =~= keccak_of(rlp_sender_nonce(sender@, nonce)).skip(12));
    Address { bytes: out }
}

/// One log of a reconstructed receipt, in the storage-side type system.
pub struct TransactionLog {
    pub log_index: Option<u64>,
    pub transaction_index: Option<u64>,
    pub transaction_hash: Option<H256>,
    pub block_hash: Option<H256>,
    pub block_number: Option<u64>,
    pub address: Address,
    pub data: Vec<u8>,
    pub topics: Vec<H256>,
}

/// A reconstructed receipt, in the storage-side type system. Derived, never
/// stored.
pub struct TransactionReceipt {
    pub transaction_hash: H256,
    pub transaction_index: u64,
    pub block_hash: H256,
    pub block_number: u64,
    pub from: Address,
    pub to: Option<Address>,
    pub cumulative_gas_used: u64,
    pub gas_used: u64,
    pub contract_address: Option<Address>,
    pub logs: Vec<TransactionLog>,
    pub logs_bloom: Bloom,
    pub status: u64,
}

/// The gas the receipt at `idx` reports: the delta between its cumulative
/// gas and its predecessor's.
pub open spec fn receipt_gas_used(outcomes: Seq<TxOutcome>, idx: int) -> int {
    sum_gas(outcomes, idx + 1) - sum_gas(outcomes, idx)
}

/// The sum of `gas_used` over the first `n` receipts of a block.
pub open spec fn sum_receipt_gas(outcomes: Seq<TxOutcome>, n: int) -> int
    decreases n,
{
    if n <= 0 {
        0
    } else {
        sum_receipt_gas(outcomes, n - 1) + receipt_gas_used(outcomes, n - 1)
    }
}

/// Reconstructing the receipts of all transactions of a block and summing
/// their `gas_used` yields exactly the final transaction's cumulative gas:
/// the per-receipt deltas telescope.
pub proof fn lemma_gas_used_telescopes(outcomes: Seq<TxOutcome>, n: int)
    ensures
        sum_receipt_gas(outcomes, n) == sum_gas(outcomes, n),
    decreases n,
{
    if n > 0 {
        lemma_gas_used_telescopes(outcomes, n - 1);
    }
}

/// Cumulative gas never decreases with the transaction index.
pub proof fn lemma_cumulative_gas_monotonic(outcomes: Seq<TxOutcome>, i: int, j: int)
    requires
        0 <= i <= j,
    ensures
        sum_gas(outcomes, i) <= sum_gas(outcomes, j),
    decreases j - i,
{
    if i < j {
        lemma_cumulative_gas_monotonic(outcomes, i, j - 1);
    }
}

/// Every prefix sum of outcome gas is bounded by the whole block's sum, so
/// by the block gas limit in a well-formed block.
pub proof fn lemma_sum_gas_prefix_bound(outcomes: Seq<TxOutcome>, n: int)
    requires
        0 <= n <= outcomes.len(),
    ensures
        0 <= sum_gas(outcomes, n) <= sum_gas(outcomes, outcomes.len() as int),
    decreases outcomes.len() - n,
{
    lemma_sum_gas_nonneg(outcomes, n);
    lemma_cumulative_gas_monotonic(outcomes, n, outcomes.len() as int);
}

pub proof fn lemma_sum_gas_nonneg(outcomes: Seq<TxOutcome>, n: int)
    ensures
        sum_gas(outcomes, n) >= 0,
    decreases n,
{
    if n > 0 {
        lemma_sum_gas_nonneg(outcomes, n - 1);
    }
}

/// The cumulative gas of the first `n + 1` transactions of a block,
/// computed from its stored replay outcomes.
pub fn cumulative_gas(block: &StoredBlock, idx: usize) -> (r: u64)
    requires
        block.wf(),
        idx < block.outcomes@.len(),
    ensures
        r == sum_gas(block.outcomes@, idx + 1),
{
    let n = block.outcomes.len();
    let mut acc: u64 = 0;
    let mut i: usize = 0;
    proof {
        lemma_sum_gas_prefix_bound(block.outcomes@, 0);
    }
    while i <= idx
        invariant
            block.wf(),
            i <= idx + 1,
            idx < n,
            n == block.outcomes@.len(),
            acc == sum_gas(block.outcomes@, i as int),
        decreases idx + 1 - i,
    {
        proof {
            lemma_sum_gas_prefix_bound(block.outcomes@, i + 1);
        }
        acc = acc + block.outcomes[i].gas_used;
        i = i + 1;
    }
    acc
}

/// The log list a receipt reports for its outcome: each emitted log,
/// indexed by its position within this receipt's own list (0-based, local
/// to the receipt, not block-wide), stamped with the containing block and
/// transaction.
pub open spec fn receipt_logs_match(
    logs: Seq<TransactionLog>,
    outcome: TxOutcome,
    tx_hash: Seq<u8>,
    block_hash: Seq<u8>,
    block_number: u64,
    tx_index: u64,
) -> bool {
    &&& logs.len() == outcome.logs@.len()
    &&& forall|i: int|
        0 <= i < logs.len() ==> {
            &&& (#[trigger] logs[i]).log_index == Some(i as u64)
            &&& logs[i].transaction_index == Some(tx_index)
            &&& logs[i].transaction_hash matches Some(h) && h@ == tx_hash
            &&& logs[i].block_hash matches Some(h) && h@ == block_hash
            &&& logs[i].block_number == Some(block_number)
            &&& logs[i].address@ == outcome.logs@[i].address@
            &&& logs[i].data@ == outcome.logs@[i].data@
            &&& logs[i].topics@.len() == outcome.logs@[i].topics@.len()
            &&& (forall|t: int|
                0 <= t < logs[i].topics@.len() ==> (#[trigger] logs[i].topics@[t])@
                    == outcome.logs@[i].topics@[t]@)
        }
}

/// Build the receipt's log list.
pub fn build_receipt_logs(
    outcome: &TxOutcome,
    tx_hash: &H256,
    block_hash: &H256,
    block_number: u64,
    tx_index: u64,
) -> (r: Vec<TransactionLog>)
    ensures
        receipt_logs_match(r@, *outcome, tx_hash@, block_hash@, block_number, tx_index),
{
    let n = outcome.logs.len();
    let mut r: Vec<TransactionLog> = Vec::new();
    let mut i: usize = 0;
    while i < n
        invariant
            i <= n,
            n == outcome.logs@.len(),
            n <= u64::MAX,
            r@.len() == i,
            forall|k: int|
                0 <= k < i ==> {
                    &&& (#[trigger] r@[k]).log_index == Some(k as u64)
                    &&& r@[k].transaction_index == Some(tx_index)
                    &&& r@[k].transaction_hash matches Some(h) && h@ == tx_hash@
                    &&& r@[k].block_hash matches Some(h) && h@ == block_hash@
                    &&& r@[k].block_number == Some(block_number)
                    &&& r@[k].address@ == outcome.logs@[k].address@
                    &&& r@[k].data@ == outcome.logs@[k].data@
                    &&& r@[k].topics@.len() == outcome.logs@[k].topics@.len()
                    &&& (forall|t: int|
                        0 <= t < r@[k].topics@.len() ==> (#[trigger] r@[k].topics@[t])@
                            == outcome.logs@[k].topics@[t]@)
                },
        decreases n - i,
    {
        let log = &outcome.logs[i];
        let mut topics: Vec<H256> = Vec::new();
        let tn = log.topics.len();
        let mut t: usize = 0;
        while t < tn
            invariant
                t <= tn,
                tn == log.topics@.len(),
                topics@.len() == t,
                forall|u: int|
                    0 <= u < t ==> (#[trigger] topics@[u])@ == log.topics@[u]@,
            decreases tn - t,
        {
            topics.push(log.topics[t].dup());
            t = t + 1;
        }
        r.push(
            TransactionLog {
                log_index: Some(i as u64),
                transaction_index: Some(tx_index),
                transaction_hash: Some(tx_hash.dup()),
                block_hash: Some(block_hash.dup()),
                block_number: Some(block_number),
                address: log.address.dup(),
                data: copy_bytes(&log.data),
                topics,
            },
        );
        i = i + 1;
    }
    r
}

/// The contract address a transaction's receipt reports: present exactly
/// for a creation, where it is derived from sender and nonce.
pub fn receipt_contract_address(tx: &TxRecord) -> (r: Option<Address>)
    requires
        tx.wf(),
    ensures
        match tx.message.spec_action() {
            TxAction::Create => r matches Some(a) && a@ == create_address_spec(
                tx.sender@,
                tx.message.spec_nonce(),
            ) && a.wf(),
            TxAction::Call(_) => r is None,
        },
{
    let is_create = match &tx.message {
        crate::chain::TxMessage::Legacy { action, .. } => matches!(action, TxAction::Create),
        crate::chain::TxMessage::AccessList { action, .. } => matches!(action, TxAction::Create),
        crate::chain::TxMessage::FeeMarket { action, .. } => matches!(action, TxAction::Create),
    };
    if is_create {
        Some(create_address(&tx.sender, tx.message.nonce()))
    } else {
        None
    }
}

/// Everything a reconstructed receipt reports for the transaction at
/// position `idx` of a stored canonical block: the exact cumulative-gas and
/// gas-delta accounting, the locally indexed logs, the creation-only
/// contract address, and a 1/0 status for success/failure.
pub open spec fn receipt_matches(rcpt: TransactionReceipt, sb: StoredBlock, idx: int) -> bool {
    let tx = sb.body.transactions@[idx];
    let outcome = sb.outcomes@[idx];
    &&& rcpt.transaction_hash@ == tx.hash@
    &&& rcpt.transaction_index == idx
    &&& rcpt.block_hash@ == sb.hash@
    &&& rcpt.block_number == sb.header.number
    &&& rcpt.from@ == tx.sender@
    &&& match tx.message.spec_action() {
        TxAction::Create => rcpt.to is None,
        TxAction::Call(a) => rcpt.to matches Some(b) && b@ == a@,
    }
    &&& rcpt.cumulative_gas_used == sum_gas(sb.outcomes@, idx + 1)
    &&& rcpt.gas_used == receipt_gas_used(sb.outcomes@, idx)
    &&& match tx.message.spec_action() {
        TxAction::Create => rcpt.contract_address matches Some(a) && a@ == create_address_spec(
            tx.sender@,
            tx.message.spec_nonce(),
        ),
        TxAction::Call(_) => rcpt.contract_address is None,
    }
    &&& receipt_logs_match(rcpt.logs@, outcome, tx.hash@, sb.hash@, sb.header.number, idx as u64)
    &&& rcpt.logs_bloom@ == outcome.bloom@
    &&& rcpt.status == (if outcome.success {
        1u64
    } else {
        0u64
    })
}

/// Reconstruct the receipt of the transaction at `idx` of a stored
/// canonical block from the block's replay outcomes.
///
/// Only the outcomes up to and including `idx` enter the result: replay
/// stops immediately after the target index. `gas_used` is the delta
/// between the target's cumulative gas and its predecessor's (or the
/// target's own cumulative gas at index 0).
pub fn build_receipt(sb: &StoredBlock, idx: usize) -> (r: TransactionReceipt)
    requires
        sb.wf(),
        idx < sb.body.transactions@.len(),
    ensures
        receipt_matches(r, *sb, idx as int),
{
    let tx = &sb.body.transactions[idx];
    let outcome = &sb.outcomes[idx];
    let cum = cumulative_gas(sb, idx);
    proof {
        lemma_sum_gas_nonneg(sb.outcomes@, idx as int);
        lemma_cumulative_gas_monotonic(sb.outcomes@, idx as int, idx + 1);
    }
    let prev: u64 = if idx == 0 {
        0
    } else {
        cumulative_gas(sb, idx - 1)
    };
    let gas_used = cum - prev;
    let logs = build_receipt_logs(outcome, &tx.hash, &sb.hash, sb.header.number, idx as u64);
    TransactionReceipt {
        transaction_hash: tx.hash.dup(),
        transaction_index: idx as u64,
        block_hash: sb.hash.dup(),
        block_number: sb.header.number,
        from: tx.sender.dup(),
        to: tx.message.recipient(),
        cumulative_gas_used: cum,
        gas_used,
        contract_address: receipt_contract_address(tx),
        logs,
        logs_bloom: outcome.bloom.dup(),
        status: if outcome.success {
            1
        } else {
            0
        },
    }
}

} // verus!
