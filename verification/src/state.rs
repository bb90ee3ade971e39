//! The State View: reads of account data, storage slots and code, bounded
//! to a block height.
//!
//! Every read answers "the value last written at or before the height",
//! ignoring all later history, so a query anchored at height `h` is immune
//! to concurrent chain growth. The snapshot-isolation lemmas state this
//! exactly: a read at height `h` depends only on the writes at heights
//! `<= h`.

use vstd::prelude::*;

use crate::chain::{Account, AccountView, AccountWrite, ChainDb, CodeEntry, StorageWrite};
use crate::words::{zero_u256_bytes, Address, StorageU256};

verus! {

/// The account visible at `height`: the last chronological write at or
/// before that height, if any.
pub open spec fn account_at(writes: Seq<AccountWrite>, addr: Seq<u8>, height: u64) -> Option<
    AccountView,
>
    decreases writes.len(),
{
    if writes.len() == 0 {
        None
    } else {
        let last = writes.last();
        if last.height <= height && last.address@ == addr {
            Some(last.account@)
        } else {
            account_at(writes.drop_last(), addr, height)
        }
    }
}

/// The storage-slot value visible at `height`, if the slot was ever written
/// at or before that height.
pub open spec fn slot_at(
    writes: Seq<StorageWrite>,
    addr: Seq<u8>,
    key: Seq<u8>,
    height: u64,
) -> Option<Seq<u8>>
    decreases writes.len(),
{
    if writes.len() == 0 {
        None
    } else {
        let last = writes.last();
        if last.height <= height && last.address@ == addr && last.key@ == key {
            Some(last.value@)
        } else {
            slot_at(writes.drop_last(), addr, key, height)
        }
    }
}

/// The code stored under a code hash.
pub open spec fn code_at(entries: Seq<CodeEntry>, hash: Seq<u8>) -> Option<Seq<u8>>
    decreases entries.len(),
{
    if entries.len() == 0 {
        None
    } else if entries.last().code_hash@ == hash {
        Some(entries.last().code@)
    } else {
        code_at(entries.drop_last(), hash)
    }
}

/// The nonce a synthetic call reads for its sender: the account's nonce, or
/// 0 for an account never observed at or before the height.
pub open spec fn nonce_at(writes: Seq<AccountWrite>, addr: Seq<u8>, height: u64) -> u64 {
    match account_at(writes, addr, height) {
        Some(a) => a.nonce,
        None => 0,
    }
}

/// The balance visible at `height`; zero for an absent account.
pub open spec fn balance_at(writes: Seq<AccountWrite>, addr: Seq<u8>, height: u64) -> Seq<u8> {
    match account_at(writes, addr, height) {
        Some(a) => a.balance,
        None => zero_u256_bytes(),
    }
}

impl ChainDb {
    /// Read the account visible at `height`.
    pub fn read_account(&self, address: &Address, height: u64) -> (r: Option<Account>)
        requires
            self.wf(),
        ensures
            match r {
                Some(a) => account_at(self.account_writes@, address@, height) == Some(a@)
                    && a.wf(),
                None => account_at(self.account_writes@, address@, height) is None,
            },
    {
        let n = self.account_writes.len();
        let mut i: usize = n;
        proof {
            assert(self.account_writes@.take(n as int) =~= self.account_writes@);
        }
        while i > 0
            invariant
                self.wf(),
                i <= n,
                n == self.account_writes@.len(),
                account_at(self.account_writes@, address@, height) == account_at(
                    self.account_writes@.take(i as int),
                    address@,
                    height,
                ),
            decreases i,
        {
            let w = &self.account_writes[i - 1];
            proof {
                assert(self.account_writes@.take(i as int).last() == self.account_writes@[i
                    - 1]);
                assert(self.account_writes@.take(i as int).drop_last()
                    =~= self.account_writes@.take(i - 1));
            }
            if w.height <= height && w.address.eq_value(address) {
                return Some(w.account.dup());
            }
            i = i - 1;
        }
        proof {
            assert(self.account_writes@.take(0) =~= Seq::<AccountWrite>::empty());
        }
        None
    }

    /// Read the storage slot visible at `height`; an unwritten slot is zero.
    pub fn read_storage(&self, address: &Address, key: &StorageU256, height: u64) -> (r:
        StorageU256)
        requires
            self.wf(),
        ensures
            match slot_at(self.storage_writes@, address@, key@, height) {
                Some(v) => r@ == v,
                None => r@ == zero_u256_bytes(),
            },
            r.wf(),
    {
        let n = self.storage_writes.len();
        let mut i: usize = n;
        proof {
            assert(self.storage_writes@.take(n as int) =~= self.storage_writes@);
        }
        while i > 0
            invariant
                self.wf(),
                i <= n,
                n == self.storage_writes@.len(),
                slot_at(self.storage_writes@, address@, key@, height) == slot_at(
                    self.storage_writes@.take(i as int),
                    address@,
                    key@,
                    height,
                ),
            decreases i,
        {
            let w = &self.storage_writes[i - 1];
            proof {
                assert(self.storage_writes@.take(i as int).last() == self.storage_writes@[i
                    - 1]);
                assert(self.storage_writes@.take(i as int).drop_last()
                    =~= self.storage_writes@.take(i - 1));
            }
            if w.height <= height && w.address.eq_value(address) && w.key.eq_value(key) {
                return w.value.dup();
            }
            i = i - 1;
        }
        proof {
            assert(self.storage_writes@.take(0) =~= Seq::<StorageWrite>::empty());
        }
        StorageU256::zero()
    }

    /// Read the code stored under a code hash.
    pub fn read_code(&self, hash: &crate::words::H256) -> (r: Option<Vec<u8>>)
        requires
            self.wf(),
        ensures
            match r {
                Some(c) => code_at(self.code@, hash@) == Some(c@),
                None => code_at(self.code@, hash@) is None,
            },
    {
        let n = self.code.len();
        let mut i: usize = n;
        proof {
            assert(self.code@.take(n as int) =~= self.code@);
        }
        while i > 0
            invariant
                self.wf(),
                i <= n,
                n == self.code@.len(),
                code_at(self.code@, hash@) == code_at(self.code@.take(i as int), hash@),
            decreases i,
        {
            let e = &self.code[i - 1];
            proof {
                assert(self.code@.take(i as int).last() == self.code@[i - 1]);
                assert(self.code@.take(i as int).drop_last() =~= self.code@.take(i - 1));
            }
            if e.code_hash.eq_value(hash) {
                return Some(crate::words::copy_bytes(&e.code));
            }
            i = i - 1;
        }
        proof {
            assert(self.code@.take(0) =~= Seq::<CodeEntry>::empty());
        }
        None
    }
}

/// The account writes at heights `<= height`, in their chronological order.
pub open spec fn account_writes_up_to(writes: Seq<AccountWrite>, height: u64) -> Seq<AccountWrite>
    decreases writes.len(),
{
    if writes.len() == 0 {
        Seq::empty()
    } else if writes.last().height <= height {
        account_writes_up_to(writes.drop_last(), height).push(writes.last())
    } else {
        account_writes_up_to(writes.drop_last(), height)
    }
}

/// The storage writes at heights `<= height`, in their chronological order.
pub open spec fn storage_writes_up_to(writes: Seq<StorageWrite>, height: u64) -> Seq<StorageWrite>
    decreases writes.len(),
{
    if writes.len() == 0 {
        Seq::empty()
    } else if writes.last().height <= height {
        storage_writes_up_to(writes.drop_last(), height).push(writes.last())
    } else {
        storage_writes_up_to(writes.drop_last(), height)
    }
}

/// An account read at `height` sees only the writes at heights `<= height`:
/// dropping every later write changes nothing.
pub proof fn lemma_account_read_height_bounded(
    writes: Seq<AccountWrite>,
    addr: Seq<u8>,
    height: u64,
)
    ensures
        account_at(writes, addr, height) == account_at(
            account_writes_up_to(writes, height),
            addr,
            height,
        ),
    decreases writes.len(),
{
    if writes.len() == 0 {
    } else {
        let last = writes.last();
        lemma_account_read_height_bounded(writes.drop_last(), addr, height);
        if last.height <= height {
            let filtered = account_writes_up_to(writes.drop_last(), height).push(last);
            assert(filtered.drop_last() =~= account_writes_up_to(writes.drop_last(), height));
        }
    }
}

/// A storage read at `height` sees only the writes at heights `<= height`.
pub proof fn lemma_storage_read_height_bounded(
    writes: Seq<StorageWrite>,
    addr: Seq<u8>,
    key: Seq<u8>,
    height: u64,
)
    ensures
        slot_at(writes, addr, key, height) == slot_at(
            storage_writes_up_to(writes, height),
            addr,
            key,
            height,
        ),
    decreases writes.len(),
{
    if writes.len() == 0 {
    } else {
        let last = writes.last();
        lemma_storage_read_height_bounded(writes.drop_last(), addr, key, height);
        if last.height <= height {
            let filtered = storage_writes_up_to(writes.drop_last(), height).push(last);
            assert(filtered.drop_last() =~= storage_writes_up_to(writes.drop_last(), height));
        }
    }
}

/// Snapshot isolation: two chain views that agree on the writes at heights
/// `<= height` answer every account read at `height` identically, whatever
/// was written above that height — so in particular the sender nonce a call
/// at `height` reads never depends on later blocks.
pub proof fn lemma_snapshot_isolation_account(
    w1: Seq<AccountWrite>,
    w2: Seq<AccountWrite>,
    addr: Seq<u8>,
    height: u64,
)
    requires
        account_writes_up_to(w1, height) == account_writes_up_to(w2, height),
    ensures
        account_at(w1, addr, height) == account_at(w2, addr, height),
        nonce_at(w1, addr, height) == nonce_at(w2, addr, height),
        balance_at(w1, addr, height) == balance_at(w2, addr, height),
{
    lemma_account_read_height_bounded(w1, addr, height);
    lemma_account_read_height_bounded(w2, addr, height);
}

/// Snapshot isolation for storage slots.
pub proof fn lemma_snapshot_isolation_slot(
    w1: Seq<StorageWrite>,
    w2: Seq<StorageWrite>,
    addr: Seq<u8>,
    key: Seq<u8>,
    height: u64,
)
    requires
        storage_writes_up_to(w1, height) == storage_writes_up_to(w2, height),
    ensures
        slot_at(w1, addr, key, height) == slot_at(w2, addr, key, height),
{
    lemma_storage_read_height_bounded(w1, addr, key, height);
    lemma_storage_read_height_bounded(w2, addr, key, height);
}

} // verus!
