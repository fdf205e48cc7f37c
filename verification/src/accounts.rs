//! Short-lived models of ledger accounts: an account reference carries the
//! address, the capability flags and a copy of the account data for one
//! router invocation; an account slot is one ordered entry of an assembled
//! instruction's account list.

use vstd::prelude::*;

use crate::keys::{key_eq, Key};

verus! {

/// A non-owning view of one ledger account, valid for a single operation.
pub struct AccountRef {
    pub key: Key,
    pub is_signer: bool,
    pub is_writable: bool,
    pub data: Vec<u8>,
}

/// One entry of an instruction's ordered account list.
#[derive(Clone, Copy)]
pub struct AccountSlot {
    pub key: Key,
    pub is_signer: bool,
    pub is_writable: bool,
}

/// Index of the first account in `pool` whose address is `key`, if any.
pub open spec fn spec_find_first(pool: Seq<AccountRef>, key: Seq<u8>) -> Option<int>
    decreases pool.len(),
{
    if pool.len() == 0 {
        None
    } else if pool[0].key@ == key {
        Some(0int)
    } else {
        match spec_find_first(pool.drop_first(), key) {
            Some(i) => Some(i + 1),
            None => None,
        }
    }
}

/// A prefix free of `key` pins `spec_find_first` down: the first hit after the
/// prefix is the result, and a clean scan of the whole pool means there is none.
pub proof fn lemma_find_first_from(pool: Seq<AccountRef>, key: Seq<u8>, i: int)
    requires
        0 <= i <= pool.len(),
        forall|j: int| 0 <= j < i ==> pool[j].key@ != key,
    ensures
        i < pool.len() && pool[i].key@ == key ==> spec_find_first(pool, key) == Some(i),
        i == pool.len() ==> spec_find_first(pool, key) is None,
    decreases i,
{
    if i == 0 {
        if pool.len() == 0 {
        } else if pool[0].key@ == key {
        } else {
        }
    } else {
        assert(pool[0].key@ != key);
        let rest = pool.drop_first();
        assert(forall|j: int| 0 <= j < i - 1 ==> rest[j] == pool[j + 1]);
        lemma_find_first_from(rest, key, i - 1);
        if i < pool.len() && pool[i].key@ == key {
            assert(rest[i - 1] == pool[i]);
            assert(spec_find_first(rest, key) == Some(i - 1));
        }
    }
}

/// A scan finds something exactly when some pool account carries the key.
pub proof fn lemma_find_first_exists(pool: Seq<AccountRef>, key: Seq<u8>)
    ensures
        spec_find_first(pool, key) is Some <==> exists|i: int|
            0 <= i < pool.len() && pool[i].key@ == key,
    decreases pool.len(),
{
    if pool.len() == 0 {
    } else if pool[0].key@ == key {
        assert(0 <= 0 < pool.len() && pool[0].key@ == key);
    } else {
        let rest = pool.drop_first();
        lemma_find_first_exists(rest, key);
        if exists|i: int| 0 <= i < pool.len() && pool[i].key@ == key {
            let i = choose|i: int| 0 <= i < pool.len() && pool[i].key@ == key;
            assert(i != 0);
            assert(rest[i - 1] == pool[i]);
            assert(0 <= i - 1 < rest.len() && rest[i - 1].key@ == key);
        }
        if exists|j: int| 0 <= j < rest.len() && rest[j].key@ == key {
            let j = choose|j: int| 0 <= j < rest.len() && rest[j].key@ == key;
            assert(rest[j] == pool[j + 1]);
            assert(0 <= j + 1 < pool.len() && pool[j + 1].key@ == key);
        }
    }
}

/// Scans the pool for the first account whose address is `key`.
pub fn find_account(pool: &Vec<AccountRef>, key: &Key) -> (r: Option<usize>)
    ensures
        match r {
            Some(i) => i < pool@.len() && spec_find_first(pool@, key@) == Some(i as int),
            None => spec_find_first(pool@, key@) is None,
        },
{
    let n = pool.len();
    let mut i: usize = 0;
    while i < n
        invariant
            n == pool@.len(),
            i <= n,
            forall|j: int| 0 <= j < i ==> pool@[j].key@ != key@,
        decreases n - i,
    {
        if key_eq(&pool[i].key, key) {
            proof {
                lemma_find_first_from(pool@, key@, i as int);
            }
            return Some(i);
        }
        i = i + 1;
    }
    proof {
        lemma_find_first_from(pool@, key@, n as int);
    }
    None
}

} // verus!
