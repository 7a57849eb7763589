//! Account state: a map from account keys to accounts, kept in key order.
use vstd::prelude::*;

use crate::bytes::{copy_bytes, place_bytes, Placement};

verus! {

/// The key of an account: the bytes that the account is found by.
#[derive(Debug)]
pub struct AccountKey {
    pub bytes: Vec<u8>,
}

impl View for AccountKey {
    type V = Seq<u8>;

    open spec fn view(&self) -> Seq<u8> {
        self.bytes@
    }
}

/// The window of nonces that an account has used: every nonce below `base`, and
/// those that `bitmap` marks above it.
#[derive(Clone, Copy, Debug, PartialEq, Eq, Structural)]
pub struct Nonce {
    pub base: u64,
    pub bitmap: u64,
}

/// An account, with its canonical encoding, which the state root commits to. An
/// account is made from its balance and nonces, and cannot be changed afterwards, so
/// the encoding is always theirs.
#[derive(Debug)]
pub struct Account {
    balance: u64,
    nonce: Nonce,
    encoded: Vec<u8>,
}

/// What an [`Account`] holds.
pub struct AccountView {
    pub balance: u64,
    pub nonce: Nonce,
    pub encoded: Seq<u8>,
}

impl View for Account {
    type V = AccountView;

    closed spec fn view(&self) -> AccountView {
        AccountView { balance: self.balance, nonce: self.nonce, encoded: self.encoded@ }
    }
}

/// The account's encoding is one that `encode` gives for its balance and nonces.
pub open spec fn encoded_by<E>(account: AccountView, encode: E) -> bool where
    E: FnOnce(u64, Nonce) -> Vec<u8>,
 {
    exists|bytes: Vec<u8>|
        {
            &&& #[trigger] call_ensures(encode, (account.balance, account.nonce), bytes)
            &&& account.encoded == bytes@
        }
}

impl Account {
    /// The account with that balance and nonces. `encode` gives its encoding.
    pub fn new<E>(balance: u64, nonce: Nonce, encode: E) -> (account: Account) where
        E: FnOnce(u64, Nonce) -> Vec<u8>,

        requires
            call_requires(encode, (balance, nonce)),
        ensures
            account@.balance == balance,
            account@.nonce == nonce,
            encoded_by(account@, encode),
    {
        let encoded = encode(balance, nonce);
        Account { balance, nonce, encoded }
    }

    /// The balance.
    pub fn balance(&self) -> (balance: u64)
        ensures
            balance == self@.balance,
    {
        self.balance
    }

    /// The nonces.
    pub fn nonce(&self) -> (nonce: Nonce)
        ensures
            nonce == self@.nonce,
    {
        self.nonce
    }

    /// The canonical encoding.
    pub fn encoded(&self) -> (encoded: &[u8])
        ensures
            encoded@ == self@.encoded,
    {
        self.encoded.as_slice()
    }

    /// An equal account.
    pub fn copy(&self) -> (copy: Account)
        ensures
            copy@ == self@,
    {
        Account {
            balance: self.balance,
            nonce: self.nonce,
            encoded: copy_bytes(self.encoded.as_slice()),
        }
    }
}

/// Account state as a mathematical map.
pub type AccountMap = Map<Seq<u8>, AccountView>;

/// The keys stand in strictly ascending lexicographic order.
pub open spec fn strictly_sorted(keys: Seq<Seq<u8>>) -> bool {
    forall|i: int, j: int|
        0 <= i < j < keys.len() ==> crate::bytes::bytes_before(#[trigger] keys[i], #[trigger] keys[j])
}

/// `keys` lists the keys of `accounts`, each once, in ascending order.
pub open spec fn lists_keys(keys: Seq<Seq<u8>>, accounts: AccountMap) -> bool {
    &&& strictly_sorted(keys)
    &&& forall|key: Seq<u8>| #[trigger] keys.contains(key) <==> accounts.contains_key(key)
}

/// The keys of a finite account map in ascending order.
pub open spec fn sorted_keys(accounts: AccountMap) -> Seq<Seq<u8>> {
    choose|keys: Seq<Seq<u8>>| lists_keys(keys, accounts)
}

/// Strictly sorted sequences with the same members are equal.
pub proof fn lemma_sorted_unique(a: Seq<Seq<u8>>, b: Seq<Seq<u8>>)
    requires
        strictly_sorted(a),
        strictly_sorted(b),
        forall|key: Seq<u8>| #[trigger] a.contains(key) <==> b.contains(key),
    ensures
        a == b,
    decreases a.len(),
{
    if a.len() == 0 {
        if b.len() > 0 {
            assert(b.contains(b[0]));
            assert(a.contains(b[0]));
        }
        assert(a =~= b);
    } else {
        assert(a.contains(a.last()));
        assert(b.contains(a.last()));
        assert(b.contains(b.last()));
        assert(a.contains(b.last()));
        let i = b.index_of(a.last());
        let j = a.index_of(b.last());
        if i < b.len() - 1 && j < a.len() - 1 {
            crate::bytes::lemma_before_transitive(a.last(), b.last(), a.last());
            crate::bytes::lemma_before_irreflexive(a.last());
        }
        assert(a.last() == b.last());
        assert forall|key: Seq<u8>| #[trigger]
            a.drop_last().contains(key) <==> b.drop_last().contains(key) by {
            crate::bytes::lemma_before_irreflexive(a.last());
            if a.drop_last().contains(key) {
                let m = a.drop_last().index_of(key);
                assert(a[m] == key);
                assert(a.contains(key));
                assert(b.contains(key));
                let n = b.index_of(key);
                assert(n < b.len() - 1);
                assert(b.drop_last()[n] == key);
            }
            if b.drop_last().contains(key) {
                let m = b.drop_last().index_of(key);
                assert(b[m] == key);
                assert(b.contains(key));
                assert(a.contains(key));
                let n = a.index_of(key);
                assert(n < a.len() - 1);
                assert(a.drop_last()[n] == key);
            }
        }
        lemma_sorted_unique(a.drop_last(), b.drop_last());
        assert(a =~= a.drop_last().push(a.last()));
        assert(b =~= b.drop_last().push(b.last()));
    }
}

/// Where a key stands, or belongs, among the sorted entries.
enum Slot {
    Found(usize),
    Absent(usize),
}

/// Account state. The entries are sorted by key, and no key occurs twice.
#[derive(Debug)]
pub struct Accounts {
    entries: Vec<(AccountKey, Account)>,
}

impl View for Accounts {
    type V = AccountMap;

    closed spec fn view(&self) -> AccountMap {
        Map::new(
            |key: Seq<u8>| self.keys().contains(key),
            |key: Seq<u8>| self.entries@[self.keys().index_of(key)].1@,
        )
    }
}

impl Accounts {
    /// The keys in the order in which the entries stand.
    pub closed spec fn keys(&self) -> Seq<Seq<u8>> {
        Seq::new(self.entries@.len(), |i: int| self.entries@[i].0@)
    }

    /// The entries are sorted by key, and no key occurs twice.
    pub closed spec fn wf(&self) -> bool {
        strictly_sorted(self.keys())
    }

    /// Each entry is found under its key.
    proof fn lemma_entry(&self, i: int)
        requires
            self.wf(),
            0 <= i < self.entries@.len(),
        ensures
            self@.contains_key(self.entries@[i].0@),
            self@[self.entries@[i].0@] == self.entries@[i].1@,
    {
        let key = self.entries@[i].0@;
        assert(self.keys()[i] == key);
        assert(self.keys().contains(key));
        let j = self.keys().index_of(key);
        if i != j {
            crate::bytes::lemma_before_irreflexive(key);
        }
    }

    /// The entries' keys are the sorted keys of the map.
    pub proof fn lemma_keys(&self)
        requires
            self.wf(),
        ensures
            lists_keys(self.keys(), self@),
            self.keys() == sorted_keys(self@),
            self.keys().len() == self@.len(),
            self@.dom().finite(),
    {
        assert(lists_keys(self.keys(), self@));
        lemma_sorted_unique(self.keys(), sorted_keys(self@));
        assert forall|i: int, j: int| 0 <= i < self.keys().len() && 0 <= j < self.keys().len() && i
            != j implies self.keys()[i] != self.keys()[j] by {
            crate::bytes::lemma_before_irreflexive(self.keys()[i]);
        }
        assert(self.keys().no_duplicates());
        self.keys().unique_seq_to_set();
        assert(self@.dom() =~= self.keys().to_set());
        vstd::seq_lib::seq_to_set_is_finite(self.keys());
    }

    /// Account state without accounts.
    pub fn new() -> (accounts: Self)
        ensures
            accounts.wf(),
            accounts@ == AccountMap::empty(),
    {
        let accounts = Accounts { entries: Vec::new() };
        assert(accounts@ =~= AccountMap::empty());
        accounts
    }

    /// Equal account state.
    pub fn copy(&self) -> (copy: Self)
        requires
            self.wf(),
        ensures
            copy.wf(),
            copy@ == self@,
    {
        let mut entries: Vec<(AccountKey, Account)> = Vec::with_capacity(self.entries.len());
        let mut i: usize = 0;
        while i < self.entries.len()
            invariant
                i <= self.entries@.len(),
                entries@.len() == i,
                forall|j: int|
                    0 <= j < i ==> (#[trigger] entries@[j]).0@ == self.entries@[j].0@
                        && entries@[j].1@ == self.entries@[j].1@,
            decreases self.entries@.len() - i,
        {
            let key = AccountKey { bytes: copy_bytes(self.entries[i].0.bytes.as_slice()) };
            entries.push((key, self.entries[i].1.copy()));
            i = i + 1;
        }
        let copy = Accounts { entries };
        assert(copy.keys() =~= self.keys());
        assert forall|key: Seq<u8>| #[trigger] self@.contains_key(key) implies copy@[key]
            == self@[key] by {
            let at = self.keys().index_of(key);
            assert(self.keys()[at] == key);
        }
        assert(copy@ =~= self@);
        copy
    }

    /// The number of accounts.
    pub fn len(&self) -> (count: usize)
        requires
            self.wf(),
        ensures
            count == self@.len(),
    {
        proof {
            self.lemma_keys();
        }
        self.entries.len()
    }

    /// The entry at position `index`, in ascending key order.
    pub fn entry(&self, index: usize) -> (entry: (&AccountKey, &Account))
        requires
            self.wf(),
            index < self@.len(),
        ensures
            entry.0@ == sorted_keys(self@)[index as int],
            self@.contains_key(entry.0@),
            entry.1@ == self@[entry.0@],
    {
        proof {
            self.lemma_keys();
            self.lemma_entry(index as int);
        }
        (&self.entries[index].0, &self.entries[index].1)
    }

    /// Finds the place of a key by bisection.
    fn find(&self, key: &AccountKey) -> (slot: Slot)
        requires
            self.wf(),
        ensures
            match slot {
                Slot::Found(at) => at < self.entries@.len() && self.entries@[at as int].0@ == key@,
                Slot::Absent(at) => {
                    &&& at <= self.entries@.len()
                    &&& forall|i: int|
                        0 <= i < at ==> crate::bytes::bytes_before(#[trigger] self.keys()[i], key@)
                    &&& forall|i: int|
                        at <= i < self.keys().len() ==> crate::bytes::bytes_before(
                            key@,
                            #[trigger] self.keys()[i],
                        )
                },
            },
    {
        let mut low: usize = 0;
        let mut high: usize = self.entries.len();
        while low < high
            invariant
                self.wf(),
                low <= high <= self.entries@.len(),
                forall|i: int|
                    0 <= i < low ==> crate::bytes::bytes_before(#[trigger] self.keys()[i], key@),
                forall|i: int|
                    high <= i < self.keys().len() ==> crate::bytes::bytes_before(
                        key@,
                        #[trigger] self.keys()[i],
                    ),
            decreases high - low,
        {
            let middle: usize = low + (high - low) / 2;
            let ghost pivot = self.keys()[middle as int];
            match place_bytes(self.entries[middle].0.bytes.as_slice(), key.bytes.as_slice()) {
                Placement::Same => {
                    return Slot::Found(middle);
                },
                Placement::Before => {
                    assert forall|i: int| 0 <= i < middle + 1 implies crate::bytes::bytes_before(
                        #[trigger] self.keys()[i],
                        key@,
                    ) by {
                        if i < middle {
                            crate::bytes::lemma_before_transitive(self.keys()[i], pivot, key@);
                        }
                    }
                    low = middle + 1;
                },
                Placement::After => {
                    proof {
                        crate::bytes::lemma_before_total(pivot, key@);
                    }
                    assert forall|i: int|
                        middle <= i < self.keys().len() implies crate::bytes::bytes_before(
                        key@,
                        #[trigger] self.keys()[i],
                    ) by {
                        if middle < i {
                            crate::bytes::lemma_before_transitive(key@, pivot, self.keys()[i]);
                        }
                    }
                    high = middle;
                },
            }
        }
        Slot::Absent(low)
    }

    /// The account under a key.
    pub fn get(&self, key: &AccountKey) -> (account: Option<&Account>)
        requires
            self.wf(),
        ensures
            match account {
                Some(account) => self@.contains_key(key@) && account@ == self@[key@],
                None => !self@.contains_key(key@),
            },
    {
        match self.find(key) {
            Slot::Found(at) => {
                proof {
                    self.lemma_entry(at as int);
                }
                Some(&self.entries[at].1)
            },
            Slot::Absent(at) => {
                proof {
                    if self.keys().contains(key@) {
                        crate::bytes::lemma_before_irreflexive(key@);
                        let i = self.keys().index_of(key@);
                        assert(self.keys()[i] == key@);
                    }
                }
                None
            },
        }
    }

    /// Puts an account under a key, in place of the one that was there.
    pub fn insert(&mut self, key: AccountKey, account: Account)
        requires
            old(self).wf(),
        ensures
            final(self).wf(),
            final(self)@ == old(self)@.insert(key@, account@),
    {
        let ghost before = *self;
        let ghost key_bytes = key@;
        let ghost value = account@;
        match self.find(&key) {
            Slot::Found(at) => {
                self.entries.set(at, (key, account));
                proof {
                    assert(self.keys() =~= before.keys());
                    before.lemma_entry(at as int);
                    self.lemma_entry(at as int);
                    assert forall|k: Seq<u8>| #[trigger] before@.contains_key(k) && k != key_bytes
                        implies self@[k] == before@[k] by {
                        let i = before.keys().index_of(k);
                        assert(before.keys()[i] == k);
                        before.lemma_entry(i);
                        self.lemma_entry(i);
                    }
                    assert(self@ =~= before@.insert(key_bytes, value));
                }
            },
            Slot::Absent(at) => {
                self.entries.insert(at, (key, account));
                proof {
                    assert(self.keys() =~= before.keys().insert(at as int, key_bytes));
                    assert(strictly_sorted(self.keys()));
                    self.lemma_entry(at as int);
                    assert forall|k: Seq<u8>| #[trigger] before@.contains_key(k) && k != key_bytes
                        implies self@.contains_key(k) && self@[k] == before@[k] by {
                        let i = before.keys().index_of(k);
                        assert(before.keys()[i] == k);
                        before.lemma_entry(i);
                        self.lemma_entry(if i < at { i } else { i + 1 });
                    }
                    assert forall|k: Seq<u8>| #[trigger] self@.contains_key(k) implies k == key_bytes
                        || before@.contains_key(k) by {
                        let i = self.keys().index_of(k);
                        assert(self.keys()[i] == k);
                        if i != at {
                            before.lemma_entry(if i < at { i } else { i - 1 });
                        }
                    }
                    assert(self@ =~= before@.insert(key_bytes, value));
                }
            },
        }
    }
}

/// Account changes as mathematical values, in the order in which they are made.
pub open spec fn changes_view(changes: Seq<(AccountKey, Account)>) -> Seq<
    (Seq<u8>, AccountView),
> {
    Seq::new(changes.len(), |i: int| (changes[i].0@, changes[i].1@))
}

/// The map after the changes: a later change to a key overrides an earlier one.
pub open spec fn apply_changes(
    accounts: AccountMap,
    changes: Seq<(Seq<u8>, AccountView)>,
) -> AccountMap
    decreases changes.len(),
{
    if changes.len() == 0 {
        accounts
    } else {
        apply_changes(accounts, changes.drop_last()).insert(changes.last().0, changes.last().1)
    }
}

impl Accounts {
    /// Makes the changes in order.
    pub fn apply(&mut self, changes: Vec<(AccountKey, Account)>)
        requires
            old(self).wf(),
        ensures
            final(self).wf(),
            final(self)@ == apply_changes(old(self)@, changes_view(changes@)),
    {
        let ghost before = self@;
        let ghost all = changes_view(changes@);
        assert(all.take(0) =~= Seq::<(Seq<u8>, AccountView)>::empty());
        for change in it: changes
            invariant
                self.wf(),
                all == changes_view(it.seq()),
                self@ == apply_changes(before, all.take(it.index() as int)),
        {
            assert(all.take(it.index() + 1).drop_last() =~= all.take(it.index() as int));
            self.insert(change.0, change.1);
        }
        assert(all.take(all.len() as int) =~= all);
    }
}

} // verus!
