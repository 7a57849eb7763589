//! What the state root, the transactions root and the account changes cover.
use vstd::prelude::*;

use crate::accounts::{Account, AccountKey, AccountMap, AccountView};
use crate::chain::{BlockMeta, ChainState, ChainView, Header, PublicKey, Tx};
use crate::hash::Digest;

verus! {

/// `a` and `b` agree before place `n`, and there `a` ends or has the smaller byte.
pub open spec fn differs_at(a: Seq<u8>, b: Seq<u8>, n: int) -> bool {
    &&& 0 <= n <= a.len()
    &&& n < b.len()
    &&& forall|i: int| 0 <= i < n ==> a[i] == b[i]
    &&& n < a.len() ==> a[n] < b[n]
}

/// Byte strings are ordered by the first place where they differ, and a proper prefix
/// stands before what it is a prefix of.
pub proof fn law_byte_order(a: Seq<u8>, b: Seq<u8>)
    ensures
        crate::bytes::bytes_before(a, b) <==> exists|n: int| #[trigger] differs_at(a, b, n),
    decreases a.len(),
{
    if a.len() > 0 && b.len() > 0 && a[0] == b[0] {
        law_byte_order(a.drop_first(), b.drop_first());
        if crate::bytes::bytes_before(a, b) {
            let n = choose|n: int| #[trigger] differs_at(a.drop_first(), b.drop_first(), n);
            assert forall|i: int| 0 <= i < n + 1 implies a[i] == b[i] by {
                if i > 0 {
                    assert(a.drop_first()[i - 1] == b.drop_first()[i - 1]);
                }
            }
            assert(differs_at(a, b, n + 1));
        }
        if exists|n: int| #[trigger] differs_at(a, b, n) {
            let n = choose|n: int| #[trigger] differs_at(a, b, n);
            assert(n > 0);
            assert(differs_at(a.drop_first(), b.drop_first(), n - 1));
        }
    } else if b.len() > 0 {
        if a.len() == 0 || a[0] < b[0] {
            assert(differs_at(a, b, 0));
        } else if exists|n: int| #[trigger] differs_at(a, b, n) {
            let n = choose|n: int| #[trigger] differs_at(a, b, n);
            assert(n == 0 || a[0] == b[0]);
        }
    }
}

/// `keys` holds every key of the accounts and no other, in ascending order.
pub open spec fn in_key_order(keys: Seq<Seq<u8>>, accounts: AccountMap) -> bool {
    &&& forall|i: int, j: int|
        #![trigger keys[i], keys[j]]
        0 <= i < j < keys.len() ==> exists|n: int| #[trigger] differs_at(keys[i], keys[j], n)
    &&& forall|i: int| 0 <= i < keys.len() ==> accounts.contains_key(#[trigger] keys[i])
    &&& forall|key: Seq<u8>| #[trigger]
        accounts.contains_key(key) ==> exists|i: int|
            0 <= i < keys.len() && #[trigger] keys[i] == key
}

/// The accounts are listed in ascending key order, each once.
pub proof fn law_keys_are_listed_in_order(keys: Seq<Seq<u8>>, accounts: AccountMap)
    requires
        in_key_order(keys, accounts),
    ensures
        crate::accounts::sorted_keys(accounts) == keys,
{
    assert forall|i: int, j: int| 0 <= i < j < keys.len() implies crate::bytes::bytes_before(
        #[trigger] keys[i],
        #[trigger] keys[j],
    ) by {
        law_byte_order(keys[i], keys[j]);
    }
    assert forall|key: Seq<u8>| #[trigger] keys.contains(key) <==> accounts.contains_key(key) by {
        if accounts.contains_key(key) {
            let i = choose|i: int| 0 <= i < keys.len() && #[trigger] keys[i] == key;
            assert(keys[i] == key);
        }
    }
    assert(crate::accounts::lists_keys(keys, accounts));
    crate::accounts::lemma_sorted_unique(crate::accounts::sorted_keys(accounts), keys);
}

/// What the state root hashes of each account: its key, and its encoding behind it.
pub open spec fn account_parts(keys: Seq<Seq<u8>>, accounts: AccountMap) -> Seq<Seq<u8>> {
    Seq::new(keys.len(), |i: int| keys[i] + accounts[keys[i]].encoded)
}

/// Listing one more account adds its key and its encoding to the hashed bytes.
pub proof fn law_each_account_adds_its_bytes(
    keys: Seq<Seq<u8>>,
    key: Seq<u8>,
    accounts: AccountMap,
)
    ensures
        crate::chain::listed_bytes(Seq::empty(), accounts) == Seq::<u8>::empty(),
        crate::chain::listed_bytes(keys.push(key), accounts) == crate::chain::listed_bytes(
            keys,
            accounts,
        ) + key + accounts[key].encoded,
{
    assert(keys.push(key).drop_last() =~= keys);
}

proof fn lemma_listed_bytes(keys: Seq<Seq<u8>>, accounts: AccountMap)
    ensures
        crate::chain::listed_bytes(keys, accounts) == account_parts(keys, accounts).flatten(),
    decreases keys.len(),
{
    if keys.len() > 0 {
        let earlier = keys.drop_last();
        lemma_listed_bytes(earlier, accounts);
        let part = keys.last() + accounts[keys.last()].encoded;
        account_parts(earlier, accounts).lemma_flatten_push(part);
        assert(account_parts(earlier, accounts).push(part) =~= account_parts(keys, accounts));
        assert(earlier.push(keys.last()) =~= keys);
        law_each_account_adds_its_bytes(earlier, keys.last(), accounts);
        assert(crate::chain::listed_bytes(keys, accounts) =~= account_parts(
            earlier,
            accounts,
        ).flatten() + part);
    }
}

/// The state root is the hash of every account, its key and its encoding, in ascending
/// key order and nothing else.
pub proof fn law_state_root_hashes_every_account(keys: Seq<Seq<u8>>, accounts: AccountMap)
    requires
        in_key_order(keys, accounts),
    ensures
        crate::chain::state_root_of(accounts).0 == crate::hash::sha256_of(
            account_parts(keys, accounts).flatten(),
        ),
{
    law_keys_are_listed_in_order(keys, accounts);
    lemma_listed_bytes(keys, accounts);
}

/// Parts of the same sizes that make the same whole are the same.
proof fn lemma_flatten_injective(one: Seq<Seq<u8>>, other: Seq<Seq<u8>>)
    requires
        one.len() == other.len(),
        forall|i: int| 0 <= i < one.len() ==> (#[trigger] one[i]).len() == other[i].len(),
        one.flatten() == other.flatten(),
    ensures
        one == other,
    decreases one.len(),
{
    if one.len() > 0 {
        let size = one[0].len() as int;
        assert(one.flatten() == one[0] + one.drop_first().flatten());
        assert(other.flatten() == other[0] + other.drop_first().flatten());
        assert(one[0] =~= one.flatten().take(size));
        assert(other[0] =~= other.flatten().take(size));
        assert(one.drop_first().flatten() =~= one.flatten().skip(size));
        assert(other.drop_first().flatten() =~= other.flatten().skip(size));
        assert forall|i: int| 0 <= i < one.drop_first().len() implies (
        #[trigger] one.drop_first()[i]).len() == other.drop_first()[i].len() by {
            assert(one[i + 1].len() == other[i + 1].len());
        }
        lemma_flatten_injective(one.drop_first(), other.drop_first());
        assert(one =~= seq![one[0]] + one.drop_first());
        assert(other =~= seq![other[0]] + other.drop_first());
    } else {
        assert(one =~= other);
    }
}

/// No account can change its encoding to another of the same size unnoticed: accounts
/// under the same keys that the state root hashes the same bytes of have the same
/// encodings.
pub proof fn law_hashed_bytes_fix_the_encodings(
    keys: Seq<Seq<u8>>,
    one: AccountMap,
    other: AccountMap,
)
    requires
        forall|i: int|
            0 <= i < keys.len() ==> one[#[trigger] keys[i]].encoded.len()
                == other[keys[i]].encoded.len(),
        crate::chain::listed_bytes(keys, one) == crate::chain::listed_bytes(keys, other),
    ensures
        forall|i: int|
            0 <= i < keys.len() ==> one[#[trigger] keys[i]].encoded == other[keys[i]].encoded,
{
    lemma_listed_bytes(keys, one);
    lemma_listed_bytes(keys, other);
    let left = account_parts(keys, one);
    let right = account_parts(keys, other);
    assert forall|i: int| 0 <= i < left.len() implies (#[trigger] left[i]).len()
        == right[i].len() by {
        assert(one[keys[i]].encoded.len() == other[keys[i]].encoded.len());
    }
    lemma_flatten_injective(left, right);
    assert forall|i: int| 0 <= i < keys.len() implies one[#[trigger] keys[i]].encoded
        == other[keys[i]].encoded by {
        let size = keys[i].len() as int;
        assert(left[i] == right[i]);
        assert(left[i].skip(size) =~= one[keys[i]].encoded);
        assert(right[i].skip(size) =~= other[keys[i]].encoded);
    }
}

/// The message digests of the transactions.
pub open spec fn digest_parts(transactions: Seq<Tx>) -> Seq<Seq<u8>> {
    Seq::new(transactions.len(), |i: int| transactions[i].message_digest.0@)
}

/// The bytes behind the transactions root hold every message digest, in block order.
pub proof fn law_every_transaction_is_hashed(transactions: Seq<Tx>)
    ensures
        crate::chain::message_bytes(transactions) == digest_parts(transactions).flatten(),
        crate::chain::message_bytes(transactions).len() == 32 * transactions.len(),
        forall|i: int|
            0 <= i < transactions.len() ==> crate::chain::message_bytes(transactions).subrange(
                32 * i,
                32 * i + 32,
            ) == (#[trigger] transactions[i]).message_digest.0@,
    decreases transactions.len(),
{
    if transactions.len() > 0 {
        let earlier = transactions.drop_last();
        law_every_transaction_is_hashed(earlier);
        let part = transactions.last().message_digest.0@;
        let bytes = crate::chain::message_bytes(transactions);
        digest_parts(earlier).lemma_flatten_push(part);
        assert(digest_parts(earlier).push(part) =~= digest_parts(transactions));
        assert(bytes == crate::chain::message_bytes(earlier) + part);
        assert forall|i: int| 0 <= i < transactions.len() implies bytes.subrange(32 * i, 32 * i + 32)
            == (#[trigger] transactions[i]).message_digest.0@ by {
            if i < earlier.len() {
                assert(earlier[i] == transactions[i]);
                assert(bytes.subrange(32 * i, 32 * i + 32) =~= crate::chain::message_bytes(
                    earlier,
                ).subrange(32 * i, 32 * i + 32));
            } else {
                assert(bytes.subrange(32 * i, 32 * i + 32) =~= part);
            }
        }
    }
}

/// Transactions with the same hashed bytes have the same message digests.
pub proof fn law_hashed_bytes_fix_the_transactions(one: Seq<Tx>, other: Seq<Tx>)
    requires
        crate::chain::message_bytes(one) == crate::chain::message_bytes(other),
    ensures
        one.len() == other.len(),
        forall|i: int|
            0 <= i < one.len() ==> (#[trigger] one[i]).message_digest == other[i].message_digest,
{
    law_every_transaction_is_hashed(one);
    law_every_transaction_is_hashed(other);
    assert forall|i: int| 0 <= i < one.len() implies (#[trigger] one[i]).message_digest
        == other[i].message_digest by {
        assert(one[i].message_digest.0@ == other[i].message_digest.0@);
        assert(one[i].message_digest.0 =~= other[i].message_digest.0);
    }
}

/// After changes, a key has the account of the last change to it, and the account that
/// it had before where no change is to it.
pub proof fn law_last_change_counts(
    accounts: AccountMap,
    changes: Seq<(Seq<u8>, AccountView)>,
    key: Seq<u8>,
)
    ensures
        ({
            let after = crate::accounts::apply_changes(accounts, changes);
            &&& forall|i: int|
                0 <= i < changes.len() && (#[trigger] changes[i]).0 == key && (forall|j: int|
                    i < j < changes.len() ==> (#[trigger] changes[j]).0 != key) ==> {
                    &&& after.contains_key(key)
                    &&& after[key] == changes[i].1
                }
            &&& (forall|i: int| 0 <= i < changes.len() ==> (#[trigger] changes[i]).0 != key) ==> {
                &&& after.contains_key(key) <==> accounts.contains_key(key)
                &&& accounts.contains_key(key) ==> after[key] == accounts[key]
            }
        }),
    decreases changes.len(),
{
    if changes.len() > 0 {
        let earlier = changes.drop_last();
        let last = changes.len() - 1;
        law_last_change_counts(accounts, earlier, key);
        let after = crate::accounts::apply_changes(accounts, changes);
        assert forall|i: int|
            0 <= i < changes.len() && (#[trigger] changes[i]).0 == key && (forall|j: int|
                i < j < changes.len() ==> (#[trigger] changes[j]).0 != key) implies {
            &&& after.contains_key(key)
            &&& after[key] == changes[i].1
        } by {
            if i < last {
                assert(changes[last].0 != key);
                assert(earlier[i] == changes[i]);
                assert forall|j: int| i < j < earlier.len() implies (#[trigger] earlier[j]).0
                    != key by {
                    assert(earlier[j] == changes[j]);
                }
            }
        }
        if forall|i: int| 0 <= i < changes.len() ==> (#[trigger] changes[i]).0 != key {
            assert(changes[last].0 != key);
            assert forall|i: int| 0 <= i < earlier.len() implies (#[trigger] earlier[i]).0 != key by {
                assert(earlier[i] == changes[i]);
            }
        }
    }
}

/// The changes that are made are those that the executor gave, in its order.
pub proof fn law_changes_are_taken_over(changes: Seq<(AccountKey, Account)>)
    ensures
        crate::accounts::changes_view(changes).len() == changes.len(),
        forall|i: int|
            0 <= i < changes.len() ==> {
                &&& (#[trigger] crate::accounts::changes_view(changes)[i]).0 == changes[i].0.bytes@
                &&& crate::accounts::changes_view(changes)[i].1 == changes[i].1@
            },
{
}

/// The view of a chain is what its fields hold.
pub proof fn law_chain_views(chain: ChainState)
    ensures
        chain@.accounts == chain.accounts@,
        chain@.height == chain.height,
        chain@.parent == chain.parent,
        chain@.total_txs == chain.total_txs,
{
}

/// A chain at genesis has the allocated accounts, no block, no transaction, and the hash
/// of a fixed text as its head.
pub proof fn law_genesis_chain(alloc: Seq<(Seq<u8>, AccountView)>)
    ensures
        ({
            let chain = crate::chain::genesis_chain(alloc);
            &&& chain.accounts == crate::accounts::apply_changes(Map::empty(), alloc)
            &&& chain.height == 0
            &&& chain.total_txs == 0
            &&& chain.parent.0 == crate::hash::sha256_of(
                vstd::utf8::encode_utf8("constantinople-coro-genesis"@),
            )
        }),
{
}

/// The number at the end of a range: how many there are, and at least one.
pub open spec fn at_least_one(count: int) -> int {
    if count == 0 {
        1
    } else {
        count
    }
}

/// The digest is the hash of all the accounts in ascending key order: each key, with its
/// account's encoding behind it.
pub open spec fn hashes_accounts(root: Digest, accounts: AccountMap) -> bool {
    forall|keys: Seq<Seq<u8>>| #[trigger]
        in_key_order(keys, accounts) ==> root.0 == crate::hash::sha256_of(
            account_parts(keys, accounts).flatten(),
        )
}

/// The header is that of the block behind the chain's head with these transactions, after
/// which there are these accounts, but for the state root, of which nothing is said.
pub open spec fn extends(
    header: Header,
    chain: ChainView,
    leader: PublicKey,
    transactions: Seq<Tx>,
    accounts: AccountMap,
) -> bool {
    &&& header.height == chain.height + 1
    &&& header.timestamp == chain.height + 1
    &&& header.parent == chain.parent
    &&& header.context.round.epoch == 0
    &&& header.context.round.view == chain.height + 1
    &&& header.context.leader == leader
    &&& header.context.parent.0 == chain.height
    &&& header.context.parent.1 == chain.parent
    &&& header.state_range.start == 0
    &&& header.state_range.end == accounts.len()
    &&& header.transactions_root.0 == crate::hash::sha256_of(digest_parts(transactions).flatten())
    &&& header.transactions_range.start == 0
    &&& header.transactions_range.end == at_least_one(
        (chain.total_txs + transactions.len()) as int,
    )
}

/// The state root of accounts is the hash of all of them.
pub proof fn law_state_roots_hash_accounts(accounts: AccountMap)
    ensures
        hashes_accounts(crate::chain::state_root_of(accounts), accounts),
{
    assert forall|keys: Seq<Seq<u8>>| #[trigger] in_key_order(keys, accounts) implies
        crate::chain::state_root_of(accounts).0 == crate::hash::sha256_of(
        account_parts(keys, accounts).flatten(),
    ) by {
        law_state_root_hashes_every_account(keys, accounts);
    }
}

/// A block's header extends the chain by its transactions, and its state root hashes the
/// accounts that the block leaves.
pub proof fn law_header_of_a_block(
    chain: ChainView,
    leader: PublicKey,
    transactions: Seq<Tx>,
    changes: Seq<(Seq<u8>, AccountView)>,
)
    requires
        chain.height < u64::MAX,
        chain.total_txs + transactions.len() <= u64::MAX,
        crate::accounts::apply_changes(chain.accounts, changes).len() <= u64::MAX,
    ensures
        ({
            let accounts = crate::accounts::apply_changes(chain.accounts, changes);
            let header = crate::builder::block_header(chain, leader, transactions, changes);
            &&& extends(header, chain, leader, transactions, accounts)
            &&& hashes_accounts(header.state_root, accounts)
        }),
{
    law_state_roots_hash_accounts(crate::accounts::apply_changes(chain.accounts, changes));
    law_every_transaction_is_hashed(transactions);
}

/// The header that a chain gives for its next block has the state root that it is given,
/// and extends the chain by the transactions.
pub proof fn law_header_on_a_chain(
    chain: ChainView,
    leader: PublicKey,
    transactions: Seq<Tx>,
    state_root: Digest,
)
    requires
        chain.height < u64::MAX,
        chain.total_txs + transactions.len() <= u64::MAX,
        chain.accounts.len() <= u64::MAX,
    ensures
        ({
            let header = crate::chain::extending_header(chain, leader, transactions, state_root);
            &&& extends(header, chain, leader, transactions, chain.accounts)
            &&& header.state_root == state_root
        }),
{
    law_every_transaction_is_hashed(transactions);
}

/// A block's metadata give its height, the hash of the accounts that it leaves and the
/// number of its transactions; behind it the chain has these accounts, the block as its
/// head, and its transactions counted.
pub proof fn law_chain_after_a_block(
    chain: ChainView,
    transactions: Seq<Tx>,
    changes: Seq<(Seq<u8>, AccountView)>,
    digest: Digest,
)
    requires
        chain.height < u64::MAX,
        chain.total_txs + transactions.len() <= u64::MAX,
    ensures
        ({
            let accounts = crate::accounts::apply_changes(chain.accounts, changes);
            let meta = crate::builder::block_meta(chain, transactions, changes);
            let after = crate::builder::extended_chain(chain, transactions.len(), changes, digest);
            &&& meta.height == chain.height + 1
            &&& meta.tx_count == transactions.len()
            &&& hashes_accounts(meta.state_root, accounts)
            &&& after.accounts == accounts
            &&& after.height == chain.height + 1
            &&& after.parent == digest
            &&& after.total_txs == chain.total_txs + transactions.len()
        }),
{
    law_state_roots_hash_accounts(crate::accounts::apply_changes(chain.accounts, changes));
}

/// Making account changes leaves the head, and moving the head leaves the accounts.
pub proof fn law_chain_steps(
    chain: ChainView,
    changes: Seq<(Seq<u8>, AccountView)>,
    digest: Digest,
    tx_count: int,
)
    requires
        0 <= tx_count,
    ensures
        chain.has_room(tx_count) <==> chain.height < u64::MAX && chain.total_txs + tx_count
            <= u64::MAX,
        chain.with_changes(changes).accounts == crate::accounts::apply_changes(
            chain.accounts,
            changes,
        ),
        chain.with_changes(changes).height == chain.height,
        chain.with_changes(changes).parent == chain.parent,
        chain.with_changes(changes).total_txs == chain.total_txs,
        chain.advanced(digest, tx_count).accounts == chain.accounts,
        chain.advanced(digest, tx_count).parent == digest,
        chain.has_room(tx_count) ==> chain.advanced(digest, tx_count).height == chain.height + 1,
        chain.has_room(tx_count) ==> chain.advanced(digest, tx_count).total_txs == chain.total_txs
            + tx_count,
        (crate::builder::extendable(chain, tx_count as nat, changes) <==> {
            &&& chain.height < u64::MAX
            &&& chain.total_txs + tx_count <= u64::MAX
            &&& crate::accounts::apply_changes(chain.accounts, changes).len() > 0
        }),
{
}

/// Every field of the header that stands for a chain's head.
pub proof fn law_header_of_the_head(chain: ChainView, leader: PublicKey)
    requires
        chain.accounts.len() <= u64::MAX,
    ensures
        ({
            let header = crate::chain::head_header(chain, leader);
            &&& header.height == chain.height
            &&& header.timestamp == chain.height
            &&& header.parent == chain.parent
            &&& header.context.round.epoch == 0
            &&& header.context.round.view == chain.height
            &&& header.context.leader == leader
            &&& header.context.parent.1 == chain.parent
            &&& chain.height > 0 ==> header.context.parent.0 == chain.height - 1
            &&& chain.height == 0 ==> header.context.parent.0 == 0
            &&& hashes_accounts(header.state_root, chain.accounts)
            &&& header.state_range.start == 0
            &&& header.state_range.end == at_least_one(chain.accounts.len() as int)
            &&& header.transactions_root.0 == crate::hash::sha256_of(
                vstd::utf8::encode_utf8("coro-sequencer-parent"@),
            )
            &&& header.transactions_range.start == 0
            &&& header.transactions_range.end == at_least_one(chain.total_txs as int)
        }),
{
    law_state_roots_hash_accounts(chain.accounts);
}

/// Transactions are proposed on top of a chain's head in the very context that the header
/// of the block with them has.
pub proof fn law_proposals_have_the_context_of_their_block(
    chain: ChainView,
    leader: PublicKey,
    transactions: Seq<Tx>,
    changes: Seq<(Seq<u8>, AccountView)>,
)
    requires
        chain.height < u64::MAX,
    ensures
        ({
            let parent = crate::chain::head_header(chain, leader);
            let context = crate::chain::context_on(parent, leader);
            &&& context == crate::builder::block_header(
                chain,
                leader,
                transactions,
                changes,
            ).context
            &&& context.round.epoch == 0
            &&& context.round.view == chain.height + 1
            &&& context.leader == leader
            &&& context.parent.0 == chain.height
            &&& context.parent.1 == chain.parent
        }),
{
}

/// The bytes of an integer are its digits to the base 256, the most significant first.
pub proof fn law_integers_are_big_endian(value: u64)
    ensures
        ({
            let bytes = crate::codec::be_bytes(value);
            &&& bytes.len() == 8
            &&& bytes[0] == value / 0x100_0000_0000_0000
            &&& bytes[1] == (value / 0x1_0000_0000_0000) % 256
            &&& bytes[2] == (value / 0x100_0000_0000) % 256
            &&& bytes[3] == (value / 0x1_0000_0000) % 256
            &&& bytes[4] == (value / 0x100_0000) % 256
            &&& bytes[5] == (value / 0x1_0000) % 256
            &&& bytes[6] == (value / 0x100) % 256
            &&& bytes[7] == value % 256
            &&& crate::codec::be_value(bytes) == value
        }),
{
    crate::codec::lemma_be_round_trip(value);
    assert((value >> 56) as u8 == value / 0x100_0000_0000_0000) by (bit_vector);
    assert(((value >> 48) & 0xff) as u8 == (value / 0x1_0000_0000_0000) % 256) by (bit_vector);
    assert(((value >> 40) & 0xff) as u8 == (value / 0x100_0000_0000) % 256) by (bit_vector);
    assert(((value >> 32) & 0xff) as u8 == (value / 0x1_0000_0000) % 256) by (bit_vector);
    assert(((value >> 24) & 0xff) as u8 == (value / 0x100_0000) % 256) by (bit_vector);
    assert(((value >> 16) & 0xff) as u8 == (value / 0x1_0000) % 256) by (bit_vector);
    assert(((value >> 8) & 0xff) as u8 == (value / 0x100) % 256) by (bit_vector);
    assert((value & 0xff) as u8 == value % 256) by (bit_vector);
}

/// Encoded metadata are the height, the state root and the transaction count, one after
/// the other.
pub proof fn law_metadata_layout(meta: BlockMeta)
    ensures
        meta.spec_encoded().len() == 48,
        meta.spec_encoded().take(8) == crate::codec::be_bytes(meta.height),
        meta.spec_encoded().subrange(8, 40) == meta.state_root.0@,
        meta.spec_encoded().skip(40) == crate::codec::be_bytes(meta.tx_count),
{
    assert(meta.spec_encoded().take(8) =~= crate::codec::be_bytes(meta.height));
    assert(meta.spec_encoded().subrange(8, 40) =~= meta.state_root.0@);
    assert(meta.spec_encoded().skip(40) =~= crate::codec::be_bytes(meta.tx_count));
}

/// Digests and keys are equal where every byte is, metadata where the height, the state root
/// and the transaction count are, and headers where every field is.
pub proof fn law_equality(
    digests: (Digest, Digest),
    leaders: (PublicKey, PublicKey),
    metas: (BlockMeta, BlockMeta),
    headers: (Header, Header),
)
    ensures
        vstd::std_specs::cmp::PartialEqSpec::eq_spec(&digests.0, &digests.1) <==> forall|i: int|
            0 <= i < 32 ==> #[trigger] (digests.0).0[i] == (digests.1).0[i],
        vstd::std_specs::cmp::PartialEqSpec::eq_spec(&leaders.0, &leaders.1) <==> forall|i: int|
            0 <= i < 32 ==> #[trigger] (leaders.0).0[i] == (leaders.1).0[i],
        vstd::std_specs::cmp::PartialEqSpec::eq_spec(&metas.0, &metas.1) <==> {
            &&& metas.0.height == metas.1.height
            &&& metas.0.state_root == metas.1.state_root
            &&& metas.0.tx_count == metas.1.tx_count
        },
        vstd::std_specs::cmp::PartialEqSpec::eq_spec(&headers.0, &headers.1) <==> {
            &&& vstd::std_specs::cmp::PartialEqSpec::eq_spec(&headers.0.context, &headers.1.context)
            &&& headers.0.parent == headers.1.parent
            &&& headers.0.height == headers.1.height
            &&& headers.0.timestamp == headers.1.timestamp
            &&& headers.0.state_root == headers.1.state_root
            &&& headers.0.state_range == headers.1.state_range
            &&& headers.0.transactions_root == headers.1.transactions_root
            &&& headers.0.transactions_range == headers.1.transactions_range
        },
        vstd::std_specs::cmp::PartialEqSpec::eq_spec(&headers.0.context, &headers.1.context) <==> {
            &&& headers.0.context.round == headers.1.context.round
            &&& headers.0.context.leader == headers.1.context.leader
            &&& headers.0.context.parent.0 == headers.1.context.parent.0
            &&& headers.0.context.parent.1 == headers.1.context.parent.1
        },
{
    let one = digests.0;
    let other = digests.1;
    if forall|i: int| 0 <= i < 32 ==> #[trigger] one.0[i] == other.0[i] {
        assert(one.0 =~= other.0);
    }
    let leader = leaders.0;
    let second = leaders.1;
    if forall|i: int| 0 <= i < 32 ==> #[trigger] leader.0[i] == second.0[i] {
        assert(leader.0 =~= second.0);
    }
}

/// A header's range holds an index where its end is behind its start.
pub proof fn law_ranges(header: Header)
    ensures
        header.state_range.non_empty() <==> header.state_range.start < header.state_range.end,
{
}

} // verus!
