//! Shared chain state and block construction rules.
//!
//! The sequencer and the replicas must derive identical headers from identical
//! history, so everything that feeds the header stands here: the account map,
//! the parent digest, the cumulative transaction count, and the roots.
use vstd::prelude::*;

use crate::accounts::{Account, AccountKey, Accounts};
use crate::bytes::{push_bytes, same_array};
use crate::codec::{read_digest, read_u64, write_digest, write_u64};
use crate::hash::{sha256, Digest};
use crate::text::decimal_text;

verus! {

/// Errors shared by the sequencer and the replicas.
#[derive(Debug)]
pub enum EngineError {
    Decode(String),
    HeightMismatch { chain: u64, got: u64 },
    ParentMismatch,
    MalformedTransaction,
    InvalidTransfer,
    StateRootMismatch,
}

/// The message that an error is reported with.
pub open spec fn error_text(error: EngineError) -> Seq<char> {
    match error {
        EngineError::Decode(detail) => "block decode failed: "@ + detail@,
        EngineError::HeightMismatch { chain, got } => "block height "@ + crate::text::decimal(
            got as nat,
        ) + " does not extend chain height "@ + crate::text::decimal(chain as nat),
        EngineError::ParentMismatch => "block parent does not match chain head"@,
        EngineError::MalformedTransaction => "block contains a malformed transaction"@,
        EngineError::InvalidTransfer => "block contains an inapplicable transfer"@,
        EngineError::StateRootMismatch => "re-executed state root does not match block header"@,
    }
}

impl EngineError {
    /// The message that the error is reported with.
    pub fn to_text(&self) -> (text: String)
        ensures
            text@ == error_text(*self),
    {
        match self {
            EngineError::Decode(detail) => {
                let mut text = "block decode failed: ".to_owned();
                text.append(detail.as_str());
                text
            },
            EngineError::HeightMismatch { chain, got } => {
                let mut text = "block height ".to_owned();
                text.append(decimal_text(*got).as_str());
                text.append(" does not extend chain height ");
                text.append(decimal_text(*chain).as_str());
                text
            },
            EngineError::ParentMismatch => "block parent does not match chain head".to_owned(),
            EngineError::MalformedTransaction =>
                "block contains a malformed transaction".to_owned(),
            EngineError::InvalidTransfer => "block contains an inapplicable transfer".to_owned(),
            EngineError::StateRootMismatch =>
                "re-executed state root does not match block header".to_owned(),
        }
    }
}

/// The decode error for a failure whose text is given.
pub fn decode_error(err: String) -> (error: EngineError)
    ensures
        error == EngineError::Decode(err),
{
    EngineError::Decode(err)
}

/// Batch metadata stored alongside each archived or applied block.
#[derive(Clone, Copy, Debug, Eq)]
pub struct BlockMeta {
    /// Block height: the batch's sequence plus one; genesis is height zero.
    pub height: u64,
    /// Full-state root after applying the block.
    pub state_root: Digest,
    /// Number of transactions in the block.
    pub tx_count: u64,
}

impl PartialEq for BlockMeta {
    fn eq(&self, other: &Self) -> (same: bool) {
        self.height == other.height && self.state_root == other.state_root && self.tx_count
            == other.tx_count
    }
}

impl vstd::std_specs::cmp::PartialEqSpecImpl for BlockMeta {
    open spec fn obeys_eq_spec() -> bool {
        true
    }

    open spec fn eq_spec(&self, other: &Self) -> bool {
        *self == *other
    }
}

/// The number of bytes that encoded metadata take.
pub const BLOCK_META_SIZE: usize = 48;

/// Why metadata could not be read.
#[derive(Clone, Copy, Debug, PartialEq, Eq, Structural)]
pub enum MetaError {
    /// The input ends before the metadata do.
    EndOfBuffer,
}

impl BlockMeta {
    /// The encoding: height, state root and transaction count, one after the other.
    pub open spec fn spec_encoded(self) -> Seq<u8> {
        crate::codec::be_bytes(self.height) + self.state_root.0@ + crate::codec::be_bytes(
            self.tx_count,
        )
    }

    /// Appends the encoding.
    pub fn write(&self, buf: &mut Vec<u8>)
        ensures
            final(buf)@ == old(buf)@ + self.spec_encoded(),
            self.spec_encoded().len() == BLOCK_META_SIZE,
    {
        write_u64(buf, self.height);
        write_digest(buf, &self.state_root);
        write_u64(buf, self.tx_count);
        assert(buf@ =~= old(buf)@ + self.spec_encoded());
    }

    /// Takes encoded metadata from the front of the input. Where the input is too
    /// short, the fields that were complete have been taken.
    pub fn read_cfg(buf: &mut &[u8]) -> (meta: Result<BlockMeta, MetaError>)
        ensures
            meta is Ok <==> old(buf)@.len() >= BLOCK_META_SIZE,
            meta matches Ok(meta) ==> {
                &&& meta.height == crate::codec::be_value(old(buf)@)
                &&& meta.state_root.0@ == old(buf)@.subrange(8, 40)
                &&& meta.tx_count == crate::codec::be_value(old(buf)@.skip(40))
                &&& final(buf)@ == old(buf)@.skip(48)
            },
            meta is Err ==> final(buf)@ == old(buf)@.skip(
                if old(buf)@.len() < 8 {
                    0
                } else if old(buf)@.len() < 40 {
                    8
                } else {
                    40
                },
            ),
    {
        let ghost input = buf@;
        let height = match read_u64(buf) {
            Ok(height) => height,
            Err(_) => {
                assert(buf@ =~= input.skip(0));
                return Err(MetaError::EndOfBuffer);
            },
        };
        let state_root = match read_digest(buf) {
            Ok(state_root) => state_root,
            Err(_) => {
                return Err(MetaError::EndOfBuffer);
            },
        };
        assert(buf@ =~= input.skip(40));
        let tx_count = match read_u64(buf) {
            Ok(tx_count) => tx_count,
            Err(_) => {
                return Err(MetaError::EndOfBuffer);
            },
        };
        assert(buf@ =~= input.skip(48));
        assert(state_root.0@ =~= input.subrange(8, 40));
        Ok(BlockMeta { height, state_root, tx_count })
    }
}

/// An Ed25519 public key in its 32-byte encoding.
#[derive(Clone, Copy, Debug, Eq)]
pub struct PublicKey(pub [u8; 32]);

impl PartialEq for PublicKey {
    fn eq(&self, other: &Self) -> (same: bool) {
        same_array(&self.0, &other.0)
    }
}

impl vstd::std_specs::cmp::PartialEqSpecImpl for PublicKey {
    open spec fn obeys_eq_spec() -> bool {
        true
    }

    open spec fn eq_spec(&self, other: &Self) -> bool {
        *self == *other
    }
}

/// A consensus round: an epoch and a view in it.
#[derive(Clone, Copy, Debug, PartialEq, Eq, Structural)]
pub struct Round {
    pub epoch: u64,
    pub view: u64,
}

/// The consensus context of a block: its round, its leader, and the view and
/// digest of its parent.
#[derive(Clone, Copy, Debug, Eq)]
pub struct Context {
    pub round: Round,
    pub leader: PublicKey,
    pub parent: (u64, Digest),
}

impl PartialEq for Context {
    fn eq(&self, other: &Self) -> (same: bool) {
        self.round == other.round && self.leader == other.leader && self.parent.0 == other.parent.0
            && self.parent.1 == other.parent.1
    }
}

impl vstd::std_specs::cmp::PartialEqSpecImpl for Context {
    open spec fn obeys_eq_spec() -> bool {
        true
    }

    open spec fn eq_spec(&self, other: &Self) -> bool {
        *self == *other
    }
}

/// A range from `start` up to but not including `end`.
#[derive(Clone, Copy, Debug, PartialEq, Eq, Structural)]
pub struct IndexRange {
    pub start: u64,
    pub end: u64,
}

impl IndexRange {
    /// The range holds at least one index.
    pub open spec fn non_empty(self) -> bool {
        self.start < self.end
    }
}

/// A block header.
#[derive(Clone, Copy, Debug, Eq)]
pub struct Header {
    pub context: Context,
    pub parent: Digest,
    pub height: u64,
    pub timestamp: u64,
    pub state_root: Digest,
    pub state_range: IndexRange,
    pub transactions_root: Digest,
    pub transactions_range: IndexRange,
}

impl PartialEq for Header {
    fn eq(&self, other: &Self) -> (same: bool) {
        self.context == other.context && self.parent == other.parent && self.height == other.height
            && self.timestamp == other.timestamp && self.state_root == other.state_root
            && self.state_range == other.state_range && self.transactions_root
            == other.transactions_root && self.transactions_range == other.transactions_range
    }
}

impl vstd::std_specs::cmp::PartialEqSpecImpl for Header {
    open spec fn obeys_eq_spec() -> bool {
        true
    }

    open spec fn eq_spec(&self, other: &Self) -> bool {
        *self == *other
    }
}

/// What the chain rules read of a signed transaction: the digest of its message.
#[derive(Clone, Copy, Debug)]
pub struct Tx {
    pub message_digest: Digest,
}

/// Mutable chain state shared between block production and replay.
#[derive(Debug)]
pub struct ChainState {
    /// Full account state.
    pub accounts: Accounts,
    /// Height of the last applied block; zero before any block.
    pub height: u64,
    /// Digest of the last applied block; the genesis digest before any block.
    pub parent: Digest,
    /// Number of transactions in all applied blocks.
    pub total_txs: u64,
}

/// What a [`ChainState`] holds.
#[verifier::ext_equal]
pub struct ChainView {
    pub accounts: crate::accounts::AccountMap,
    pub height: u64,
    pub parent: Digest,
    pub total_txs: u64,
}

impl View for ChainState {
    type V = ChainView;

    open spec fn view(&self) -> ChainView {
        ChainView {
            accounts: self.accounts@,
            height: self.height,
            parent: self.parent,
            total_txs: self.total_txs,
        }
    }
}

/// The bytes that the state root hashes for the listed accounts: each key,
/// followed by its account's encoding.
pub open spec fn listed_bytes(keys: Seq<Seq<u8>>, accounts: crate::accounts::AccountMap) -> Seq<u8>
    decreases keys.len(),
{
    if keys.len() == 0 {
        Seq::empty()
    } else {
        listed_bytes(keys.drop_last(), accounts) + keys.last() + accounts[keys.last()].encoded
    }
}

/// The state root: the hash of all accounts in ascending key order.
pub open spec fn state_root_of(accounts: crate::accounts::AccountMap) -> Digest {
    crate::hash::digest_of(listed_bytes(crate::accounts::sorted_keys(accounts), accounts))
}

/// The message digests of the transactions, one after the other.
pub open spec fn message_bytes(transactions: Seq<Tx>) -> Seq<u8>
    decreases transactions.len(),
{
    if transactions.len() == 0 {
        Seq::empty()
    } else {
        message_bytes(transactions.drop_last()) + transactions.last().message_digest.0@
    }
}

/// The text that the digest of the genesis block hashes.
pub open spec fn genesis_text() -> Seq<char> {
    "constantinople-coro-genesis"@
}

/// The chain before any block, with the allocated accounts.
pub open spec fn genesis_chain(alloc: Seq<(Seq<u8>, crate::accounts::AccountView)>) -> ChainView {
    ChainView {
        accounts: crate::accounts::apply_changes(crate::accounts::AccountMap::empty(), alloc),
        height: 0,
        parent: crate::hash::digest_of(vstd::utf8::encode_utf8(genesis_text())),
        total_txs: 0,
    }
}

/// The header of the block that extends `chain` with `transactions`, where
/// `chain` has the accounts after the block and the head before it.
pub open spec fn extending_header(
    chain: ChainView,
    leader: PublicKey,
    transactions: Seq<Tx>,
    state_root: Digest,
) -> Header {
    let height = (chain.height + 1) as u64;
    let total_after = chain.total_txs + transactions.len();
    Header {
        context: Context {
            round: Round { epoch: 0, view: height },
            leader,
            parent: (chain.height, chain.parent),
        },
        parent: chain.parent,
        height,
        timestamp: height,
        state_root,
        state_range: IndexRange { start: 0, end: chain.accounts.len() as u64 },
        transactions_root: crate::hash::digest_of(message_bytes(transactions)),
        transactions_range: IndexRange {
            start: 0,
            end: if total_after == 0 {
                1
            } else {
                total_after as u64
            },
        },
    }
}

impl ChainView {
    /// The chain with the accounts changed and the head as it was.
    pub open spec fn with_changes(
        self,
        changes: Seq<(Seq<u8>, crate::accounts::AccountView)>,
    ) -> ChainView {
        ChainView { accounts: crate::accounts::apply_changes(self.accounts, changes), ..self }
    }

    /// The chain with the head one block further and the accounts as they were.
    pub open spec fn advanced(self, digest: Digest, tx_count: int) -> ChainView {
        ChainView {
            accounts: self.accounts,
            height: (self.height + 1) as u64,
            parent: digest,
            total_txs: (self.total_txs + tx_count) as u64,
        }
    }

    /// A block with `tx_count` transactions can be counted: neither the height nor
    /// the number of transactions leaves the range of its type.
    pub open spec fn has_room(self, tx_count: int) -> bool {
        self.height < u64::MAX && self.total_txs + tx_count <= u64::MAX
    }
}

impl ChainState {
    /// The account state is sound.
    pub open spec fn wf(&self) -> bool {
        self.accounts.wf()
    }

    /// Creates genesis state from an account allocation. Where a key is allocated
    /// twice, the later allocation counts.
    pub fn genesis(alloc: Vec<(AccountKey, Account)>) -> (chain: ChainState)
        ensures
            chain.wf(),
            chain@ == genesis_chain(crate::accounts::changes_view(alloc@)),
    {
        let mut accounts = Accounts::new();
        accounts.apply(alloc);
        ChainState {
            accounts,
            height: 0,
            parent: sha256("constantinople-coro-genesis".as_bytes()),
            total_txs: 0,
        }
    }

    /// Deterministic root over the full account state.
    pub fn state_root(&self) -> (root: Digest)
        requires
            self.wf(),
        ensures
            root == state_root_of(self@.accounts),
    {
        let mut buffer: Vec<u8> = Vec::new();
        let ghost keys = crate::accounts::sorted_keys(self.accounts@);
        let count: usize = self.accounts.len();
        proof {
            self.accounts.lemma_keys();
            assert(keys.take(0) =~= Seq::<Seq<u8>>::empty());
        }
        let mut i: usize = 0;
        while i < count
            invariant
                self.wf(),
                count == self.accounts@.len(),
                keys == crate::accounts::sorted_keys(self.accounts@),
                keys.len() == count,
                i <= count,
                buffer@ == listed_bytes(keys.take(i as int), self.accounts@),
            decreases count - i,
        {
            let entry = self.accounts.entry(i);
            push_bytes(&mut buffer, entry.0.bytes.as_slice());
            push_bytes(&mut buffer, entry.1.encoded());
            assert(keys.take(i + 1).drop_last() =~= keys.take(i as int));
            i = i + 1;
        }
        assert(keys.take(count as int) =~= keys);
        sha256(buffer.as_slice())
    }

    /// Builds the header for the next block given its body and post-state root.
    pub fn next_header(&self, leader: PublicKey, transactions: &[Tx], state_root: Digest) -> (header:
        Header)
        requires
            self.wf(),
            self@.has_room(transactions@.len() as int),
            self@.accounts.len() > 0,
        ensures
            header == extending_header(self@, leader, transactions@, state_root),
            header.state_range.non_empty(),
            header.transactions_range.non_empty(),
    {
        let height: u64 = self.height + 1;
        let mut buffer: Vec<u8> = Vec::new();
        assert(transactions@.take(0) =~= Seq::<Tx>::empty());
        let mut i: usize = 0;
        while i < transactions.len()
            invariant
                i <= transactions@.len(),
                buffer@ == message_bytes(transactions@.take(i as int)),
            decreases transactions@.len() - i,
        {
            push_bytes(&mut buffer, transactions[i].message_digest.0.as_slice());
            assert(transactions@.take(i + 1).drop_last() =~= transactions@.take(i as int));
            i = i + 1;
        }
        assert(transactions@.take(transactions@.len() as int) =~= transactions@);
        let transactions_root = sha256(buffer.as_slice());
        let total_after: u64 = self.total_txs + transactions.len() as u64;
        Header {
            context: Context {
                round: Round { epoch: 0, view: height },
                leader,
                parent: (self.height, self.parent),
            },
            parent: self.parent,
            height,
            timestamp: height,
            state_root,
            state_range: IndexRange { start: 0, end: self.accounts.len() as u64 },
            transactions_root,
            transactions_range: IndexRange {
                start: 0,
                end: if total_after == 0 {
                    1
                } else {
                    total_after
                },
            },
        }
    }

    /// Advances the chain head after a block is produced or applied.
    pub fn advance(&mut self, block_digest: Digest, tx_count: u64)
        requires
            old(self)@.has_room(tx_count as int),
        ensures
            final(self)@ == old(self)@.advanced(block_digest, tx_count as int),
            final(self).accounts == old(self).accounts,
    {
        self.height = self.height + 1;
        self.parent = block_digest;
        self.total_txs = self.total_txs + tx_count;
    }
}

/// The header that stands for the chain's head when transactions are proposed on
/// top of it.
pub open spec fn head_header(chain: ChainView, leader: PublicKey) -> Header {
    Header {
        context: Context {
            round: Round { epoch: 0, view: chain.height },
            leader,
            parent: (
                if chain.height == 0 {
                    0
                } else {
                    (chain.height - 1) as u64
                },
                chain.parent,
            ),
        },
        parent: chain.parent,
        height: chain.height,
        timestamp: chain.height,
        state_root: state_root_of(chain.accounts),
        state_range: IndexRange {
            start: 0,
            end: if chain.accounts.len() == 0 {
                1
            } else {
                chain.accounts.len() as u64
            },
        },
        transactions_root: crate::hash::digest_of(
            vstd::utf8::encode_utf8("coro-sequencer-parent"@),
        ),
        transactions_range: IndexRange {
            start: 0,
            end: if chain.total_txs == 0 {
                1
            } else {
                chain.total_txs
            },
        },
    }
}

/// The header of the chain's head, as the mempool sees it when it proposes.
pub fn parent_header(chain: &ChainState, leader: PublicKey) -> (header: Header)
    requires
        chain.wf(),
    ensures
        header == head_header(chain@, leader),
        header.state_range.non_empty(),
        header.transactions_range.non_empty(),
{
    let count: u64 = chain.accounts.len() as u64;
    Header {
        context: Context {
            round: Round { epoch: 0, view: chain.height },
            leader,
            parent: (chain.height.saturating_sub(1), chain.parent),
        },
        parent: chain.parent,
        height: chain.height,
        timestamp: chain.height,
        state_root: chain.state_root(),
        state_range: IndexRange {
            start: 0,
            end: if count == 0 {
                1
            } else {
                count
            },
        },
        transactions_root: sha256("coro-sequencer-parent".as_bytes()),
        transactions_range: IndexRange {
            start: 0,
            end: if chain.total_txs == 0 {
                1
            } else {
                chain.total_txs
            },
        },
    }
}

/// The consensus context of a block on top of `parent`.
pub open spec fn context_on(parent: Header, leader: PublicKey) -> Context {
    Context {
        round: Round { epoch: 0, view: (parent.height + 1) as u64 },
        leader,
        parent: (parent.height, parent.parent),
    }
}

/// The consensus context in which a block on top of `parent` is proposed.
pub fn proposal_context(parent: &Header, leader: PublicKey) -> (context: Context)
    requires
        parent.height < u64::MAX,
    ensures
        context == context_on(*parent, leader),
        context == (Context {
            round: Round { epoch: 0, view: (parent.height + 1) as u64 },
            leader,
            parent: (parent.height, parent.parent),
        }),
{
    Context {
        round: Round { epoch: 0, view: parent.height + 1 },
        leader,
        parent: (parent.height, parent.parent),
    }
}

} // verus!
