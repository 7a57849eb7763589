//! Sequencer-side block production.
use vstd::prelude::*;

use crate::accounts::{Account, AccountKey, Accounts};
use crate::chain::{BlockMeta, ChainState, EngineError, Header, PublicKey, Tx};
use crate::hash::Digest;

verus! {

/// What executing a batch of transactions for a new block came to: the
/// transactions that apply, in block order, the accounts that they change, and
/// the block body, which only the executor and the codec look into.
pub struct Proposal<B> {
    pub valid: Vec<Tx>,
    pub changeset: Vec<(AccountKey, Account)>,
    pub body: B,
}

/// An encoded block and its digest.
pub struct SealedBlock {
    pub payload: Vec<u8>,
    pub digest: Digest,
}

/// A produced block: the payload to publish, and its metadata.
pub struct ExecutedBatch {
    pub payload: Vec<u8>,
    pub metadata: BlockMeta,
}

/// The chain can be extended by a block with these transactions and account
/// changes: its counters do not overflow, and some account exists after it.
pub open spec fn extendable(
    chain: crate::chain::ChainView,
    tx_count: nat,
    changes: Seq<(Seq<u8>, crate::accounts::AccountView)>,
) -> bool {
    chain.has_room(tx_count as int) && chain.with_changes(changes).accounts.len() > 0
}

/// The header of the block that extends `chain` with the transactions and the
/// account changes.
pub open spec fn block_header(
    chain: crate::chain::ChainView,
    leader: PublicKey,
    transactions: Seq<Tx>,
    changes: Seq<(Seq<u8>, crate::accounts::AccountView)>,
) -> Header {
    let after = chain.with_changes(changes);
    crate::chain::extending_header(
        after,
        leader,
        transactions,
        crate::chain::state_root_of(after.accounts),
    )
}

/// The metadata of the block that extends `chain`.
pub open spec fn block_meta(
    chain: crate::chain::ChainView,
    transactions: Seq<Tx>,
    changes: Seq<(Seq<u8>, crate::accounts::AccountView)>,
) -> BlockMeta {
    BlockMeta {
        height: (chain.height + 1) as u64,
        state_root: crate::chain::state_root_of(chain.with_changes(changes).accounts),
        tx_count: transactions.len() as u64,
    }
}

/// The chain after the block with that digest.
pub open spec fn extended_chain(
    chain: crate::chain::ChainView,
    tx_count: nat,
    changes: Seq<(Seq<u8>, crate::accounts::AccountView)>,
    digest: Digest,
) -> crate::chain::ChainView {
    chain.with_changes(changes).advanced(digest, tx_count as int)
}

/// Builds and executes blocks: each batch becomes one block.
///
/// Transactions that do not apply are left out of the block. Signatures are
/// verified before transactions come here.
#[derive(Debug)]
pub struct BlockBuilder {
    chain: ChainState,
    leader: PublicKey,
}

/// The batch is the block that the transactions come to: with the transactions and
/// the changes that `propose` gives for them, the header that follows from these, and
/// the payload and digest that `encode` gives for that header.
pub open spec fn produced<T, B, P, S>(
    before: BlockBuilder,
    after: BlockBuilder,
    txs: Vec<T>,
    propose: P,
    encode: S,
    batch: ExecutedBatch,
) -> bool where
    P: FnOnce(&Accounts, Vec<T>) -> Proposal<B>,
    S: FnOnce(Header, B) -> SealedBlock,
 {
    exists|proposal: Proposal<B>, sealed: SealedBlock|
        {
            &&& #[trigger] call_ensures(propose, (&before.spec_chain().accounts, txs), proposal)
            &&& #[trigger] call_ensures(
                encode,
                (
                    block_header(
                        before.spec_chain()@,
                        before.spec_leader(),
                        proposal.valid@,
                        crate::accounts::changes_view(proposal.changeset@),
                    ),
                    proposal.body,
                ),
                sealed,
            )
            &&& batch.payload == sealed.payload
            &&& batch.metadata == block_meta(
                before.spec_chain()@,
                proposal.valid@,
                crate::accounts::changes_view(proposal.changeset@),
            )
            &&& after.spec_chain()@ == extended_chain(
                before.spec_chain()@,
                proposal.valid@.len(),
                crate::accounts::changes_view(proposal.changeset@),
                sealed.digest,
            )
        }
}

impl BlockBuilder {
    /// The chain that the next block extends.
    pub closed spec fn spec_chain(&self) -> ChainState {
        self.chain
    }

    /// The key that every header names as the leader.
    pub closed spec fn spec_leader(&self) -> PublicKey {
        self.leader
    }

    /// The chain's state is sound.
    pub open spec fn wf(&self) -> bool {
        self.spec_chain().wf()
    }

    /// Creates a builder starting from genesis state.
    pub fn new(genesis: ChainState, leader: PublicKey) -> (builder: BlockBuilder)
        ensures
            builder.spec_chain() == genesis,
            builder.spec_leader() == leader,
    {
        BlockBuilder { chain: genesis, leader }
    }

    /// The chain state, for inspection of the head and of balances.
    pub fn chain(&self) -> (chain: &ChainState)
        ensures
            *chain == self.spec_chain(),
    {
        &self.chain
    }

    /// The key that every header names as the leader.
    pub fn leader(&self) -> (leader: PublicKey)
        ensures
            leader == self.spec_leader(),
    {
        self.leader
    }

    /// The height of the next block, where the batch's sequence is the one that the
    /// chain expects.
    pub fn expect_sequence(&self, sequence: u64) -> (height: Result<u64, EngineError>)
        requires
            self.spec_chain().height < u64::MAX,
            sequence < u64::MAX,
        ensures
            height == (if sequence == self.spec_chain().height {
                Ok::<u64, EngineError>((sequence + 1) as u64)
            } else {
                Err(
                    EngineError::HeightMismatch {
                        chain: self.spec_chain().height,
                        got: (sequence + 1) as u64,
                    },
                )
            }),
    {
        let expected_height: u64 = self.chain.height + 1;
        if sequence + 1 != expected_height {
            return Err(
                EngineError::HeightMismatch { chain: self.chain.height, got: sequence + 1 },
            );
        }
        Ok(expected_height)
    }

    /// Makes the account changes of the next block, and gives its header and
    /// metadata. The head stays where it is until the block is sealed.
    pub fn assemble(&mut self, valid: &[Tx], changeset: Vec<(AccountKey, Account)>) -> (block: (
        Header,
        BlockMeta,
    ))
        requires
            old(self).wf(),
            extendable(
                old(self).spec_chain()@,
                valid@.len(),
                crate::accounts::changes_view(changeset@),
            ),
        ensures
            final(self).wf(),
            final(self).spec_leader() == old(self).spec_leader(),
            final(self).spec_chain()@ == old(self).spec_chain()@.with_changes(
                crate::accounts::changes_view(changeset@),
            ),
            block.0 == block_header(
                old(self).spec_chain()@,
                old(self).spec_leader(),
                valid@,
                crate::accounts::changes_view(changeset@),
            ),
            block.1 == block_meta(
                old(self).spec_chain()@,
                valid@,
                crate::accounts::changes_view(changeset@),
            ),
    {
        self.chain.accounts.apply(changeset);
        let state_root = self.chain.state_root();
        let header = self.chain.next_header(self.leader, valid, state_root);
        let meta = BlockMeta {
            height: self.chain.height + 1,
            state_root,
            tx_count: valid.len() as u64,
        };
        (header, meta)
    }

    /// Moves the head to the block that was assembled, once its digest is known.
    pub fn seal(&mut self, digest: Digest, tx_count: u64)
        requires
            old(self).wf(),
            old(self).spec_chain()@.has_room(tx_count as int),
        ensures
            final(self).wf(),
            final(self).spec_leader() == old(self).spec_leader(),
            final(self).spec_chain()@ == old(self).spec_chain()@.advanced(digest, tx_count as int),
    {
        self.chain.advance(digest, tx_count);
    }

    /// Executes a batch as the chain's next block.
    ///
    /// `propose` runs the transactions against the accounts before the block, and
    /// `encode` encodes and seals the block that has the given header. A batch with
    /// an unexpected sequence changes nothing and runs neither.
    pub fn execute_batch<T, B, P, S>(
        &mut self,
        sequence: u64,
        txs: Vec<T>,
        propose: P,
        encode: S,
    ) -> (batch: Result<ExecutedBatch, EngineError>) where
        P: FnOnce(&Accounts, Vec<T>) -> Proposal<B>,
        S: FnOnce(Header, B) -> SealedBlock,

        requires
            old(self).wf(),
            old(self).spec_chain().height < u64::MAX,
            sequence < u64::MAX,
            call_requires(propose, (&old(self).spec_chain().accounts, txs)),
            forall|proposal: Proposal<B>|
                #![trigger call_ensures(
                    propose,
                    (&old(self).spec_chain().accounts, txs),
                    proposal,
                )]
                call_ensures(propose, (&old(self).spec_chain().accounts, txs), proposal)
                    ==> extendable(
                    old(self).spec_chain()@,
                    proposal.valid@.len(),
                    crate::accounts::changes_view(proposal.changeset@),
                ),
            forall|header: Header, body: B| call_requires(encode, (header, body)),
        ensures
            final(self).wf(),
            final(self).spec_leader() == old(self).spec_leader(),
            sequence != old(self).spec_chain().height ==> {
                &&& batch == Err::<ExecutedBatch, EngineError>(
                    EngineError::HeightMismatch {
                        chain: old(self).spec_chain().height,
                        got: (sequence + 1) as u64,
                    },
                )
                &&& *final(self) == *old(self)
            },
            sequence == old(self).spec_chain().height ==> batch is Ok && produced(
                *old(self),
                *final(self),
                txs,
                propose,
                encode,
                batch->Ok_0,
            ),
    {
        match self.expect_sequence(sequence) {
            Ok(_) => {},
            Err(error) => {
                return Err(error);
            },
        }
        let proposal = propose(&self.chain.accounts, txs);
        let ghost proposed = proposal;
        let Proposal { valid, changeset, body } = proposal;
        let block = self.assemble(valid.as_slice(), changeset);
        let sealed = encode(block.0, body);
        let ghost sealed_block = sealed;
        self.seal(sealed.digest, block.1.tx_count);
        proof {
            assert(call_ensures(propose, (&old(self).spec_chain().accounts, txs), proposed));
            assert(call_ensures(encode, (block.0, proposed.body), sealed_block));
        }
        Ok(ExecutedBatch { payload: sealed.payload, metadata: block.1 })
    }
}

} // verus!
