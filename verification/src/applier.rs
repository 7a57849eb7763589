//! Replica-side block replay.
use vstd::prelude::*;

use crate::accounts::{Account, AccountKey, Accounts};
use crate::chain::{decode_error, BlockMeta, ChainState, EngineError, Header, Tx};
use crate::hash::Digest;

verus! {

/// A decoded transaction, with the transfer that the executor prepared of it, or
/// none where it could not.
pub struct PreparedTx<X> {
    pub transaction: Tx,
    pub transfer: Option<X>,
}

/// A decoded block. A body entry is empty where its transaction does not decode.
/// `raw` is the block as the codec and the sealing know it.
pub struct ReplicaBlock<X, B> {
    pub header: Header,
    pub body: Vec<Option<PreparedTx<X>>>,
    pub raw: B,
}

/// What replaying a batch gives.
#[derive(Clone, Copy, Debug)]
pub struct AppliedBatch {
    pub metadata: BlockMeta,
    pub output: BlockMeta,
}

/// Every transaction of the body decodes and has a transfer.
pub open spec fn well_formed_body<X>(body: Seq<Option<PreparedTx<X>>>) -> bool {
    forall|i: int| 0 <= i < body.len() ==> (#[trigger] body[i]) is Some && body[i]->0.transfer is Some
}

/// The transactions of a well-formed body.
pub open spec fn body_transactions<X>(body: Seq<Option<PreparedTx<X>>>) -> Seq<Tx> {
    Seq::new(body.len(), |i: int| body[i]->0.transaction)
}

/// The transfers of a well-formed body.
pub open spec fn body_transfers<X>(body: Seq<Option<PreparedTx<X>>>) -> Seq<X> {
    Seq::new(body.len(), |i: int| body[i]->0.transfer->0)
}

/// The block extends the chain as the batch with that sequence: its height is the
/// next one, and so is the height that the sequence stands for.
pub open spec fn at_next_height(
    chain: crate::chain::ChainView,
    sequence: u64,
    header: Header,
) -> bool {
    header.height == chain.height + 1 && sequence == chain.height
}

/// How a replica with chain state `chain` answers a decoded block, and the state
/// that it has afterwards.
///
/// `changes` is what executing the body's transfers against the accounts of
/// `chain` came to, and `digest` is the block's digest. A block that is rejected
/// changes nothing.
pub open spec fn replay(
    chain: crate::chain::ChainView,
    sequence: u64,
    header: Header,
    well_formed: bool,
    transactions: Seq<Tx>,
    changes: Option<Seq<(Seq<u8>, crate::accounts::AccountView)>>,
    digest: Digest,
) -> (Result<BlockMeta, EngineError>, crate::chain::ChainView) {
    if !at_next_height(chain, sequence, header) {
        (Err(EngineError::HeightMismatch { chain: chain.height, got: header.height }), chain)
    } else if header.parent != chain.parent {
        (Err(EngineError::ParentMismatch), chain)
    } else if !well_formed {
        (Err(EngineError::MalformedTransaction), chain)
    } else {
        match changes {
            None => (Err(EngineError::InvalidTransfer), chain),
            Some(changes) => {
                let after = chain.with_changes(changes);
                if crate::chain::state_root_of(after.accounts) != header.state_root {
                    (Err(EngineError::StateRootMismatch), chain)
                } else if crate::builder::block_header(
                    chain,
                    header.context.leader,
                    transactions,
                    changes,
                ) != header {
                    (Err(EngineError::ParentMismatch), chain)
                } else {
                    (
                        Ok(crate::builder::block_meta(chain, transactions, changes)),
                        crate::builder::extended_chain(
                            chain,
                            transactions.len(),
                            changes,
                            digest,
                        ),
                    )
                }
            },
        }
    }
}

/// The account changes, as mathematical values.
pub open spec fn changes_option(changeset: Option<Vec<(AccountKey, Account)>>) -> Option<
    Seq<(Seq<u8>, crate::accounts::AccountView)>,
> {
    match changeset {
        Some(changeset) => Some(crate::accounts::changes_view(changeset@)),
        None => None,
    }
}

/// Where the changes lead to the state root of the header, the chain can be
/// extended by a block with them.
pub open spec fn adoptable(
    chain: crate::chain::ChainView,
    header: Header,
    tx_count: nat,
    changes: Option<Seq<(Seq<u8>, crate::accounts::AccountView)>>,
) -> bool {
    changes matches Some(changes) ==> crate::chain::state_root_of(
        chain.with_changes(changes).accounts,
    ) == header.state_root ==> crate::builder::extendable(chain, tx_count, changes)
}

/// The answer to a decoded block, where executing its transfers came to
/// `changeset` and sealing it to `block_digest`, as far as these were asked for.
pub open spec fn answered<X, B, E, S>(
    before: BlockApplier,
    after: BlockApplier,
    sequence: u64,
    block: ReplicaBlock<X, B>,
    execute: E,
    digest: S,
    applied: Result<BlockMeta, EngineError>,
    transfers: Vec<X>,
    changeset: Option<Vec<(AccountKey, Account)>>,
    block_digest: Digest,
) -> bool where
    E: FnOnce(&Accounts, Vec<X>) -> Option<Vec<(AccountKey, Account)>>,
    S: FnOnce(B) -> Digest,
 {
    let chain = before.spec_chain()@;
    let linked = at_next_height(chain, sequence, block.header) && block.header.parent
        == chain.parent;
    &&& linked && well_formed_body(block.body@) ==> {
        &&& transfers@ == body_transfers(block.body@)
        &&& call_ensures(execute, (&before.spec_chain().accounts, transfers), changeset)
    }
    &&& applied is Ok ==> call_ensures(digest, (block.raw,), block_digest)
    &&& (applied, after.spec_chain()@) == replay(
        chain,
        sequence,
        block.header,
        well_formed_body(block.body@),
        body_transactions(block.body@),
        changes_option(changeset),
        block_digest,
    )
}

/// A decoded block is answered as [`replay`] says, for what executing its
/// transfers and sealing it came to.
pub open spec fn answers<X, B, E, S>(
    before: BlockApplier,
    after: BlockApplier,
    sequence: u64,
    block: ReplicaBlock<X, B>,
    execute: E,
    digest: S,
    applied: Result<AppliedBatch, EngineError>,
) -> bool where
    E: FnOnce(&Accounts, Vec<X>) -> Option<Vec<(AccountKey, Account)>>,
    S: FnOnce(B) -> Digest,
 {
    exists|
        answer: Result<BlockMeta, EngineError>,
        transfers: Vec<X>,
        changeset: Option<Vec<(AccountKey, Account)>>,
        block_digest: Digest,
    |
        {
            &&& #[trigger] answered(
                before,
                after,
                sequence,
                block,
                execute,
                digest,
                answer,
                transfers,
                changeset,
                block_digest,
            )
            &&& applied == match answer {
                Ok(meta) => Ok::<AppliedBatch, EngineError>(
                    AppliedBatch { metadata: meta, output: meta },
                ),
                Err(error) => Err(error),
            }
        }
}

/// A payload is answered: with a decode error, and without a change, where `decode`
/// fails, and otherwise as the block that it gives.
pub open spec fn handled<X, B, D, E, S>(
    before: BlockApplier,
    after: BlockApplier,
    sequence: u64,
    payload: Vec<u8>,
    decode: D,
    execute: E,
    digest: S,
    applied: Result<AppliedBatch, EngineError>,
) -> bool where
    D: FnOnce(Vec<u8>) -> Result<ReplicaBlock<X, B>, String>,
    E: FnOnce(&Accounts, Vec<X>) -> Option<Vec<(AccountKey, Account)>>,
    S: FnOnce(B) -> Digest,
 {
    exists|decoded: Result<ReplicaBlock<X, B>, String>|
        {
            &&& #[trigger] call_ensures(decode, (payload,), decoded)
            &&& match decoded {
                Err(detail) => {
                    &&& applied == Err::<AppliedBatch, EngineError>(EngineError::Decode(detail))
                    &&& after == before
                },
                Ok(block) => answers(before, after, sequence, block, execute, digest, applied),
            }
        }
}

/// Takes the transactions and the transfers out of a block body.
pub fn collect_transfers<X>(body: Vec<Option<PreparedTx<X>>>) -> (collected: Result<
    (Vec<Tx>, Vec<X>),
    EngineError,
>)
    ensures
        well_formed_body(body@) ==> {
            &&& collected is Ok
            &&& collected->Ok_0.0@ == body_transactions(body@)
            &&& collected->Ok_0.1@ == body_transfers(body@)
        },
        !well_formed_body(body@) ==> collected == Err::<(Vec<Tx>, Vec<X>), EngineError>(
            EngineError::MalformedTransaction,
        ),
        collected is Ok <==> forall|i: int|
            0 <= i < body@.len() ==> (#[trigger] body@[i]) is Some && body@[i]->0.transfer is Some,
        collected matches Ok((transactions, transfers)) ==> {
            &&& transactions@.len() == body@.len()
            &&& transfers@.len() == body@.len()
            &&& forall|i: int|
                0 <= i < body@.len() ==> (#[trigger] body@[i]) == Some(
                    PreparedTx { transaction: transactions@[i], transfer: Some(transfers@[i]) },
                )
        },
{
    let mut transactions: Vec<Tx> = Vec::with_capacity(body.len());
    let mut transfers: Vec<X> = Vec::with_capacity(body.len());
    for lazy in it: body
        invariant
            it.seq() == body@,
            transactions@ == body_transactions(body@).take(it.index() as int),
            transfers@ == body_transfers(body@).take(it.index() as int),
            forall|i: int|
                0 <= i < it.index() ==> (#[trigger] body@[i]) is Some && body@[i]->0.transfer is Some,
    {
        let ghost index = it.index() as int;
        assert(lazy == body@[index]);
        match lazy {
            Some(prepared) => {
                match prepared.transfer {
                    Some(transfer) => {
                        transactions.push(prepared.transaction);
                        transfers.push(transfer);
                    },
                    None => {
                        return Err(EngineError::MalformedTransaction);
                    },
                }
            },
            None => {
                return Err(EngineError::MalformedTransaction);
            },
        }
    }
    Ok((transactions, transfers))
}

/// Replays canonical blocks.
///
/// Payload hashes are verified before a payload comes here. The applier rejects a
/// block whose height or parent does not extend its chain, whose transfers do not
/// apply to its own accounts, or whose header is not the one that it derives
/// itself, so a replica never diverges silently from what was published.
#[derive(Debug)]
pub struct BlockApplier {
    chain: ChainState,
}

impl BlockApplier {
    /// The chain that the next block must extend.
    pub closed spec fn spec_chain(&self) -> ChainState {
        self.chain
    }

    /// The chain's state is sound.
    pub open spec fn wf(&self) -> bool {
        self.spec_chain().wf()
    }

    /// Creates an applier starting from genesis state, which must be the
    /// sequencer's. Otherwise the first block fails: with a state-root mismatch, or as
    /// an inapplicable transfer where one of its transfers does not apply.
    pub fn new(genesis: ChainState) -> (applier: BlockApplier)
        ensures
            applier.spec_chain() == genesis,
    {
        BlockApplier { chain: genesis }
    }

    /// The chain state, for inspection of the head and of balances.
    pub fn chain(&self) -> (chain: &ChainState)
        ensures
            *chain == self.spec_chain(),
    {
        &self.chain
    }

    /// Checks that a block's height and parent extend the chain.
    pub fn check_linkage(&self, sequence: u64, header: &Header) -> (linked: Result<(), EngineError>)
        requires
            self.spec_chain().height < u64::MAX,
        ensures
            linked == (if !at_next_height(self.spec_chain()@, sequence, *header) {
                Err::<(), EngineError>(
                    EngineError::HeightMismatch {
                        chain: self.spec_chain().height,
                        got: header.height,
                    },
                )
            } else if header.parent != self.spec_chain().parent {
                Err(EngineError::ParentMismatch)
            } else {
                Ok(())
            }),
    {
        if header.height != self.chain.height + 1 || sequence != self.chain.height {
            return Err(
                EngineError::HeightMismatch { chain: self.chain.height, got: header.height },
            );
        }
        if header.parent != self.chain.parent {
            return Err(EngineError::ParentMismatch);
        }
        Ok(())
    }

    /// Makes the account changes that executing the block's transfers came to, where
    /// the header is the one that they lead to. The head stays where it is until the
    /// block is sealed.
    ///
    /// The changes are made on a copy of the chain first, so a block that is rejected
    /// leaves nothing behind.
    pub fn adopt(
        &mut self,
        header: &Header,
        transactions: &[Tx],
        changeset: Option<Vec<(AccountKey, Account)>>,
    ) -> (adopted: Result<BlockMeta, EngineError>)
        requires
            old(self).wf(),
            old(self).spec_chain().height < u64::MAX,
            adoptable(
                old(self).spec_chain()@,
                *header,
                transactions@.len(),
                changes_option(changeset),
            ),
        ensures
            final(self).wf(),
            match changes_option(changeset) {
                None => {
                    &&& adopted == Err::<BlockMeta, EngineError>(EngineError::InvalidTransfer)
                    &&& *final(self) == *old(self)
                },
                Some(changes) => {
                    let before = old(self).spec_chain()@;
                    let after = before.with_changes(changes);
                    &&& final(self).spec_chain()@ == (if adopted is Ok {
                        after
                    } else {
                        before
                    })
                    &&& adopted == (if crate::chain::state_root_of(after.accounts)
                        != header.state_root {
                        Err::<BlockMeta, EngineError>(EngineError::StateRootMismatch)
                    } else if crate::builder::block_header(
                        before,
                        header.context.leader,
                        transactions@,
                        changes,
                    ) != *header {
                        Err(EngineError::ParentMismatch)
                    } else {
                        Ok(crate::builder::block_meta(before, transactions@, changes))
                    })
                },
            },
    {
        let changeset = match changeset {
            Some(changeset) => changeset,
            None => {
                return Err(EngineError::InvalidTransfer);
            },
        };
        let mut accounts = self.chain.accounts.copy();
        accounts.apply(changeset);
        let candidate = ChainState {
            accounts,
            height: self.chain.height,
            parent: self.chain.parent,
            total_txs: self.chain.total_txs,
        };
        let state_root = candidate.state_root();
        if state_root != header.state_root {
            return Err(EngineError::StateRootMismatch);
        }
        let rebuilt_header = candidate.next_header(
            header.context.leader,
            transactions,
            state_root,
        );
        if rebuilt_header != *header {
            return Err(EngineError::ParentMismatch);
        }
        self.chain = candidate;
        Ok(
            BlockMeta {
                height: self.chain.height + 1,
                state_root,
                tx_count: transactions.len() as u64,
            },
        )
    }

    /// Moves the head to the block that was adopted, once its digest is known.
    pub fn seal(&mut self, digest: Digest, tx_count: u64)
        requires
            old(self).wf(),
            old(self).spec_chain()@.has_room(tx_count as int),
        ensures
            final(self).wf(),
            final(self).spec_chain()@ == old(self).spec_chain()@.advanced(digest, tx_count as int),
    {
        self.chain.advance(digest, tx_count);
    }

    /// Replays the payload of a batch as the chain's next block.
    ///
    /// `decode` decodes the payload and prepares its transfers, `execute` runs the
    /// transfers against the accounts before the block, and `digest` seals the
    /// decoded block. Each runs only where what stands before it has passed.
    pub fn apply_batch<X, B, D, E, S>(
        &mut self,
        sequence: u64,
        payload: Vec<u8>,
        decode: D,
        execute: E,
        digest: S,
    ) -> (applied: Result<AppliedBatch, EngineError>) where
        D: FnOnce(Vec<u8>) -> Result<ReplicaBlock<X, B>, String>,
        E: FnOnce(&Accounts, Vec<X>) -> Option<Vec<(AccountKey, Account)>>,
        S: FnOnce(B) -> Digest,

        requires
            old(self).wf(),
            old(self).spec_chain().height < u64::MAX,
            call_requires(decode, (payload,)),
            forall|transfers: Vec<X>|
                call_requires(execute, (&old(self).spec_chain().accounts, transfers)),
            forall|raw: B| call_requires(digest, (raw,)),
            forall|
                block: ReplicaBlock<X, B>,
                transfers: Vec<X>,
                changeset: Option<Vec<(AccountKey, Account)>>,
            |
                #![trigger call_ensures(
                    decode,
                    (payload,),
                    Ok(block),
                ), call_ensures(
                    execute,
                    (&old(self).spec_chain().accounts, transfers),
                    changeset,
                )]
                {
                    &&& call_ensures(decode, (payload,), Ok(block))
                    &&& at_next_height(old(self).spec_chain()@, sequence, block.header)
                    &&& block.header.parent == old(self).spec_chain().parent
                    &&& well_formed_body(block.body@)
                    &&& transfers@ == body_transfers(block.body@)
                    &&& call_ensures(
                        execute,
                        (&old(self).spec_chain().accounts, transfers),
                        changeset,
                    )
                } ==> adoptable(
                    old(self).spec_chain()@,
                    block.header,
                    block.body@.len(),
                    changes_option(changeset),
                ),
        ensures
            final(self).wf(),
            handled(*old(self), *final(self), sequence, payload, decode, execute, digest, applied),
    {
        let decoded = decode(payload);
        let ghost outcome = decoded;
        assert(call_ensures(decode, (payload,), outcome));
        let block = match decoded {
            Ok(block) => block,
            Err(detail) => {
                return Err(decode_error(detail));
            },
        };
        let ghost whole = block;
        assert(call_ensures(decode, (payload,), Ok(whole)));
        let ghost mut prepared: Vec<X> = arbitrary();
        let ghost mut changed: Option<Vec<(AccountKey, Account)>> = None;
        let ghost mut sealed: Digest = arbitrary();
        let answer = match self.check_linkage(sequence, &block.header) {
            Err(error) => Err(error),
            Ok(_) => {
                let ReplicaBlock { header, body, raw } = block;
                match collect_transfers(body) {
                    Err(error) => Err(error),
                    Ok((transactions, transfers)) => {
                        proof {
                            prepared = transfers;
                        }
                        let changeset = execute(&self.chain.accounts, transfers);
                        proof {
                            changed = changeset;
                        }
                        match self.adopt(&header, transactions.as_slice(), changeset) {
                            Err(error) => Err(error),
                            Ok(meta) => {
                                let block_digest = digest(raw);
                                proof {
                                    sealed = block_digest;
                                }
                                self.seal(block_digest, meta.tx_count);
                                Ok(meta)
                            },
                        }
                    },
                }
            },
        };
        assert(answered::<X, B, E, S>(
            *old(self),
            *self,
            sequence,
            whole,
            execute,
            digest,
            answer,
            prepared,
            changed,
            sealed,
        ));
        match answer {
            Ok(meta) => Ok(AppliedBatch { metadata: meta, output: meta }),
            Err(error) => Err(error),
        }
    }
}

} // verus!
