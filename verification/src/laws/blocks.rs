//! What producing a block and replaying one come to.
use vstd::prelude::*;

use crate::accounts::{Account, AccountKey, AccountMap, AccountView, Accounts};
use crate::applier::{AppliedBatch, BlockApplier, PreparedTx, ReplicaBlock};
use crate::builder::{BlockBuilder, ExecutedBatch, Proposal, SealedBlock};
use crate::chain::{BlockMeta, ChainView, EngineError, Header, Tx};
use crate::hash::Digest;

verus! {

/// The transactions and the transfers of a body stand in body order: one more entry adds
/// its transaction and its transfer at the end, and every entry counts.
pub proof fn law_bodies_are_taken_in_order<X>(
    body: Seq<Option<PreparedTx<X>>>,
    entry: Option<PreparedTx<X>>,
)
    ensures
        crate::applier::well_formed_body(Seq::<Option<PreparedTx<X>>>::empty()),
        crate::applier::body_transactions(Seq::<Option<PreparedTx<X>>>::empty()) == Seq::<
            Tx,
        >::empty(),
        crate::applier::body_transfers(Seq::<Option<PreparedTx<X>>>::empty()) == Seq::<X>::empty(),
        crate::applier::well_formed_body(body.push(entry)) <==> {
            &&& crate::applier::well_formed_body(body)
            &&& entry is Some
            &&& entry->0.transfer is Some
        },
        entry matches Some(prepared) ==> {
            &&& crate::applier::body_transactions(body.push(entry))
                == crate::applier::body_transactions(body).push(prepared.transaction)
            &&& prepared.transfer matches Some(transfer) ==> crate::applier::body_transfers(
                body.push(entry),
            ) == crate::applier::body_transfers(body).push(transfer)
        },
{
    let longer = body.push(entry);
    assert(longer[body.len() as int] == entry);
    if crate::applier::well_formed_body(longer) {
        assert forall|i: int| 0 <= i < body.len() implies (#[trigger] body[i]) is Some
            && body[i]->0.transfer is Some by {
            assert(longer[i] == body[i]);
        }
    }
}

/// The transfers are those of the body's entries, one each, in the same order.
pub open spec fn transfers_of<X>(body: Seq<Option<PreparedTx<X>>>, transfers: Seq<X>) -> bool {
    &&& transfers.len() == body.len()
    &&& forall|i: int|
        0 <= i < body.len() ==> (#[trigger] body[i]) is Some && body[i]->0.transfer == Some(
            transfers[i],
        )
}

/// The transactions are those of the body's entries, one each, in the same order.
pub open spec fn transactions_of<X>(
    body: Seq<Option<PreparedTx<X>>>,
    transactions: Seq<Tx>,
) -> bool {
    &&& transactions.len() == body.len()
    &&& forall|i: int|
        0 <= i < body.len() ==> (#[trigger] body[i]) is Some && body[i]->0.transaction
            == transactions[i]
}

/// A replica answers a decoded block with the first of these that applies: its height is
/// not the next one, or its sequence not the chain's height; its parent is not the head;
/// a transaction is malformed; the transfers do not apply; the state root is not the hash
/// of the accounts that they lead to; another field of the header is not the one that the
/// replica derives. Otherwise the block is accepted.
pub proof fn law_replay_decides(
    chain: ChainView,
    sequence: u64,
    header: Header,
    well_formed: bool,
    transactions: Seq<Tx>,
    changes: Option<Seq<(Seq<u8>, AccountView)>>,
    digest: Digest,
    keys: Seq<Seq<u8>>,
)
    requires
        chain.height < u64::MAX,
        chain.total_txs + transactions.len() <= u64::MAX,
        changes matches Some(changes) ==> {
            let accounts = crate::accounts::apply_changes(chain.accounts, changes);
            accounts.len() <= u64::MAX && super::state::in_key_order(keys, accounts)
        },
    ensures
        ({
            let (answer, after) = crate::applier::replay(
                chain,
                sequence,
                header,
                well_formed,
                transactions,
                changes,
                digest,
            );
            let accounts = crate::accounts::apply_changes(chain.accounts, changes->0);
            let root = crate::hash::sha256_of(
                super::state::account_parts(keys, accounts).flatten(),
            );
            if header.height != chain.height + 1 || sequence != chain.height {
                answer == Err::<BlockMeta, EngineError>(
                    EngineError::HeightMismatch { chain: chain.height, got: header.height },
                )
            } else if header.parent != chain.parent {
                answer == Err::<BlockMeta, EngineError>(EngineError::ParentMismatch)
            } else if !well_formed {
                answer == Err::<BlockMeta, EngineError>(EngineError::MalformedTransaction)
            } else if changes is None {
                answer == Err::<BlockMeta, EngineError>(EngineError::InvalidTransfer)
            } else if header.state_root.0 != root {
                answer == Err::<BlockMeta, EngineError>(EngineError::StateRootMismatch)
            } else if !super::state::extends(
                header,
                chain,
                header.context.leader,
                transactions,
                accounts,
            ) {
                answer == Err::<BlockMeta, EngineError>(EngineError::ParentMismatch)
            } else {
                &&& answer is Ok
                &&& answer->Ok_0.height == header.height
                &&& answer->Ok_0.state_root == header.state_root
                &&& answer->Ok_0.tx_count == transactions.len()
                &&& after.accounts == accounts
                &&& after.height == chain.height + 1
                &&& after.parent == digest
                &&& after.total_txs == chain.total_txs + transactions.len()
            }
        }),
        crate::applier::replay(
            chain,
            sequence,
            header,
            well_formed,
            transactions,
            changes,
            digest,
        ).0 is Err ==> crate::applier::replay(
            chain,
            sequence,
            header,
            well_formed,
            transactions,
            changes,
            digest,
        ).1 == chain,
{
    if changes is Some {
        let leader = header.context.leader;
        let accounts = crate::accounts::apply_changes(chain.accounts, changes->0);
        super::state::law_state_root_hashes_every_account(keys, accounts);
        super::state::law_header_of_a_block(chain, leader, transactions, changes->0);
        super::state::law_chain_after_a_block(chain, transactions, changes->0, digest);
    }
}

/// The replica has accepted the block: its transfers, in body order, were executed on the
/// accounts before it, the changes that this came to were made, the block became the head
/// under the digest that sealing it gave, and its metadata were handed on.
pub open spec fn accepts<X, R, E, G>(
    before: ChainView,
    accounts_before: Accounts,
    after: ChainView,
    sequence: u64,
    block: ReplicaBlock<X, R>,
    execute: E,
    digest: G,
    meta: BlockMeta,
    transfers: Vec<X>,
    changeset: Vec<(AccountKey, Account)>,
    sealed: Digest,
) -> bool where
    E: FnOnce(&Accounts, Vec<X>) -> Option<Vec<(AccountKey, Account)>>,
    G: FnOnce(R) -> Digest,
 {
    &&& transfers_of(block.body@, transfers@)
    &&& call_ensures(execute, (&accounts_before, transfers), Some(changeset))
    &&& call_ensures(digest, (block.raw,), sealed)
    &&& block.header.height == before.height + 1
    &&& sequence == before.height
    &&& block.header.parent == before.parent
    &&& exists|transactions: Seq<Tx>|
        {
            &&& #[trigger] transactions_of(block.body@, transactions)
            &&& before.total_txs + transactions.len() <= u64::MAX && after.accounts.len()
                <= u64::MAX ==> super::state::extends(
                block.header,
                before,
                block.header.context.leader,
                transactions,
                after.accounts,
            )
        }
    &&& super::state::hashes_accounts(block.header.state_root, after.accounts)
    &&& after.accounts == crate::accounts::apply_changes(
        before.accounts,
        crate::accounts::changes_view(changeset@),
    )
    &&& after.height == before.height + 1
    &&& after.parent == sealed
    &&& before.total_txs + block.body@.len() <= u64::MAX ==> after.total_txs == before.total_txs
        + block.body@.len()
    &&& meta.height == before.height + 1
    &&& meta.state_root == block.header.state_root
    &&& meta.tx_count == block.body@.len()
}

/// A payload is accepted only as the block that it decodes to, and only with the effect
/// that executing the block's transfers in order has.
pub proof fn law_accepted_payloads<X, R, D, E, G>(
    before: BlockApplier,
    after: BlockApplier,
    sequence: u64,
    payload: Vec<u8>,
    decode: D,
    execute: E,
    digest: G,
    applied: AppliedBatch,
) where
    D: FnOnce(Vec<u8>) -> Result<ReplicaBlock<X, R>, String>,
    E: FnOnce(&Accounts, Vec<X>) -> Option<Vec<(AccountKey, Account)>>,
    G: FnOnce(R) -> Digest,

    requires
        before.spec_chain().height < u64::MAX,
        crate::applier::handled(
            before,
            after,
            sequence,
            payload,
            decode,
            execute,
            digest,
            Ok(applied),
        ),
    ensures
        applied.output == applied.metadata,
        exists|
            block: ReplicaBlock<X, R>,
            transfers: Vec<X>,
            changeset: Vec<(AccountKey, Account)>,
            sealed: Digest,
        |
            {
                &&& call_ensures(decode, (payload,), Ok(block))
                &&& #[trigger] accepts(
                    before.spec_chain()@,
                    before.spec_chain().accounts,
                    after.spec_chain()@,
                    sequence,
                    block,
                    execute,
                    digest,
                    applied.metadata,
                    transfers,
                    changeset,
                    sealed,
                )
            },
{
    let chain = before.spec_chain()@;
    let decoded = choose|decoded: Result<ReplicaBlock<X, R>, String>|
        {
            &&& #[trigger] call_ensures(decode, (payload,), decoded)
            &&& match decoded {
                Err(detail) => false,
                Ok(block) => crate::applier::answers(
                    before,
                    after,
                    sequence,
                    block,
                    execute,
                    digest,
                    Ok(applied),
                ),
            }
        };
    let block = decoded->Ok_0;
    let (answer, transfers, changeset, sealed): (
        Result<BlockMeta, EngineError>,
        Vec<X>,
        Option<Vec<(AccountKey, Account)>>,
        Digest,
    ) = choose|
        answer: Result<BlockMeta, EngineError>,
        transfers: Vec<X>,
        changeset: Option<Vec<(AccountKey, Account)>>,
        sealed: Digest,
    |
        {
            &&& #[trigger] crate::applier::answered(
                before,
                after,
                sequence,
                block,
                execute,
                digest,
                answer,
                transfers,
                changeset,
                sealed,
            )
            &&& Ok::<AppliedBatch, EngineError>(applied) == match answer {
                Ok(meta) => Ok::<AppliedBatch, EngineError>(
                    AppliedBatch { metadata: meta, output: meta },
                ),
                Err(error) => Err(error),
            }
        };
    let transactions = crate::applier::body_transactions(block.body@);
    let changes = crate::accounts::changes_view(changeset->0@);
    let accounts = crate::accounts::apply_changes(chain.accounts, changes);
    assert(block.body.len() == block.body@.len());
    super::state::law_state_roots_hash_accounts(accounts);
    if chain.total_txs + transactions.len() <= u64::MAX && accounts.len() <= u64::MAX {
        super::state::law_header_of_a_block(
            chain,
            block.header.context.leader,
            transactions,
            changes,
        );
    }
    assert(transactions_of(block.body@, transactions));
    assert(accepts(
        chain,
        before.spec_chain().accounts,
        after.spec_chain()@,
        sequence,
        block,
        execute,
        digest,
        applied.metadata,
        transfers,
        changeset->0,
        sealed,
    ));
}

/// The error is one that the replica gives for the block: it names what is wrong with it.
pub open spec fn rejects<X, R, E>(
    chain: ChainView,
    accounts: Accounts,
    sequence: u64,
    block: ReplicaBlock<X, R>,
    execute: E,
    error: EngineError,
) -> bool where E: FnOnce(&Accounts, Vec<X>) -> Option<Vec<(AccountKey, Account)>> {
    let header = block.header;
    let linked = header.height == chain.height + 1 && sequence == chain.height && header.parent
        == chain.parent;
    match error {
        EngineError::Decode(_) => false,
        EngineError::HeightMismatch { chain: own, got } => {
            &&& own == chain.height
            &&& got == header.height
            &&& header.height != chain.height + 1 || sequence != chain.height
        },
        EngineError::ParentMismatch => {
            &&& header.height == chain.height + 1
            &&& sequence == chain.height
            &&& header.parent != chain.parent || exists|
                transfers: Vec<X>,
                changeset: Vec<(AccountKey, Account)>,
            |
                {
                    &&& transfers_of(block.body@, transfers@)
                    &&& #[trigger] call_ensures(execute, (&accounts, transfers), Some(changeset))
                    &&& super::state::hashes_accounts(
                        header.state_root,
                        crate::accounts::apply_changes(
                            chain.accounts,
                            crate::accounts::changes_view(changeset@),
                        ),
                    )
                }
        },
        EngineError::MalformedTransaction => {
            &&& linked
            &&& exists|i: int|
                0 <= i < block.body@.len() && ((#[trigger] block.body@[i]) is None
                    || block.body@[i]->0.transfer is None)
        },
        EngineError::InvalidTransfer => {
            &&& linked
            &&& exists|transfers: Vec<X>|
                {
                    &&& transfers_of(block.body@, transfers@)
                    &&& #[trigger] call_ensures(execute, (&accounts, transfers), None)
                }
        },
        EngineError::StateRootMismatch => {
            &&& linked
            &&& exists|transfers: Vec<X>, changeset: Vec<(AccountKey, Account)>|
                {
                    &&& transfers_of(block.body@, transfers@)
                    &&& #[trigger] call_ensures(execute, (&accounts, transfers), Some(changeset))
                    &&& header.state_root != crate::chain::state_root_of(
                        crate::accounts::apply_changes(
                            chain.accounts,
                            crate::accounts::changes_view(changeset@),
                        ),
                    )
                }
        },
    }
}

/// A payload that is refused changes nothing, and is refused for a reason: it does not
/// decode, and the error is the decoder's, or something is wrong with the block that it
/// decodes to, and the error names it.
pub proof fn law_rejected_payloads<X, R, D, E, G>(
    before: BlockApplier,
    after: BlockApplier,
    sequence: u64,
    payload: Vec<u8>,
    decode: D,
    execute: E,
    digest: G,
    error: EngineError,
) where
    D: FnOnce(Vec<u8>) -> Result<ReplicaBlock<X, R>, String>,
    E: FnOnce(&Accounts, Vec<X>) -> Option<Vec<(AccountKey, Account)>>,
    G: FnOnce(R) -> Digest,

    requires
        crate::applier::handled(
            before,
            after,
            sequence,
            payload,
            decode,
            execute,
            digest,
            Err(error),
        ),
    ensures
        after.spec_chain()@ == before.spec_chain()@,
        exists|decoded: Result<ReplicaBlock<X, R>, String>|
            {
                &&& #[trigger] call_ensures(decode, (payload,), decoded)
                &&& match decoded {
                    Err(detail) => error == EngineError::Decode(detail),
                    Ok(block) => rejects(
                        before.spec_chain()@,
                        before.spec_chain().accounts,
                        sequence,
                        block,
                        execute,
                        error,
                    ),
                }
            },
{
    let chain = before.spec_chain()@;
    let decoded = choose|decoded: Result<ReplicaBlock<X, R>, String>|
        {
            &&& #[trigger] call_ensures(decode, (payload,), decoded)
            &&& match decoded {
                Err(detail) => {
                    &&& error == EngineError::Decode(detail)
                    &&& after == before
                },
                Ok(block) => crate::applier::answers(
                    before,
                    after,
                    sequence,
                    block,
                    execute,
                    digest,
                    Err(error),
                ),
            }
        };
    if decoded is Ok {
        let block = decoded->Ok_0;
        let (answer, transfers, changeset, sealed): (
            Result<BlockMeta, EngineError>,
            Vec<X>,
            Option<Vec<(AccountKey, Account)>>,
            Digest,
        ) = choose|
            answer: Result<BlockMeta, EngineError>,
            transfers: Vec<X>,
            changeset: Option<Vec<(AccountKey, Account)>>,
            sealed: Digest,
        |
            {
                &&& #[trigger] crate::applier::answered(
                    before,
                    after,
                    sequence,
                    block,
                    execute,
                    digest,
                    answer,
                    transfers,
                    changeset,
                    sealed,
                )
                &&& Err::<AppliedBatch, EngineError>(error) == match answer {
                    Ok(meta) => Ok::<AppliedBatch, EngineError>(
                        AppliedBatch { metadata: meta, output: meta },
                    ),
                    Err(error) => Err(error),
                }
            };
        if changeset is Some {
            super::state::law_state_roots_hash_accounts(
                crate::accounts::apply_changes(
                    chain.accounts,
                    crate::accounts::changes_view(changeset->0@),
                ),
            );
            assert(changeset == Some(changeset->0));
        }
    }
}

/// The sequencer has produced the block: the changes that its executor proposed were made,
/// and the batch is what the codec gave for the block with these transactions.
pub open spec fn produces<T, B, P, S>(
    before: BlockBuilder,
    after: ChainView,
    txs: Vec<T>,
    propose: P,
    encode: S,
    batch: ExecutedBatch,
    proposal: Proposal<B>,
    header: Header,
    sealed: SealedBlock,
) -> bool where
    P: FnOnce(&Accounts, Vec<T>) -> Proposal<B>,
    S: FnOnce(Header, B) -> SealedBlock,
 {
    let chain = before.spec_chain()@;
    let count = proposal.valid@.len();
    &&& call_ensures(propose, (&before.spec_chain().accounts, txs), proposal)
    &&& call_ensures(encode, (header, proposal.body), sealed)
    &&& chain.total_txs + count <= u64::MAX && after.accounts.len() <= u64::MAX ==> {
        &&& super::state::extends(
            header,
            chain,
            before.spec_leader(),
            proposal.valid@,
            after.accounts,
        )
        &&& after.total_txs == chain.total_txs + count
    }
    &&& super::state::hashes_accounts(header.state_root, after.accounts)
    &&& after.accounts == crate::accounts::apply_changes(
        chain.accounts,
        crate::accounts::changes_view(proposal.changeset@),
    )
    &&& after.height == chain.height + 1
    &&& after.parent == sealed.digest
    &&& batch.payload == sealed.payload
    &&& batch.metadata.height == chain.height + 1
    &&& batch.metadata.state_root == header.state_root
    &&& batch.metadata.tx_count == count
}

/// A batch is the block that its transactions come to.
pub proof fn law_produced_batches<T, B, P, S>(
    before: BlockBuilder,
    after: BlockBuilder,
    txs: Vec<T>,
    propose: P,
    encode: S,
    batch: ExecutedBatch,
) where
    P: FnOnce(&Accounts, Vec<T>) -> Proposal<B>,
    S: FnOnce(Header, B) -> SealedBlock,

    requires
        before.spec_chain().height < u64::MAX,
        crate::builder::produced(before, after, txs, propose, encode, batch),
    ensures
        exists|proposal: Proposal<B>, header: Header, sealed: SealedBlock| #[trigger]
            produces(
                before,
                after.spec_chain()@,
                txs,
                propose,
                encode,
                batch,
                proposal,
                header,
                sealed,
            ),
{
    let chain = before.spec_chain()@;
    let (proposal, sealed): (Proposal<B>, SealedBlock) = choose|
        proposal: Proposal<B>,
        sealed: SealedBlock,
    |
        {
            &&& #[trigger] call_ensures(propose, (&before.spec_chain().accounts, txs), proposal)
            &&& #[trigger] call_ensures(
                encode,
                (
                    crate::builder::block_header(
                        chain,
                        before.spec_leader(),
                        proposal.valid@,
                        crate::accounts::changes_view(proposal.changeset@),
                    ),
                    proposal.body,
                ),
                sealed,
            )
            &&& batch.payload == sealed.payload
            &&& batch.metadata == crate::builder::block_meta(
                chain,
                proposal.valid@,
                crate::accounts::changes_view(proposal.changeset@),
            )
            &&& after.spec_chain()@ == crate::builder::extended_chain(
                chain,
                proposal.valid@.len(),
                crate::accounts::changes_view(proposal.changeset@),
                sealed.digest,
            )
        };
    let changes = crate::accounts::changes_view(proposal.changeset@);
    let header = crate::builder::block_header(
        chain,
        before.spec_leader(),
        proposal.valid@,
        changes,
    );
    let accounts = crate::accounts::apply_changes(chain.accounts, changes);
    assert(proposal.valid.len() == proposal.valid@.len());
    super::state::law_state_roots_hash_accounts(accounts);
    if chain.total_txs + proposal.valid@.len() <= u64::MAX && accounts.len() <= u64::MAX {
        super::state::law_header_of_a_block(chain, before.spec_leader(), proposal.valid@, changes);
        super::state::law_chain_after_a_block(chain, proposal.valid@, changes, sealed.digest);
    }
    assert(produces(
        before,
        after.spec_chain()@,
        txs,
        propose,
        encode,
        batch,
        proposal,
        header,
        sealed,
    ));
}

/// A block can be built where its counters have room and some account exists after it; a
/// replica may be handed a block whose changes lead to another state root, whatever they
/// are.
pub proof fn law_what_can_be_adopted(
    chain: ChainView,
    header: Header,
    tx_count: nat,
    changes: Seq<(Seq<u8>, AccountView)>,
)
    ensures
        crate::applier::adoptable(chain, header, tx_count, None),
        ({
            let accounts: AccountMap = crate::accounts::apply_changes(chain.accounts, changes);
            crate::applier::adoptable(chain, header, tx_count, Some(changes)) <==> {
                ||| crate::chain::state_root_of(accounts) != header.state_root
                ||| {
                    &&& chain.height < u64::MAX
                    &&& chain.total_txs + tx_count <= u64::MAX
                    &&& accounts.len() > 0
                }
            }
        }),
        crate::applier::at_next_height(chain, chain.height, header) <==> header.height
            == chain.height + 1,
        forall|sequence: u64| #[trigger]
            crate::applier::at_next_height(chain, sequence, header) ==> sequence == chain.height,
{
}

/// Where the executor gives changes they are taken over, and where it gives none there are
/// none.
pub proof fn law_executed_changes(changeset: Option<Vec<(AccountKey, Account)>>)
    ensures
        crate::applier::changes_option(changeset) is Some <==> changeset is Some,
        changeset matches Some(changes) ==> {
            let taken = crate::applier::changes_option(changeset)->0;
            &&& taken.len() == changes@.len()
            &&& forall|i: int|
                0 <= i < taken.len() ==> {
                    &&& (#[trigger] taken[i]).0 == changes@[i].0.bytes@
                    &&& taken[i].1 == changes@[i].1@
                }
        },
{
}

/// Every error says what went wrong, and where numbers are involved, which.
pub proof fn law_errors_are_told(detail: String, chain: u64, got: u64)
    ensures
        crate::chain::error_text(EngineError::Decode(detail)) == "block decode failed: "@
            + detail@,
        crate::chain::error_text(EngineError::HeightMismatch { chain, got }) == "block height "@
            + crate::text::decimal(got as nat) + " does not extend chain height "@
            + crate::text::decimal(chain as nat),
        crate::chain::error_text(EngineError::ParentMismatch)
            == "block parent does not match chain head"@,
        crate::chain::error_text(EngineError::MalformedTransaction)
            == "block contains a malformed transaction"@,
        crate::chain::error_text(EngineError::InvalidTransfer)
            == "block contains an inapplicable transfer"@,
        crate::chain::error_text(EngineError::StateRootMismatch)
            == "re-executed state root does not match block header"@,
{
}

} // verus!
