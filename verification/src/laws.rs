//! What holds of the library as a whole.
use vstd::prelude::*;

pub mod blocks;
pub mod publication;
pub mod requests;
pub mod settings;
pub mod state;
pub mod steps;
pub mod texts;

use crate::accounts::{Account, AccountKey, AccountMap, AccountView, Accounts, Nonce};
use crate::applier::{AppliedBatch, BlockApplier, ReplicaBlock};
use crate::backend::{BlobCommitment, BlobRef, DaErrorView, RpcReply};
use crate::builder::{BlockBuilder, ExecutedBatch, Proposal, SealedBlock};
use crate::chain::{BlockMeta, ChainView, EngineError, Header, PublicKey, Tx};
use crate::config::GenesisConfig;
use crate::hash::Digest;
use crate::mempool::{Status, TransactionSizes};
use crate::node::{Action, EventView, PhaseView, Publication};

verus! {

// Blocks

/// A replica accepts the block that a sequencer built on the same chain, and ends
/// with the same metadata and the same chain, wherever executing the block's
/// transfers leads it to the same accounts.
pub proof fn law_built_blocks_replay(
    chain: ChainView,
    leader: PublicKey,
    transactions: Seq<Tx>,
    built: Seq<(Seq<u8>, AccountView)>,
    replayed: Seq<(Seq<u8>, AccountView)>,
    digest: Digest,
)
    requires
        crate::builder::extendable(chain, transactions.len(), built),
        crate::accounts::apply_changes(chain.accounts, built) == crate::accounts::apply_changes(
            chain.accounts,
            replayed,
        ),
    ensures
        crate::applier::replay(
            chain,
            chain.height,
            crate::builder::block_header(chain, leader, transactions, built),
            true,
            transactions,
            Some(replayed),
            digest,
        ) == (
            Ok::<BlockMeta, EngineError>(crate::builder::block_meta(chain, transactions, built)),
            crate::builder::extended_chain(chain, transactions.len(), built, digest),
        ),
{
}

/// Whatever `decode` and `digest` give for the sealed block is the block that was
/// encoded: its header and transactions, each with a transfer, and its digest.
pub open spec fn codec_agrees<X, R, D, G>(
    header: Header,
    transactions: Seq<Tx>,
    sealed: SealedBlock,
    decode: D,
    digest: G,
) -> bool where
    D: FnOnce(Vec<u8>) -> Result<ReplicaBlock<X, R>, String>,
    G: FnOnce(R) -> Digest,
 {
    forall|decoded: Result<ReplicaBlock<X, R>, String>| #[trigger]
        call_ensures(decode, (sealed.payload,), decoded) ==> {
            &&& decoded is Ok
            &&& decoded->Ok_0.header == header
            &&& crate::applier::well_formed_body(decoded->Ok_0.body@)
            &&& crate::applier::body_transactions(decoded->Ok_0.body@) == transactions
            &&& forall|found: Digest| #[trigger]
                call_ensures(digest, (decoded->Ok_0.raw,), found) ==> found == sealed.digest
        }
}

/// Whatever `execute` gives on these accounts for the transfers of the decoded block has
/// the effect that the sequencer's changes have.
pub open spec fn executor_agrees<X, R, D, E>(
    accounts: Accounts,
    built: Seq<(Seq<u8>, AccountView)>,
    sealed: SealedBlock,
    decode: D,
    execute: E,
) -> bool where
    D: FnOnce(Vec<u8>) -> Result<ReplicaBlock<X, R>, String>,
    E: FnOnce(&Accounts, Vec<X>) -> Option<Vec<(AccountKey, Account)>>,
 {
    forall|
        block: ReplicaBlock<X, R>,
        transfers: Vec<X>,
        changeset: Option<Vec<(AccountKey, Account)>>,
    |
        #![trigger call_ensures(decode, (sealed.payload,), Ok(block)), call_ensures(execute, (&accounts, transfers), changeset)]
        {
            &&& call_ensures(decode, (sealed.payload,), Ok(block))
            &&& transfers@ == crate::applier::body_transfers(block.body@)
            &&& call_ensures(execute, (&accounts, transfers), changeset)
        } ==> {
            &&& changeset is Some
            &&& crate::accounts::apply_changes(
                accounts@,
                crate::accounts::changes_view(changeset->0@),
            ) == crate::accounts::apply_changes(accounts@, built)
        }
}

/// The executor and the codec of a replica agree with those of the sequencer on the
/// block that the sequencer builds of the transactions.
pub open spec fn sides_agree<T, B, X, R, P, S, D, E, G>(
    builder: BlockBuilder,
    applier: BlockApplier,
    txs: Vec<T>,
    propose: P,
    encode: S,
    decode: D,
    execute: E,
    digest: G,
) -> bool where
    P: FnOnce(&Accounts, Vec<T>) -> Proposal<B>,
    S: FnOnce(Header, B) -> SealedBlock,
    D: FnOnce(Vec<u8>) -> Result<ReplicaBlock<X, R>, String>,
    E: FnOnce(&Accounts, Vec<X>) -> Option<Vec<(AccountKey, Account)>>,
    G: FnOnce(R) -> Digest,
 {
    forall|proposal: Proposal<B>, sealed: SealedBlock|
        {
            &&& #[trigger] call_ensures(propose, (&builder.spec_chain().accounts, txs), proposal)
            &&& #[trigger] call_ensures(
                encode,
                (
                    crate::builder::block_header(
                        builder.spec_chain()@,
                        builder.spec_leader(),
                        proposal.valid@,
                        crate::accounts::changes_view(proposal.changeset@),
                    ),
                    proposal.body,
                ),
                sealed,
            )
        } ==> {
            &&& crate::builder::extendable(
                builder.spec_chain()@,
                proposal.valid@.len(),
                crate::accounts::changes_view(proposal.changeset@),
            )
            &&& codec_agrees(
                crate::builder::block_header(
                    builder.spec_chain()@,
                    builder.spec_leader(),
                    proposal.valid@,
                    crate::accounts::changes_view(proposal.changeset@),
                ),
                proposal.valid@,
                sealed,
                decode,
                digest,
            )
            &&& executor_agrees(
                applier.spec_chain().accounts,
                crate::accounts::changes_view(proposal.changeset@),
                sealed,
                decode,
                execute,
            )
        }
}

/// Where a builder and an applier have the same chain, the applier accepts the payload of
/// the block that the builder produces next, with the builder's metadata, and ends with
/// the builder's chain, wherever their executors and codecs agree.
pub proof fn law_appliers_accept_built_payloads<T, B, X, R, P, S, D, E, G>(
    builder: BlockBuilder,
    builder_after: BlockBuilder,
    applier: BlockApplier,
    applier_after: BlockApplier,
    txs: Vec<T>,
    propose: P,
    encode: S,
    decode: D,
    execute: E,
    digest: G,
    batch: ExecutedBatch,
    applied: Result<AppliedBatch, EngineError>,
) where
    P: FnOnce(&Accounts, Vec<T>) -> Proposal<B>,
    S: FnOnce(Header, B) -> SealedBlock,
    D: FnOnce(Vec<u8>) -> Result<ReplicaBlock<X, R>, String>,
    E: FnOnce(&Accounts, Vec<X>) -> Option<Vec<(AccountKey, Account)>>,
    G: FnOnce(R) -> Digest,

    requires
        builder.spec_chain()@ == applier.spec_chain()@,
        sides_agree(builder, applier, txs, propose, encode, decode, execute, digest),
        crate::builder::produced(builder, builder_after, txs, propose, encode, batch),
        crate::applier::handled(
            applier,
            applier_after,
            builder.spec_chain().height,
            batch.payload,
            decode,
            execute,
            digest,
            applied,
        ),
    ensures
        applied == Ok::<AppliedBatch, EngineError>(
            AppliedBatch { metadata: batch.metadata, output: batch.metadata },
        ),
        batch.metadata.height == builder.spec_chain().height + 1,
        applier_after.spec_chain()@ == builder_after.spec_chain()@,
{
    let chain = builder.spec_chain()@;
    let (proposal, sealed): (Proposal<B>, SealedBlock) = choose|
        proposal: Proposal<B>,
        sealed: SealedBlock,
    |
        {
            &&& #[trigger] call_ensures(propose, (&builder.spec_chain().accounts, txs), proposal)
            &&& #[trigger] call_ensures(
                encode,
                (
                    crate::builder::block_header(
                        builder.spec_chain()@,
                        builder.spec_leader(),
                        proposal.valid@,
                        crate::accounts::changes_view(proposal.changeset@),
                    ),
                    proposal.body,
                ),
                sealed,
            )
            &&& batch.payload == sealed.payload
            &&& batch.metadata == crate::builder::block_meta(
                builder.spec_chain()@,
                proposal.valid@,
                crate::accounts::changes_view(proposal.changeset@),
            )
            &&& builder_after.spec_chain()@ == crate::builder::extended_chain(
                builder.spec_chain()@,
                proposal.valid@.len(),
                crate::accounts::changes_view(proposal.changeset@),
                sealed.digest,
            )
        };
    let built = crate::accounts::changes_view(proposal.changeset@);
    let header = crate::builder::block_header(chain, builder.spec_leader(), proposal.valid@, built);
    let decoded = choose|decoded: Result<ReplicaBlock<X, R>, String>|
        {
            &&& #[trigger] call_ensures(decode, (batch.payload,), decoded)
            &&& match decoded {
                Err(detail) => {
                    &&& applied == Err::<AppliedBatch, EngineError>(EngineError::Decode(detail))
                    &&& applier_after == applier
                },
                Ok(block) => crate::applier::answers(
                    applier,
                    applier_after,
                    builder.spec_chain().height,
                    block,
                    execute,
                    digest,
                    applied,
                ),
            }
        };
    let block = decoded->Ok_0;
    assert(codec_agrees(header, proposal.valid@, sealed, decode, digest));
    assert(call_ensures(decode, (sealed.payload,), Ok(block)));
    let (answer, transfers, changeset, block_digest): (
        Result<BlockMeta, EngineError>,
        Vec<X>,
        Option<Vec<(AccountKey, Account)>>,
        Digest,
    ) = choose|
        answer: Result<BlockMeta, EngineError>,
        transfers: Vec<X>,
        changeset: Option<Vec<(AccountKey, Account)>>,
        block_digest: Digest,
    |
        {
            &&& #[trigger] crate::applier::answered(
                applier,
                applier_after,
                builder.spec_chain().height,
                block,
                execute,
                digest,
                answer,
                transfers,
                changeset,
                block_digest,
            )
            &&& applied == match answer {
                Ok(meta) => Ok::<AppliedBatch, EngineError>(
                    AppliedBatch { metadata: meta, output: meta },
                ),
                Err(error) => Err(error),
            }
        };
    let replayed = crate::accounts::changes_view(changeset->0@);
    law_built_blocks_replay(
        chain,
        builder.spec_leader(),
        proposal.valid@,
        built,
        replayed,
        block_digest,
    );
}

/// A block of a history: its transactions, the account changes that the sequencer
/// and the replica get from executing them, and its digest.
pub struct HistoryBlock {
    pub transactions: Seq<Tx>,
    pub built: Seq<(Seq<u8>, AccountView)>,
    pub replayed: Seq<(Seq<u8>, AccountView)>,
    pub digest: Digest,
}

/// The chain of a sequencer that has built the blocks.
pub open spec fn built_chain(chain: ChainView, blocks: Seq<HistoryBlock>) -> ChainView
    decreases blocks.len(),
{
    if blocks.len() == 0 {
        chain
    } else {
        let before = built_chain(chain, blocks.drop_last());
        let block = blocks.last();
        crate::builder::extended_chain(
            before,
            block.transactions.len(),
            block.built,
            block.digest,
        )
    }
}

/// The chain of a replica that was handed the blocks, each with the header that the
/// sequencer gave it, and which of them it accepted.
pub open spec fn replayed_chain(
    chain: ChainView,
    leader: PublicKey,
    blocks: Seq<HistoryBlock>,
) -> (Seq<Result<BlockMeta, EngineError>>, ChainView)
    decreases blocks.len(),
{
    if blocks.len() == 0 {
        (Seq::empty(), chain)
    } else {
        let (answers, before) = replayed_chain(chain, leader, blocks.drop_last());
        let block = blocks.last();
        let (answer, after) = crate::applier::replay(
            before,
            (chain.height + blocks.len() - 1) as u64,
            crate::builder::block_header(
                built_chain(chain, blocks.drop_last()),
                leader,
                block.transactions,
                block.built,
            ),
            true,
            block.transactions,
            Some(block.replayed),
            block.digest,
        );
        (answers.push(answer), after)
    }
}

/// Every block can be built on the ones before it, and executing its transfers leads
/// the replica to the accounts that it led the sequencer to.
pub open spec fn sound_history(chain: ChainView, blocks: Seq<HistoryBlock>) -> bool {
    forall|i: int|
        0 <= i < blocks.len() ==> sound_block(
            built_chain(chain, blocks.take(i)),
            #[trigger] blocks[i],
        )
}

/// The block can be built on the chain, and executing its transfers leads the
/// replica to the accounts that it led the sequencer to.
pub open spec fn sound_block(chain: ChainView, block: HistoryBlock) -> bool {
    &&& crate::builder::extendable(chain, block.transactions.len(), block.built)
    &&& crate::accounts::apply_changes(chain.accounts, block.built)
        == crate::accounts::apply_changes(chain.accounts, block.replayed)
}

/// A replica that starts from the sequencer's genesis and is handed its blocks in
/// order accepts every one, and ends with the sequencer's chain: the same accounts,
/// height, head and transaction count. The height counts the blocks, and each
/// block's metadata give its own height.
pub proof fn law_replicas_converge(chain: ChainView, leader: PublicKey, blocks: Seq<HistoryBlock>)
    requires
        sound_history(chain, blocks),
    ensures
        replayed_chain(chain, leader, blocks).1 == built_chain(chain, blocks),
        replayed_chain(chain, leader, blocks).0.len() == blocks.len(),
        forall|i: int|
            0 <= i < blocks.len() ==> {
                &&& (#[trigger] replayed_chain(chain, leader, blocks).0[i]) is Ok
                &&& replayed_chain(chain, leader, blocks).0[i]->Ok_0.height == chain.height + i + 1
                &&& replayed_chain(chain, leader, blocks).0[i]->Ok_0.state_root
                    == crate::chain::state_root_of(
                    built_chain(chain, blocks.take(i + 1)).accounts,
                )
                &&& replayed_chain(chain, leader, blocks).0[i]->Ok_0.tx_count
                    == blocks[i].transactions.len()
            },
        built_chain(chain, blocks).height == chain.height + blocks.len(),
    decreases blocks.len(),
{
    if blocks.len() > 0 {
        let earlier = blocks.drop_last();
        assert(earlier =~= blocks.take(blocks.len() - 1));
        assert forall|i: int| 0 <= i < earlier.len() implies sound_block(
            built_chain(chain, earlier.take(i)),
            #[trigger] earlier[i],
        ) by {
            assert(earlier.take(i) =~= blocks.take(i));
            assert(earlier[i] == blocks[i]);
        }
        law_replicas_converge(chain, leader, earlier);
        let block = blocks.last();
        assert(block == blocks[blocks.len() - 1]);
        assert(sound_block(built_chain(chain, earlier), block));
        law_built_blocks_replay(
            built_chain(chain, earlier),
            leader,
            block.transactions,
            block.built,
            block.replayed,
            block.digest,
        );
        assert(blocks.take(blocks.len() as int) =~= blocks);
        assert forall|i: int| 0 <= i < blocks.len() implies {
            &&& (#[trigger] replayed_chain(chain, leader, blocks).0[i]) is Ok
            &&& replayed_chain(chain, leader, blocks).0[i]->Ok_0.height == chain.height + i + 1
            &&& replayed_chain(chain, leader, blocks).0[i]->Ok_0.state_root
                == crate::chain::state_root_of(built_chain(chain, blocks.take(i + 1)).accounts)
            &&& replayed_chain(chain, leader, blocks).0[i]->Ok_0.tx_count
                == blocks[i].transactions.len()
        } by {
            if i < earlier.len() {
                assert(earlier.take(i + 1) =~= blocks.take(i + 1));
                assert(replayed_chain(chain, leader, blocks).0[i] == replayed_chain(
                    chain,
                    leader,
                    earlier,
                ).0[i]);
                assert(earlier[i] == blocks[i]);
            }
        }
    }
}

/// A block that is rejected changes nothing of a replica: neither its accounts nor its
/// head.
pub proof fn law_rejection_changes_nothing(
    chain: ChainView,
    sequence: u64,
    header: Header,
    well_formed: bool,
    transactions: Seq<Tx>,
    changes: Option<Seq<(Seq<u8>, AccountView)>>,
    digest: Digest,
)
    ensures
        ({
            let (answer, after) = crate::applier::replay(
                chain,
                sequence,
                header,
                well_formed,
                transactions,
                changes,
                digest,
            );
            answer is Err ==> after == chain
        }),
{
}

/// No block is applied twice: once it is accepted, a replica that is handed it again
/// with the same sequence answers with a height mismatch and stays as it is, whatever
/// executing it came to.
pub proof fn law_blocks_apply_once(
    chain: ChainView,
    sequence: u64,
    header: Header,
    well_formed: bool,
    transactions: Seq<Tx>,
    changes: Option<Seq<(Seq<u8>, AccountView)>>,
    digest: Digest,
    again_changes: Option<Seq<(Seq<u8>, AccountView)>>,
    again_digest: Digest,
)
    requires
        chain.height < u64::MAX,
        crate::applier::replay(chain, sequence, header, well_formed, transactions, changes, digest).0
            is Ok,
    ensures
        ({
            let after = crate::applier::replay(
                chain,
                sequence,
                header,
                well_formed,
                transactions,
                changes,
                digest,
            ).1;
            &&& after.height == sequence + 1
            &&& header.height == sequence + 1
            &&& crate::applier::replay(
                after,
                sequence,
                header,
                well_formed,
                transactions,
                again_changes,
                again_digest,
            ) == (
                Err::<BlockMeta, EngineError>(
                    EngineError::HeightMismatch { chain: after.height, got: after.height },
                ),
                after,
            )
        }),
{
}

/// The payload decodes to one block.
pub open spec fn one_block_each<X, R, D>(payload: Vec<u8>, decode: D) -> bool where
    D: FnOnce(Vec<u8>) -> Result<ReplicaBlock<X, R>, String>,
 {
    forall|one: Result<ReplicaBlock<X, R>, String>, other: Result<ReplicaBlock<X, R>, String>|
        #[trigger] call_ensures(decode, (payload,), one) && #[trigger] call_ensures(
            decode,
            (payload,),
            other,
        ) ==> one == other
}

/// No payload is applied twice: a replica that has accepted it, and is handed it again
/// with the same sequence, rejects it and stays as it is. The answer is a height mismatch,
/// unless the payload no longer decodes; it names the replica's own height twice where the
/// payload decodes to the block that it decoded to before.
pub proof fn law_payloads_apply_once<X, R, D, E, G>(
    before: BlockApplier,
    after: BlockApplier,
    again: BlockApplier,
    sequence: u64,
    payload: Vec<u8>,
    decode: D,
    execute: E,
    digest: G,
    first: AppliedBatch,
    second: Result<AppliedBatch, EngineError>,
) where
    D: FnOnce(Vec<u8>) -> Result<ReplicaBlock<X, R>, String>,
    E: FnOnce(&Accounts, Vec<X>) -> Option<Vec<(AccountKey, Account)>>,
    G: FnOnce(R) -> Digest,

    requires
        before.spec_chain().height < u64::MAX,
        crate::applier::handled(
            before,
            after,
            sequence,
            payload,
            decode,
            execute,
            digest,
            Ok(first),
        ),
        crate::applier::handled(
            after,
            again,
            sequence,
            payload,
            decode,
            execute,
            digest,
            second,
        ),
    ensures
        after.spec_chain().height == sequence + 1,
        again.spec_chain()@ == after.spec_chain()@,
        second matches Err(error) && (error is Decode || error is HeightMismatch),
        second->Err_0 matches EngineError::HeightMismatch { chain, .. } ==> chain
            == after.spec_chain().height,
        one_block_each(payload, decode) ==> second == Err::<AppliedBatch, EngineError>(
            EngineError::HeightMismatch {
                chain: after.spec_chain().height,
                got: after.spec_chain().height,
            },
        ),
{
}

/// A block that is accepted has the header that the replica derives itself: its
/// height is the sequence plus one, it names the replica's head as its parent, and
/// its state root is that of the replica's own accounts. The block becomes the head.
pub proof fn law_accepted_blocks_extend(
    chain: ChainView,
    sequence: u64,
    header: Header,
    well_formed: bool,
    transactions: Seq<Tx>,
    changes: Option<Seq<(Seq<u8>, AccountView)>>,
    digest: Digest,
)
    requires
        chain.height < u64::MAX,
        crate::applier::replay(chain, sequence, header, well_formed, transactions, changes, digest).0 is Ok,
    ensures
        ({
            let (answer, after) = crate::applier::replay(
                chain,
                sequence,
                header,
                well_formed,
                transactions,
                changes,
                digest,
            );
            let meta = answer->Ok_0;
            &&& meta.height == sequence + 1
            &&& meta.height == header.height
            &&& meta.state_root == header.state_root
            &&& header.parent == chain.parent
            &&& header.context.parent == (chain.height, chain.parent)
            &&& header.state_root == crate::chain::state_root_of(after.accounts)
            &&& header.transactions_root == crate::hash::digest_of(
                crate::chain::message_bytes(transactions),
            )
            &&& after.height == chain.height + 1
            &&& after.parent == digest
        }),
{
}

/// The header of a block names its height as its view and its timestamp, and the
/// block before it as its parent; its ranges are not empty.
pub proof fn law_headers_link(
    chain: ChainView,
    leader: PublicKey,
    first: Seq<Tx>,
    first_changes: Seq<(Seq<u8>, AccountView)>,
    digest: Digest,
    second: Seq<Tx>,
    second_changes: Seq<(Seq<u8>, AccountView)>,
)
    requires
        crate::builder::extendable(chain, first.len(), first_changes),
        crate::builder::extendable(
            crate::builder::extended_chain(chain, first.len(), first_changes, digest),
            second.len(),
            second_changes,
        ),
        crate::builder::extended_chain(chain, first.len(), first_changes, digest).with_changes(
            second_changes,
        ).accounts.len() <= u64::MAX,
    ensures
        ({
            let earlier = crate::builder::block_header(chain, leader, first, first_changes);
            let later = crate::builder::block_header(
                crate::builder::extended_chain(chain, first.len(), first_changes, digest),
                leader,
                second,
                second_changes,
            );
            &&& later.height == earlier.height + 1
            &&& later.parent == digest
            &&& later.context.parent == (earlier.height, digest)
            &&& later.context.round.view == later.height
            &&& later.timestamp == later.height
            &&& later.transactions_range.end >= earlier.transactions_range.end
            &&& later.transactions_range.non_empty()
            &&& later.state_range.non_empty()
        }),
{
}

/// The mempool proposes transactions in the context that the header of the next
/// block has.
pub proof fn law_proposals_match_blocks(
    chain: ChainView,
    leader: PublicKey,
    transactions: Seq<Tx>,
    changes: Seq<(Seq<u8>, AccountView)>,
)
    requires
        chain.height < u64::MAX,
    ensures
        ({
            let parent = crate::chain::head_header(chain, leader);
            let header = crate::builder::block_header(chain, leader, transactions, changes);
            &&& header.context.round.epoch == 0
            &&& header.context.round.view == parent.height + 1
            &&& header.context.leader == leader
            &&& header.context.parent == (parent.height, parent.parent)
        }),
{
}

/// Encoded metadata take 48 bytes, read back as they were, and leave what stands
/// behind them; they fit the default limits on metadata and output.
pub proof fn law_metadata_round_trip(meta: BlockMeta, rest: Seq<u8>)
    ensures
        ({
            let bytes = meta.spec_encoded() + rest;
            &&& meta.spec_encoded().len() == crate::chain::BLOCK_META_SIZE
            &&& crate::codec::be_value(bytes) == meta.height
            &&& bytes.subrange(8, 40) == meta.state_root.0@
            &&& crate::codec::be_value(bytes.skip(40)) == meta.tx_count
            &&& bytes.skip(48) == rest
        }),
        crate::chain::BLOCK_META_SIZE <= crate::config::DEFAULT_MAX_METADATA_BYTES,
        crate::chain::BLOCK_META_SIZE <= crate::config::DEFAULT_MAX_OUTPUT_BYTES,
{
    let bytes = meta.spec_encoded() + rest;
    crate::codec::lemma_be_round_trip(meta.height);
    crate::codec::lemma_be_round_trip(meta.tx_count);
    let height = crate::codec::be_bytes(meta.height);
    let count = crate::codec::be_bytes(meta.tx_count);
    assert forall|i: int| 0 <= i < 8 implies bytes[i] == height[i] && bytes.skip(40)[i]
        == count[i] by {}
    assert(bytes.subrange(8, 40) =~= meta.state_root.0@);
    assert(bytes.skip(48) =~= rest);
}

// Accounts

/// No key occurs twice in the changes.
pub open spec fn distinct_keys(changes: Seq<(Seq<u8>, AccountView)>) -> bool {
    forall|i: int, j: int|
        0 <= i < j < changes.len() ==> (#[trigger] changes[i]).0 != (#[trigger] changes[j]).0
}

/// What a map holds after changes to distinct keys.
proof fn lemma_distinct_changes(
    accounts: AccountMap,
    changes: Seq<(Seq<u8>, AccountView)>,
    key: Seq<u8>,
)
    requires
        distinct_keys(changes),
    ensures
        forall|i: int|
            0 <= i < changes.len() && (#[trigger] changes[i]).0 == key ==> {
                &&& crate::accounts::apply_changes(accounts, changes).contains_key(key)
                &&& crate::accounts::apply_changes(accounts, changes)[key] == changes[i].1
            },
        (forall|i: int| 0 <= i < changes.len() ==> (#[trigger] changes[i]).0 != key) ==> {
            &&& crate::accounts::apply_changes(accounts, changes).contains_key(key)
                <==> accounts.contains_key(key)
            &&& accounts.contains_key(key) ==> crate::accounts::apply_changes(
                accounts,
                changes,
            )[key] == accounts[key]
        },
    decreases changes.len(),
{
    if changes.len() > 0 {
        let earlier = changes.drop_last();
        assert forall|i: int, j: int| 0 <= i < j < earlier.len() implies (#[trigger] earlier[i]).0
            != (#[trigger] earlier[j]).0 by {
            assert(earlier[i] == changes[i] && earlier[j] == changes[j]);
        }
        lemma_distinct_changes(accounts, earlier, key);
        assert forall|i: int| 0 <= i < changes.len() && (#[trigger] changes[i]).0 == key implies {
            &&& crate::accounts::apply_changes(accounts, changes).contains_key(key)
            &&& crate::accounts::apply_changes(accounts, changes)[key] == changes[i].1
        } by {
            if i < earlier.len() {
                assert(earlier[i] == changes[i]);
                assert(changes[i].0 != changes[changes.len() - 1].0);
            }
        }
        if forall|i: int| 0 <= i < changes.len() ==> (#[trigger] changes[i]).0 != key {
            assert forall|i: int| 0 <= i < earlier.len() implies (#[trigger] earlier[i]).0
                != key by {
                assert(earlier[i] == changes[i]);
            }
            assert(changes[changes.len() - 1].0 != key);
        }
    }
}

/// The state root does not depend on the order in which accounts are changed: changes
/// to distinct keys lead to the same root in every order.
pub proof fn law_state_root_ignores_order(
    accounts: AccountMap,
    one: Seq<(Seq<u8>, AccountView)>,
    other: Seq<(Seq<u8>, AccountView)>,
)
    requires
        distinct_keys(one),
        distinct_keys(other),
        forall|change: (Seq<u8>, AccountView)| #[trigger]
            one.contains(change) <==> other.contains(change),
    ensures
        crate::accounts::apply_changes(accounts, one) == crate::accounts::apply_changes(
            accounts,
            other,
        ),
        crate::chain::state_root_of(crate::accounts::apply_changes(accounts, one))
            == crate::chain::state_root_of(crate::accounts::apply_changes(accounts, other)),
{
    let left = crate::accounts::apply_changes(accounts, one);
    let right = crate::accounts::apply_changes(accounts, other);
    assert forall|key: Seq<u8>|
        {
            &&& #[trigger] left.contains_key(key) <==> right.contains_key(key)
            &&& left.contains_key(key) ==> left[key] == right[key]
        } by {
        lemma_distinct_changes(accounts, one, key);
        lemma_distinct_changes(accounts, other, key);
        if exists|i: int| 0 <= i < one.len() && (#[trigger] one[i]).0 == key {
            let i = choose|i: int| 0 <= i < one.len() && (#[trigger] one[i]).0 == key;
            assert(one.contains(one[i]));
            assert(other.contains(one[i]));
            let j = choose|j: int| 0 <= j < other.len() && other[j] == one[i];
            assert(other[j].0 == key);
        } else {
            assert forall|j: int| 0 <= j < other.len() implies (#[trigger] other[j]).0 != key by {
                assert(other.contains(other[j]));
                assert(one.contains(other[j]));
                let i = choose|i: int| 0 <= i < one.len() && one[i] == other[j];
                assert(one[i].0 != key);
            }
        }
    }
    assert(left =~= right);
}

/// Where every key has the same account at genesis, each of the keys has it, and no
/// other key has one.
proof fn lemma_genesis_funds(account: AccountView, keys: Seq<AccountKey>)
    ensures
        ({
            let accounts = crate::chain::genesis_chain(
                crate::config::genesis_alloc(account, keys),
            ).accounts;
            &&& forall|i: int|
                0 <= i < keys.len() ==> {
                    &&& accounts.contains_key((#[trigger] keys[i])@)
                    &&& accounts[keys[i]@] == account
                }
            &&& forall|key: Seq<u8>| #[trigger]
                accounts.contains_key(key) ==> exists|i: int|
                    0 <= i < keys.len() && (#[trigger] keys[i])@ == key
        }),
    decreases keys.len(),
{
    let alloc = crate::config::genesis_alloc(account, keys);
    let accounts = crate::chain::genesis_chain(alloc).accounts;
    if keys.len() > 0 {
        let earlier = keys.drop_last();
        lemma_genesis_funds(account, earlier);
        let earlier_alloc = crate::config::genesis_alloc(account, earlier);
        let earlier_accounts = crate::chain::genesis_chain(earlier_alloc).accounts;
        assert(alloc.drop_last() =~= earlier_alloc);
        assert(accounts == earlier_accounts.insert(keys.last()@, account));
        assert forall|i: int| 0 <= i < keys.len() implies {
            &&& accounts.contains_key((#[trigger] keys[i])@)
            &&& accounts[keys[i]@] == account
        } by {
            if i < earlier.len() {
                assert(earlier[i] == keys[i]);
            }
        }
        assert forall|key: Seq<u8>| #[trigger] accounts.contains_key(key) implies exists|i: int|
            0 <= i < keys.len() && (#[trigger] keys[i])@ == key by {
            if key == keys.last()@ {
                assert(keys[keys.len() - 1]@ == key);
            } else {
                assert(earlier_accounts.contains_key(key));
                let i = choose|i: int| 0 <= i < earlier.len() && (#[trigger] earlier[i])@ == key;
                assert(keys[i]@ == key);
            }
        }
    }
}

/// `account_key` is a function: it gives one account key for a public key.
pub open spec fn one_key_each<F>(account_key: F) -> bool where F: Fn(PublicKey) -> AccountKey {
    forall|key: PublicKey, one: AccountKey, other: AccountKey|
        #[trigger] call_ensures(account_key, (key,), one) && #[trigger] call_ensures(
            account_key,
            (key,),
            other,
        ) ==> one@ == other@
}

/// `encode` is a function: it gives one encoding for an account.
pub open spec fn one_encoding_each<E>(encode: E) -> bool where
    E: FnOnce(u64, Nonce) -> Vec<u8>,
 {
    forall|balance: u64, nonce: Nonce, one: Vec<u8>, other: Vec<u8>|
        #[trigger] call_ensures(encode, (balance, nonce), one) && #[trigger] call_ensures(
            encode,
            (balance, nonce),
            other,
        ) ==> one@ == other@
}

/// At genesis, exactly the keys of the configured seeds have an account, each with the
/// configured balance and the nonces given; there is no block and no transaction.
pub proof fn law_genesis_funds_its_keys<E, F>(
    config: GenesisConfig,
    nonce: Nonce,
    encode: E,
    account_key: F,
    chain: ChainView,
) where E: FnOnce(u64, Nonce) -> Vec<u8>, F: Fn(PublicKey) -> AccountKey
    requires
        crate::config::configured_genesis(config, nonce, encode, account_key, chain),
    ensures
        chain.height == 0,
        chain.total_txs == 0,
        exists|keys: Seq<AccountKey>|
            {
                &&& #[trigger] crate::config::genesis_keys(config, account_key, keys)
                &&& forall|i: int|
                    0 <= i < keys.len() ==> {
                        &&& chain.accounts.contains_key((#[trigger] keys[i])@)
                        &&& chain.accounts[keys[i]@].balance == config.balance
                        &&& chain.accounts[keys[i]@].nonce == nonce
                        &&& crate::accounts::encoded_by(chain.accounts[keys[i]@], encode)
                    }
                &&& forall|key: Seq<u8>| #[trigger]
                    chain.accounts.contains_key(key) ==> exists|i: int|
                        0 <= i < keys.len() && (#[trigger] keys[i])@ == key
            },
{
    let (account, keys): (AccountView, Seq<AccountKey>) = choose|
        account: AccountView,
        keys: Seq<AccountKey>,
    |
        {
            &&& account.balance == config.balance
            &&& account.nonce == nonce
            &&& crate::accounts::encoded_by(account, encode)
            &&& crate::config::genesis_keys(config, account_key, keys)
            &&& chain == crate::chain::genesis_chain(
                #[trigger] crate::config::genesis_alloc(account, keys),
            )
        };
    lemma_genesis_funds(account, keys);
    assert(crate::config::genesis_keys(config, account_key, keys));
}

/// A sequencer and a replica with equal genesis settings start from the same head, and,
/// where encoding an account and deriving an account key are functions, from the same
/// accounts and so from the same state root.
pub proof fn law_equal_settings_agree_at_genesis<E, F>(
    config: GenesisConfig,
    nonce: Nonce,
    encode: E,
    account_key: F,
    one: ChainView,
    other: ChainView,
) where E: FnOnce(u64, Nonce) -> Vec<u8>, F: Fn(PublicKey) -> AccountKey
    requires
        crate::config::configured_genesis(config, nonce, encode, account_key, one),
        crate::config::configured_genesis(config, nonce, encode, account_key, other),
    ensures
        one.height == other.height,
        one.parent == other.parent,
        one.total_txs == other.total_txs,
        one_encoding_each(encode) && one_key_each(account_key) ==> {
            &&& one == other
            &&& crate::chain::state_root_of(one.accounts) == crate::chain::state_root_of(
                other.accounts,
            )
        },
{
    let (account, keys): (AccountView, Seq<AccountKey>) = choose|
        account: AccountView,
        keys: Seq<AccountKey>,
    |
        {
            &&& account.balance == config.balance
            &&& account.nonce == nonce
            &&& crate::accounts::encoded_by(account, encode)
            &&& crate::config::genesis_keys(config, account_key, keys)
            &&& one == crate::chain::genesis_chain(
                #[trigger] crate::config::genesis_alloc(account, keys),
            )
        };
    let (other_account, other_keys): (AccountView, Seq<AccountKey>) = choose|
        account: AccountView,
        keys: Seq<AccountKey>,
    |
        {
            &&& account.balance == config.balance
            &&& account.nonce == nonce
            &&& crate::accounts::encoded_by(account, encode)
            &&& crate::config::genesis_keys(config, account_key, keys)
            &&& other == crate::chain::genesis_chain(
                #[trigger] crate::config::genesis_alloc(account, keys),
            )
        };
    if one_encoding_each(encode) && one_key_each(account_key) {
        assert(account.encoded == other_account.encoded);
        assert forall|i: int| 0 <= i < keys.len() implies (#[trigger] keys[i])@
            == other_keys[i]@ by {
            let key = crate::config::genesis_key(config, i);
            assert(call_ensures(account_key, (key,), keys[i]));
            assert(call_ensures(account_key, (key,), other_keys[i]));
        }
        assert(crate::config::genesis_alloc(account, keys) =~= crate::config::genesis_alloc(
            other_account,
            other_keys,
        ));
    }
}

// Publication

/// A submission is confirmed at the height that it was included at: noting it makes
/// its hash known with that height, and noting a submission with another hash leaves
/// it known.
pub proof fn law_submissions_stay_known(
    submitted: Map<Digest, u64>,
    height: u64,
    commitment: BlobCommitment,
    later_height: u64,
    later_commitment: BlobCommitment,
)
    ensures
        ({
            let hash = crate::backend::submission_hash(height, commitment);
            let later_hash = crate::backend::submission_hash(later_height, later_commitment);
            let noted = submitted.insert(hash, height);
            let both = noted.insert(later_hash, later_height);
            &&& noted.contains_key(hash)
            &&& noted[hash] == height
            &&& both.contains_key(hash)
            &&& later_hash != hash ==> both[hash] == height
            &&& later_height == height ==> both[hash] == height
        }),
{
}

/// A request is the document that the node expects: its members stand in the order of
/// their names.
pub proof fn law_requests_are_documents(method: Seq<char>, params: Seq<char>)
    ensures
        crate::backend::request_text(method, params) == seq!['{'] + crate::json::comma_separated(
            seq![
                crate::json::json_quoted("id"@) + seq![':'] + crate::text::decimal(1),
                crate::json::json_quoted("jsonrpc"@) + seq![':'] + crate::json::json_quoted("2.0"@),
                crate::json::json_quoted("method"@) + seq![':'] + crate::json::json_quoted(method),
                crate::json::json_quoted("params"@) + seq![':'] + params,
            ],
        ) + seq!['}'],
{
    reveal_strlit("id");
    reveal_strlit("jsonrpc");
    reveal_strlit("method");
    reveal_strlit("params");
    let members = map![
        "jsonrpc"@ => crate::json::json_quoted("2.0"@),
        "id"@ => crate::text::decimal(1),
        "method"@ => crate::json::json_quoted(method),
        "params"@ => params,
    ];
    let keys = seq!["id"@, "jsonrpc"@, "method"@, "params"@];
    assert("id"@[0] == 'i' && "jsonrpc"@[0] == 'j' && "method"@[0] == 'm' && "params"@[0] == 'p');
    assert forall|key: Seq<char>| #[trigger] keys.contains(key) <==> members.contains_key(key) by {
        if members.contains_key(key) {
            assert(keys[0] == key || keys[1] == key || keys[2] == key || keys[3] == key);
        }
    }
    crate::json::lemma_member_order(keys, members);
    assert(Seq::new(
        keys.len(),
        |i: int| crate::json::json_quoted(keys[i]) + seq![':'] + members[keys[i]],
    ) =~= seq![
        crate::json::json_quoted("id"@) + seq![':'] + crate::text::decimal(1),
        crate::json::json_quoted("jsonrpc"@) + seq![':'] + crate::json::json_quoted("2.0"@),
        crate::json::json_quoted("method"@) + seq![':'] + crate::json::json_quoted(method),
        crate::json::json_quoted("params"@) + seq![':'] + params,
    ]);
}

/// A read gives back only bytes that match the commitment that was asked for.
pub proof fn law_reads_match_commitment(blob_ref: BlobRef, reply: RpcReply)
    ensures
        crate::backend::read_outcome(blob_ref, reply) matches Ok(payload)
            ==> crate::backend::commitment_outcome(blob_ref.namespace, payload) == Ok::<
            BlobCommitment,
            DaErrorView,
        >(blob_ref.commitment),
{
}

/// A namespace that is configured by its ten-byte suffix is valid, whatever the
/// suffix is, and ends with it.
pub proof fn law_suffix_namespaces_are_valid(value: Seq<char>, suffix: Seq<u8>)
    requires
        crate::hex::hex_bytes(value) == Some(suffix),
        suffix.len() == 10,
    ensures
        crate::config::namespace_of(value) is Ok,
        crate::blob::valid_namespace(crate::config::namespace_of(value)->Ok_0),
        crate::config::namespace_of(value)->Ok_0.skip(19) == suffix,
{
    let namespace = crate::config::namespace_of(value)->Ok_0;
    assert(namespace.skip(19) =~= suffix);
}

// Requests

/// The limits turn no batch away that fits: a body with a batch of `count`
/// transactions of at least the smallest size, behind a length prefix, holds no more
/// transactions than its length admits, and is no larger than the request limit
/// where the batch is no larger than the batch limit.
pub proof fn law_fitting_batches_are_admitted(
    sizes: TransactionSizes,
    count: nat,
    prefix: nat,
    batch_bytes: nat,
    max_batch_bytes: usize,
)
    requires
        1 <= prefix <= crate::mempool::MAX_BATCH_LENGTH_PREFIX_BYTES,
        batch_bytes >= count * crate::mempool::min_signed_size(sizes),
        batch_bytes <= max_batch_bytes,
    ensures
        count <= (prefix + batch_bytes - crate::mempool::MIN_BATCH_LENGTH_PREFIX_BYTES)
            / crate::mempool::min_signed_size(sizes),
        prefix + batch_bytes <= max_batch_bytes + crate::mempool::MAX_BATCH_LENGTH_PREFIX_BYTES,
{
    let size = crate::mempool::min_signed_size(sizes);
    let payload = prefix + batch_bytes - crate::mempool::MIN_BATCH_LENGTH_PREFIX_BYTES;
    vstd::arithmetic::div_mod::lemma_fundamental_div_mod(payload, size);
    vstd::arithmetic::div_mod::lemma_mod_bound(payload, size);
    let quotient = payload / size;
    assert(count <= quotient) by (nonlinear_arith)
        requires
            count * size <= payload,
            payload == size * quotient + payload % size,
            payload % size < size,
            size > 0,
    ;
}

/// A well-formed body is admitted: a batch of `count` transactions of at least the
/// smallest size, behind its encoded length, is split into the length and the
/// transactions, where the body is within the request limit.
pub proof fn law_well_formed_bodies_are_admitted(
    sizes: TransactionSizes,
    count: usize,
    batch: Seq<u8>,
    max_batch_bytes: usize,
)
    requires
        1 <= count <= u32::MAX,
        batch.len() >= count * crate::mempool::min_signed_size(sizes),
        batch.len() <= max_batch_bytes,
        batch.len() + crate::mempool::MAX_BATCH_LENGTH_PREFIX_BYTES <= usize::MAX,
    ensures
        ({
            let prefix = crate::codec::varint_bytes(count as nat);
            &&& crate::mempool::body_prefix(prefix + batch, max_batch_bytes, sizes) == Ok::<
                (usize, usize),
                Status,
            >((count, prefix.len() as usize))
            &&& (prefix + batch).skip(prefix.len() as int) == batch
        }),
{
    let prefix = crate::codec::varint_bytes(count as nat);
    let body = prefix + batch;
    let size = crate::mempool::min_signed_size(sizes);
    crate::codec::lemma_length_round_trip(count, count, batch);
    law_fitting_batches_are_admitted(
        sizes,
        count as nat,
        prefix.len(),
        batch.len(),
        max_batch_bytes,
    );
    assert(size <= count * size) by (nonlinear_arith)
        requires
            count >= 1,
            size >= 0,
    ;
    let max = (body.len() - crate::mempool::MIN_BATCH_LENGTH_PREFIX_BYTES) / size;
    assert(max <= body.len()) by (nonlinear_arith)
        requires
            max == (body.len() - 1) / size,
            size >= 1,
            body.len() >= 1,
    ;
    crate::codec::lemma_length_round_trip(count, max as usize, batch);
    assert(body.skip(prefix.len() as int) =~= batch);
}

// The sequencer's loop

/// Where a sequencer stands after the events, one after the other.
pub open spec fn run(phase: PhaseView, events: Seq<EventView>) -> PhaseView
    decreases events.len(),
{
    if events.len() == 0 {
        phase
    } else {
        crate::node::next_phase(run(phase, events.drop_last()), events.last())
    }
}

/// The event says that recovery succeeded.
pub open spec fn recovers(event: EventView) -> bool {
    event matches EventView::Recovered(resumed) && resumed is Some
}

/// Once publishing has failed, a sequencer does nothing but sleep and recover until
/// a recovery succeeds: it proposes, submits and publishes no later batch before the
/// ones that were not published.
pub proof fn law_failure_recovers_first(events: Seq<EventView>)
    requires
        forall|i: int| 0 <= i < events.len() ==> !recovers(#[trigger] events[i]),
    ensures
        run(PhaseView::Waiting, events) is Waiting || run(PhaseView::Waiting, events) is Recovering,
        crate::node::action_in(run(PhaseView::Waiting, events)) == (Action::Sleep {
            milliseconds: crate::node::RECOVERY_SLEEP_MS,
        }) || crate::node::action_in(run(PhaseView::Waiting, events)) == Action::Recover,
    decreases events.len(),
{
    if events.len() > 0 {
        let earlier = events.drop_last();
        assert forall|i: int| 0 <= i < earlier.len() implies !recovers(#[trigger] earlier[i]) by {
            assert(earlier[i] == events[i]);
        }
        law_failure_recovers_first(earlier);
        assert(!recovers(events[events.len() - 1]));
    }
}

/// A batch that is published is reported at once, and a failure leads to recovery.
pub proof fn law_publications_are_reported(phase: PhaseView, publication: Publication)
    requires
        phase is Processing || phase is Flushing,
    ensures
        ({
            let event = if phase is Processing {
                EventView::Processed(publication)
            } else {
                EventView::Flushed(publication)
            };
            let next = crate::node::next_phase(phase, event);
            &&& crate::node::answers_action(crate::node::action_in(phase), event)
            &&& publication matches Publication::Published { sequence }
                ==> crate::node::action_in(next) == (Action::Report { sequence })
            &&& publication is Failed ==> next is Waiting
        }),
{
}

/// As many events that report a batch.
pub open spec fn reports(count: nat) -> Seq<EventView> {
    Seq::new(count, |i: int| EventView::Reported)
}

/// The batches that recovery published are reported in order, each once, before
/// anything else.
pub proof fn law_resumed_batches_are_reported(sequences: Seq<u64>, reported: nat)
    requires
        reported <= sequences.len(),
    ensures
        run(
            crate::node::next_phase(PhaseView::Recovering, EventView::Recovered(Some(sequences))),
            reports(reported),
        ) == crate::node::resuming(sequences.skip(reported as int)),
        reported < sequences.len() ==> crate::node::action_in(
            crate::node::resuming(sequences.skip(reported as int)),
        ) == (Action::Report { sequence: sequences[reported as int] }),
        reported == sequences.len() ==> crate::node::action_in(
            crate::node::resuming(sequences.skip(reported as int)),
        ) == Action::Propose,
    decreases reported,
{
    if reported == 0 {
        assert(sequences.skip(0) =~= sequences);
    } else {
        let earlier = (reported - 1) as nat;
        law_resumed_batches_are_reported(sequences, earlier);
        assert(reports(reported).drop_last() =~= reports(earlier));
        assert(sequences.skip(earlier as int).skip(1) =~= sequences.skip(reported as int));
    }
}

/// As many events that submit a transaction.
pub open spec fn submissions(count: nat) -> Seq<EventView> {
    Seq::new(count, |i: int| EventView::Submitted)
}

/// The proposed transactions are submitted in order, each once, whether or not one
/// is refused, and what was submitted is flushed.
pub proof fn law_proposals_are_submitted(count: nat, submitted: nat)
    requires
        1 <= count <= usize::MAX,
        submitted <= count,
    ensures
        ({
            let start = crate::node::next_phase(
                PhaseView::Proposing,
                EventView::Proposed { count },
            );
            let phase = run(start, submissions(submitted));
            &&& submitted < count ==> phase == (PhaseView::Submitting { next: submitted, count })
            &&& submitted < count ==> crate::node::action_in(phase) == (Action::Submit {
                index: submitted as usize,
            })
            &&& submitted == count ==> crate::node::action_in(phase) == Action::Flush
        }),
    decreases submitted,
{
    if submitted > 0 {
        let earlier = (submitted - 1) as nat;
        law_proposals_are_submitted(count, earlier);
        assert(submissions(submitted).drop_last() =~= submissions(earlier));
    }
}

} // verus!
