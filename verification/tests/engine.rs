//! End-to-end sequencer and replica flow over a simulated node, and the rules of
//! blocks.
//!
//! The executor and the block codec are small stand-ins: a transfer moves a balance
//! and uses up the sender's next nonce.

use base64::Engine as _;
use commonware_cryptography::{Hasher as _, Sha256};
use coro_engine::accounts::{Account, AccountKey, Accounts, Nonce};
use coro_engine::applier::{AppliedBatch, BlockApplier, PreparedTx, ReplicaBlock};
use coro_engine::backend::{
    BlobRef, DaError, GasConfig, NamespaceId, NodeRpcBackend, RpcReply, SubmittedBlob,
};
use coro_engine::builder::{BlockBuilder, ExecutedBatch, Proposal, SealedBlock};
use coro_engine::chain::{
    parent_header, proposal_context, BlockMeta, ChainState, Context, EngineError, Header,
    IndexRange, MetaError, PublicKey, Round, Tx, BLOCK_META_SIZE,
};
use coro_engine::hash::Digest;
use coro_engine::keys::PrivateKey;
use coro_engine::node::catch_up;
use coro_engine::source::SequencerSource;
use std::collections::HashMap;

#[derive(Clone, Debug, PartialEq)]
struct Transfer {
    from: Vec<u8>,
    to: Vec<u8>,
    value: u64,
    nonce: u64,
}

impl Transfer {
    fn encode(&self) -> Vec<u8> {
        let mut bytes = self.from.clone();
        bytes.extend_from_slice(&self.to);
        bytes.extend_from_slice(&self.value.to_be_bytes());
        bytes.extend_from_slice(&self.nonce.to_be_bytes());
        bytes
    }

    fn tx(&self) -> Tx {
        Tx { message_digest: hash(&self.encode()) }
    }
}

struct Actor {
    key: Vec<u8>,
}

impl Actor {
    fn new(seed: u64) -> Self {
        Self { key: PrivateKey::from_seed(seed).public_key().0.to_vec() }
    }

    fn transfer(&self, to: &Self, value: u64, nonce: u64) -> Transfer {
        Transfer { from: self.key.clone(), to: to.key.clone(), value, nonce }
    }
}

fn hash(bytes: &[u8]) -> Digest {
    Digest(Sha256::hash(bytes).0)
}

fn key(bytes: &[u8]) -> AccountKey {
    AccountKey { bytes: bytes.to_vec() }
}

fn encode_account(balance: u64, nonce: Nonce) -> Vec<u8> {
    let mut encoded = balance.to_be_bytes().to_vec();
    encoded.extend_from_slice(&nonce.base.to_be_bytes());
    encoded
}

fn account(balance: u64, base: u64) -> Account {
    Account::new(balance, Nonce { base, bitmap: 0 }, encode_account)
}

fn genesis(actors: &[&Actor]) -> ChainState {
    ChainState::genesis(
        actors.iter().map(|actor| (key(&actor.key), account(1_000, 0))).collect(),
    )
}

fn balance(chain: &ChainState, actor: &Actor) -> u64 {
    chain.accounts.get(&key(&actor.key)).expect("account exists").balance()
}

/// Applies one transfer on top of earlier changes, where it is applicable.
fn apply(
    accounts: &Accounts,
    changes: &mut HashMap<Vec<u8>, (u64, u64)>,
    transfer: &Transfer,
) -> bool {
    let current = |changes: &HashMap<Vec<u8>, (u64, u64)>, bytes: &Vec<u8>| {
        changes
            .get(bytes)
            .copied()
            .or_else(|| accounts.get(&key(bytes)).map(|found| (found.balance(), found.nonce().base)))
    };
    let (Some(sender), Some(_)) = (current(changes, &transfer.from), current(changes, &transfer.to))
    else {
        return false;
    };
    if sender.0 < transfer.value || sender.1 != transfer.nonce {
        return false;
    }
    changes.insert(transfer.from.clone(), (sender.0 - transfer.value, sender.1 + 1));
    let recipient = current(changes, &transfer.to).expect("recipient exists");
    changes.insert(transfer.to.clone(), (recipient.0 + transfer.value, recipient.1));
    true
}

fn changeset(changes: HashMap<Vec<u8>, (u64, u64)>) -> Vec<(AccountKey, Account)> {
    changes.into_iter().map(|(bytes, (balance, base))| (key(&bytes), account(balance, base))).collect()
}

/// The sequencer's executor: it leaves inapplicable transfers out.
fn propose(accounts: &Accounts, txs: Vec<Transfer>) -> Proposal<Vec<Transfer>> {
    let mut changes = HashMap::new();
    let body: Vec<Transfer> =
        txs.into_iter().filter(|transfer| apply(accounts, &mut changes, transfer)).collect();
    Proposal {
        valid: body.iter().map(Transfer::tx).collect(),
        changeset: changeset(changes),
        body,
    }
}

/// The replica's executor: every transfer has to apply.
fn execute(accounts: &Accounts, transfers: Vec<Transfer>) -> Option<Vec<(AccountKey, Account)>> {
    let mut changes = HashMap::new();
    for transfer in &transfers {
        if !apply(accounts, &mut changes, transfer) {
            return None;
        }
    }
    Some(changeset(changes))
}

fn encode_header(header: &Header) -> Vec<u8> {
    let mut bytes = Vec::new();
    for number in [
        header.context.round.epoch,
        header.context.round.view,
        header.context.parent.0,
        header.height,
        header.timestamp,
        header.state_range.start,
        header.state_range.end,
        header.transactions_range.start,
        header.transactions_range.end,
    ] {
        bytes.extend_from_slice(&number.to_be_bytes());
    }
    for digest in [
        header.context.leader.0,
        header.context.parent.1 .0,
        header.parent.0,
        header.state_root.0,
        header.transactions_root.0,
    ] {
        bytes.extend_from_slice(&digest);
    }
    bytes
}

const HEADER_BYTES: usize = 9 * 8 + 5 * 32;
const TRANSFER_BYTES: usize = 32 + 32 + 8 + 8;

fn number_at(bytes: &[u8], at: usize) -> u64 {
    u64::from_be_bytes(bytes[at..at + 8].try_into().unwrap())
}

fn array_at(bytes: &[u8], at: usize) -> [u8; 32] {
    bytes[at..at + 32].try_into().unwrap()
}

fn decode_header(bytes: &[u8]) -> Header {
    let number = |index: usize| number_at(bytes, 8 * index);
    let array = |index: usize| array_at(bytes, 72 + 32 * index);
    Header {
        context: Context {
            round: Round { epoch: number(0), view: number(1) },
            leader: PublicKey(array(0)),
            parent: (number(2), Digest(array(1))),
        },
        parent: Digest(array(2)),
        height: number(3),
        timestamp: number(4),
        state_root: Digest(array(3)),
        state_range: IndexRange { start: number(5), end: number(6) },
        transactions_root: Digest(array(4)),
        transactions_range: IndexRange { start: number(7), end: number(8) },
    }
}

fn encode_block(header: Header, body: Vec<Transfer>) -> SealedBlock {
    let mut payload = encode_header(&header);
    for transfer in &body {
        payload.extend_from_slice(&transfer.encode());
    }
    SealedBlock { digest: hash(&payload), payload }
}

/// Decodes a block. A transfer of nothing has no effect that could be prepared, and a
/// transfer whose nonce is all ones does not decode.
fn decode_block(payload: Vec<u8>) -> Result<ReplicaBlock<Transfer, Vec<u8>>, String> {
    if payload.len() < HEADER_BYTES || (payload.len() - HEADER_BYTES) % TRANSFER_BYTES != 0 {
        return Err("unexpected length".to_string());
    }
    let body = payload[HEADER_BYTES..]
        .chunks(TRANSFER_BYTES)
        .map(|bytes| {
            let transfer = Transfer {
                from: bytes[..32].to_vec(),
                to: bytes[32..64].to_vec(),
                value: number_at(bytes, 64),
                nonce: number_at(bytes, 72),
            };
            if transfer.nonce == u64::MAX {
                return None;
            }
            let transaction = transfer.tx();
            let prepared = if transfer.value == 0 { None } else { Some(transfer) };
            Some(PreparedTx { transaction, transfer: prepared })
        })
        .collect();
    Ok(ReplicaBlock { header: decode_header(&payload), body, raw: payload })
}

fn build(
    builder: &mut BlockBuilder,
    sequence: u64,
    txs: Vec<Transfer>,
) -> Result<ExecutedBatch, EngineError> {
    builder.execute_batch(sequence, txs, propose, encode_block)
}

fn replay(
    applier: &mut BlockApplier,
    sequence: u64,
    payload: Vec<u8>,
) -> Result<AppliedBatch, EngineError> {
    applier.apply_batch(sequence, payload, decode_block, execute, |raw: Vec<u8>| hash(&raw))
}

/// A node that keeps what was submitted to it, and answers reads of it.
struct SimulatedNode {
    next_height: u64,
    blobs: Vec<(u64, String, String)>,
}

impl SimulatedNode {
    fn new() -> Self {
        Self { next_height: 7_000, blobs: Vec::new() }
    }

    fn answer(&mut self, request: &str) -> RpcReply {
        let request: serde_json::Value = serde_json::from_str(request).expect("request is JSON");
        assert_eq!(request["jsonrpc"], "2.0");
        assert_eq!(request["id"], 1);
        let params = &request["params"];
        let text = |value: &serde_json::Value| value.as_str().expect("text").to_string();
        let answer = match request["method"].as_str().expect("method") {
            "blob.Submit" => {
                let blob = &params[0][0];
                assert_eq!(blob["share_version"], 0);
                let height = self.next_height;
                self.next_height += 1;
                self.blobs.push((height, text(&blob["namespace"]), text(&blob["data"])));
                format!("{{\"id\":1,\"jsonrpc\":\"2.0\",\"result\":{height}}}")
            }
            "blob.Get" => {
                let found = self.blobs.iter().find(|(height, namespace, _)| {
                    params[0] == *height && params[1] == namespace.as_str()
                });
                match found {
                    Some((_, _, data)) => format!("{{\"result\":{{\"data\":\"{data}\"}}}}"),
                    None => "{\"error\":{\"message\":\"blob: not found\"}}".to_string(),
                }
            }
            other => panic!("unexpected method {other}"),
        };
        RpcReply::Body(answer.into_bytes())
    }
}

fn namespace() -> NamespaceId {
    let mut namespace = [0u8; 29];
    namespace[19..].copy_from_slice(b"coro-const");
    NamespaceId(namespace)
}

fn backend() -> NodeRpcBackend {
    NodeRpcBackend::new(
        "http://127.0.0.1:26658".to_string(),
        None,
        GasConfig { gas: None, gas_price: None },
    )
}

fn publish(backend: &mut NodeRpcBackend, node: &mut SimulatedNode, payload: &[u8]) -> SubmittedBlob {
    let (commitment, request) = backend.broadcast_request(namespace(), payload).expect("request");
    let reply = node.answer(&request.body);
    let submission = backend.broadcast_reply(commitment, reply).expect("submission");
    backend.confirm(namespace(), payload, &submission).expect("confirmation").expect("inclusion")
}

fn read(backend: &NodeRpcBackend, node: &mut SimulatedNode, blob_ref: &BlobRef) -> Vec<u8> {
    let reply = node.answer(&backend.get_request(blob_ref).body);
    backend.get_reply(blob_ref, reply).expect("payload")
}

#[test]
fn sequencer_blocks_replay_on_replica_via_da() {
    let alice = Actor::new(1);
    let bob = Actor::new(2);
    let leader = PrivateKey::from_seed(0).public_key();
    let mut backend = backend();
    let mut node = SimulatedNode::new();
    let mut builder = BlockBuilder::new(genesis(&[&alice, &bob]), leader);

    // Block 1: two transfers. Block 2: two transfers. Block 3: one transfer plus one
    // inapplicable transaction (nonce 0 was consumed in block 1) that the sequencer
    // must drop.
    let batches = vec![
        vec![alice.transfer(&bob, 5, 0), bob.transfer(&alice, 3, 0)],
        vec![alice.transfer(&bob, 7, 1), bob.transfer(&alice, 2, 1)],
        vec![alice.transfer(&bob, 1, 2), bob.transfer(&alice, 9, 0)],
    ];
    let mut archive = Vec::new();
    let mut cursors = Vec::new();
    for (sequence, txs) in batches.into_iter().enumerate() {
        let batch = build(&mut builder, sequence as u64, txs).expect("block");
        cursors.push(publish(&mut backend, &mut node, &batch.payload).blob_ref);
        archive.push(batch);
    }
    assert_eq!(archive.len(), 3);
    assert_eq!(archive[2].metadata.tx_count, 1);

    let sequencer_chain = builder.chain();
    assert_eq!(sequencer_chain.height, 3);
    assert_eq!(balance(sequencer_chain, &alice), 1_000 - 5 + 3 - 7 + 2 - 1);
    assert_eq!(balance(sequencer_chain, &bob), 1_000 + 5 - 3 + 7 - 2 + 1);

    // Replica: same genesis, cursors from the sequencer, payloads forced through the
    // data-availability read path.
    let mut applier = BlockApplier::new(genesis(&[&alice, &bob]));
    let source = SequencerSource::cursors_only(());
    let mut applied = Vec::new();
    for (sequence, cursor) in cursors.iter().enumerate() {
        let served = source
            .payload::<DaError, _>(sequence as u64, |_, _| panic!("payloads are withheld"))
            .expect("no failure");
        assert_eq!(served, None);
        let payload = read(&backend, &mut node, cursor);
        applied.push(replay(&mut applier, sequence as u64, payload).expect("replay"));
    }
    assert_eq!(applied.len(), 3);

    // Replica state roots match what the sequencer committed per block.
    for (sequence, batch) in applied.iter().enumerate() {
        assert_eq!(batch.output.state_root, archive[sequence].metadata.state_root);
        assert_eq!(batch.output.height, sequence as u64 + 1);
        assert_eq!(batch.metadata, batch.output);
    }

    let replica_chain = applier.chain();
    assert_eq!(replica_chain.height, 3);
    assert_eq!(replica_chain.parent, sequencer_chain.parent);
    assert_eq!(replica_chain.total_txs, 5);
    assert_eq!(replica_chain.state_root(), sequencer_chain.state_root());
    let on_replica = replica_chain.accounts.get(&key(&alice.key)).expect("account");
    let on_sequencer = sequencer_chain.accounts.get(&key(&alice.key)).expect("account");
    assert_eq!(on_replica.balance(), on_sequencer.balance());
    assert_eq!(on_replica.nonce(), on_sequencer.nonce());
    assert_eq!(on_replica.encoded(), on_sequencer.encoded());

    let summary = catch_up(&applied).expect("something was applied");
    assert_eq!(summary.applied, 3);
    assert_eq!(summary.height, 3);
    assert_eq!(summary.state_root, sequencer_chain.state_root());
}

#[test]
fn replica_rejects_tampered_genesis() {
    let alice = Actor::new(1);
    let bob = Actor::new(2);
    let leader = PrivateKey::from_seed(0).public_key();
    let mut builder = BlockBuilder::new(genesis(&[&alice, &bob]), leader);
    let batch = build(&mut builder, 0, vec![alice.transfer(&bob, 5, 0)]).expect("block");

    // Replica seeded with a different allocation must reject block 1.
    let mut tampered = genesis(&[&alice, &bob]);
    tampered.accounts.insert(key(&alice.key), account(9_999, 0));
    let mut applier = BlockApplier::new(tampered);
    let result = replay(&mut applier, 0, batch.payload);
    assert!(result.is_err());
    assert!(matches!(result, Err(EngineError::StateRootMismatch)));
    assert_eq!(applier.chain().height, 0);
}

#[test]
fn builder_rejects_unexpected_sequence() {
    let alice = Actor::new(1);
    let bob = Actor::new(2);
    let leader = PublicKey([3; 32]);
    let mut builder = BlockBuilder::new(genesis(&[&alice, &bob]), leader);
    let root = builder.chain().state_root();
    let result = build(&mut builder, 4, vec![alice.transfer(&bob, 5, 0)]);
    assert!(matches!(result, Err(EngineError::HeightMismatch { chain: 0, got: 5 })));
    assert_eq!(builder.chain().height, 0);
    assert_eq!(builder.chain().state_root(), root);
    assert_eq!(builder.leader(), leader);
}

fn first_block(alice: &Actor, bob: &Actor, transfers: Vec<Transfer>) -> Vec<u8> {
    let mut builder = BlockBuilder::new(genesis(&[alice, bob]), PublicKey([3; 32]));
    build(&mut builder, 0, transfers).expect("block").payload
}

#[test]
fn applier_rejects_each_kind_of_bad_block() {
    let alice = Actor::new(1);
    let bob = Actor::new(2);
    let good = first_block(&alice, &bob, vec![alice.transfer(&bob, 5, 0)]);
    let mut applier = BlockApplier::new(genesis(&[&alice, &bob]));
    let root = applier.chain().state_root();

    // Undecodable.
    let result = replay(&mut applier, 0, vec![1, 2, 3]);
    assert!(matches!(&result, Err(EngineError::Decode(text)) if text == "unexpected length"));

    // Another sequence, and another height in the header.
    let result = replay(&mut applier, 1, good.clone());
    assert!(matches!(result, Err(EngineError::HeightMismatch { chain: 0, got: 1 })));
    let mut header = decode_header(&good);
    header.height = 9;
    let mut block = encode_header(&header);
    block.extend_from_slice(&good[HEADER_BYTES..]);
    let result = replay(&mut applier, 0, block);
    assert!(matches!(result, Err(EngineError::HeightMismatch { chain: 0, got: 9 })));

    // Another parent.
    let mut header = decode_header(&good);
    header.parent = Digest([9; 32]);
    let mut block = encode_header(&header);
    block.extend_from_slice(&good[HEADER_BYTES..]);
    assert!(matches!(replay(&mut applier, 0, block), Err(EngineError::ParentMismatch)));

    // A transaction that does not decode, and one that cannot be prepared.
    for transfer in [alice.transfer(&bob, 5, u64::MAX), alice.transfer(&bob, 0, 0)] {
        let mut block = good[..HEADER_BYTES].to_vec();
        block.extend_from_slice(&transfer.encode());
        assert!(matches!(replay(&mut applier, 0, block), Err(EngineError::MalformedTransaction)));
    }

    // A transfer that does not apply.
    let mut block = good[..HEADER_BYTES].to_vec();
    block.extend_from_slice(&alice.transfer(&bob, 5_000, 0).encode());
    assert!(matches!(replay(&mut applier, 0, block), Err(EngineError::InvalidTransfer)));

    // None of them moved anything, and the good block still applies.
    assert_eq!(applier.chain().height, 0);
    assert_eq!(applier.chain().state_root(), root);
    let applied = replay(&mut applier, 0, good).expect("replay");
    assert_eq!(applied.output.height, 1);
    assert_eq!(applied.output.tx_count, 1);
}

#[test]
fn rejection_for_the_header_changes_nothing() {
    let alice = Actor::new(1);
    let bob = Actor::new(2);
    let good = first_block(&alice, &bob, vec![alice.transfer(&bob, 5, 0)]);

    // Another transfer than the state root commits to.
    let mut block = good[..HEADER_BYTES].to_vec();
    block.extend_from_slice(&alice.transfer(&bob, 6, 0).encode());
    let mut applier = BlockApplier::new(genesis(&[&alice, &bob]));
    let parent = applier.chain().parent;
    let root = applier.chain().state_root();
    assert!(matches!(replay(&mut applier, 0, block), Err(EngineError::StateRootMismatch)));
    assert_eq!(applier.chain().height, 0);
    assert_eq!(applier.chain().parent, parent);
    assert_eq!(applier.chain().total_txs, 0);
    assert_eq!(balance(applier.chain(), &alice), 1_000);
    assert_eq!(balance(applier.chain(), &bob), 1_000);
    assert_eq!(applier.chain().state_root(), root);

    // The right accounts, but another timestamp.
    let mut header = decode_header(&good);
    header.timestamp = 77;
    let mut block = encode_header(&header);
    block.extend_from_slice(&good[HEADER_BYTES..]);
    assert!(matches!(replay(&mut applier, 0, block), Err(EngineError::ParentMismatch)));
    assert_eq!(applier.chain().height, 0);
    assert_eq!(applier.chain().parent, parent);
    assert_eq!(applier.chain().state_root(), root);

    // The block as it was published still applies, and applies once.
    replay(&mut applier, 0, good.clone()).expect("replay");
    assert_eq!(balance(applier.chain(), &alice), 995);
    let (head, root) = (applier.chain().parent, applier.chain().state_root());
    assert!(matches!(
        replay(&mut applier, 0, good),
        Err(EngineError::HeightMismatch { chain: 1, got: 1 })
    ));
    assert_eq!(applier.chain().height, 1);
    assert_eq!(applier.chain().parent, head);
    assert_eq!(applier.chain().total_txs, 1);
    assert_eq!(applier.chain().state_root(), root);
}

#[test]
fn replica_with_too_little_at_genesis_rejects_the_transfer() {
    let alice = Actor::new(1);
    let bob = Actor::new(2);
    let block = first_block(&alice, &bob, vec![alice.transfer(&bob, 5, 0)]);
    let mut poor = genesis(&[&alice, &bob]);
    poor.accounts.insert(key(&alice.key), account(4, 0));
    let mut applier = BlockApplier::new(poor);
    assert!(matches!(replay(&mut applier, 0, block), Err(EngineError::InvalidTransfer)));
}

#[test]
fn headers_follow_the_chain() {
    let alice = Actor::new(1);
    let bob = Actor::new(2);
    let leader = PublicKey([3; 32]);
    let mut builder = BlockBuilder::new(genesis(&[&alice, &bob]), leader);
    let genesis_digest = hash(b"constantinople-coro-genesis");
    assert_eq!(builder.chain().parent, genesis_digest);

    let parent = parent_header(builder.chain(), leader);
    let context = proposal_context(&parent, leader);
    assert_eq!(parent.height, 0);
    assert_eq!(parent.context.parent, (0, genesis_digest));
    assert_eq!(parent.state_range, IndexRange { start: 0, end: 2 });
    assert_eq!(parent.transactions_range, IndexRange { start: 0, end: 1 });
    assert_eq!(parent.transactions_root, hash(b"coro-sequencer-parent"));

    // An empty block, then one with a transfer.
    let first = build(&mut builder, 0, Vec::new()).expect("block");
    let header = decode_header(&first.payload);
    assert_eq!(header.context, context);
    assert_eq!(header.transactions_root, hash(b""));
    assert_eq!(header.transactions_range, IndexRange { start: 0, end: 1 });
    assert_eq!(header.state_root, parent.state_root);

    let transfer = alice.transfer(&bob, 5, 0);
    let second = build(&mut builder, 1, vec![transfer.clone()]).expect("block");
    let header = decode_header(&second.payload);
    assert_eq!(header.height, 2);
    assert_eq!(header.timestamp, 2);
    assert_eq!(header.context.round, Round { epoch: 0, view: 2 });
    assert_eq!(header.context.leader, leader);
    assert_eq!(header.context.parent, (1, hash(&first.payload)));
    assert_eq!(header.parent, hash(&first.payload));
    assert_eq!(header.state_range, IndexRange { start: 0, end: 2 });
    assert_eq!(header.transactions_range, IndexRange { start: 0, end: 1 });
    assert_eq!(header.transactions_root, hash(&transfer.tx().message_digest.0));
    assert_eq!(header.state_root, second.metadata.state_root);
}

#[test]
fn state_root_hashes_sorted_accounts() {
    let entry = |bytes: &[u8], balance: u64| (key(bytes), account(balance, 0));
    let one = ChainState::genesis(vec![entry(b"b", 2), entry(b"ab", 3), entry(b"a", 1)]);
    let other = ChainState::genesis(vec![entry(b"a", 9), entry(b"ab", 3), entry(b"b", 2), entry(b"a", 1)]);
    assert_eq!(one.accounts.len(), 3);
    assert_eq!(one.state_root(), other.state_root());

    let mut bytes = Vec::new();
    for (name, balance) in [(&b"a"[..], 1), (&b"ab"[..], 3), (&b"b"[..], 2)] {
        bytes.extend_from_slice(name);
        bytes.extend_from_slice(account(balance, 0).encoded());
    }
    assert_eq!(one.state_root(), hash(&bytes));
    assert_eq!(ChainState::genesis(Vec::new()).state_root(), hash(b""));
}

#[test]
fn metadata_round_trip() {
    let meta = BlockMeta { height: 0x0102_0304_0506_0708, state_root: Digest([7; 32]), tx_count: 258 };
    let mut bytes = vec![0xee];
    meta.write(&mut bytes);
    assert_eq!(bytes.len(), 1 + BLOCK_META_SIZE);
    assert_eq!(bytes[1..9], [1, 2, 3, 4, 5, 6, 7, 8]);
    assert_eq!(bytes[9..41], [7; 32]);
    assert_eq!(bytes[41..], [0, 0, 0, 0, 0, 0, 1, 2]);
    bytes.push(0xff);

    let mut input = &bytes[1..];
    assert_eq!(BlockMeta::read_cfg(&mut input), Ok(meta));
    assert_eq!(input, [0xff]);

    let mut short = &bytes[1..48];
    assert_eq!(BlockMeta::read_cfg(&mut short), Err(MetaError::EndOfBuffer));
    assert_eq!(short.len(), 7);
    let mut empty: &[u8] = &[];
    assert_eq!(BlockMeta::read_cfg(&mut empty), Err(MetaError::EndOfBuffer));
}

#[test]
fn errors_have_their_messages() {
    let texts = [
        (coro_engine::chain::decode_error("bad".to_string()), "block decode failed: bad"),
        (
            EngineError::HeightMismatch { chain: 10, got: 1_205 },
            "block height 1205 does not extend chain height 10",
        ),
        (EngineError::ParentMismatch, "block parent does not match chain head"),
        (EngineError::MalformedTransaction, "block contains a malformed transaction"),
        (EngineError::InvalidTransfer, "block contains an inapplicable transfer"),
        (EngineError::StateRootMismatch, "re-executed state root does not match block header"),
    ];
    for (error, text) in texts {
        assert_eq!(error.to_text(), text);
    }
}

#[test]
fn simulated_node_keeps_base64() {
    let mut backend = backend();
    let mut node = SimulatedNode::new();
    let blob = publish(&mut backend, &mut node, b"payload");
    assert_eq!(blob.blob_ref.height, 7_000);
    assert_eq!(node.blobs[0].2, base64::engine::general_purpose::STANDARD.encode(b"payload"));
    assert_eq!(read(&backend, &mut node, &blob.blob_ref), b"payload");
}
