//! The rules of the mempool's HTTP interface: its routes, which request bodies it
//! takes, and how each outcome is answered.
use vstd::prelude::*;

use crate::accounts::{Account, Nonce};
use crate::codec::read_length;
use crate::hash::{sha256, Digest};
use crate::hex::from_hex;

verus! {

/// The most bytes that the prefix with a batch's length takes.
pub const MAX_BATCH_LENGTH_PREFIX_BYTES: usize = 5;

/// The fewest bytes that the prefix with a batch's length takes.
pub const MIN_BATCH_LENGTH_PREFIX_BYTES: usize = 1;

/// The fewest bytes that a variable-length integer takes.
pub const MIN_U64_VARINT_BYTES: usize = 1;

/// The status of a response.
#[derive(Clone, Copy, Debug, PartialEq, Eq, Structural)]
pub enum Status {
    Success,
    Accepted,
    BadRequest,
    NotFound,
    PayloadTooLarge,
    InternalServerError,
    ServiceUnavailable,
}

/// The HTTP code of a status.
pub open spec fn status_code(status: Status) -> u16 {
    match status {
        Status::Success => 200,
        Status::Accepted => 202,
        Status::BadRequest => 400,
        Status::NotFound => 404,
        Status::PayloadTooLarge => 413,
        Status::InternalServerError => 500,
        Status::ServiceUnavailable => 503,
    }
}

impl Status {
    /// The HTTP code.
    pub fn code(&self) -> (code: u16)
        ensures
            code == status_code(*self),
    {
        match self {
            Status::Success => 200,
            Status::Accepted => 202,
            Status::BadRequest => 400,
            Status::NotFound => 404,
            Status::PayloadTooLarge => 413,
            Status::InternalServerError => 500,
            Status::ServiceUnavailable => 503,
        }
    }
}

/// A response: its status, and what its body holds, if anything.
#[derive(Debug)]
pub struct Reply<T> {
    pub status: Status,
    pub body: Option<T>,
}

/// The sizes of the parts of a signed transaction that are not integers.
#[derive(Clone, Copy, Debug)]
pub struct TransactionSizes {
    /// The size of a public key.
    pub public_key: usize,
    /// The fewest bytes that a signature takes.
    pub min_signature: usize,
}

/// The fewest bytes that a signed transaction takes: two public keys, two
/// variable-length integers and a signature.
pub open spec fn min_signed_size(sizes: TransactionSizes) -> int {
    2 * sizes.public_key + 2 * MIN_U64_VARINT_BYTES + sizes.min_signature
}

/// The most bytes that a request with a batch of `max_batch_bytes` bytes takes.
pub fn max_request_bytes(max_batch_bytes: usize) -> (bytes: usize)
    ensures
        bytes == (if max_batch_bytes + MAX_BATCH_LENGTH_PREFIX_BYTES <= usize::MAX {
            max_batch_bytes + MAX_BATCH_LENGTH_PREFIX_BYTES
        } else {
            usize::MAX as int
        }),
{
    max_batch_bytes.saturating_add(MAX_BATCH_LENGTH_PREFIX_BYTES)
}

/// The fewest bytes that a signed transaction takes.
pub fn min_signed_transaction_bytes(sizes: TransactionSizes) -> (bytes: usize)
    requires
        min_signed_size(sizes) <= usize::MAX,
    ensures
        bytes == min_signed_size(sizes),
{
    sizes.public_key + sizes.public_key + MIN_U64_VARINT_BYTES + MIN_U64_VARINT_BYTES
        + sizes.min_signature
}

/// The most transactions that a body of that length can hold: as many of the
/// smallest size as fit behind the smallest length prefix. `None` where not even
/// one fits.
pub fn max_transaction_count(body_len: usize, sizes: TransactionSizes) -> (count: Option<usize>)
    requires
        min_signed_size(sizes) <= usize::MAX,
    ensures
        match count {
            Some(count) => {
                &&& count >= 1
                &&& MIN_BATCH_LENGTH_PREFIX_BYTES + count * min_signed_size(sizes) <= body_len
                &&& body_len < MIN_BATCH_LENGTH_PREFIX_BYTES + (count + 1) * min_signed_size(sizes)
            },
            None => body_len < MIN_BATCH_LENGTH_PREFIX_BYTES + min_signed_size(sizes),
        },
{
    let payload_len: usize = body_len.saturating_sub(MIN_BATCH_LENGTH_PREFIX_BYTES);
    let min: usize = min_signed_transaction_bytes(sizes);
    let max_transactions: usize = payload_len / min;
    proof {
        let p = payload_len as int;
        let m = min as int;
        let q = max_transactions as int;
        vstd::arithmetic::div_mod::lemma_fundamental_div_mod(p, m);
        vstd::arithmetic::div_mod::lemma_mod_bound(p, m);
        assert(max_transactions * min_signed_size(sizes) == m * q) by (nonlinear_arith)
            requires
                m == min_signed_size(sizes),
                q == max_transactions,
        ;
        assert((max_transactions + 1) * min_signed_size(sizes) == m * q + m) by (nonlinear_arith)
            requires
                m == min_signed_size(sizes),
                q == max_transactions,
        ;
    }
    if max_transactions > 0 {
        Some(max_transactions)
    } else {
        None
    }
}

/// A decoded transaction and the size of its encoding.
#[derive(Debug)]
pub struct SizedTransaction<T> {
    pub transaction: T,
    pub size: usize,
}

/// Transactions that were decoded from the front of an input, and how many bytes are
/// left behind them.
#[derive(Debug)]
pub struct DecodedTransactions<T> {
    pub transactions: Vec<SizedTransaction<T>>,
    pub left: usize,
}

/// The size of the encodings of all the transactions.
pub open spec fn total_size<T>(transactions: Seq<SizedTransaction<T>>) -> nat
    decreases transactions.len(),
{
    if transactions.len() == 0 {
        0
    } else {
        total_size(transactions.drop_last()) + transactions.last().size as nat
    }
}

/// The transactions without their sizes.
pub open spec fn bare<T>(transactions: Seq<SizedTransaction<T>>) -> Seq<T> {
    Seq::new(transactions.len(), |i: int| transactions[i].transaction)
}

/// The transactions of a request, before their signatures are verified.
#[derive(Debug)]
pub struct DecodedBatch<T> {
    pub transactions: Vec<T>,
    pub total_bytes: usize,
}

/// The length of the batch that a body starts with, and how many bytes it takes, or
/// the status with which the body is refused.
pub open spec fn body_prefix(
    body: Seq<u8>,
    max_batch_bytes: usize,
    sizes: TransactionSizes,
) -> Result<(usize, usize), Status> {
    let count = (body.len() - MIN_BATCH_LENGTH_PREFIX_BYTES) / min_signed_size(sizes);
    if body.len() > max_batch_bytes + MAX_BATCH_LENGTH_PREFIX_BYTES {
        Err(Status::PayloadTooLarge)
    } else if body.len() < MIN_BATCH_LENGTH_PREFIX_BYTES + min_signed_size(sizes) {
        Err(Status::BadRequest)
    } else {
        match crate::codec::length_prefix_of(body, count as usize) {
            Some(prefix) => Ok(prefix),
            None => Err(Status::BadRequest),
        }
    }
}

/// What a body whose transactions decode to `decoded` comes to. Nothing may be left
/// behind the transactions.
pub open spec fn batch_outcome<T>(
    decoded: Option<DecodedTransactions<T>>,
    max_batch_bytes: usize,
) -> Result<(Seq<T>, nat), Status> {
    match decoded {
        None => Err(Status::BadRequest),
        Some(decoded) => if decoded.left > 0 {
            Err(Status::BadRequest)
        } else if total_size(decoded.transactions@) > max_batch_bytes {
            Err(Status::PayloadTooLarge)
        } else {
            Ok((bare(decoded.transactions@), total_size(decoded.transactions@)))
        },
    }
}

/// The batch is the outcome.
pub open spec fn is_outcome<T>(
    batch: Result<DecodedBatch<T>, Status>,
    outcome: Result<(Seq<T>, nat), Status>,
) -> bool {
    match (batch, outcome) {
        (Ok(batch), Ok((transactions, total_bytes))) => {
            &&& batch.transactions@ == transactions
            &&& batch.total_bytes == total_bytes
        },
        (Err(status), Err(expected)) => status == expected,
        _ => false,
    }
}

/// Takes the length of a batch off the front of a body. Gives the length and what
/// stands behind it, or the status with which the body is refused.
pub fn split_prefix<'a>(body: &'a [u8], max_batch_bytes: usize, sizes: TransactionSizes) -> (split:
    Result<(usize, &'a [u8]), Status>)
    requires
        min_signed_size(sizes) <= usize::MAX,
    ensures
        match split {
            Ok((count, rest)) => body_prefix(body@, max_batch_bytes, sizes) matches Ok(prefix) && {
                &&& count == prefix.0
                &&& prefix.1 <= body@.len()
                &&& rest@ == body@.skip(prefix.1 as int)
                &&& 1 <= prefix.1 <= MAX_BATCH_LENGTH_PREFIX_BYTES
                &&& 1 <= count
                &&& count * min_signed_size(sizes) < body@.len()
            },
            Err(status) => body_prefix(body@, max_batch_bytes, sizes) == Err::<
                (usize, usize),
                Status,
            >(status),
        },
        body@.len() > 0 && body@[0] == 0 ==> split is Err,
{
    if body.len() > max_request_bytes(max_batch_bytes) {
        return Err(Status::PayloadTooLarge);
    }
    let max_transactions: usize = match max_transaction_count(body.len(), sizes) {
        Some(max_transactions) => max_transactions,
        None => {
            return Err(Status::BadRequest);
        },
    };
    proof {
        let p = body@.len() - MIN_BATCH_LENGTH_PREFIX_BYTES;
        let m = min_signed_size(sizes);
        let q = max_transactions as int;
        assert(m * q <= p && p < m * q + m && m <= p) by (nonlinear_arith)
            requires
                q * m <= p,
                p < (q + 1) * m,
                m >= 0,
                q >= 1,
        ;
        vstd::arithmetic::div_mod::lemma_fundamental_div_mod_converse(p, m, q, p - m * q);
    }
    let mut rest: &[u8] = body;
    proof {
        crate::codec::lemma_varint_bounds(body@, 0);
    }
    match read_length(&mut rest, max_transactions) {
        Some(count) => {
            assert(count * min_signed_size(sizes) <= max_transactions * min_signed_size(sizes))
                by (nonlinear_arith)
                requires
                    count <= max_transactions,
                    min_signed_size(sizes) >= 0,
            ;
            Ok((count, rest))
        },
        None => Err(Status::BadRequest),
    }
}

/// Weighs the transactions of a body that were decoded against the batch limit.
pub fn weigh_batch<T>(
    decoded: Option<DecodedTransactions<T>>,
    max_batch_bytes: usize,
) -> (batch: Result<DecodedBatch<T>, Status>)
    requires
        decoded matches Some(decoded) ==> total_size(decoded.transactions@) <= usize::MAX,
    ensures
        is_outcome(batch, batch_outcome(decoded, max_batch_bytes)),
{
    let decoded = match decoded {
        Some(decoded) => decoded,
        None => {
            return Err(Status::BadRequest);
        },
    };
    if decoded.left > 0 {
        return Err(Status::BadRequest);
    }
    let decoded = decoded.transactions;
    let mut transactions: Vec<T> = Vec::with_capacity(decoded.len());
    let mut total_bytes: usize = 0;
    let ghost all = decoded@;
    assert(all.take(0) =~= Seq::<SizedTransaction<T>>::empty());
    for sized in it: decoded
        invariant
            it.seq() == all,
            total_size(all) <= usize::MAX,
            total_bytes == total_size(all.take(it.index() as int)),
            transactions@ == bare(all).take(it.index() as int),
    {
        let ghost index = it.index() as int;
        proof {
            assert(all.take(index + 1).drop_last() =~= all.take(index));
            lemma_total_size_grows(all, index + 1);
        }
        total_bytes = total_bytes + sized.size;
        transactions.push(sized.transaction);
        assert(transactions@ =~= bare(all).take(index + 1));
    }
    assert(all.take(all.len() as int) =~= all);
    assert(bare(all).take(all.len() as int) =~= bare(all));
    if total_bytes > max_batch_bytes {
        return Err(Status::PayloadTooLarge);
    }
    Ok(DecodedBatch { transactions, total_bytes })
}

/// The first transactions are no larger than all of them.
proof fn lemma_total_size_grows<T>(transactions: Seq<SizedTransaction<T>>, count: int)
    requires
        0 <= count <= transactions.len(),
    ensures
        total_size(transactions.take(count)) <= total_size(transactions),
    decreases transactions.len() - count,
{
    if count < transactions.len() {
        lemma_total_size_grows(transactions, count + 1);
        assert(transactions.take(count + 1).drop_last() =~= transactions.take(count));
    } else {
        assert(transactions.take(count) =~= transactions);
    }
}

/// Decodes a request body: a batch of signed transactions behind its length.
///
/// `decode` decodes as many transactions as the length says, and gives none where
/// one of them does not decode. A body that is too large, that holds no transaction,
/// or that starts with no fitting length is refused before, and one with something
/// left behind its transactions after.
pub fn decode_body<T, D>(
    body: &[u8],
    max_batch_bytes: usize,
    sizes: TransactionSizes,
    decode: D,
) -> (batch: Result<DecodedBatch<T>, Status>) where
    D: FnOnce(&[u8], usize) -> Option<DecodedTransactions<T>>,

    requires
        min_signed_size(sizes) <= usize::MAX,
        forall|rest: &[u8], count: usize| call_requires(decode, (rest, count)),
        forall|rest: &[u8], count: usize, decoded: DecodedTransactions<T>|
            #[trigger] call_ensures(decode, (rest, count), Some(decoded)) ==> total_size(
                decoded.transactions@,
            ) <= usize::MAX,
    ensures
        match body_prefix(body@, max_batch_bytes, sizes) {
            Err(status) => batch == Err::<DecodedBatch<T>, Status>(status),
            Ok(prefix) => exists|rest: &[u8], decoded: Option<DecodedTransactions<T>>|
                {
                    &&& rest@ == body@.skip(prefix.1 as int)
                    &&& #[trigger] call_ensures(decode, (rest, prefix.0), decoded)
                    &&& is_outcome(batch, batch_outcome(decoded, max_batch_bytes))
                },
        },
{
    match split_prefix(body, max_batch_bytes, sizes) {
        Ok((count, rest)) => {
            let decoded = decode(rest, count);
            let ghost outcome = decoded;
            assert(call_ensures(decode, (rest, count), outcome));
            weigh_batch(decoded, max_batch_bytes)
        },
        Err(status) => Err(status),
    }
}

/// A transaction whose signature is valid.
#[derive(Debug)]
pub struct VerifiedTransaction<V> {
    pub transaction: V,
    pub message_digest: Digest,
}

/// A batch that is ready for the pool.
#[derive(Debug)]
pub struct VerifiedBatch<V> {
    pub transactions: Vec<VerifiedTransaction<V>>,
    pub digests: Vec<Digest>,
    pub total_bytes: usize,
}

/// What verifying a batch came to.
#[derive(Debug)]
pub enum Verdict<V> {
    /// The verification did not finish.
    Lost,
    /// Some signature is not valid.
    Invalid,
    /// Every signature is valid.
    Valid(Vec<VerifiedTransaction<V>>),
}

/// The message digests of the transactions.
pub open spec fn message_digests<V>(transactions: Seq<VerifiedTransaction<V>>) -> Seq<Digest> {
    Seq::new(transactions.len(), |i: int| transactions[i].message_digest)
}

/// The batch that is ready for the pool, or the status with which it is refused.
pub fn verified_batch<V>(verdict: Verdict<V>, total_bytes: usize) -> (batch: Result<
    VerifiedBatch<V>,
    Status,
>)
    ensures
        match verdict {
            Verdict::Lost => batch == Err::<VerifiedBatch<V>, Status>(Status::InternalServerError),
            Verdict::Invalid => batch == Err::<VerifiedBatch<V>, Status>(Status::BadRequest),
            Verdict::Valid(transactions) => {
                &&& batch is Ok
                &&& batch->Ok_0.transactions == transactions
                &&& batch->Ok_0.digests@ == message_digests(transactions@)
                &&& batch->Ok_0.digests@.len() == transactions@.len()
                &&& forall|i: int|
                    0 <= i < transactions@.len() ==> #[trigger] batch->Ok_0.digests@[i]
                        == transactions@[i].message_digest
                &&& batch->Ok_0.total_bytes == total_bytes
            },
        },
{
    let transactions = match verdict {
        Verdict::Lost => {
            return Err(Status::InternalServerError);
        },
        Verdict::Invalid => {
            return Err(Status::BadRequest);
        },
        Verdict::Valid(transactions) => transactions,
    };
    let mut digests: Vec<Digest> = Vec::with_capacity(transactions.len());
    let mut i: usize = 0;
    while i < transactions.len()
        invariant
            i <= transactions@.len(),
            digests@ == message_digests(transactions@).take(i as int),
        decreases transactions@.len() - i,
    {
        digests.push(transactions[i].message_digest);
        i = i + 1;
        assert(digests@ =~= message_digests(transactions@).take(i as int));
    }
    assert(digests@ =~= message_digests(transactions@));
    Ok(VerifiedBatch { transactions, digests, total_bytes })
}

/// The name that a batch is known by: the digest of its request body, as text.
pub fn batch_id(body: &[u8]) -> (id: String)
    ensures
        id@ == crate::hex::hex_text(crate::hash::digest_of(body@).0@),
        id@.len() == 64,
        crate::hex::hex_bytes(id@) == Some(crate::hash::sha256_of(body@)@),
{
    sha256(body).to_text()
}

/// What submitting a request came to.
#[derive(Debug)]
pub enum Submission<S> {
    /// The body was refused.
    Refused(Status),
    /// The pool has no room.
    PoolFull,
    /// The pool never told what became of the batch.
    Lost,
    /// What became of the batch.
    Resolved(S),
}

/// Answers a request that waits until its batch is finalized or dropped.
pub fn submit_reply<S>(submission: Submission<S>) -> (reply: Reply<S>)
    ensures
        reply == (match submission {
            Submission::Refused(status) => Reply { status, body: None },
            Submission::PoolFull => Reply { status: Status::ServiceUnavailable, body: None },
            Submission::Lost => Reply { status: Status::InternalServerError, body: None },
            Submission::Resolved(outcome) => Reply { status: Status::Success, body: Some(outcome) },
        }),
{
    match submission {
        Submission::Refused(status) => Reply { status, body: None },
        Submission::PoolFull => Reply { status: Status::ServiceUnavailable, body: None },
        Submission::Lost => Reply { status: Status::InternalServerError, body: None },
        Submission::Resolved(outcome) => Reply { status: Status::Success, body: Some(outcome) },
    }
}

/// What the pool did with a batch that it was handed.
#[derive(Clone, Copy, Debug, PartialEq, Eq, Structural)]
pub enum IngestStatus {
    Accepted,
    Dropped,
}

/// The digests of the transactions that were taken in, as text.
#[derive(Debug)]
pub struct IngestResponse {
    pub digests: Vec<String>,
}

/// The texts are those of the digests.
pub open spec fn digests_as_text(texts: Seq<String>, digests: Seq<Digest>) -> bool {
    &&& texts.len() == digests.len()
    &&& forall|i: int|
        0 <= i < texts.len() ==> (#[trigger] texts[i])@ == crate::hex::hex_text(digests[i].0@)
}

/// Answers a request that does not wait for its batch.
pub fn ingest_reply(ingestion: Submission<IngestStatus>, digests: &[Digest]) -> (reply: Reply<
    IngestResponse,
>)
    ensures
        match ingestion {
            Submission::Refused(status) => reply == (Reply::<IngestResponse> {
                status,
                body: None,
            }),
            Submission::PoolFull | Submission::Resolved(IngestStatus::Dropped) => reply == (
            Reply::<IngestResponse> { status: Status::ServiceUnavailable, body: None }),
            Submission::Lost => reply == (Reply::<IngestResponse> {
                status: Status::InternalServerError,
                body: None,
            }),
            Submission::Resolved(IngestStatus::Accepted) => {
                &&& reply.status == Status::Accepted
                &&& reply.body is Some
                &&& digests_as_text(reply.body->0.digests@, digests@)
                &&& reply.body->0.digests@.len() == digests@.len()
                &&& forall|i: int|
                    0 <= i < digests@.len() ==> crate::hex::hex_bytes(
                        (#[trigger] reply.body->0.digests@[i])@,
                    ) == Some(digests@[i].0@)
            },
        },
{
    match ingestion {
        Submission::Refused(status) => Reply { status, body: None },
        Submission::PoolFull => Reply { status: Status::ServiceUnavailable, body: None },
        Submission::Lost => Reply { status: Status::InternalServerError, body: None },
        Submission::Resolved(status) => match status {
            IngestStatus::Dropped => Reply { status: Status::ServiceUnavailable, body: None },
            IngestStatus::Accepted => {
                let mut texts: Vec<String> = Vec::with_capacity(digests.len());
                let mut i: usize = 0;
                while i < digests.len()
                    invariant
                        i <= digests@.len(),
                        digests_as_text(texts@, digests@.take(i as int)),
                        texts@.len() == i,
                        forall|j: int|
                            0 <= j < i ==> crate::hex::hex_bytes((#[trigger] texts@[j])@) == Some(
                                digests@[j].0@,
                            ),
                    decreases digests@.len() - i,
                {
                    texts.push(digests[i].to_text());
                    i = i + 1;
                }
                assert(digests@.take(digests@.len() as int) =~= digests@);
                Reply { status: Status::Accepted, body: Some(IngestResponse { digests: texts }) }
            },
        },
    }
}

/// Answers a request for the status of a batch.
pub fn status_reply<S>(status: Option<S>) -> (reply: Reply<S>)
    ensures
        reply == (match status {
            Some(status) => Reply { status: Status::Success, body: Some(status) },
            None => Reply { status: Status::NotFound, body: None },
        }),
{
    match status {
        Some(status) => Reply { status: Status::Success, body: Some(status) },
        None => Reply { status: Status::NotFound, body: None },
    }
}

/// The latest consensus round.
#[derive(Clone, Copy, Debug, PartialEq, Eq, Structural)]
pub struct ConsensusRoundResponse {
    pub round: u64,
}

/// Answers a request for the consensus round.
pub fn round_reply(round: Option<u64>) -> (reply: Reply<ConsensusRoundResponse>)
    ensures
        reply == (match round {
            Some(round) => Reply {
                status: Status::Success,
                body: Some(ConsensusRoundResponse { round }),
            },
            None => Reply { status: Status::ServiceUnavailable, body: None },
        }),
{
    match round {
        Some(round) => Reply {
            status: Status::Success,
            body: Some(ConsensusRoundResponse { round }),
        },
        None => Reply { status: Status::ServiceUnavailable, body: None },
    }
}

/// The bytes of the public key in the path of an account request, where they have
/// the right number.
pub open spec fn key_bytes(text: Seq<char>, key_size: usize) -> Option<Seq<u8>> {
    match crate::hex::hex_bytes(text) {
        Some(bytes) => if bytes.len() == key_size {
            Some(bytes)
        } else {
            None
        },
        None => None,
    }
}

/// Reads the public key in the path of an account request. `decode` decodes a key
/// of the right size. The key is refused where it is no hexadecimal text, where its
/// size is another, and where it does not decode.
pub fn parse_public_key<K, D>(text: &str, key_size: usize, decode: D) -> (key: Result<
    K,
    Status,
>) where D: FnOnce(&[u8]) -> Option<K>
    requires
        forall|bytes: &[u8]| bytes@.len() == key_size ==> #[trigger] call_requires(decode, (bytes,)),
    ensures
        match key_bytes(text@, key_size) {
            None => key == Err::<K, Status>(Status::BadRequest),
            Some(expected) => exists|bytes: &[u8], decoded: Option<K>|
                {
                    &&& bytes@ == expected
                    &&& #[trigger] call_ensures(decode, (bytes,), decoded)
                    &&& key == (match decoded {
                        Some(key) => Ok::<K, Status>(key),
                        None => Err(Status::BadRequest),
                    })
                },
        },
{
    let bytes = match from_hex(text) {
        Some(bytes) => bytes,
        None => {
            return Err(Status::BadRequest);
        },
    };
    if bytes.len() != key_size {
        return Err(Status::BadRequest);
    }
    let slice = bytes.as_slice();
    let decoded = decode(slice);
    let ghost outcome = decoded;
    assert(call_ensures(decode, (slice,), outcome));
    match decoded {
        Some(key) => Ok(key),
        None => Err(Status::BadRequest),
    }
}

/// Reads the key of an account request for which the account state may not be
/// attached yet. A key that is refused is refused first.
pub fn account_request<K, D>(text: &str, key_size: usize, decode: D, attached: bool) -> (key:
    Result<K, Status>) where D: FnOnce(&[u8]) -> Option<K>
    requires
        forall|bytes: &[u8]| bytes@.len() == key_size ==> #[trigger] call_requires(decode, (bytes,)),
    ensures
        match key_bytes(text@, key_size) {
            None => key == Err::<K, Status>(Status::BadRequest),
            Some(expected) => exists|bytes: &[u8], decoded: Option<K>|
                {
                    &&& bytes@ == expected
                    &&& #[trigger] call_ensures(decode, (bytes,), decoded)
                    &&& key == (match decoded {
                        Some(key) => if attached {
                            Ok::<K, Status>(key)
                        } else {
                            Err(Status::ServiceUnavailable)
                        },
                        None => Err(Status::BadRequest),
                    })
                },
        },
{
    match parse_public_key(text, key_size, decode) {
        Ok(key) => if attached {
            Ok(key)
        } else {
            Err(Status::ServiceUnavailable)
        },
        Err(status) => Err(status),
    }
}

/// The nonces of an account, as an account response gives them.
#[derive(Clone, Copy, Debug, PartialEq, Eq, Structural)]
pub struct NonceResponse {
    pub base: u64,
    pub bitmap: u64,
}

/// An account, as an account response gives it.
#[derive(Clone, Copy, Debug, PartialEq, Eq, Structural)]
pub struct AccountResponse {
    pub balance: u64,
    pub nonce: NonceResponse,
}

impl From<Nonce> for NonceResponse {
    fn from(nonce: Nonce) -> (response: Self) {
        NonceResponse { base: nonce.base, bitmap: nonce.bitmap }
    }
}

impl vstd::std_specs::convert::FromSpecImpl<Nonce> for NonceResponse {
    open spec fn obeys_from_spec() -> bool {
        true
    }

    open spec fn from_spec(nonce: Nonce) -> Self {
        NonceResponse { base: nonce.base, bitmap: nonce.bitmap }
    }
}

impl<'a> From<&'a Account> for AccountResponse {
    fn from(account: &'a Account) -> (response: Self) {
        AccountResponse { balance: account.balance(), nonce: NonceResponse::from(account.nonce()) }
    }
}

impl<'a> vstd::std_specs::convert::FromSpecImpl<&'a Account> for AccountResponse {
    open spec fn obeys_from_spec() -> bool {
        true
    }

    open spec fn from_spec(account: &'a Account) -> Self {
        AccountResponse {
            balance: account@.balance,
            nonce: NonceResponse { base: account@.nonce.base, bitmap: account@.nonce.bitmap },
        }
    }
}

/// Answers an account request whose key was read.
pub fn account_reply(account: Option<&Account>) -> (reply: Reply<AccountResponse>)
    ensures
        reply == (match account {
            Some(account) => Reply {
                status: Status::Success,
                body: Some(
                    AccountResponse {
                        balance: account@.balance,
                        nonce: NonceResponse {
                            base: account@.nonce.base,
                            bitmap: account@.nonce.bitmap,
                        },
                    },
                ),
            },
            None => Reply { status: Status::NotFound, body: None },
        }),
{
    match account {
        Some(account) => Reply {
            status: Status::Success,
            body: Some(AccountResponse::from(account)),
        },
        None => Reply { status: Status::NotFound, body: None },
    }
}

/// The method of a request.
#[derive(Clone, Copy, Debug, PartialEq, Eq, Structural)]
pub enum Method {
    Get,
    Post,
}

/// What serves a request.
#[derive(Clone, Copy, Debug, PartialEq, Eq, Structural)]
pub enum Handler {
    SubmitBatch,
    IngestBatch,
    FetchStatus,
    FetchAccount,
    FetchConsensusRound,
}

/// One route: requests with that method and a path of that form go to the handler.
#[derive(Clone, Copy, Debug)]
pub struct Route {
    pub path: &'static str,
    pub method: Method,
    pub handler: Handler,
}

/// Which other origins may send requests.
#[derive(Clone, Copy, Debug, PartialEq, Eq, Structural)]
pub enum Origins {
    Any,
}

/// A header that other origins may send.
#[derive(Clone, Copy, Debug, PartialEq, Eq, Structural)]
pub enum RequestHeader {
    ContentType,
}

/// What other origins may do.
#[derive(Debug)]
pub struct CrossOrigin {
    pub origins: Origins,
    pub methods: Vec<Method>,
    pub headers: Vec<RequestHeader>,
}

/// What a server routes, which body it takes at most where that is limited, and
/// what other origins may do.
#[derive(Debug)]
pub struct Routes {
    pub routes: Vec<Route>,
    pub max_body_bytes: Option<usize>,
    pub cross_origin: CrossOrigin,
}

/// Lets any origin use the methods, with a content type.
fn any_origin(methods: Vec<Method>) -> (cross_origin: CrossOrigin)
    ensures
        cross_origin.origins == Origins::Any,
        cross_origin.methods == methods,
        cross_origin.headers@ == seq![RequestHeader::ContentType],
{
    let mut headers: Vec<RequestHeader> = Vec::new();
    headers.push(RequestHeader::ContentType);
    assert(headers@ =~= seq![RequestHeader::ContentType]);
    CrossOrigin { origins: Origins::Any, methods, headers }
}

impl Route {
    /// The route has that path, method and handler.
    pub open spec fn leads(self, path: Seq<char>, method: Method, handler: Handler) -> bool {
        self.path@ == path && self.method == method && self.handler == handler
    }
}

/// The routes of the mempool's interface.
pub fn router(max_batch_bytes: usize) -> (routes: Routes)
    ensures
        routes.routes@.len() == 5,
        routes.routes@[0].leads("/transactions"@, Method::Post, Handler::SubmitBatch),
        routes.routes@[1].leads("/transactions/ingest"@, Method::Post, Handler::IngestBatch),
        routes.routes@[2].leads("/transactions/{batch_id}"@, Method::Get, Handler::FetchStatus),
        routes.routes@[3].leads("/account/{public_key}"@, Method::Get, Handler::FetchAccount),
        routes.routes@[4].leads("/consensus/round"@, Method::Get, Handler::FetchConsensusRound),
        routes.max_body_bytes is Some,
        routes.max_body_bytes->0 == (if max_batch_bytes + MAX_BATCH_LENGTH_PREFIX_BYTES
            <= usize::MAX {
            max_batch_bytes + MAX_BATCH_LENGTH_PREFIX_BYTES
        } else {
            usize::MAX as int
        }),
        routes.cross_origin.origins == Origins::Any,
        routes.cross_origin.methods@ == seq![Method::Get, Method::Post],
        routes.cross_origin.headers@ == seq![RequestHeader::ContentType],
{
    let mut routes: Vec<Route> = Vec::new();
    routes.push(
        Route { path: "/transactions", method: Method::Post, handler: Handler::SubmitBatch },
    );
    routes.push(
        Route { path: "/transactions/ingest", method: Method::Post, handler: Handler::IngestBatch },
    );
    routes.push(
        Route {
            path: "/transactions/{batch_id}",
            method: Method::Get,
            handler: Handler::FetchStatus,
        },
    );
    routes.push(
        Route { path: "/account/{public_key}", method: Method::Get, handler: Handler::FetchAccount },
    );
    routes.push(
        Route {
            path: "/consensus/round",
            method: Method::Get,
            handler: Handler::FetchConsensusRound,
        },
    );
    let mut methods: Vec<Method> = Vec::new();
    methods.push(Method::Get);
    methods.push(Method::Post);
    assert(methods@ =~= seq![Method::Get, Method::Post]);
    Routes {
        routes,
        max_body_bytes: Some(max_request_bytes(max_batch_bytes)),
        cross_origin: any_origin(methods),
    }
}

/// The routes of a replica: account and round lookups, and no way to submit a
/// transaction.
pub fn read_only_router() -> (routes: Routes)
    ensures
        routes.routes@.len() == 2,
        routes.routes@[0].leads("/account/{public_key}"@, Method::Get, Handler::FetchAccount),
        routes.routes@[1].leads("/consensus/round"@, Method::Get, Handler::FetchConsensusRound),
        routes.max_body_bytes is None,
        routes.cross_origin.origins == Origins::Any,
        routes.cross_origin.methods@ == seq![Method::Get],
        routes.cross_origin.headers@ == seq![RequestHeader::ContentType],
        forall|i: int|
            0 <= i < routes.routes@.len() ==> (#[trigger] routes.routes@[i]).method == Method::Get,
{
    let mut routes: Vec<Route> = Vec::new();
    routes.push(
        Route { path: "/account/{public_key}", method: Method::Get, handler: Handler::FetchAccount },
    );
    routes.push(
        Route {
            path: "/consensus/round",
            method: Method::Get,
            handler: Handler::FetchConsensusRound,
        },
    );
    let mut methods: Vec<Method> = Vec::new();
    methods.push(Method::Get);
    assert(methods@ =~= seq![Method::Get]);
    Routes { routes, max_body_bytes: None, cross_origin: any_origin(methods) }
}

} // verus!
