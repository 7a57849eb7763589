//! Which requests are taken, and how they are answered.
use vstd::prelude::*;

use crate::accounts::{Account, Nonce};
use crate::hash::Digest;
use crate::mempool::{
    AccountResponse, DecodedBatch, DecodedTransactions, Handler, Method, NonceResponse, Route,
    SizedTransaction, Status, TransactionSizes, VerifiedTransaction,
};

verus! {

/// A signed transaction takes at least two keys, two bytes for its integers and a
/// signature.
pub proof fn law_smallest_transactions(sizes: TransactionSizes)
    ensures
        crate::mempool::min_signed_size(sizes) == sizes.public_key + sizes.public_key + 1 + 1
            + sizes.min_signature,
{
}

/// Every transaction of a batch counts with its own size, and comes through in its place.
pub proof fn law_every_transaction_counts<T>(
    transactions: Seq<SizedTransaction<T>>,
    next: SizedTransaction<T>,
)
    ensures
        crate::mempool::total_size(Seq::<SizedTransaction<T>>::empty()) == 0,
        crate::mempool::total_size(transactions.push(next)) == crate::mempool::total_size(
            transactions,
        ) + next.size,
        crate::mempool::bare(Seq::<SizedTransaction<T>>::empty()) == Seq::<T>::empty(),
        crate::mempool::bare(transactions.push(next)) == crate::mempool::bare(transactions).push(
            next.transaction,
        ),
{
    assert(transactions.push(next).drop_last() =~= transactions);
}

/// A body is refused as too large where it is larger than a batch behind the longest
/// prefix may be, and as bad where not even one transaction fits behind the shortest one.
/// Otherwise it begins with a length, which is refused where it is no encoded length or
/// more transactions than fit, and taken off where it is not.
pub proof fn law_body_prefixes(body: Seq<u8>, max_batch_bytes: usize, sizes: TransactionSizes)
    requires
        body.len() <= usize::MAX,
    ensures
        ({
            let size = sizes.public_key + sizes.public_key + 1 + 1 + sizes.min_signature;
            let outcome = crate::mempool::body_prefix(body, max_batch_bytes, sizes);
            &&& body.len() > max_batch_bytes + 5 ==> outcome == Err::<(usize, usize), Status>(
                Status::PayloadTooLarge,
            )
            &&& body.len() <= max_batch_bytes + 5 && body.len() < 1 + size ==> outcome == Err::<
                (usize, usize),
                Status,
            >(Status::BadRequest)
            &&& outcome matches Ok((count, prefix)) ==> {
                &&& 1 <= count
                &&& 1 + count * size <= body.len()
                &&& body.len() <= max_batch_bytes + 5
                &&& 1 <= prefix <= 5
                &&& prefix <= body.len()
                &&& body.take(prefix as int) == crate::codec::varint_bytes(count as nat)
            }
            &&& outcome matches Err(status) ==> status == Status::BadRequest || body.len()
                > max_batch_bytes + 5
        }),
{
    let size = crate::mempool::min_signed_size(sizes);
    law_smallest_transactions(sizes);
    if body.len() <= max_batch_bytes + 5 && body.len() >= 1 + size {
        let payload = body.len() - 1;
        let max = payload / size;
        vstd::arithmetic::div_mod::lemma_fundamental_div_mod(payload, size);
        vstd::arithmetic::div_mod::lemma_mod_bound(payload, size);
        assert(0 <= max <= payload) by (nonlinear_arith)
            requires
                max == payload / size,
                size >= 1,
                payload >= 0,
        ;
        super::texts::law_length_prefixes(body, max as usize, 1, Seq::empty());
        if let Some((count, prefix)) = crate::codec::length_prefix_of(body, max as usize) {
            assert(count * size <= size * max) by (nonlinear_arith)
                requires
                    count <= max,
                    size >= 0,
            ;
        }
    }
}

/// A body whose transactions decode with nothing left behind them is taken where they are
/// no larger than the limit, with every transaction in order and their size; it is too
/// large where they are larger, and bad where something is left or one does not decode.
pub proof fn law_weighed_batches<T>(
    batch: Result<DecodedBatch<T>, Status>,
    decoded: Option<DecodedTransactions<T>>,
    max_batch_bytes: usize,
)
    requires
        crate::mempool::is_outcome(batch, crate::mempool::batch_outcome(decoded, max_batch_bytes)),
    ensures
        decoded is None ==> batch == Err::<DecodedBatch<T>, Status>(Status::BadRequest),
        decoded matches Some(decoded) ==> {
            let total = crate::mempool::total_size(decoded.transactions@);
            &&& decoded.left > 0 ==> batch == Err::<DecodedBatch<T>, Status>(Status::BadRequest)
            &&& decoded.left == 0 && total > max_batch_bytes ==> batch == Err::<
                DecodedBatch<T>,
                Status,
            >(Status::PayloadTooLarge)
            &&& decoded.left == 0 && total <= max_batch_bytes ==> {
                &&& batch is Ok
                &&& batch->Ok_0.total_bytes == total
                &&& batch->Ok_0.transactions@.len() == decoded.transactions@.len()
                &&& forall|i: int|
                    0 <= i < decoded.transactions@.len()
                        ==> #[trigger] batch->Ok_0.transactions@[i]
                        == decoded.transactions@[i].transaction
            }
        },
{
}

/// The digests of a batch are those of its transactions, in order.
pub proof fn law_digests_follow_transactions<V>(
    transactions: Seq<VerifiedTransaction<V>>,
    next: VerifiedTransaction<V>,
)
    ensures
        crate::mempool::message_digests(Seq::<VerifiedTransaction<V>>::empty()) == Seq::<
            Digest,
        >::empty(),
        crate::mempool::message_digests(transactions.push(next))
            == crate::mempool::message_digests(transactions).push(next.message_digest),
{
}

/// The texts in an answer read back as the digests, one each, in order, so that the answers
/// for different digests differ.
pub proof fn law_digest_texts_read_back(texts: Seq<String>, digests: Seq<Digest>)
    requires
        crate::mempool::digests_as_text(texts, digests),
    ensures
        texts.len() == digests.len(),
        forall|i: int|
            0 <= i < digests.len() ==> crate::hex::hex_bytes((#[trigger] texts[i])@) == Some(
                digests[i].0@,
            ),
        forall|i: int| 0 <= i < digests.len() ==> (#[trigger] texts[i])@.len() == 64,
        forall|other: Seq<Digest>| #[trigger]
            crate::mempool::digests_as_text(texts, other) ==> other == digests,
{
    assert forall|i: int| 0 <= i < digests.len() implies crate::hex::hex_bytes(
        (#[trigger] texts[i])@,
    ) == Some(digests[i].0@) && texts[i]@.len() == 64 by {
        crate::hex::lemma_hex_round_trip(digests[i].0@);
    }
    assert forall|other: Seq<Digest>| #[trigger]
        crate::mempool::digests_as_text(texts, other) implies other == digests by {
        assert forall|i: int| 0 <= i < digests.len() implies other[i] == digests[i] by {
            assert(texts[i]@ == crate::hex::hex_text(other[i].0@));
            super::texts::law_hex_text_tells_apart(other[i].0@, digests[i].0@);
            assert(other[i].0 =~= digests[i].0);
        }
        assert(other =~= digests);
    }
}

/// A key in a path is taken where it is hexadecimal text of the right number of bytes.
pub proof fn law_keys_in_paths(text: Seq<char>, key_size: usize, bytes: Seq<u8>)
    ensures
        crate::mempool::key_bytes(text, key_size) == Some(bytes) <==> {
            &&& crate::hex::hex_bytes(text) == Some(bytes)
            &&& bytes.len() == key_size
        },
        bytes.len() == key_size ==> crate::mempool::key_bytes(
            crate::hex::hex_text(bytes),
            key_size,
        ) == Some(bytes),
        bytes.len() != key_size ==> crate::mempool::key_bytes(
            crate::hex::hex_text(bytes),
            key_size,
        ) is None,
{
    crate::hex::lemma_hex_round_trip(bytes);
}

/// An account is answered with its own balance and nonces.
pub proof fn law_account_answers(account: Account, nonce: Nonce)
    ensures
        ({
            let answer: AccountResponse = vstd::std_specs::convert::FromSpec::from_spec(&account);
            &&& answer.balance == account@.balance
            &&& answer.nonce.base == account@.nonce.base
            &&& answer.nonce.bitmap == account@.nonce.bitmap
        }),
        ({
            let answer: NonceResponse = vstd::std_specs::convert::FromSpec::from_spec(nonce);
            answer.base == nonce.base && answer.bitmap == nonce.bitmap
        }),
{
}

/// The codes of the statuses.
pub proof fn law_status_codes()
    ensures
        crate::mempool::status_code(Status::Success) == 200,
        crate::mempool::status_code(Status::Accepted) == 202,
        crate::mempool::status_code(Status::BadRequest) == 400,
        crate::mempool::status_code(Status::NotFound) == 404,
        crate::mempool::status_code(Status::PayloadTooLarge) == 413,
        crate::mempool::status_code(Status::InternalServerError) == 500,
        crate::mempool::status_code(Status::ServiceUnavailable) == 503,
{
}

/// A route leads requests with its own path and method to its own handler, and no others.
pub proof fn law_routes_lead(route: Route, path: Seq<char>, method: Method, handler: Handler)
    ensures
        route.leads(route.path@, route.method, route.handler),
        route.leads(path, method, handler) ==> {
            &&& route.path@ == path
            &&& route.method == method
            &&& route.handler == handler
        },
{
}

} // verus!
