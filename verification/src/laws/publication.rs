//! What is asked of the data-availability layer, and what becomes of its answers.
use vstd::prelude::*;

use crate::backend::{
    BlobCommitment, BlobRef, DaError, DaErrorView, GasConfig, NamespaceId, NodeRpcBackend, RpcReply,
    RpcRequest,
};

verus! {

/// A read is asked for with the height, the namespace and the commitment, in this order:
/// the height as its numeral, the other two as JSON strings of their Base64 text.
pub proof fn law_read_parameters(blob_ref: BlobRef)
    ensures
        crate::backend::get_params(blob_ref) == seq!['['] + crate::text::decimal(
            blob_ref.height as nat,
        ) + seq![','] + crate::json::json_quoted(
            crate::blob::base64_encoded(blob_ref.namespace.0@),
        ) + seq![','] + crate::json::json_quoted(
            crate::blob::base64_encoded(blob_ref.commitment.0@),
        ) + seq![']'],
{
    let height = crate::text::decimal(blob_ref.height as nat);
    let namespace = crate::json::json_quoted(crate::blob::base64_encoded(blob_ref.namespace.0@));
    let commitment = crate::json::json_quoted(
        crate::blob::base64_encoded(blob_ref.commitment.0@),
    );
    super::texts::law_commas_separate(seq![height], namespace);
    super::texts::law_commas_separate(seq![height, namespace], commitment);
    super::texts::law_commas_separate(Seq::empty(), height);
    assert(seq![height].push(namespace) =~= seq![height, namespace]);
    assert(seq![height, namespace].push(commitment) =~= seq![height, namespace, commitment]);
    assert(crate::backend::get_params(blob_ref) =~= seq!['['] + height + seq![','] + namespace
        + seq![','] + commitment + seq![']']);
}

/// A parameter that carries bytes is a JSON string whose Base64 text decodes to them, and
/// carries no others: requests for different commitments differ in the parameter that
/// carries the commitment.
pub proof fn law_parameters_carry_their_bytes(text: Seq<char>, one: Seq<u8>, other: Seq<u8>)
    ensures
        crate::backend::carries_bytes(text, one) <==> exists|string: Seq<char>|
            {
                &&& crate::json::json_string_of(text) == Some(string)
                &&& #[trigger] crate::blob::base64_decoded(string) == Ok::<Seq<u8>, Seq<char>>(one)
            },
        crate::backend::carries_bytes(text, one) && crate::backend::carries_bytes(text, other)
            ==> one == other,
{
    if crate::backend::carries_bytes(text, one) {
        let string = crate::json::json_string_of(text)->0;
        assert(crate::blob::base64_decoded(string) == Ok::<Seq<u8>, Seq<char>>(one));
    }
}

/// The body of a read holds its three parameters, between brackets and with commas.
pub proof fn law_read_bodies(
    body: Seq<char>,
    height: Seq<char>,
    namespace: Seq<char>,
    commitment: Seq<char>,
)
    ensures
        crate::backend::asks(body, seq![height, namespace, commitment]) <==> body
            == crate::backend::request_text(
            "blob.Get"@,
            seq!['['] + height + seq![','] + namespace + seq![','] + commitment + seq![']'],
        ),
{
    super::texts::law_commas_separate(seq![height], namespace);
    super::texts::law_commas_separate(seq![height, namespace], commitment);
    super::texts::law_commas_separate(Seq::empty(), height);
    assert(seq![height].push(namespace) =~= seq![height, namespace]);
    assert(seq![height, namespace].push(commitment) =~= seq![height, namespace, commitment]);
    assert(crate::json::array_text(seq![height, namespace, commitment]) =~= seq!['['] + height
        + seq![','] + namespace + seq![','] + commitment + seq![']']);
}

/// The blob of a submission has the namespace and the payload, each as a JSON string of
/// its Base64 text, and the share version zero, and nothing else.
pub proof fn law_submitted_blobs(namespace: NamespaceId, payload: Seq<u8>)
    ensures
        ({
            let blob = crate::backend::blob_members(namespace, payload);
            &&& forall|key: Seq<char>| #[trigger]
                blob.contains_key(key) <==> key == "namespace"@ || key == "data"@ || key
                    == "share_version"@
            &&& blob["namespace"@] == crate::json::json_quoted(
                crate::blob::base64_encoded(namespace.0@),
            )
            &&& blob["data"@] == crate::json::json_quoted(crate::blob::base64_encoded(payload))
            &&& blob["share_version"@] == seq!['0']
        }),
{
    reveal_strlit("namespace");
    reveal_strlit("data");
    reveal_strlit("share_version");
    assert("data"@.len() == 4 && "namespace"@.len() == 9 && "share_version"@.len() == 13);
    super::texts::law_numerals_stand_for_their_number(0);
}

/// The gas options of a submission: the limit where it is set, as its numeral, and the
/// price where it is set, with a mark that it is, and nothing else.
pub proof fn law_submitted_options(gas: GasConfig)
    ensures
        ({
            let options = crate::backend::option_members(gas);
            &&& forall|key: Seq<char>| #[trigger]
                options.contains_key(key) <==> {
                    ||| key == "gas"@ && gas.gas is Some
                    ||| (key == "gas_price"@ || key == "is_gas_price_set"@) && gas.gas_price is Some
                }
            &&& gas.gas matches Some(limit) ==> options["gas"@] == crate::text::decimal(
                limit as nat,
            )
            &&& gas.gas_price matches Some(price) ==> {
                &&& options["gas_price"@] == price@
                &&& options["is_gas_price_set"@] == "true"@
            }
        }),
{
    reveal_strlit("gas");
    reveal_strlit("gas_price");
    reveal_strlit("is_gas_price_set");
    assert("gas"@.len() == 3 && "gas_price"@.len() == 9 && "is_gas_price_set"@.len() == 16);
}

proof fn lemma_submission_text(blob: Seq<char>, options: Seq<char>)
    ensures
        crate::json::array_text(seq![crate::json::array_text(seq![blob]), options]) == seq!['[', '[']
            + blob + seq![']', ','] + options + seq![']'],
{
    let list = crate::json::array_text(seq![blob]);
    super::texts::law_commas_separate(Seq::empty(), blob);
    super::texts::law_commas_separate(Seq::empty(), list);
    super::texts::law_commas_separate(seq![list], options);
    assert(seq![list].push(options) =~= seq![list, options]);
    assert(crate::json::array_text(seq![list, options]) =~= seq!['[', '['] + blob + seq![']', ',']
        + options + seq![']']);
}

/// A submission is asked for with a list of the one blob, and the gas options behind it.
pub proof fn law_submission_parameters(namespace: NamespaceId, payload: Seq<u8>, gas: GasConfig)
    ensures
        crate::backend::submit_params(namespace, payload, gas) == seq!['[', '[']
            + crate::json::object_text(crate::backend::blob_members(namespace, payload))
            + seq![']', ','] + crate::json::object_text(crate::backend::option_members(gas))
            + seq![']'],
        forall|
            body: Seq<char>,
            blob: Map<Seq<char>, Seq<char>>,
            options: Map<Seq<char>, Seq<char>>,
        | #[trigger]
            crate::backend::submits(body, blob, options) <==> body == crate::backend::request_text(
                "blob.Submit"@,
                seq!['[', '['] + crate::json::object_text(blob) + seq![']', ',']
                    + crate::json::object_text(options) + seq![']'],
            ),
{
    lemma_submission_text(
        crate::json::object_text(crate::backend::blob_members(namespace, payload)),
        crate::json::object_text(crate::backend::option_members(gas)),
    );
    assert forall|
        body: Seq<char>,
        blob: Map<Seq<char>, Seq<char>>,
        options: Map<Seq<char>, Seq<char>>,
    | #[trigger]
        crate::backend::submits(body, blob, options) <==> body == crate::backend::request_text(
            "blob.Submit"@,
            seq!['[', '['] + crate::json::object_text(blob) + seq![']', ',']
                + crate::json::object_text(options) + seq![']'],
        ) by {
        lemma_submission_text(crate::json::object_text(blob), crate::json::object_text(options));
    }
}

/// A request goes to the configured address, is authorized with the configured token if
/// there is one, and names the method and its parameters.
pub proof fn law_calls_reach_the_node(
    backend: NodeRpcBackend,
    request: RpcRequest,
    method: Seq<char>,
    params: Seq<char>,
)
    requires
        backend.calls(request, method, params),
    ensures
        request.url@ == backend.url@,
        backend.auth_token is None ==> request.bearer is None,
        backend.auth_token matches Some(token) ==> request.bearer is Some && request.bearer->0@
            == token@,
        request.body@ == seq!['{'] + crate::json::comma_separated(
            seq![
                crate::json::json_quoted("id"@) + seq![':'] + seq!['1'],
                crate::json::json_quoted("jsonrpc"@) + seq![':'] + crate::json::json_quoted("2.0"@),
                crate::json::json_quoted("method"@) + seq![':'] + crate::json::json_quoted(method),
                crate::json::json_quoted("params"@) + seq![':'] + params,
            ],
        ) + seq!['}'],
{
    super::law_requests_are_documents(method, params);
    assert(crate::text::decimal(1) =~= seq!['1']);
}

/// A completed submission is tracked under the hash of a fixed text, the height in eight
/// bytes and the commitment, one after the other.
pub proof fn law_submission_hashes(height: u64, commitment: BlobCommitment)
    ensures
        crate::backend::submission_hash(height, commitment).0 == crate::hash::sha256_of(
            vstd::utf8::encode_utf8("coro-engine.node-rpc.v1"@) + crate::codec::be_bytes(height)
                + commitment.0@,
        ),
{
}

/// Submissions at different heights, or of different blobs, are tracked under hashes of
/// different bytes.
pub proof fn law_submissions_are_told_apart(
    text: Seq<u8>,
    height: u64,
    commitment: BlobCommitment,
    other_height: u64,
    other_commitment: BlobCommitment,
)
    requires
        text + crate::codec::be_bytes(height) + commitment.0@ == text + crate::codec::be_bytes(
            other_height,
        ) + other_commitment.0@,
    ensures
        height == other_height,
        commitment == other_commitment,
{
    let one = text + crate::codec::be_bytes(height) + commitment.0@;
    let other = text + crate::codec::be_bytes(other_height) + other_commitment.0@;
    let start = text.len() as int;
    assert(one.subrange(start, start + 8) =~= crate::codec::be_bytes(height));
    assert(other.subrange(start, start + 8) =~= crate::codec::be_bytes(other_height));
    assert(one.skip(start + 8) =~= commitment.0@);
    assert(other.skip(start + 8) =~= other_commitment.0@);
    crate::codec::lemma_be_round_trip(height);
    crate::codec::lemma_be_round_trip(other_height);
    assert(commitment.0 =~= other_commitment.0);
}

/// Commitments are equal where every byte is.
pub proof fn law_commitments_are_told_apart(one: BlobCommitment, other: BlobCommitment)
    ensures
        vstd::std_specs::cmp::PartialEqSpec::eq_spec(&one, &other) <==> forall|i: int|
            0 <= i < 32 ==> #[trigger] one.0[i] == other.0[i],
{
    if forall|i: int| 0 <= i < 32 ==> #[trigger] one.0[i] == other.0[i] {
        assert(one.0 =~= other.0);
    }
}

/// A call without an answer fails with the reason, and so does one whose answer cannot be
/// read or is no JSON.
pub proof fn law_lost_calls_fail(method: Seq<char>, detail: String, body: Vec<u8>)
    ensures
        crate::backend::call_outcome(method, RpcReply::Unsent(detail)) == Err::<
            Seq<char>,
            Seq<char>,
        >(method + " request failed: "@ + detail@),
        crate::backend::call_outcome(method, RpcReply::Unread(detail)) == Err::<
            Seq<char>,
            Seq<char>,
        >(method + " response decode failed: "@ + detail@),
        crate::json::json_document_of(body@) is None ==> crate::backend::call_outcome(
            method,
            RpcReply::Body(body),
        ) == Err::<Seq<char>, Seq<char>>(
            method + " response decode failed: "@ + "error decoding response body"@,
        ),
{
}

/// The answer is a JSON document.
pub open spec fn answers_with(reply: RpcReply, document: Seq<char>) -> bool {
    reply matches RpcReply::Body(body) && crate::json::json_document_of(body@) == Some(document)
}

/// An answered call fails where the answer has an error, with its message if that is a
/// string; otherwise it comes to the answer's result, and fails where there is none.
pub proof fn law_answered_calls(method: Seq<char>, reply: RpcReply, document: Seq<char>)
    requires
        answers_with(reply, document),
    ensures
        match crate::json::json_member_of(document, "error"@) {
            Some(error) => {
                let told = match crate::json::json_member_of(error, "message"@) {
                    Some(message) => crate::json::json_string_of(message),
                    None => None,
                };
                crate::backend::call_outcome(method, reply) == Err::<Seq<char>, Seq<char>>(
                    method + " error: "@ + (if told is Some {
                        told->0
                    } else {
                        "unknown error"@
                    }),
                )
            },
            None => match crate::json::json_member_of(document, "result"@) {
                Some(result) => crate::backend::call_outcome(method, reply) == Ok::<
                    Seq<char>,
                    Seq<char>,
                >(result),
                None => crate::backend::call_outcome(method, reply) == Err::<Seq<char>, Seq<char>>(
                    method + " response missing result"@,
                ),
            },
        },
{
}

/// A submission was included at the height that the answer's result is, and failed where
/// the call did, with the same message, or where the result is no height.
pub proof fn law_submitted_heights(reply: RpcReply)
    ensures
        match crate::backend::call_outcome("blob.Submit"@, reply) {
            Ok(result) => match crate::json::json_unsigned_of(result) {
                Some(height) => crate::backend::submitted_height(reply) == Ok::<u64, Seq<char>>(
                    height,
                ),
                None => crate::backend::submitted_height(reply) == Err::<u64, Seq<char>>(
                    "blob.Submit returned non-u64 height"@,
                ),
            },
            Err(message) => crate::backend::submitted_height(reply) == Err::<u64, Seq<char>>(
                message,
            ),
        },
{
}

/// A payload has the commitment that the data-availability layer gives it in a valid
/// namespace, and in no other namespace has it one.
pub proof fn law_commitments(namespace: NamespaceId, payload: Seq<u8>)
    ensures
        !crate::blob::valid_namespace(namespace.0@) ==> crate::backend::commitment_outcome(
            namespace,
            payload,
        ) == Err::<BlobCommitment, DaErrorView>(DaErrorView::InvalidNamespace),
        crate::blob::valid_namespace(namespace.0@) ==> match crate::blob::blob_commitment_of(
            namespace.0@,
            payload,
        ) {
            Ok(hash) => {
                &&& crate::backend::commitment_outcome(namespace, payload) is Ok
                &&& crate::backend::commitment_outcome(namespace, payload)->Ok_0.0 == hash
            },
            Err(detail) => crate::backend::commitment_outcome(namespace, payload) == Err::<
                BlobCommitment,
                DaErrorView,
            >(DaErrorView::Decode(detail)),
        },
{
}

/// A read that fails because the blob is not there says so: its message has `not found` in
/// it. Every other failed read hands the message on.
pub proof fn law_failed_reads(blob_ref: BlobRef, reply: RpcReply, message: Seq<char>)
    requires
        crate::backend::call_outcome("blob.Get"@, reply) == Err::<Seq<char>, Seq<char>>(message),
    ensures
        (exists|front: Seq<char>, back: Seq<char>|
            message == #[trigger] (front + "not found"@ + back)) ==> crate::backend::read_outcome(
            blob_ref,
            reply,
        ) == Err::<Seq<u8>, DaErrorView>(DaErrorView::NotFound),
        !(exists|front: Seq<char>, back: Seq<char>|
            message == #[trigger] (front + "not found"@ + back)) ==> crate::backend::read_outcome(
            blob_ref,
            reply,
        ) == Err::<Seq<u8>, DaErrorView>(DaErrorView::CelestiaRead(message)),
{
    super::texts::law_occurrences("not found"@, message);
}

/// The string in the data of a read's result.
pub open spec fn data_in(result: Seq<char>) -> Option<Seq<char>> {
    match crate::json::json_member_of(result, "data"@) {
        Some(data) => crate::json::json_string_of(data),
        None => None,
    }
}

/// A read that was answered gives the bytes of the answer's data where their commitment is
/// the one that was asked for, and otherwise says what is wrong with the data.
pub proof fn law_answered_reads(blob_ref: BlobRef, reply: RpcReply, result: Seq<char>)
    requires
        crate::backend::call_outcome("blob.Get"@, reply) == Ok::<Seq<char>, Seq<char>>(result),
    ensures
        match data_in(result) {
            None => crate::backend::read_outcome(blob_ref, reply) == Err::<Seq<u8>, DaErrorView>(
                DaErrorView::CelestiaRead("blob.Get response missing data"@),
            ),
            Some(data) => match crate::blob::base64_decoded(data) {
                Err(detail) => crate::backend::read_outcome(blob_ref, reply) == Err::<
                    Seq<u8>,
                    DaErrorView,
                >(DaErrorView::CelestiaRead("blob data decode failed: "@ + detail)),
                Ok(payload) => if !crate::blob::valid_namespace(blob_ref.namespace.0@) {
                    crate::backend::read_outcome(blob_ref, reply) == Err::<Seq<u8>, DaErrorView>(
                        DaErrorView::InvalidNamespace,
                    )
                } else {
                    match crate::blob::blob_commitment_of(blob_ref.namespace.0@, payload) {
                        Err(detail) => crate::backend::read_outcome(blob_ref, reply) == Err::<
                            Seq<u8>,
                            DaErrorView,
                        >(DaErrorView::Decode(detail)),
                        Ok(hash) => crate::backend::read_outcome(blob_ref, reply) == (if hash
                            == blob_ref.commitment.0 {
                            Ok::<Seq<u8>, DaErrorView>(payload)
                        } else {
                            Err(DaErrorView::CommitmentMismatch)
                        }),
                    }
                },
            },
        },
{
    assert(crate::backend::blob_data(result) == data_in(result));
    if let Some(data) = data_in(result) {
        if let Ok(payload) = crate::blob::base64_decoded(data) {
            law_commitments(blob_ref.namespace, payload);
        }
    }
}

/// What was submitted is read back: where a read is answered with the text that was
/// submitted as the data, it gives the payload.
pub proof fn law_submitted_payloads_are_read_back(
    namespace: NamespaceId,
    commitment: BlobCommitment,
    payload: Seq<u8>,
    height: u64,
    reply: RpcReply,
    document: Seq<char>,
    result: Seq<char>,
)
    requires
        crate::backend::reads_back(namespace, commitment, payload),
        answers_with(reply, document),
        crate::json::json_member_of(document, "error"@) is None,
        crate::json::json_member_of(document, "result"@) == Some(result),
        data_in(result) == Some(crate::blob::base64_encoded(payload)),
    ensures
        crate::backend::read_outcome(BlobRef { height, namespace, commitment }, reply) == Ok::<
            Seq<u8>,
            DaErrorView,
        >(payload),
{
    assert(crate::backend::brings_data(reply, crate::blob::base64_encoded(payload)));
}

/// A gas price is a number or `null`: no other JSON text begins with a digit or a minus
/// sign.
pub proof fn law_prices(text: Seq<char>)
    ensures
        crate::backend::is_price(text) <==> {
            ||| text == "null"@
            ||| text.len() > 0 && (text[0] == '-' || '0' <= text[0] <= '9')
        },
{
}

/// An error says what it says: its view has its kind and its text.
pub proof fn law_error_views(detail: String)
    ensures
        DaError::InvalidNamespace@ == DaErrorView::InvalidNamespace,
        DaError::Decode(detail)@ == DaErrorView::Decode(detail@),
        DaError::CelestiaSubmit(detail)@ == DaErrorView::CelestiaSubmit(detail@),
        DaError::CelestiaRead(detail)@ == DaErrorView::CelestiaRead(detail@),
        DaError::NotFound@ == DaErrorView::NotFound,
        DaError::CommitmentMismatch@ == DaErrorView::CommitmentMismatch,
        DaError::UnsupportedVerificationMode@ == DaErrorView::UnsupportedVerificationMode,
{
}

} // verus!
