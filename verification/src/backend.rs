//! Blob publication and reads over the celestia-node JSON-RPC API.
//!
//! `blob.Submit` blocks until inclusion and gives the inclusion height, so a
//! broadcast completes the whole submission, and a confirmation only reports what
//! was noted of it. A read checks that the returned bytes match the commitment
//! that was asked for.
//!
//! Sending a request and receiving its reply happen outside: the functions here
//! give the request and take the reply.
use vstd::prelude::*;

use crate::blob::{base64_decode, base64_encode, blob_commitment, is_namespace};
use crate::bytes::{push_bytes, same_array};
use crate::codec::write_u64;
use crate::hash::{sha256, Digest};
use crate::json::{
    array_value, bool_value, copy_value, insert_member, integer_value, is_null, is_number, member,
    new_object, object_value, parse_document, parse_text, string_in, string_value, unsigned_in,
    value_text,
};
use crate::text::contains_text;

verus! {

/// A namespace of the data-availability layer.
#[derive(Clone, Copy, Debug)]
pub struct NamespaceId(pub [u8; 29]);

/// The share commitment of a blob.
#[derive(Clone, Copy, Debug, Eq)]
pub struct BlobCommitment(pub [u8; 32]);

impl PartialEq for BlobCommitment {
    fn eq(&self, other: &Self) -> (same: bool) {
        same_array(&self.0, &other.0)
    }
}

impl vstd::std_specs::cmp::PartialEqSpecImpl for BlobCommitment {
    open spec fn obeys_eq_spec() -> bool {
        true
    }

    open spec fn eq_spec(&self, other: &Self) -> bool {
        *self == *other
    }
}

/// Where a blob was included.
#[derive(Clone, Copy, Debug)]
pub struct BlobRef {
    pub height: u64,
    pub namespace: NamespaceId,
    pub commitment: BlobCommitment,
}

/// A submission that was broadcast.
#[derive(Debug)]
pub struct BroadcastedSubmission {
    pub tx_hash: Digest,
    pub tx_bytes: Vec<u8>,
}

/// A submission that was included.
#[derive(Clone, Copy, Debug)]
pub struct SubmittedBlob {
    pub blob_ref: BlobRef,
    pub tx_hash: Digest,
}

/// How the inclusion of a blob is to be verified.
#[derive(Clone, Copy, Debug, PartialEq, Eq, Structural)]
pub enum VerificationMode {
    RpcIncluded,
    ProofRequired,
}

/// How the inclusion of a blob was verified.
#[derive(Clone, Copy, Debug, PartialEq, Eq, Structural)]
pub enum Verification {
    RpcIncluded,
}

/// Why an operation on the data-availability layer failed.
#[derive(Debug)]
pub enum DaError {
    InvalidNamespace,
    Decode(String),
    CelestiaSubmit(String),
    CelestiaRead(String),
    NotFound,
    CommitmentMismatch,
    UnsupportedVerificationMode,
}

/// What a [`DaError`] says.
pub enum DaErrorView {
    InvalidNamespace,
    Decode(Seq<char>),
    CelestiaSubmit(Seq<char>),
    CelestiaRead(Seq<char>),
    NotFound,
    CommitmentMismatch,
    UnsupportedVerificationMode,
}

impl View for DaError {
    type V = DaErrorView;

    open spec fn view(&self) -> DaErrorView {
        match self {
            DaError::InvalidNamespace => DaErrorView::InvalidNamespace,
            DaError::Decode(detail) => DaErrorView::Decode(detail@),
            DaError::CelestiaSubmit(detail) => DaErrorView::CelestiaSubmit(detail@),
            DaError::CelestiaRead(detail) => DaErrorView::CelestiaRead(detail@),
            DaError::NotFound => DaErrorView::NotFound,
            DaError::CommitmentMismatch => DaErrorView::CommitmentMismatch,
            DaError::UnsupportedVerificationMode => DaErrorView::UnsupportedVerificationMode,
        }
    }
}

/// A gas price in utia per gas, as the JSON value that stands for it in a request: a
/// number, or `null` for a price that is no finite number.
#[derive(Debug)]
pub struct GasPrice {
    value: serde_json::Value,
}

/// The text is that of a gas price.
pub open spec fn is_price(text: Seq<char>) -> bool {
    crate::json::number_text(text) || text == "null"@
}

impl View for GasPrice {
    type V = Seq<char>;

    closed spec fn view(&self) -> Seq<char> {
        crate::json::json_text(self.value)
    }
}

impl GasPrice {
    #[verifier::type_invariant]
    spec fn well_formed(&self) -> bool {
        is_price(crate::json::json_text(self.value))
    }

    /// The price that a JSON text holds. There is none where the text is no JSON, or
    /// holds neither a number nor `null`.
    pub fn parse(text: &str) -> (price: Option<GasPrice>)
        ensures
            match price {
                Some(price) => crate::json::json_parsed_of(text@) == Some(price@) && is_price(price@),
                None => crate::json::json_parsed_of(text@) matches Some(parsed) ==> !is_price(parsed),
            },
            crate::json::is_fraction(text@) ==> price is Some,
    {
        match parse_text(text) {
            Some(value) => {
                if is_number(&value) || is_null(&value) {
                    Some(GasPrice { value })
                } else {
                    None
                }
            },
            None => None,
        }
    }

    /// The price as JSON text.
    pub fn to_text(&self) -> (text: String)
        ensures
            text@ == self@,
            is_price(text@),
    {
        proof {
            use_type_invariant(self);
        }
        value_text(&self.value)
    }

    /// An equal price.
    pub fn copy(&self) -> (copy: GasPrice)
        ensures
            copy@ == self@,
    {
        proof {
            use_type_invariant(self);
        }
        GasPrice { value: copy_value(&self.value) }
    }

    fn to_value(&self) -> (value: serde_json::Value)
        ensures
            crate::json::json_text(value) == self@,
    {
        copy_value(&self.value)
    }
}

/// Gas options applied to every submission.
#[derive(Debug, Default)]
pub struct GasConfig {
    /// Explicit gas limit. `None` lets the node estimate.
    pub gas: Option<u64>,
    /// Explicit gas price. `None` lets the node estimate.
    pub gas_price: Option<GasPrice>,
}

/// A request: the address that its body is posted to, the token that it is authorized
/// with, if there is one, and the body, which is JSON.
#[derive(Debug)]
pub struct RpcRequest {
    pub url: String,
    pub bearer: Option<String>,
    pub body: String,
}

/// What came back for a request.
#[derive(Debug)]
pub enum RpcReply {
    /// The request was not answered, for the reason given.
    Unsent(String),
    /// The answer could not be read, for the reason given.
    Unread(String),
    /// The answer, which may be no JSON.
    Body(Vec<u8>),
}

/// What a call comes to: the JSON text of its result, or an error message.
pub open spec fn call_outcome(method: Seq<char>, reply: RpcReply) -> Result<Seq<char>, Seq<char>> {
    match reply {
        RpcReply::Unsent(detail) => Err(method + " request failed: "@ + detail@),
        RpcReply::Unread(detail) => Err(method + " response decode failed: "@ + detail@),
        RpcReply::Body(bytes) => match crate::json::json_document_of(bytes@) {
            None => Err(method + " response decode failed: "@ + "error decoding response body"@),
            Some(document) => document_outcome(method, document),
        },
    }
}

/// What a call comes to whose answer is that JSON document.
pub open spec fn document_outcome(method: Seq<char>, document: Seq<char>) -> Result<
    Seq<char>,
    Seq<char>,
> {
    match crate::json::json_member_of(document, "error"@) {
        Some(error) => Err(method + " error: "@ + error_message(error)),
        None => match crate::json::json_member_of(document, "result"@) {
            Some(result) => Ok(result),
            None => Err(method + " response missing result"@),
        },
    }
}

/// The message in the `error` member of an answer.
pub open spec fn error_message(error: Seq<char>) -> Seq<char> {
    match crate::json::json_member_of(error, "message"@) {
        Some(message) => match crate::json::json_string_of(message) {
            Some(message) => message,
            None => "unknown error"@,
        },
        None => "unknown error"@,
    }
}

/// The height that a submission was included at, or an error message.
pub open spec fn submitted_height(reply: RpcReply) -> Result<u64, Seq<char>> {
    match call_outcome("blob.Submit"@, reply) {
        Ok(result) => match crate::json::json_unsigned_of(result) {
            Some(height) => Ok(height),
            None => Err("blob.Submit returned non-u64 height"@),
        },
        Err(message) => Err(message),
    }
}

/// The share commitment of a payload, or why there is none.
pub open spec fn commitment_outcome(namespace: NamespaceId, payload: Seq<u8>) -> Result<
    BlobCommitment,
    DaErrorView,
> {
    if !crate::blob::valid_namespace(namespace.0@) {
        Err(DaErrorView::InvalidNamespace)
    } else {
        match crate::blob::blob_commitment_of(namespace.0@, payload) {
            Ok(hash) => Ok(BlobCommitment(hash)),
            Err(detail) => Err(DaErrorView::Decode(detail)),
        }
    }
}

/// What a read comes to: the blob's bytes, or why there are none.
pub open spec fn read_outcome(blob_ref: BlobRef, reply: RpcReply) -> Result<Seq<u8>, DaErrorView> {
    match call_outcome("blob.Get"@, reply) {
        Err(message) => if crate::text::occurs_in("not found"@, message) {
            Err(DaErrorView::NotFound)
        } else {
            Err(DaErrorView::CelestiaRead(message))
        },
        Ok(result) => match blob_data(result) {
            None => Err(DaErrorView::CelestiaRead("blob.Get response missing data"@)),
            Some(data) => match crate::blob::base64_decoded(data) {
                Err(detail) => Err(
                    DaErrorView::CelestiaRead("blob data decode failed: "@ + detail),
                ),
                Ok(payload) => match commitment_outcome(blob_ref.namespace, payload) {
                    Err(error) => Err(error),
                    Ok(commitment) => if commitment == blob_ref.commitment {
                        Ok(payload)
                    } else {
                        Err(DaErrorView::CommitmentMismatch)
                    },
                },
            },
        },
    }
}

/// The reply to a read brings these data.
pub open spec fn brings_data(reply: RpcReply, data: Seq<char>) -> bool {
    call_outcome("blob.Get"@, reply) matches Ok(result) && blob_data(result) == Some(data)
}

/// A read of the blob, at whatever height, gives the payload back wherever the node
/// brings the data that were submitted for it.
pub open spec fn reads_back(
    namespace: NamespaceId,
    commitment: BlobCommitment,
    payload: Seq<u8>,
) -> bool {
    forall|height: u64, reply: RpcReply|
        brings_data(reply, crate::blob::base64_encoded(payload)) ==> #[trigger] read_outcome(
            BlobRef { height, namespace, commitment },
            reply,
        ) == Ok::<Seq<u8>, DaErrorView>(payload)
}

/// The text of the blob's data in a read's result.
pub open spec fn blob_data(result: Seq<char>) -> Option<Seq<char>> {
    match crate::json::json_member_of(result, "data"@) {
        Some(data) => crate::json::json_string_of(data),
        None => None,
    }
}

/// The body of a request.
pub open spec fn request_text(method: Seq<char>, params: Seq<char>) -> Seq<char> {
    crate::json::object_text(
        map![
            "jsonrpc"@ => crate::json::json_quoted("2.0"@),
            "id"@ => crate::text::decimal(1),
            "method"@ => crate::json::json_quoted(method),
            "params"@ => params,
        ],
    )
}

/// A byte string as a JSON string of its Base64 text.
pub open spec fn quoted_base64(data: Seq<u8>) -> Seq<char> {
    crate::json::json_quoted(crate::blob::base64_encoded(data))
}

/// The JSON text is a string, and the string is Base64 text of the bytes.
pub open spec fn carries_bytes(text: Seq<char>, data: Seq<u8>) -> bool {
    &&& crate::json::json_string_of(text) is Some
    &&& crate::blob::base64_decoded(crate::json::json_string_of(text)->0) == Ok::<
        Seq<u8>,
        Seq<char>,
    >(data)
}

/// A byte string as a JSON string of its Base64 text.
fn base64_value(data: &[u8]) -> (value: serde_json::Value)
    ensures
        crate::json::json_text(value) == quoted_base64(data@),
        carries_bytes(crate::json::json_text(value), data@),
        crate::json::json_string_of(crate::json::json_text(value)) == Some(
            crate::blob::base64_encoded(data@),
        ),
{
    string_value(base64_encode(data).as_str())
}

/// The gas options of a submission: those that are set.
pub open spec fn option_members(gas: GasConfig) -> Map<Seq<char>, Seq<char>> {
    let limit = match gas.gas {
        Some(limit) => map!["gas"@ => crate::text::decimal(limit as nat)],
        None => Map::empty(),
    };
    match gas.gas_price {
        Some(price) => limit.insert("gas_price"@, price@).insert("is_gas_price_set"@, "true"@),
        None => limit,
    }
}

/// The blob of a submission.
pub open spec fn blob_members(namespace: NamespaceId, payload: Seq<u8>) -> Map<
    Seq<char>,
    Seq<char>,
> {
    map![
        "namespace"@ => quoted_base64(namespace.0@),
        "data"@ => quoted_base64(payload),
        "share_version"@ => crate::text::decimal(0),
    ]
}

/// The parameters of a submission: the one blob, and the gas options.
pub open spec fn submit_params(
    namespace: NamespaceId,
    payload: Seq<u8>,
    gas: GasConfig,
) -> Seq<char> {
    crate::json::array_text(
        seq![
            crate::json::array_text(
                seq![crate::json::object_text(blob_members(namespace, payload))],
            ),
            crate::json::object_text(option_members(gas)),
        ],
    )
}

/// The parameters of a read.
pub open spec fn get_params(blob_ref: BlobRef) -> Seq<char> {
    crate::json::array_text(
        seq![
            crate::text::decimal(blob_ref.height as nat),
            quoted_base64(blob_ref.namespace.0@),
            quoted_base64(blob_ref.commitment.0@),
        ],
    )
}

/// The body submits the one blob with these members, with these options.
pub open spec fn submits(
    body: Seq<char>,
    blob: Map<Seq<char>, Seq<char>>,
    options: Map<Seq<char>, Seq<char>>,
) -> bool {
    body == request_text(
        "blob.Submit"@,
        crate::json::array_text(
            seq![
                crate::json::array_text(seq![crate::json::object_text(blob)]),
                crate::json::object_text(options),
            ],
        ),
    )
}

/// The body asks for the blob that these parameters name.
pub open spec fn asks(body: Seq<char>, items: Seq<Seq<char>>) -> bool {
    body == request_text("blob.Get"@, crate::json::array_text(items))
}

/// The hash that a completed submission is tracked under.
pub open spec fn submission_hash(height: u64, commitment: BlobCommitment) -> Digest {
    crate::hash::digest_of(
        vstd::utf8::encode_utf8("coro-engine.node-rpc.v1"@) + crate::codec::be_bytes(height)
            + commitment.0@,
    )
}

/// The body of a request.
fn request_body(method: &str, params: serde_json::Value) -> (text: String)
    ensures
        text@ == request_text(method@, crate::json::json_text(params)),
{
    let mut request = new_object();
    insert_member(&mut request, "jsonrpc", string_value("2.0"));
    insert_member(&mut request, "id", integer_value(1));
    insert_member(&mut request, "method", string_value(method));
    insert_member(&mut request, "params", params);
    value_text(&object_value(request))
}

/// The message in the `error` member of an answer.
fn error_detail(error: &serde_json::Value) -> (message: String)
    ensures
        message@ == error_message(crate::json::json_text(*error)),
{
    match member(error, "message") {
        Some(message) => match string_in(&message) {
            Some(message) => message,
            None => "unknown error".to_owned(),
        },
        None => "unknown error".to_owned(),
    }
}

/// The result of a call, or an error message.
pub fn call_result(method: &str, reply: RpcReply) -> (result: Result<serde_json::Value, String>)
    ensures
        match result {
            Ok(result) => call_outcome(method@, reply) == Ok::<Seq<char>, Seq<char>>(
                crate::json::json_text(result),
            ),
            Err(message) => call_outcome(method@, reply) == Err::<Seq<char>, Seq<char>>(message@),
        },
{
    let mut message = method.to_owned();
    let body = match reply {
        RpcReply::Unsent(detail) => {
            message.append(" request failed: ");
            message.append(detail.as_str());
            return Err(message);
        },
        RpcReply::Unread(detail) => {
            message.append(" response decode failed: ");
            message.append(detail.as_str());
            return Err(message);
        },
        RpcReply::Body(body) => body,
    };
    let document = match parse_document(body.as_slice()) {
        Some(document) => document,
        None => {
            message.append(" response decode failed: ");
            message.append("error decoding response body");
            return Err(message);
        },
    };
    match member(&document, "error") {
        Some(error) => {
            message.append(" error: ");
            message.append(error_detail(&error).as_str());
            Err(message)
        },
        None => match member(&document, "result") {
            Some(result) => Ok(result),
            None => {
                message.append(" response missing result");
                Err(message)
            },
        },
    }
}

/// Computes the share commitment for a blob locally.
pub fn compute_commitment(namespace: NamespaceId, payload: &[u8]) -> (commitment: Result<
    BlobCommitment,
    DaError,
>)
    ensures
        match commitment {
            Ok(commitment) => commitment_outcome(namespace, payload@) == Ok::<
                BlobCommitment,
                DaErrorView,
            >(commitment),
            Err(error) => commitment_outcome(namespace, payload@) == Err::<
                BlobCommitment,
                DaErrorView,
            >(error@),
        },
        commitment is Ok <==> crate::blob::valid_namespace(namespace.0@) && payload@.len()
            <= u32::MAX,
{
    if !is_namespace(namespace.0.as_slice()) {
        return Err(DaError::InvalidNamespace);
    }
    match blob_commitment(namespace.0.as_slice(), payload) {
        Ok(hash) => Ok(BlobCommitment(hash)),
        Err(detail) => Err(DaError::Decode(detail)),
    }
}

/// Derives the hash that a completed submission is tracked under. The node does
/// not expose the hash of the underlying transaction, so this one is a hash of the
/// inclusion result.
pub fn pseudo_tx_hash(height: u64, commitment: &BlobCommitment) -> (hash: Digest)
    ensures
        hash == submission_hash(height, *commitment),
{
    let mut buffer: Vec<u8> = Vec::new();
    push_bytes(&mut buffer, "coro-engine.node-rpc.v1".as_bytes());
    write_u64(&mut buffer, height);
    push_bytes(&mut buffer, commitment.0.as_slice());
    assert(buffer@ =~= vstd::utf8::encode_utf8("coro-engine.node-rpc.v1"@)
        + crate::codec::be_bytes(height) + commitment.0@);
    sha256(buffer.as_slice())
}

/// Completed submissions: the inclusion height under each submission's hash. No
/// hash occurs twice.
#[derive(Debug)]
pub struct Submissions {
    entries: Vec<(Digest, u64)>,
}

impl View for Submissions {
    type V = Map<Digest, u64>;

    closed spec fn view(&self) -> Map<Digest, u64> {
        Map::new(
            |hash: Digest| exists|i: int| 0 <= i < self.entries@.len() && self.entries@[i].0 == hash,
            |hash: Digest|
                self.entries@[choose|i: int|
                    0 <= i < self.entries@.len() && self.entries@[i].0 == hash].1,
        )
    }
}

impl Submissions {
    /// No hash occurs twice.
    pub closed spec fn wf(&self) -> bool {
        forall|i: int, j: int|
            0 <= i < j < self.entries@.len() ==> self.entries@[i].0 != self.entries@[j].0
    }

    proof fn lemma_entry(&self, i: int)
        requires
            self.wf(),
            0 <= i < self.entries@.len(),
        ensures
            self@.contains_key(self.entries@[i].0),
            self@[self.entries@[i].0] == self.entries@[i].1,
    {
    }

    /// No submission.
    pub fn new() -> (submissions: Self)
        ensures
            submissions.wf(),
            submissions@ == Map::<Digest, u64>::empty(),
    {
        let submissions = Submissions { entries: Vec::new() };
        assert(submissions@ =~= Map::<Digest, u64>::empty());
        submissions
    }

    fn find(&self, hash: &Digest) -> (at: Option<usize>)
        requires
            self.wf(),
        ensures
            match at {
                Some(at) => at < self.entries@.len() && self.entries@[at as int].0 == *hash,
                None => !self@.contains_key(*hash),
            },
    {
        let mut i: usize = 0;
        while i < self.entries.len()
            invariant
                i <= self.entries@.len(),
                forall|j: int| 0 <= j < i ==> self.entries@[j].0 != *hash,
            decreases self.entries@.len() - i,
        {
            if self.entries[i].0 == *hash {
                return Some(i);
            }
            i = i + 1;
        }
        None
    }

    /// The height under a hash.
    pub fn get(&self, hash: &Digest) -> (height: Option<u64>)
        requires
            self.wf(),
        ensures
            height == (if self@.contains_key(*hash) {
                Some(self@[*hash])
            } else {
                None
            }),
    {
        match self.find(hash) {
            Some(at) => {
                proof {
                    self.lemma_entry(at as int);
                }
                Some(self.entries[at].1)
            },
            None => None,
        }
    }

    /// Notes a height under a hash, in place of the one that was there.
    pub fn insert(&mut self, hash: Digest, height: u64)
        requires
            old(self).wf(),
        ensures
            final(self).wf(),
            final(self)@ == old(self)@.insert(hash, height),
    {
        let ghost before = *self;
        match self.find(&hash) {
            Some(at) => {
                self.entries.set(at, (hash, height));
                proof {
                    before.lemma_entry(at as int);
                    self.lemma_entry(at as int);
                    assert forall|h: Digest| #[trigger] before@.contains_key(h) && h != hash implies
                        self@.contains_key(h) && self@[h] == before@[h] by {
                        let i = choose|i: int|
                            0 <= i < before.entries@.len() && before.entries@[i].0 == h;
                        before.lemma_entry(i);
                        self.lemma_entry(i);
                        assert(self.entries@[i] == before.entries@[i]);
                    }
                    assert forall|h: Digest| #[trigger] self@.contains_key(h) implies
                        before@.contains_key(h) by {
                        let i = choose|i: int|
                            0 <= i < self.entries@.len() && self.entries@[i].0 == h;
                        before.lemma_entry(i);
                    }
                    assert(self@ =~= before@.insert(hash, height));
                }
            },
            None => {
                self.entries.push((hash, height));
                proof {
                    let last = before.entries@.len() as int;
                    assert forall|i: int| 0 <= i < last implies self.entries@[i].0 != hash by {
                        before.lemma_entry(i);
                    }
                    self.lemma_entry(last);
                    assert forall|h: Digest| #[trigger] before@.contains_key(h) && h != hash implies
                        self@.contains_key(h) && self@[h] == before@[h] by {
                        let i = choose|i: int|
                            0 <= i < before.entries@.len() && before.entries@[i].0 == h;
                        before.lemma_entry(i);
                        self.lemma_entry(i);
                        assert(self.entries@[i] == before.entries@[i]);
                    }
                    assert forall|h: Digest| #[trigger] self@.contains_key(h) && h != hash implies
                        before@.contains_key(h) by {
                        let i = choose|i: int|
                            0 <= i < self.entries@.len() && self.entries@[i].0 == h;
                        before.lemma_entry(i);
                    }
                    assert(self@ =~= before@.insert(hash, height));
                }
            },
        }
    }
}

/// The celestia-node JSON-RPC backend: where it is, how it is paid, and which
/// submissions it has completed.
#[derive(Debug)]
pub struct NodeRpcBackend {
    pub url: String,
    pub auth_token: Option<String>,
    pub gas: GasConfig,
    pub submitted: Submissions,
}

impl NodeRpcBackend {
    /// The completed submissions are sound.
    pub open spec fn wf(&self) -> bool {
        self.submitted.wf()
    }

    /// Creates a backend for an endpoint. The gas options are used for every
    /// submission.
    pub fn new(url: String, auth_token: Option<String>, gas: GasConfig) -> (backend: Self)
        ensures
            backend.wf(),
            backend.url == url,
            backend.auth_token == auth_token,
            backend.gas == gas,
            backend.submitted@ == Map::<Digest, u64>::empty(),
    {
        NodeRpcBackend { url, auth_token, gas, submitted: Submissions::new() }
    }

    /// The request calls the method of the configured node with the parameters: it goes
    /// to the configured address, and is authorized with the configured token if and
    /// only if there is one.
    pub open spec fn calls(&self, request: RpcRequest, method: Seq<char>, params: Seq<char>) -> bool {
        &&& request.url@ == self.url@
        &&& request.bearer is Some == self.auth_token is Some
        &&& request.bearer matches Some(token) ==> token@ == self.auth_token->0@
        &&& request.body@ == request_text(method, params)
    }

    /// The request that calls a method of the configured node.
    pub fn call_request(&self, method: &str, params: serde_json::Value) -> (request: RpcRequest)
        ensures
            self.calls(request, method@, crate::json::json_text(params)),
    {
        let bearer = match &self.auth_token {
            Some(token) => Some(token.clone()),
            None => None,
        };
        RpcRequest { url: self.url.clone(), bearer, body: request_body(method, params) }
    }

    /// The gas options of a submission, as a JSON object of those that are set.
    pub fn tx_options(&self) -> (options: serde_json::Value)
        ensures
            crate::json::json_text(options) == crate::json::object_text(option_members(self.gas)),
    {
        let mut options = new_object();
        match self.gas.gas {
            Some(limit) => {
                insert_member(&mut options, "gas", integer_value(limit));
            },
            None => {},
        }
        match &self.gas.gas_price {
            Some(price) => {
                insert_member(&mut options, "gas_price", price.to_value());
                insert_member(&mut options, "is_gas_price_set", bool_value(true));
            },
            None => {},
        }
        assert(crate::json::json_members(options) =~= option_members(self.gas));
        object_value(options)
    }

    /// The share commitment of a payload and the request that submits it.
    pub fn broadcast_request(&self, namespace: NamespaceId, payload: &[u8]) -> (request: Result<
        (BlobCommitment, RpcRequest),
        DaError,
    >)
        ensures
            match request {
                Ok((commitment, request)) => {
                    &&& commitment_outcome(namespace, payload@) == Ok::<
                        BlobCommitment,
                        DaErrorView,
                    >(commitment)
                    &&& self.calls(
                        request,
                        "blob.Submit"@,
                        submit_params(namespace, payload@, self.gas),
                    )
                    &&& reads_back(namespace, commitment, payload@)
                    &&& exists|blob: Map<Seq<char>, Seq<char>>, options: Map<Seq<char>, Seq<char>>|
                        {
                            &&& #[trigger] submits(request.body@, blob, options)
                            &&& carries_bytes(blob["data"@], payload@)
                            &&& carries_bytes(blob["namespace"@], namespace.0@)
                        }
                },
                Err(error) => commitment_outcome(namespace, payload@) == Err::<
                    BlobCommitment,
                    DaErrorView,
                >(error@),
            },
            request is Ok <==> crate::blob::valid_namespace(namespace.0@) && payload@.len()
                <= u32::MAX,
    {
        let commitment = match compute_commitment(namespace, payload) {
            Ok(commitment) => commitment,
            Err(error) => {
                return Err(error);
            },
        };
        let mut blob = new_object();
        insert_member(&mut blob, "namespace", base64_value(namespace.0.as_slice()));
        insert_member(&mut blob, "data", base64_value(payload));
        insert_member(&mut blob, "share_version", integer_value(0));
        let ghost members = crate::json::json_members(blob);
        assert(members =~= blob_members(namespace, payload@));
        proof {
            reveal_strlit("data");
            reveal_strlit("namespace");
            reveal_strlit("share_version");
        }
        assert("data"@.len() == 4 && "namespace"@.len() == 9 && "share_version"@.len() == 13);
        assert(carries_bytes(members["data"@], payload@));
        assert(carries_bytes(members["namespace"@], namespace.0@));
        let mut blobs: Vec<serde_json::Value> = Vec::new();
        blobs.push(object_value(blob));
        assert(crate::json::texts_of(blobs@) =~= seq![
            crate::json::object_text(blob_members(namespace, payload@)),
        ]);
        let mut params: Vec<serde_json::Value> = Vec::new();
        params.push(array_value(blobs));
        params.push(self.tx_options());
        assert(crate::json::array_text(crate::json::texts_of(params@)) == submit_params(
            namespace,
            payload@,
            self.gas,
        )) by {
            assert(crate::json::texts_of(params@) =~= seq![
                crate::json::array_text(
                    seq![crate::json::object_text(blob_members(namespace, payload@))],
                ),
                crate::json::object_text(option_members(self.gas)),
            ]);
        }
        let request = self.call_request("blob.Submit", array_value(params));
        assert(submits(request.body@, members, option_members(self.gas)));
        Ok((commitment, request))
    }

    /// Notes a completed submission under its hash, with the height that the reply
    /// gives.
    pub fn broadcast_reply(&mut self, commitment: BlobCommitment, reply: RpcReply) -> (submission:
        Result<BroadcastedSubmission, DaError>)
        requires
            old(self).wf(),
        ensures
            final(self).wf(),
            final(self).url == old(self).url,
            final(self).auth_token == old(self).auth_token,
            final(self).gas == old(self).gas,
            match submitted_height(reply) {
                Ok(height) => {
                    &&& submission is Ok
                    &&& submission->Ok_0.tx_hash == submission_hash(height, commitment)
                    &&& submission->Ok_0.tx_bytes@ == Seq::<u8>::empty()
                    &&& final(self).submitted@ == old(self).submitted@.insert(
                        submission_hash(height, commitment),
                        height,
                    )
                },
                Err(message) => {
                    &&& submission is Err
                    &&& submission->Err_0@ == DaErrorView::CelestiaSubmit(message)
                    &&& final(self).submitted == old(self).submitted
                },
            },
    {
        let result = match call_result("blob.Submit", reply) {
            Ok(result) => result,
            Err(message) => {
                return Err(DaError::CelestiaSubmit(message));
            },
        };
        let height = match unsigned_in(&result) {
            Some(height) => height,
            None => {
                return Err(
                    DaError::CelestiaSubmit("blob.Submit returned non-u64 height".to_owned()),
                );
            },
        };
        let tx_hash = pseudo_tx_hash(height, &commitment);
        self.submitted.insert(tx_hash, height);
        Ok(BroadcastedSubmission { tx_hash, tx_bytes: Vec::new() })
    }

    /// Reports the inclusion of a submission that this backend has completed.
    pub fn confirm(
        &self,
        namespace: NamespaceId,
        payload: &[u8],
        submission: &BroadcastedSubmission,
    ) -> (confirmed: Result<Option<SubmittedBlob>, DaError>)
        requires
            self.wf(),
        ensures
            !self.submitted@.contains_key(submission.tx_hash) ==> confirmed is Err
                && confirmed->Err_0@ == DaErrorView::CelestiaSubmit(
                "unknown submission; re-broadcast required"@,
            ),
            self.submitted@.contains_key(submission.tx_hash) ==> match commitment_outcome(
                namespace,
                payload@,
            ) {
                Ok(commitment) => confirmed == Ok::<Option<SubmittedBlob>, DaError>(
                    Some(
                        SubmittedBlob {
                            blob_ref: BlobRef {
                                height: self.submitted@[submission.tx_hash],
                                namespace,
                                commitment,
                            },
                            tx_hash: submission.tx_hash,
                        },
                    ),
                ),
                Err(error) => confirmed is Err && confirmed->Err_0@ == error,
            },
    {
        let height = match self.submitted.get(&submission.tx_hash) {
            Some(height) => height,
            None => {
                return Err(
                    DaError::CelestiaSubmit(
                        "unknown submission; re-broadcast required".to_owned(),
                    ),
                );
            },
        };
        match compute_commitment(namespace, payload) {
            Ok(commitment) => Ok(
                Some(
                    SubmittedBlob {
                        blob_ref: BlobRef { height, namespace, commitment },
                        tx_hash: submission.tx_hash,
                    },
                ),
            ),
            Err(error) => Err(error),
        }
    }

    /// The request that reads a blob.
    pub fn get_request(&self, blob_ref: &BlobRef) -> (request: RpcRequest)
        ensures
            self.calls(request, "blob.Get"@, get_params(*blob_ref)),
            exists|items: Seq<Seq<char>>|
                {
                    &&& #[trigger] asks(request.body@, items)
                    &&& items.len() == 3
                    &&& items[0] == crate::text::decimal(blob_ref.height as nat)
                    &&& carries_bytes(items[1], blob_ref.namespace.0@)
                    &&& carries_bytes(items[2], blob_ref.commitment.0@)
                },
    {
        let mut params: Vec<serde_json::Value> = Vec::new();
        params.push(integer_value(blob_ref.height));
        params.push(base64_value(blob_ref.namespace.0.as_slice()));
        params.push(base64_value(blob_ref.commitment.0.as_slice()));
        let ghost items = crate::json::texts_of(params@);
        assert(crate::json::texts_of(params@) =~= seq![
            crate::text::decimal(blob_ref.height as nat),
            quoted_base64(blob_ref.namespace.0@),
            quoted_base64(blob_ref.commitment.0@),
        ]);
        let request = self.call_request("blob.Get", array_value(params));
        assert(asks(request.body@, items));
        request
    }

    /// The bytes of a blob that was read, which match the commitment asked for.
    pub fn get_reply(&self, blob_ref: &BlobRef, reply: RpcReply) -> (payload: Result<
        Vec<u8>,
        DaError,
    >)
        ensures
            match payload {
                Ok(payload) => read_outcome(*blob_ref, reply) == Ok::<Seq<u8>, DaErrorView>(
                    payload@,
                ),
                Err(error) => read_outcome(*blob_ref, reply) == Err::<Seq<u8>, DaErrorView>(error@),
            },
    {
        let result = match call_result("blob.Get", reply) {
            Ok(result) => result,
            Err(message) => {
                if contains_text(message.as_str(), "not found") {
                    return Err(DaError::NotFound);
                }
                return Err(DaError::CelestiaRead(message));
            },
        };
        let data = match member(&result, "data") {
            Some(data) => string_in(&data),
            None => None,
        };
        let data = match data {
            Some(data) => data,
            None => {
                return Err(DaError::CelestiaRead("blob.Get response missing data".to_owned()));
            },
        };
        let payload = match base64_decode(data.as_str()) {
            Ok(payload) => payload,
            Err(detail) => {
                let mut message = "blob data decode failed: ".to_owned();
                message.append(detail.as_str());
                return Err(DaError::CelestiaRead(message));
            },
        };
        match compute_commitment(blob_ref.namespace, payload.as_slice()) {
            Ok(commitment) => {
                if commitment != blob_ref.commitment {
                    return Err(DaError::CommitmentMismatch);
                }
            },
            Err(error) => {
                return Err(error);
            },
        }
        Ok(payload)
    }

    /// Verifies the inclusion of a blob. Proofs are not supported.
    pub fn verify(&self, _blob_ref: &BlobRef, mode: VerificationMode) -> (verification: Result<
        Verification,
        DaError,
    >)
        ensures
            verification == (match mode {
                VerificationMode::RpcIncluded => Ok::<Verification, DaError>(
                    Verification::RpcIncluded,
                ),
                VerificationMode::ProofRequired => Err(DaError::UnsupportedVerificationMode),
            }),
    {
        match mode {
            VerificationMode::RpcIncluded => Ok(Verification::RpcIncluded),
            VerificationMode::ProofRequired => Err(DaError::UnsupportedVerificationMode),
        }
    }
}

} // verus!
