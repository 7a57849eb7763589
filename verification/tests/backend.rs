//! Publication and reads over the node's JSON-RPC API.

use commonware_cryptography::{Hasher as _, Sha256};
use coro_engine::backend::{
    call_result, compute_commitment, pseudo_tx_hash, BlobCommitment, BlobRef,
    BroadcastedSubmission, DaError, GasConfig, GasPrice, NamespaceId, NodeRpcBackend, RpcReply, Submissions,
    Verification, VerificationMode,
};
use coro_engine::chain::EngineError;
use coro_engine::hash::Digest;
use coro_engine::source::{
    query_result, to_core, SequencerError, SequencerSource, SourceError,
};

fn namespace(suffix: &[u8; 10]) -> NamespaceId {
    let mut bytes = [0u8; 29];
    bytes[19..].copy_from_slice(suffix);
    NamespaceId(bytes)
}

fn backend(gas: Option<u64>, gas_price: Option<&str>) -> NodeRpcBackend {
    NodeRpcBackend::new(
        "http://node".to_string(),
        Some("token".to_string()),
        GasConfig { gas, gas_price: gas_price.map(|text| GasPrice::parse(text).expect("price")) },
    )
}

fn json(text: &str) -> RpcReply {
    RpcReply::Body(text.as_bytes().to_vec())
}

/// The commitment as the outside crate computes it.
fn expected_commitment(namespace: &NamespaceId, payload: &[u8]) -> BlobCommitment {
    let raw = celestia_types::nmt::Namespace::from_raw(&namespace.0).expect("namespace");
    let blob = celestia_types::Blob::new(raw, payload.to_vec(), None).expect("blob");
    BlobCommitment(*blob.commitment.hash())
}

#[test]
fn gas_options_name_what_is_set() {
    assert_eq!(backend(None, None).tx_options().to_string(), "{}");
    assert_eq!(backend(Some(75_000), None).tx_options().to_string(), "{\"gas\":75000}");
    assert_eq!(
        backend(None, Some("0.004")).tx_options().to_string(),
        "{\"gas_price\":0.004,\"is_gas_price_set\":true}"
    );
    assert_eq!(
        backend(Some(75_000), Some("0.004")).tx_options().to_string(),
        "{\"gas\":75000,\"gas_price\":0.004,\"is_gas_price_set\":true}"
    );
}

#[test]
fn gas_prices_are_numbers() {
    for text in ["0.004", "7", "-1", "1e3", " 2 ", "null"] {
        let price = GasPrice::parse(text).expect("price");
        let value: serde_json::Value = serde_json::from_str(text).expect("JSON");
        assert_eq!(price.to_text(), value.to_string());
        assert_eq!(price.copy().to_text(), price.to_text());
    }
    for text in ["", "x", "0.", "\"1\"", "[1]", "true", "1,\"gas\":2"] {
        assert!(GasPrice::parse(text).is_none());
    }
    assert_eq!(
        backend(None, Some("null")).tx_options().to_string(),
        "{\"gas_price\":null,\"is_gas_price_set\":true}"
    );
}

#[test]
fn backend_keeps_its_settings() {
    let backend = backend(Some(1), None);
    assert_eq!(backend.url, "http://node");
    assert_eq!(backend.auth_token.as_deref(), Some("token"));
    assert_eq!(backend.gas.gas, Some(1));
}

#[test]
fn requests_are_the_documents_the_node_expects() {
    let request = backend(None, None).call_request("a\"b", serde_json::Value::from(vec![1]));
    assert_eq!(
        request.body,
        "{\"id\":1,\"jsonrpc\":\"2.0\",\"method\":\"a\\\"b\",\"params\":[1]}"
    );

    let namespace = namespace(b"coro-const");
    let backend = backend(Some(75_000), Some("0.004"));
    let (commitment, request) = backend.broadcast_request(namespace, b"hello").expect("request");
    assert_eq!(request.url, "http://node");
    assert_eq!(request.bearer.as_deref(), Some("token"));
    let request = request.body;
    let document: serde_json::Value = serde_json::from_str(&request).expect("JSON");
    assert_eq!(document["method"], "blob.Submit");
    assert_eq!(document["params"][0][0]["data"], "aGVsbG8=");
    assert_eq!(
        document["params"][0][0]["namespace"],
        "AAAAAAAAAAAAAAAAAAAAAAAAAGNvcm8tY29uc3Q="
    );
    assert_eq!(document["params"][0][0]["share_version"], 0);
    assert_eq!(document["params"][1]["gas"], 75_000);
    assert_eq!(document["params"][1]["gas_price"], 0.004);
    assert_eq!(document["params"][1]["is_gas_price_set"], true);
    assert_eq!(document.to_string(), request);

    let blob_ref = BlobRef { height: 12, namespace, commitment: BlobCommitment([0; 32]) };
    let request = backend.get_request(&blob_ref).body;
    let document: serde_json::Value = serde_json::from_str(&request).expect("JSON");
    assert_eq!(document["method"], "blob.Get");
    assert_eq!(document["params"][0], 12);
    assert_eq!(document["params"][1], "AAAAAAAAAAAAAAAAAAAAAAAAAGNvcm8tY29uc3Q=");
    assert_eq!(document["params"][2], "AAAAAAAAAAAAAAAAAAAAAAAAAAAAAAAAAAAAAAAAAAA=");
    assert_eq!(document.to_string(), request);
    assert_eq!(commitment, expected_commitment(&namespace, b"hello"));
}

#[test]
fn requests_carry_the_token_that_is_configured() {
    let blob_ref = BlobRef {
        height: 12,
        namespace: namespace(b"coro-const"),
        commitment: BlobCommitment([0; 32]),
    };
    let mut backend = backend(None, None);
    assert_eq!(backend.get_request(&blob_ref).url, "http://node");
    assert_eq!(backend.get_request(&blob_ref).bearer.as_deref(), Some("token"));
    backend.auth_token = None;
    assert_eq!(backend.get_request(&blob_ref).bearer, None);
    let (_, request) = backend.broadcast_request(blob_ref.namespace, b"hello").expect("request");
    assert_eq!(request.bearer, None);
    assert_eq!(request.url, "http://node");
}

#[test]
fn commitments_are_those_of_the_data_layer() {
    let one = namespace(b"coro-const");
    let other = namespace(b"coro-other");
    let commitment = compute_commitment(one, b"payload").expect("commitment");
    assert_eq!(commitment, expected_commitment(&one, b"payload"));
    assert_ne!(commitment, compute_commitment(one, b"payloae").expect("commitment"));
    assert_ne!(commitment, compute_commitment(other, b"payload").expect("commitment"));
    assert!(compute_commitment(one, b"").is_ok());

    let mut invalid = [0u8; 29];
    invalid[3] = 1;
    let result = compute_commitment(NamespaceId(invalid), b"payload");
    assert!(matches!(result, Err(DaError::InvalidNamespace)));
    let mut version = [0u8; 29];
    version[0] = 1;
    assert!(matches!(
        compute_commitment(NamespaceId(version), b"payload"),
        Err(DaError::InvalidNamespace)
    ));
    assert!(compute_commitment(NamespaceId([255; 29]), b"payload").is_ok());
    let result = backend(None, None).broadcast_request(NamespaceId(invalid), b"payload");
    assert!(matches!(result, Err(DaError::InvalidNamespace)));
}

#[test]
fn submission_hash_covers_height_and_commitment() {
    let commitment = BlobCommitment([5; 32]);
    let mut bytes = b"coro-engine.node-rpc.v1".to_vec();
    bytes.extend_from_slice(&258u64.to_be_bytes());
    bytes.extend_from_slice(&[5; 32]);
    assert_eq!(pseudo_tx_hash(258, &commitment), Digest(Sha256::hash(&bytes).0));
    assert_ne!(pseudo_tx_hash(259, &commitment), pseudo_tx_hash(258, &commitment));
}

#[test]
fn call_results_follow_the_reply() {
    let failure = |reply: RpcReply| call_result("blob.Get", reply).expect_err("failure");
    assert_eq!(
        failure(RpcReply::Unsent("refused".to_string())),
        "blob.Get request failed: refused"
    );
    assert_eq!(
        failure(RpcReply::Unread("eof".to_string())),
        "blob.Get response decode failed: eof"
    );
    for body in ["", "not json", "{\"result\":1"] {
        assert_eq!(
            failure(json(body)),
            "blob.Get response decode failed: error decoding response body"
        );
    }
    assert_eq!(
        failure(json("{\"error\":{\"message\":\"no \\\"funds\\\"\"},\"result\":1}")),
        "blob.Get error: no \"funds\""
    );
    assert_eq!(failure(json("{\"error\":{\"message\":3}}")), "blob.Get error: unknown error");
    assert_eq!(failure(json("{\"error\":null}")), "blob.Get error: unknown error");
    assert_eq!(failure(json("{\"id\":1}")), "blob.Get response missing result");
    assert_eq!(failure(json("[1]")), "blob.Get response missing result");
    assert_eq!(call_result("blob.Get", json("{\"result\":[1,{\"a\":2}]}")).unwrap()[1]["a"], 2);
    assert_eq!(call_result("blob.Get", json("{\"result\":null}")).unwrap(), serde_json::Value::Null);
}

#[test]
fn broadcast_is_confirmed_at_its_height() {
    let namespace = namespace(b"coro-const");
    let mut backend = backend(None, None);
    let (commitment, _) = backend.broadcast_request(namespace, b"one").expect("request");
    let submission =
        backend.broadcast_reply(commitment, json("{\"result\":41}")).expect("submission");
    assert_eq!(submission.tx_hash, pseudo_tx_hash(41, &commitment));
    assert!(submission.tx_bytes.is_empty());

    // Another submission leaves the first one known.
    let (second, _) = backend.broadcast_request(namespace, b"two").expect("request");
    let later = backend.broadcast_reply(second, json("{\"result\":42}")).expect("submission");

    let confirmed = backend.confirm(namespace, b"one", &submission).unwrap().expect("inclusion");
    assert_eq!(confirmed.blob_ref.height, 41);
    assert_eq!(confirmed.blob_ref.commitment, commitment);
    assert_eq!(confirmed.blob_ref.namespace.0, namespace.0);
    assert_eq!(confirmed.tx_hash, submission.tx_hash);
    let confirmed = backend.confirm(namespace, b"two", &later).unwrap().expect("inclusion");
    assert_eq!(confirmed.blob_ref.height, 42);

    let unknown = BroadcastedSubmission { tx_hash: Digest([1; 32]), tx_bytes: Vec::new() };
    assert!(matches!(
        backend.confirm(namespace, b"one", &unknown),
        Err(DaError::CelestiaSubmit(text)) if text == "unknown submission; re-broadcast required"
    ));
    assert!(matches!(
        backend.confirm(NamespaceId([1; 29]), b"one", &submission),
        Err(DaError::InvalidNamespace)
    ));
}

#[test]
fn failed_broadcasts_are_not_noted() {
    let commitment = BlobCommitment([5; 32]);
    let mut backend = backend(None, None);
    for (reply, message) in [
        (json("{\"result\":\"41\"}"), "blob.Submit returned non-u64 height"),
        (json("{\"result\":-1}"), "blob.Submit returned non-u64 height"),
        (json("{\"result\":1.5}"), "blob.Submit returned non-u64 height"),
        (json("{}"), "blob.Submit response missing result"),
        (
            json("{\"error\":{\"message\":\"insufficient funds\"}}"),
            "blob.Submit error: insufficient funds",
        ),
        (RpcReply::Unsent("x".to_string()), "blob.Submit request failed: x"),
    ] {
        let result = backend.broadcast_reply(commitment, reply);
        assert!(matches!(result, Err(DaError::CelestiaSubmit(text)) if text == message));
    }
    assert_eq!(backend.submitted.get(&pseudo_tx_hash(41, &commitment)), None);
}

#[test]
fn submissions_keep_the_latest_height() {
    let mut submissions = Submissions::new();
    assert_eq!(submissions.get(&Digest([1; 32])), None);
    submissions.insert(Digest([1; 32]), 4);
    submissions.insert(Digest([2; 32]), 5);
    submissions.insert(Digest([1; 32]), 6);
    assert_eq!(submissions.get(&Digest([1; 32])), Some(6));
    assert_eq!(submissions.get(&Digest([2; 32])), Some(5));
    assert_eq!(submissions.get(&Digest([3; 32])), None);
}

#[test]
fn reads_check_the_commitment() {
    let namespace = namespace(b"coro-const");
    let backend = backend(None, None);
    let commitment = compute_commitment(namespace, b"hello").expect("commitment");
    let blob_ref = BlobRef { height: 41, namespace, commitment };
    let read = |reply: RpcReply| backend.get_reply(&blob_ref, reply);

    assert_eq!(read(json("{\"result\":{\"data\":\"aGVsbG8=\"}}")).unwrap(), b"hello");
    assert!(matches!(
        read(json("{\"result\":{\"data\":\"aGVsbG9v\"}}")),
        Err(DaError::CommitmentMismatch)
    ));
    assert!(matches!(
        read(json("{\"error\":{\"message\":\"blob: not found\"}}")),
        Err(DaError::NotFound)
    ));
    assert!(matches!(
        read(json("{\"error\":{\"message\":\"not foun\"}}")),
        Err(DaError::CelestiaRead(text)) if text == "blob.Get error: not foun"
    ));
    assert!(matches!(
        read(json("{\"result\":{\"data\":7}}")),
        Err(DaError::CelestiaRead(text)) if text == "blob.Get response missing data"
    ));
    assert!(matches!(
        read(json("{\"result\":{}}")),
        Err(DaError::CelestiaRead(text)) if text == "blob.Get response missing data"
    ));
    assert!(matches!(
        read(json("{\"result\":{\"data\":\"*\"}}")),
        Err(DaError::CelestiaRead(text)) if text.starts_with("blob data decode failed: ")
    ));

    let invalid = BlobRef { height: 41, namespace: NamespaceId([1; 29]), commitment };
    assert!(matches!(
        backend.get_reply(&invalid, json("{\"result\":{\"data\":\"aGVsbG8=\"}}")),
        Err(DaError::InvalidNamespace)
    ));
}

#[test]
fn proofs_are_not_supported() {
    let backend = backend(None, None);
    let blob_ref = BlobRef {
        height: 1,
        namespace: namespace(b"coro-const"),
        commitment: BlobCommitment([0; 32]),
    };
    assert!(matches!(
        backend.verify(&blob_ref, VerificationMode::RpcIncluded),
        Ok(Verification::RpcIncluded)
    ));
    assert!(matches!(
        backend.verify(&blob_ref, VerificationMode::ProofRequired),
        Err(DaError::UnsupportedVerificationMode)
    ));
}

#[test]
fn sources_serve_or_withhold_payloads() {
    let source = SequencerSource::new("sequencer");
    assert_eq!(source.payload_query(3), Some(3));
    let payload = source.payload::<DaError, _>(3, |sequencer, sequence| {
        assert_eq!(*sequencer, "sequencer");
        assert_eq!(sequence, 3);
        Ok(Some(vec![1, 2]))
    });
    assert_eq!(payload.unwrap(), Some(vec![1, 2]));
    let failed = source
        .payload::<DaError, _>(3, |_, _| {
            Err(SequencerError::Application(EngineError::InvalidTransfer))
        })
        .expect_err("failure");
    assert!(matches!(
        failed,
        SourceError::Decode(text) if text == "block contains an inapplicable transfer"
    ));

    let source = SequencerSource::cursors_only("sequencer");
    assert_eq!(source.payload_query(3), None);
    let payload = source.payload::<DaError, _>(3, |_, _| panic!("payloads are withheld"));
    assert_eq!(payload.unwrap(), None);
}

#[test]
fn sequencer_failures_are_handed_on() {
    assert!(matches!(
        to_core(SequencerError::Core(DaError::NotFound)),
        SourceError::Core(DaError::NotFound)
    ));
    assert!(matches!(
        to_core::<DaError>(SequencerError::Application(EngineError::ParentMismatch)),
        SourceError::Decode(text) if text == "block parent does not match chain head"
    ));
    assert_eq!(query_result::<Option<u64>, DaError>(Ok(Some(4))).unwrap(), Some(4));
    let failed: Result<u64, SourceError<DaError>> =
        query_result(Err(SequencerError::Core(DaError::CommitmentMismatch)));
    assert!(matches!(failed, Err(SourceError::Core(DaError::CommitmentMismatch))));
}
