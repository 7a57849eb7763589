//! The mempool's HTTP interface, served by axum from the library's routes.

use axum::body::{Body, Bytes};
use axum::extract::{DefaultBodyLimit, Path};
use axum::http::{header, HeaderValue, Method as HttpMethod, Request, StatusCode};
use axum::routing::{get, post};
use axum::Router;
use commonware_codec::Encode as _;
use commonware_cryptography::{Hasher as _, Sha256};
use coro_engine::accounts::{Account, Nonce};
use coro_engine::hash::Digest;
use coro_engine::keys::PrivateKey;
use coro_engine::mempool::{
    account_reply, account_request, batch_id, decode_body, ingest_reply, max_request_bytes,
    max_transaction_count, min_signed_transaction_bytes, parse_public_key, read_only_router,
    round_reply, router, split_prefix, status_reply, submit_reply, verified_batch, weigh_batch,
    AccountResponse, DecodedTransactions, Handler, IngestStatus, Method, NonceResponse, Origins,
    Reply, RequestHeader, Routes,
    SizedTransaction, Status, Submission, TransactionSizes, Verdict, VerifiedTransaction,
};
use futures::executor::block_on;
use tower::ServiceExt as _;
use tower_http::cors::{Any, CorsLayer};

const SIZES: TransactionSizes = TransactionSizes { public_key: 33, min_signature: 65 };
const MIN_TRANSACTION: usize = 133;

/// Decodes transactions of the smallest size, each filled with one byte.
fn decode(rest: &[u8], count: usize) -> Option<DecodedTransactions<u8>> {
    if rest.len() < count * MIN_TRANSACTION {
        return None;
    }
    let (batch, left) = rest.split_at(count * MIN_TRANSACTION);
    let sized = |bytes: &[u8]| SizedTransaction { transaction: bytes[0], size: bytes.len() };
    let transactions = batch.chunks(MIN_TRANSACTION).map(sized).collect();
    Some(DecodedTransactions { transactions, left: left.len() })
}

fn http<T>(reply: Reply<T>) -> StatusCode {
    StatusCode::from_u16(reply.status.code()).expect("status")
}

/// The one account that the server knows.
fn known_account() -> (Vec<u8>, Account) {
    let mut key = vec![0];
    key.extend_from_slice(&PrivateKey::from_seed(7).public_key().0);
    let account = Account::new(42, Nonce { base: 3, bitmap: 5 }, |_, _| Vec::new());
    (key, account)
}

fn serve(routes: Routes, max_batch_bytes: usize) -> Router {
    let mut app = Router::new();
    for route in &routes.routes {
        let handler = match route.handler {
            Handler::SubmitBatch => post(move |body: Bytes| async move {
                match decode_body(&body, max_batch_bytes, SIZES, decode) {
                    Ok(_) => http(submit_reply(Submission::Resolved(()))),
                    Err(status) => http(submit_reply::<()>(Submission::Refused(status))),
                }
            }),
            Handler::IngestBatch => post(move |body: Bytes| async move {
                match decode_body(&body, max_batch_bytes, SIZES, decode) {
                    Ok(_) => http(ingest_reply(Submission::Resolved(IngestStatus::Accepted), &[])),
                    Err(status) => http(ingest_reply(Submission::Refused(status), &[])),
                }
            }),
            Handler::FetchStatus => get(|| async { http(status_reply::<()>(None)) }),
            Handler::FetchAccount => get(|Path(text): Path<String>| async move {
                let (known, account) = known_account();
                match parse_public_key(&text, SIZES.public_key, |bytes| Some(bytes.to_vec())) {
                    Ok(key) if key == known => http(account_reply(Some(&account))),
                    Ok(_) => http(account_reply(None)),
                    Err(status) => http(Reply::<()> { status, body: None }),
                }
            }),
            Handler::FetchConsensusRound => get(|| async { http(round_reply(Some(11))) }),
        };
        app = app.route(route.path, handler);
    }
    if let Some(limit) = routes.max_body_bytes {
        app = app.layer(DefaultBodyLimit::max(limit));
    }
    let methods: Vec<HttpMethod> = routes
        .cross_origin
        .methods
        .iter()
        .map(|method| match method {
            Method::Get => HttpMethod::GET,
            Method::Post => HttpMethod::POST,
        })
        .collect();
    let headers: Vec<header::HeaderName> = routes
        .cross_origin
        .headers
        .iter()
        .map(|name| match name {
            RequestHeader::ContentType => header::CONTENT_TYPE,
        })
        .collect();
    let cors = CorsLayer::new().allow_methods(methods).allow_headers(headers);
    app.layer(match routes.cross_origin.origins {
        Origins::Any => cors.allow_origin(Any),
    })
}

fn test_router(max_batch_bytes: usize) -> Router {
    serve(router(max_batch_bytes), max_batch_bytes)
}

#[test]
fn router_accepts_requests_above_axum_default_limit() {
    let app = test_router(4 * 1024 * 1024);
    let request = Request::builder()
        .method("POST")
        .uri("/transactions")
        .body(Body::from(vec![0u8; 2 * 1024 * 1024 + 1]))
        .expect("request should build");

    let response = block_on(app.oneshot(request)).expect("router should return a response");

    assert_eq!(response.status(), StatusCode::BAD_REQUEST);
}

#[test]
fn router_rejects_malformed_length_prefix_without_panicking() {
    let app = test_router(4 * 1024 * 1024);
    let request = Request::builder()
        .method("POST")
        .uri("/transactions")
        .body(Body::from(u32::MAX.encode()))
        .expect("request should build");

    let response = block_on(app.oneshot(request)).expect("router should return a response");

    assert_eq!(response.status(), StatusCode::BAD_REQUEST);
}

#[test]
fn router_allows_explorer_account_preflight() {
    let app = test_router(4 * 1024 * 1024);
    let request = Request::builder()
        .method(HttpMethod::OPTIONS)
        .uri("/account/00")
        .header(header::ORIGIN, "http://127.0.0.1:5173")
        .header(header::ACCESS_CONTROL_REQUEST_METHOD, "GET")
        .body(Body::empty())
        .expect("request should build");

    let response = block_on(app.oneshot(request)).expect("router should return a response");

    assert_eq!(response.status(), StatusCode::OK);
    assert_eq!(
        response.headers().get(header::ACCESS_CONTROL_ALLOW_ORIGIN),
        Some(&HeaderValue::from_static("*")),
    );
}

#[test]
fn read_only_router_serves_account_and_blocks_submission() {
    let app = serve(read_only_router(), 0);
    let (key, _) = known_account();
    let public_key = commonware_formatting::hex(&key);

    let account_request = Request::builder()
        .method(HttpMethod::GET)
        .uri(format!("/account/{public_key}"))
        .body(Body::empty())
        .expect("request should build");
    let account_response =
        block_on(app.clone().oneshot(account_request)).expect("router should respond");
    assert_eq!(account_response.status(), StatusCode::OK);

    let round_request = Request::builder()
        .method(HttpMethod::GET)
        .uri("/consensus/round")
        .body(Body::empty())
        .expect("request should build");
    let round_response =
        block_on(app.clone().oneshot(round_request)).expect("router should respond");
    assert_eq!(round_response.status(), StatusCode::OK);

    let submit_request = Request::builder()
        .method(HttpMethod::POST)
        .uri("/transactions")
        .body(Body::empty())
        .expect("request should build");
    let submit_response = block_on(app.oneshot(submit_request)).expect("router should respond");
    assert_eq!(submit_response.status(), StatusCode::NOT_FOUND);
}

#[test]
fn router_refuses_bodies_above_its_limit() {
    let app = test_router(10);
    let request = Request::builder()
        .method("POST")
        .uri("/transactions/ingest")
        .body(Body::from(vec![1u8; 16]))
        .expect("request should build");
    let response = block_on(app.oneshot(request)).expect("router should return a response");
    assert_eq!(response.status(), StatusCode::PAYLOAD_TOO_LARGE);
}

#[test]
fn routes_are_the_documented_ones() {
    let routes = router(100);
    let listed: Vec<(&str, Method, Handler)> =
        routes.routes.iter().map(|route| (route.path, route.method, route.handler)).collect();
    assert_eq!(
        listed,
        [
            ("/transactions", Method::Post, Handler::SubmitBatch),
            ("/transactions/ingest", Method::Post, Handler::IngestBatch),
            ("/transactions/{batch_id}", Method::Get, Handler::FetchStatus),
            ("/account/{public_key}", Method::Get, Handler::FetchAccount),
            ("/consensus/round", Method::Get, Handler::FetchConsensusRound),
        ]
    );
    assert_eq!(routes.max_body_bytes, Some(105));
    assert_eq!(routes.cross_origin.origins, Origins::Any);
    assert_eq!(routes.cross_origin.methods, [Method::Get, Method::Post]);
    assert_eq!(routes.cross_origin.headers, [RequestHeader::ContentType]);

    let routes = read_only_router();
    assert!(routes.routes.iter().all(|route| route.method == Method::Get));
    assert_eq!(routes.routes.len(), 2);
    assert_eq!(routes.max_body_bytes, None);
    assert_eq!(routes.cross_origin.origins, Origins::Any);
    assert_eq!(routes.cross_origin.methods, [Method::Get]);
    assert_eq!(routes.cross_origin.headers, [RequestHeader::ContentType]);
}

#[test]
fn limits_follow_the_sizes() {
    assert_eq!(max_request_bytes(100), 105);
    assert_eq!(max_request_bytes(usize::MAX - 2), usize::MAX);
    assert_eq!(min_signed_transaction_bytes(SIZES), MIN_TRANSACTION);
    assert_eq!(max_transaction_count(0, SIZES), None);
    assert_eq!(max_transaction_count(MIN_TRANSACTION, SIZES), None);
    assert_eq!(max_transaction_count(1 + MIN_TRANSACTION, SIZES), Some(1));
    assert_eq!(max_transaction_count(2 * MIN_TRANSACTION, SIZES), Some(1));
    assert_eq!(max_transaction_count(1 + 2 * MIN_TRANSACTION, SIZES), Some(2));
}

fn body_of(prefix: &[u8], count: usize) -> Vec<u8> {
    let mut body = prefix.to_vec();
    for index in 0..count {
        body.extend_from_slice(&[index as u8; MIN_TRANSACTION]);
    }
    body
}

#[test]
fn bodies_start_with_their_length() {
    let body = body_of(&[2], 2);
    let (count, rest) = split_prefix(&body, 1_000, SIZES).expect("prefix");
    assert_eq!(count, 2);
    assert_eq!(rest, &body[1..]);

    // A prefix of two bytes.
    let body = body_of(&[0x80 + 72, 1], 200);
    let (count, rest) = split_prefix(&body, 100_000, SIZES).expect("prefix");
    assert_eq!(count, 200);
    assert_eq!(rest, &body[2..]);

    let refused = |body: &[u8], limit: usize| split_prefix(body, limit, SIZES).err();
    assert_eq!(refused(&body_of(&[1], 1), 100), Some(Status::PayloadTooLarge));
    assert_eq!(refused(&[], 100), Some(Status::BadRequest));
    assert_eq!(refused(&[1; MIN_TRANSACTION], 200), Some(Status::BadRequest));
    assert_eq!(refused(&body_of(&[0], 1), 200), Some(Status::BadRequest));
    assert_eq!(refused(&body_of(&[2], 1), 200), Some(Status::BadRequest));
    assert_eq!(refused(&body_of(&[0xff; 5], 1), 200), Some(Status::BadRequest));
    assert_eq!(refused(&body_of(&[0x81, 0], 1), 200), Some(Status::BadRequest));
    assert_eq!(
        refused(&body_of(&[0x81, 0x80, 0x80, 0x80, 0x10], 1), 200),
        Some(Status::BadRequest)
    );
}

#[test]
fn encoded_lengths_read_back() {
    for count in [1usize, 127, 128, 300, 16_383, 16_384] {
        let body = body_of(&count.encode(), count);
        let (read, rest) = split_prefix(&body, body.len(), SIZES).expect("prefix");
        assert_eq!(read, count);
        assert_eq!(rest.len(), count * MIN_TRANSACTION);
    }
}

#[test]
fn bodies_decode_to_batches() {
    let batch = decode_body(&body_of(&[3], 3), 3 * MIN_TRANSACTION, SIZES, decode).expect("batch");
    assert_eq!(batch.transactions, [0, 1, 2]);
    assert_eq!(batch.total_bytes, 3 * MIN_TRANSACTION);

    // Something is left behind the transactions.
    let mut body = body_of(&[1], 1);
    body.push(0);
    assert_eq!(decode_body(&body, 500, SIZES, decode).err(), Some(Status::BadRequest));

    // The request fits, and the batch does not.
    let body = body_of(&[1], 1);
    let limit = MIN_TRANSACTION - 1;
    assert_eq!(decode_body(&body, limit, SIZES, decode).err(), Some(Status::PayloadTooLarge));

    let none: Option<DecodedTransactions<u8>> = None;
    assert_eq!(weigh_batch(none, 10).err(), Some(Status::BadRequest));
    let with_left = |left: usize| {
        Some(DecodedTransactions::<u8> { transactions: Vec::new(), left })
    };
    assert_eq!(weigh_batch(with_left(0), 0).expect("batch").total_bytes, 0);
    assert_eq!(weigh_batch(with_left(1), 0).err(), Some(Status::BadRequest));
}

#[test]
fn verification_decides_on_the_batch() {
    let verified = |byte: u8| VerifiedTransaction {
        transaction: byte,
        message_digest: Digest([byte; 32]),
    };
    let batch = verified_batch(Verdict::Valid(vec![verified(1), verified(2)]), 9).expect("batch");
    assert_eq!(batch.digests, [Digest([1; 32]), Digest([2; 32])]);
    assert_eq!(batch.transactions.len(), 2);
    assert_eq!(batch.total_bytes, 9);
    assert_eq!(verified_batch::<u8>(Verdict::Invalid, 9).err(), Some(Status::BadRequest));
    assert_eq!(verified_batch::<u8>(Verdict::Lost, 9).err(), Some(Status::InternalServerError));
}

#[test]
fn replies_follow_the_outcome() {
    let code = |submission: Submission<u8>| submit_reply(submission).status.code();
    assert_eq!(code(Submission::Refused(Status::PayloadTooLarge)), 413);
    assert_eq!(code(Submission::Refused(Status::BadRequest)), 400);
    assert_eq!(code(Submission::PoolFull), 503);
    assert_eq!(code(Submission::Lost), 500);
    assert_eq!(code(Submission::Resolved(4)), 200);
    assert_eq!(submit_reply(Submission::Resolved(4)).body, Some(4));
    assert_eq!(submit_reply::<u8>(Submission::PoolFull).body, None);

    let digests = [Digest([0xab; 32]), Digest([1; 32])];
    let accepted = ingest_reply(Submission::Resolved(IngestStatus::Accepted), &digests);
    assert_eq!(accepted.status.code(), 202);
    assert_eq!(accepted.body.expect("body").digests, ["ab".repeat(32), "01".repeat(32)]);
    let code =
        |ingestion: Submission<IngestStatus>| ingest_reply(ingestion, &digests).status.code();
    assert_eq!(code(Submission::Resolved(IngestStatus::Dropped)), 503);
    assert_eq!(code(Submission::PoolFull), 503);
    assert_eq!(code(Submission::Lost), 500);
    assert_eq!(code(Submission::Refused(Status::BadRequest)), 400);

    assert_eq!(status_reply(Some(3)).status.code(), 200);
    assert_eq!(status_reply(Some(3)).body, Some(3));
    assert_eq!(status_reply::<u8>(None).status.code(), 404);
    assert_eq!(round_reply(Some(14)).body.expect("body").round, 14);
    assert_eq!(round_reply(Some(14)).status.code(), 200);
    assert_eq!(round_reply(None).status.code(), 503);
}

#[test]
fn batch_ids_are_digests_as_text() {
    let expected = commonware_formatting::hex(&Sha256::hash(b"body").0);
    assert_eq!(batch_id(b"body"), expected);
    assert_eq!(
        batch_id(b""),
        "e3b0c44298fc1c149afbf4c8996fb92427ae41e4649b934ca495991b7852b855"
    );
}

#[test]
fn account_requests_are_checked_in_order() {
    let decode = |bytes: &[u8]| if bytes[0] == 0 { Some(bytes.to_vec()) } else { None };
    let ask = |text: &str, attached: bool| account_request(text, 2, decode, attached);
    assert_eq!(ask("0001", true), Ok(vec![0, 1]));
    assert_eq!(ask("0x0001", true), Ok(vec![0, 1]));
    assert_eq!(ask("0001", false), Err(Status::ServiceUnavailable));
    assert_eq!(ask("xy", false), Err(Status::BadRequest));
    assert_eq!(ask("00", true), Err(Status::BadRequest));
    assert_eq!(ask("000102", true), Err(Status::BadRequest));
    assert_eq!(ask("0101", false), Err(Status::BadRequest));
}

#[test]
fn account_replies_hold_balance_and_nonce() {
    let (_, account) = known_account();
    let reply = account_reply(Some(&account));
    assert_eq!(reply.status, Status::Success);
    assert_eq!(
        reply.body,
        Some(AccountResponse { balance: 42, nonce: NonceResponse { base: 3, bitmap: 5 } })
    );
    let reply = account_reply(None);
    assert_eq!(reply.status.code(), 404);
    assert_eq!(reply.body, None);
}
