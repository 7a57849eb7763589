//! Defaults, and what is derived from the configuration.

use commonware_codec::Encode as _;
use commonware_cryptography::{ed25519, Signer as _};
use coro_engine::accounts::{AccountKey, Nonce};
use coro_engine::backend::VerificationMode;
use coro_engine::chain::PublicKey;
use coro_engine::config::{
    auth_token, auth_token_variable, backend, chain_config, default_auth_token_env,
    default_genesis_accounts, default_genesis_balance, default_genesis_seed_offset,
    default_history_listen, default_log_level, default_max_delay_ms, default_max_metadata_bytes,
    default_max_output_bytes, default_max_payload_bytes, default_max_tx_bytes, default_max_txs,
    default_mempool_listen, default_partition_prefix, default_read_timeout_ms,
    default_readback_timeout_ms, default_replica_listen, default_replica_partition_prefix,
    default_replica_storage_dir, default_serve_payloads, default_signer_seed, default_storage_dir,
    default_sync_interval_ms, default_worker_threads, genesis, mempool_config, namespace,
    parse_namespace, publisher_config, reader_config, replica_config, sequencer_config, signer,
    BatchConfig, CelestiaConfig, GenesisConfig, KeyError, NamespaceError, MEMPOOL_MAILBOX_SIZE,
};
use coro_engine::keys::PrivateKey;

#[test]
fn parses_ten_byte_namespace_suffix() {
    let namespace = namespace("0000008e5f679bf7116c");
    assert_eq!(
        &namespace.0[19..],
        &[0, 0, 0, 0x8e, 0x5f, 0x67, 0x9b, 0xf7, 0x11, 0x6c]
    );
    assert_eq!(&namespace.0[..19], &[0; 19]);
}

fn account_key(public_key: PublicKey) -> AccountKey {
    let mut bytes = vec![0];
    bytes.extend_from_slice(&public_key.0);
    AccountKey { bytes }
}

fn encode(balance: u64, nonce: Nonce) -> Vec<u8> {
    vec![balance as u8, nonce.base as u8]
}

fn seeded(seed: u64) -> PublicKey {
    let key = ed25519::PrivateKey::from_seed(seed).public_key();
    PublicKey(key.encode().as_ref().try_into().expect("32 bytes"))
}

#[test]
fn default_genesis_matches_spammer_seed_range() {
    let genesis =
        genesis(&GenesisConfig::default(), Nonce { base: 0, bitmap: 0 }, encode, account_key);
    let again =
        self::genesis(&GenesisConfig::default(), Nonce { base: 0, bitmap: 0 }, encode, account_key);
    assert_eq!(again.state_root(), genesis.state_root());
    assert_eq!(again.parent, genesis.parent);
    let key = account_key(seeded(1000));
    assert_eq!(genesis.accounts.get(&key).expect("account").balance(), 1_000);

    assert_eq!(genesis.accounts.len(), 10);
    let last = genesis.accounts.get(&account_key(seeded(1009))).expect("account");
    assert_eq!(last.balance(), 1_000);
    assert_eq!(last.nonce(), Nonce { base: 0, bitmap: 0 });
    assert_eq!(last.encoded(), encode(1_000, last.nonce()));
    assert!(genesis.accounts.get(&account_key(seeded(1010))).is_none());
    assert!(genesis.accounts.get(&account_key(seeded(999))).is_none());
}

#[test]
fn genesis_may_be_empty_or_end_at_the_last_seed() {
    let config = GenesisConfig { accounts: 0, seed_offset: u64::MAX, balance: 5 };
    let nonce = Nonce { base: 0, bitmap: 0 };
    assert_eq!(genesis(&config, nonce, encode, account_key).accounts.len(), 0);
    let config = GenesisConfig { accounts: 1, seed_offset: u64::MAX, balance: 5 };
    let chain = genesis(&config, nonce, encode, account_key);
    assert_eq!(chain.accounts.get(&account_key(seeded(u64::MAX))).expect("account").balance(), 5);
}

#[test]
fn namespaces_are_suffixes_or_full() {
    let full = "00000000000000000000000000000000000000636f726f2d636f6e7374";
    assert_eq!(&parse_namespace(full).expect("namespace").0[19..], b"coro-const");
    assert_eq!(parse_namespace("0x636f726F2d636f6e7374").expect("prefix").0[19], 0x63);
    assert_eq!(
        &parse_namespace(" 636f 726f\t2d636f6e7374\n").expect("blanks").0[19..],
        b"coro-const"
    );
    assert_eq!(parse_namespace("zz").err(), Some(NamespaceError::NotHex));
    assert_eq!(parse_namespace("abc").err(), Some(NamespaceError::NotHex));
    let error = parse_namespace("0011").err().expect("error");
    assert_eq!(error, NamespaceError::Length(2));
    assert_eq!(
        error.to_text(),
        "namespace must be 10-byte suffix or full 29-byte namespace, got 2 bytes"
    );
    assert_eq!(NamespaceError::NotHex.to_text(), "namespace must be hex");
}

#[test]
fn signer_prefers_the_configured_key() {
    let from_seed = signer(&None, 7).expect("key");
    assert_eq!(from_seed.public_key(), seeded(7));
    assert_eq!(PrivateKey::from_seed(7).0, from_seed.0);

    let text = format!("{}ff", "07".repeat(32));
    let configured = signer(&Some(text), 7).expect("key");
    assert_eq!(configured.0, [7; 32]);
    assert_ne!(configured.public_key(), seeded(7));

    let short = signer(&Some("0707".to_string()), 7).err().expect("error");
    assert_eq!(short, KeyError::TooShort);
    assert_eq!(short.to_text(), "private_key must decode as ed25519");
    let text = signer(&Some("key".to_string()), 7).err().expect("error");
    assert_eq!(text, KeyError::NotHex);
    assert_eq!(text.to_text(), "private_key must be hex");
}

#[test]
fn configured_token_goes_before_the_environment() {
    let value = || Some("from-env".to_string());
    let mut config = CelestiaConfig::default();
    assert_eq!(auth_token_variable(&config).as_deref(), Some("CELESTIA_AUTH_TOKEN"));
    assert_eq!(auth_token(&config, value()).as_deref(), Some("from-env"));
    assert_eq!(auth_token(&config, Some(String::new())), None);
    assert_eq!(auth_token(&config, None), None);

    config.auth_token_env = None;
    assert_eq!(auth_token_variable(&config), None);
    assert_eq!(auth_token(&config, value()), None);

    config.auth_token = Some("configured".to_string());
    config.auth_token_env = Some("NAME".to_string());
    assert_eq!(auth_token_variable(&config), None);
    assert_eq!(auth_token(&config, value()).as_deref(), Some("configured"));
    config.auth_token = Some(String::new());
    assert_eq!(auth_token(&config, value()).as_deref(), Some(""));
}

#[test]
fn derived_configuration_follows_the_file() {
    let celestia = CelestiaConfig::default();
    assert_eq!(celestia.rpc_url, "http://127.0.0.1:26658");
    assert_eq!(celestia.auth_token, None);
    assert_eq!(celestia.namespace, "00000000000000000000");
    let node = backend(&celestia, Some("token".to_string()));
    assert_eq!(node.url, "http://127.0.0.1:26658");
    assert_eq!(node.auth_token.as_deref(), Some("token"));
    assert_eq!(node.gas.gas, Some(75_000));
    assert_eq!(node.gas.gas_price.as_ref().map(|price| price.to_text()).as_deref(), Some("0.004"));

    let batch = BatchConfig {
        max_txs: 1,
        max_payload_bytes: 2,
        max_tx_bytes: 3,
        max_metadata_bytes: 4,
        max_output_bytes: 5,
        max_delay_ms: 6,
        readback_timeout_ms: 7,
        read_timeout_ms: 8,
    };
    let chain = chain_config(&celestia, &batch).expect("chain");
    assert_eq!(chain.namespace.0, [0; 29]);
    assert_eq!(chain.max_payload_bytes, 2);
    let mut wrong = CelestiaConfig::default();
    wrong.namespace = "0".to_string();
    assert_eq!(chain_config(&wrong, &batch).err(), Some(NamespaceError::NotHex));

    let publisher = publisher_config("p", &chain, &batch);
    assert_eq!(publisher.partition, "p-publisher");
    assert_eq!(publisher.retry.initial_backoff_ms, 500);
    assert_eq!(publisher.retry.max_backoff_ms, 5_000);
    assert_eq!(publisher.retry.max_attempts, Some(5));
    assert_eq!(publisher.readback_timeout_ms, 7);
    assert_eq!(publisher.chain.max_payload_bytes, 2);

    let reader = reader_config(&chain, &batch);
    assert_eq!(reader.verification, VerificationMode::RpcIncluded);
    assert_eq!(reader.read_timeout_ms, 8);

    let sequencer = sequencer_config("p", &batch);
    assert_eq!(sequencer.partition, "p-sequencer");
    assert_eq!(sequencer.batch_policy.max_txs, 1);
    assert_eq!(sequencer.batch_policy.max_payload_bytes, 2);
    assert_eq!(sequencer.batch_policy.max_delay_ms, 6);
    assert_eq!(sequencer.max_tx_bytes, 3);
    assert_eq!(sequencer.max_metadata_bytes, 4);

    let replica = replica_config("p", &batch);
    assert_eq!(replica.partition, "p-replica");
    assert_eq!(replica.max_payload_bytes, 2);
    assert_eq!(replica.max_metadata_bytes, 4);
    assert_eq!(replica.max_output_bytes, 5);

    let mempool = mempool_config(&batch);
    assert_eq!(mempool.max_pool_bytes, 64 * 1024 * 1024);
    assert_eq!(mempool.max_propose_bytes, 2);
    assert_eq!(mempool.drop_grace_blocks, 2);
    assert_eq!(MEMPOOL_MAILBOX_SIZE, 65_536);
}

#[test]
fn defaults_are_the_documented_ones() {
    assert_eq!(default_storage_dir(), "local/coro-sequencer");
    assert_eq!(default_replica_storage_dir(), "local/coro-replica");
    assert_eq!(default_partition_prefix(), "coro-sequencer");
    assert_eq!(default_replica_partition_prefix(), "coro-replica");
    assert_eq!(default_worker_threads(), 2);
    assert_eq!(default_log_level(), "info");
    assert_eq!(default_mempool_listen(), "127.0.0.1:8080");
    assert_eq!(default_history_listen(), "127.0.0.1:8081");
    assert_eq!(default_replica_listen(), "127.0.0.1:8082");
    assert_eq!(default_signer_seed(), 0);
    assert_eq!(default_genesis_accounts(), 10);
    assert_eq!(default_genesis_seed_offset(), 1000);
    assert_eq!(default_genesis_balance(), 1_000);
    assert_eq!(default_max_txs(), 10_000);
    assert_eq!(default_max_payload_bytes(), 8 * 1024 * 1024);
    assert_eq!(default_max_tx_bytes(), 16 * 1024);
    assert_eq!(default_max_metadata_bytes(), 64);
    assert_eq!(default_max_output_bytes(), 64);
    assert_eq!(default_max_delay_ms(), 1_000);
    assert_eq!(default_readback_timeout_ms(), 60_000);
    assert_eq!(default_read_timeout_ms(), 60_000);
    assert_eq!(default_sync_interval_ms(), 500);
    assert!(default_serve_payloads());
    assert_eq!(default_auth_token_env().as_deref(), Some("CELESTIA_AUTH_TOKEN"));

    let batch = BatchConfig::default();
    assert_eq!(batch.max_txs, default_max_txs());
    assert_eq!(batch.max_payload_bytes, default_max_payload_bytes());
    assert_eq!(batch.max_tx_bytes, default_max_tx_bytes());
    assert_eq!(batch.max_metadata_bytes, default_max_metadata_bytes());
    assert_eq!(batch.max_output_bytes, default_max_output_bytes());
    assert_eq!(batch.max_delay_ms, default_max_delay_ms());
    assert_eq!(batch.readback_timeout_ms, default_readback_timeout_ms());
    assert_eq!(batch.read_timeout_ms, default_read_timeout_ms());
}
