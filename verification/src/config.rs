//! The node's configuration: its defaults, and what is derived from it.
use vstd::prelude::*;

use crate::accounts::{Account, AccountKey, Nonce};
use crate::backend::{GasConfig, GasPrice, NamespaceId, NodeRpcBackend, VerificationMode};
use crate::chain::{ChainState, PublicKey};
use crate::hex::from_hex;
use crate::keys::{read_private_key, PrivateKey};
use crate::text::{decimal_text, join};

verus! {

/// How many messages the mempool's mailbox holds.
pub const MEMPOOL_MAILBOX_SIZE: usize = 65_536;

/// The most bytes that the mempool holds.
pub const DEFAULT_MAX_POOL_BYTES: usize = 67_108_864;

/// The most bytes that a block payload takes by default.
pub const DEFAULT_MAX_PAYLOAD_BYTES: usize = 8_388_608;

/// The most bytes that a transaction takes by default.
pub const DEFAULT_MAX_TX_BYTES: usize = 16_384;

/// The most bytes that a batch's metadata take by default.
pub const DEFAULT_MAX_METADATA_BYTES: usize = 64;

/// The most bytes that a replayed batch's output takes by default.
pub const DEFAULT_MAX_OUTPUT_BYTES: usize = 64;

/// For how many blocks the mempool waits before it drops a batch.
pub const DROP_GRACE_BLOCKS: u64 = 2;

/// How the data-availability layer is reached and paid.
#[derive(Debug)]
pub struct CelestiaConfig {
    pub rpc_url: String,
    pub auth_token: Option<String>,
    pub auth_token_env: Option<String>,
    pub namespace: String,
    pub gas: Option<u64>,
    pub gas_price: Option<GasPrice>,
}

impl Default for CelestiaConfig {
    fn default() -> (config: Self)
        ensures
            config.rpc_url@ == "http://127.0.0.1:26658"@,
            config.auth_token is None,
            config.auth_token_env is Some,
            config.auth_token_env->0@ == "CELESTIA_AUTH_TOKEN"@,
            config.namespace@ == "00000000000000000000"@,
            config.gas == Some(75_000u64),
            config.gas_price is Some,
            crate::json::json_parsed_of("0.004"@) == Some(config.gas_price->0@),
    {
        proof {
            reveal_strlit("0.004");
            assert(crate::json::fraction_at("0.004"@, 1));
        }
        CelestiaConfig {
            rpc_url: "http://127.0.0.1:26658".to_owned(),
            auth_token: None,
            auth_token_env: default_auth_token_env(),
            namespace: "00000000000000000000".to_owned(),
            gas: Some(75_000),
            gas_price: GasPrice::parse("0.004"),
        }
    }
}

/// The limits of batches and of their publication. Times are in milliseconds.
#[derive(Clone, Copy, Debug, PartialEq, Eq, Structural)]
pub struct BatchConfig {
    pub max_txs: usize,
    pub max_payload_bytes: usize,
    pub max_tx_bytes: usize,
    pub max_metadata_bytes: usize,
    pub max_output_bytes: usize,
    pub max_delay_ms: u64,
    pub readback_timeout_ms: u64,
    pub read_timeout_ms: u64,
}

impl Default for BatchConfig {
    fn default() -> (config: Self)
        ensures
            config == (BatchConfig {
                max_txs: 10_000,
                max_payload_bytes: DEFAULT_MAX_PAYLOAD_BYTES,
                max_tx_bytes: DEFAULT_MAX_TX_BYTES,
                max_metadata_bytes: DEFAULT_MAX_METADATA_BYTES,
                max_output_bytes: DEFAULT_MAX_OUTPUT_BYTES,
                max_delay_ms: 1_000,
                readback_timeout_ms: 60_000,
                read_timeout_ms: 60_000,
            }),
    {
        BatchConfig {
            max_txs: default_max_txs(),
            max_payload_bytes: default_max_payload_bytes(),
            max_tx_bytes: default_max_tx_bytes(),
            max_metadata_bytes: default_max_metadata_bytes(),
            max_output_bytes: default_max_output_bytes(),
            max_delay_ms: default_max_delay_ms(),
            readback_timeout_ms: default_readback_timeout_ms(),
            read_timeout_ms: default_read_timeout_ms(),
        }
    }
}

/// The accounts that exist before any block: one for each of `accounts` consecutive
/// seeds from `seed_offset` on, each with the same balance.
#[derive(Clone, Copy, Debug, PartialEq, Eq, Structural)]
pub struct GenesisConfig {
    pub accounts: u32,
    pub seed_offset: u64,
    pub balance: u64,
}

impl GenesisConfig {
    /// Every seed is a 64-bit integer.
    pub open spec fn seeds_fit(self) -> bool {
        self.accounts > 0 ==> self.seed_offset + self.accounts - 1 <= u64::MAX
    }
}

impl Default for GenesisConfig {
    fn default() -> (config: Self)
        ensures
            config == (GenesisConfig { accounts: 10, seed_offset: 1000, balance: 1_000 }),
    {
        GenesisConfig {
            accounts: default_genesis_accounts(),
            seed_offset: default_genesis_seed_offset(),
            balance: default_genesis_balance(),
        }
    }
}

/// Why a namespace was refused.
#[derive(Clone, Copy, Debug, PartialEq, Eq, Structural)]
pub enum NamespaceError {
    /// It is no hexadecimal text.
    NotHex,
    /// It has neither 10 nor 29 bytes, but as many as this.
    Length(usize),
}

/// The message that a refused namespace is reported with.
pub open spec fn namespace_error_text(error: NamespaceError) -> Seq<char> {
    match error {
        NamespaceError::NotHex => "namespace must be hex"@,
        NamespaceError::Length(got) =>
            "namespace must be 10-byte suffix or full 29-byte namespace, got "@
            + crate::text::decimal(got as nat) + " bytes"@,
    }
}

impl NamespaceError {
    /// The message that the error is reported with.
    pub fn to_text(&self) -> (text: String)
        ensures
            text@ == namespace_error_text(*self),
    {
        match self {
            NamespaceError::NotHex => "namespace must be hex".to_owned(),
            NamespaceError::Length(got) => {
                let mut text =
                    "namespace must be 10-byte suffix or full 29-byte namespace, got ".to_owned();
                text.append(decimal_text(*got as u64).as_str());
                text.append(" bytes");
                text
            },
        }
    }
}

/// The namespace that a byte string stands for: a full one stands for itself, and
/// a suffix of ten bytes has zero bytes in front.
pub open spec fn namespace_bytes(bytes: Seq<u8>) -> Result<Seq<u8>, NamespaceError> {
    if bytes.len() == 10 {
        Ok(Seq::new(19, |i: int| 0u8) + bytes)
    } else if bytes.len() == 29 {
        Ok(bytes)
    } else {
        Err(NamespaceError::Length(bytes.len() as usize))
    }
}

/// The namespace that a configured text stands for, or why there is none.
pub open spec fn namespace_of(value: Seq<char>) -> Result<Seq<u8>, NamespaceError> {
    match crate::hex::hex_bytes(value) {
        Some(bytes) => namespace_bytes(bytes),
        None => Err(NamespaceError::NotHex),
    }
}

/// Reads a namespace: the ten-byte suffix of one or a full one, in hexadecimal text.
pub fn parse_namespace(value: &str) -> (namespace: Result<NamespaceId, NamespaceError>)
    ensures
        match namespace {
            Ok(namespace) => namespace_of(value@) == Ok::<Seq<u8>, NamespaceError>(namespace.0@),
            Err(error) => namespace_of(value@) == Err::<Seq<u8>, NamespaceError>(error),
        },
{
    let bytes = match from_hex(value) {
        Some(bytes) => bytes,
        None => {
            return Err(NamespaceError::NotHex);
        },
    };
    let skip: usize = match bytes.len() {
        10 => 19,
        29 => 0,
        other => {
            return Err(NamespaceError::Length(other));
        },
    };
    let mut namespace: [u8; 29] = [0u8;29];
    let mut i: usize = 0;
    while i < bytes.len()
        invariant
            i <= bytes@.len(),
            skip + bytes@.len() == 29,
            forall|j: int| 0 <= j < skip ==> namespace@[j] == 0,
            forall|j: int| 0 <= j < i ==> namespace@[skip + j] == bytes@[j],
        decreases bytes@.len() - i,
    {
        namespace[skip + i] = bytes[i];
        i = i + 1;
    }
    assert(namespace@ =~= Seq::new(skip as nat, |i: int| 0u8) + bytes@);
    assert(skip == 0 ==> namespace@ =~= bytes@);
    Ok(NamespaceId(namespace))
}

/// The namespace that a configured text stands for.
pub fn namespace(value: &str) -> (namespace: NamespaceId)
    requires
        namespace_of(value@) is Ok,
    ensures
        namespace_of(value@) == Ok::<Seq<u8>, NamespaceError>(namespace.0@),
{
    match parse_namespace(value) {
        Ok(namespace) => namespace,
        Err(_) => vstd::pervasive::unreached(),
    }
}

/// Where blocks are published, and how large they may be.
#[derive(Clone, Copy, Debug)]
pub struct ChainConfig {
    pub namespace: NamespaceId,
    pub max_payload_bytes: usize,
}

/// How a failed publication is tried again. Times are in milliseconds.
#[derive(Clone, Copy, Debug, PartialEq, Eq, Structural)]
pub struct RetryConfig {
    pub initial_backoff_ms: u64,
    pub max_backoff_ms: u64,
    pub max_attempts: Option<u32>,
}

/// How blocks are published.
#[derive(Debug)]
pub struct PublisherConfig {
    pub chain: ChainConfig,
    pub partition: String,
    pub retry: RetryConfig,
    pub readback_timeout_ms: u64,
}

/// How published blocks are read.
#[derive(Clone, Copy, Debug)]
pub struct ReaderConfig {
    pub chain: ChainConfig,
    pub verification: VerificationMode,
    pub read_timeout_ms: u64,
}

/// When a batch is closed.
#[derive(Clone, Copy, Debug, PartialEq, Eq, Structural)]
pub struct BatchPolicy {
    pub max_txs: usize,
    pub max_payload_bytes: usize,
    pub max_delay_ms: u64,
}

/// How the sequencer stores and limits batches.
#[derive(Debug)]
pub struct SequencerConfig {
    pub partition: String,
    pub batch_policy: BatchPolicy,
    pub max_tx_bytes: usize,
    pub max_metadata_bytes: usize,
}

/// How a replica stores and limits batches.
#[derive(Debug)]
pub struct ReplicaConfig {
    pub partition: String,
    pub max_payload_bytes: usize,
    pub max_metadata_bytes: usize,
    pub max_output_bytes: usize,
}

/// How the mempool is limited.
#[derive(Clone, Copy, Debug, PartialEq, Eq, Structural)]
pub struct MempoolConfig {
    pub max_pool_bytes: usize,
    pub max_propose_bytes: usize,
    pub drop_grace_blocks: u64,
}

/// Where blocks are published, or why the configured namespace is none.
pub fn chain_config(config: &CelestiaConfig, batch: &BatchConfig) -> (chain: Result<
    ChainConfig,
    NamespaceError,
>)
    ensures
        match chain {
            Ok(chain) => {
                &&& namespace_of(config.namespace@) == Ok::<Seq<u8>, NamespaceError>(
                    chain.namespace.0@,
                )
                &&& chain.max_payload_bytes == batch.max_payload_bytes
            },
            Err(error) => namespace_of(config.namespace@) == Err::<Seq<u8>, NamespaceError>(error),
        },
{
    match parse_namespace(config.namespace.as_str()) {
        Ok(namespace) => Ok(
            ChainConfig { namespace, max_payload_bytes: batch.max_payload_bytes },
        ),
        Err(error) => Err(error),
    }
}

/// How blocks are published.
pub fn publisher_config(prefix: &str, chain: &ChainConfig, batch: &BatchConfig) -> (config:
    PublisherConfig)
    ensures
        config.chain == *chain,
        config.partition@ == prefix@ + "-publisher"@,
        config.retry == (RetryConfig {
            initial_backoff_ms: 500,
            max_backoff_ms: 5_000,
            max_attempts: Some(5),
        }),
        config.readback_timeout_ms == batch.readback_timeout_ms,
{
    PublisherConfig {
        chain: *chain,
        partition: join(prefix, "-publisher"),
        retry: RetryConfig {
            initial_backoff_ms: 500,
            max_backoff_ms: 5_000,
            max_attempts: Some(5),
        },
        readback_timeout_ms: batch.readback_timeout_ms,
    }
}

/// How published blocks are read: what the node gives is checked against its
/// commitment, and no proof is asked for.
pub fn reader_config(chain: &ChainConfig, batch: &BatchConfig) -> (config: ReaderConfig)
    ensures
        config == (ReaderConfig {
            chain: *chain,
            verification: VerificationMode::RpcIncluded,
            read_timeout_ms: batch.read_timeout_ms,
        }),
{
    ReaderConfig {
        chain: *chain,
        verification: VerificationMode::RpcIncluded,
        read_timeout_ms: batch.read_timeout_ms,
    }
}

/// How the sequencer stores and limits batches.
pub fn sequencer_config(prefix: &str, batch: &BatchConfig) -> (config: SequencerConfig)
    ensures
        config.partition@ == prefix@ + "-sequencer"@,
        config.batch_policy == (BatchPolicy {
            max_txs: batch.max_txs,
            max_payload_bytes: batch.max_payload_bytes,
            max_delay_ms: batch.max_delay_ms,
        }),
        config.max_tx_bytes == batch.max_tx_bytes,
        config.max_metadata_bytes == batch.max_metadata_bytes,
{
    SequencerConfig {
        partition: join(prefix, "-sequencer"),
        batch_policy: BatchPolicy {
            max_txs: batch.max_txs,
            max_payload_bytes: batch.max_payload_bytes,
            max_delay_ms: batch.max_delay_ms,
        },
        max_tx_bytes: batch.max_tx_bytes,
        max_metadata_bytes: batch.max_metadata_bytes,
    }
}

/// How a replica stores and limits batches.
pub fn replica_config(prefix: &str, batch: &BatchConfig) -> (config: ReplicaConfig)
    ensures
        config.partition@ == prefix@ + "-replica"@,
        config.max_payload_bytes == batch.max_payload_bytes,
        config.max_metadata_bytes == batch.max_metadata_bytes,
        config.max_output_bytes == batch.max_output_bytes,
{
    ReplicaConfig {
        partition: join(prefix, "-replica"),
        max_payload_bytes: batch.max_payload_bytes,
        max_metadata_bytes: batch.max_metadata_bytes,
        max_output_bytes: batch.max_output_bytes,
    }
}

/// How the mempool is limited: it proposes no more than a payload takes.
pub fn mempool_config(batch: &BatchConfig) -> (config: MempoolConfig)
    ensures
        config == (MempoolConfig {
            max_pool_bytes: DEFAULT_MAX_POOL_BYTES,
            max_propose_bytes: batch.max_payload_bytes,
            drop_grace_blocks: DROP_GRACE_BLOCKS,
        }),
{
    MempoolConfig {
        max_pool_bytes: DEFAULT_MAX_POOL_BYTES,
        max_propose_bytes: batch.max_payload_bytes,
        drop_grace_blocks: DROP_GRACE_BLOCKS,
    }
}

/// The token that the node is called with, where the environment variable that the
/// configuration names holds `value`. A token in the configuration goes before
/// the environment, and an empty variable counts as none.
pub open spec fn token_of(config: CelestiaConfig, value: Option<Seq<char>>) -> Option<Seq<char>> {
    match config.auth_token {
        Some(token) => Some(token@),
        None => match (config.auth_token_env, value) {
            (Some(_), Some(value)) => if value.len() > 0 {
                Some(value)
            } else {
                None
            },
            _ => None,
        },
    }
}

/// A text that may be missing.
pub open spec fn text_option(text: Option<String>) -> Option<Seq<char>> {
    match text {
        Some(text) => Some(text@),
        None => None,
    }
}

/// The environment variable that has to be read for the token: none where the
/// configuration holds a token or names no variable.
pub fn auth_token_variable(config: &CelestiaConfig) -> (name: Option<String>)
    ensures
        text_option(name) == (if config.auth_token is Some {
            None
        } else {
            text_option(config.auth_token_env)
        }),
{
    if config.auth_token.is_some() {
        return None;
    }
    match &config.auth_token_env {
        Some(name) => Some(name.clone()),
        None => None,
    }
}

/// The token that the node is called with. `value` is what the environment variable
/// that the configuration names holds.
pub fn auth_token(config: &CelestiaConfig, value: Option<String>) -> (token: Option<String>)
    ensures
        text_option(token) == token_of(*config, text_option(value)),
{
    match &config.auth_token {
        Some(token) => Some(token.clone()),
        None => {
            if config.auth_token_env.is_none() {
                return None;
            }
            match value {
                Some(value) => if value.as_str().is_empty() {
                    None
                } else {
                    Some(value)
                },
                None => None,
            }
        },
    }
}

/// The backend for the configured node. `value` is what the environment variable
/// that the configuration names holds.
pub fn backend(config: &CelestiaConfig, value: Option<String>) -> (backend: NodeRpcBackend)
    ensures
        backend.wf(),
        backend.url@ == config.rpc_url@,
        text_option(backend.auth_token) == token_of(*config, text_option(value)),
        backend.gas.gas == config.gas,
        backend.gas.gas_price is Some == config.gas_price is Some,
        backend.gas.gas_price matches Some(price) ==> price@ == config.gas_price->0@,
        backend.submitted@ == Map::<crate::hash::Digest, u64>::empty(),
{
    let gas_price = match &config.gas_price {
        Some(gas_price) => Some(gas_price.copy()),
        None => None,
    };
    NodeRpcBackend::new(
        config.rpc_url.clone(),
        auth_token(config, value),
        GasConfig { gas: config.gas, gas_price },
    )
}

/// Why a configured private key was refused.
#[derive(Clone, Copy, Debug, PartialEq, Eq, Structural)]
pub enum KeyError {
    /// It is no hexadecimal text.
    NotHex,
    /// It has fewer than 32 bytes.
    TooShort,
}

/// The message that a refused private key is reported with.
pub open spec fn key_error_text(error: KeyError) -> Seq<char> {
    match error {
        KeyError::NotHex => "private_key must be hex"@,
        KeyError::TooShort => "private_key must decode as ed25519"@,
    }
}

impl KeyError {
    /// The message that the error is reported with.
    pub fn to_text(&self) -> (text: String)
        ensures
            text@ == key_error_text(*self),
    {
        match self {
            KeyError::NotHex => "private_key must be hex".to_owned(),
            KeyError::TooShort => "private_key must decode as ed25519".to_owned(),
        }
    }
}

/// The private key of the configured text, or why there is none: its first 32
/// bytes. Without a text it is the key that belongs to the seed.
pub open spec fn signer_of(private_key: Option<Seq<char>>, seed: u64) -> Result<
    Seq<u8>,
    KeyError,
> {
    match private_key {
        None => Ok(crate::keys::seeded_key_of(seed)@),
        Some(text) => match crate::hex::hex_bytes(text) {
            None => Err(KeyError::NotHex),
            Some(bytes) => if bytes.len() >= 32 {
                Ok(bytes.take(32))
            } else {
                Err(KeyError::TooShort)
            },
        },
    }
}

/// The key that the sequencer signs with, or why the configured one is none.
pub fn signer(private_key: &Option<String>, seed: u64) -> (key: Result<PrivateKey, KeyError>)
    ensures
        match key {
            Ok(key) => signer_of(text_option(*private_key), seed) == Ok::<Seq<u8>, KeyError>(
                key.0@,
            ),
            Err(error) => signer_of(text_option(*private_key), seed) == Err::<Seq<u8>, KeyError>(
                error,
            ),
        },
{
    let text = match private_key {
        Some(text) => text,
        None => {
            return Ok(PrivateKey::from_seed(seed));
        },
    };
    let bytes = match from_hex(text.as_str()) {
        Some(bytes) => bytes,
        None => {
            return Err(KeyError::NotHex);
        },
    };
    match read_private_key(bytes.as_slice()) {
        Some(key) => Ok(key),
        None => Err(KeyError::TooShort),
    }
}

/// The public key of the account with that index at genesis.
pub open spec fn genesis_key(config: GenesisConfig, index: int) -> PublicKey {
    PublicKey(
        crate::keys::public_key_of(
            crate::keys::seeded_key_of((config.seed_offset + index) as u64)@,
        ),
    )
}

/// The allocation that gives each of the keys the same account.
pub open spec fn genesis_alloc(
    account: crate::accounts::AccountView,
    keys: Seq<AccountKey>,
) -> Seq<(Seq<u8>, crate::accounts::AccountView)> {
    Seq::new(keys.len(), |i: int| (keys[i]@, account))
}

/// The keys are those that `account_key` gives for the public keys of the configured
/// seeds, in order.
pub open spec fn genesis_keys<F>(
    config: GenesisConfig,
    account_key: F,
    keys: Seq<AccountKey>,
) -> bool where F: Fn(PublicKey) -> AccountKey {
    &&& keys.len() == config.accounts
    &&& forall|i: int|
        0 <= i < keys.len() ==> call_ensures(
            account_key,
            (genesis_key(config, i),),
            #[trigger] keys[i],
        )
}

/// The chain is one that the configuration gives: each key has an account with the
/// configured balance and those nonces, which `encode` encodes.
pub open spec fn configured_genesis<E, F>(
    config: GenesisConfig,
    nonce: Nonce,
    encode: E,
    account_key: F,
    chain: crate::chain::ChainView,
) -> bool where E: FnOnce(u64, Nonce) -> Vec<u8>, F: Fn(PublicKey) -> AccountKey {
    exists|account: crate::accounts::AccountView, keys: Seq<AccountKey>|
        {
            &&& account.balance == config.balance
            &&& account.nonce == nonce
            &&& crate::accounts::encoded_by(account, encode)
            &&& genesis_keys(config, account_key, keys)
            &&& chain == crate::chain::genesis_chain(#[trigger] genesis_alloc(account, keys))
        }
}

/// Creates genesis state. `nonce` are the nonces of an account that has sent nothing
/// yet, `encode` gives an account's encoding, and `account_key` the account key of a
/// public key.
pub fn genesis<E, F>(config: &GenesisConfig, nonce: Nonce, encode: E, account_key: F) -> (chain:
    ChainState) where E: FnOnce(u64, Nonce) -> Vec<u8>, F: Fn(PublicKey) -> AccountKey
    requires
        config.seeds_fit(),
        call_requires(encode, (config.balance, nonce)),
        forall|key: PublicKey| call_requires(account_key, (key,)),
    ensures
        chain.wf(),
        configured_genesis(*config, nonce, encode, account_key, chain@),
{
    let account = Account::new(config.balance, nonce, encode);
    let mut alloc: Vec<(AccountKey, Account)> = Vec::new();
    let ghost mut keys: Seq<AccountKey> = Seq::empty();
    let mut index: u32 = 0;
    while index < config.accounts
        invariant
            index <= config.accounts,
            config.seeds_fit(),
            forall|key: PublicKey| call_requires(account_key, (key,)),
            keys.len() == index,
            alloc@.len() == index,
            forall|i: int|
                0 <= i < keys.len() ==> call_ensures(
                    account_key,
                    (genesis_key(*config, i),),
                    #[trigger] keys[i],
                ),
            crate::accounts::changes_view(alloc@) == genesis_alloc(account@, keys),
        decreases config.accounts - index,
    {
        let ghost before = alloc@;
        let key = PrivateKey::from_seed(config.seed_offset + index as u64).public_key();
        assert(key == genesis_key(*config, index as int));
        let account_key = account_key(key);
        proof {
            keys = keys.push(account_key);
        }
        alloc.push((account_key, account.copy()));
        index = index + 1;
        assert forall|i: int| 0 <= i < alloc@.len() implies (alloc@[i].0@, alloc@[i].1@)
            == genesis_alloc(account@, keys)[i] by {
            if i < before.len() {
                assert(crate::accounts::changes_view(before)[i] == (before[i].0@, before[i].1@));
            }
        }
        assert(crate::accounts::changes_view(alloc@) =~= genesis_alloc(account@, keys));
    }
    assert(genesis_keys(*config, account_key, keys));
    ChainState::genesis(alloc)
}

/// Where a sequencer stores its state by default.
pub fn default_storage_dir() -> (dir: String)
    ensures
        dir@ == "local/coro-sequencer"@,
{
    "local/coro-sequencer".to_owned()
}

/// Where a replica stores its state by default.
pub fn default_replica_storage_dir() -> (dir: String)
    ensures
        dir@ == "local/coro-replica"@,
{
    "local/coro-replica".to_owned()
}

/// What the names of a sequencer's partitions start with by default.
pub fn default_partition_prefix() -> (prefix: String)
    ensures
        prefix@ == "coro-sequencer"@,
{
    "coro-sequencer".to_owned()
}

/// What the names of a replica's partitions start with by default.
pub fn default_replica_partition_prefix() -> (prefix: String)
    ensures
        prefix@ == "coro-replica"@,
{
    "coro-replica".to_owned()
}

/// The number of worker threads by default.
pub fn default_worker_threads() -> (threads: usize)
    ensures
        threads == 2,
{
    2
}

/// The log level by default.
pub fn default_log_level() -> (level: String)
    ensures
        level@ == "info"@,
{
    "info".to_owned()
}

/// Where the mempool listens by default.
pub fn default_mempool_listen() -> (address: String)
    ensures
        address@ == "127.0.0.1:8080"@,
{
    "127.0.0.1:8080".to_owned()
}

/// Where the history server listens by default.
pub fn default_history_listen() -> (address: String)
    ensures
        address@ == "127.0.0.1:8081"@,
{
    "127.0.0.1:8081".to_owned()
}

/// Where a replica listens by default.
pub fn default_replica_listen() -> (address: String)
    ensures
        address@ == "127.0.0.1:8082"@,
{
    "127.0.0.1:8082".to_owned()
}

/// The seed of the sequencer's key by default.
pub fn default_signer_seed() -> (seed: u64)
    ensures
        seed == 0,
{
    0
}

/// The number of accounts at genesis by default.
pub fn default_genesis_accounts() -> (accounts: u32)
    ensures
        accounts == 10,
{
    10
}

/// The seed of the first account at genesis by default.
pub fn default_genesis_seed_offset() -> (offset: u64)
    ensures
        offset == 1000,
{
    1000
}

/// The balance of each account at genesis by default.
pub fn default_genesis_balance() -> (balance: u64)
    ensures
        balance == 1_000,
{
    1_000
}

/// The most transactions in a batch by default.
pub fn default_max_txs() -> (count: usize)
    ensures
        count == 10_000,
{
    10_000
}

/// The most bytes that a block payload takes by default.
pub fn default_max_payload_bytes() -> (bytes: usize)
    ensures
        bytes == DEFAULT_MAX_PAYLOAD_BYTES,
{
    DEFAULT_MAX_PAYLOAD_BYTES
}

/// The most bytes that a transaction takes by default.
pub fn default_max_tx_bytes() -> (bytes: usize)
    ensures
        bytes == DEFAULT_MAX_TX_BYTES,
{
    DEFAULT_MAX_TX_BYTES
}

/// The most bytes that a batch's metadata take by default.
pub fn default_max_metadata_bytes() -> (bytes: usize)
    ensures
        bytes == DEFAULT_MAX_METADATA_BYTES,
{
    DEFAULT_MAX_METADATA_BYTES
}

/// The most bytes that a replayed batch's output takes by default.
pub fn default_max_output_bytes() -> (bytes: usize)
    ensures
        bytes == DEFAULT_MAX_OUTPUT_BYTES,
{
    DEFAULT_MAX_OUTPUT_BYTES
}

/// For how many milliseconds a batch stays open by default.
pub fn default_max_delay_ms() -> (delay: u64)
    ensures
        delay == 1_000,
{
    1_000
}

/// For how many milliseconds a published block is looked for by default.
pub fn default_readback_timeout_ms() -> (timeout: u64)
    ensures
        timeout == 60_000,
{
    60_000
}

/// For how many milliseconds a block is read by default.
pub fn default_read_timeout_ms() -> (timeout: u64)
    ensures
        timeout == 60_000,
{
    60_000
}

/// How many milliseconds pass by default between two times that a replica catches
/// up.
pub fn default_sync_interval_ms() -> (interval: u64)
    ensures
        interval == 500,
{
    500
}

/// Whether a sequencer serves payloads by default.
pub fn default_serve_payloads() -> (serve: bool)
    ensures
        serve,
{
    true
}

/// The environment variable that holds the token by default.
pub fn default_auth_token_env() -> (name: Option<String>)
    ensures
        name is Some,
        name->0@ == "CELESTIA_AUTH_TOKEN"@,
{
    Some("CELESTIA_AUTH_TOKEN".to_owned())
}

} // verus!
