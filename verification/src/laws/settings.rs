//! What follows from the configuration.
use vstd::prelude::*;

use crate::accounts::{AccountKey, AccountView, Nonce};
use crate::chain::{ChainView, EngineError, PublicKey};
use crate::config::{CelestiaConfig, GenesisConfig, KeyError, NamespaceError};
use crate::source::{SequencerError, SourceError};

verus! {

/// Hexadecimal text of 29 bytes is a namespace as it stands; text of ten bytes is one with
/// 19 zero bytes in front; text of any other number of bytes is refused with that number,
/// and other text as no hexadecimal text.
pub proof fn law_namespaces(value: Seq<char>, bytes: Seq<u8>)
    ensures
        crate::hex::hex_bytes(value) is None ==> crate::config::namespace_of(value) == Err::<
            Seq<u8>,
            NamespaceError,
        >(NamespaceError::NotHex),
        crate::hex::hex_bytes(value) == Some(bytes) ==> {
            let namespace = crate::config::namespace_of(value);
            &&& bytes.len() == 29 ==> namespace == Ok::<Seq<u8>, NamespaceError>(bytes)
            &&& bytes.len() == 10 ==> {
                &&& namespace is Ok
                &&& namespace->Ok_0.len() == 29
                &&& forall|i: int| 0 <= i < 19 ==> #[trigger] namespace->Ok_0[i] == 0
                &&& forall|i: int| 19 <= i < 29 ==> #[trigger] namespace->Ok_0[i] == bytes[i - 19]
            }
            &&& bytes.len() != 10 && bytes.len() != 29 && bytes.len() <= usize::MAX ==> {
                &&& namespace is Err
                &&& namespace->Err_0 matches NamespaceError::Length(got) && got == bytes.len()
            }
        },
        bytes.len() == 29 ==> crate::config::namespace_of(crate::hex::hex_text(bytes)) == Ok::<
            Seq<u8>,
            NamespaceError,
        >(bytes),
{
    crate::hex::lemma_hex_round_trip(bytes);
}

/// The message of a refused namespace or key says what it should have been.
pub proof fn law_setting_errors_are_told(got: usize)
    ensures
        crate::config::namespace_error_text(NamespaceError::NotHex) == "namespace must be hex"@,
        crate::config::namespace_error_text(NamespaceError::Length(got))
            == "namespace must be 10-byte suffix or full 29-byte namespace, got "@
            + crate::text::decimal(got as nat) + " bytes"@,
        crate::config::key_error_text(KeyError::NotHex) == "private_key must be hex"@,
        crate::config::key_error_text(KeyError::TooShort) == "private_key must decode as ed25519"@,
{
}

/// A configured token is used whatever the environment holds. Without one, the variable's
/// value is used where a variable is configured and its value is not empty.
pub proof fn law_tokens(config: CelestiaConfig, value: Option<Seq<char>>)
    ensures
        config.auth_token matches Some(token) ==> crate::config::token_of(config, value) == Some(
            token@,
        ),
        config.auth_token is None && config.auth_token_env is None ==> crate::config::token_of(
            config,
            value,
        ) is None,
        config.auth_token is None && config.auth_token_env is Some ==> {
            &&& value is None ==> crate::config::token_of(config, value) is None
            &&& value == Some(Seq::<char>::empty()) ==> crate::config::token_of(config, value)
                is None
            &&& value is Some && value->0.len() > 0 ==> crate::config::token_of(config, value)
                == value
        },
{
}

/// A text that may be missing is missing or the text.
pub proof fn law_texts_that_may_be_missing(text: String)
    ensures
        crate::config::text_option(None) is None,
        crate::config::text_option(Some(text)) == Some(text@),
{
}

/// Without a configured key the sequencer signs with the key of its seed. A configured key
/// is the first 32 bytes of its hexadecimal text, whatever the seed is; it is refused where
/// it has fewer, or is no hexadecimal text.
pub proof fn law_signers(text: Seq<char>, bytes: Seq<u8>, seed: u64)
    ensures
        crate::config::signer_of(None, seed) == Ok::<Seq<u8>, KeyError>(
            crate::keys::seeded_key_of(seed)@,
        ),
        crate::hex::hex_bytes(text) is None ==> crate::config::signer_of(Some(text), seed) == Err::<
            Seq<u8>,
            KeyError,
        >(KeyError::NotHex),
        crate::hex::hex_bytes(text) == Some(bytes) && bytes.len() < 32 ==> crate::config::signer_of(
            Some(text),
            seed,
        ) == Err::<Seq<u8>, KeyError>(KeyError::TooShort),
        crate::hex::hex_bytes(text) == Some(bytes) && bytes.len() >= 32 ==> {
            let signer = crate::config::signer_of(Some(text), seed);
            &&& signer is Ok
            &&& signer->Ok_0.len() == 32
            &&& forall|i: int| 0 <= i < 32 ==> #[trigger] signer->Ok_0[i] == bytes[i]
        },
        bytes.len() == 32 ==> crate::config::signer_of(Some(crate::hex::hex_text(bytes)), seed)
            == Ok::<Seq<u8>, KeyError>(bytes),
{
    crate::hex::lemma_hex_round_trip(bytes);
    if bytes.len() == 32 {
        assert(bytes.take(32) =~= bytes);
    }
}

/// The keys are those that `account_key` gives for the public keys of consecutive seeds.
pub open spec fn keys_of_seeds<F>(
    config: GenesisConfig,
    account_key: F,
    keys: Seq<AccountKey>,
) -> bool where F: Fn(PublicKey) -> AccountKey {
    &&& keys.len() == config.accounts
    &&& forall|i: int|
        0 <= i < keys.len() ==> call_ensures(
            account_key,
            (
                PublicKey(
                    crate::keys::public_key_of(
                        crate::keys::seeded_key_of((config.seed_offset + i) as u64)@,
                    ),
                ),
            ),
            #[trigger] keys[i],
        )
}

/// The account has that balance and nonces, in an encoding that `encode` gives for them.
pub open spec fn is_funded<E>(
    account: AccountView,
    balance: u64,
    nonce: Nonce,
    encode: E,
) -> bool where E: FnOnce(u64, Nonce) -> Vec<u8> {
    &&& account.balance == balance
    &&& account.nonce == nonce
    &&& exists|bytes: Vec<u8>| #[trigger]
        call_ensures(encode, (balance, nonce), bytes) && account.encoded == bytes@
}

/// Genesis funds the keys of as many consecutive seeds as configured, from the configured
/// one on, each with the configured balance, and nothing else; its head is the hash of a
/// fixed text.
pub proof fn law_genesis_accounts<E, F>(
    config: GenesisConfig,
    nonce: Nonce,
    encode: E,
    account_key: F,
    chain: ChainView,
) where E: FnOnce(u64, Nonce) -> Vec<u8>, F: Fn(PublicKey) -> AccountKey
    requires
        crate::config::configured_genesis(config, nonce, encode, account_key, chain),
    ensures
        chain.height == 0,
        chain.total_txs == 0,
        chain.parent.0 == crate::hash::sha256_of(
            vstd::utf8::encode_utf8("constantinople-coro-genesis"@),
        ),
        exists|keys: Seq<AccountKey>|
            {
                &&& #[trigger] keys_of_seeds(config, account_key, keys)
                &&& forall|i: int|
                    0 <= i < keys.len() ==> {
                        &&& chain.accounts.contains_key((#[trigger] keys[i]).bytes@)
                        &&& is_funded(
                            chain.accounts[keys[i].bytes@],
                            config.balance,
                            nonce,
                            encode,
                        )
                    }
                &&& forall|key: Seq<u8>| #[trigger]
                    chain.accounts.contains_key(key) ==> exists|i: int|
                        0 <= i < keys.len() && (#[trigger] keys[i]).bytes@ == key
            },
{
    super::law_genesis_funds_its_keys(config, nonce, encode, account_key, chain);
    let keys = choose|keys: Seq<AccountKey>|
        {
            &&& #[trigger] crate::config::genesis_keys(config, account_key, keys)
            &&& forall|i: int|
                0 <= i < keys.len() ==> {
                    &&& chain.accounts.contains_key((#[trigger] keys[i])@)
                    &&& chain.accounts[keys[i]@].balance == config.balance
                    &&& chain.accounts[keys[i]@].nonce == nonce
                    &&& crate::accounts::encoded_by(chain.accounts[keys[i]@], encode)
                }
            &&& forall|key: Seq<u8>| #[trigger]
                chain.accounts.contains_key(key) ==> exists|i: int|
                    0 <= i < keys.len() && (#[trigger] keys[i])@ == key
        };
    assert forall|i: int| 0 <= i < keys.len() implies call_ensures(
        account_key,
        (
            PublicKey(
                crate::keys::public_key_of(
                    crate::keys::seeded_key_of((config.seed_offset + i) as u64)@,
                ),
            ),
        ),
        #[trigger] keys[i],
    ) by {
        assert(call_ensures(account_key, (crate::config::genesis_key(config, i),), keys[i]));
    }
    assert(keys_of_seeds(config, account_key, keys));
    assert forall|i: int| 0 <= i < keys.len() implies {
        &&& chain.accounts.contains_key((#[trigger] keys[i]).bytes@)
        &&& is_funded(chain.accounts[keys[i].bytes@], config.balance, nonce, encode)
    } by {
        assert(keys[i]@ == keys[i].bytes@);
    }
    assert forall|key: Seq<u8>| #[trigger] chain.accounts.contains_key(key) implies exists|i: int|
        0 <= i < keys.len() && (#[trigger] keys[i]).bytes@ == key by {
        let i = choose|i: int| 0 <= i < keys.len() && (#[trigger] keys[i])@ == key;
        assert(keys[i].bytes@ == key);
    }
}

/// The seeds fit where the last of them is a 64-bit integer, and where there is none.
pub proof fn law_seeds(config: GenesisConfig)
    ensures
        config.accounts == 0 ==> config.seeds_fit(),
        config.accounts > 0 ==> (config.seeds_fit() <==> config.seed_offset + (config.accounts - 1)
            <= u64::MAX),
{
}

/// The default limits: the mempool holds eight payloads of eight mebibytes, a transaction
/// takes sixteen kibibytes at most, and encoded metadata fit the limits on metadata and on
/// output.
pub proof fn law_default_limits()
    ensures
        crate::config::DEFAULT_MAX_PAYLOAD_BYTES == 8 * 1024 * 1024,
        crate::config::DEFAULT_MAX_POOL_BYTES == 8 * crate::config::DEFAULT_MAX_PAYLOAD_BYTES,
        crate::config::DEFAULT_MAX_TX_BYTES == 16 * 1024,
        crate::config::DEFAULT_MAX_METADATA_BYTES == 64,
        crate::config::DEFAULT_MAX_OUTPUT_BYTES == 64,
        crate::chain::BLOCK_META_SIZE <= crate::config::DEFAULT_MAX_METADATA_BYTES,
        crate::chain::BLOCK_META_SIZE <= crate::config::DEFAULT_MAX_OUTPUT_BYTES,
        crate::config::MEMPOOL_MAILBOX_SIZE == 64 * 1024,
        crate::config::DROP_GRACE_BLOCKS == 2,
{
}

/// A source hands the sequencer's own failure on as it is, and tells an application's with
/// its message.
pub proof fn law_source_failures<C>(error: SourceError<C>, core: C, application: EngineError)
    ensures
        crate::source::reports(error, SequencerError::Core(core)) <==> error
            == SourceError::Core(core),
        crate::source::reports(error, SequencerError::Application(application)) ==> {
            &&& error is Decode
            &&& error->Decode_0@ == crate::chain::error_text(application)
        },
{
}

} // verus!
