//! The vault: the registry contract of the protocol, the two events by which it
//! registers a pool and its tokens, and the search for them in a transaction.

use crate::abi::{
    decode_single, option_term, option_terms, spec_as_address,
    spec_as_address_array, spec_as_bytes32, spec_as_uint, spec_decode_single, terms_of, AbiTerm,
    AbiValue, ParamKind,
};
use crate::encoding::{byte_lists, bytes_eq};
use crate::trace::{Log, LogView, TransactionTrace};
use crate::outside::{abi_decode, abi_decoded};
use vstd::prelude::*;

verus! {

/// The address of the vault, the same on every chain.
pub const VAULT_ADDRESS: [u8; 20] = [
    0xBA, 0x12, 0x22, 0x22, 0x22, 0x22, 0x8d, 0x8B, 0xa4, 0x45,
    0x95, 0x8a, 0x75, 0xa0, 0x70, 0x4d, 0x56, 0x6B, 0xF2, 0xC8,
];

/// First topic of `PoolRegistered(bytes32 indexed poolId, address indexed
/// poolAddress, uint8 specialization)`.
pub const POOL_REGISTERED_TOPIC: [u8; 32] = [
    0x3c, 0x13, 0xbc, 0x30, 0xb8, 0xe8, 0x78, 0xc5, 0x3f, 0xd2, 0xa3, 0x6b, 0x67, 0x94, 0x09, 0xc0,
    0x73, 0xaf, 0xd7, 0x59, 0x50, 0xbe, 0x43, 0xd8, 0x85, 0x87, 0x68, 0xe9, 0x56, 0xfb, 0xc2, 0x0e,
];

/// First topic of `TokensRegistered(bytes32 indexed poolId, address[] tokens,
/// address[] assetManagers)`.
pub const TOKENS_REGISTERED_TOPIC: [u8; 32] = [
    0xf5, 0x84, 0x7d, 0x3f, 0x21, 0x97, 0xb1, 0x6c, 0xdc, 0xd2, 0x09, 0x8e, 0xc9, 0x5d, 0x09, 0x05,
    0xcd, 0x1a, 0xbd, 0xaf, 0x41, 0x5f, 0x07, 0xbb, 0x7c, 0xef, 0x2b, 0xba, 0x8a, 0xc5, 0xde, 0xc4,
];

/// The vault's notice that a pool was registered.
#[derive(Clone, Debug, PartialEq, Eq)]
pub struct PoolRegistered {
    /// The identifier the vault gave the pool.
    pub pool_id: Vec<u8>,
    /// The pool's contract.
    pub pool_address: Vec<u8>,
    /// The pool's specialization, as a big-endian word.
    pub specialization: Vec<u8>,
}

/// The mathematical content of a [`PoolRegistered`].
pub ghost struct PoolRegisteredView {
    pub pool_id: Seq<u8>,
    pub pool_address: Seq<u8>,
    pub specialization: Seq<u8>,
}

impl View for PoolRegistered {
    type V = PoolRegisteredView;

    open spec fn view(&self) -> PoolRegisteredView {
        PoolRegisteredView {
            pool_id: self.pool_id@,
            pool_address: self.pool_address@,
            specialization: self.specialization@,
        }
    }
}

/// The vault's notice of the tokens it registered for a pool.
#[derive(Clone, Debug, PartialEq, Eq)]
pub struct TokensRegistered {
    /// The pool's identifier.
    pub pool_id: Vec<u8>,
    /// The registered tokens, in the vault's order.
    pub tokens: Vec<Vec<u8>>,
    /// The asset manager of each token.
    pub asset_managers: Vec<Vec<u8>>,
}

/// The mathematical content of a [`TokensRegistered`].
pub ghost struct TokensRegisteredView {
    pub pool_id: Seq<u8>,
    pub tokens: Seq<Seq<u8>>,
    pub asset_managers: Seq<Seq<u8>>,
}

impl View for TokensRegistered {
    type V = TokensRegisteredView;

    open spec fn view(&self) -> TokensRegisteredView {
        TokensRegisteredView {
            pool_id: self.pool_id@,
            tokens: byte_lists(self.tokens@),
            asset_managers: byte_lists(self.asset_managers@),
        }
    }
}

/// The view of an optional event.
pub open spec fn option_pool_registered(event: Option<PoolRegistered>) -> Option<
    PoolRegisteredView,
> {
    match event {
        Some(e) => Some(e@),
        None => None,
    }
}

pub open spec fn option_tokens_registered(event: Option<TokensRegistered>) -> Option<
    TokensRegisteredView,
> {
    match event {
        Some(e) => Some(e@),
        None => None,
    }
}

/// Whether a log has the shape of a `PoolRegistered` event: three topics, the
/// first one the event's, and one word of data.
pub open spec fn is_pool_registered_log(log: LogView) -> bool {
    log.topics.len() == 3 && log.data.len() == 32 && log.topics[0] == POOL_REGISTERED_TOPIC@
}

/// The event that the decoded parts of a `PoolRegistered` log make up: the data
/// word is the specialization, the second topic the pool's identifier, the
/// third its address. Nothing where a part failed to decode.
pub open spec fn spec_pool_registered_from_parts(
    specialization: Option<AbiTerm>,
    pool_id: Option<AbiTerm>,
    pool_address: Option<AbiTerm>,
) -> Option<PoolRegisteredView> {
    match (specialization, pool_id, pool_address) {
        (Some(s), Some(i), Some(a)) => match (
            spec_as_uint(s),
            spec_as_bytes32(i),
            spec_as_address(a),
        ) {
            (Some(specialization), Some(pool_id), Some(pool_address)) => Some(
                PoolRegisteredView { pool_id, pool_address, specialization },
            ),
            _ => None,
        },
        _ => None,
    }
}

/// The `PoolRegistered` event that a log holds, if it holds one.
pub open spec fn spec_decode_pool_registered(log: LogView) -> Option<PoolRegisteredView> {
    if is_pool_registered_log(log) {
        spec_pool_registered_from_parts(
            spec_decode_single(ParamKind::Uint8, log.data),
            spec_decode_single(ParamKind::Bytes32, log.topics[1]),
            spec_decode_single(ParamKind::Address, log.topics[2]),
        )
    } else {
        None
    }
}

/// Whether a log has the shape of a `TokensRegistered` event: two topics, the
/// first one the event's, and data for at least two arrays.
pub open spec fn is_tokens_registered_log(log: LogView) -> bool {
    log.topics.len() == 2 && log.data.len() >= 128 && log.topics[0] == TOKENS_REGISTERED_TOPIC@
}

/// The event that the decoded parts of a `TokensRegistered` log make up: the
/// second topic is the pool's identifier, the data hold the tokens and then the
/// asset managers. Nothing where a part failed to decode.
pub open spec fn spec_tokens_registered_from_parts(
    pool_id: Option<AbiTerm>,
    data: Option<Seq<AbiTerm>>,
) -> Option<TokensRegisteredView> {
    match (pool_id, data) {
        (Some(i), Some(d)) => if d.len() == 2 {
            match (
                spec_as_bytes32(i),
                spec_as_address_array(d[0]),
                spec_as_address_array(d[1]),
            ) {
                (Some(pool_id), Some(tokens), Some(asset_managers)) => Some(
                    TokensRegisteredView { pool_id, tokens, asset_managers },
                ),
                _ => None,
            }
        } else {
            None
        },
        _ => None,
    }
}

/// The `TokensRegistered` event that a log holds, if it holds one.
pub open spec fn spec_decode_tokens_registered(log: LogView) -> Option<TokensRegisteredView> {
    if is_tokens_registered_log(log) {
        spec_tokens_registered_from_parts(
            spec_decode_single(ParamKind::Bytes32, log.topics[1]),
            abi_decoded(seq![ParamKind::AddressArray, ParamKind::AddressArray], log.data),
        )
    } else {
        None
    }
}

/// Whether a log is the vault's registration of the pool at `pool_address`.
pub open spec fn registers_pool(log: LogView, pool_address: Seq<u8>) -> bool {
    &&& log.address == VAULT_ADDRESS@
    &&& spec_decode_pool_registered(log) matches Some(event)
    &&& event.pool_address == pool_address
}

/// Whether a log is the vault's registration of tokens for the pool `pool_id`.
pub open spec fn registers_tokens(log: LogView, pool_id: Seq<u8>) -> bool {
    &&& log.address == VAULT_ADDRESS@
    &&& spec_decode_tokens_registered(log) matches Some(event)
    &&& event.pool_id == pool_id
}

/// The registration of the pool at `pool_address` in the first log that holds
/// one; nothing where no log does.
pub open spec fn spec_get_pool_registered(logs: Seq<LogView>, pool_address: Seq<u8>) -> Option<
    PoolRegisteredView,
>
    decreases logs.len(),
{
    if logs.len() == 0 {
        None
    } else if registers_pool(logs[0], pool_address) {
        spec_decode_pool_registered(logs[0])
    } else {
        spec_get_pool_registered(logs.drop_first(), pool_address)
    }
}

/// The registration of tokens for the pool `pool_id` in the first log that
/// holds one; nothing where no log does.
pub open spec fn spec_get_token_registered(logs: Seq<LogView>, pool_id: Seq<u8>) -> Option<
    TokensRegisteredView,
>
    decreases logs.len(),
{
    if logs.len() == 0 {
        None
    } else if registers_tokens(logs[0], pool_id) {
        spec_decode_tokens_registered(logs[0])
    } else {
        spec_get_token_registered(logs.drop_first(), pool_id)
    }
}

impl PoolRegistered {
    /// Puts the event together from the decoded data word and the decoded
    /// second and third topics.
    pub fn from_parts(
        specialization: Option<AbiValue>,
        pool_id: Option<AbiValue>,
        pool_address: Option<AbiValue>,
    ) -> (event: Option<PoolRegistered>)
        ensures
            option_pool_registered(event) == spec_pool_registered_from_parts(
                option_term(specialization),
                option_term(pool_id),
                option_term(pool_address),
            ),
    {
        match (specialization, pool_id, pool_address) {
            (Some(s), Some(i), Some(a)) => match (s.as_uint(), i.as_bytes32(), a.as_address()) {
                (Some(specialization), Some(pool_id), Some(pool_address)) => Some(
                    PoolRegistered { pool_id, pool_address, specialization },
                ),
                _ => None,
            },
            _ => None,
        }
    }

    /// Whether `log` has the shape of this event.
    pub fn match_log(log: &Log) -> (matches: bool)
        ensures
            matches == is_pool_registered_log(log@),
    {
        log.topics.len() == 3 && log.data.len() == 32 && bytes_eq(
            log.topics[0].as_slice(),
            POOL_REGISTERED_TOPIC.as_slice(),
        )
    }

    /// The event in `log`, if its shape is this event's and its parts decode.
    pub fn match_and_decode(log: &Log) -> (event: Option<PoolRegistered>)
        ensures
            option_pool_registered(event) == spec_decode_pool_registered(log@),
    {
        if !PoolRegistered::match_log(log) {
            return None;
        }
        let specialization = decode_single(ParamKind::Uint8, log.data.as_slice());
        let pool_id = decode_single(ParamKind::Bytes32, log.topics[1].as_slice());
        let pool_address = decode_single(ParamKind::Address, log.topics[2].as_slice());
        PoolRegistered::from_parts(specialization, pool_id, pool_address)
    }
}

impl TokensRegistered {
    /// Puts the event together from the decoded second topic and the decoded
    /// data.
    pub fn from_parts(pool_id: Option<AbiValue>, data: Option<Vec<AbiValue>>) -> (event: Option<
        TokensRegistered,
    >)
        ensures
            option_tokens_registered(event) == spec_tokens_registered_from_parts(
                option_term(pool_id),
                option_terms(data),
            ),
    {
        match (pool_id, data) {
            (Some(i), Some(d)) => {
                if d.len() != 2 {
                    return None;
                }
                assert(terms_of(d@)[0] == d@[0]@ && terms_of(d@)[1] == d@[1]@);
                match (i.as_bytes32(), d[0].as_address_array(), d[1].as_address_array()) {
                    (Some(pool_id), Some(tokens), Some(asset_managers)) => Some(
                        TokensRegistered { pool_id, tokens, asset_managers },
                    ),
                    _ => None,
                }
            },
            _ => None,
        }
    }

    /// Whether `log` has the shape of this event.
    pub fn match_log(log: &Log) -> (matches: bool)
        ensures
            matches == is_tokens_registered_log(log@),
    {
        log.topics.len() == 2 && log.data.len() >= 128 && bytes_eq(
            log.topics[0].as_slice(),
            TOKENS_REGISTERED_TOPIC.as_slice(),
        )
    }

    /// The event in `log`, if its shape is this event's and its parts decode.
    pub fn match_and_decode(log: &Log) -> (event: Option<TokensRegistered>)
        ensures
            option_tokens_registered(event) == spec_decode_tokens_registered(log@),
    {
        if !TokensRegistered::match_log(log) {
            return None;
        }
        let pool_id = decode_single(ParamKind::Bytes32, log.topics[1].as_slice());
        let mut kinds: Vec<ParamKind> = Vec::new();
        kinds.push(ParamKind::AddressArray);
        kinds.push(ParamKind::AddressArray);
        assert(kinds@ =~= seq![ParamKind::AddressArray, ParamKind::AddressArray]);
        let data = abi_decode(&kinds, log.data.as_slice());
        TokensRegistered::from_parts(pool_id, data)
    }
}

/// Looks through the logs of `tx` for the vault's registration of the pool at
/// `pool_address` and returns the first one.
pub fn get_pool_registered(tx: &TransactionTrace, pool_address: &[u8]) -> (event: Option<
    PoolRegistered,
>)
    ensures
        option_pool_registered(event) == spec_get_pool_registered(tx@, pool_address@),
{
    let mut i: usize = 0;
    assert(tx@.skip(0) =~= tx@);
    while i < tx.logs_with_calls.len()
        invariant
            i <= tx@.len(),
            tx@.len() == tx.logs_with_calls@.len(),
            spec_get_pool_registered(tx@, pool_address@) == spec_get_pool_registered(
                tx@.skip(i as int),
                pool_address@,
            ),
        decreases tx@.len() - i,
    {
        let log = &tx.logs_with_calls[i].log;
        assert(tx@.skip(i as int)[0] == log@);
        assert(tx@.skip(i as int).drop_first() =~= tx@.skip(i + 1));
        if bytes_eq(log.address.as_slice(), VAULT_ADDRESS.as_slice()) {
            match PoolRegistered::match_and_decode(log) {
                Some(event) => {
                    if bytes_eq(event.pool_address.as_slice(), pool_address) {
                        return Some(event);
                    }
                },
                None => {},
            }
        }
        i += 1;
    }
    None
}

/// Looks through the logs of `tx` for the vault's registration of tokens for
/// the pool `pool_id` and returns the first one.
pub fn get_token_registered(tx: &TransactionTrace, pool_id: &[u8]) -> (event: Option<
    TokensRegistered,
>)
    ensures
        option_tokens_registered(event) == spec_get_token_registered(tx@, pool_id@),
{
    let mut i: usize = 0;
    assert(tx@.skip(0) =~= tx@);
    while i < tx.logs_with_calls.len()
        invariant
            i <= tx@.len(),
            tx@.len() == tx.logs_with_calls@.len(),
            spec_get_token_registered(tx@, pool_id@) == spec_get_token_registered(
                tx@.skip(i as int),
                pool_id@,
            ),
        decreases tx@.len() - i,
    {
        let log = &tx.logs_with_calls[i].log;
        assert(tx@.skip(i as int)[0] == log@);
        assert(tx@.skip(i as int).drop_first() =~= tx@.skip(i + 1));
        if bytes_eq(log.address.as_slice(), VAULT_ADDRESS.as_slice()) {
            match TokensRegistered::match_and_decode(log) {
                Some(event) => {
                    if bytes_eq(event.pool_id.as_slice(), pool_id) {
                        return Some(event);
                    }
                },
                None => {},
            }
        }
        i += 1;
    }
    None
}

} // verus!
