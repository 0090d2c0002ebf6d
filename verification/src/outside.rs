//! The calls into other crates. Verus does not look into them: what each
//! function here promises of its result is taken from the other crate's source,
//! and everything else in the library is proved from these promises.

use crate::abi::{
    is_word_kind, option_list_of, option_terms, spec_decode_word, AbiTerm, AbiValue, ParamKind,
};
use crate::encoding::{byte_lists, be_value, hex_chars, json_hex_list, signed_be, signed_be_words};
use ethabi::{ParamType, Token};
use substreams::scalar::BigInt;
use vstd::prelude::*;

verus! {

/// What `ethabi::decode` returns for a list of parameter kinds and encoded data:
/// the decoded terms, or `None` where it reports an error.
pub uninterp spec fn abi_decoded(kinds: Seq<ParamKind>, data: Seq<u8>) -> Option<Seq<AbiTerm>>;

/// `ethabi::Token`, the decoder's own value tree; opaque here.
#[verifier::external_type_specification]
#[verifier::external_body]
pub struct ExToken(Token);

/// Turns `ethabi::Token`s into the library's values, one for one and variant for
/// variant; `ethabi` hands out an address as its 20 bytes and an integer as its
/// 32 big-endian bytes.
#[verifier::external_body]
fn values_of_tokens(tokens: Vec<Token>) -> Vec<AbiValue> {
    tokens.into_iter().map(|t| match t {
        Token::Address(a) => AbiValue::Address(a.into()),
        Token::FixedBytes(b) => AbiValue::FixedBytes(b),
        Token::Bytes(b) => AbiValue::Bytes(b),
        Token::Int(i) => AbiValue::Int(i.into()),
        Token::Uint(u) => AbiValue::Uint(u.into()),
        Token::Bool(b) => AbiValue::Bool(b),
        Token::String(s) => AbiValue::Text(s),
        Token::FixedArray(v) => AbiValue::FixedArray(values_of_tokens(v)),
        Token::Array(v) => AbiValue::Array(values_of_tokens(v)),
        Token::Tuple(v) => AbiValue::Tuple(values_of_tokens(v)),
    }).collect()
}

/// Calls `ethabi::decode` on `data` with the parameter types that `kinds` stand
/// for. The result is the one that `abi_decoded` names; an error of the decoder
/// becomes `None`. For a single parameter of a word kind the decoder reads the
/// first 32 bytes and fails where there are fewer. The decoder adds offsets and
/// lengths below 2^32, which it reads from the data, to positions in the data:
/// with a `usize` of 64 bits it returns for every input.
#[verifier::external_body]
pub(crate) fn abi_decode(kinds: &Vec<ParamKind>, data: &[u8]) -> (values: Option<Vec<AbiValue>>)
    ensures
        option_terms(values) == abi_decoded(kinds@, data@),
        kinds@.len() == 1 && is_word_kind(kinds@[0]) ==> option_terms(values) == option_list_of(
            spec_decode_word(kinds@[0], data@),
        ),
{
    let types: Vec<ParamType> = kinds.iter().map(|k| match k {
        ParamKind::Address => ParamType::Address,
        ParamKind::Uint256 => ParamType::Uint(256),
        ParamKind::Uint8 => ParamType::Uint(8),
        ParamKind::Bool => ParamType::Bool,
        ParamKind::Text => ParamType::String,
        ParamKind::Bytes32 => ParamType::FixedBytes(32),
        ParamKind::AddressArray => ParamType::Array(Box::new(ParamType::Address)),
        ParamKind::Uint256Array => ParamType::Array(Box::new(ParamType::Uint(256))),
    }).collect();
    ethabi::decode(&types, data).ok().map(values_of_tokens)
}

/// Calls `hex::encode`, which writes each byte as two lowercase hex digits, the
/// high nibble first.
#[verifier::external_body]
pub(crate) fn hex_encode(bytes: &[u8]) -> (text: String)
    ensures
        text@ == hex_chars(bytes@),
{
    hex::encode(bytes)
}

/// Reads `word` as an unsigned big-endian number with
/// `BigInt::from_unsigned_bytes_be` and calls `BigInt::to_signed_bytes_be` on it:
/// the number's shortest two's-complement big-endian bytes.
#[verifier::external_body]
pub(crate) fn to_signed_bytes_be(word: &[u8]) -> (bytes: Vec<u8>)
    ensures
        bytes@ == signed_be(be_value(word@)),
{
    BigInt::from_unsigned_bytes_be(word).to_signed_bytes_be()
}

/// Calls `tycho_substreams::attributes::json_serialize_address_list`: a compact
/// JSON array with one `0x`-prefixed lowercase hex string per address.
#[verifier::external_body]
pub(crate) fn json_serialize_address_list(addresses: &Vec<Vec<u8>>) -> (json: Vec<u8>)
    ensures
        json@ == json_hex_list(byte_lists(addresses@)),
{
    tycho_substreams::attributes::json_serialize_address_list(addresses)
}

/// Calls `tycho_substreams::attributes::json_serialize_bigint_list` on the
/// numbers that `words` spell as unsigned big-endian bytes: a compact JSON array
/// with one `0x`-prefixed hex string per number, the hex of its shortest
/// two's-complement big-endian bytes.
#[verifier::external_body]
pub(crate) fn json_serialize_bigint_list(words: &Vec<Vec<u8>>) -> (json: Vec<u8>)
    ensures
        json@ == json_hex_list(signed_be_words(byte_lists(words@))),
{
    let values: Vec<BigInt> = words.iter().map(|w| BigInt::from_unsigned_bytes_be(w)).collect();
    tycho_substreams::attributes::json_serialize_bigint_list(&values)
}

} // verus!
