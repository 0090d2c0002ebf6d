//! Contract ABI values, and the decoding of encoded argument lists.

use crate::encoding::byte_lists;
use crate::outside::{abi_decode, abi_decoded};
use vstd::prelude::*;
use vstd::slice::slice_to_vec;

verus! {

/// The kind of one parameter in an encoded argument list.
#[derive(Clone, Copy, Debug, PartialEq, Eq, Structural)]
pub enum ParamKind {
    /// `address`
    Address,
    /// `uint256`
    Uint256,
    /// `uint8`
    Uint8,
    /// `bool`
    Bool,
    /// `string`
    Text,
    /// `bytes32`
    Bytes32,
    /// `address[]`
    AddressArray,
    /// `uint256[]`
    Uint256Array,
}

/// A decoded ABI value. An address is its 20 bytes, an integer its 32-byte
/// big-endian word.
#[derive(Debug)]
pub enum AbiValue {
    /// `address`
    Address([u8; 20]),
    /// `bytes1` to `bytes32`
    FixedBytes(Vec<u8>),
    /// `bytes`
    Bytes(Vec<u8>),
    /// `int8` to `int256`
    Int([u8; 32]),
    /// `uint8` to `uint256`
    Uint([u8; 32]),
    /// `bool`
    Bool(bool),
    /// `string`
    Text(String),
    /// An array of fixed length.
    FixedArray(Vec<AbiValue>),
    /// An array of any length.
    Array(Vec<AbiValue>),
    /// A tuple.
    Tuple(Vec<AbiValue>),
}

/// The mathematical content of an [`AbiValue`].
pub ghost enum AbiTerm {
    Address(Seq<u8>),
    FixedBytes(Seq<u8>),
    Bytes(Seq<u8>),
    Int(Seq<u8>),
    Uint(Seq<u8>),
    Bool(bool),
    Text(Seq<char>),
    FixedArray(Seq<AbiTerm>),
    Array(Seq<AbiTerm>),
    Tuple(Seq<AbiTerm>),
}

/// The terms of a list of values, in order.
pub open spec fn terms_of(values: Seq<AbiValue>) -> Seq<AbiTerm>
    decreases values,
{
    Seq::new(
        values.len(),
        |i: int|
            if 0 <= i < values.len() {
                term_of(values[i])
            } else {
                AbiTerm::Bool(false)
            },
    )
}

/// The term of one value.
pub open spec fn term_of(value: AbiValue) -> AbiTerm
    decreases value,
{
    match value {
        AbiValue::Address(b) => AbiTerm::Address(b@),
        AbiValue::FixedBytes(b) => AbiTerm::FixedBytes(b@),
        AbiValue::Bytes(b) => AbiTerm::Bytes(b@),
        AbiValue::Int(b) => AbiTerm::Int(b@),
        AbiValue::Uint(b) => AbiTerm::Uint(b@),
        AbiValue::Bool(b) => AbiTerm::Bool(b),
        AbiValue::Text(s) => AbiTerm::Text(s@),
        AbiValue::FixedArray(items) => AbiTerm::FixedArray(terms_of(items@)),
        AbiValue::Array(items) => AbiTerm::Array(terms_of(items@)),
        AbiValue::Tuple(items) => AbiTerm::Tuple(terms_of(items@)),
    }
}

impl View for AbiValue {
    type V = AbiTerm;

    open spec fn view(&self) -> AbiTerm {
        term_of(*self)
    }
}

/// The view of an optional value.
pub open spec fn option_term(value: Option<AbiValue>) -> Option<AbiTerm> {
    match value {
        Some(v) => Some(v@),
        None => None,
    }
}

/// The terms of an optional list of values.
pub open spec fn option_terms(values: Option<Vec<AbiValue>>) -> Option<Seq<AbiTerm>> {
    match values {
        Some(v) => Some(terms_of(v@)),
        None => None,
    }
}

/// The view of an optional byte string.
pub open spec fn option_bytes(bytes: Option<Vec<u8>>) -> Option<Seq<u8>> {
    match bytes {
        Some(b) => Some(b@),
        None => None,
    }
}

/// The view of an optional list of byte strings.
pub open spec fn option_byte_lists(lists: Option<Vec<Vec<u8>>>) -> Option<Seq<Seq<u8>>> {
    match lists {
        Some(l) => Some(byte_lists(l@)),
        None => None,
    }
}

/// Whether a parameter of `kind` is a single word that is read where it stands.
pub open spec fn is_word_kind(kind: ParamKind) -> bool {
    kind is Address || kind is Uint256 || kind is Uint8 || kind is Bytes32
}

/// What data decode to as one parameter of a word kind: nothing where they are
/// shorter than a word; else an address is the last 20 bytes of the first
/// word, and a number or a `bytes32` is the whole first word. Of the other
/// kinds it says nothing.
pub open spec fn spec_decode_word(kind: ParamKind, data: Seq<u8>) -> Option<AbiTerm> {
    if data.len() < 32 {
        None
    } else {
        match kind {
            ParamKind::Address => Some(AbiTerm::Address(data.subrange(12, 32))),
            ParamKind::Bytes32 => Some(AbiTerm::FixedBytes(data.subrange(0, 32))),
            ParamKind::Uint256 | ParamKind::Uint8 => Some(AbiTerm::Uint(data.subrange(0, 32))),
            _ => None,
        }
    }
}

/// A list of the one term, where there is one.
pub open spec fn option_list_of(term: Option<AbiTerm>) -> Option<Seq<AbiTerm>> {
    match term {
        Some(t) => Some(seq![t]),
        None => None,
    }
}

/// The 20 bytes of an address term; of another term, nothing.
pub open spec fn spec_as_address(term: AbiTerm) -> Option<Seq<u8>> {
    match term {
        AbiTerm::Address(a) => if a.len() == 20 {
            Some(a)
        } else {
            None
        },
        _ => None,
    }
}

/// The 32-byte word of an unsigned integer term; of another term, nothing.
pub open spec fn spec_as_uint(term: AbiTerm) -> Option<Seq<u8>> {
    match term {
        AbiTerm::Uint(w) => if w.len() == 32 {
            Some(w)
        } else {
            None
        },
        _ => None,
    }
}

/// The bytes of a fixed-size byte string term of 32 bytes; of another term,
/// nothing.
pub open spec fn spec_as_bytes32(term: AbiTerm) -> Option<Seq<u8>> {
    match term {
        AbiTerm::FixedBytes(b) => if b.len() == 32 {
            Some(b)
        } else {
            None
        },
        _ => None,
    }
}

/// The addresses of an array term whose items are all addresses; of another
/// term, nothing.
pub open spec fn spec_as_address_array(term: AbiTerm) -> Option<Seq<Seq<u8>>> {
    match term {
        AbiTerm::Array(items) => if forall|i: int|
            0 <= i < items.len() ==> spec_as_address(#[trigger] items[i]) is Some {
            Some(Seq::new(items.len(), |i: int| spec_as_address(items[i]).unwrap()))
        } else {
            None
        },
        _ => None,
    }
}

/// The words of an array term whose items are all unsigned integers; of another
/// term, nothing.
pub open spec fn spec_as_uint_array(term: AbiTerm) -> Option<Seq<Seq<u8>>> {
    match term {
        AbiTerm::Array(items) => if forall|i: int|
            0 <= i < items.len() ==> spec_as_uint(#[trigger] items[i]) is Some {
            Some(Seq::new(items.len(), |i: int| spec_as_uint(items[i]).unwrap()))
        } else {
            None
        },
        _ => None,
    }
}

/// The term that decoding `data` as one parameter of `kind` gives.
pub open spec fn spec_decode_single(kind: ParamKind, data: Seq<u8>) -> Option<AbiTerm> {
    if is_word_kind(kind) {
        spec_decode_word(kind, data)
    } else {
        match abi_decoded(seq![kind], data) {
            Some(terms) => if terms.len() == 1 {
                Some(terms[0])
            } else {
                None
            },
            None => None,
        }
    }
}

impl AbiValue {
    /// The bytes of an address.
    pub fn as_address(&self) -> (bytes: Option<Vec<u8>>)
        ensures
            option_bytes(bytes) == spec_as_address(self@),
    {
        match self {
            AbiValue::Address(a) => Some(slice_to_vec(a.as_slice())),
            _ => None,
        }
    }

    /// The big-endian word of an unsigned integer.
    pub fn as_uint(&self) -> (word: Option<Vec<u8>>)
        ensures
            option_bytes(word) == spec_as_uint(self@),
    {
        match self {
            AbiValue::Uint(w) => Some(slice_to_vec(w.as_slice())),
            _ => None,
        }
    }

    /// The bytes of a fixed-size byte string of 32 bytes.
    pub fn as_bytes32(&self) -> (bytes: Option<Vec<u8>>)
        ensures
            option_bytes(bytes) == spec_as_bytes32(self@),
    {
        match self {
            AbiValue::FixedBytes(b) => if b.len() == 32 {
                Some(slice_to_vec(b.as_slice()))
            } else {
                None
            },
            _ => None,
        }
    }

    /// The addresses of an array of addresses.
    pub fn as_address_array(&self) -> (addresses: Option<Vec<Vec<u8>>>)
        ensures
            option_byte_lists(addresses) == spec_as_address_array(self@),
    {
        match self {
            AbiValue::Array(items) => {
                let mut addresses: Vec<Vec<u8>> = Vec::new();
                let mut i: usize = 0;
                while i < items.len()
                    invariant
                        self@ == AbiTerm::Array(terms_of(items@)),
                        i <= items@.len(),
                        addresses@.len() == i,
                        forall|j: int|
                            0 <= j < i ==> spec_as_address(#[trigger] terms_of(items@)[j]) == Some(
                                addresses@[j]@,
                            ),
                    decreases items@.len() - i,
                {
                    assert(terms_of(items@)[i as int] == items@[i as int]@);
                    match items[i].as_address() {
                        Some(a) => addresses.push(a),
                        None => {
                            assert(spec_as_address(terms_of(items@)[i as int]) is None);
                            return None;
                        },
                    }
                    i += 1;
                }
                assert(byte_lists(addresses@) =~= spec_as_address_array(self@).unwrap());
                Some(addresses)
            },
            _ => None,
        }
    }

    /// The big-endian words of an array of unsigned integers.
    pub fn as_uint_array(&self) -> (words: Option<Vec<Vec<u8>>>)
        ensures
            option_byte_lists(words) == spec_as_uint_array(self@),
    {
        match self {
            AbiValue::Array(items) => {
                let mut words: Vec<Vec<u8>> = Vec::new();
                let mut i: usize = 0;
                while i < items.len()
                    invariant
                        self@ == AbiTerm::Array(terms_of(items@)),
                        i <= items@.len(),
                        words@.len() == i,
                        forall|j: int|
                            0 <= j < i ==> spec_as_uint(#[trigger] terms_of(items@)[j]) == Some(
                                words@[j]@,
                            ),
                    decreases items@.len() - i,
                {
                    assert(terms_of(items@)[i as int] == items@[i as int]@);
                    match items[i].as_uint() {
                        Some(w) => words.push(w),
                        None => {
                            assert(spec_as_uint(terms_of(items@)[i as int]) is None);
                            return None;
                        },
                    }
                    i += 1;
                }
                assert(byte_lists(words@) =~= spec_as_uint_array(self@).unwrap());
                Some(words)
            },
            _ => None,
        }
    }
}

/// The only value of a list of one.
pub fn single_value(values: Vec<AbiValue>) -> (value: Option<AbiValue>)
    ensures
        match value {
            Some(v) => values@.len() == 1 && v == values@[0],
            None => values@.len() != 1,
        },
{
    let mut values = values;
    if values.len() == 1 {
        values.pop()
    } else {
        None
    }
}

/// Decodes `data` as one parameter of `kind`.
pub fn decode_single(kind: ParamKind, data: &[u8]) -> (value: Option<AbiValue>)
    ensures
        option_term(value) == spec_decode_single(kind, data@),
{
    let mut kinds: Vec<ParamKind> = Vec::new();
    kinds.push(kind);
    assert(kinds@ =~= seq![kind]);
    match abi_decode(&kinds, data) {
        Some(values) => {
            assert(terms_of(values@).len() == values@.len());
            assert(values@.len() > 0 ==> terms_of(values@)[0] == values@[0]@);
            single_value(values)
        },
        None => None,
    }
}

} // verus!
