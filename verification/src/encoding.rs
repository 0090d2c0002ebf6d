//! Byte-level encodings that attribute values and identifiers are written in:
//! lowercase hex, minimal signed big-endian integers, and JSON lists of hex strings.

use vstd::prelude::*;
use vstd::slice::slice_to_vec;

verus! {

/// The views of a list of byte strings, in order.
pub open spec fn byte_lists(items: Seq<Vec<u8>>) -> Seq<Seq<u8>> {
    Seq::new(items.len(), |i: int| items[i]@)
}

/// The ASCII code of the lowercase hex digit for `nibble`, which is below 16.
pub open spec fn hex_digit(nibble: int) -> u8 {
    if nibble < 10 {
        (48 + nibble) as u8
    } else {
        (87 + nibble) as u8
    }
}

/// Lowercase hex of `bytes` as ASCII codes: two digits per byte, high nibble first.
pub open spec fn hex_bytes(bytes: Seq<u8>) -> Seq<u8> {
    Seq::new(
        2 * bytes.len(),
        |i: int|
            if i % 2 == 0 {
                hex_digit(bytes[i / 2] as int / 16)
            } else {
                hex_digit(bytes[i / 2] as int % 16)
            },
    )
}

/// Lowercase hex of `bytes` as characters.
pub open spec fn hex_chars(bytes: Seq<u8>) -> Seq<char> {
    Seq::new(2 * bytes.len(), |i: int| hex_bytes(bytes)[i] as char)
}

/// The number that `bytes` spell in base 256, most significant byte first.
pub open spec fn be_value(bytes: Seq<u8>) -> nat
    decreases bytes.len(),
{
    if bytes.len() == 0 {
        0
    } else {
        256 * be_value(bytes.drop_last()) + bytes.last() as nat
    }
}

/// The base-256 digits of `n`, most significant first, without leading zeros;
/// zero is the single digit 0.
pub open spec fn be_digits(n: nat) -> Seq<u8>
    decreases n,
{
    if n < 256 {
        seq![n as u8]
    } else {
        be_digits(n / 256).push((n % 256) as u8)
    }
}

/// The shortest two's-complement big-endian form of the non-negative number `n`:
/// its digits, behind a zero byte where the first digit has its top bit set.
pub open spec fn signed_be(n: nat) -> Seq<u8> {
    let digits = be_digits(n);
    if digits[0] >= 128 {
        seq![0u8] + digits
    } else {
        digits
    }
}

/// The signed forms of the numbers that a list of big-endian words spell.
pub open spec fn signed_be_words(words: Seq<Seq<u8>>) -> Seq<Seq<u8>> {
    Seq::new(words.len(), |i: int| signed_be(be_value(words[i])))
}

/// One byte string as a quoted hex string behind `0x`, in ASCII.
pub open spec fn quoted_hex(item: Seq<u8>) -> Seq<u8> {
    seq![0x22u8, 0x30u8, 0x78u8] + hex_bytes(item) + seq![0x22u8]
}

/// The quoted hex strings of `items`, separated by commas.
pub open spec fn comma_separated(items: Seq<Seq<u8>>) -> Seq<u8>
    decreases items.len(),
{
    if items.len() == 0 {
        seq![]
    } else if items.len() == 1 {
        quoted_hex(items[0])
    } else {
        comma_separated(items.drop_last()) + seq![0x2cu8] + quoted_hex(items.last())
    }
}

/// The compact JSON array of the quoted hex strings of `items`, in ASCII.
pub open spec fn json_hex_list(items: Seq<Seq<u8>>) -> Seq<u8> {
    seq![0x5bu8] + comma_separated(items) + seq![0x5du8]
}

/// Whether two byte strings hold the same bytes.
pub fn bytes_eq(a: &[u8], b: &[u8]) -> (same: bool)
    ensures
        same == (a@ == b@),
{
    if a.len() != b.len() {
        return false;
    }
    let mut i: usize = 0;
    while i < a.len()
        invariant
            a@.len() == b@.len(),
            i <= a@.len(),
            forall|j: int| 0 <= j < i ==> a@[j] == b@[j],
        decreases a@.len() - i,
    {
        if a[i] != b[i] {
            return false;
        }
        i += 1;
    }
    assert(a@ =~= b@);
    true
}

/// Copies a list of byte strings.
pub fn copy_byte_lists(items: &Vec<Vec<u8>>) -> (copy: Vec<Vec<u8>>)
    ensures
        byte_lists(copy@) == byte_lists(items@),
{
    let mut copy: Vec<Vec<u8>> = Vec::new();
    let mut i: usize = 0;
    while i < items.len()
        invariant
            i <= items@.len(),
            copy@.len() == i,
            forall|j: int| 0 <= j < i ==> copy@[j]@ == items@[j]@,
        decreases items@.len() - i,
    {
        copy.push(slice_to_vec(items[i].as_slice()));
        i += 1;
    }
    assert(byte_lists(copy@) =~= byte_lists(items@));
    copy
}

} // verus!
