//! What a hexadecimal hash string denotes, and the outside parsers that read one.
use std::str::FromStr;

use vstd::prelude::*;

verus! {

/// One of `0-9`, `a-f`, `A-F`.
pub open spec fn is_hex_digit(c: char) -> bool {
    let v: u32 = c as u32;
    ||| 48 <= v <= 57
    ||| 97 <= v <= 102
    ||| 65 <= v <= 70
}

/// The value of a hexadecimal digit (letters in either case).
pub open spec fn hex_digit_value(c: char) -> int {
    let v: u32 = c as u32;
    if 48 <= v <= 57 {
        v - 48
    } else if 97 <= v <= 102 {
        v - 87
    } else {
        v - 55
    }
}

/// Hex digits count up from `0` to `9` and from `a`/`A` to `f`/`F`, upper-
/// and lower-case letters having the same value; every digit is below 16.
pub proof fn lemma_hex_digit_values()
    ensures
        hex_digit_value('0') == 0,
        hex_digit_value('a') == 10,
        hex_digit_value('A') == 10,
        forall|c: char, d: char|
            (48 <= (c as u32) < 57 || 97 <= (c as u32) < 102 || 65 <= (c as u32) < 70) && (d as u32)
                == (c as u32) + 1 ==> #[trigger] hex_digit_value(d) == #[trigger] hex_digit_value(c) + 1,
        forall|c: char| #[trigger] is_hex_digit(c) ==> 0 <= hex_digit_value(c) < 16,
        !is_hex_digit('g') && !is_hex_digit('G') && !is_hex_digit(' ') && !is_hex_digit('/'),
        is_hex_digit('9') && is_hex_digit('f') && is_hex_digit('F'),
{
}

/// A 32-byte hash written out as exactly 64 hexadecimal digits.
pub open spec fn is_hex_hash(s: Seq<char>) -> bool {
    &&& s.len() == 64
    &&& forall|i: int| 0 <= i < 64 ==> #[trigger] is_hex_digit(s[i])
}

/// The byte that the digits at positions `2k` and `2k + 1` spell, high digit first.
pub open spec fn hex_pair_value(s: Seq<char>, k: int) -> u8 {
    (hex_digit_value(s[2 * k]) * 16 + hex_digit_value(s[2 * k + 1])) as u8
}

/// The 32 bytes that a hex hash spells, in the order they are written.
pub open spec fn hex_bytes(s: Seq<char>) -> Seq<u8> {
    Seq::new(32, |k: int| hex_pair_value(s, k))
}

/// The bytes of a block hash written in Bitcoin's display order: the digits
/// spell the bytes last to first.
pub open spec fn block_hash_bytes(s: Seq<char>) -> Seq<u8> {
    Seq::new(32, |k: int| hex_pair_value(s, 31 - k))
}

/// Thirty-two zero bytes.
pub open spec fn zero_hash_bytes() -> Seq<u8> {
    Seq::new(32, |i: int| 0u8)
}

/// Parses a block hash with `bitcoin::BlockHash::from_str`.
///
/// The contract restates what that function does in bitcoin 0.32: it decodes
/// exactly 64 hex digits (either case) into 32 bytes and, since block hashes
/// are displayed backwards, reverses them; any other input is an error.
/// The byte array handed back is `BlockHash::to_byte_array`.
#[verifier::external_body]
pub(crate) fn parse_block_hash(s: &str) -> (r: Option<[u8; 32]>)
    ensures
        r is Some <==> is_hex_hash(s@),
        r matches Some(b) ==> b@ == block_hash_bytes(s@),
{
    match bitcoin::BlockHash::from_str(s) {
        Ok(hash) => Some(bitcoin::hashes::Hash::to_byte_array(hash)),
        Err(_) => None,
    }
}

/// The bytes of `bitcoin::BlockHash::all_zeros()`: thirty-two zero bytes.
#[verifier::external_body]
pub(crate) fn zero_block_hash() -> (r: [u8; 32])
    ensures
        r@ == zero_hash_bytes(),
{
    bitcoin::hashes::Hash::to_byte_array(<bitcoin::BlockHash as bitcoin::hashes::Hash>::all_zeros())
}

/// A Utreexo accumulator node hash, as `rustreexo::node_hash::BitcoinNodeHash`
/// distinguishes them.
#[derive(Clone, Copy, Debug, PartialEq, Eq)]
pub enum NodeHash {
    /// The empty hash.
    Empty,
    /// A placeholder for a node not yet known.
    Placeholder,
    /// A 32-byte hash.
    Hash([u8; 32]),
}

/// Parses an accumulator root with `rustreexo::node_hash::BitcoinNodeHash::from_str`.
///
/// The contract restates what that function does in rustreexo 0.7: it decodes
/// exactly 64 hex digits (either case) into the 32 bytes they spell, in order,
/// and yields `BitcoinNodeHash::Some` of them; any other input is an error.
#[verifier::external_body]
pub(crate) fn parse_node_hash(s: &str) -> (r: Option<NodeHash>)
    ensures
        r is Some <==> is_hex_hash(s@),
        r matches Some(h) ==> (h matches NodeHash::Hash(b) && b@ == hex_bytes(s@)),
{
    match rustreexo::node_hash::BitcoinNodeHash::from_str(s) {
        Ok(rustreexo::node_hash::BitcoinNodeHash::Empty) => Some(NodeHash::Empty),
        Ok(rustreexo::node_hash::BitcoinNodeHash::Placeholder) => Some(NodeHash::Placeholder),
        Ok(rustreexo::node_hash::BitcoinNodeHash::Some(b)) => Some(NodeHash::Hash(b)),
        Err(_) => None,
    }
}

/// The block hash a string names, or the all-zero hash where it names none.
pub open spec fn block_hash_or_zero(s: Seq<char>) -> Seq<u8> {
    if is_hex_hash(s) {
        block_hash_bytes(s)
    } else {
        zero_hash_bytes()
    }
}

/// A block hash of 64 hex digits is read last pair first: byte `i` is the
/// value of digits `62 - 2i` (high) and `63 - 2i` (low). Any other string
/// reads as thirty-two zero bytes.
pub proof fn lemma_block_hash_read_in_display_order(s: Seq<char>)
    ensures
        block_hash_or_zero(s).len() == 32,
        is_hex_hash(s) ==> forall|i: int|
            0 <= i < 32 ==> #[trigger] block_hash_or_zero(s)[i] == (hex_digit_value(s[62 - 2 * i])
                * 16 + hex_digit_value(s[63 - 2 * i])) as u8,
        !is_hex_hash(s) ==> forall|i: int| 0 <= i < 32 ==> #[trigger] block_hash_or_zero(s)[i] == 0,
{
    if is_hex_hash(s) {
        assert forall|i: int| 0 <= i < 32 implies #[trigger] block_hash_or_zero(s)[i] == (
        hex_digit_value(s[62 - 2 * i]) * 16 + hex_digit_value(s[63 - 2 * i])) as u8 by {
            assert(2 * (31 - i) == 62 - 2 * i);
        }
    }
}

/// The roots a node keeps are read first pair first: byte `k` of a decoded
/// root is the value of digits `2k` (high) and `2k + 1` (low).
pub proof fn lemma_root_read_in_written_order(s: Seq<char>)
    ensures
        hex_bytes(s).len() == 32,
        forall|k: int|
            0 <= k < 32 ==> #[trigger] hex_bytes(s)[k] == (hex_digit_value(s[2 * k]) * 16
                + hex_digit_value(s[2 * k + 1])) as u8,
{
}

/// Reads a block hash in display order, falling back to the all-zero hash
/// where `s` is not 64 hex digits.
pub fn parse_block_hash_or_zero(s: &str) -> (r: [u8; 32])
    ensures
        r@ == block_hash_or_zero(s@),
{
    match parse_block_hash(s) {
        Some(b) => b,
        None => zero_block_hash(),
    }
}

} // verus!
