//! Hex encoding and decoding of byte strings, with exact specifications.
//!
//! Digests are displayed and stored as lowercase hex; registration keys and
//! payload digests travel back through `hex_decode`.

use vstd::prelude::*;

verus! {

/// The lowercase hex digit for a nibble value.
pub open spec fn hex_char_of(v: u8) -> char
    recommends
        v < 16,
{
    seq!['0', '1', '2', '3', '4', '5', '6', '7', '8', '9', 'a', 'b', 'c', 'd', 'e', 'f'][v as int]
}

/// Lowercase hex encoding: two digits per byte, high nibble first.
pub open spec fn hex_lower_of(bytes: Seq<u8>) -> Seq<char>
    decreases bytes.len(),
{
    if bytes.len() == 0 {
        Seq::<char>::empty()
    } else {
        seq![hex_char_of(bytes.first() / 16), hex_char_of(bytes.first() % 16)]
            + hex_lower_of(bytes.drop_first())
    }
}

/// A hex digit in either case.
pub open spec fn is_hex_digit(c: char) -> bool {
    (48 <= c as int && c as int <= 57)  // '0' ..= '9'
    || (97 <= c as int && c as int <= 102)  // 'a' ..= 'f'
    || (65 <= c as int && c as int <= 70)  // 'A' ..= 'F'
}

/// The nibble value a hex digit denotes.
pub open spec fn hex_val_of(c: char) -> u8
    recommends
        is_hex_digit(c),
{
    if 48 <= c as int && c as int <= 57 {
        (c as int - 48) as u8
    } else if 97 <= c as int && c as int <= 102 {
        (c as int - 87) as u8
    } else {
        (c as int - 55) as u8
    }
}

/// A decodable hex string: even length, hex digits throughout.
pub open spec fn is_hex_string(s: Seq<char>) -> bool {
    s.len() % 2 == 0 && (forall|i: int| 0 <= i < s.len() ==> is_hex_digit(#[trigger] s[i]))
}

/// The bytes a hex string denotes, one byte per digit pair.
pub open spec fn hex_bytes_of(s: Seq<char>) -> Seq<u8>
    decreases s.len(),
{
    if s.len() < 2 {
        Seq::<u8>::empty()
    } else {
        seq![(hex_val_of(s[0]) * 16 + hex_val_of(s[1])) as u8] + hex_bytes_of(s.skip(2))
    }
}

/// Hex-encode bytes as a lowercase string.
///
/// Relies on `hex::encode`: two lowercase digits per byte, high nibble first.
#[verifier::external_body]
pub fn hex_encode(data: &[u8]) -> (r: String)
    ensures
        r@ == hex_lower_of(data@),
{
    hex::encode(data)
}

/// Decode a hex string to bytes; `None` on malformed input.
///
/// Relies on `hex::decode`: succeeds exactly on even-length strings of hex
/// digits (either case), yielding the bytes the digit pairs denote.
#[verifier::external_body]
pub fn hex_decode(s: &str) -> (r: Option<Vec<u8>>)
    ensures
        r is Some <==> is_hex_string(s@),
        r matches Some(v) ==> v@ == hex_bytes_of(s@),
{
    hex::decode(s).ok()
}

/// Each nibble's hex digit is a digit and decodes back to the nibble.
pub proof fn lemma_hex_char_val(v: u8)
    requires
        v < 16,
    ensures
        is_hex_digit(hex_char_of(v)),
        hex_val_of(hex_char_of(v)) == v,
{
}

/// Hex encoding round-trips: the encoding is a decodable hex string of twice
/// the length, and decoding it gives the bytes back.
pub proof fn lemma_hex_roundtrip(bytes: Seq<u8>)
    ensures
        hex_lower_of(bytes).len() == 2 * bytes.len(),
        is_hex_string(hex_lower_of(bytes)),
        hex_bytes_of(hex_lower_of(bytes)) == bytes,
    decreases bytes.len(),
{
    if bytes.len() == 0 {
        assert(hex_bytes_of(hex_lower_of(bytes)) =~= bytes);
    } else {
        let b = bytes.first();
        let rest = bytes.drop_first();
        lemma_hex_char_val(b / 16);
        lemma_hex_char_val(b % 16);
        lemma_hex_roundtrip(rest);
        let s = hex_lower_of(bytes);
        assert(s.skip(2) =~= hex_lower_of(rest));
        assert(hex_bytes_of(s) =~= bytes);
    }
}

} // verus!
