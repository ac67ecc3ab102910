//! The external identifier encoding: a game id arrives as a base-62
//! numeral in a URL path and is looked up by its low fourteen bytes,
//! big-endian.

use vstd::prelude::*;

verus! {

/// Whether `c` is a digit of the standard base-62 alphabet
/// (`0-9`, `A-Z`, `a-z`).
pub open spec fn is_base62_char(c: char) -> bool {
    ('0' <= c && c <= '9') || ('A' <= c && c <= 'Z') || ('a' <= c && c <= 'z')
}

/// The digit value of a base-62 character.
pub open spec fn base62_digit(c: char) -> int {
    if '0' <= c && c <= '9' {
        c as int - 48
    } else if 'A' <= c && c <= 'Z' {
        c as int - 55
    } else {
        c as int - 61
    }
}

/// The value of a base-62 numeral, most significant digit first.
pub open spec fn spec_base62_val(s: Seq<char>) -> int
    decreases s.len(),
{
    if s.len() == 0 {
        0
    } else {
        spec_base62_val(s.drop_last()) * 62 + base62_digit(s.last())
    }
}

/// Whether a string is a well-formed game id: a non-empty base-62
/// numeral whose value fits in 128 bits.
pub open spec fn spec_valid_game_id(s: Seq<char>) -> bool {
    s.len() > 0 && (forall|i: int| 0 <= i < s.len() ==> is_base62_char(s[i]))
        && spec_base62_val(s) <= u128::MAX
}

/// Relies on base62::decode (standard alphabet, `0-9` then `A-Z` then
/// `a-z`): returns the value of the numeral, and an error exactly on an
/// empty input, a character outside the alphabet, or a value above
/// `u128::MAX`.
#[verifier::external_body]
fn base62_decode(s: &str) -> (r: Option<u128>)
    ensures
        r is Some <==> spec_valid_game_id(s@),
        r is Some ==> r.unwrap() as int == spec_base62_val(s@),
{
    base62::decode(s).ok()
}

/// The big-endian bytes of the low `n` bytes of a value.
pub open spec fn spec_be_seq(v: int, n: int) -> Seq<u8>
    decreases n,
{
    if n <= 0 {
        Seq::empty()
    } else {
        spec_be_seq(v / 256, n - 1).push((v % 256) as u8)
    }
}

/// The fourteen-byte lookup key of a game id value: its low fourteen
/// bytes, big-endian.
pub open spec fn spec_game_id_bytes(v: int) -> Seq<u8> {
    spec_be_seq(v, 14)
}

/// Writes the low `n` bytes of `v`, big-endian.
fn be_bytes(v: u128, n: usize) -> (r: Vec<u8>)
    ensures
        r@ == spec_be_seq(v as int, n as int),
    decreases n,
{
    if n == 0 {
        Vec::new()
    } else {
        let mut b = be_bytes(v / 256, n - 1);
        b.push((v % 256) as u8);
        proof {
            assert(b@ =~= spec_be_seq(v as int, n as int));
        }
        b
    }
}

/// Decodes a game id from its base-62 URL form to the fourteen-byte
/// lookup key; `None` exactly on a malformed id.
pub fn decode_game_id(path_id: &str) -> (r: Option<Vec<u8>>)
    ensures
        r is Some <==> spec_valid_game_id(path_id@),
        r is Some ==> r.unwrap()@ == spec_game_id_bytes(spec_base62_val(path_id@)),
{
    match base62_decode(path_id) {
        Some(v) => Some(be_bytes(v, 14)),
        None => None,
    }
}

} // verus!
