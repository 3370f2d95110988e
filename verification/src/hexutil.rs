use vstd::prelude::*;
use vstd::string::StrSliceExecFns;
use crate::errors::MerkleError;

verus! {

/// `c` is one of the characters `0`-`9`, `a`-`f`, `A`-`F`.
pub open spec fn is_hex_digit(c: char) -> bool {
    (48 <= c as u32 && c as u32 <= 57) || (97 <= c as u32 && c as u32 <= 102) || (65 <= c as u32
        && c as u32 <= 70)
}

/// Numeric value of a hex digit.
pub open spec fn hex_digit_val(c: char) -> u8
    recommends
        is_hex_digit(c),
{
    if 48 <= c as u32 && c as u32 <= 57 {
        (c as u32 - 48) as u8
    } else if 97 <= c as u32 && c as u32 <= 102 {
        (c as u32 - 87) as u8
    } else {
        (c as u32 - 55) as u8
    }
}

/// The lowercase hex digit whose value is `v`.
pub open spec fn hex_digit_char(v: u8) -> char
    recommends
        v < 16,
{
    if v < 10 {
        ((v + 48) as u8) as char
    } else {
        ((v + 87) as u8) as char
    }
}

/// A well-formed hex string: even length, hex digits throughout.
pub open spec fn valid_hex(s: Seq<char>) -> bool {
    &&& s.len() % 2 == 0
    &&& forall|i: int| 0 <= i < s.len() ==> is_hex_digit(#[trigger] s[i])
}

/// The byte sequence a hex string denotes: two digits per byte, high digit
/// first, in the order the string gives them.
pub open spec fn hex_decode_seq(s: Seq<char>) -> Seq<u8> {
    Seq::new(
        s.len() / 2,
        |i: int| (hex_digit_val(s[2 * i]) * 16 + hex_digit_val(s[2 * i + 1])) as u8,
    )
}

/// Lowercase hex encoding: two digits per byte, high digit first.
pub open spec fn hex_encode_seq(b: Seq<u8>) -> Seq<char> {
    Seq::new(
        2 * b.len(),
        |i: int|
            if i % 2 == 0 {
                hex_digit_char(b[i / 2] / 16)
            } else {
                hex_digit_char(b[i / 2] % 16)
            },
    )
}

/// ASCII lowercasing of one character; characters outside `A`-`Z` pass
/// through unchanged.
pub open spec fn lower_char(c: char) -> char {
    if 65 <= c as u32 && c as u32 <= 90 {
        ((c as u32 + 32) as u8) as char
    } else {
        c
    }
}

/// ASCII lowercasing of a whole string.
pub open spec fn lower_seq(s: Seq<char>) -> Seq<char> {
    Seq::new(s.len(), |i: int| lower_char(s[i]))
}

/// Relies on hex::decode: it succeeds exactly on even-length strings of hex
/// digits (either case), reading two digits per byte, high digit first. It
/// works on the string's bytes, but a string of hex digits is ASCII, so its
/// bytes and its characters coincide; any other string has a non-hex byte
/// or, via a multi-byte character, leaves both sides failing.
#[verifier::external_body]
pub(crate) fn hex_decode(s: &str) -> (r: Option<Vec<u8>>)
    ensures
        r is Some <==> valid_hex(s@),
        r matches Some(b) ==> b@ == hex_decode_seq(s@),
{
    hex::decode(s).ok()
}

/// Relies on hex::encode: two lowercase hex digits per input byte, high
/// digit first.
#[verifier::external_body]
pub(crate) fn hex_encode(b: &[u8]) -> (r: String)
    ensures
        r@ == hex_encode_seq(b@),
{
    hex::encode(b)
}

/// Relies on String::push: appends exactly one character.
#[verifier::external_body]
fn push_char(s: &mut String, c: char)
    ensures
        final(s)@ == old(s)@.push(c),
{
    s.push(c);
}

/// ASCII-lowercase one character.
fn lower_char_exec(c: char) -> (r: char)
    ensures
        r == lower_char(c),
{
    let u = c as u32;
    if 65 <= u && u <= 90 {
        ((u + 32) as u8) as char
    } else {
        c
    }
}

/// ASCII-lowercase a whole string.
pub fn lowercase(s: &str) -> (r: String)
    ensures
        r@ == lower_seq(s@),
{
    let n = s.unicode_len();
    let mut out = String::new();
    let mut i: usize = 0;
    while i < n
        invariant
            n == s@.len(),
            i <= n,
            out@ == lower_seq(s@).take(i as int),
        decreases n - i,
    {
        let c = s.get_char(i);
        push_char(&mut out, lower_char_exec(c));
        proof {
            assert(lower_seq(s@).take(i + 1 as int) =~= lower_seq(s@).take(i as int).push(
                lower_char(s@[i as int]),
            ));
        }
        i += 1;
    }
    proof {
        assert(lower_seq(s@).take(n as int) =~= lower_seq(s@));
    }
    out
}

/// Decode big-endian display hex into the little-endian byte order used for
/// hashing: hex-decode, then reverse the bytes. Only well-formedness is
/// checked; a 32-byte length is a convention of the callers, not enforced
/// here.
pub fn hex_be_to_bytes_le(hex_be: &str) -> (r: Result<Vec<u8>, MerkleError>)
    ensures
        r is Ok <==> valid_hex(hex_be@),
        r matches Ok(b) ==> b@ == hex_decode_seq(hex_be@).reverse(),
        r is Err ==> r == Err::<Vec<u8>, MerkleError>(MerkleError::DecodeError),
{
    match hex_decode(hex_be) {
        None => Err(MerkleError::DecodeError),
        Some(bytes) => {
            let n = bytes.len();
            let mut rev: Vec<u8> = Vec::new();
            let mut i: usize = 0;
            while i < n
                invariant
                    n == bytes.len(),
                    i <= n,
                    bytes@ == hex_decode_seq(hex_be@),
                    rev@ == hex_decode_seq(hex_be@).reverse().take(i as int),
                decreases n - i,
            {
                rev.push(bytes[n - 1 - i]);
                proof {
                    let full = hex_decode_seq(hex_be@).reverse();
                    assert(full.take(i + 1 as int) =~= full.take(i as int).push(full[i as int]));
                }
                i += 1;
            }
            proof {
                assert(hex_decode_seq(hex_be@).reverse().take(n as int) =~= hex_decode_seq(
                    hex_be@,
                ).reverse());
            }
            Ok(rev)
        },
    }
}

/// Encode little-endian hash bytes as big-endian display hex: reverse the
/// bytes, then hex-encode, lowercase.
pub fn bytes_le_to_hex_be(bytes_le: &[u8]) -> (r: String)
    ensures
        r@ == hex_encode_seq(bytes_le@.reverse()),
{
    let n = bytes_le.len();
    let mut rev: Vec<u8> = Vec::new();
    let mut i: usize = 0;
    while i < n
        invariant
            n == bytes_le@.len(),
            i <= n,
            rev@ == bytes_le@.reverse().take(i as int),
        decreases n - i,
    {
        rev.push(bytes_le[n - 1 - i]);
        proof {
            let full = bytes_le@.reverse();
            assert(full.take(i + 1 as int) =~= full.take(i as int).push(full[i as int]));
        }
        i += 1;
    }
    proof {
        assert(bytes_le@.reverse().take(n as int) =~= bytes_le@.reverse());
    }
    hex_encode(rev.as_slice())
}

} // verus!
