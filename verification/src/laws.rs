use vstd::prelude::*;
use crate::hashing::hash2_of;
use crate::hexutil::{
    is_hex_digit, hex_digit_val, hex_digit_char, valid_hex, hex_decode_seq, hex_encode_seq,
    lower_char, lower_seq,
};
use crate::merkle::{combine_hash, next_level, merkle_root_of, all_valid_hex, leaves_of};
use crate::roots::{
    zero64, zero_bytes32, compute_ok, computed_root, verify_root_spec, verify_witness_spec,
    reserved_bytes_of,
};

verus! {

/// A hex digit that ASCII lowercasing leaves in place re-encodes to itself.
pub proof fn lemma_hex_digit_round(c: char)
    requires
        is_hex_digit(c),
        lower_char(c) == c,
    ensures
        hex_digit_char(hex_digit_val(c)) == c,
{
    if 48 <= c as u32 && c as u32 <= 57 {
        assert(hex_digit_val(c) < 10);
    } else {
        assert(97 <= c as u32 && c as u32 <= 102);
        assert(10 <= hex_digit_val(c) < 16);
    }
}

/// Decoding a lowercase hex string and re-encoding it gives the string
/// back: the codec loses nothing.
pub proof fn lemma_hex_round_trip(h: Seq<char>)
    requires
        valid_hex(h),
        lower_seq(h) == h,
    ensures
        hex_encode_seq(hex_decode_seq(h)) == h,
{
    let d = hex_decode_seq(h);
    assert(d.len() == h.len() / 2);
    assert(2 * (h.len() / 2) == h.len());
    assert forall|i: int| 0 <= i < h.len() implies hex_encode_seq(d)[i] == h[i] by {
        let j = i / 2;
        assert(is_hex_digit(h[2 * j]));
        assert(is_hex_digit(h[2 * j + 1]));
        assert(hex_digit_val(h[2 * j]) < 16);
        assert(hex_digit_val(h[2 * j + 1]) < 16);
        assert(lower_seq(h)[2 * j] == h[2 * j]);
        assert(lower_seq(h)[2 * j + 1] == h[2 * j + 1]);
        assert(lower_char(h[2 * j]) == h[2 * j]);
        assert(lower_char(h[2 * j + 1]) == h[2 * j + 1]);
        let a = hex_digit_val(h[2 * j]);
        let b = hex_digit_val(h[2 * j + 1]);
        assert(d[j] == a * 16 + b);
        if i % 2 == 0 {
            assert(i == 2 * j);
            assert(d[j] / 16 == a);
            lemma_hex_digit_round(h[i]);
        } else {
            assert(i == 2 * j + 1);
            assert(d[j] % 16 == b);
            lemma_hex_digit_round(h[i]);
        }
    };
    assert(hex_encode_seq(d) =~= h);
}

/// Round trip through the byte-order conventions: decoding big-endian
/// display hex to little-endian bytes and encoding those bytes back to
/// big-endian hex gives the starting lowercase string back.
pub proof fn lemma_be_le_round_trip(h: Seq<char>)
    requires
        valid_hex(h),
        lower_seq(h) == h,
    ensures
        hex_encode_seq(hex_decode_seq(h).reverse().reverse()) == h,
{
    assert(hex_decode_seq(h).reverse().reverse() =~= hex_decode_seq(h));
    lemma_hex_round_trip(h);
}

/// For a two-id list, the root is the double hash of the two decoded,
/// byte-reversed ids in order, re-encoded to big-endian hex.
pub proof fn lemma_root_of_two(ids: Seq<Seq<char>>)
    requires
        ids.len() == 2,
        all_valid_hex(ids),
    ensures
        computed_root(ids) == hex_encode_seq(
            hash2_of(
                hex_decode_seq(ids[0]).reverse() + hex_decode_seq(ids[1]).reverse(),
            ).reverse(),
        ),
{
    let l = leaves_of(ids);
    let nl = next_level(l);
    assert(l.len() == 2);
    assert(nl.len() == 1);
    assert(nl[0] == combine_hash(l[0], l[1]));
    assert(merkle_root_of(l) == merkle_root_of(nl));
    assert(merkle_root_of(nl) == nl[0]);
    assert(l[0] == hex_decode_seq(ids[0]).reverse());
    assert(l[1] == hex_decode_seq(ids[1]).reverse());
}

/// For a three-id list, the middle level pairs the first two ids and
/// duplicates the third; the root hashes those two nodes together.
pub proof fn lemma_root_of_three(ids: Seq<Seq<char>>)
    requires
        ids.len() == 3,
        all_valid_hex(ids),
    ensures
        next_level(leaves_of(ids)) == seq![
            combine_hash(
                hex_decode_seq(ids[0]).reverse(),
                hex_decode_seq(ids[1]).reverse(),
            ),
            combine_hash(
                hex_decode_seq(ids[2]).reverse(),
                hex_decode_seq(ids[2]).reverse(),
            ),
        ],
        computed_root(ids) == hex_encode_seq(
            combine_hash(
                combine_hash(
                    hex_decode_seq(ids[0]).reverse(),
                    hex_decode_seq(ids[1]).reverse(),
                ),
                combine_hash(
                    hex_decode_seq(ids[2]).reverse(),
                    hex_decode_seq(ids[2]).reverse(),
                ),
            ).reverse(),
        ),
{
    let l = leaves_of(ids);
    let nl = next_level(l);
    let nnl = next_level(nl);
    assert(l.len() == 3);
    assert(nl.len() == 2);
    assert(nnl.len() == 1);
    assert(l[0] == hex_decode_seq(ids[0]).reverse());
    assert(l[1] == hex_decode_seq(ids[1]).reverse());
    assert(l[2] == hex_decode_seq(ids[2]).reverse());
    assert(nl[0] == combine_hash(l[0], l[1]));
    assert(nl[1] == combine_hash(l[2], l[2]));
    assert(nl =~= seq![combine_hash(l[0], l[1]), combine_hash(l[2], l[2])]);
    assert(nnl[0] == combine_hash(nl[0], nl[1]));
    assert(merkle_root_of(l) == merkle_root_of(nl));
    assert(merkle_root_of(nl) == merkle_root_of(nnl));
    assert(merkle_root_of(nnl) == nnl[0]);
}

/// ASCII lowercasing is idempotent.
pub proof fn lemma_lower_idempotent(s: Seq<char>)
    ensures
        lower_seq(lower_seq(s)) == lower_seq(s),
{
    assert forall|i: int| 0 <= i < s.len() implies lower_char(lower_char(s[i])) == lower_char(
        s[i],
    ) by {}
    assert(lower_seq(lower_seq(s)) =~= lower_seq(s));
}

/// Hex encoding always yields well-formed, already-lowercase hex.
pub proof fn lemma_encode_is_lowercase_hex(b: Seq<u8>)
    ensures
        valid_hex(hex_encode_seq(b)),
        lower_seq(hex_encode_seq(b)) == hex_encode_seq(b),
{
    let e = hex_encode_seq(b);
    assert forall|i: int| 0 <= i < e.len() implies is_hex_digit(#[trigger] e[i]) && lower_char(
        e[i],
    ) == e[i] by {
        let v = if i % 2 == 0 {
            b[i / 2] / 16
        } else {
            b[i / 2] % 16
        };
        assert(v < 16);
        assert(e[i] == hex_digit_char(v));
    }
    assert(lower_seq(e) =~= e);
}

/// Every root a successful computation returns is lowercase: a single id is
/// lowercased explicitly, and a built tree root is lowercase hex.
pub proof fn lemma_computed_root_lowercase(ids: Seq<Seq<char>>)
    requires
        ids.len() >= 1,
    ensures
        lower_seq(computed_root(ids)) == computed_root(ids),
{
    if ids.len() == 1 {
        lemma_lower_idempotent(ids[0]);
    } else {
        lemma_encode_is_lowercase_hex(merkle_root_of(leaves_of(ids)).reverse());
    }
}

/// The witness root always re-decodes: whatever the wtxids, the root that
/// comes back from a successful computation over the zeroed list is
/// well-formed hex, so the commitment path's internal decode cannot fail.
pub proof fn lemma_witness_root_always_decodes(ids: Seq<Seq<char>>)
    requires
        ids.len() >= 1,
    ensures
        valid_hex(computed_root(ids.update(0, zero64()))) || !compute_ok(ids.update(0, zero64())),
{
    let idsz = ids.update(0, zero64());
    if compute_ok(idsz) {
        if idsz.len() == 1 {
            lemma_zero64_decodes_to_zero_bytes();
            assert(idsz[0] == zero64());
            assert forall|i: int| 0 <= i < 64 implies lower_char(#[trigger] zero64()[i])
                == zero64()[i] by {
                assert(zero64()[i] == '0');
            }
            assert(computed_root(idsz) =~= zero64());
        } else {
            lemma_encode_is_lowercase_hex(merkle_root_of(leaves_of(idsz)).reverse());
        }
    }
}

/// Verification agrees with computation: for a non-empty id list and a
/// non-empty expected root, verification succeeds exactly when the
/// computation succeeds and its result equals the expected root
/// case-insensitively.
pub proof fn lemma_verify_matches_compute(ids: Seq<Seq<char>>, expected: Seq<char>)
    requires
        ids.len() > 0,
        expected.len() > 0,
    ensures
        verify_root_spec(ids, expected) <==> (compute_ok(ids) && computed_root(ids) == lower_seq(
            expected,
        )),
{
}

/// The witness root never depends on the first id supplied: the coinbase
/// slot is overwritten with the zero sentinel whatever it held.
pub proof fn lemma_witness_root_ignores_first(ids1: Seq<Seq<char>>, ids2: Seq<Seq<char>>)
    requires
        ids1.len() == ids2.len(),
        ids1.len() >= 1,
        forall|i: int| 1 <= i < ids1.len() ==> ids1[i] == ids2[i],
    ensures
        computed_root(ids1.update(0, zero64())) == computed_root(ids2.update(0, zero64())),
{
    assert(ids1.update(0, zero64()) =~= ids2.update(0, zero64()));
}

/// The zero sentinel is well-formed hex and decodes to thirty-two zero
/// bytes.
pub proof fn lemma_zero64_decodes_to_zero_bytes()
    ensures
        valid_hex(zero64()),
        hex_decode_seq(zero64()) == zero_bytes32(),
{
    assert forall|i: int| 0 <= i < 64 implies is_hex_digit(#[trigger] zero64()[i]) by {
        assert(zero64()[i] == '0');
    }
    assert forall|i: int| 0 <= i < 32 implies hex_decode_seq(zero64())[i] == 0u8 by {
        assert(zero64()[2 * i] == '0');
        assert(zero64()[2 * i + 1] == '0');
        assert(hex_digit_val('0') == 0);
    }
    assert(hex_decode_seq(zero64()) =~= zero_bytes32());
}

/// Omitting the reserved value behaves exactly like passing the sixty-four
/// zero characters: both decode to thirty-two zero bytes.
pub proof fn lemma_reserved_default_is_zero64(ids: Seq<Seq<char>>, commitment: Seq<char>)
    ensures
        verify_witness_spec(ids, commitment, Some(zero64())) == verify_witness_spec(
            ids,
            commitment,
            None,
        ),
{
    lemma_zero64_decodes_to_zero_bytes();
    assert(reserved_bytes_of(Some(zero64())) == reserved_bytes_of(None));
}

} // verus!
