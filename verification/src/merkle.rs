use vstd::prelude::*;
use crate::hashing::{hash2_of, double_sha256};
use crate::hexutil::{valid_hex, hex_decode_seq, hex_encode_seq};

verus! {

/// Hash of one tree node from its two children (little-endian bytes).
pub open spec fn combine_hash(left: Seq<u8>, right: Seq<u8>) -> Seq<u8> {
    hash2_of(left + right)
}

/// One level up: pair the nodes left to right; an unpaired final node is
/// paired with itself, never dropped.
pub open spec fn next_level(level: Seq<Seq<u8>>) -> Seq<Seq<u8>> {
    Seq::new(
        (level.len() + 1) / 2,
        |i: int|
            combine_hash(
                level[2 * i],
                if 2 * i + 1 < level.len() {
                    level[2 * i + 1]
                } else {
                    level[2 * i]
                },
            ),
    )
}

/// The root of the binary hash tree over `level`: pair upward until one node
/// remains. A single node is the root itself, unhashed.
pub open spec fn merkle_root_of(level: Seq<Seq<u8>>) -> Seq<u8>
    recommends
        level.len() >= 1,
    decreases level.len(),
{
    if level.len() <= 1 {
        if level.len() == 1 {
            level[0]
        } else {
            Seq::empty()
        }
    } else {
        merkle_root_of(next_level(level))
    }
}

/// All ids in the list are well-formed hex strings.
pub open spec fn all_valid_hex(ids: Seq<Seq<char>>) -> bool {
    forall|i: int| 0 <= i < ids.len() ==> valid_hex(#[trigger] ids[i])
}

/// The leaf level a list of big-endian hex ids decodes to: each id decoded
/// and byte-reversed into the little-endian hashing order.
pub open spec fn leaves_of(ids: Seq<Seq<char>>) -> Seq<Seq<u8>> {
    Seq::new(ids.len(), |i: int| hex_decode_seq(ids[i]).reverse())
}

/// The Merkle root of a list of big-endian hex ids, itself rendered as
/// big-endian lowercase hex.
pub open spec fn root_hex_of(ids: Seq<Seq<char>>) -> Seq<char> {
    hex_encode_seq(merkle_root_of(leaves_of(ids)).reverse())
}

/// Concatenation of two byte slices.
pub(crate) fn concat_bytes(a: &[u8], b: &[u8]) -> (r: Vec<u8>)
    ensures
        r@ == a@ + b@,
{
    let mut out: Vec<u8> = Vec::new();
    let mut i: usize = 0;
    while i < a.len()
        invariant
            i <= a@.len(),
            out@ == a@.take(i as int),
        decreases a@.len() - i,
    {
        out.push(a[i]);
        i += 1;
    }
    proof {
        assert(a@.take(a@.len() as int) =~= a@);
    }
    let mut j: usize = 0;
    while j < b.len()
        invariant
            j <= b@.len(),
            out@ == a@ + b@.take(j as int),
        decreases b@.len() - j,
    {
        out.push(b[j]);
        proof {
            assert(a@ + b@.take(j + 1 as int) =~= (a@ + b@.take(j as int)).push(b@[j as int]));
        }
        j += 1;
    }
    proof {
        assert(a@ + b@.take(b@.len() as int) =~= a@ + b@);
    }
    out
}

/// Build the Merkle root bottom-up from little-endian leaf hashes, pairing
/// left to right and duplicating an unpaired final node at each level.
pub fn build_merkle_root(leaves: Vec<Vec<u8>>) -> (r: Vec<u8>)
    requires
        leaves@.len() >= 1,
    ensures
        r@ == merkle_root_of(leaves.deep_view()),
{
    let ghost orig: Seq<Seq<u8>> = leaves.deep_view();
    let mut level = leaves;
    while level.len() > 1
        invariant
            level@.len() >= 1,
            merkle_root_of(level.deep_view()) == merkle_root_of(orig),
        decreases level@.len(),
    {
        let n = level.len();
        let ghost ldv: Seq<Seq<u8>> = level.deep_view();
        let mut next: Vec<Vec<u8>> = Vec::new();
        let mut i: usize = 0;
        while i < n
            invariant
                n == level@.len(),
                2 <= n,
                level.deep_view() == ldv,
                i % 2 == 0 || i == n,
                i <= n,
                next.deep_view() == next_level(ldv).take((i as int + 1) / 2),
            decreases n - i,
        {
            let left = &level[i];
            let right = if i + 1 < n {
                &level[i + 1]
            } else {
                &level[i]
            };
            let combined = concat_bytes(left.as_slice(), right.as_slice());
            let node = double_sha256(combined.as_slice());
            proof {
                let j = i as int / 2;
                assert(2 * j == i as int);
                assert(ldv[2 * j] == level@[i as int]@);
                if i + 1 < n {
                    assert(ldv[2 * j + 1] == level@[i as int + 1]@);
                }
                assert(node@ == next_level(ldv)[j]);
                assert(next_level(ldv).take(j + 1) =~= next_level(ldv).take(j).push(
                    next_level(ldv)[j],
                ));
            }
            next.push(node);
            proof {
                assert(next.deep_view() =~~= next_level(ldv).take(i as int / 2 + 1));
            }
            i += 1;
            if i < n {
                i += 1;
            }
        }
        proof {
            assert(next_level(ldv).take((i as int + 1) / 2) =~= next_level(ldv));
        }
        level = next;
    }
    proof {
        assert(level.deep_view().len() == 1);
        assert(merkle_root_of(level.deep_view()) == level.deep_view()[0]);
        assert(level.deep_view()[0] == level@[0]@);
    }
    // One node is left at this point, so pop always yields the root.
    match level.pop() {
        Some(root) => root,
        None => Vec::new(),
    }
}

} // verus!
