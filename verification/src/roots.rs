use vstd::prelude::*;
use vstd::string::StrSliceExecFns;
use vstd::string::StringExecFns;
use crate::errors::MerkleError;
use crate::hashing::hash2_of;
use crate::hashing::double_sha256;
use crate::hexutil::{
    valid_hex, hex_decode_seq, hex_encode_seq, lower_seq, lowercase, hex_be_to_bytes_le,
    bytes_le_to_hex_be, hex_decode, hex_encode,
};
use crate::merkle::{all_valid_hex, leaves_of, root_hex_of, build_merkle_root, concat_bytes};
use crate::transactions::{
    TxEntry, extracted_tx_ids, extracted_wtx_ids, extract_tx_ids_ref, extract_wtx_ids_ref,
};

verus! {

/// The canonical "no transactions" sentinel: sixty-four `0` characters.
pub open spec fn zero64() -> Seq<char> {
    Seq::new(64, |i: int| '0')
}

/// Thirty-two zero bytes, the default witness reserved value.
pub open spec fn zero_bytes32() -> Seq<u8> {
    Seq::new(32, |i: int| 0u8)
}

/// Root computation succeeds: a single id passes through unexamined; two or
/// more ids must all be well-formed hex.
pub open spec fn compute_ok(ids: Seq<Seq<char>>) -> bool {
    ids.len() == 1 || (ids.len() >= 2 && all_valid_hex(ids))
}

/// The root a successful computation returns: a single id lowercased
/// verbatim, otherwise the tree root over the decoded ids as lowercase hex.
pub open spec fn computed_root(ids: Seq<Seq<char>>) -> Seq<char>
    recommends
        ids.len() >= 1,
{
    if ids.len() == 1 {
        lower_seq(ids[0])
    } else {
        root_hex_of(ids)
    }
}

/// What transaction-root verification returns: an empty expected root is
/// rejected; an empty id list matches only the zero sentinel; otherwise the
/// computation must succeed and match the expected root case-insensitively.
pub open spec fn verify_root_spec(ids: Seq<Seq<char>>, expected: Seq<char>) -> bool {
    if expected.len() == 0 {
        false
    } else if ids.len() == 0 {
        expected == zero64()
    } else {
        compute_ok(ids) && computed_root(ids) == lower_seq(expected)
    }
}

/// The reserved value used for the witness commitment: the decoded hex when
/// it is well-formed, thirty-two zero bytes when it is absent or malformed.
pub open spec fn reserved_bytes_of(reserved_hex: Option<Seq<char>>) -> Seq<u8> {
    match reserved_hex {
        Some(h) => if valid_hex(h) {
            hex_decode_seq(h)
        } else {
            zero_bytes32()
        },
        None => zero_bytes32(),
    }
}

/// What witness-commitment verification returns: vacuously true with no
/// wtxids or no commitment; otherwise the witness root (coinbase slot
/// zeroed) is recombined with the reserved value, double-hashed, and
/// compared to the commitment case-insensitively.
pub open spec fn verify_witness_spec(
    ids: Seq<Seq<char>>,
    commitment: Seq<char>,
    reserved_hex: Option<Seq<char>>,
) -> bool {
    if ids.len() == 0 || commitment.len() == 0 {
        true
    } else {
        let idsz = ids.update(0, zero64());
        if !compute_ok(idsz) {
            false
        } else {
            let root = computed_root(idsz);
            if !valid_hex(root) {
                false
            } else {
                let root_le = hex_decode_seq(root).reverse();
                let calc = hex_encode_seq(hash2_of(root_le + reserved_bytes_of(reserved_hex)));
                lower_seq(calc) == lower_seq(commitment)
            }
        }
    }
}

/// What whole-block verification returns: the transaction root must check
/// out; the witness commitment is checked only when requested, present, and
/// backed by a non-empty witness id list, and is skipped silently otherwise.
pub open spec fn verify_block_spec(
    entries: Seq<TxEntry>,
    expected: Seq<char>,
    verify_witness: Option<bool>,
    commitment: Option<Seq<char>>,
    reserved_hex: Option<Seq<char>>,
) -> bool {
    if expected.len() == 0 {
        false
    } else {
        let txids = extracted_tx_ids(entries);
        if txids.len() == 0 {
            expected == zero64()
        } else if !verify_root_spec(txids, expected) {
            false
        } else {
            let wtxids = extracted_wtx_ids(entries);
            if verify_witness == Some(true) && commitment is Some && wtxids.len() > 0 {
                verify_witness_spec(wtxids, commitment->0, reserved_hex)
            } else {
                true
            }
        }
    }
}

/// What genesis verification returns: height exactly zero (an absent height
/// fails), a non-empty expected root, exactly one extracted id, and
/// case-insensitive equality between the two.
pub open spec fn verify_genesis_spec(
    entries: Seq<TxEntry>,
    expected: Seq<char>,
    block_height: Option<u32>,
) -> bool {
    &&& block_height == Some(0u32)
    &&& expected.len() > 0
    &&& extracted_tx_ids(entries).len() == 1
    &&& lower_seq(expected) == lower_seq(extracted_tx_ids(entries)[0])
}

/// Thirty-two zero bytes.
fn zero_bytes_32() -> (r: Vec<u8>)
    ensures
        r@ == zero_bytes32(),
{
    let mut out: Vec<u8> = Vec::new();
    let mut i: usize = 0;
    while i < 32
        invariant
            i <= 32,
            out@ == zero_bytes32().take(i as int),
        decreases 32 - i,
    {
        out.push(0u8);
        proof {
            assert(zero_bytes32().take(i + 1 as int) =~= zero_bytes32().take(i as int).push(0u8));
        }
        i += 1;
    }
    proof {
        assert(zero_bytes32().take(32) =~= zero_bytes32());
    }
    out
}

/// Stateless namespace for Merkle root computation and verification over
/// big-endian hex transaction ids.
pub struct BitcoinMerkleVerifier;

impl BitcoinMerkleVerifier {
    /// The canonical empty-block Merkle root: sixty-four `0` characters.
    pub fn get_empty_merkle_root() -> (r: String)
        ensures
            r@ == zero64(),
    {
        let r = String::from_str(
            "0000000000000000000000000000000000000000000000000000000000000000",
        );
        proof {
            reveal_strlit("0000000000000000000000000000000000000000000000000000000000000000");
            assert(r@ =~= zero64());
        }
        r
    }

    /// Compute the block Merkle root from big-endian hex txids, as read from
    /// RPC. An empty list is an error; a single id is returned lowercased
    /// without decoding; otherwise every id must decode, and the tree root
    /// comes back as big-endian lowercase hex.
    pub fn compute_merkle_root(txids_be: Vec<String>) -> (r: Result<String, MerkleError>)
        ensures
            txids_be.deep_view().len() == 0 <==> r == Err::<String, MerkleError>(
                MerkleError::EmptyInputError,
            ),
            txids_be.deep_view().len() >= 1 ==> (r is Ok <==> compute_ok(txids_be.deep_view())),
            r matches Ok(s) ==> s@ == computed_root(txids_be.deep_view()),
            txids_be.deep_view().len() >= 2 && !all_valid_hex(txids_be.deep_view()) ==> r
                == Err::<String, MerkleError>(MerkleError::DecodeError),
    {
        let ghost dv: Seq<Seq<char>> = txids_be.deep_view();
        let n = txids_be.len();
        if n == 0 {
            return Err(MerkleError::EmptyInputError);
        }
        if n == 1 {
            let s = lowercase(txids_be[0].as_str());
            return Ok(s);
        }
        let mut level: Vec<Vec<u8>> = Vec::new();
        let mut i: usize = 0;
        while i < n
            invariant
                n == txids_be@.len(),
                dv == txids_be.deep_view(),
                2 <= n,
                i <= n,
                forall|j: int| 0 <= j < i ==> valid_hex(#[trigger] dv[j]),
                level.deep_view() == leaves_of(dv).take(i as int),
            decreases n - i,
        {
            match hex_be_to_bytes_le(txids_be[i].as_str()) {
                Ok(b) => {
                    proof {
                        assert(dv[i as int] == txids_be@[i as int]@);
                        assert(leaves_of(dv).take(i + 1 as int) =~= leaves_of(dv).take(
                            i as int,
                        ).push(leaves_of(dv)[i as int]));
                    }
                    level.push(b);
                    proof {
                        assert(level.deep_view() =~~= leaves_of(dv).take(i + 1 as int));
                    }
                },
                Err(e) => {
                    proof {
                        assert(!valid_hex(dv[i as int]));
                        assert(!all_valid_hex(dv));
                    }
                    return Err(e);
                },
            }
            i += 1;
        }
        proof {
            assert(leaves_of(dv).take(n as int) =~= leaves_of(dv));
            assert(all_valid_hex(dv));
        }
        let root = build_merkle_root(level);
        let hex = bytes_le_to_hex_be(root.as_slice());
        Ok(hex)
    }

    /// Verify a block's Merkle root, both sides big-endian hex. An empty
    /// expected root never matches; an empty txid list matches only the
    /// zero sentinel; a failed computation yields false, never an error.
    pub fn verify_merkle_root(txids_be: Vec<String>, expected_root_be: String) -> (r: bool)
        ensures
            r == verify_root_spec(txids_be.deep_view(), expected_root_be@),
    {
        if expected_root_be.as_str().is_empty() {
            return false;
        }
        if txids_be.len() == 0 {
            let zeros = Self::get_empty_merkle_root();
            return expected_root_be == zeros;
        }
        match Self::compute_merkle_root(txids_be) {
            Ok(computed) => {
                let expected_lower = lowercase(expected_root_be.as_str());
                computed == expected_lower
            },
            Err(_) => false,
        }
    }

    /// Compute the BIP141 witness Merkle root from big-endian hex wtxids:
    /// the first entry, conventionally the coinbase, is replaced by the zero
    /// sentinel unconditionally before the tree is built.
    pub fn compute_witness_merkle_root(wtxids_be: Vec<String>) -> (r: Result<String, MerkleError>)
        ensures
            wtxids_be.deep_view().len() == 0 <==> r == Err::<String, MerkleError>(
                MerkleError::EmptyInputError,
            ),
            wtxids_be.deep_view().len() >= 1 ==> (r is Ok <==> compute_ok(
                wtxids_be.deep_view().update(0, zero64()),
            )),
            r matches Ok(s) ==> s@ == computed_root(wtxids_be.deep_view().update(0, zero64())),
    {
        let ghost dv: Seq<Seq<char>> = wtxids_be.deep_view();
        let ghost dvz: Seq<Seq<char>> = dv.update(0, zero64());
        let n = wtxids_be.len();
        if n == 0 {
            return Err(MerkleError::EmptyInputError);
        }
        let mut ids: Vec<String> = Vec::new();
        ids.push(Self::get_empty_merkle_root());
        proof {
            assert(ids.deep_view() =~~= dvz.take(1));
        }
        let mut i: usize = 1;
        while i < n
            invariant
                n == wtxids_be@.len(),
                dv == wtxids_be.deep_view(),
                dvz == dv.update(0, zero64()),
                1 <= i <= n,
                ids.deep_view() == dvz.take(i as int),
            decreases n - i,
        {
            ids.push(wtxids_be[i].clone());
            proof {
                assert(dvz[i as int] == wtxids_be@[i as int]@);
                assert(dvz.take(i + 1 as int) =~= dvz.take(i as int).push(dvz[i as int]));
                assert(ids.deep_view() =~~= dvz.take(i + 1 as int));
            }
            i += 1;
        }
        proof {
            assert(dvz.take(n as int) =~= dvz);
        }
        Self::compute_merkle_root(ids)
    }

    /// Verify the BIP141 witness commitment. Nothing to check — no wtxids or
    /// no commitment — is success; a malformed or absent reserved value
    /// falls back to thirty-two zero bytes; internal failures yield false.
    pub fn verify_witness_commitment(
        wtxids_be: Vec<String>,
        commitment_hex: String,
        reserved_hex: Option<String>,
    ) -> (r: bool)
        ensures
            r == verify_witness_spec(
                wtxids_be.deep_view(),
                commitment_hex@,
                reserved_hex.deep_view(),
            ),
    {
        let ghost rdv: Option<Seq<char>> = reserved_hex.deep_view();
        if wtxids_be.len() == 0 || commitment_hex.as_str().is_empty() {
            return true;
        }
        let witness_root_be = match Self::compute_witness_merkle_root(wtxids_be) {
            Ok(root) => root,
            Err(_) => {
                return false;
            },
        };
        let witness_root_le = match hex_be_to_bytes_le(witness_root_be.as_str()) {
            Ok(bytes) => bytes,
            Err(_) => {
                return false;
            },
        };
        let reserved: Vec<u8> = match reserved_hex {
            Some(h) => {
                match hex_decode(h.as_str()) {
                    Some(b) => b,
                    None => zero_bytes_32(),
                }
            },
            None => zero_bytes_32(),
        };
        proof {
            assert(reserved@ == reserved_bytes_of(rdv));
        }
        let combined = concat_bytes(witness_root_le.as_slice(), reserved.as_slice());
        let calculated = double_sha256(combined.as_slice());
        let calc_hex = hex_encode(calculated.as_slice());
        let a = lowercase(calc_hex.as_str());
        let b = lowercase(commitment_hex.as_str());
        a == b
    }

    /// Extract txids from a mixed list of bare id strings and descriptors:
    /// `txid` preferred, then `hash`; entries with neither are dropped.
    pub fn extract_tx_ids(transactions: Vec<TxEntry>) -> (r: Vec<String>)
        ensures
            r.deep_view() == extracted_tx_ids(transactions@),
    {
        extract_tx_ids_ref(&transactions)
    }

    /// Extract wtxids from a mixed list: `wtxid` preferred, then `txid`,
    /// then `hash`; entries with none of them are dropped.
    pub fn extract_wtx_ids(transactions: Vec<TxEntry>) -> (r: Vec<String>)
        ensures
            r.deep_view() == extracted_wtx_ids(transactions@),
    {
        extract_wtx_ids_ref(&transactions)
    }

    /// Verify a whole block: the transaction root always, the witness
    /// commitment only when requested and its preconditions are met.
    pub fn verify_block_merkle_root(
        transactions: Vec<TxEntry>,
        expected_merkle_root: String,
        verify_witness: Option<bool>,
        witness_commitment_hex: Option<String>,
        witness_reserved_hex: Option<String>,
    ) -> (r: bool)
        ensures
            r == verify_block_spec(
                transactions@,
                expected_merkle_root@,
                verify_witness,
                witness_commitment_hex.deep_view(),
                witness_reserved_hex.deep_view(),
            ),
    {
        if expected_merkle_root.as_str().is_empty() {
            return false;
        }
        let txids = extract_tx_ids_ref(&transactions);
        if txids.len() == 0 {
            let zeros = Self::get_empty_merkle_root();
            return expected_merkle_root == zeros;
        }
        if !Self::verify_merkle_root(txids, expected_merkle_root) {
            return false;
        }
        let vw = match verify_witness {
            Some(b) => b,
            None => false,
        };
        if vw {
            match witness_commitment_hex {
                Some(commitment) => {
                    let wtxids = extract_wtx_ids_ref(&transactions);
                    if wtxids.len() > 0 {
                        return Self::verify_witness_commitment(
                            wtxids,
                            commitment,
                            witness_reserved_hex,
                        );
                    }
                    true
                },
                None => true,
            }
        } else {
            true
        }
    }

    /// Genesis-block gate: height exactly zero, exactly one extracted id,
    /// and that id equals the expected root case-insensitively.
    pub fn verify_genesis_merkle_root(
        transactions: Vec<TxEntry>,
        expected_merkle_root: String,
        block_height: Option<u32>,
    ) -> (r: bool)
        ensures
            r == verify_genesis_spec(transactions@, expected_merkle_root@, block_height),
    {
        let h: u32 = match block_height {
            Some(h) => h,
            None => 1,
        };
        if h != 0 {
            return false;
        }
        if expected_merkle_root.as_str().is_empty() {
            return false;
        }
        let txids = extract_tx_ids_ref(&transactions);
        if txids.len() != 1 {
            return false;
        }
        let a = lowercase(expected_merkle_root.as_str());
        let b = lowercase(txids[0].as_str());
        a == b
    }
}

} // verus!
