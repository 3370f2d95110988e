use bitcoin_merkle::BitcoinMerkleVerifier;
use bitcoin_merkle::MerkleError;
use sha2::Digest;

const ZERO_ROOT: &str = "0000000000000000000000000000000000000000000000000000000000000000";

// Two famous transaction ids: the genesis coinbase, and both sides of the
// first-ever peer-to-peer transfer (block 170), with that block's root.
const GENESIS_TXID: &str = "4a5e1e4baab89f3a32518a88c31bc87f618f76673e2cc77ab2127b7afdeda33b";
const B170_TX0: &str = "b1fea52486ce0c62bb442b530a3f0132b826c74e473d1f2c220bfa78111c5082";
const B170_TX1: &str = "f4184fc596403b9d638783cf57adfe4c75c605f6356fbc91338530e9831e9e16";
const B170_ROOT: &str = "7dac2c5666815c17a3b36427de37bb9d2e2c5ccec3f8633eb91a4205cb4c10ff";

fn sha256d(data: &[u8]) -> Vec<u8> {
    sha2::Sha256::digest(sha2::Sha256::digest(data)).to_vec()
}

fn le_bytes(hex_be: &str) -> Vec<u8> {
    let mut b = hex::decode(hex_be).unwrap();
    b.reverse();
    b
}

fn be_hex(bytes_le: &[u8]) -> String {
    let mut b = bytes_le.to_vec();
    b.reverse();
    hex::encode(b)
}

fn pair_hash(left_be: &str, right_be: &str) -> Vec<u8> {
    let mut combined = le_bytes(left_be);
    combined.extend(le_bytes(right_be));
    sha256d(&combined)
}

fn ids(v: &[&str]) -> Vec<String> {
    v.iter().map(|s| s.to_string()).collect()
}

#[test]
fn empty_merkle_root_is_sixty_four_zeros() {
    assert_eq!(BitcoinMerkleVerifier::get_empty_merkle_root(), ZERO_ROOT);
}

#[test]
fn compute_rejects_empty_list() {
    let r = BitcoinMerkleVerifier::compute_merkle_root(Vec::new());
    assert_eq!(r, Err(MerkleError::EmptyInputError));
}

#[test]
fn compute_single_id_returns_it_lowercased() {
    let upper = GENESIS_TXID.to_uppercase();
    let r = BitcoinMerkleVerifier::compute_merkle_root(vec![upper]).unwrap();
    assert_eq!(r, GENESIS_TXID);
}

#[test]
fn compute_single_id_skips_hex_validation() {
    let r = BitcoinMerkleVerifier::compute_merkle_root(ids(&["NOT-HEX"])).unwrap();
    assert_eq!(r, "not-hex");
}

#[test]
fn compute_two_ids_matches_double_hash_of_pair() {
    let expected = be_hex(&pair_hash(B170_TX0, B170_TX1));
    let r = BitcoinMerkleVerifier::compute_merkle_root(ids(&[B170_TX0, B170_TX1])).unwrap();
    assert_eq!(r, expected);
}

#[test]
fn compute_two_ids_matches_known_block_root() {
    let r = BitcoinMerkleVerifier::compute_merkle_root(ids(&[B170_TX0, B170_TX1])).unwrap();
    assert_eq!(r, B170_ROOT);
}

#[test]
fn compute_three_ids_duplicates_odd_tail() {
    let left = be_hex(&pair_hash(B170_TX0, B170_TX1));
    let right = be_hex(&pair_hash(GENESIS_TXID, GENESIS_TXID));
    let expected = be_hex(&pair_hash(&left, &right));
    let r = BitcoinMerkleVerifier::compute_merkle_root(
        ids(&[B170_TX0, B170_TX1, GENESIS_TXID]),
    )
    .unwrap();
    assert_eq!(r, expected);
}

#[test]
fn compute_is_sensitive_to_order() {
    let ab = BitcoinMerkleVerifier::compute_merkle_root(ids(&[B170_TX0, B170_TX1])).unwrap();
    let ba = BitcoinMerkleVerifier::compute_merkle_root(ids(&[B170_TX1, B170_TX0])).unwrap();
    assert_ne!(ab, ba);
}

#[test]
fn compute_rejects_bad_hex_in_longer_lists() {
    let r = BitcoinMerkleVerifier::compute_merkle_root(ids(&["zz", "ab"]));
    assert_eq!(r, Err(MerkleError::DecodeError));
    let odd = BitcoinMerkleVerifier::compute_merkle_root(ids(&["abc", "ab"]));
    assert_eq!(odd, Err(MerkleError::DecodeError));
}

#[test]
fn verify_empty_list_matches_only_zero_root() {
    assert!(BitcoinMerkleVerifier::verify_merkle_root(Vec::new(), ZERO_ROOT.to_string()));
    assert!(!BitcoinMerkleVerifier::verify_merkle_root(
        Vec::new(),
        GENESIS_TXID.to_string()
    ));
}

#[test]
fn verify_rejects_empty_expected_root() {
    assert!(!BitcoinMerkleVerifier::verify_merkle_root(Vec::new(), String::new()));
    assert!(!BitcoinMerkleVerifier::verify_merkle_root(
        ids(&[B170_TX0, B170_TX1]),
        String::new()
    ));
}

#[test]
fn verify_agrees_with_compute_case_insensitively() {
    let root = BitcoinMerkleVerifier::compute_merkle_root(ids(&[B170_TX0, B170_TX1])).unwrap();
    assert!(BitcoinMerkleVerifier::verify_merkle_root(
        ids(&[B170_TX0, B170_TX1]),
        root.to_uppercase()
    ));
    let mut wrong = root.clone();
    wrong.replace_range(0..1, if root.starts_with('0') { "1" } else { "0" });
    assert!(!BitcoinMerkleVerifier::verify_merkle_root(
        ids(&[B170_TX0, B170_TX1]),
        wrong
    ));
}

#[test]
fn verify_returns_false_on_decode_failure() {
    assert!(!BitcoinMerkleVerifier::verify_merkle_root(
        ids(&["zz", "ab"]),
        ZERO_ROOT.to_string()
    ));
}

#[test]
fn witness_root_rejects_empty_list() {
    let r = BitcoinMerkleVerifier::compute_witness_merkle_root(Vec::new());
    assert_eq!(r, Err(MerkleError::EmptyInputError));
}

#[test]
fn witness_root_overwrites_first_id_regardless_of_value() {
    let a = BitcoinMerkleVerifier::compute_witness_merkle_root(ids(&[B170_TX0, B170_TX1]))
        .unwrap();
    let b = BitcoinMerkleVerifier::compute_witness_merkle_root(ids(&[GENESIS_TXID, B170_TX1]))
        .unwrap();
    let direct =
        BitcoinMerkleVerifier::compute_merkle_root(ids(&[ZERO_ROOT, B170_TX1])).unwrap();
    assert_eq!(a, b);
    assert_eq!(a, direct);
}

#[test]
fn witness_root_of_single_id_is_zero_root() {
    let r = BitcoinMerkleVerifier::compute_witness_merkle_root(ids(&[B170_TX0])).unwrap();
    assert_eq!(r, ZERO_ROOT);
}

#[test]
fn witness_commitment_vacuous_cases() {
    assert!(BitcoinMerkleVerifier::verify_witness_commitment(
        Vec::new(),
        String::new(),
        None
    ));
    assert!(BitcoinMerkleVerifier::verify_witness_commitment(
        Vec::new(),
        GENESIS_TXID.to_string(),
        None
    ));
    assert!(BitcoinMerkleVerifier::verify_witness_commitment(
        ids(&[B170_TX0]),
        String::new(),
        None
    ));
}

fn expected_commitment(wtxids: &[&str], reserved: &[u8]) -> String {
    let root = BitcoinMerkleVerifier::compute_witness_merkle_root(ids(wtxids)).unwrap();
    let mut combined = le_bytes(&root);
    combined.extend(reserved.to_vec());
    hex::encode(sha256d(&combined))
}

#[test]
fn witness_commitment_accepts_the_recomputed_value() {
    let commitment = expected_commitment(&[B170_TX0, B170_TX1], &[0u8; 32]);
    assert!(BitcoinMerkleVerifier::verify_witness_commitment(
        ids(&[B170_TX0, B170_TX1]),
        commitment.to_uppercase(),
        None
    ));
}

#[test]
fn witness_commitment_rejects_a_wrong_value() {
    let mut commitment = expected_commitment(&[B170_TX0, B170_TX1], &[0u8; 32]);
    let flip = if commitment.starts_with('0') { "1" } else { "0" };
    commitment.replace_range(0..1, flip);
    assert!(!BitcoinMerkleVerifier::verify_witness_commitment(
        ids(&[B170_TX0, B170_TX1]),
        commitment,
        None
    ));
}

#[test]
fn witness_commitment_default_reserved_equals_zero_hex() {
    let commitment = expected_commitment(&[B170_TX0, B170_TX1], &[0u8; 32]);
    let with_none = BitcoinMerkleVerifier::verify_witness_commitment(
        ids(&[B170_TX0, B170_TX1]),
        commitment.clone(),
        None,
    );
    let with_zeros = BitcoinMerkleVerifier::verify_witness_commitment(
        ids(&[B170_TX0, B170_TX1]),
        commitment,
        Some(ZERO_ROOT.to_string()),
    );
    assert!(with_none);
    assert_eq!(with_none, with_zeros);
}

#[test]
fn witness_commitment_malformed_reserved_falls_back_to_zeros() {
    let commitment = expected_commitment(&[B170_TX0, B170_TX1], &[0u8; 32]);
    assert!(BitcoinMerkleVerifier::verify_witness_commitment(
        ids(&[B170_TX0, B170_TX1]),
        commitment,
        Some("not-hex".to_string())
    ));
}

#[test]
fn witness_commitment_uses_supplied_reserved_value() {
    let reserved = [0xabu8; 32];
    let commitment = expected_commitment(&[B170_TX0, B170_TX1], &reserved);
    assert!(BitcoinMerkleVerifier::verify_witness_commitment(
        ids(&[B170_TX0, B170_TX1]),
        commitment.clone(),
        Some(hex::encode(reserved))
    ));
    assert!(!BitcoinMerkleVerifier::verify_witness_commitment(
        ids(&[B170_TX0, B170_TX1]),
        commitment,
        None
    ));
}
