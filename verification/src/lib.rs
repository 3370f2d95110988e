pub mod errors;
pub mod hashing;
pub mod hexutil;
pub mod laws;
pub mod merkle;
pub mod roots;
pub mod transactions;

pub use errors::MerkleError;
pub use roots::BitcoinMerkleVerifier;
pub use transactions::Transaction;
pub use transactions::TxEntry;
