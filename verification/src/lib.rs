//! Builder for shielded transactions bridging a transparent ledger and a
//! shielded value pool, producing the exact byte payload a contract call
//! expects.
//!
//! The cryptographic collaborators (proving system, note encryption, key
//! derivation, merkle tree) are consumed through the [`prover::TxProver`]
//! capability and opaque byte values; the accumulation invariants, the
//! transaction classifier, the balance arithmetic, the sighash preimage and
//! the wire encodings are verified here.

pub mod amount;
pub mod builder;
pub mod bytes;
pub mod codec;
pub mod crypto;
pub mod prover;
pub mod types;
