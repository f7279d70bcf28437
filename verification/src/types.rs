//! The plain-value model of the cryptographic material a transaction build
//! handles. Curve points, scalars, keys and ciphertexts are carried as
//! fixed-size byte strings in their canonical serialized form; the builder
//! never looks inside them, it only compares, stores and serializes them.

use vstd::prelude::*;

verus! {

/// A 21-byte ledger address in its virtual-machine form (the contract the
/// payload is for, or the destination of a transparent output).
pub struct Address {
    pub bytes: [u8; 21],
}

/// An 11-byte diversifier selecting one diversified address of a viewing key.
pub struct Diversifier {
    pub bytes: [u8; 11],
}

/// A 32-byte outgoing viewing key; lets the sender later decrypt what it sent.
pub struct OutgoingViewingKey {
    pub bytes: [u8; 32],
}

/// Expanded spend authority: the three derived secrets the proving system and
/// the spend-authorization signature consume.
pub struct ExpandedSpendingKey {
    pub ask: [u8; 32],
    pub nsk: [u8; 32],
    pub ovk: OutgoingViewingKey,
}

/// An opaque memo attached to a shielded output; it only rides along into the
/// note ciphertext.
pub struct Memo {
    pub bytes: Vec<u8>,
}

/// A diversified payment address. `g_d` holds the diversified base point the
/// diversifier hashes to, or `None` when the diversifier hashes to no valid
/// point — such an address is malformed and rejected.
pub struct PaymentAddress {
    pub diversifier: Diversifier,
    pub pk_d: [u8; 32],
    pub g_d: Option<[u8; 32]>,
}

/// A shielded note: a value openly committed to but not revealed.
pub struct Note {
    pub g_d: [u8; 32],
    pub pk_d: [u8; 32],
    pub value: u64,
    pub rcm: [u8; 32],
}

/// A merkle authentication path for a note commitment: the position of the
/// leaf, the opaque per-level witness data the proving system consumes, and
/// the root the path resolves to for this note.
pub struct MerklePath {
    pub position: u64,
    pub auth_data: Vec<u8>,
    pub root: [u8; 32],
}

} // verus!
