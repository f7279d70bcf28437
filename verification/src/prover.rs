//! The proving-system capability the builder consumes: zero-knowledge proof
//! construction, note encryption, nullifier derivation and the two signature
//! schemes. Callers supply an implementation backed by a real proving stack;
//! the builder's logic is verified for every implementation.

use vstd::prelude::*;
use crate::types::{ExpandedSpendingKey, Diversifier, MerklePath, Memo, Note, OutgoingViewingKey,
    PaymentAddress};

verus! {

/// What a spend proof yields: proof bytes, a value commitment and the
/// randomized public key.
pub struct SpendProofData {
    pub zkproof: [u8; 192],
    pub cv: [u8; 32],
    pub rk: [u8; 32],
}

/// What an output proof yields: proof bytes and a value commitment.
pub struct OutputProofData {
    pub zkproof: [u8; 192],
    pub cv: [u8; 32],
}

/// What encrypting a note to its recipient yields: the ephemeral secret and
/// public keys and the note ciphertext.
pub struct NoteEncryption {
    pub esk: [u8; 32],
    pub epk: [u8; 32],
    pub enc_ciphertext: [u8; 580],
}

/// The proving capability. Nothing is promised of the bytes an implementation
/// returns: the builder states what holds of its own result whatever came
/// back, and a proof or binding-signature failure aborts the build.
pub trait TxProver {
    /// The commitment to `note`.
    fn note_commitment(&mut self, note: &Note) -> [u8; 32];

    /// The nullifier of `note` at leaf `position`, derived through the full
    /// viewing key of `key`.
    fn nullifier(&mut self, key: &ExpandedSpendingKey, note: &Note, position: u64) -> [u8; 32];

    /// A zero-knowledge proof witnessing knowledge of the spend authority,
    /// the note opening and the nullifier derivation.
    fn spend_proof(
        &mut self,
        key: &ExpandedSpendingKey,
        diversifier: &Diversifier,
        note: &Note,
        alpha: &[u8; 32],
        anchor: &[u8; 32],
        path: &MerklePath,
    ) -> Result<SpendProofData, ()>;

    /// A zero-knowledge proof witnessing correct note-commitment and
    /// value-commitment construction for an output.
    fn output_proof(
        &mut self,
        esk: &[u8; 32],
        to: &PaymentAddress,
        rcm: &[u8; 32],
        value: u64,
    ) -> Result<OutputProofData, ()>;

    /// Encrypts the note plaintext to the recipient under a fresh ephemeral
    /// key.
    fn encrypt_note(
        &mut self,
        ovk: &OutgoingViewingKey,
        note: &Note,
        to: &PaymentAddress,
        memo: &Memo,
    ) -> NoteEncryption;

    /// Encrypts the outgoing-viewing ciphertext, binding the value commitment
    /// and note commitment to the sender's outgoing viewing key.
    fn encrypt_outgoing(
        &mut self,
        ovk: &OutgoingViewingKey,
        note: &Note,
        to: &PaymentAddress,
        esk: &[u8; 32],
        epk: &[u8; 32],
        cv: &[u8; 32],
        cmu: &[u8; 32],
    ) -> [u8; 80];

    /// The spend-authorization signature over `sighash`, binding the spend
    /// authority and the randomization scalar `alpha` to this transaction.
    fn spend_sig(&mut self, key: &ExpandedSpendingKey, alpha: &[u8; 32], sighash: &[u8; 32])
        -> [u8; 64];

    /// The binding signature over the declared value balance and `sighash`.
    fn binding_sig(&mut self, value_balance: i64, sighash: &[u8; 32]) -> Result<[u8; 64], ()>;
}

} // verus!
