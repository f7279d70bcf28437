use sha2::Digest;
use ztron::builder::{Builder, Error, SaplingOutput, TransactionType};
use ztron::codec::decode_transfer;
use ztron::prover::{NoteEncryption, OutputProofData, SpendProofData, TxProver};
use ztron::types::{
    Address, Diversifier, ExpandedSpendingKey, Memo, MerklePath, Note, OutgoingViewingKey,
    PaymentAddress,
};

/// A deterministic proving capability: every artifact is a fixed pattern
/// derived from the note value, so payload bytes can be predicted exactly.
struct MockProver {
    last_sighash: Option<[u8; 32]>,
    fail_spend_proof: bool,
    fail_output_proof: bool,
    fail_binding_sig: bool,
}

impl MockProver {
    fn new() -> MockProver {
        MockProver {
            last_sighash: None,
            fail_spend_proof: false,
            fail_output_proof: false,
            fail_binding_sig: false,
        }
    }
}

impl TxProver for MockProver {
    fn note_commitment(&mut self, note: &Note) -> [u8; 32] {
        [0x10u8.wrapping_add(note.value as u8); 32]
    }

    fn nullifier(&mut self, _key: &ExpandedSpendingKey, note: &Note, _position: u64) -> [u8; 32] {
        [0x20u8.wrapping_add(note.value as u8); 32]
    }

    fn spend_proof(
        &mut self,
        _key: &ExpandedSpendingKey,
        _diversifier: &Diversifier,
        note: &Note,
        _alpha: &[u8; 32],
        _anchor: &[u8; 32],
        _path: &MerklePath,
    ) -> Result<SpendProofData, ()> {
        if self.fail_spend_proof {
            return Err(());
        }
        Ok(SpendProofData {
            zkproof: [0x30u8.wrapping_add(note.value as u8); 192],
            cv: [0x40u8.wrapping_add(note.value as u8); 32],
            rk: [0x50u8.wrapping_add(note.value as u8); 32],
        })
    }

    fn output_proof(
        &mut self,
        _esk: &[u8; 32],
        _to: &PaymentAddress,
        _rcm: &[u8; 32],
        value: u64,
    ) -> Result<OutputProofData, ()> {
        if self.fail_output_proof {
            return Err(());
        }
        Ok(OutputProofData {
            zkproof: [0x60u8.wrapping_add(value as u8); 192],
            cv: [0x70u8.wrapping_add(value as u8); 32],
        })
    }

    fn encrypt_note(
        &mut self,
        _ovk: &OutgoingViewingKey,
        note: &Note,
        _to: &PaymentAddress,
        _memo: &Memo,
    ) -> NoteEncryption {
        NoteEncryption {
            esk: [0x80u8.wrapping_add(note.value as u8); 32],
            epk: [0x90u8.wrapping_add(note.value as u8); 32],
            enc_ciphertext: [0xA0u8.wrapping_add(note.value as u8); 580],
        }
    }

    fn encrypt_outgoing(
        &mut self,
        _ovk: &OutgoingViewingKey,
        note: &Note,
        _to: &PaymentAddress,
        _esk: &[u8; 32],
        _epk: &[u8; 32],
        _cv: &[u8; 32],
        _cmu: &[u8; 32],
    ) -> [u8; 80] {
        [0xB0u8.wrapping_add(note.value as u8); 80]
    }

    fn spend_sig(
        &mut self,
        key: &ExpandedSpendingKey,
        _alpha: &[u8; 32],
        sighash: &[u8; 32],
    ) -> [u8; 64] {
        [key.ask[0].wrapping_add(sighash[0]); 64]
    }

    fn binding_sig(&mut self, _value_balance: i64, sighash: &[u8; 32]) -> Result<[u8; 64], ()> {
        self.last_sighash = Some(*sighash);
        if self.fail_binding_sig {
            return Err(());
        }
        Ok([0xC0; 64])
    }
}

fn contract_address() -> Address {
    Address { bytes: [0x41; 21] }
}

fn expsk(tag: u8) -> ExpandedSpendingKey {
    ExpandedSpendingKey {
        ask: [tag; 32],
        nsk: [tag.wrapping_add(1); 32],
        ovk: OutgoingViewingKey { bytes: [tag.wrapping_add(2); 32] },
    }
}

fn diversifier() -> Diversifier {
    Diversifier { bytes: [7; 11] }
}

fn note(value: u64) -> Note {
    Note { g_d: [1; 32], pk_d: [2; 32], value, rcm: [3; 32] }
}

fn path(root_byte: u8) -> MerklePath {
    MerklePath { position: 5, auth_data: vec![9, 9, 9], root: [root_byte; 32] }
}

fn payment_address() -> PaymentAddress {
    PaymentAddress { diversifier: diversifier(), pk_d: [2; 32], g_d: Some([8; 32]) }
}

fn ovk() -> OutgoingViewingKey {
    OutgoingViewingKey { bytes: [6; 32] }
}

#[test]
fn mint_scenario() {
    // 1 transparent input of 10^18 units, scaling exponent 18, 1 shielded
    // output of value 1: the build succeeds and the payload opens with the
    // 32-byte big-endian encoding of 10^18.
    let mut b = Builder::new(contract_address(), 18);
    b.add_transparent_input(1_000_000_000_000_000_000u128).unwrap();
    b.add_sapling_output(ovk(), payment_address(), 1, None).unwrap();
    assert_eq!(b.value_balance, -1);
    let mut prover = MockProver::new();
    let (kind, payload) = b.build(&mut prover).unwrap();
    assert_eq!(kind, TransactionType::Mint);
    assert_eq!(payload.len(), 1056);
    assert_eq!(&payload[0..24], &[0u8; 24][..]);
    assert_eq!(&payload[24..32], &[0x0D, 0xE0, 0xB6, 0xB3, 0xA7, 0x64, 0x00, 0x00][..]);
}

#[test]
fn mint_sighash_covers_the_assembled_preimage() {
    let mut b = Builder::new(contract_address(), 18);
    b.add_transparent_input(1_000_000_000_000_000_000u128).unwrap();
    b.add_sapling_output(ovk(), payment_address(), 1, None).unwrap();
    let mut prover = MockProver::new();
    b.build(&mut prover).unwrap();
    // contract address ++ value (8-byte big-endian) ++ cmu ++ cv ++
    // ephemeral key ++ proof ++ both ciphertexts ++ 12 zero bytes
    let mut preimage: Vec<u8> = Vec::new();
    preimage.extend_from_slice(&[0x41; 21]);
    preimage.extend_from_slice(&1u64.to_be_bytes());
    preimage.extend_from_slice(&[0x11; 32]); // cmu of value 1
    preimage.extend_from_slice(&[0x71; 32]); // cv of value 1
    preimage.extend_from_slice(&[0x91; 32]); // epk of value 1
    preimage.extend_from_slice(&[0x61; 192]); // proof of value 1
    preimage.extend_from_slice(&[0xA1; 580]); // note ciphertext
    preimage.extend_from_slice(&[0xB1; 80]); // outgoing ciphertext
    preimage.extend_from_slice(&[0u8; 12]);
    let expected: [u8; 32] = sha2::Sha256::digest(&preimage).into();
    assert_eq!(prover.last_sighash, Some(expected));
}

#[test]
fn mint_amount_mismatch() {
    // scaled shielded value 2 * 10^18 does not equal the declared input
    let mut b = Builder::new(contract_address(), 18);
    b.add_transparent_input(1_000_000_000_000_000_000u128).unwrap();
    b.add_sapling_output(ovk(), payment_address(), 2, None).unwrap();
    let mut prover = MockProver::new();
    let e = b.build(&mut prover).unwrap_err();
    assert_eq!(e, Error::InvalidTransaction("input & output amount mismatch"));
}

#[test]
fn mint_huge_scaling_exponent_never_matches() {
    // 10^39 overflows every representable transparent amount: a nonzero
    // shielded value can never reconcile
    let mut b = Builder::new(contract_address(), 39);
    b.add_transparent_input(u128::MAX).unwrap();
    b.add_sapling_output(ovk(), payment_address(), 1, None).unwrap();
    let mut prover = MockProver::new();
    let e = b.build(&mut prover).unwrap_err();
    assert_eq!(e, Error::InvalidTransaction("input & output amount mismatch"));
}

#[test]
fn classifier_neither_mint_burn_nor_transfer() {
    // 0 spends, 1 output, no transparent legs
    let mut b = Builder::new(contract_address(), 18);
    b.add_sapling_output(ovk(), payment_address(), 1, None).unwrap();
    assert_eq!(
        b.transaction_type().unwrap_err(),
        Error::InvalidTransaction("invalid mint, burn, or transfer")
    );
    let mut prover = MockProver::new();
    let e = b.build(&mut prover).unwrap_err();
    assert_eq!(e, Error::InvalidTransaction("invalid mint, burn, or transfer"));
}

#[test]
fn classifier_mint_shape_error() {
    // a transparent input with a shielded spend is no mint
    let mut b = Builder::new(contract_address(), 18);
    b.add_transparent_input(1u128).unwrap();
    b.add_sapling_spend(expsk(0x31), diversifier(), note(1), path(0xAA)).unwrap();
    b.add_sapling_output(ovk(), payment_address(), 1, None).unwrap();
    assert_eq!(
        b.transaction_type().unwrap_err(),
        Error::InvalidTransaction("mint must be a transaction to 1 shielded output")
    );
}

#[test]
fn anchor_mismatch_leaves_builder_unchanged() {
    let mut b = Builder::new(contract_address(), 18);
    b.add_sapling_spend(expsk(0x31), diversifier(), note(1), path(0xAA)).unwrap();
    let e = b.add_sapling_spend(expsk(0x32), diversifier(), note(2), path(0xBB)).unwrap_err();
    assert_eq!(e, Error::AnchorMismatch);
    assert_eq!(b.spends.len(), 1);
    assert_eq!(b.value_balance, 1);
}

#[test]
fn third_shielded_spend_fails() {
    let mut b = Builder::new(contract_address(), 18);
    b.add_sapling_spend(expsk(0x31), diversifier(), note(1), path(0xAA)).unwrap();
    b.add_sapling_spend(expsk(0x32), diversifier(), note(2), path(0xAA)).unwrap();
    let e = b.add_sapling_spend(expsk(0x33), diversifier(), note(3), path(0xAA)).unwrap_err();
    assert_eq!(e, Error::InvalidTransaction("too many sapling spends"));
    assert_eq!(b.spends.len(), 2);
}

#[test]
fn third_shielded_output_fails() {
    let mut b = Builder::new(contract_address(), 18);
    b.add_sapling_output(ovk(), payment_address(), 1, None).unwrap();
    b.add_sapling_output(ovk(), payment_address(), 2, None).unwrap();
    let e = b.add_sapling_output(ovk(), payment_address(), 3, None).unwrap_err();
    assert_eq!(e, Error::InvalidTransaction("too many sapling output"));
    assert_eq!(b.outputs.len(), 2);
}

#[test]
fn second_transparent_leg_fails() {
    let mut b = Builder::new(contract_address(), 18);
    b.add_transparent_input(1u128).unwrap();
    assert_eq!(
        b.add_transparent_input(2u128).unwrap_err(),
        Error::InvalidTransaction("mint can only have one transparent input")
    );
    let to = contract_address();
    b.add_transparent_output(&to, 1u128).unwrap();
    assert_eq!(
        b.add_transparent_output(&to, 2u128).unwrap_err(),
        Error::InvalidTransaction("burn can only have one transparent output")
    );
}

#[test]
fn invalid_destination_address() {
    let mut b = Builder::new(contract_address(), 18);
    let bad = PaymentAddress { diversifier: diversifier(), pk_d: [2; 32], g_d: None };
    assert_eq!(b.add_sapling_output(ovk(), bad, 1, None).unwrap_err(), Error::InvalidAddress);
    assert_eq!(b.outputs.len(), 0);
}

#[test]
fn negative_output_value() {
    let mut b = Builder::new(contract_address(), 18);
    assert_eq!(
        b.add_sapling_output(ovk(), payment_address(), -1, None).unwrap_err(),
        Error::InvalidAmount
    );
}

#[test]
fn unrepresentable_spend_value() {
    let mut b = Builder::new(contract_address(), 18);
    let e = b.add_sapling_spend(expsk(0x31), diversifier(), note(u64::MAX), path(0xAA)).unwrap_err();
    assert_eq!(e, Error::InvalidAmount);
    assert_eq!(b.spends.len(), 0);
    // the failed add left no trace: no anchor was recorded, so a later valid
    // spend rooting elsewhere is accepted
    assert!(b.anchor.is_none());
    b.add_sapling_spend(expsk(0x32), diversifier(), note(2), path(0xBB)).unwrap();
    assert_eq!(b.spends.len(), 1);
    assert_eq!(b.anchor, Some([0xBB; 32]));
}

#[test]
fn transfer_must_balance_exactly() {
    let mut b = Builder::new(contract_address(), 18);
    b.add_sapling_spend(expsk(0x31), diversifier(), note(3), path(0xAA)).unwrap();
    b.add_sapling_output(ovk(), payment_address(), 2, None).unwrap();
    assert_eq!(b.value_balance, 1);
    let mut prover = MockProver::new();
    assert_eq!(b.build(&mut prover).unwrap_err(), Error::InvalidAmount);
}

#[test]
fn transfer_round_trip() {
    let mut b = Builder::new(contract_address(), 18);
    b.add_sapling_spend(expsk(0x31), diversifier(), note(3), path(0xAA)).unwrap();
    b.add_sapling_spend(expsk(0x35), diversifier(), note(2), path(0xAA)).unwrap();
    b.add_sapling_output(ovk(), payment_address(), 4, None).unwrap();
    b.add_sapling_output(ovk(), payment_address(), 1, None).unwrap();
    assert_eq!(b.value_balance, 0);
    let mut prover = MockProver::new();
    let (kind, payload) = b.build(&mut prover).unwrap();
    assert_eq!(kind, TransactionType::Transfer);
    let sighash = prover.last_sighash.unwrap();
    let d = decode_transfer(&payload).expect("a produced transfer payload decodes");
    assert_eq!(d.spends.len(), 2);
    assert_eq!(d.outputs.len(), 2);
    assert_eq!(d.binding_sig, vec![0xC0; 64]);
    // spends come back in insertion order with their nullifiers, the shared
    // anchor, commitments, keys and proofs
    for (k, v) in [3u8, 2u8].iter().enumerate() {
        assert_eq!(d.spends[k].nullifier, vec![0x20 + v; 32]);
        assert_eq!(d.spends[k].anchor, vec![0xAA; 32]);
        assert_eq!(d.spends[k].cv, vec![0x40 + v; 32]);
        assert_eq!(d.spends[k].rk, vec![0x50 + v; 32]);
        assert_eq!(d.spends[k].zkproof, vec![0x30 + v; 192]);
    }
    // each authorization signature binds that spend's authority to this sighash
    assert_eq!(d.spends[0].spend_auth_sig, vec![0x31u8.wrapping_add(sighash[0]); 64]);
    assert_eq!(d.spends[1].spend_auth_sig, vec![0x35u8.wrapping_add(sighash[0]); 64]);
    for (k, v) in [4u8, 1u8].iter().enumerate() {
        assert_eq!(d.outputs[k].cmu, vec![0x10 + v; 32]);
        assert_eq!(d.outputs[k].cv, vec![0x70 + v; 32]);
        assert_eq!(d.outputs[k].ephemeral_key, vec![0x90 + v; 32]);
        assert_eq!(d.outputs[k].zkproof, vec![0x60 + v; 192]);
        assert_eq!(d.outputs[k].enc_ciphertext, vec![0xA0 + v; 580]);
        assert_eq!(d.outputs[k].out_ciphertext, vec![0xB0 + v; 80]);
    }
}

#[test]
fn spend_proof_failure_is_fatal() {
    let mut b = Builder::new(contract_address(), 18);
    b.add_sapling_spend(expsk(0x31), diversifier(), note(1), path(0xAA)).unwrap();
    b.add_sapling_output(ovk(), payment_address(), 1, None).unwrap();
    let mut prover = MockProver::new();
    prover.fail_spend_proof = true;
    assert_eq!(b.build(&mut prover).unwrap_err(), Error::SpendProof);
}

#[test]
fn binding_sig_failure_is_fatal() {
    let mut b = Builder::new(contract_address(), 18);
    b.add_sapling_spend(expsk(0x31), diversifier(), note(1), path(0xAA)).unwrap();
    b.add_sapling_output(ovk(), payment_address(), 1, None).unwrap();
    let mut prover = MockProver::new();
    prover.fail_binding_sig = true;
    assert_eq!(b.build(&mut prover).unwrap_err(), Error::BindingSig);
}

#[test]
fn output_proof_failure_is_fatal() {
    let mut b = Builder::new(contract_address(), 18);
    b.add_transparent_input(1_000_000_000_000_000_000u128).unwrap();
    b.add_sapling_output(ovk(), payment_address(), 1, None).unwrap();
    let mut prover = MockProver::new();
    prover.fail_output_proof = true;
    assert_eq!(b.build(&mut prover).unwrap_err(), Error::SpendProof);
}

#[test]
fn burn_is_not_implemented() {
    let mut b = Builder::new(contract_address(), 0);
    b.add_sapling_spend(expsk(0x31), diversifier(), note(5), path(0xAA)).unwrap();
    let to = contract_address();
    b.add_transparent_output(&to, 5u128).unwrap();
    let mut prover = MockProver::new();
    assert_eq!(b.build(&mut prover).unwrap_err(), Error::NotImplemented);
}

#[test]
fn burn_amount_mismatch() {
    let mut b = Builder::new(contract_address(), 0);
    b.add_sapling_spend(expsk(0x31), diversifier(), note(5), path(0xAA)).unwrap();
    let to = contract_address();
    b.add_transparent_output(&to, 6u128).unwrap();
    let mut prover = MockProver::new();
    assert_eq!(
        b.build(&mut prover).unwrap_err(),
        Error::InvalidTransaction("input & output amount mismatch")
    );
}

#[test]
fn burn_negative_balance() {
    let mut b = Builder::new(contract_address(), 0);
    b.add_sapling_spend(expsk(0x31), diversifier(), note(5), path(0xAA)).unwrap();
    b.add_sapling_output(ovk(), payment_address(), 7, None).unwrap();
    let to = contract_address();
    b.add_transparent_output(&to, 5u128).unwrap();
    let mut prover = MockProver::new();
    assert_eq!(b.build(&mut prover).unwrap_err(), Error::InvalidAmount);
}

#[test]
fn memo_defaults_to_empty() {
    let o = SaplingOutput::new(ovk(), payment_address(), 9, None).unwrap();
    assert!(o.memo.bytes.is_empty());
    assert_eq!(o.note.value, 9);
    assert_eq!(o.note.g_d, [8; 32]);
    let m = Memo { bytes: vec![1, 2, 3] };
    let o2 = SaplingOutput::new(ovk(), payment_address(), 9, Some(m)).unwrap();
    assert_eq!(o2.memo.bytes, vec![1, 2, 3]);
}

#[test]
fn zero_value_mint_with_zero_input() {
    let mut b = Builder::new(contract_address(), 18);
    b.add_transparent_input(0u128).unwrap();
    b.add_sapling_output(ovk(), payment_address(), 0, None).unwrap();
    let mut prover = MockProver::new();
    let (kind, payload) = b.build(&mut prover).unwrap();
    assert_eq!(kind, TransactionType::Mint);
    assert_eq!(&payload[0..32], &[0u8; 32][..]);
}
