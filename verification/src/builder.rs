//! The transaction builder: accumulates shielded and transparent legs under
//! structural and balance invariants, classifies the transaction shape, runs
//! the proving capability once over every leg, signs, and encodes the
//! contract-call payload.

use vstd::prelude::*;
use crate::amount::{scaled_amount_matches, scaled_value};
use crate::bytes::{be32_of_u128, extend_array, extend_u64_be, extend_zeros};
use crate::codec::{abi_encode_transfer, encode_mint, mint_payload, transfer_payload};
use crate::crypto::{fresh_scalar_bytes, sha256};
use crate::prover::TxProver;
use crate::types::{Address, Diversifier, ExpandedSpendingKey, Memo, MerklePath, Note,
    OutgoingViewingKey, PaymentAddress};

verus! {

/// Everything that can abort a build attempt. Every error is terminal: the
/// whole build is abandoned, nothing is retried.
#[derive(Debug, PartialEq, Eq)]
pub enum Error {
    /// A later spend's authentication path does not root to the anchor the
    /// first spend established.
    AnchorMismatch,
    /// The proving capability failed to produce the binding signature.
    BindingSig,
    /// Reserved for future change-output support; currently never produced.
    ChangeIsNegative(i64),
    /// The destination's diversifier hashes to no valid base point.
    InvalidAddress,
    /// A negative or non-representable value, or a value-balance overflow.
    InvalidAmount,
    /// Reserved for future change-output support; currently never produced.
    NoChangeAddress,
    /// The proving capability failed to produce a spend or output proof.
    SpendProof,
    /// A structural fault: too many legs, a leg combination that is neither
    /// mint, burn nor transfer, or a scaled-amount mismatch.
    InvalidTransaction(&'static str),
    /// The payload construction for this transaction shape is not supported.
    NotImplemented,
}

/// The three transaction shapes: moving value into, within, or out of the
/// shielded pool.
#[derive(Debug, PartialEq, Eq, Structural, Clone, Copy)]
pub enum TransactionType {
    Mint,
    Transfer,
    Burn,
}

/// A transparent input leg: a declared amount in the scaled transparent unit.
pub struct TransparentInput {
    pub amount: u128,
}

/// A transparent output leg: a destination address and a declared amount in
/// the scaled transparent unit.
pub struct TransparentOutput {
    pub address: Address,
    pub amount: u128,
}

/// A shielded note to be spent, with the authority and path data the proving
/// capability consumes.
pub struct SaplingSpend {
    pub expsk: ExpandedSpendingKey,
    pub diversifier: Diversifier,
    pub note: Note,
    pub alpha: [u8; 32],
    pub merkle_path: MerklePath,
}

/// A shielded note to be created, owned by the builder until proof time.
pub struct SaplingOutput {
    pub ovk: OutgoingViewingKey,
    pub to: PaymentAddress,
    pub note: Note,
    pub memo: Memo,
}

/// The public descriptor derived from a shielded spend. The authorization
/// signature is absent until the sighash is known.
#[derive(Clone, Copy)]
pub struct SpendDescription {
    pub cv: [u8; 32],
    pub anchor: [u8; 32],
    pub nullifier: [u8; 32],
    pub rk: [u8; 32],
    pub zkproof: [u8; 192],
    pub spend_auth_sig: Option<[u8; 64]>,
}

/// The public descriptor derived from a shielded output; immutable once
/// produced.
#[derive(Clone, Copy)]
pub struct OutputDescription {
    pub cv: [u8; 32],
    pub cmu: [u8; 32],
    pub ephemeral_key: [u8; 32],
    pub enc_ciphertext: [u8; 580],
    pub out_ciphertext: [u8; 80],
    pub zkproof: [u8; 192],
}

/// The sum of the note values of a sequence of spends.
pub open spec fn sum_spend_values(s: Seq<SaplingSpend>) -> int
    decreases s.len(),
{
    if s.len() == 0 {
        0
    } else {
        sum_spend_values(s.drop_last()) + s.last().note.value
    }
}

/// The sum of the note values of a sequence of outputs.
pub open spec fn sum_output_values(s: Seq<SaplingOutput>) -> int
    decreases s.len(),
{
    if s.len() == 0 {
        0
    } else {
        sum_output_values(s.drop_last()) + s.last().note.value
    }
}

proof fn lemma_sum_spend_push(s: Seq<SaplingSpend>, x: SaplingSpend)
    ensures
        sum_spend_values(s.push(x)) == sum_spend_values(s) + x.note.value,
{
    assert(s.push(x).drop_last() =~= s);
    assert(s.push(x).last() == x);
}

proof fn lemma_sum_output_push(s: Seq<SaplingOutput>, x: SaplingOutput)
    ensures
        sum_output_values(s.push(x)) == sum_output_values(s) + x.note.value,
{
    assert(s.push(x).drop_last() =~= s);
    assert(s.push(x).last() == x);
}

fn bytes32_eq(a: &[u8; 32], b: &[u8; 32]) -> (r: bool)
    ensures
        r <==> a@ == b@,
{
    let mut i: usize = 0;
    while i < 32
        invariant
            i <= 32,
            forall|k: int| 0 <= k < i ==> a@[k] == b@[k],
        decreases 32 - i,
    {
        if a[i] != b[i] {
            return false;
        }
        i += 1;
    }
    proof {
        assert(a@ =~= b@);
    }
    true
}

impl SaplingSpend {
    /// Derives the spend's public descriptor: nullifier, anchor and the
    /// proving capability's proof, value commitment and randomized key. A
    /// proving failure is fatal and surfaces as a spend-proof error.
    pub fn generate_spend_proof<P: TxProver>(&self, prover: &mut P) -> (r: Result<
        SpendDescription,
        Error,
    >)
        ensures
            r is Err ==> r matches Err(Error::SpendProof),
            r matches Ok(d) ==> d.anchor == self.merkle_path.root && d.spend_auth_sig is None,
    {
        let nf = prover.nullifier(&self.expsk, &self.note, self.merkle_path.position);
        let anchor = self.merkle_path.root;
        match prover.spend_proof(
            &self.expsk,
            &self.diversifier,
            &self.note,
            &self.alpha,
            &anchor,
            &self.merkle_path,
        ) {
            Ok(pd) => Ok(
                SpendDescription {
                    cv: pd.cv,
                    anchor,
                    nullifier: nf,
                    rk: pd.rk,
                    zkproof: pd.zkproof,
                    spend_auth_sig: None,
                },
            ),
            Err(_) => Err(Error::SpendProof),
        }
    }
}

impl SpendDescription {
    /// Attaches the spend-authorization signature over `sighash`; every other
    /// field stays as it was.
    pub fn generate_spend_sig<P: TxProver>(
        &mut self,
        spend: &SaplingSpend,
        sighash: &[u8; 32],
        prover: &mut P,
    )
        ensures
            final(self).spend_auth_sig is Some,
            final(self).cv == old(self).cv,
            final(self).anchor == old(self).anchor,
            final(self).nullifier == old(self).nullifier,
            final(self).rk == old(self).rk,
            final(self).zkproof == old(self).zkproof,
    {
        let sig = prover.spend_sig(&spend.expsk, &spend.alpha, sighash);
        self.spend_auth_sig = Some(sig);
    }
}

impl SaplingOutput {
    /// Builds an output leg for `value` units sent to `to`, drawing fresh
    /// note randomness. A destination whose diversifier resolves to no base
    /// point is rejected as an invalid address, a negative value as an
    /// invalid amount.
    pub fn new(ovk: OutgoingViewingKey, to: PaymentAddress, value: i64, memo: Option<Memo>) -> (r:
        Result<SaplingOutput, Error>)
        ensures
            to.g_d is None ==> r matches Err(Error::InvalidAddress),
            to.g_d is Some && value < 0 ==> r matches Err(Error::InvalidAmount),
            to.g_d is Some && value >= 0 ==> (r matches Ok(o) && {
                &&& o.ovk == ovk
                &&& o.to == to
                &&& o.note.value == value as u64
                &&& o.note.g_d == to.g_d->Some_0
                &&& o.note.pk_d == to.pk_d
                &&& (memo matches Some(m) ==> o.memo == m)
                &&& (memo is None ==> o.memo.bytes@ == Seq::<u8>::empty())
            }),
    {
        let g_d = match to.g_d {
            Some(g) => g,
            None => {
                return Err(Error::InvalidAddress);
            },
        };
        if value < 0 {
            return Err(Error::InvalidAmount);
        }
        let rcm = fresh_scalar_bytes();
        let note = Note { g_d, pk_d: to.pk_d, value: value as u64, rcm };
        let memo = match memo {
            Some(m) => m,
            None => Memo { bytes: Vec::new() },
        };
        Ok(SaplingOutput { ovk, to, note, memo })
    }

    /// Derives the output's public descriptor: the note is encrypted to the
    /// recipient, the proving capability proves the commitments, and the
    /// outgoing ciphertext binds them to the sender's outgoing viewing key.
    /// A proving failure is fatal and surfaces as a spend-proof error.
    pub fn generate_output_proof<P: TxProver>(&self, prover: &mut P) -> (r: Result<
        OutputDescription,
        Error,
    >)
        ensures
            r is Err ==> r matches Err(Error::SpendProof),
    {
        let enc = prover.encrypt_note(&self.ovk, &self.note, &self.to, &self.memo);
        let cmu = prover.note_commitment(&self.note);
        let pd = match prover.output_proof(&enc.esk, &self.to, &self.note.rcm, self.note.value) {
            Ok(pd) => pd,
            Err(_) => {
                return Err(Error::SpendProof);
            },
        };
        let c_out = prover.encrypt_outgoing(
            &self.ovk,
            &self.note,
            &self.to,
            &enc.esk,
            &enc.epk,
            &pd.cv,
            &cmu,
        );
        Ok(
            OutputDescription {
                cv: pd.cv,
                cmu,
                ephemeral_key: enc.epk,
                enc_ciphertext: enc.enc_ciphertext,
                out_ciphertext: c_out,
                zkproof: pd.zkproof,
            },
        )
    }
}

/// Whether a new spend's path is consistent with the anchor the builder has
/// established: either no anchor exists yet, or the path roots to it.
pub open spec fn spend_anchor_ok(anchor: Option<[u8; 32]>, path: MerklePath) -> bool {
    anchor is None || (anchor->Some_0)@ == path.root@
}

/// Whether adding a spend of this note keeps the value balance representable.
pub open spec fn spend_amount_ok(balance: i64, note: Note) -> bool {
    note.value <= i64::MAX && balance + note.value <= i64::MAX
}

/// Accumulates the legs of one shielded transaction and, once finalized,
/// consumes itself to run the proof, signature and encoding pipeline exactly
/// once.
pub struct Builder {
    pub contract_address: Address,
    pub scaling_exponent: u8,
    pub value_balance: i64,
    pub anchor: Option<[u8; 32]>,
    pub spends: Vec<SaplingSpend>,
    pub outputs: Vec<SaplingOutput>,
    pub transparent_input: Option<TransparentInput>,
    pub transparent_output: Option<TransparentOutput>,
}

impl Builder {
    /// The builder's invariant: at most two legs per shielded side, the value
    /// balance is exactly the spend sum minus the output sum, every
    /// accumulated spend roots to the shared anchor, and every note value is
    /// representable in the signed balance.
    pub open spec fn wf(self) -> bool {
        &&& self.spends@.len() <= 2
        &&& self.outputs@.len() <= 2
        &&& self.value_balance as int == sum_spend_values(self.spends@) - sum_output_values(
            self.outputs@,
        )
        &&& (self.spends@.len() > 0 ==> self.anchor is Some)
        &&& (forall|i: int|
            0 <= i < self.spends@.len() ==> (self.anchor->Some_0)@ == (
            #[trigger] self.spends@[i]).merkle_path.root@)
        &&& (forall|i: int|
            0 <= i < self.spends@.len() ==> (#[trigger] self.spends@[i]).note.value <= i64::MAX)
        &&& (forall|i: int|
            0 <= i < self.outputs@.len() ==> (#[trigger] self.outputs@[i]).note.value <= i64::MAX)
    }

    /// The transaction shape the accumulated legs classify as, decided purely
    /// from leg cardinalities in fixed precedence; `None` is a structural
    /// error.
    pub open spec fn spec_transaction_type(self) -> Option<TransactionType> {
        if self.transparent_input is Some {
            if self.outputs@.len() == 1 && self.spends@.len() == 0 && self.transparent_output
                is None {
                Some(TransactionType::Mint)
            } else {
                None
            }
        } else if self.transparent_output is Some {
            if self.spends@.len() == 1 && self.outputs@.len() <= 1 {
                Some(TransactionType::Burn)
            } else {
                None
            }
        } else {
            if self.spends@.len() >= 1 && self.outputs@.len() >= 1 {
                Some(TransactionType::Transfer)
            } else {
                None
            }
        }
    }

    /// A fresh builder for the contract at `contract_address`, whose
    /// transparent unit is `10^scaling_exponent` times the shielded unit.
    pub fn new(contract_address: Address, scaling_exponent: u8) -> (r: Builder)
        ensures
            r.wf(),
            r.contract_address == contract_address,
            r.scaling_exponent == scaling_exponent,
            r.value_balance == 0,
            r.anchor is None,
            r.spends@.len() == 0,
            r.outputs@.len() == 0,
            r.transparent_input is None,
            r.transparent_output is None,
    {
        Builder {
            contract_address,
            scaling_exponent,
            value_balance: 0,
            anchor: None,
            spends: Vec::new(),
            outputs: Vec::new(),
            transparent_input: None,
            transparent_output: None,
        }
    }

    /// Adds a shielded note to be spent. A third spend is a structural
    /// error, a path that does not root to the established anchor an anchor
    /// mismatch, a value the balance cannot absorb an invalid amount; a
    /// failed add leaves the builder exactly as it was. The first spend that
    /// is accepted fixes the shared anchor.
    pub fn add_sapling_spend(
        &mut self,
        expsk: ExpandedSpendingKey,
        diversifier: Diversifier,
        note: Note,
        merkle_path: MerklePath,
    ) -> (r: Result<(), Error>)
        requires
            old(self).wf(),
        ensures
            final(self).wf(),
            r is Err ==> *final(self) == *old(self),
            old(self).spends@.len() >= 2 ==> (r matches Err(Error::InvalidTransaction(m))
                && m@ == "too many sapling spends"@),
            old(self).spends@.len() < 2 && !spend_anchor_ok(old(self).anchor, merkle_path)
                ==> r matches Err(Error::AnchorMismatch),
            old(self).spends@.len() < 2 && spend_anchor_ok(old(self).anchor, merkle_path)
                && !spend_amount_ok(old(self).value_balance, note) ==> r matches Err(
                Error::InvalidAmount,
            ),
            old(self).spends@.len() < 2 && spend_anchor_ok(old(self).anchor, merkle_path)
                && spend_amount_ok(old(self).value_balance, note) ==> r is Ok && {
                &&& final(self).spends@.len() == old(self).spends@.len() + 1
                &&& final(self).spends@.subrange(0, old(self).spends@.len() as int) == old(self).spends@
                &&& final(self).spends@.last().expsk == expsk
                &&& final(self).spends@.last().diversifier == diversifier
                &&& final(self).spends@.last().note == note
                &&& final(self).spends@.last().merkle_path == merkle_path
                &&& final(self).value_balance == old(self).value_balance + note.value
                &&& final(self).anchor is Some
                &&& (final(self).anchor->Some_0)@ == merkle_path.root@
                &&& final(self).outputs == old(self).outputs
                &&& final(self).transparent_input == old(self).transparent_input
                &&& final(self).transparent_output == old(self).transparent_output
                &&& final(self).contract_address == old(self).contract_address
                &&& final(self).scaling_exponent == old(self).scaling_exponent
            },
    {
        if self.spends.len() >= 2 {
            return Err(Error::InvalidTransaction("too many sapling spends"));
        }
        match &self.anchor {
            Some(anchor) => {
                if !bytes32_eq(&merkle_path.root, anchor) {
                    return Err(Error::AnchorMismatch);
                }
            },
            None => {},
        }
        if note.value > i64::MAX as u64 {
            return Err(Error::InvalidAmount);
        }
        let delta: i64 = note.value as i64;
        let new_balance = match self.value_balance.checked_add(delta) {
            Some(nb) => nb,
            None => {
                return Err(Error::InvalidAmount);
            },
        };
        // Nothing can fail past this point: only now does the builder move.
        self.value_balance = new_balance;
        if self.anchor.is_none() {
            self.anchor = Some(merkle_path.root);
        }
        let alpha = fresh_scalar_bytes();
        let sp = SaplingSpend { expsk, diversifier, note, alpha, merkle_path };
        proof {
            lemma_sum_spend_push(self.spends@, sp);
        }
        self.spends.push(sp);
        Ok(())
    }

    /// Adds a shielded note to be created. A third output is a structural
    /// error; address and amount faults surface before the balance moves; a
    /// failed add leaves the builder exactly as it was.
    pub fn add_sapling_output(
        &mut self,
        ovk: OutgoingViewingKey,
        to: PaymentAddress,
        value: i64,
        memo: Option<Memo>,
    ) -> (r: Result<(), Error>)
        requires
            old(self).wf(),
        ensures
            final(self).wf(),
            r is Err ==> *final(self) == *old(self),
            old(self).outputs@.len() >= 2 ==> (r matches Err(Error::InvalidTransaction(m))
                && m@ == "too many sapling output"@),
            old(self).outputs@.len() < 2 && to.g_d is None ==> r matches Err(Error::InvalidAddress),
            old(self).outputs@.len() < 2 && to.g_d is Some && value < 0 ==> r matches Err(
                Error::InvalidAmount,
            ),
            old(self).outputs@.len() < 2 && to.g_d is Some && value >= 0 && old(self).value_balance - value < i64::MIN ==> r matches Err(Error::InvalidAmount),
            old(self).outputs@.len() < 2 && to.g_d is Some && value >= 0 && old(self).value_balance - value >= i64::MIN ==> r is Ok && {
                &&& final(self).outputs@.len() == old(self).outputs@.len() + 1
                &&& final(self).outputs@.subrange(0, old(self).outputs@.len() as int) == old(self).outputs@
                &&& final(self).outputs@.last().ovk == ovk
                &&& final(self).outputs@.last().to == to
                &&& final(self).outputs@.last().note.value == value as u64
                &&& final(self).outputs@.last().note.pk_d == to.pk_d
                &&& final(self).outputs@.last().note.g_d == to.g_d->Some_0
                &&& (memo matches Some(m) ==> final(self).outputs@.last().memo == m)
                &&& (memo is None ==> final(self).outputs@.last().memo.bytes@ == Seq::<u8>::empty())
                &&& final(self).value_balance == old(self).value_balance - value
                &&& final(self).spends == old(self).spends
                &&& final(self).anchor == old(self).anchor
                &&& final(self).transparent_input == old(self).transparent_input
                &&& final(self).transparent_output == old(self).transparent_output
                &&& final(self).contract_address == old(self).contract_address
                &&& final(self).scaling_exponent == old(self).scaling_exponent
            },
    {
        if self.outputs.len() >= 2 {
            return Err(Error::InvalidTransaction("too many sapling output"));
        }
        let output = match SaplingOutput::new(ovk, to, value, memo) {
            Ok(o) => o,
            Err(e) => {
                return Err(e);
            },
        };
        match self.value_balance.checked_sub(value) {
            Some(nb) => {
                self.value_balance = nb;
            },
            None => {
                return Err(Error::InvalidAmount);
            },
        }
        proof {
            lemma_sum_output_push(self.outputs@, output);
        }
        self.outputs.push(output);
        Ok(())
    }

    /// Adds the single transparent input a mint reconciles against; a second
    /// one is a structural error.
    pub fn add_transparent_input(&mut self, value: u128) -> (r: Result<(), Error>)
        requires
            old(self).wf(),
        ensures
            final(self).wf(),
            old(self).transparent_input is Some ==> (r matches Err(Error::InvalidTransaction(m))
                && m@ == "mint can only have one transparent input"@ && *final(self) == *old(self)),
            old(self).transparent_input is None ==> r is Ok && {
                &&& final(self).transparent_input matches Some(ti) && ti.amount == value
                &&& final(self).spends == old(self).spends
                &&& final(self).outputs == old(self).outputs
                &&& final(self).value_balance == old(self).value_balance
                &&& final(self).anchor == old(self).anchor
                &&& final(self).transparent_output == old(self).transparent_output
                &&& final(self).contract_address == old(self).contract_address
                &&& final(self).scaling_exponent == old(self).scaling_exponent
            },
    {
        if self.transparent_input.is_some() {
            return Err(Error::InvalidTransaction("mint can only have one transparent input"));
        }
        self.transparent_input = Some(TransparentInput { amount: value });
        Ok(())
    }

    /// Adds the single transparent output a burn reconciles against; a
    /// second one is a structural error.
    pub fn add_transparent_output(&mut self, to: &Address, value: u128) -> (r: Result<(), Error>)
        requires
            old(self).wf(),
        ensures
            final(self).wf(),
            old(self).transparent_output is Some ==> (r matches Err(Error::InvalidTransaction(m))
                && m@ == "burn can only have one transparent output"@ && *final(self) == *old(self)),
            old(self).transparent_output is None ==> r is Ok && {
                &&& final(self).transparent_output matches Some(t) && t.amount == value
                    && t.address.bytes@ == to.bytes@
                &&& final(self).spends == old(self).spends
                &&& final(self).outputs == old(self).outputs
                &&& final(self).value_balance == old(self).value_balance
                &&& final(self).anchor == old(self).anchor
                &&& final(self).transparent_input == old(self).transparent_input
                &&& final(self).contract_address == old(self).contract_address
                &&& final(self).scaling_exponent == old(self).scaling_exponent
            },
    {
        if self.transparent_output.is_some() {
            return Err(Error::InvalidTransaction("burn can only have one transparent output"));
        }
        self.transparent_output = Some(TransparentOutput { address: Address { bytes: to.bytes }, amount: value });
        Ok(())
    }

    /// Classifies the accumulated legs as mint, burn or transfer; any other
    /// combination is a structural error whose message names the shape that
    /// failed. The result depends on the leg cardinalities alone.
    pub fn transaction_type(&self) -> (r: Result<TransactionType, Error>)
        ensures
            self.spec_transaction_type() matches Some(t) ==> (r matches Ok(rt) && rt == t),
            self.spec_transaction_type() is None && self.transparent_input is Some ==> (r matches Err(
                Error::InvalidTransaction(m),
            ) && m@ == "mint must be a transaction to 1 shielded output"@),
            self.spec_transaction_type() is None && self.transparent_input is None
                && self.transparent_output is Some ==> (r matches Err(Error::InvalidTransaction(m))
                && m@ == "burn must be a transaction from 1 shielded output, to max 1 shielded output"@),
            self.spec_transaction_type() is None && self.transparent_input is None
                && self.transparent_output is None ==> (r matches Err(Error::InvalidTransaction(m))
                && m@ == "invalid mint, burn, or transfer"@),
    {
        if self.transparent_input.is_some() {
            if self.outputs.len() == 1 && self.spends.len() == 0 && self.transparent_output.is_none() {
                return Ok(TransactionType::Mint);
            }
            return Err(Error::InvalidTransaction("mint must be a transaction to 1 shielded output"));
        } else if self.transparent_output.is_some() {
            if self.spends.len() == 1 && self.outputs.len() <= 1 && self.transparent_input.is_none() {
                return Ok(TransactionType::Burn);
            }
            return Err(
                Error::InvalidTransaction(
                    "burn must be a transaction from 1 shielded output, to max 1 shielded output",
                ),
            );
        } else {
            if self.spends.len() >= 1 && self.outputs.len() >= 1 {
                return Ok(TransactionType::Transfer);
            }
            return Err(Error::InvalidTransaction("invalid mint, burn, or transfer"));
        }
    }

    fn build_mint<P: TxProver>(self, prover: &mut P) -> (r: Result<Vec<u8>, Error>)
        requires
            self.wf(),
            self.spec_transaction_type() == Some(TransactionType::Mint),
        ensures
            self.value_balance > 0 ==> r matches Err(Error::InvalidAmount),
            self.value_balance <= 0 && scaled_value(
                self.outputs@[0].note.value,
                self.scaling_exponent,
            ) != self.transparent_input->Some_0.amount as int ==> (r matches Err(
                Error::InvalidTransaction(m),
            ) && m@ == "input & output amount mismatch"@),
            self.value_balance <= 0 && scaled_value(
                self.outputs@[0].note.value,
                self.scaling_exponent,
            ) == self.transparent_input->Some_0.amount as int ==> (r matches Ok(pl) && pl@.len()
                == 1056 && pl@.subrange(0, 32) == be32_of_u128(self.transparent_input->Some_0.amount))
                || r matches Err(Error::SpendProof) || r matches Err(Error::BindingSig),
            r matches Ok(pl) ==> self.value_balance <= 0 && scaled_value(
                self.outputs@[0].note.value,
                self.scaling_exponent,
            ) == self.transparent_input->Some_0.amount as int && pl@.len() == 1056 && pl@.subrange(
                0,
                32,
            ) == be32_of_u128(self.transparent_input->Some_0.amount) && is_mint_payload_for(
                pl@,
                self.transparent_input->Some_0.amount,
            ),
    {
        proof {
            assert(sum_spend_values(self.spends@) == 0);
            assert(self.outputs@.drop_last() =~= Seq::<SaplingOutput>::empty());
            assert(sum_output_values(Seq::<SaplingOutput>::empty()) == 0);
            assert(self.outputs@.last() == self.outputs@[0]);
            assert(sum_output_values(self.outputs@) == self.outputs@[0].note.value);
        }
        if self.value_balance > 0 {
            return Err(Error::InvalidAmount);
        }
        let t: u128 = match &self.transparent_input {
            Some(ti) => ti.amount,
            None => {
                proof {
                    assert(false);
                }
                0
            },
        };
        let v_i64: i64 = -self.value_balance;
        let v: u64 = v_i64 as u64;
        if !scaled_amount_matches(v, self.scaling_exponent, t) {
            return Err(Error::InvalidTransaction("input & output amount mismatch"));
        }
        let desc = match self.outputs[0].generate_output_proof(prover) {
            Ok(d) => d,
            Err(e) => {
                return Err(e);
            },
        };
        let mut data: Vec<u8> = Vec::new();
        extend_array(&mut data, &self.contract_address.bytes);
        extend_u64_be(&mut data, v);
        extend_array(&mut data, &desc.cmu);
        extend_array(&mut data, &desc.cv);
        extend_array(&mut data, &desc.ephemeral_key);
        extend_array(&mut data, &desc.zkproof);
        extend_array(&mut data, &desc.enc_ciphertext);
        extend_array(&mut data, &desc.out_ciphertext);
        extend_zeros(&mut data, 12);
        let sighash = sha256(&data);
        let binding_sig = match prover.binding_sig(self.value_balance, &sighash) {
            Ok(s) => s,
            Err(_) => {
                return Err(Error::BindingSig);
            },
        };
        let payload = encode_mint(t, &desc, &binding_sig);
        proof {
            assert(payload@ == mint_payload(t, desc, binding_sig@));
        }
        Ok(payload)
    }

    fn build_transfer<P: TxProver>(self, prover: &mut P) -> (r: Result<Vec<u8>, Error>)
        requires
            self.wf(),
            self.spec_transaction_type() == Some(TransactionType::Transfer),
        ensures
            self.value_balance != 0 ==> r matches Err(Error::InvalidAmount),
            self.value_balance == 0 ==> r is Ok || r matches Err(Error::SpendProof) || r matches Err(
                Error::BindingSig,
            ),
            r matches Ok(pl) ==> self.value_balance == 0 && is_transfer_payload_for(pl@, self),
    {
        if self.value_balance != 0 {
            return Err(Error::InvalidAmount);
        }
        let mut spend_descs: Vec<SpendDescription> = Vec::new();
        let mut i: usize = 0;
        while i < self.spends.len()
            invariant
                self.wf(),
                self.value_balance == 0,
                i <= self.spends@.len(),
                spend_descs@.len() == i,
                forall|k: int|
                    0 <= k < i ==> (#[trigger] spend_descs@[k]).anchor@ == (
                    self.anchor->Some_0)@ && spend_descs@[k].spend_auth_sig is None,
            decreases self.spends@.len() - i,
        {
            let d = match self.spends[i].generate_spend_proof(prover) {
                Ok(d) => d,
                Err(e) => {
                    return Err(e);
                },
            };
            spend_descs.push(d);
            i += 1;
        }
        let mut output_descs: Vec<OutputDescription> = Vec::new();
        let mut j: usize = 0;
        while j < self.outputs.len()
            invariant
                self.value_balance == 0,
                j <= self.outputs@.len(),
                output_descs@.len() == j,
            decreases self.outputs@.len() - j,
        {
            let d = match self.outputs[j].generate_output_proof(prover) {
                Ok(d) => d,
                Err(e) => {
                    return Err(e);
                },
            };
            output_descs.push(d);
            j += 1;
        }
        let mut data: Vec<u8> = Vec::new();
        extend_array(&mut data, &self.contract_address.bytes);
        crate::codec::extend_spend_tuples(&mut data, &spend_descs);
        crate::codec::extend_output_tuples(&mut data, &output_descs);
        crate::codec::extend_ciphertext_tuples(&mut data, &output_descs);
        let sighash = sha256(&data);
        let mut k: usize = 0;
        while k < spend_descs.len()
            invariant
                self.wf(),
                self.value_balance == 0,
                1 <= self.spends@.len() <= 2,
                1 <= self.outputs@.len() <= 2,
                output_descs@.len() == self.outputs@.len(),
                spend_descs@.len() == self.spends@.len(),
                k <= spend_descs@.len(),
                forall|m: int|
                    0 <= m < spend_descs@.len() ==> (#[trigger] spend_descs@[m]).anchor@ == (
                    self.anchor->Some_0)@,
                forall|m: int|
                    0 <= m < k ==> (#[trigger] spend_descs@[m]).spend_auth_sig is Some,
            decreases spend_descs@.len() - k,
        {
            let mut d = spend_descs[k];
            d.generate_spend_sig(&self.spends[k], &sighash, prover);
            spend_descs.set(k, d);
            k += 1;
        }
        let binding_sig = match prover.binding_sig(self.value_balance, &sighash) {
            Ok(s) => s,
            Err(_) => {
                return Err(Error::BindingSig);
            },
        };
        let payload = abi_encode_transfer(&spend_descs, &output_descs, &binding_sig);
        proof {
            assert(is_transfer_payload_for(payload@, self)) by {
                assert({
                    &&& spend_descs@.len() == self.spends@.len()
                    &&& output_descs@.len() == self.outputs@.len()
                    &&& binding_sig@.len() == 64
                    &&& (forall|m: int|
                        0 <= m < spend_descs@.len() ==> (#[trigger] spend_descs@[m]).anchor@ == (
                        self.anchor->Some_0)@ && spend_descs@[m].spend_auth_sig is Some)
                    &&& payload@ == transfer_payload(spend_descs@, output_descs@, binding_sig@)
                });
            }
        }
        Ok(payload)
    }

    fn build_burn<P: TxProver>(self, _prover: &mut P) -> (r: Result<Vec<u8>, Error>)
        requires
            self.wf(),
            self.spec_transaction_type() == Some(TransactionType::Burn),
        ensures
            r is Err,
            self.value_balance < 0 ==> r matches Err(Error::InvalidAmount),
            self.value_balance >= 0 && scaled_value(
                (self.value_balance) as u64,
                self.scaling_exponent,
            ) != self.transparent_output->Some_0.amount as int ==> (r matches Err(
                Error::InvalidTransaction(m),
            ) && m@ == "input & output amount mismatch"@),
            self.value_balance >= 0 && scaled_value(
                (self.value_balance) as u64,
                self.scaling_exponent,
            ) == self.transparent_output->Some_0.amount as int ==> r matches Err(
                Error::NotImplemented,
            ),
    {
        if self.value_balance < 0 {
            return Err(Error::InvalidAmount);
        }
        let t: u128 = match &self.transparent_output {
            Some(to) => to.amount,
            None => {
                proof {
                    assert(false);
                }
                0
            },
        };
        let v: u64 = self.value_balance as u64;
        if !scaled_amount_matches(v, self.scaling_exponent, t) {
            return Err(Error::InvalidTransaction("input & output amount mismatch"));
        }
        Err(Error::NotImplemented)
    }

    /// Finalizes the transaction: classifies the legs, runs the proving
    /// pipeline, signs and encodes. Consumes the builder, so a second build
    /// or a later add is impossible by ownership.
    pub fn build<P: TxProver>(self, prover: &mut P) -> (r: Result<(TransactionType, Vec<u8>), Error>)
        requires
            self.wf(),
        ensures
            self.spec_transaction_type() is None && self.transparent_input is Some ==> (r matches Err(
                Error::InvalidTransaction(m),
            ) && m@ == "mint must be a transaction to 1 shielded output"@),
            self.spec_transaction_type() is None && self.transparent_input is None
                && self.transparent_output is Some ==> (r matches Err(Error::InvalidTransaction(m))
                && m@ == "burn must be a transaction from 1 shielded output, to max 1 shielded output"@),
            self.spec_transaction_type() is None && self.transparent_input is None
                && self.transparent_output is None ==> (r matches Err(Error::InvalidTransaction(m))
                && m@ == "invalid mint, burn, or transfer"@),
            r matches Ok(t) ==> self.spec_transaction_type() == Some(t.0),
            r matches Ok(t) ==> t.0 != TransactionType::Burn,
            self.spec_transaction_type() == Some(TransactionType::Burn) ==> r is Err,
            // A transfer balances exactly: what the spent notes carry equals
            // what the created notes carry, or the build fails.
            r matches Ok(t) ==> (t.0 == TransactionType::Transfer ==> self.value_balance == 0
                && sum_spend_values(self.spends@) == sum_output_values(self.outputs@)),
            self.spec_transaction_type() == Some(TransactionType::Transfer) && self.value_balance
                != 0 ==> r matches Err(Error::InvalidAmount),
            r matches Ok(t) ==> (t.0 == TransactionType::Transfer ==> is_transfer_payload_for(
                t.1@,
                self,
            )),
            // A mint reconciles exactly: the scaled shielded output value
            // equals the declared transparent input, or the build fails; the
            // payload opens with that amount as a 32-byte big-endian word.
            r matches Ok(t) ==> (t.0 == TransactionType::Mint ==> self.value_balance <= 0
                && scaled_value(self.outputs@[0].note.value, self.scaling_exponent)
                == self.transparent_input->Some_0.amount as int && t.1@.len() == 1056
                && t.1@.subrange(0, 32) == be32_of_u128(self.transparent_input->Some_0.amount)),
            self.spec_transaction_type() == Some(TransactionType::Mint) && self.value_balance > 0
                ==> r matches Err(Error::InvalidAmount),
            self.spec_transaction_type() == Some(TransactionType::Mint) && self.value_balance <= 0
                && scaled_value(self.outputs@[0].note.value, self.scaling_exponent)
                != self.transparent_input->Some_0.amount as int ==> (r matches Err(
                Error::InvalidTransaction(m),
            ) && m@ == "input & output amount mismatch"@),
            // A burn gates on its balance and scaled amount exactly as a mint
            // does, and its payload construction is not supported.
            self.spec_transaction_type() == Some(TransactionType::Burn) && self.value_balance < 0
                ==> r matches Err(Error::InvalidAmount),
            self.spec_transaction_type() == Some(TransactionType::Burn) && self.value_balance >= 0
                && scaled_value(self.value_balance as u64, self.scaling_exponent)
                != self.transparent_output->Some_0.amount as int ==> (r matches Err(
                Error::InvalidTransaction(m),
            ) && m@ == "input & output amount mismatch"@),
            self.spec_transaction_type() == Some(TransactionType::Burn) && self.value_balance >= 0
                && scaled_value(self.value_balance as u64, self.scaling_exponent)
                == self.transparent_output->Some_0.amount as int ==> r matches Err(
                Error::NotImplemented,
            ),
            // Once the shape and amounts are right, only the proving
            // capability can still refuse.
            self.spec_transaction_type() == Some(TransactionType::Transfer) && self.value_balance
                == 0 ==> r is Ok || r matches Err(Error::SpendProof) || r matches Err(
                Error::BindingSig,
            ),
            self.spec_transaction_type() == Some(TransactionType::Mint) && self.value_balance <= 0
                && scaled_value(self.outputs@[0].note.value, self.scaling_exponent)
                == self.transparent_input->Some_0.amount as int ==> r is Ok || r matches Err(
                Error::SpendProof,
            ) || r matches Err(Error::BindingSig),
            r matches Ok(t) ==> (t.0 == TransactionType::Mint ==> is_mint_payload_for(
                t.1@,
                self.transparent_input->Some_0.amount,
            )),
    {
        let txn_type = match self.transaction_type() {
            Ok(t) => t,
            Err(e) => {
                return Err(e);
            },
        };
        match txn_type {
            TransactionType::Mint => {
                let pl = match self.build_mint(prover) {
                    Ok(pl) => pl,
                    Err(e) => {
                        return Err(e);
                    },
                };
                Ok((TransactionType::Mint, pl))
            },
            TransactionType::Transfer => {
                let pl = match self.build_transfer(prover) {
                    Ok(pl) => pl,
                    Err(e) => {
                        return Err(e);
                    },
                };
                Ok((TransactionType::Transfer, pl))
            },
            TransactionType::Burn => {
                let pl = match self.build_burn(prover) {
                    Ok(pl) => pl,
                    Err(e) => {
                        return Err(e);
                    },
                };
                Ok((TransactionType::Burn, pl))
            },
        }
    }
}

/// What `build` promises of a Transfer payload: it is the exact wire encoding
/// of one spend descriptor per accumulated spend — each carrying the shared
/// anchor and an attached authorization signature — one output descriptor per
/// accumulated output, and a 2-word binding signature, in insertion order.
pub open spec fn is_transfer_payload_for(pl: Seq<u8>, b: Builder) -> bool {
    exists|sd: Seq<SpendDescription>, od: Seq<OutputDescription>, bs: Seq<u8>|
        {
            &&& sd.len() == b.spends@.len()
            &&& od.len() == b.outputs@.len()
            &&& bs.len() == 64
            &&& (forall|i: int|
                0 <= i < sd.len() ==> (#[trigger] sd[i]).anchor@ == (b.anchor->Some_0)@ && sd[i].spend_auth_sig
                    is Some)
            &&& pl == transfer_payload(sd, od, bs)
        }
}

/// What `build` promises of a Mint payload: it is the exact wire encoding
/// of the scaled output value, one output descriptor and a 2-word binding
/// signature.
pub open spec fn is_mint_payload_for(pl: Seq<u8>, scaled: u128) -> bool {
    exists|d: OutputDescription, bs: Seq<u8>| bs.len() == 64 && pl == mint_payload(scaled, d, bs)
}

/// Any two spends accumulated in one well-formed builder authenticate
/// against the same anchor: their paths resolve to an identical merkle root.
pub proof fn lemma_spends_share_anchor(b: Builder, i: int, j: int)
    requires
        b.wf(),
        0 <= i < b.spends@.len(),
        0 <= j < b.spends@.len(),
    ensures
        b.spends@[i].merkle_path.root@ == b.spends@[j].merkle_path.root@,
{
}

} // verus!
