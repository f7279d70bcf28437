//! The contract-call wire format. A Mint payload is a fixed concatenation;
//! a Transfer payload is an ABI-style encoding of five parallel arrays of
//! fixed-size 32-byte-word tuples. Every encoder has an exact byte-level
//! contract, and the layout lemma shows that reading a produced Transfer
//! payload at the documented offsets recovers the encoded fields.

use vstd::prelude::*;
use crate::builder::{OutputDescription, SpendDescription};
use crate::bytes::{abi_word, be32_of_u128, extend_abi_word, extend_array, extend_be32_of_u128,
    extend_zeros, zeros, copy_range};

verus! {

/// The 10-word tuple a spend contributes to the first Transfer array:
/// nullifier, anchor, value commitment, randomized key, proof.
pub open spec fn spend_tuple(d: SpendDescription) -> Seq<u8> {
    d.nullifier@ + d.anchor@ + d.cv@ + d.rk@ + d.zkproof@
}

/// The 2-word spend-authorization signature tuple of a spend.
pub open spec fn sig_tuple(d: SpendDescription) -> Seq<u8> {
    (d.spend_auth_sig->Some_0)@
}

/// The 9-word tuple an output contributes to the third Transfer array:
/// note commitment, value commitment, ephemeral key, proof.
pub open spec fn output_tuple(d: OutputDescription) -> Seq<u8> {
    d.cmu@ + d.cv@ + d.ephemeral_key@ + d.zkproof@
}

/// The 21-word ciphertext tuple of an output: note ciphertext, outgoing
/// ciphertext, 12 bytes of zero padding.
pub open spec fn ciphertext_tuple(d: OutputDescription) -> Seq<u8> {
    d.enc_ciphertext@ + d.out_ciphertext@ + zeros(12)
}

/// The spend tuples of all spends, in insertion order.
pub open spec fn spend_tuples(sd: Seq<SpendDescription>) -> Seq<u8>
    decreases sd.len(),
{
    if sd.len() == 0 {
        Seq::empty()
    } else {
        spend_tuples(sd.drop_last()) + spend_tuple(sd.last())
    }
}

/// The signature tuples of all spends, in insertion order.
pub open spec fn sig_tuples(sd: Seq<SpendDescription>) -> Seq<u8>
    decreases sd.len(),
{
    if sd.len() == 0 {
        Seq::empty()
    } else {
        sig_tuples(sd.drop_last()) + sig_tuple(sd.last())
    }
}

/// The output tuples of all outputs, in insertion order.
pub open spec fn output_tuples(od: Seq<OutputDescription>) -> Seq<u8>
    decreases od.len(),
{
    if od.len() == 0 {
        Seq::empty()
    } else {
        output_tuples(od.drop_last()) + output_tuple(od.last())
    }
}

/// The ciphertext tuples of all outputs, in insertion order.
pub open spec fn ciphertext_tuples(od: Seq<OutputDescription>) -> Seq<u8>
    decreases od.len(),
{
    if od.len() == 0 {
        Seq::empty()
    } else {
        ciphertext_tuples(od.drop_last()) + ciphertext_tuple(od.last())
    }
}

/// The whole Transfer payload: a 192-byte head (three array offsets, the
/// 2-word binding signature, a fourth offset), then the four length-prefixed
/// arrays in order.
pub open spec fn transfer_payload(
    sd: Seq<SpendDescription>,
    od: Seq<OutputDescription>,
    bsig: Seq<u8>,
) -> Seq<u8> {
    abi_word(192u64) + abi_word((224 + 320 * sd.len()) as u64) + abi_word(
        (256 + 384 * sd.len()) as u64,
    ) + bsig + abi_word((288 + 384 * sd.len() + 288 * od.len()) as u64) + abi_word(
        sd.len() as u64,
    ) + spend_tuples(sd) + abi_word(sd.len() as u64) + sig_tuples(sd) + abi_word(od.len() as u64)
        + output_tuples(od) + abi_word(od.len() as u64) + ciphertext_tuples(od)
}

/// The whole Mint payload: scaled output value, the output descriptor's
/// commitment fields and proof, the binding signature, both ciphertexts and
/// 12 bytes of zero padding.
pub open spec fn mint_payload(scaled: u128, d: OutputDescription, bsig: Seq<u8>) -> Seq<u8> {
    be32_of_u128(scaled) + d.cmu@ + d.cv@ + d.ephemeral_key@ + d.zkproof@ + bsig + d.enc_ciphertext@
        + d.out_ciphertext@ + zeros(12)
}

proof fn lemma_spend_tuples_len(sd: Seq<SpendDescription>)
    ensures
        spend_tuples(sd).len() == 320 * sd.len(),
    decreases sd.len(),
{
    if sd.len() > 0 {
        lemma_spend_tuples_len(sd.drop_last());
    }
}

proof fn lemma_sig_tuples_len(sd: Seq<SpendDescription>)
    requires
        forall|i: int| 0 <= i < sd.len() ==> (#[trigger] sd[i]).spend_auth_sig is Some,
    ensures
        sig_tuples(sd).len() == 64 * sd.len(),
    decreases sd.len(),
{
    if sd.len() > 0 {
        lemma_sig_tuples_len(sd.drop_last());
    }
}

proof fn lemma_output_tuples_len(od: Seq<OutputDescription>)
    ensures
        output_tuples(od).len() == 288 * od.len(),
    decreases od.len(),
{
    if od.len() > 0 {
        lemma_output_tuples_len(od.drop_last());
    }
}

proof fn lemma_ciphertext_tuples_len(od: Seq<OutputDescription>)
    ensures
        ciphertext_tuples(od).len() == 672 * od.len(),
    decreases od.len(),
{
    if od.len() > 0 {
        lemma_ciphertext_tuples_len(od.drop_last());
    }
}

proof fn lemma_spend_tuples_index(sd: Seq<SpendDescription>, i: int)
    requires
        0 <= i < sd.len(),
    ensures
        spend_tuples(sd).subrange(320 * i, 320 * i + 320) == spend_tuple(sd[i]),
    decreases sd.len(),
{
    lemma_spend_tuples_len(sd);
    lemma_spend_tuples_len(sd.drop_last());
    if i == sd.len() - 1 {
        assert(spend_tuples(sd).subrange(320 * i, 320 * i + 320) =~= spend_tuple(sd.last()));
    } else {
        lemma_spend_tuples_index(sd.drop_last(), i);
        assert(spend_tuples(sd).subrange(320 * i, 320 * i + 320) =~= spend_tuples(
            sd.drop_last(),
        ).subrange(320 * i, 320 * i + 320));
    }
}

proof fn lemma_sig_tuples_index(sd: Seq<SpendDescription>, i: int)
    requires
        0 <= i < sd.len(),
        forall|j: int| 0 <= j < sd.len() ==> (#[trigger] sd[j]).spend_auth_sig is Some,
    ensures
        sig_tuples(sd).subrange(64 * i, 64 * i + 64) == sig_tuple(sd[i]),
    decreases sd.len(),
{
    lemma_sig_tuples_len(sd);
    lemma_sig_tuples_len(sd.drop_last());
    if i == sd.len() - 1 {
        assert(sig_tuples(sd).subrange(64 * i, 64 * i + 64) =~= sig_tuple(sd.last()));
    } else {
        lemma_sig_tuples_index(sd.drop_last(), i);
        assert(sig_tuples(sd).subrange(64 * i, 64 * i + 64) =~= sig_tuples(
            sd.drop_last(),
        ).subrange(64 * i, 64 * i + 64));
    }
}

proof fn lemma_output_tuples_index(od: Seq<OutputDescription>, i: int)
    requires
        0 <= i < od.len(),
    ensures
        output_tuples(od).subrange(288 * i, 288 * i + 288) == output_tuple(od[i]),
    decreases od.len(),
{
    lemma_output_tuples_len(od);
    lemma_output_tuples_len(od.drop_last());
    if i == od.len() - 1 {
        assert(output_tuples(od).subrange(288 * i, 288 * i + 288) =~= output_tuple(od.last()));
    } else {
        lemma_output_tuples_index(od.drop_last(), i);
        assert(output_tuples(od).subrange(288 * i, 288 * i + 288) =~= output_tuples(
            od.drop_last(),
        ).subrange(288 * i, 288 * i + 288));
    }
}

proof fn lemma_ciphertext_tuples_index(od: Seq<OutputDescription>, i: int)
    requires
        0 <= i < od.len(),
    ensures
        ciphertext_tuples(od).subrange(672 * i, 672 * i + 672) == ciphertext_tuple(od[i]),
    decreases od.len(),
{
    lemma_ciphertext_tuples_len(od);
    lemma_ciphertext_tuples_len(od.drop_last());
    if i == od.len() - 1 {
        assert(ciphertext_tuples(od).subrange(672 * i, 672 * i + 672) =~= ciphertext_tuple(
            od.last(),
        ));
    } else {
        lemma_ciphertext_tuples_index(od.drop_last(), i);
        assert(ciphertext_tuples(od).subrange(672 * i, 672 * i + 672) =~= ciphertext_tuples(
            od.drop_last(),
        ).subrange(672 * i, 672 * i + 672));
    }
}

/// The length of a Transfer payload holding `ns` spends and `no` outputs.
pub open spec fn transfer_payload_len(ns: int, no: int) -> int {
    320 + 384 * ns + 960 * no
}

proof fn lemma_subrange_of_subrange(s: Seq<u8>, a: int, b: int, x: int, y: int)
    requires
        0 <= a <= b <= s.len(),
        0 <= x <= y <= b - a,
    ensures
        s.subrange(a, b).subrange(x, y) == s.subrange(a + x, a + y),
{
    assert(s.subrange(a, b).subrange(x, y) =~= s.subrange(a + x, a + y));
}

#[verifier::rlimit(100)]
#[verifier::spinoff_prover]
proof fn lemma_transfer_segments(sd: Seq<SpendDescription>, od: Seq<OutputDescription>, bsig: Seq<u8>)
    requires
        bsig.len() == 64,
        forall|i: int| 0 <= i < sd.len() ==> (#[trigger] sd[i]).spend_auth_sig is Some,
    ensures
        transfer_payload(sd, od, bsig).len() == transfer_payload_len(
            sd.len() as int,
            od.len() as int,
        ),
        transfer_payload(sd, od, bsig).subrange(96, 160) == bsig,
        transfer_payload(sd, od, bsig).subrange(224, 224 + 320 * sd.len() as int) == spend_tuples(
            sd,
        ),
        transfer_payload(sd, od, bsig).subrange(
            256 + 320 * sd.len() as int,
            256 + 384 * sd.len() as int,
        ) == sig_tuples(sd),
        transfer_payload(sd, od, bsig).subrange(
            288 + 384 * sd.len() as int,
            288 + 384 * sd.len() as int + 288 * od.len() as int,
        ) == output_tuples(od),
        transfer_payload(sd, od, bsig).subrange(
            320 + 384 * sd.len() as int + 288 * od.len() as int,
            320 + 384 * sd.len() as int + 960 * od.len() as int,
        ) == ciphertext_tuples(od),
{
    lemma_spend_tuples_len(sd);
    lemma_sig_tuples_len(sd);
    lemma_output_tuples_len(od);
    lemma_ciphertext_tuples_len(od);
    let p = transfer_payload(sd, od, bsig);
    let ns = sd.len() as int;
    let no = od.len() as int;
    assert(p.subrange(96, 160) =~= bsig);
    assert(p.subrange(224, 224 + 320 * ns) =~= spend_tuples(sd));
    assert(p.subrange(256 + 320 * ns, 256 + 384 * ns) =~= sig_tuples(sd));
    assert(p.subrange(288 + 384 * ns, 288 + 384 * ns + 288 * no) =~= output_tuples(od));
    assert(p.subrange(320 + 384 * ns + 288 * no, 320 + 384 * ns + 960 * no)
        =~= ciphertext_tuples(od));
}

/// Decoding a produced Transfer payload at the documented offsets recovers
/// the exact nullifiers, anchors, commitments, keys, signatures, proofs and
/// ciphertexts that were encoded, in insertion order.
#[verifier::rlimit(100)]
#[verifier::spinoff_prover]
pub proof fn lemma_transfer_layout_roundtrip(
    sd: Seq<SpendDescription>,
    od: Seq<OutputDescription>,
    bsig: Seq<u8>,
)
    requires
        1 <= sd.len() <= 2,
        1 <= od.len() <= 2,
        bsig.len() == 64,
        forall|i: int| 0 <= i < sd.len() ==> (#[trigger] sd[i]).spend_auth_sig is Some,
    ensures
        transfer_payload(sd, od, bsig).len() == transfer_payload_len(
            sd.len() as int,
            od.len() as int,
        ),
        transfer_payload(sd, od, bsig).subrange(96, 160) == bsig,
        forall|i: int|
            0 <= i < sd.len() ==> {
                let p = transfer_payload(sd, od, bsig);
                let base = 224 + 320 * i;
                &&& p.subrange(base, base + 32) == (#[trigger] sd[i]).nullifier@
                &&& p.subrange(base + 32, base + 64) == sd[i].anchor@
                &&& p.subrange(base + 64, base + 96) == sd[i].cv@
                &&& p.subrange(base + 96, base + 128) == sd[i].rk@
                &&& p.subrange(base + 128, base + 320) == sd[i].zkproof@
            },
        forall|i: int|
            0 <= i < sd.len() ==> {
                let p = transfer_payload(sd, od, bsig);
                let base = 256 + 320 * sd.len() + 64 * i;
                p.subrange(base, base + 64) == ((#[trigger] sd[i]).spend_auth_sig->Some_0)@
            },
        forall|i: int|
            0 <= i < od.len() ==> {
                let p = transfer_payload(sd, od, bsig);
                let base = 288 + 384 * sd.len() + 288 * i;
                &&& p.subrange(base, base + 32) == (#[trigger] od[i]).cmu@
                &&& p.subrange(base + 32, base + 64) == od[i].cv@
                &&& p.subrange(base + 64, base + 96) == od[i].ephemeral_key@
                &&& p.subrange(base + 96, base + 288) == od[i].zkproof@
            },
        forall|i: int|
            0 <= i < od.len() ==> {
                let p = transfer_payload(sd, od, bsig);
                let base = 320 + 384 * sd.len() + 288 * od.len() + 672 * i;
                &&& p.subrange(base, base + 580) == (#[trigger] od[i]).enc_ciphertext@
                &&& p.subrange(base + 580, base + 660) == od[i].out_ciphertext@
            },
{
    lemma_spend_tuples_len(sd);
    lemma_sig_tuples_len(sd);
    lemma_output_tuples_len(od);
    lemma_ciphertext_tuples_len(od);
    lemma_transfer_segments(sd, od, bsig);
    let p = transfer_payload(sd, od, bsig);
    let ns = sd.len() as int;
    let no = od.len() as int;
    assert forall|i: int| 0 <= i < sd.len() implies {
        let base = 224 + 320 * i;
        &&& p.subrange(base, base + 32) == (#[trigger] sd[i]).nullifier@
        &&& p.subrange(base + 32, base + 64) == sd[i].anchor@
        &&& p.subrange(base + 64, base + 96) == sd[i].cv@
        &&& p.subrange(base + 96, base + 128) == sd[i].rk@
        &&& p.subrange(base + 128, base + 320) == sd[i].zkproof@
    } by {
        lemma_spend_tuples_index(sd, i);
        let base = 224 + 320 * i;
        lemma_subrange_of_subrange(p, 224, 224 + 320 * ns, 320 * i, 320 * i + 320);
        assert(p.subrange(base, base + 320) == spend_tuple(sd[i]));
        lemma_subrange_of_subrange(p, base, base + 320, 0, 32);
        lemma_subrange_of_subrange(p, base, base + 320, 32, 64);
        lemma_subrange_of_subrange(p, base, base + 320, 64, 96);
        lemma_subrange_of_subrange(p, base, base + 320, 96, 128);
        lemma_subrange_of_subrange(p, base, base + 320, 128, 320);
        assert(spend_tuple(sd[i]).subrange(0, 32) =~= sd[i].nullifier@);
        assert(spend_tuple(sd[i]).subrange(32, 64) =~= sd[i].anchor@);
        assert(spend_tuple(sd[i]).subrange(64, 96) =~= sd[i].cv@);
        assert(spend_tuple(sd[i]).subrange(96, 128) =~= sd[i].rk@);
        assert(spend_tuple(sd[i]).subrange(128, 320) =~= sd[i].zkproof@);
    }
    assert forall|i: int| 0 <= i < sd.len() implies {
        let base = 256 + 320 * sd.len() + 64 * i;
        p.subrange(base, base + 64) == ((#[trigger] sd[i]).spend_auth_sig->Some_0)@
    } by {
        lemma_sig_tuples_index(sd, i);
        lemma_subrange_of_subrange(p, 256 + 320 * ns, 256 + 384 * ns, 64 * i, 64 * i + 64);
    }
    assert forall|i: int| 0 <= i < od.len() implies {
        let base = 288 + 384 * sd.len() + 288 * i;
        &&& p.subrange(base, base + 32) == (#[trigger] od[i]).cmu@
        &&& p.subrange(base + 32, base + 64) == od[i].cv@
        &&& p.subrange(base + 64, base + 96) == od[i].ephemeral_key@
        &&& p.subrange(base + 96, base + 288) == od[i].zkproof@
    } by {
        lemma_output_tuples_index(od, i);
        let base = 288 + 384 * ns + 288 * i;
        lemma_subrange_of_subrange(p, 288 + 384 * ns, 288 + 384 * ns + 288 * no, 288 * i, 288 * i + 288);
        assert(p.subrange(base, base + 288) == output_tuple(od[i]));
        lemma_subrange_of_subrange(p, base, base + 288, 0, 32);
        lemma_subrange_of_subrange(p, base, base + 288, 32, 64);
        lemma_subrange_of_subrange(p, base, base + 288, 64, 96);
        lemma_subrange_of_subrange(p, base, base + 288, 96, 288);
        assert(output_tuple(od[i]).subrange(0, 32) =~= od[i].cmu@);
        assert(output_tuple(od[i]).subrange(32, 64) =~= od[i].cv@);
        assert(output_tuple(od[i]).subrange(64, 96) =~= od[i].ephemeral_key@);
        assert(output_tuple(od[i]).subrange(96, 288) =~= od[i].zkproof@);
    }
    assert forall|i: int| 0 <= i < od.len() implies {
        let base = 320 + 384 * sd.len() + 288 * od.len() + 672 * i;
        &&& p.subrange(base, base + 580) == (#[trigger] od[i]).enc_ciphertext@
        &&& p.subrange(base + 580, base + 660) == od[i].out_ciphertext@
    } by {
        lemma_ciphertext_tuples_index(od, i);
        let base = 320 + 384 * ns + 288 * no + 672 * i;
        lemma_subrange_of_subrange(p, 320 + 384 * ns + 288 * no, 320 + 384 * ns + 960 * no, 672 * i, 672 * i + 672);
        assert(p.subrange(base, base + 672) == ciphertext_tuple(od[i]));
        lemma_subrange_of_subrange(p, base, base + 672, 0, 580);
        lemma_subrange_of_subrange(p, base, base + 672, 580, 660);
        assert(ciphertext_tuple(od[i]).subrange(0, 580) =~= od[i].enc_ciphertext@);
        assert(ciphertext_tuple(od[i]).subrange(580, 660) =~= od[i].out_ciphertext@);
    }
}

fn extend_spend_tuple(out: &mut Vec<u8>, d: &SpendDescription)
    ensures
        final(out)@ == old(out)@ + spend_tuple(*d),
{
    extend_array(out, &d.nullifier);
    extend_array(out, &d.anchor);
    extend_array(out, &d.cv);
    extend_array(out, &d.rk);
    extend_array(out, &d.zkproof);
    proof {
        assert(out@ =~= old(out)@ + spend_tuple(*d));
    }
}

fn extend_output_tuple(out: &mut Vec<u8>, d: &OutputDescription)
    ensures
        final(out)@ == old(out)@ + output_tuple(*d),
{
    extend_array(out, &d.cmu);
    extend_array(out, &d.cv);
    extend_array(out, &d.ephemeral_key);
    extend_array(out, &d.zkproof);
    proof {
        assert(out@ =~= old(out)@ + output_tuple(*d));
    }
}

fn extend_ciphertext_tuple(out: &mut Vec<u8>, d: &OutputDescription)
    ensures
        final(out)@ == old(out)@ + ciphertext_tuple(*d),
{
    extend_array(out, &d.enc_ciphertext);
    extend_array(out, &d.out_ciphertext);
    extend_zeros(out, 12);
    proof {
        assert(out@ =~= old(out)@ + ciphertext_tuple(*d));
    }
}

pub(crate) fn extend_spend_tuples(out: &mut Vec<u8>, sd: &Vec<SpendDescription>)
    ensures
        final(out)@ == old(out)@ + spend_tuples(sd@),
{
    let mut i: usize = 0;
    proof {
        assert(out@ =~= old(out)@ + spend_tuples(sd@.subrange(0, 0)));
    }
    while i < sd.len()
        invariant
            i <= sd@.len(),
            out@ == old(out)@ + spend_tuples(sd@.subrange(0, i as int)),
        decreases sd@.len() - i,
    {
        extend_spend_tuple(out, &sd[i]);
        proof {
            assert(sd@.subrange(0, i + 1).drop_last() =~= sd@.subrange(0, i as int));
            assert(sd@.subrange(0, i + 1).last() == sd@[i as int]);
            assert(out@ =~= old(out)@ + spend_tuples(sd@.subrange(0, i + 1)));
        }
        i += 1;
    }
    proof {
        assert(sd@.subrange(0, sd@.len() as int) =~= sd@);
    }
}

pub(crate) fn extend_sig_tuples(out: &mut Vec<u8>, sd: &Vec<SpendDescription>)
    requires
        forall|i: int| 0 <= i < sd@.len() ==> (#[trigger] sd@[i]).spend_auth_sig is Some,
    ensures
        final(out)@ == old(out)@ + sig_tuples(sd@),
{
    let mut i: usize = 0;
    proof {
        assert(out@ =~= old(out)@ + sig_tuples(sd@.subrange(0, 0)));
    }
    while i < sd.len()
        invariant
            i <= sd@.len(),
            forall|j: int| 0 <= j < sd@.len() ==> (#[trigger] sd@[j]).spend_auth_sig is Some,
            out@ == old(out)@ + sig_tuples(sd@.subrange(0, i as int)),
        decreases sd@.len() - i,
    {
        let sig: [u8; 64] = sd[i].spend_auth_sig.unwrap();
        extend_array(out, &sig);
        proof {
            assert(sd@.subrange(0, i + 1).drop_last() =~= sd@.subrange(0, i as int));
            assert(sd@.subrange(0, i + 1).last() == sd@[i as int]);
            assert(out@ =~= old(out)@ + sig_tuples(sd@.subrange(0, i + 1)));
        }
        i += 1;
    }
    proof {
        assert(sd@.subrange(0, sd@.len() as int) =~= sd@);
    }
}

pub(crate) fn extend_output_tuples(out: &mut Vec<u8>, od: &Vec<OutputDescription>)
    ensures
        final(out)@ == old(out)@ + output_tuples(od@),
{
    let mut i: usize = 0;
    proof {
        assert(out@ =~= old(out)@ + output_tuples(od@.subrange(0, 0)));
    }
    while i < od.len()
        invariant
            i <= od@.len(),
            out@ == old(out)@ + output_tuples(od@.subrange(0, i as int)),
        decreases od@.len() - i,
    {
        extend_output_tuple(out, &od[i]);
        proof {
            assert(od@.subrange(0, i + 1).drop_last() =~= od@.subrange(0, i as int));
            assert(od@.subrange(0, i + 1).last() == od@[i as int]);
            assert(out@ =~= old(out)@ + output_tuples(od@.subrange(0, i + 1)));
        }
        i += 1;
    }
    proof {
        assert(od@.subrange(0, od@.len() as int) =~= od@);
    }
}

pub(crate) fn extend_ciphertext_tuples(out: &mut Vec<u8>, od: &Vec<OutputDescription>)
    ensures
        final(out)@ == old(out)@ + ciphertext_tuples(od@),
{
    let mut i: usize = 0;
    proof {
        assert(out@ =~= old(out)@ + ciphertext_tuples(od@.subrange(0, 0)));
    }
    while i < od.len()
        invariant
            i <= od@.len(),
            out@ == old(out)@ + ciphertext_tuples(od@.subrange(0, i as int)),
        decreases od@.len() - i,
    {
        extend_ciphertext_tuple(out, &od[i]);
        proof {
            assert(od@.subrange(0, i + 1).drop_last() =~= od@.subrange(0, i as int));
            assert(od@.subrange(0, i + 1).last() == od@[i as int]);
            assert(out@ =~= old(out)@ + ciphertext_tuples(od@.subrange(0, i + 1)));
        }
        i += 1;
    }
    proof {
        assert(od@.subrange(0, od@.len() as int) =~= od@);
    }
}

/// Encodes a Transfer payload from its descriptors and binding signature.
/// Array ordering follows the order the legs were added to the builder.
pub fn abi_encode_transfer(
    spends: &Vec<SpendDescription>,
    outputs: &Vec<OutputDescription>,
    binding_sig: &[u8; 64],
) -> (r: Vec<u8>)
    requires
        1 <= spends@.len() <= 2,
        1 <= outputs@.len() <= 2,
        forall|i: int| 0 <= i < spends@.len() ==> (#[trigger] spends@[i]).spend_auth_sig is Some,
    ensures
        r@ == transfer_payload(spends@, outputs@, binding_sig@),
{
    let ns: u64 = spends.len() as u64;
    let no: u64 = outputs.len() as u64;
    let mut r: Vec<u8> = Vec::new();
    extend_abi_word(&mut r, 192);
    extend_abi_word(&mut r, 224 + 320 * ns);
    extend_abi_word(&mut r, 256 + 384 * ns);
    extend_array(&mut r, binding_sig);
    extend_abi_word(&mut r, 288 + 384 * ns + 288 * no);
    extend_abi_word(&mut r, ns);
    extend_spend_tuples(&mut r, spends);
    extend_abi_word(&mut r, ns);
    extend_sig_tuples(&mut r, spends);
    extend_abi_word(&mut r, no);
    extend_output_tuples(&mut r, outputs);
    extend_abi_word(&mut r, no);
    extend_ciphertext_tuples(&mut r, outputs);
    proof {
        assert(r@ =~= transfer_payload(spends@, outputs@, binding_sig@));
    }
    r
}

/// Encodes a Mint payload from the scaled output value, the single output
/// descriptor and the binding signature.
pub fn encode_mint(scaled: u128, d: &OutputDescription, bsig: &[u8; 64]) -> (r: Vec<u8>)
    ensures
        r@ == mint_payload(scaled, *d, bsig@),
        r@.len() == 1056,
        r@.subrange(0, 32) == be32_of_u128(scaled),
{
    let mut r: Vec<u8> = Vec::new();
    extend_be32_of_u128(&mut r, scaled);
    extend_array(&mut r, &d.cmu);
    extend_array(&mut r, &d.cv);
    extend_array(&mut r, &d.ephemeral_key);
    extend_array(&mut r, &d.zkproof);
    extend_array(&mut r, bsig);
    extend_array(&mut r, &d.enc_ciphertext);
    extend_array(&mut r, &d.out_ciphertext);
    extend_zeros(&mut r, 12);
    proof {
        assert(r@ =~= mint_payload(scaled, *d, bsig@));
        assert(r@.subrange(0, 32) =~= be32_of_u128(scaled));
    }
    r
}

/// One spend recovered from a Transfer payload.
pub struct DecodedSpend {
    pub nullifier: Vec<u8>,
    pub anchor: Vec<u8>,
    pub cv: Vec<u8>,
    pub rk: Vec<u8>,
    pub zkproof: Vec<u8>,
    pub spend_auth_sig: Vec<u8>,
}

/// One output recovered from a Transfer payload.
pub struct DecodedOutput {
    pub cmu: Vec<u8>,
    pub cv: Vec<u8>,
    pub ephemeral_key: Vec<u8>,
    pub zkproof: Vec<u8>,
    pub enc_ciphertext: Vec<u8>,
    pub out_ciphertext: Vec<u8>,
}

/// A Transfer payload taken apart again.
pub struct DecodedTransfer {
    pub spends: Vec<DecodedSpend>,
    pub outputs: Vec<DecodedOutput>,
    pub binding_sig: Vec<u8>,
}

/// Whether `p` has the shape of a Transfer payload: plausible counts in the
/// two array-length words and exactly the documented total length.
pub open spec fn transfer_shape_ok(p: Seq<u8>) -> bool {
    &&& p.len() >= 224
    &&& 1 <= p[223] <= 2
    &&& {
        let ns = p[223] as int;
        &&& p.len() > 287 + 384 * ns
        &&& 1 <= p[287 + 384 * ns] <= 2
        &&& p.len() == transfer_payload_len(ns, p[287 + 384 * ns] as int)
    }
}

/// Takes a Transfer payload apart along the documented array layout,
/// recovering every field of every tuple; refuses a byte string whose counts
/// or length do not fit the layout.
pub fn decode_transfer(p: &Vec<u8>) -> (r: Option<DecodedTransfer>)
    ensures
        r is Some <==> transfer_shape_ok(p@),
        r matches Some(d) ==> {
            let ns = p@[223] as int;
            let no = p@[287 + 384 * ns] as int;
            &&& d.spends@.len() == ns
            &&& d.outputs@.len() == no
            &&& d.binding_sig@ == p@.subrange(96, 160)
            &&& forall|i: int|
                0 <= i < ns ==> {
                    let base = 224 + 320 * i;
                    &&& (#[trigger] d.spends@[i]).nullifier@ == p@.subrange(base, base + 32)
                    &&& d.spends@[i].anchor@ == p@.subrange(base + 32, base + 64)
                    &&& d.spends@[i].cv@ == p@.subrange(base + 64, base + 96)
                    &&& d.spends@[i].rk@ == p@.subrange(base + 96, base + 128)
                    &&& d.spends@[i].zkproof@ == p@.subrange(base + 128, base + 320)
                    &&& d.spends@[i].spend_auth_sig@ == p@.subrange(
                        256 + 320 * ns + 64 * i,
                        256 + 320 * ns + 64 * i + 64,
                    )
                }
            &&& forall|i: int|
                0 <= i < no ==> {
                    let base = 288 + 384 * ns + 288 * i;
                    let cbase = 320 + 384 * ns + 288 * no + 672 * i;
                    &&& (#[trigger] d.outputs@[i]).cmu@ == p@.subrange(base, base + 32)
                    &&& d.outputs@[i].cv@ == p@.subrange(base + 32, base + 64)
                    &&& d.outputs@[i].ephemeral_key@ == p@.subrange(base + 64, base + 96)
                    &&& d.outputs@[i].zkproof@ == p@.subrange(base + 96, base + 288)
                    &&& d.outputs@[i].enc_ciphertext@ == p@.subrange(cbase, cbase + 580)
                    &&& d.outputs@[i].out_ciphertext@ == p@.subrange(cbase + 580, cbase + 660)
                }
        },
{
    if p.len() < 224 {
        return None;
    }
    let ns: usize = p[223] as usize;
    if ns < 1 || ns > 2 {
        return None;
    }
    if p.len() <= 287 + 384 * ns {
        return None;
    }
    let no: usize = p[287 + 384 * ns] as usize;
    if no < 1 || no > 2 {
        return None;
    }
    if p.len() != 320 + 384 * ns + 960 * no {
        return None;
    }
    let binding_sig = copy_range(p, 96, 160);
    let mut spends: Vec<DecodedSpend> = Vec::new();
    let mut i: usize = 0;
    while i < ns
        invariant
            i <= ns,
            1 <= ns <= 2,
            1 <= no <= 2,
            p@.len() == 320 + 384 * ns + 960 * no,
            spends@.len() == i,
            forall|k: int|
                0 <= k < i ==> {
                    let base = 224 + 320 * k;
                    &&& (#[trigger] spends@[k]).nullifier@ == p@.subrange(base, base + 32)
                    &&& spends@[k].anchor@ == p@.subrange(base + 32, base + 64)
                    &&& spends@[k].cv@ == p@.subrange(base + 64, base + 96)
                    &&& spends@[k].rk@ == p@.subrange(base + 96, base + 128)
                    &&& spends@[k].zkproof@ == p@.subrange(base + 128, base + 320)
                    &&& spends@[k].spend_auth_sig@ == p@.subrange(
                        256 + 320 * (ns as int) + 64 * k,
                        256 + 320 * (ns as int) + 64 * k + 64,
                    )
                },
        decreases ns - i,
    {
        let base: usize = 224 + 320 * i;
        let sig_base: usize = 256 + 320 * ns + 64 * i;
        let d = DecodedSpend {
            nullifier: copy_range(p, base, base + 32),
            anchor: copy_range(p, base + 32, base + 64),
            cv: copy_range(p, base + 64, base + 96),
            rk: copy_range(p, base + 96, base + 128),
            zkproof: copy_range(p, base + 128, base + 320),
            spend_auth_sig: copy_range(p, sig_base, sig_base + 64),
        };
        spends.push(d);
        i += 1;
    }
    let mut outputs: Vec<DecodedOutput> = Vec::new();
    let mut j: usize = 0;
    while j < no
        invariant
            j <= no,
            1 <= ns <= 2,
            1 <= no <= 2,
            p@.len() == 320 + 384 * ns + 960 * no,
            outputs@.len() == j,
            forall|k: int|
                0 <= k < j ==> {
                    let base = 288 + 384 * (ns as int) + 288 * k;
                    let cbase = 320 + 384 * (ns as int) + 288 * (no as int) + 672 * k;
                    &&& (#[trigger] outputs@[k]).cmu@ == p@.subrange(base, base + 32)
                    &&& outputs@[k].cv@ == p@.subrange(base + 32, base + 64)
                    &&& outputs@[k].ephemeral_key@ == p@.subrange(base + 64, base + 96)
                    &&& outputs@[k].zkproof@ == p@.subrange(base + 96, base + 288)
                    &&& outputs@[k].enc_ciphertext@ == p@.subrange(cbase, cbase + 580)
                    &&& outputs@[k].out_ciphertext@ == p@.subrange(cbase + 580, cbase + 660)
                },
        decreases no - j,
    {
        let base: usize = 288 + 384 * ns + 288 * j;
        let cbase: usize = 320 + 384 * ns + 288 * no + 672 * j;
        let d = DecodedOutput {
            cmu: copy_range(p, base, base + 32),
            cv: copy_range(p, base + 32, base + 64),
            ephemeral_key: copy_range(p, base + 64, base + 96),
            zkproof: copy_range(p, base + 96, base + 288),
            enc_ciphertext: copy_range(p, cbase, cbase + 580),
            out_ciphertext: copy_range(p, cbase + 580, cbase + 660),
        };
        outputs.push(d);
        j += 1;
    }
    Some(DecodedTransfer { spends, outputs, binding_sig })
}

} // verus!
