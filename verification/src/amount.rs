//! Balance arithmetic: powers of ten and the reconciliation of a shielded
//! value against a transparent amount through the builder's scaling factor.

use vstd::prelude::*;

verus! {

/// Ten to the `e`-th power.
pub open spec fn pow10(e: nat) -> nat
    decreases e,
{
    if e == 0 {
        1
    } else {
        10 * pow10((e - 1) as nat)
    }
}

/// The shielded value `v` scaled by the builder's factor `10^e`; transparent
/// legs are declared in this scaled unit.
pub open spec fn scaled_value(v: u64, e: u8) -> int {
    v * pow10(e as nat)
}

proof fn lemma_pow10_38()
    ensures
        pow10(38) == 100_000_000_000_000_000_000_000_000_000_000_000_000,
{
    reveal_with_fuel(pow10, 40);
}

proof fn lemma_pow10_increases(a: nat, b: nat)
    requires
        a <= b,
    ensures
        pow10(a) <= pow10(b),
    decreases b,
{
    if a < b {
        lemma_pow10_increases(a, (b - 1) as nat);
        assert(pow10(b) == 10 * pow10((b - 1) as nat));
    }
}

/// Computes `10^e` exactly.
fn pow10_u128(e: u8) -> (r: u128)
    requires
        e <= 38,
    ensures
        r == pow10(e as nat),
{
    let mut r: u128 = 1;
    let mut i: u8 = 0;
    while i < e
        invariant
            i <= e <= 38,
            r == pow10(i as nat),
        decreases e - i,
    {
        proof {
            lemma_pow10_increases(i as nat + 1, 38);
            lemma_pow10_38();
            assert(pow10(i as nat + 1) == 10 * pow10(i as nat));
        }
        r = r * 10;
        i = i + 1;
    }
    r
}

/// Decides whether the shielded value `v`, scaled by `10^e`, equals the
/// declared transparent amount `t` — exact integer equality, no rounding.
pub fn scaled_amount_matches(v: u64, e: u8, t: u128) -> (r: bool)
    ensures
        r <==> scaled_value(v, e) == t,
{
    if v == 0 {
        t == 0
    } else if e > 38 {
        proof {
            lemma_pow10_38();
            lemma_pow10_increases(39, e as nat);
            assert(pow10(39) == 10 * pow10(38));
            assert(v * pow10(e as nat) >= pow10(e as nat)) by (nonlinear_arith)
                requires
                    v >= 1,
            ;
        }
        false
    } else {
        let p = pow10_u128(e);
        match (v as u128).checked_mul(p) {
            Some(s) => s == t,
            None => {
                proof {
                    assert(v * pow10(e as nat) > u128::MAX);
                }
                false
            },
        }
    }
}

} // verus!
