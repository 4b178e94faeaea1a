//! Fractions of a whole with nine decimal digits, computed by `sp_runtime::Perbill`.

use sp_runtime::Perbill;
use vstd::prelude::*;

verus! {

/// The number of parts that make up one whole.
pub const ACCURACY: u32 = 1_000_000_000;

/// The parts that stand for `x` percent; anything above 100 counts as 100.
pub open spec fn percent_parts(x: nat) -> nat {
    if x > 100 {
        ACCURACY as nat
    } else {
        x * 10_000_000
    }
}

/// The parts that stand for `p / q`, rounded down. A quotient that is
/// undefined or above one counts as one whole.
pub open spec fn rational_parts(p: nat, q: nat) -> nat {
    if q == 0 || p > q {
        ACCURACY as nat
    } else {
        (ACCURACY as nat * p) / q
    }
}

/// `parts` billionths of `x`, rounded down.
pub open spec fn floor_share(parts: nat, x: nat) -> nat {
    (x * parts) / (ACCURACY as nat)
}

/// Calls `Perbill::from_percent` and reads the parts of the result with
/// `Perbill::deconstruct`. Trusted: the parts are ten million per percent,
/// with the percentage capped at 100.
#[verifier::external_body]
fn perbill_from_percent(x: u32) -> (parts: u32)
    ensures
        parts == percent_parts(x as nat),
{
    Perbill::from_percent(x).deconstruct()
}

/// Calls `Perbill::from_rational` on two `u128` values and reads the parts of
/// the result. Trusted: the result is `p / q` in billionths rounded down, and
/// one whole where `q` is zero or `p` exceeds `q`.
#[verifier::external_body]
fn perbill_from_rational(p: u128, q: u128) -> (parts: u32)
    ensures
        parts == rational_parts(p as nat, q as nat),
{
    Perbill::from_rational(p, q).deconstruct()
}

/// Builds a `Perbill` from `parts` and calls `Perbill::mul_floor` on `x`.
/// Trusted: the result is the product of `x` and the fraction, rounded down.
#[verifier::external_body]
fn perbill_mul_floor(parts: u32, x: u128) -> (share: u128)
    requires
        parts <= ACCURACY,
    ensures
        share == floor_share(parts as nat, x as nat),
{
    Perbill::from_parts(parts).mul_floor(x)
}

/// A fraction between zero and one, in billionths.
#[derive(Clone, Copy, Debug)]
pub struct Fraction {
    parts: u32,
}

impl View for Fraction {
    type V = nat;

    closed spec fn view(&self) -> nat {
        self.parts as nat
    }
}

impl Fraction {
    #[verifier::type_invariant]
    spec fn at_most_one(self) -> bool {
        self.parts <= ACCURACY
    }

    /// `x` percent; more than 100 percent counts as 100.
    pub fn from_percent(x: u32) -> (f: Fraction)
        ensures
            f@ == percent_parts(x as nat),
    {
        let parts: u32 = perbill_from_percent(x);
        Fraction { parts }
    }

    /// The fraction `p / q` rounded down to a billionth.
    pub fn from_rational(p: u128, q: u128) -> (f: Fraction)
        ensures
            f@ == rational_parts(p as nat, q as nat),
    {
        let parts: u32 = perbill_from_rational(p, q);
        proof {
            lemma_rational_parts_bound(p as nat, q as nat);
        }
        Fraction { parts }
    }

    /// The number of billionths.
    pub fn deconstruct(self) -> (parts: u32)
        ensures
            parts == self@,
            parts <= ACCURACY,
    {
        proof {
            use_type_invariant(&self);
        }
        self.parts
    }

    /// This fraction of `x`, rounded down.
    pub fn mul_floor(self, x: u128) -> (share: u128)
        ensures
            share == floor_share(self@, x as nat),
            share <= x,
    {
        proof {
            use_type_invariant(&self);
            lemma_floor_share_bound(self@, x as nat);
        }
        perbill_mul_floor(self.parts, x)
    }
}

/// A quotient of two naturals never stands for more than one whole.
pub proof fn lemma_rational_parts_bound(p: nat, q: nat)
    ensures
        rational_parts(p, q) <= ACCURACY,
{
    if q != 0 && p <= q {
        assert((ACCURACY as nat * p) / q <= ACCURACY as nat) by (nonlinear_arith)
            requires
                q > 0,
                p <= q,
        ;
    }
}

/// A share of `x` by a fraction of at most one is at most `x`.
pub proof fn lemma_floor_share_bound(parts: nat, x: nat)
    requires
        parts <= ACCURACY,
    ensures
        floor_share(parts, x) <= x,
{
    assert((x * parts) / (ACCURACY as nat) <= x) by (nonlinear_arith)
        requires
            parts <= ACCURACY as nat,
            ACCURACY as nat == 1_000_000_000,
    ;
}

} // verus!
