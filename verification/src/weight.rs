//! The cost of a call in two dimensions, and fractions of it in parts per billion.

use vstd::prelude::*;

verus! {

/// The cost of executing a call: computation time and proof size.
#[derive(Clone, Copy, Debug, PartialEq, Eq, Structural)]
pub struct Weight {
    /// Computational time, measured on reference hardware.
    pub ref_time: u64,
    /// Storage space that the proof of validity takes.
    pub proof_size: u64,
}

impl Weight {
    /// A weight from its two parts.
    pub fn from_parts(ref_time: u64, proof_size: u64) -> (res: Weight)
        ensures
            res == (Weight { ref_time, proof_size }),
    {
        Weight { ref_time, proof_size }
    }

    /// The weight of doing nothing.
    pub fn zero() -> (res: Weight)
        ensures
            res == (Weight { ref_time: 0, proof_size: 0 }),
    {
        Weight { ref_time: 0, proof_size: 0 }
    }

    /// Whether both parts of `self` are strictly greater than those of `other`.
    pub fn all_gt(self, other: Weight) -> (res: bool)
        ensures
            res == (self.ref_time > other.ref_time && self.proof_size > other.proof_size),
    {
        self.ref_time > other.ref_time && self.proof_size > other.proof_size
    }
}

/// The number of parts that make a whole.
pub const PERBILL_ACCURACY: u32 = 1_000_000_000;

/// A fraction between zero and one, in parts per billion.
#[derive(Clone, Copy, Debug, PartialEq, Eq)]
pub struct Perbill {
    parts: u32,
}

impl Perbill {
    #[verifier::type_invariant]
    spec fn in_range(self) -> bool {
        self.parts <= PERBILL_ACCURACY
    }

    /// The number of billionths that the fraction stands for.
    pub closed spec fn parts(self) -> int {
        self.parts as int
    }

    /// The fraction of `parts` billionths; more than a billion parts count as one whole.
    pub fn from_parts(parts: u32) -> (res: Perbill)
        ensures
            res.parts() == (if parts > PERBILL_ACCURACY {
                PERBILL_ACCURACY
            } else {
                parts
            }),
    {
        if parts > PERBILL_ACCURACY {
            Perbill { parts: PERBILL_ACCURACY }
        } else {
            Perbill { parts }
        }
    }

    /// The number of billionths that the fraction stands for.
    pub fn deconstruct(self) -> (res: u32)
        ensures
            res == self.parts(),
            res <= PERBILL_ACCURACY,
    {
        proof {
            use_type_invariant(&self);
        }
        self.parts
    }

    /// The fraction `p / q`, rounded down to a billionth. A fraction that is undefined or above
    /// one counts as one.
    pub fn from_rational(p: u64, q: u64) -> (res: Perbill)
        ensures
            res.parts() == perbill_from_rational_spec(p, q),
    {
        let parts = perbill_from_rational(p, q);
        proof {
            lemma_perbill_from_rational_bounds(p, q);
        }
        Perbill { parts }
    }

    /// This fraction of each part of `weight`, rounded to the nearest integer (an exact half
    /// down). It is never more than `weight`.
    pub fn mul_weight(self, weight: Weight) -> (res: Weight)
        ensures
            res.ref_time == perbill_mul_spec(self.parts() as u32, weight.ref_time),
            res.proof_size == perbill_mul_spec(self.parts() as u32, weight.proof_size),
            res.ref_time <= weight.ref_time,
            res.proof_size <= weight.proof_size,
    {
        proof {
            use_type_invariant(&self);
            lemma_perbill_mul_bounds(self.parts, weight.ref_time);
            lemma_perbill_mul_bounds(self.parts, weight.proof_size);
        }
        perbill_mul_weight(self.parts, weight)
    }
}

/// The fraction `p / q` in parts per billion, rounded down. A fraction that is undefined or
/// above one counts as one.
pub open spec fn perbill_from_rational_spec(p: u64, q: u64) -> int {
    if q == 0 || p > q {
        1_000_000_000
    } else {
        (1_000_000_000 * p) / (q as int)
    }
}

/// `parts` billionths of `x`, rounded to the nearest integer; a result that lies exactly between
/// two integers is rounded down.
pub open spec fn perbill_mul_spec(parts: u32, x: u64) -> int {
    let scaled = x * parts;
    scaled / 1_000_000_000 + if scaled % 1_000_000_000 > 500_000_000 {
        1int
    } else {
        0int
    }
}

/// A fraction is never more than the whole.
pub proof fn lemma_perbill_from_rational_bounds(p: u64, q: u64)
    ensures
        0 <= perbill_from_rational_spec(p, q) <= 1_000_000_000,
        q != 0 && p < q ==> perbill_from_rational_spec(p, q) < 1_000_000_000,
{
    if q != 0 && p <= q {
        let n = 1_000_000_000 * p;
        let d = q as int;
        assert(0 <= n <= 1_000_000_000 * d) by (nonlinear_arith)
            requires
                n == 1_000_000_000 * p,
                0 <= p <= d,
        ;
        vstd::arithmetic::div_mod::lemma_fundamental_div_mod(n, d);
        vstd::arithmetic::div_mod::lemma_mod_bound(n, d);
        assert(0 <= n / d <= 1_000_000_000) by (nonlinear_arith)
            requires
                n == d * (n / d) + n % d,
                0 <= n % d < d,
                0 <= n <= 1_000_000_000 * d,
        ;
        if p < q {
            assert(n <= 1_000_000_000 * d - 1_000_000_000) by (nonlinear_arith)
                requires
                    n == 1_000_000_000 * p,
                    0 <= p <= d - 1,
            ;
            assert(n / d < 1_000_000_000) by (nonlinear_arith)
                requires
                    n == d * (n / d) + n % d,
                    0 <= n % d < d,
                    n <= 1_000_000_000 * d - 1_000_000_000,
            ;
        }
    }
}

/// A fraction of an amount is never more than the amount, and nothing of it when the fraction
/// is zero.
pub proof fn lemma_perbill_mul_bounds(parts: u32, x: u64)
    requires
        parts <= PERBILL_ACCURACY,
    ensures
        0 <= perbill_mul_spec(parts, x) <= x,
        parts == 0 ==> perbill_mul_spec(parts, x) == 0,
        parts == PERBILL_ACCURACY ==> perbill_mul_spec(parts, x) == x,
{
    let scaled = x * parts;
    let acc = 1_000_000_000int;
    assert(0 <= scaled <= x * acc) by (nonlinear_arith)
        requires
            scaled == x * parts,
            0 <= parts <= acc,
            0 <= x,
    ;
    vstd::arithmetic::div_mod::lemma_fundamental_div_mod(scaled, acc);
    vstd::arithmetic::div_mod::lemma_mod_bound(scaled, acc);
    let quot = scaled / acc;
    let rem = scaled % acc;
    assert(quot >= 0 && (rem > 0 ==> quot < x) && quot <= x) by (nonlinear_arith)
        requires
            scaled == acc * quot + rem,
            0 <= rem < acc,
            0 <= scaled <= x * acc,
            acc == 1_000_000_000,
    ;
    if parts == 0 {
        assert(scaled == 0) by (nonlinear_arith)
            requires
                scaled == x * parts,
                parts == 0,
        ;
    }
    if parts == PERBILL_ACCURACY {
        assert(quot == x && rem == 0) by (nonlinear_arith)
            requires
                scaled == acc * quot + rem,
                0 <= rem < acc,
                scaled == x * acc,
                acc == 1_000_000_000,
        ;
    }
}

/// A fraction of an amount can be taken without leaving the range of the amount: from the
/// whole billions of the amount and from what is left of it, each on its own.
pub proof fn lemma_perbill_mul_by_billions(parts: u32, x: u64)
    ensures
        perbill_mul_spec(parts, x) == (x / 1_000_000_000) * parts + ((x % 1_000_000_000) * parts)
            / 1_000_000_000 + (if ((x % 1_000_000_000) * parts) % 1_000_000_000 > 500_000_000 {
            1int
        } else {
            0int
        }),
{
    let acc = 1_000_000_000int;
    let billions = x as int / acc;
    let rest = x as int % acc;
    vstd::arithmetic::div_mod::lemma_fundamental_div_mod(x as int, acc);
    assert(x * parts == acc * (billions * parts) + rest * parts) by (nonlinear_arith)
        requires
            x == acc * billions + rest,
    ;
    vstd::arithmetic::div_mod::lemma_fundamental_div_mod(rest * parts, acc);
    vstd::arithmetic::div_mod::lemma_mod_bound(rest * parts, acc);
    let q = (rest * parts) / acc;
    let r = (rest * parts) % acc;
    assert(x * parts == acc * (billions * parts + q) + r) by (nonlinear_arith)
        requires
            x * parts == acc * (billions * parts) + rest * parts,
            rest * parts == acc * q + r,
    ;
    vstd::arithmetic::div_mod::lemma_fundamental_div_mod_converse(
        x * parts,
        acc,
        billions * parts + q,
        r,
    );
}

/// `sp_runtime::Perbill::from_rational` on two `u64`, given back as its number of parts.
///
/// Trusted: the parts are `floor(10^9 * p / q)`, and `10^9` where `q` is zero or `p > q`.
#[verifier::external_body]
fn perbill_from_rational(p: u64, q: u64) -> (parts: u32)
    ensures
        parts == perbill_from_rational_spec(p, q),
{
    sp_runtime::Perbill::from_rational(p, q).deconstruct()
}

/// The product of a `sp_runtime::Perbill` of `parts` parts and a `frame_support` `Weight`.
///
/// Trusted: each of the two dimensions is multiplied on its own, and the product of a dimension
/// is the nearest integer to `parts * x / 10^9`, an exact half rounded down.
#[verifier::external_body]
fn perbill_mul_weight(parts: u32, weight: Weight) -> (res: Weight)
    requires
        parts <= PERBILL_ACCURACY,
    ensures
        res.ref_time == perbill_mul_spec(parts, weight.ref_time),
        res.proof_size == perbill_mul_spec(parts, weight.proof_size),
{
    let whole = frame_support::weights::Weight::from_parts(weight.ref_time, weight.proof_size);
    let part = sp_runtime::Perbill::from_parts(parts) * whole;
    Weight { ref_time: part.ref_time(), proof_size: part.proof_size() }
}

} // verus!
