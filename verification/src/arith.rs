//! Parts-per-billion ratios and two-dimensional weights, as the runtime uses them.
//!
//! `Perbill` and `Weight` hold plain values; the ratio arithmetic on them is done by
//! `sp_runtime::Perbill` and `frame_support::weights::Weight`, reached through the
//! wrappers below.
use vstd::prelude::*;

verus! {

/// The number of parts in a whole `Perbill`.
pub const PERBILL_ACCURACY: u32 = 1_000_000_000;

/// A ratio in `[0, 1]`, held as parts per billion.
#[derive(Clone, Copy, Debug, PartialEq, Eq)]
pub struct Perbill {
    pub parts: u32,
}

impl Perbill {
    /// A ratio is valid when it does not exceed one whole.
    pub open spec fn valid(self) -> bool {
        self.parts <= PERBILL_ACCURACY
    }
}

/// A weight: reference time (picoseconds of execution) and proof size (bytes).
#[derive(Clone, Copy, Debug, PartialEq, Eq)]
pub struct Weight {
    pub ref_time: u64,
    pub proof_size: u64,
}

/// The parts per billion that `Perbill::from_percent(percent)` holds: the percentage is
/// capped at one hundred.
pub open spec fn percent_parts(percent: u32) -> nat {
    (if percent > 100 { 100nat } else { percent as nat }) * 10_000_000
}

/// `parts` per billion of `x`, rounded to the nearest integer, ties rounded down.
pub open spec fn perbill_of(parts: nat, x: nat) -> nat {
    let prod = x * parts;
    prod / 1_000_000_000 + if prod % 1_000_000_000 > 500_000_000 {
        1nat
    } else {
        0nat
    }
}

/// A ratio of at most one whole never takes more than the value it is applied to.
pub proof fn lemma_perbill_of_le(parts: nat, x: nat)
    requires
        parts <= 1_000_000_000,
    ensures
        perbill_of(parts, x) <= x,
{
    let prod = x * parts;
    assert(prod <= x * 1_000_000_000) by (nonlinear_arith)
        requires
            parts <= 1_000_000_000,
            prod == x * parts,
    ;
    let q = prod / 1_000_000_000;
    let r = prod % 1_000_000_000;
    assert(prod == q * 1_000_000_000 + r && 0 <= r < 1_000_000_000) by (nonlinear_arith)
        requires
            q == prod / 1_000_000_000,
            r == prod % 1_000_000_000,
    ;
    assert(q <= x) by (nonlinear_arith)
        requires
            prod == q * 1_000_000_000 + r,
            0 <= r,
            prod <= x * 1_000_000_000,
    ;
    if q == x {
        assert(r == 0) by (nonlinear_arith)
            requires
                prod == q * 1_000_000_000 + r,
                prod <= x * 1_000_000_000,
                q == x,
                0 <= r,
        ;
    }
}

/// `sp_runtime::Perbill::from_percent`: the ratio `percent / 100`, with `percent` capped
/// at one hundred, read back by `deconstruct` as parts per billion.
#[verifier::external_body]
pub(crate) fn perbill_from_percent(percent: u32) -> (r: Perbill)
    ensures
        r.parts == percent_parts(percent),
{
    Perbill { parts: sp_runtime::Perbill::from_percent(percent).deconstruct() }
}

/// `sp_runtime::Perbill * frame_support::weights::Weight`: each component is multiplied
/// by the ratio with the overflow-free multiplication of `Perbill`, which rounds to the
/// nearest integer and rounds ties down.
#[verifier::external_body]
pub(crate) fn perbill_mul_weight(ratio: Perbill, w: Weight) -> (r: Weight)
    requires
        ratio.valid(),
    ensures
        r.ref_time == perbill_of(ratio.parts as nat, w.ref_time as nat),
        r.proof_size == perbill_of(ratio.parts as nat, w.proof_size as nat),
{
    let out = sp_runtime::Perbill::from_parts(ratio.parts) * frame_support::weights::Weight::from_parts(
        w.ref_time,
        w.proof_size,
    );
    Weight { ref_time: out.ref_time(), proof_size: out.proof_size() }
}

/// Component-wise `a - b`; defined when `b` does not exceed `a` in either component.
pub fn weight_sub(a: Weight, b: Weight) -> (r: Weight)
    requires
        b.ref_time <= a.ref_time,
        b.proof_size <= a.proof_size,
    ensures
        r.ref_time == a.ref_time - b.ref_time,
        r.proof_size == a.proof_size - b.proof_size,
{
    Weight { ref_time: a.ref_time - b.ref_time, proof_size: a.proof_size - b.proof_size }
}

} // verus!
