//! Block weight and block length limits of the runtime.
//!
//! The runtime gives a block two seconds of compute, lets `Normal` extrinsics fill 75% of
//! it, reserves the rest for `Operational` extrinsics, and assumes that about 10% of a
//! block is consumed by `on_initialize`. `frame_system` derives the final limits from
//! these choices and checks them.
use vstd::prelude::*;
use frame_support::dispatch::DispatchClass::{Normal, Operational, Mandatory};
use frame_support::weights::Weight as SpWeight;
use frame_system::limits::BlockWeights as SpBlockWeights;
use sp_runtime::Perbill as SpPerbill;
use crate::arith::{Perbill, Weight, perbill_of, lemma_perbill_of_le, perbill_from_percent, perbill_mul_weight, weight_sub};

verus! {

/// Five mebibytes: the maximal length of a block, in bytes.
pub const MAX_BLOCK_LENGTH: u32 = 5 * 1024 * 1024;

/// Weight limits of one dispatch class.
#[derive(Clone, Copy, Debug, PartialEq, Eq)]
pub struct WeightsPerClass {
    /// Base weight of a single extrinsic of the class.
    pub base_extrinsic: Weight,
    /// Maximal weight of a single extrinsic, without `base_extrinsic`; `None` is no limit.
    pub max_extrinsic: Option<Weight>,
    /// Maximal total weight of the class in a block; `None` is no limit.
    pub max_total: Option<Weight>,
    /// Weight reserved for the class beyond the block limit; `None` is no reservation
    /// limit.
    pub reserved: Option<Weight>,
}

/// The block weight limits, per dispatch class.
#[derive(Clone, Copy, Debug, PartialEq, Eq)]
pub struct BlockWeights {
    /// Weight of executing an empty block.
    pub base_block: Weight,
    /// Maximal total weight of all extrinsics, `reserved` space excluded.
    pub max_block: Weight,
    pub normal: WeightsPerClass,
    pub operational: WeightsPerClass,
    pub mandatory: WeightsPerClass,
}

/// What the runtime hands to `frame_system`'s block weights builder, besides the base
/// weights of a block and of an extrinsic, which it leaves at the benchmarked values that
/// the builder starts from.
#[derive(Clone, Copy, Debug, PartialEq, Eq)]
pub struct BlockWeightsConfig {
    /// Total weight that `Normal` extrinsics may take.
    pub normal_max_total: Weight,
    /// Total weight that `Operational` extrinsics may take.
    pub operational_max_total: Weight,
    /// Weight reserved for `Operational` extrinsics beyond the block limit.
    pub operational_reserved: Weight,
    /// Share of the block that `on_initialize` is assumed to consume on average.
    pub avg_block_initialization: Perbill,
}

/// What `frame_system`'s builder derives from a `BlockWeightsConfig`: the block limit and
/// the per-extrinsic limits of the `Normal`, `Operational` and `Mandatory` classes.
#[derive(Clone, Copy, Debug, PartialEq, Eq)]
pub struct DerivedWeights {
    pub max_block: Weight,
    pub normal_max_extrinsic: Option<Weight>,
    pub operational_max_extrinsic: Option<Weight>,
    pub mandatory_max_extrinsic: Option<Weight>,
}

/// The block length limits, in bytes, per dispatch class.
#[derive(Clone, Copy, Debug, PartialEq, Eq)]
pub struct BlockLength {
    pub normal: u32,
    pub operational: u32,
    pub mandatory: u32,
    /// Maximal header size; `None` lets `frame_system` use a fifth of the block length.
    pub max_header_size: Option<u32>,
}

/// Component-wise maximum.
pub open spec fn weight_max(a: Weight, b: Weight) -> Weight {
    Weight {
        ref_time: if a.ref_time >= b.ref_time { a.ref_time } else { b.ref_time },
        proof_size: if a.proof_size >= b.proof_size { a.proof_size } else { b.proof_size },
    }
}

/// Component-wise subtraction, stopping at zero.
pub open spec fn weight_saturating_sub(a: Weight, b: Weight) -> Weight {
    Weight {
        ref_time: if a.ref_time >= b.ref_time { (a.ref_time - b.ref_time) as u64 } else { 0 },
        proof_size: if a.proof_size >= b.proof_size {
            (a.proof_size - b.proof_size) as u64
        } else {
            0
        },
    }
}

/// `ratio` of `w`, component by component.
pub open spec fn ratio_of(ratio: Perbill, w: Weight) -> Weight {
    Weight {
        ref_time: perbill_of(ratio.parts as nat, w.ref_time as nat) as u64,
        proof_size: perbill_of(ratio.parts as nat, w.proof_size as nat) as u64,
    }
}

/// The largest single extrinsic of a class: its total, less the average initialization
/// cost of a block, less the base weight of an extrinsic.
pub open spec fn derived_max_extrinsic(max_total: Weight, init: Weight, base: Weight) -> Weight {
    weight_saturating_sub(weight_saturating_sub(max_total, init), base)
}

/// The benchmarked weight of an empty block.
pub open spec fn block_execution_weight_spec() -> Weight {
    Weight { ref_time: 431_614_000, proof_size: 0 }
}

/// The benchmarked weight of a no-op extrinsic.
pub open spec fn extrinsic_base_weight_spec() -> Weight {
    Weight { ref_time: 108_157_000, proof_size: 0 }
}

/// The block weight limits that `frame_system`'s builder makes from `cfg`: the benchmarked
/// base weights; `max_block` the component-wise maximum of the class totals; for `Normal`
/// and `Operational` the configured total, `max_extrinsic` the total less the
/// initialization share of `max_block` less the base extrinsic weight, and the reservation
/// (zero for `Normal`, as the builder starts it); for `Mandatory` no limit at all.
pub open spec fn built_weights(cfg: BlockWeightsConfig) -> BlockWeights {
    let base = extrinsic_base_weight_spec();
    let max_block = weight_max(cfg.normal_max_total, cfg.operational_max_total);
    let init = ratio_of(cfg.avg_block_initialization, max_block);
    BlockWeights {
        base_block: block_execution_weight_spec(),
        max_block,
        normal: WeightsPerClass {
            base_extrinsic: base,
            max_extrinsic: Some(derived_max_extrinsic(cfg.normal_max_total, init, base)),
            max_total: Some(cfg.normal_max_total),
            reserved: Some(weight_zero()),
        },
        operational: WeightsPerClass {
            base_extrinsic: base,
            max_extrinsic: Some(derived_max_extrinsic(cfg.operational_max_total, init, base)),
            max_total: Some(cfg.operational_max_total),
            reserved: Some(cfg.operational_reserved),
        },
        mandatory: WeightsPerClass {
            base_extrinsic: base,
            max_extrinsic: None,
            max_total: None,
            reserved: None,
        },
    }
}

/// The values of `w` that the builder derives rather than takes from its configuration.
pub open spec fn derived_of(w: BlockWeights) -> DerivedWeights {
    DerivedWeights {
        max_block: w.max_block,
        normal_max_extrinsic: w.normal.max_extrinsic,
        operational_max_extrinsic: w.operational.max_extrinsic,
        mandatory_max_extrinsic: w.mandatory.max_extrinsic,
    }
}

/// The limits that the base weights, `cfg` and the derived values make: the configured
/// totals and reservation, with no total or reservation limit for `Mandatory` and a zero
/// reservation for `Normal`.
pub open spec fn assembled_weights(
    base_block: Weight,
    base_extrinsic: Weight,
    cfg: BlockWeightsConfig,
    d: DerivedWeights,
) -> BlockWeights {
    BlockWeights {
        base_block,
        max_block: d.max_block,
        normal: WeightsPerClass {
            base_extrinsic,
            max_extrinsic: d.normal_max_extrinsic,
            max_total: Some(cfg.normal_max_total),
            reserved: Some(weight_zero()),
        },
        operational: WeightsPerClass {
            base_extrinsic,
            max_extrinsic: d.operational_max_extrinsic,
            max_total: Some(cfg.operational_max_total),
            reserved: Some(cfg.operational_reserved),
        },
        mandatory: WeightsPerClass {
            base_extrinsic,
            max_extrinsic: d.mandatory_max_extrinsic,
            max_total: None,
            reserved: None,
        },
    }
}

/// No reference time and no proof size.
pub open spec fn weight_zero() -> Weight {
    Weight { ref_time: 0, proof_size: 0 }
}

/// The largest weight in both components.
pub open spec fn weight_max_value() -> Weight {
    Weight { ref_time: u64::MAX, proof_size: u64::MAX }
}

/// `a` is above `b` in both components.
pub open spec fn all_gt(a: Weight, b: Weight) -> bool {
    a.ref_time > b.ref_time && a.proof_size > b.proof_size
}

/// `a` is at most `b` in both components.
pub open spec fn all_lte(a: Weight, b: Weight) -> bool {
    a.ref_time <= b.ref_time && a.proof_size <= b.proof_size
}

/// The value of an optional weight, or `default` when there is none.
pub open spec fn weight_or(w: Option<Weight>, default: Weight) -> Weight {
    match w {
        Some(v) => v,
        None => default,
    }
}

/// The checks that `frame_system`'s `BlockWeights::validate` makes of one class: a set
/// total exceeds the base block and base extrinsic weights; the largest extrinsic fits in
/// the total less the base extrinsic weight and is not zero; a set reservation exceeds the
/// base extrinsic weight; the block limit holds the total; and the block limit holds one
/// extrinsic on top of the base block weight. A missing total or reservation counts as
/// the largest weight, a missing extrinsic limit as zero where it must fit and as the
/// largest weight where it must not be zero.
pub open spec fn class_valid(base_block: Weight, max_block: Weight, c: WeightsPerClass) -> bool {
    let max_for_class = weight_or(c.max_total, weight_max_value());
    let base = c.base_extrinsic;
    let reserved = weight_or(c.reserved, weight_max_value());
    &&& (all_gt(max_for_class, base_block) && all_gt(max_for_class, base)) || max_for_class
        == weight_zero()
    &&& all_lte(
        weight_or(c.max_extrinsic, weight_zero()),
        weight_saturating_sub(max_for_class, base),
    )
    &&& all_gt(weight_or(c.max_extrinsic, weight_max_value()), weight_zero())
    &&& all_gt(reserved, base) || reserved == weight_zero()
    &&& all_lte(weight_or(c.max_total, weight_zero()), max_block)
    &&& max_block.ref_time > base.ref_time + base_block.ref_time
    &&& max_block.proof_size > base.proof_size + base_block.proof_size
}

/// Whether `frame_system`'s `BlockWeights::validate` accepts `w`: every class passes its
/// checks.
pub open spec fn block_weights_valid(w: BlockWeights) -> bool {
    &&& class_valid(w.base_block, w.max_block, w.normal)
    &&& class_valid(w.base_block, w.max_block, w.operational)
    &&& class_valid(w.base_block, w.max_block, w.mandatory)
}

/// `frame_support::weights::constants::WEIGHT_REF_TIME_PER_SECOND`: one second of
/// reference time, 10^12 picoseconds.
#[verifier::external_body]
fn weight_ref_time_per_second() -> (r: u64)
    ensures
        r == 1_000_000_000_000,
{
    frame_support::weights::constants::WEIGHT_REF_TIME_PER_SECOND
}

/// `frame_support::weights::constants::BlockExecutionWeight::get()`: the benchmarked
/// weight of an empty block, 431_614 nanoseconds and no proof size.
#[verifier::external_body]
fn block_execution_weight() -> (w: Weight)
    ensures
        w == block_execution_weight_spec(),
{
    let w = frame_support::weights::constants::BlockExecutionWeight::get();
    Weight { ref_time: w.ref_time(), proof_size: w.proof_size() }
}

/// `frame_support::weights::constants::ExtrinsicBaseWeight::get()`: the benchmarked weight
/// of a no-op extrinsic, 108_157 nanoseconds and no proof size.
#[verifier::external_body]
fn extrinsic_base_weight() -> (w: Weight)
    ensures
        w == extrinsic_base_weight_spec(),
{
    let w = frame_support::weights::constants::ExtrinsicBaseWeight::get();
    Weight { ref_time: w.ref_time(), proof_size: w.proof_size() }
}

/// `frame_system::limits::BlockWeights::builder()`, given the `Normal` total, the
/// `Operational` total and reservation and the initialization share, then `build()`. The
/// builder starts from the benchmarked base weights (`BlockExecutionWeight`,
/// `ExtrinsicBaseWeight`), no limits for `Mandatory` and zero totals and reservations for
/// the other classes; it makes the limits that `built_weights` describes, and `validate`
/// accepts them exactly when `block_weights_valid` holds of them. Of the built limits the
/// values that the builder derives are handed back: the block limit and the per-extrinsic
/// limits.
#[verifier::external_body]
fn build_block_weights(c: BlockWeightsConfig) -> (r: Option<DerivedWeights>)
    requires
        c.avg_block_initialization.valid(),
    ensures
        r is Some <==> block_weights_valid(built_weights(c)),
        r matches Some(d) ==> d == derived_of(built_weights(c)),
{
    let to = |v: Weight| SpWeight::from_parts(v.ref_time, v.proof_size);
    let of = |v: SpWeight| Weight { ref_time: v.ref_time(), proof_size: v.proof_size() };
    let w = SpBlockWeights::builder()
        .for_class(Normal, |p| p.max_total = Some(to(c.normal_max_total)))
        .for_class(Operational, |p| { p.max_total = Some(to(c.operational_max_total)); p.reserved = Some(to(c.operational_reserved)) })
        .avg_block_initialization(SpPerbill::from_parts(c.avg_block_initialization.parts)).build().ok()?;
    let ext = |k| w.get(k).max_extrinsic.map(of);
    Some(DerivedWeights { max_block: of(w.max_block), normal_max_extrinsic: ext(Normal), operational_max_extrinsic: ext(Operational), mandatory_max_extrinsic: ext(Mandatory) })
}

/// `frame_system::limits::BlockLength::max_with_normal_ratio(max, normal)`: `normal` of
/// `max` (rounded to the nearest integer, ties down) for `Normal`, `max` for `Operational`
/// and `Mandatory`, and no explicit header size.
#[verifier::external_body]
#[allow(deprecated)]
fn block_length_max_with_normal_ratio(max: u32, normal: Perbill) -> (r: BlockLength)
    requires
        normal.valid(),
    ensures
        r.normal == perbill_of(normal.parts as nat, max as nat),
        r.operational == max,
        r.mandatory == max,
        r.max_header_size is None,
{
    let l = frame_system::limits::BlockLength::max_with_normal_ratio(max, SpPerbill::from_parts(normal.parts));
    BlockLength { normal: *l.max.get(Normal), operational: *l.max.get(Operational), mandatory: *l.max.get(Mandatory), max_header_size: l.max_header_size }
}

/// Share of a block assumed to be consumed by `on_initialize` handlers: 10%.
pub fn average_on_initialize_ratio() -> (r: Perbill)
    ensures
        r.parts == 100_000_000,
{
    perbill_from_percent(10)
}

/// Share of a block that `Normal` extrinsics may fill: 75%.
pub fn normal_dispatch_ratio() -> (r: Perbill)
    ensures
        r.parts == 750_000_000,
{
    perbill_from_percent(75)
}

/// Two seconds of compute per block, with no limit on proof size.
pub fn maximum_block_weight() -> (r: Weight)
    ensures
        r == (Weight { ref_time: 2_000_000_000_000, proof_size: u64::MAX }),
{
    let second = weight_ref_time_per_second();
    Weight { ref_time: 2 * second, proof_size: u64::MAX }
}

/// What the runtime hands to the block weights builder: 75% of the maximal block weight
/// for `Normal`, the whole of it for `Operational` with the
/// remaining 25% reserved, and a 10% initialization share.
pub fn runtime_block_weights_config() -> (c: BlockWeightsConfig)
    ensures
        c == runtime_block_weights_config_spec(),
{
    let max = maximum_block_weight();
    let ratio = normal_dispatch_ratio();
    let normal = perbill_mul_weight(ratio, max);
    proof {
        lemma_perbill_of_le(ratio.parts as nat, max.ref_time as nat);
        lemma_perbill_of_le(ratio.parts as nat, max.proof_size as nat);
    }
    let reserved = weight_sub(max, normal);
    BlockWeightsConfig {
        normal_max_total: normal,
        operational_max_total: max,
        operational_reserved: reserved,
        avg_block_initialization: average_on_initialize_ratio(),
    }
}

/// Two seconds of compute per block, with no limit on proof size.
pub open spec fn max_block_weight_spec() -> Weight {
    Weight { ref_time: 2_000_000_000_000, proof_size: u64::MAX }
}

/// The configuration that `runtime_block_weights_config` returns.
pub open spec fn runtime_block_weights_config_spec() -> BlockWeightsConfig {
    let max = max_block_weight_spec();
    let normal = ratio_of(Perbill { parts: 750_000_000 }, max);
    BlockWeightsConfig {
        normal_max_total: normal,
        operational_max_total: max,
        operational_reserved: Weight {
            ref_time: (max.ref_time - normal.ref_time) as u64,
            proof_size: (max.proof_size - normal.proof_size) as u64,
        },
        avg_block_initialization: Perbill { parts: 100_000_000 },
    }
}

/// Puts the base weights, the configuration and the values that `frame_system` derived
/// from it together into the block weight limits.
pub fn assemble_block_weights(
    base_block: Weight,
    base_extrinsic: Weight,
    c: BlockWeightsConfig,
    d: DerivedWeights,
) -> (w: BlockWeights)
    ensures
        w == assembled_weights(base_block, base_extrinsic, c, d),
{
    let zero = Weight { ref_time: 0, proof_size: 0 };
    BlockWeights {
        base_block,
        max_block: d.max_block,
        normal: WeightsPerClass {
            base_extrinsic,
            max_extrinsic: d.normal_max_extrinsic,
            max_total: Some(c.normal_max_total),
            reserved: Some(zero),
        },
        operational: WeightsPerClass {
            base_extrinsic,
            max_extrinsic: d.operational_max_extrinsic,
            max_total: Some(c.operational_max_total),
            reserved: Some(c.operational_reserved),
        },
        mandatory: WeightsPerClass {
            base_extrinsic,
            max_extrinsic: d.mandatory_max_extrinsic,
            max_total: None,
            reserved: None,
        },
    }
}

/// The runtime's block weight limits, as `frame_system` builds them from
/// `runtime_block_weights_config()`; `frame_system` accepts them.
pub fn runtime_block_weights() -> (w: BlockWeights)
    ensures
        w == built_weights(runtime_block_weights_config_spec()),
        block_weights_valid(w),
{
    let c = runtime_block_weights_config();
    proof {
        lemma_runtime_block_weights_valid();
    }
    let d = build_block_weights(c).unwrap();
    let w = assemble_block_weights(block_execution_weight(), extrinsic_base_weight(), c, d);
    assert(w == built_weights(c));
    w
}

/// The runtime's block length limits: five mebibytes, of which `Normal` extrinsics may
/// fill 75%.
pub fn runtime_block_length() -> (r: BlockLength)
    ensures
        r.normal == perbill_of(750_000_000, MAX_BLOCK_LENGTH as nat),
        r.operational == MAX_BLOCK_LENGTH,
        r.mandatory == MAX_BLOCK_LENGTH,
        r.max_header_size is None,
{
    block_length_max_with_normal_ratio(MAX_BLOCK_LENGTH, normal_dispatch_ratio())
}

/// `Normal` extrinsics may take exactly 75% of the two seconds of a block, and what they
/// leave is exactly what is reserved for `Operational` extrinsics: the two add up to the
/// maximal block weight, which is also the `Operational` total.
pub proof fn lemma_normal_and_reserved_fill_block()
    ensures
        runtime_block_weights_config_spec().normal_max_total.ref_time == 1_500_000_000_000,
        runtime_block_weights_config_spec().normal_max_total.ref_time
            + runtime_block_weights_config_spec().operational_reserved.ref_time
            == max_block_weight_spec().ref_time,
        runtime_block_weights_config_spec().normal_max_total.proof_size
            + runtime_block_weights_config_spec().operational_reserved.proof_size
            == max_block_weight_spec().proof_size,
        runtime_block_weights_config_spec().operational_max_total == max_block_weight_spec(),
{
    lemma_perbill_of_le(750_000_000, u64::MAX as nat);
    assert(perbill_of(750_000_000, 2_000_000_000_000) == 1_500_000_000_000);
}

/// The block limit that `frame_system` derives is the maximal block weight: two seconds of
/// compute.
pub proof fn lemma_max_block_is_two_seconds()
    ensures
        built_weights(runtime_block_weights_config_spec()).max_block == max_block_weight_spec(),
{
    lemma_perbill_of_le(750_000_000, u64::MAX as nat);
    lemma_perbill_of_le(750_000_000, 2_000_000_000_000);
}

/// The block weights that `frame_system` builds from the runtime's configuration pass
/// all of its checks, so building them never fails.
pub proof fn lemma_runtime_block_weights_valid()
    ensures
        block_weights_valid(built_weights(runtime_block_weights_config_spec())),
{
    assert(perbill_of(750_000_000, 2_000_000_000_000) == 1_500_000_000_000);
    assert(perbill_of(750_000_000, 18_446_744_073_709_551_615) == 13_835_058_055_282_163_711);
    assert(perbill_of(100_000_000, 2_000_000_000_000) == 200_000_000_000);
    assert(perbill_of(100_000_000, 18_446_744_073_709_551_615) == 1_844_674_407_370_955_161);
}

/// `Normal` extrinsics may fill 3_932_160 bytes of a block: 75% of five mebibytes.
pub proof fn lemma_normal_block_length()
    ensures
        perbill_of(750_000_000, MAX_BLOCK_LENGTH as nat) == 3_932_160,
{
    assert(perbill_of(750_000_000, 5_242_880) == 3_932_160);
}

} // verus!
