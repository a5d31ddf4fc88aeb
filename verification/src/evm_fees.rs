use vstd::prelude::*;

use crate::per_million::{Permill, PERMILL_ACCURACY};

verus! {

/// Reference time, in picoseconds of weight, of one second of execution.
pub const WEIGHT_REF_TIME_PER_SECOND: u64 = 1_000_000_000_000;

/// Current approximation of the gas/s consumption considering EVM execution over
/// compiled WASM (on a 4.4 GHz CPU), with a conservative 500 ms block weight and
/// 75 % of it for normal dispatch: the total EVM execution gas limit is
/// `GAS_PER_SECOND * 0.500 * 0.75 == 15_000_000`.
pub const GAS_PER_SECOND: u64 = 40_000_000;

/// Approximate ratio of the amount of weight per gas.
pub const WEIGHT_PER_GAS: u64 = WEIGHT_REF_TIME_PER_SECOND / GAS_PER_SECOND;

/// Parts per million of block fullness below which the base fee falls as fast as it can.
pub const LOWER_THRESHOLD_PARTS: u32 = 0;

/// Parts per million of block fullness at which the base fee holds steady.
pub const IDEAL_THRESHOLD_PARTS: u32 = 500_000;

/// Parts per million of block fullness above which the base fee rises as fast as it can.
pub const UPPER_THRESHOLD_PARTS: u32 = 1_000_000;

/// Parts per million by which the base fee can move per block.
pub const DEFAULT_ELASTICITY_PARTS: u32 = 125_000;

/// Base fee per gas of a fresh chain, in the smallest unit of the native token.
pub const DEFAULT_BASE_FEE_PER_GAS: u128 = 1_000_000_000;

/// Block fullness thresholds that steer the EVM base fee.
pub struct BaseFeeThreshold;

impl BaseFeeThreshold {
    /// The lower threshold: an empty block.
    pub fn lower() -> (r: Permill)
        ensures
            r@ == LOWER_THRESHOLD_PARTS as nat,
    {
        Permill::zero()
    }

    /// The ideal block fullness: half full.
    pub fn ideal() -> (r: Permill)
        ensures
            r@ == IDEAL_THRESHOLD_PARTS as nat,
    {
        Permill::from_parts(IDEAL_THRESHOLD_PARTS)
    }

    /// The upper threshold: a full block.
    pub fn upper() -> (r: Permill)
        ensures
            r@ == UPPER_THRESHOLD_PARTS as nat,
    {
        Permill::from_parts(UPPER_THRESHOLD_PARTS)
    }
}

/// How far the base fee can move per block.
pub struct DefaultElasticity;

impl DefaultElasticity {
    /// An elasticity of 12.5 %.
    pub fn get() -> (r: Permill)
        ensures
            r@ == DEFAULT_ELASTICITY_PARTS as nat,
    {
        Permill::from_parts(DEFAULT_ELASTICITY_PARTS)
    }
}

/// The base fee per gas that a fresh chain starts from.
pub struct DefaultBaseFeePerGas;

impl DefaultBaseFeePerGas {
    /// One gwei: `1_000_000_000`.
    pub fn get() -> (r: u128)
        ensures
            r == DEFAULT_BASE_FEE_PER_GAS,
    {
        DEFAULT_BASE_FEE_PER_GAS
    }
}

/// The thresholds are ordered, `lower <= ideal <= upper`, lie within a whole, the
/// lower one is an empty block, the upper one a full block, and the ideal one lies
/// halfway between them.
pub proof fn lemma_thresholds_ordered()
    ensures
        LOWER_THRESHOLD_PARTS <= IDEAL_THRESHOLD_PARTS <= UPPER_THRESHOLD_PARTS <= PERMILL_ACCURACY,
        LOWER_THRESHOLD_PARTS == 0,
        UPPER_THRESHOLD_PARTS == PERMILL_ACCURACY,
        2 * IDEAL_THRESHOLD_PARTS == LOWER_THRESHOLD_PARTS + UPPER_THRESHOLD_PARTS,
{
}

/// The weight per gas divides a second of weight exactly: `WEIGHT_PER_GAS` gas-weights
/// times `GAS_PER_SECOND` is one second of reference time, and it is `25_000`.
pub proof fn lemma_weight_per_gas_exact()
    ensures
        WEIGHT_PER_GAS == 25_000,
        WEIGHT_PER_GAS * GAS_PER_SECOND == WEIGHT_REF_TIME_PER_SECOND,
{
}

} // verus!
