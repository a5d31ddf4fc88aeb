//! Verified parts of a parachain runtime's configuration: the fixed-point
//! share type used by the EVM base-fee thresholds, the thresholds themselves,
//! the gas/weight ratio, and the mapping from an Aura block author to a
//! 20-byte EVM address.

pub mod per_million;

pub mod author;
pub mod evm_fees;
