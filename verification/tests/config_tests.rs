use runtime_config::author::{AuthorityId, FindAuthorTruncated, H160};
use runtime_config::evm_fees::{
    BaseFeeThreshold, DefaultBaseFeePerGas, DefaultElasticity, GAS_PER_SECOND,
    WEIGHT_PER_GAS, WEIGHT_REF_TIME_PER_SECOND,
};
use runtime_config::per_million::{Permill, PERMILL_ACCURACY};

fn key(seed: u8) -> AuthorityId {
    let mut bytes = [0u8; 32];
    for (i, b) in bytes.iter_mut().enumerate() {
        *b = seed.wrapping_add(i as u8);
    }
    AuthorityId { bytes }
}

#[test]
fn permill_zero_has_no_parts() {
    assert_eq!(Permill::zero().deconstruct(), 0);
}

#[test]
fn permill_from_parts_keeps_parts_within_a_whole() {
    assert_eq!(Permill::from_parts(0).deconstruct(), 0);
    assert_eq!(Permill::from_parts(125_000).deconstruct(), 125_000);
    assert_eq!(Permill::from_parts(1_000_000).deconstruct(), 1_000_000);
}

#[test]
fn permill_from_parts_saturates_above_a_whole() {
    assert_eq!(Permill::from_parts(1_000_001).deconstruct(), PERMILL_ACCURACY);
    assert_eq!(Permill::from_parts(u32::MAX).deconstruct(), PERMILL_ACCURACY);
}

#[test]
fn permill_round_trip() {
    for parts in [0u32, 1, 499_999, 500_000, 999_999, 1_000_000] {
        let p = Permill::from_parts(parts);
        assert_eq!(Permill::from_parts(p.deconstruct()).deconstruct(), parts);
    }
}

#[test]
fn base_fee_thresholds() {
    assert_eq!(BaseFeeThreshold::lower().deconstruct(), 0);
    assert_eq!(BaseFeeThreshold::ideal().deconstruct(), 500_000);
    assert_eq!(BaseFeeThreshold::upper().deconstruct(), 1_000_000);
}

#[test]
fn base_fee_thresholds_ordered_with_ideal_halfway() {
    let lower = BaseFeeThreshold::lower().deconstruct();
    let ideal = BaseFeeThreshold::ideal().deconstruct();
    let upper = BaseFeeThreshold::upper().deconstruct();
    assert!(lower <= ideal && ideal <= upper && upper <= PERMILL_ACCURACY);
    assert_eq!(2 * ideal, lower + upper);
}

#[test]
fn default_elasticity_is_an_eighth() {
    assert_eq!(DefaultElasticity::get().deconstruct(), 125_000);
}

#[test]
fn default_base_fee_is_one_gwei() {
    assert_eq!(DefaultBaseFeePerGas::get(), 1_000_000_000u128);
}

#[test]
fn weight_per_gas_value() {
    assert_eq!(WEIGHT_PER_GAS, 25_000);
    assert_eq!(WEIGHT_PER_GAS * GAS_PER_SECOND, WEIGHT_REF_TIME_PER_SECOND);
}

#[test]
fn block_gas_limit_estimate() {
    assert_eq!(GAS_PER_SECOND * 500 / 1000 * 75 / 100, 15_000_000);
}

#[test]
fn authority_raw_vec_is_the_key() {
    let k = key(7);
    assert_eq!(k.to_raw_vec(), k.bytes.to_vec());
}

#[test]
fn h160_from_slice_copies_bytes() {
    let src: Vec<u8> = (100u8..120).collect();
    let h = H160::from_slice(&src);
    assert_eq!(h.bytes.to_vec(), src);
}

#[test]
fn find_author_without_index_is_none() {
    let authorities = vec![key(0), key(50)];
    assert!(FindAuthorTruncated::find_author(None, &authorities).is_none());
    assert!(FindAuthorTruncated::find_author(None, &Vec::new()).is_none());
}

#[test]
fn find_author_takes_bytes_four_to_twenty_four() {
    let authorities = vec![key(0), key(50), key(200)];
    let address = FindAuthorTruncated::find_author(Some(1), &authorities).unwrap();
    let expected: Vec<u8> = (54u8..74).collect();
    assert_eq!(address.bytes.to_vec(), expected);
    let last = FindAuthorTruncated::find_author(Some(2), &authorities).unwrap();
    assert_eq!(last.bytes.to_vec(), authorities[2].bytes[4..24].to_vec());
}

#[test]
fn find_author_ignores_bytes_outside_the_window() {
    let mut a = key(9);
    let mut b = key(9);
    a.bytes[0] = 1;
    a.bytes[31] = 2;
    b.bytes[3] = 3;
    b.bytes[24] = 4;
    let ra = FindAuthorTruncated::find_author(Some(0), &vec![a]).unwrap();
    let rb = FindAuthorTruncated::find_author(Some(0), &vec![b]).unwrap();
    assert_eq!(ra.bytes, rb.bytes);
    let mut c = key(9);
    c.bytes[23] ^= 0xff;
    let rc = FindAuthorTruncated::find_author(Some(0), &vec![c]).unwrap();
    assert_ne!(ra.bytes, rc.bytes);
}
