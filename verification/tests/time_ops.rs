use repac_splitter::timeops::bonus_centis;
use repac_splitter::timeops::centis_to_nanos;
use repac_splitter::timeops::sat_add_i64;
use repac_splitter::timeops::sat_sub_i64;

#[test]
fn exact_arithmetic_in_range() {
    assert_eq!(sat_add_i64(3000, -500), 2500);
    assert_eq!(sat_sub_i64(3000, 500), 2500);
    assert_eq!(centis_to_nanos(250), 2_500_000_000);
    assert_eq!(centis_to_nanos(-250), -2_500_000_000);
    assert_eq!(bonus_centis(10), 1000);
}

#[test]
fn out_of_range_results_saturate() {
    assert_eq!(sat_add_i64(i64::MAX, 1), i64::MAX);
    assert_eq!(sat_sub_i64(i64::MIN, 1), i64::MIN);
    assert_eq!(centis_to_nanos(i64::MAX), i64::MAX);
    assert_eq!(centis_to_nanos(i64::MIN), i64::MIN);
    assert_eq!(bonus_centis(u64::MAX), i64::MAX);
}
