use wavegen::adc::calculate_adc_max;

#[test]
fn twelve_bit_adc_full_scale() {
    assert_eq!(calculate_adc_max(12), 4095);
}

#[test]
fn other_resolutions() {
    assert_eq!(calculate_adc_max(0), 0);
    assert_eq!(calculate_adc_max(1), 1);
    assert_eq!(calculate_adc_max(10), 1023);
    assert_eq!(calculate_adc_max(15), 32767);
}
