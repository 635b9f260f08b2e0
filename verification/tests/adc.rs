use tlsr82xx::adc::{adc_filter_samples, sort_samples, Adc, AdcSample};
use tlsr82xx::startup::PmGlobals;

#[test]
fn filter_averages_middle_four_and_measures_spread() {
    let raw = [100, 200, 300, 400, 500, 600, 700, 800];
    let r = adc_filter_samples(&raw, 1175);
    assert_eq!(r, AdcSample { millivolts: 516, fluctuation_mv: 803 });
}

#[test]
fn filter_ignores_sample_order() {
    let a = [800, 100, 700, 200, 600, 300, 500, 400];
    let b = [100, 200, 300, 400, 500, 600, 700, 800];
    assert_eq!(adc_filter_samples(&a, 1175), adc_filter_samples(&b, 1175));
    assert_eq!(sort_samples(&a), [100, 200, 300, 400, 500, 600, 700, 800]);
}

#[test]
fn negative_samples_count_as_zero_and_all_zero_reads_zero() {
    let raw = [0x2000, 0x3fff, 0, 0, 0, 0, 0, 0];
    assert_eq!(sort_samples(&raw), [0; 8]);
    assert_eq!(adc_filter_samples(&raw, 1175), AdcSample { millivolts: 0, fluctuation_mv: 0 });
}

#[test]
fn gpio_reference_is_read_back_after_set() {
    let adc = Adc::new();
    let mut g = PmGlobals::new();
    assert_eq!(adc.gpio_calibration_vref_mv(&g), 1175);
    adc.set_gpio_calibration_vref_mv(&mut g, 1200);
    assert_eq!(adc.gpio_calibration_vref_mv(&g), 1200);
    assert_eq!(adc.sample_with_fluctuation(), AdcSample { millivolts: 3300, fluctuation_mv: 0 });
}
