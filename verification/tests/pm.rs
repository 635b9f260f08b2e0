use tlsr82xx::pm::{
    duration_ms_to_32k_ticks, sleep_ms_kind, sys_ticks_to_32k_ticks, ticks_32k_to_sys_ticks, Clock32kSource,
    SleepMsKind, WakeupSource, PM_NORMAL_SLEEP_MAX_MS,
};

#[test]
fn rc_32k_tick_conversion_matches_16mhz_ratio() {
    assert_eq!(ticks_32k_to_sys_ticks(32, Clock32kSource::InternalRc), 16_000);
    assert_eq!(sys_ticks_to_32k_ticks(16_000, Clock32kSource::InternalRc), 32);
}

#[test]
fn xtal_32k_tick_conversion_matches_expected_rounding_window() {
    assert_eq!(ticks_32k_to_sys_ticks(32_768, Clock32kSource::ExternalCrystal), 16_000_000);
    assert_eq!(sys_ticks_to_32k_ticks(16_000_000, Clock32kSource::ExternalCrystal), 32_768);
}

#[test]
fn sleep_ms_uses_short_path_at_threshold_and_long_above() {
    assert_eq!(sleep_ms_kind(PM_NORMAL_SLEEP_MAX_MS), SleepMsKind::Short);
    assert_eq!(sleep_ms_kind(PM_NORMAL_SLEEP_MAX_MS.saturating_add(1)), SleepMsKind::Long);
}

#[test]
fn wakeup_source_can_drop_timer_for_pad_only_sleep() {
    let src = (WakeupSource::pad() | WakeupSource::timer()).without(WakeupSource::timer());
    assert_eq!(src, WakeupSource::pad());
    assert!(!src.contains(WakeupSource::timer()));
}

#[test]
fn duration_ms_to_32k_ticks_scales_by_source_rate() {
    assert_eq!(duration_ms_to_32k_ticks(1000, Clock32kSource::InternalRc), 32_000);
    assert_eq!(duration_ms_to_32k_ticks(1000, Clock32kSource::ExternalCrystal), 32_768);
    assert_eq!(duration_ms_to_32k_ticks(0, Clock32kSource::InternalRc), 1);
}
