//! Behavioral tests for the per-tick derivation: scenarios over partially
//! populated snapshots, percentage rounding, and summary composition.

use npu_tab::derived::{
    composite_summary, memory_fraction_of, memory_subtitle, power_display, usage_clamped,
    DerivedMetrics,
};
use npu_tab::ratio::{guard_div, Ratio};
use npu_tab::snapshot::TelemetrySnapshot;
use npu_tab::text::{dec_string, not_available, or_not_available, percent_string};

fn empty_snapshot() -> TelemetrySnapshot {
    TelemetrySnapshot::empty(String::from("0000:01:00.0"))
}

#[test]
fn usage_only_rounds_to_43_percent() {
    // Scenario: usage 0.4321, no memory or temperature data.
    let mut snap = empty_snapshot();
    snap.usage_fraction = Some(Ratio::new(4321, 10000));
    let d = DerivedMetrics::derive(&snap, &None);
    assert_eq!(d.composite_summary.as_str(), "43 %");
    assert!(d.usage_visible);
    assert!(!d.memory_visible);
    assert_eq!(d.memory_fraction, None);
    assert_eq!(d.usage_fraction_clamped, Ratio::new(4321, 10000));
}

#[test]
fn memory_only_leads_with_marker() {
    // Scenario: memory 4 GB of 8 GB, usage counter absent.
    let mut snap = empty_snapshot();
    snap.memory_total = Some(8_000_000_000);
    snap.memory_used = Some(4_000_000_000);
    let d = DerivedMetrics::derive(&snap, &None);
    assert_eq!(d.composite_summary.as_str(), "N/A · Memory: 50 %");
    assert!(!d.usage_visible);
    assert!(d.memory_visible);
    assert_eq!(
        d.memory_fraction,
        Some(Ratio::new(4_000_000_000, 8_000_000_000))
    );
    assert_eq!(d.usage_fraction_clamped, Ratio::new(0, 1));
}

#[test]
fn zero_total_memory_fraction_is_absent() {
    // Scenario: both byte counts present but the total is zero.
    let mut snap = empty_snapshot();
    snap.memory_total = Some(0);
    snap.memory_used = Some(0);
    let d = DerivedMetrics::derive(&snap, &None);
    assert_eq!(d.memory_fraction, None);
    assert!(!d.memory_visible);
    assert_eq!(d.composite_summary.as_str(), "N/A");
}

#[test]
fn all_absent_collapses_to_marker() {
    // Scenario: every field absent.
    let snap = empty_snapshot();
    let d = DerivedMetrics::derive(&snap, &None);
    assert_eq!(d.composite_summary.as_str(), "N/A");
    assert!(!d.usage_visible);
    assert!(!d.memory_visible);
    assert_eq!(d.usage_fraction_clamped, Ratio::new(0, 1));
}

#[test]
fn derivation_is_idempotent() {
    let make = || {
        let mut snap = empty_snapshot();
        snap.usage_fraction = Some(Ratio::new(77, 100));
        snap.memory_total = Some(16_000_000_000);
        snap.memory_used = Some(4_000_000_000);
        snap.temperature = Some(47_000);
        snap
    };
    let temp = Some(String::from("47.0 °C"));
    let a = DerivedMetrics::derive(&make(), &temp);
    let b = DerivedMetrics::derive(&make(), &temp);
    assert_eq!(a.composite_summary, b.composite_summary);
    assert_eq!(a.usage_fraction_clamped, b.usage_fraction_clamped);
    assert_eq!(a.usage_visible, b.usage_visible);
    assert_eq!(a.memory_fraction, b.memory_fraction);
    assert_eq!(a.memory_visible, b.memory_visible);
}

#[test]
fn full_summary_has_all_three_segments() {
    let mut snap = empty_snapshot();
    snap.usage_fraction = Some(Ratio::new(77, 100));
    snap.memory_total = Some(16_000_000_000);
    snap.memory_used = Some(4_000_000_000);
    snap.temperature = Some(47_000);
    let temp = Some(String::from("47.0 °C"));
    let d = DerivedMetrics::derive(&snap, &temp);
    assert_eq!(d.composite_summary.as_str(), "77 % · Memory: 25 % · 47.0 °C");
}

#[test]
fn temperature_without_usage_keeps_marker_lead() {
    let mut snap = empty_snapshot();
    snap.temperature = Some(36_500);
    let temp = Some(String::from("36.5 °C"));
    let d = DerivedMetrics::derive(&snap, &temp);
    assert_eq!(d.composite_summary.as_str(), "N/A · 36.5 °C");
}

#[test]
fn present_zero_usage_renders_as_zero_percent() {
    // A present zero reading and an absent reading must stay distinguishable.
    let mut snap = empty_snapshot();
    snap.usage_fraction = Some(Ratio::new(0, 1));
    let d = DerivedMetrics::derive(&snap, &None);
    assert_eq!(d.composite_summary.as_str(), "0 %");
    assert!(d.usage_visible);
}

#[test]
fn usage_clamped_defaults_to_zero() {
    assert_eq!(usage_clamped(&None), Ratio::new(0, 1));
    assert_eq!(
        usage_clamped(&Some(Ratio::new(3, 4))),
        Ratio::new(3, 4)
    );
}

#[test]
fn memory_fraction_cases() {
    assert_eq!(
        memory_fraction_of(&Some(10), &Some(5)),
        Some(Ratio::new(5, 10))
    );
    assert_eq!(memory_fraction_of(&Some(0), &Some(5)), None);
    assert_eq!(memory_fraction_of(&None, &Some(5)), None);
    assert_eq!(memory_fraction_of(&Some(10), &None), None);
    assert_eq!(memory_fraction_of(&None, &None), None);
}

#[test]
fn guard_normalizes_zero_denominator() {
    assert_eq!(guard_div(5, 0), Ratio::new(0, 1));
    assert_eq!(guard_div(5, 8), Ratio::new(5, 8));
}

#[test]
fn percent_rounding_is_half_up() {
    assert_eq!(percent_string(&Ratio::new(4321, 10000)).as_str(), "43 %");
    assert_eq!(percent_string(&Ratio::new(1, 2)).as_str(), "50 %");
    // 0.5 % rounds up to 1 %.
    assert_eq!(percent_string(&Ratio::new(1, 200)).as_str(), "1 %");
    // 43.5 % rounds up to 44 %.
    assert_eq!(percent_string(&Ratio::new(435, 1000)).as_str(), "44 %");
    assert_eq!(percent_string(&Ratio::new(0, 1)).as_str(), "0 %");
    assert_eq!(percent_string(&Ratio::new(1, 1)).as_str(), "100 %");
    // A fraction above one renders above one hundred, unclamped.
    assert_eq!(percent_string(&Ratio::new(3, 2)).as_str(), "150 %");
}

#[test]
fn decimal_rendering_is_exact() {
    assert_eq!(dec_string(0).as_str(), "0");
    assert_eq!(dec_string(7).as_str(), "7");
    assert_eq!(dec_string(10).as_str(), "10");
    assert_eq!(dec_string(12345).as_str(), "12345");
    assert_eq!(
        dec_string(u64::MAX as u128).as_str(),
        "18446744073709551615"
    );
}

#[test]
fn power_display_composes_independently() {
    let draw = Some(String::from("15.00 W"));
    let cap = Some(String::from("20.00 W"));
    assert_eq!(power_display(&draw, &cap).as_str(), "15.00 W / 20.00 W");
    assert_eq!(power_display(&draw, &None).as_str(), "15.00 W");
    // The limit suffix appears even when the draw itself is unreadable.
    assert_eq!(power_display(&None, &cap).as_str(), "N/A / 20.00 W");
    assert_eq!(power_display(&None, &None).as_str(), "N/A");
}

#[test]
fn memory_subtitle_composition() {
    let used = Some(String::from("4.0 GB"));
    let total = Some(String::from("8.0 GB"));
    let frac = Some(Ratio::new(4_000_000_000, 8_000_000_000));
    assert_eq!(
        memory_subtitle(&used, &total, &frac).as_str(),
        "4.0 GB / 8.0 GB · 50 %"
    );
    // A zero total leaves the fraction undefined: the percentage renders as
    // the marker, never as 0 %.
    let z_used = Some(String::from("0 B"));
    let z_total = Some(String::from("0 B"));
    assert_eq!(
        memory_subtitle(&z_used, &z_total, &None).as_str(),
        "0 B / 0 B · N/A"
    );
    assert_eq!(memory_subtitle(&None, &None, &None).as_str(), "N/A");
}

#[test]
fn composite_summary_segments_never_reorder() {
    let mem = Some(Ratio::new(1, 4));
    let temp = Some(String::from("40.0 °C"));
    let s = composite_summary(&Some(Ratio::new(1, 2)), &mem, &temp);
    assert_eq!(s.as_str(), "50 % · Memory: 25 % · 40.0 °C");
    let s = composite_summary(&None, &mem, &None);
    assert_eq!(s.as_str(), "N/A · Memory: 25 %");
}

#[test]
fn or_not_available_passes_text_through() {
    assert_eq!(
        or_not_available(&Some(String::from("1.40 GHz"))).as_str(),
        "1.40 GHz"
    );
    assert_eq!(or_not_available(&None).as_str(), "N/A");
    assert_eq!(not_available().as_str(), "N/A");
}
