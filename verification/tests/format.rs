//! Tests for the memory sample data model and the label-text rendering.

use memory_overlay::snapshot::{MemorySnapshot, SysData};
use memory_overlay::textfmt::{format_memory_text, gib_hundredths};

#[test]
fn zero_total_formats_without_division_error() {
    let s = MemorySnapshot::zeroed();
    let text = format_memory_text(&s);
    assert_eq!(text, "Memory: 0% (0.00G / 0.00G)");
}

#[test]
fn half_used_sixteen_gib() {
    let s = MemorySnapshot { total_bytes: 17179869184, used_bytes: 8589934592, load_percent: 50 };
    let text = format_memory_text(&s);
    assert_eq!(text, "Memory: 50% (8.00G / 16.00G)");
}

#[test]
fn one_and_a_half_gib_total() {
    let s = MemorySnapshot { total_bytes: 1610612736, used_bytes: 0, load_percent: 0 };
    let text = format_memory_text(&s);
    assert_eq!(text, "Memory: 0% (0.00G / 1.50G)");
}

#[test]
fn full_load_formats_three_digit_percent() {
    let s = MemorySnapshot { total_bytes: 1073741824, used_bytes: 1073741824, load_percent: 100 };
    let text = format_memory_text(&s);
    assert_eq!(text, "Memory: 100% (1.00G / 1.00G)");
}

#[test]
fn largest_total_formats_exactly() {
    let s = MemorySnapshot {
        total_bytes: u64::MAX,
        used_bytes: u64::MAX,
        load_percent: 100,
    };
    let text = format_memory_text(&s);
    assert_eq!(text, "Memory: 100% (17179869184.00G / 17179869184.00G)");
}

#[test]
fn hundredths_round_half_up() {
    // 5368709.12 bytes make one hundredth of a gibibyte; one byte above the
    // midpoint rounds up, the midpoint itself stays down.
    assert_eq!(gib_hundredths(5368710), 1);
    assert_eq!(gib_hundredths(5368709), 0);
    assert_eq!(gib_hundredths(0), 0);
    assert_eq!(gib_hundredths(1073741824), 100);
    assert_eq!(gib_hundredths(1610612736), 150);
}

#[test]
fn sys_data_from_raw_subtracts_available() {
    let d = SysData::from_raw(17179869184, 8589934592, 50);
    assert_eq!(d.mem_total, 17179869184);
    assert_eq!(d.mem_used, 8589934592);
    assert_eq!(d.memory_load, 50);
}

#[test]
fn sys_data_from_raw_degrades_on_excess_available() {
    let d = SysData::from_raw(100, 200, 10);
    assert_eq!(d.mem_used, 0);
    assert_eq!(d.mem_total, 100);
}

#[test]
fn sys_data_default_is_zeroed() {
    let d = SysData::default();
    assert_eq!(d.mem_used, 0);
    assert_eq!(d.mem_total, 0);
    assert_eq!(d.memory_load, 0);
}

#[test]
fn snapshot_validation_caps_used_and_load() {
    let d = SysData { mem_used: 10, mem_total: 5, memory_load: 200 };
    let s = MemorySnapshot::from_sys(&d);
    assert_eq!(s.total_bytes, 5);
    assert_eq!(s.used_bytes, 5);
    assert_eq!(s.load_percent, 100);
}

#[test]
fn failed_query_samples_to_zero() {
    let s = MemorySnapshot::sample_from(None);
    assert_eq!(s, MemorySnapshot::zeroed());
    let text = format_memory_text(&s);
    assert_eq!(text, "Memory: 0% (0.00G / 0.00G)");
}

#[test]
fn successful_query_samples_to_validated_snapshot() {
    let d = SysData { mem_used: 8589934592, mem_total: 17179869184, memory_load: 50 };
    let s = MemorySnapshot::sample_from(Some(d));
    assert_eq!(s.total_bytes, 17179869184);
    assert_eq!(s.used_bytes, 8589934592);
    assert_eq!(s.load_percent, 50);
}
