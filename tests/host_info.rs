use system_diagnostics::host_info::log_system_info;
use system_diagnostics::text::{decimal_string, gib_string, trim};

#[test]
fn reported_values_are_kept() {
    let info = log_system_info(
        Some(String::from("Linux 22.04 Ubuntu")),
        Some(String::from("6.1.0")),
        "  AMD Ryzen 7 5800X 8-Core Processor  ",
        Some(8),
        17179869184,
    );
    assert_eq!(info.os, "Linux 22.04 Ubuntu");
    assert_eq!(info.kernel, "6.1.0");
    assert_eq!(info.cpu, "AMD Ryzen 7 5800X 8-Core Processor");
    assert_eq!(info.core_count, "8");
    assert_eq!(info.memory, "16.0 GiB");
}

#[test]
fn missing_values_read_not_available() {
    let info = log_system_info(None, None, "", None, 0);
    assert_eq!(info.os, "not available");
    assert_eq!(info.kernel, "not available");
    assert_eq!(info.cpu, "");
    assert_eq!(info.core_count, "not available");
    assert_eq!(info.memory, "0.0 GiB");
}

#[test]
fn record_prints_as_a_struct() {
    let info = log_system_info(None, Some(String::from("5.15")), "x", Some(4), 1073741824);
    assert_eq!(
        format!("{:?}", info),
        "SystemInfo { os: \"not available\", kernel: \"5.15\", cpu: \"x\", core_count: \"4\", memory: \"1.0 GiB\" }"
    );
}

#[test]
fn trim_removes_unicode_white_space_at_both_ends() {
    assert_eq!(trim(" \t\n cpu \r\u{3000}"), "cpu");
    assert_eq!(trim("\u{a0}a b\u{2009}"), "a b");
    assert_eq!(trim("   "), "");
    assert_eq!(trim("x\u{200b}"), "x\u{200b}");
}

#[test]
fn decimal_numbers() {
    assert_eq!(decimal_string(0), "0");
    assert_eq!(decimal_string(7), "7");
    assert_eq!(decimal_string(10), "10");
    assert_eq!(decimal_string(305), "305");
    assert_eq!(decimal_string(u64::MAX), "18446744073709551615");
}

#[test]
fn gib_rounds_to_the_nearest_tenth() {
    assert_eq!(gib_string(1073741824), "1.0 GiB");
    assert_eq!(gib_string(1610612736), "1.5 GiB");
    assert_eq!(gib_string(16_700_000_000), "15.6 GiB");
    assert_eq!(gib_string(107374182), "0.1 GiB");
    assert_eq!(gib_string(53687090), "0.0 GiB");
    assert_eq!(gib_string(53687092), "0.1 GiB");
}

#[test]
fn gib_ties_go_to_even() {
    assert_eq!(gib_string(268435456), "0.2 GiB");
    assert_eq!(gib_string(805306368), "0.8 GiB");
    assert_eq!(gib_string(1342177280), "1.2 GiB");
}

#[test]
fn gib_of_the_largest_size() {
    assert_eq!(gib_string(u64::MAX), "17179869184.0 GiB");
}
