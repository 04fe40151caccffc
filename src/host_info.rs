//! The record of host information logged once at startup.
use vstd::prelude::*;

use crate::text::{decimal, decimal_string, gib_string, gib_text, trim, trimmed};

verus! {

/// Host information, every field as display text.
#[derive(Debug)]
pub struct SystemInfo {
    pub os: String,
    pub kernel: String,
    pub cpu: String,
    pub core_count: String,
    pub memory: String,
}

/// Text shown for a value the host does not report.
pub open spec fn not_available() -> Seq<char> {
    "not available"@
}

/// A reported text, or the placeholder when it is missing.
pub open spec fn text_or_not_available(v: Option<String>) -> Seq<char> {
    match v {
        Some(s) => s@,
        None => not_available(),
    }
}

/// A reported count in decimal, or the placeholder when it is missing.
pub open spec fn count_or_not_available(v: Option<usize>) -> Seq<char> {
    match v {
        Some(n) => decimal(n as nat),
        None => not_available(),
    }
}

fn or_not_available(v: Option<String>) -> (r: String)
    ensures
        r@ == text_or_not_available(v),
{
    match v {
        Some(s) => s,
        None => String::from_str("not available"),
    }
}

/// Builds the host information record that is logged at startup.
///
/// The operating system and kernel versions are taken as reported, the CPU
/// brand without surrounding white space, the physical core count in
/// decimal, and the total memory (in bytes) in GiB with one decimal. A value
/// the host does not report reads `not available`.
pub fn log_system_info(
    long_os_version: Option<String>,
    kernel_version: Option<String>,
    cpu_brand: &str,
    physical_core_count: Option<usize>,
    total_memory: u64,
) -> (r: SystemInfo)
    ensures
        r.os@ == text_or_not_available(long_os_version),
        r.kernel@ == text_or_not_available(kernel_version),
        r.cpu@ == trimmed(cpu_brand@),
        r.core_count@ == count_or_not_available(physical_core_count),
        r.memory@ == gib_text(total_memory as nat),
{
    let os = or_not_available(long_os_version);
    let kernel = or_not_available(kernel_version);
    let core_count = match physical_core_count {
        Some(n) => decimal_string(n as u64),
        None => String::from_str("not available"),
    };
    SystemInfo { os, kernel, cpu: trim(cpu_brand), core_count, memory: gib_string(total_memory) }
}

} // verus!
