//! Turning raw gauges into utilization measurements.
use vstd::prelude::*;

use crate::diagnostics::{DiagnosticId, SystemInformationDiagnosticsPlugin, CPU_USAGE_ID, MEM_USAGE_ID};

verus! {

/// A utilization held exactly: `numerator / denominator` percent.
#[derive(Clone, Copy, Debug, PartialEq, Eq, Structural)]
pub struct Percentage {
    pub numerator: u128,
    pub denominator: u128,
}

impl Percentage {
    /// A percentage is well formed when its denominator is positive.
    pub open spec fn wf(self) -> bool {
        self.denominator > 0
    }
}

/// One sample to append to the series named by `id`.
#[derive(Clone, Copy, Debug, PartialEq, Eq, Structural)]
pub struct Measurement {
    pub id: DiagnosticId,
    pub value: Percentage,
}

/// Sum of a sequence of per-core usages.
pub open spec fn total_usage(s: Seq<u32>) -> int
    decreases s.len(),
{
    if s.len() == 0 {
        0
    } else {
        total_usage(s.drop_last()) + s.last()
    }
}

/// The mean of the per-core usages, each given in hundredths of a percent;
/// undefined without any core.
pub open spec fn cpu_usage_of(cores: Seq<u32>) -> Option<Percentage> {
    if cores.len() == 0 {
        None
    } else {
        Some(Percentage { numerator: total_usage(cores) as u128, denominator: (100 * cores.len()) as u128 })
    }
}

/// Used memory as a share of total memory; undefined when the total is zero.
pub open spec fn mem_usage_of(used: u64, total: u64) -> Option<Percentage> {
    if total == 0 {
        None
    } else {
        Some(Percentage { numerator: (100 * used) as u128, denominator: total as u128 })
    }
}

/// The measurement of `id` when its value is defined, as a sequence of at
/// most one item.
pub open spec fn measured(id: u128, value: Option<Percentage>) -> Seq<Measurement> {
    match value {
        Some(p) => seq![Measurement { id: DiagnosticId { id }, value: p }],
        None => Seq::empty(),
    }
}

/// The measurements of one tick: the CPU one first, then the memory one.
pub open spec fn measurements_of(cores: Seq<u32>, used: u64, total: u64) -> Seq<Measurement> {
    measured(CPU_USAGE_ID, cpu_usage_of(cores)) + measured(MEM_USAGE_ID, mem_usage_of(used, total))
}

proof fn lemma_total_usage_bound(s: Seq<u32>)
    ensures
        0 <= total_usage(s) <= s.len() * 0xffff_ffff,
    decreases s.len(),
{
    if s.len() > 0 {
        lemma_total_usage_bound(s.drop_last());
    }
}

/// Average CPU utilization over the cores, each core's usage given in
/// hundredths of a percent.
pub fn average_cpu_usage(cores: &Vec<u32>) -> (r: Option<Percentage>)
    ensures
        r == cpu_usage_of(cores@),
        r matches Some(p) ==> p.wf(),
{
    if cores.len() == 0 {
        return None;
    }
    let mut sum: u128 = 0;
    let mut i: usize = 0;
    while i < cores.len()
        invariant
            0 <= i <= cores@.len(),
            sum == total_usage(cores@.subrange(0, i as int)),
        decreases cores@.len() - i,
    {
        proof {
            let s = cores@.subrange(0, i as int + 1);
            assert(s.drop_last() =~= cores@.subrange(0, i as int));
            lemma_total_usage_bound(cores@.subrange(0, i as int));
            assert((i + 1) * 0xffff_ffff <= 0x1_0000_0000_0000_0000 * 0xffff_ffff) by (nonlinear_arith)
                requires
                    i + 1 <= 0x1_0000_0000_0000_0000,
            ;
        }
        sum = sum + cores[i] as u128;
        i = i + 1;
    }
    assert(cores@.subrange(0, i as int) =~= cores@);
    Some(Percentage { numerator: sum, denominator: 100 * cores.len() as u128 })
}

/// Memory utilization: used bytes as a share of total bytes.
pub fn memory_usage(used: u64, total: u64) -> (r: Option<Percentage>)
    ensures
        r == mem_usage_of(used, total),
        r matches Some(p) ==> p.wf(),
{
    if total == 0 {
        None
    } else {
        Some(Percentage { numerator: 100 * used as u128, denominator: total as u128 })
    }
}

/// The measurements of one sampling tick, from the per-core CPU usages (in
/// hundredths of a percent) and the used and total memory (in bytes).
///
/// The CPU measurement comes first and is left out when there is no core;
/// the memory measurement follows and is left out when the total is zero.
pub fn diagnostic_system(cores: &Vec<u32>, used_memory: u64, total_memory: u64) -> (r: Vec<Measurement>)
    ensures
        r@ == measurements_of(cores@, used_memory, total_memory),
        forall|k: int| 0 <= k < r@.len() ==> (#[trigger] r@[k]).value.wf(),
{
    let mut r: Vec<Measurement> = Vec::new();
    if let Some(p) = average_cpu_usage(cores) {
        r.push(Measurement { id: SystemInformationDiagnosticsPlugin::cpu_usage(), value: p });
    }
    if let Some(p) = memory_usage(used_memory, total_memory) {
        r.push(Measurement { id: SystemInformationDiagnosticsPlugin::mem_usage(), value: p });
    }
    assert(r@ =~= measurements_of(cores@, used_memory, total_memory));
    r
}

} // verus!
