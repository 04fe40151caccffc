//! The two diagnostics published by the plugin and their descriptors.
use vstd::prelude::*;

verus! {

/// Stable identifier of a diagnostic series.
#[derive(Clone, Copy, Debug, PartialEq, Eq, Structural)]
pub struct DiagnosticId {
    pub id: u128,
}

/// Identifier of the CPU utilization series.
pub const CPU_USAGE_ID: u128 = 78494871623549551581510633532637320956;

/// Identifier of the memory utilization series.
pub const MEM_USAGE_ID: u128 = 42846254859293759601295317811892519825;

/// Number of measurements each series keeps.
pub const MAX_HISTORY_LENGTH: usize = 20;

/// Descriptor of a diagnostic series, as registered once at startup.
#[derive(Debug)]
pub struct Diagnostic {
    pub id: DiagnosticId,
    pub name: String,
    pub max_history_length: usize,
    pub suffix: String,
}

/// `d` describes the percentage series `name` identified by `id`.
pub open spec fn describes(d: Diagnostic, id: u128, name: Seq<char>) -> bool {
    &&& d.id.id == id
    &&& d.name@ == name
    &&& d.max_history_length == MAX_HISTORY_LENGTH
    &&& d.suffix@ == "%"@
}

fn percentage_series(id: DiagnosticId, name: &str) -> (r: Diagnostic)
    ensures
        describes(r, id.id, name@),
{
    Diagnostic {
        id,
        name: String::from_str(name),
        max_history_length: MAX_HISTORY_LENGTH,
        suffix: String::from_str("%"),
    }
}

/// The descriptors to register at startup: `cpu_usage` then `mem_usage`,
/// both in percent.
pub fn setup_system() -> (r: Vec<Diagnostic>)
    ensures
        r@.len() == 2,
        describes(r@[0], CPU_USAGE_ID, "cpu_usage"@),
        describes(r@[1], MEM_USAGE_ID, "mem_usage"@),
{
    let mut r: Vec<Diagnostic> = Vec::new();
    r.push(percentage_series(SystemInformationDiagnosticsPlugin::cpu_usage(), "cpu_usage"));
    r.push(percentage_series(SystemInformationDiagnosticsPlugin::mem_usage(), "mem_usage"));
    r
}

/// Plugin that publishes host CPU and memory utilization, both in percent.
#[derive(Default)]
pub struct SystemInformationDiagnosticsPlugin;

impl SystemInformationDiagnosticsPlugin {
    /// Identifier of the CPU utilization series.
    pub fn cpu_usage() -> (r: DiagnosticId)
        ensures
            r.id == CPU_USAGE_ID,
    {
        DiagnosticId { id: CPU_USAGE_ID }
    }

    /// Identifier of the memory utilization series.
    pub fn mem_usage() -> (r: DiagnosticId)
        ensures
            r.id == MEM_USAGE_ID,
    {
        DiagnosticId { id: MEM_USAGE_ID }
    }
}

} // verus!
