//! The HTTP surface's pure half: shared state, wire DTOs mirroring the
//! domain records, and the uniform success/failure envelope both
//! surfaces consume.

use vstd::prelude::*;
use vstd::string::StringExecFns;

use crate::cli::{spec_api_error_message, ApiError, VmApi};
use crate::text::str_views;
use crate::vm::{opt_str_view, opt_strs_view, VmStatusResponse, VmSummary};

verus! {

/// Shared state of the HTTP surface: the facade, read-only after
/// construction and shared across concurrent handlers.
#[derive(Debug, Clone)]
pub struct AppState<A: VmApi> {
    pub vm_api: A,
}

impl<A: VmApi> AppState<A> {
    /// Wraps a facade.
    pub fn new(vm_api: A) -> Self {
        AppState { vm_api }
    }
}

/// Wire DTO for one VM, mirroring `VmStatusResponse` field for field;
/// absent optional fields are omitted from the JSON object rather than
/// sent as null.
#[derive(Debug, Clone, PartialEq)]
pub struct VmStatusDto {
    pub name: String,
    pub state: String,
    pub ipv4: Option<Vec<String>>,
    pub release: Option<String>,
    pub memory_total: Option<u64>,
    pub memory_used: Option<u64>,
    pub disk_total: Option<u64>,
    pub disk_used: Option<u64>,
}

fn clone_strings(v: &Vec<String>) -> (r: Vec<String>)
    ensures
        str_views(r@) == str_views(v@),
{
    let mut out: Vec<String> = Vec::new();
    let n = v.len();
    let mut i: usize = 0;
    while i < n
        invariant
            i <= n,
            n == v@.len(),
            out@.len() == i,
            forall|k: int| 0 <= k < i ==> (#[trigger] out@[k])@ == v@[k]@,
        decreases n - i,
    {
        out.push(v[i].clone());
        i += 1;
    }
    proof {
        assert(str_views(out@) =~= str_views(v@));
    }
    out
}

/// Converts a detail record into its wire DTO, field for field.
pub fn dto_from_status(info: VmStatusResponse) -> (dto: VmStatusDto)
    ensures
        dto.name@ == info.name@,
        dto.state@ == info.state@,
        opt_strs_view(dto.ipv4) == opt_strs_view(info.ipv4),
        opt_str_view(dto.release) == opt_str_view(info.release),
        dto.memory_total == info.memory_total,
        dto.memory_used == info.memory_used,
        dto.disk_total == info.disk_total,
        dto.disk_used == info.disk_used,
{
    VmStatusDto {
        name: info.name,
        state: info.state,
        ipv4: info.ipv4,
        release: info.release,
        memory_total: info.memory_total,
        memory_used: info.memory_used,
        disk_total: info.disk_total,
        disk_used: info.disk_used,
    }
}

/// Converts a summary into its wire DTO; the fields a summary does not
/// carry are absent.
pub fn dto_from_summary(vm: &VmSummary) -> (dto: VmStatusDto)
    ensures
        dto.name@ == vm.name@,
        dto.state@ == vm.state@,
        opt_strs_view(dto.ipv4) == opt_strs_view(vm.ipv4),
        opt_str_view(dto.release) == opt_str_view(vm.release),
        dto.memory_total is None,
        dto.memory_used is None,
        dto.disk_total is None,
        dto.disk_used is None,
{
    VmStatusDto {
        name: vm.name.clone(),
        state: vm.state.clone(),
        ipv4: match &vm.ipv4 {
            Some(addrs) => Some(clone_strings(addrs)),
            None => None,
        },
        release: match &vm.release {
            Some(release) => Some(release.clone()),
            None => None,
        },
        memory_total: None,
        memory_used: None,
        disk_total: None,
        disk_used: None,
    }
}

/// Whether one DTO mirrors one summary.
pub open spec fn dto_matches_summary(dto: VmStatusDto, vm: VmSummary) -> bool {
    &&& dto.name@ == vm.name@
    &&& dto.state@ == vm.state@
    &&& opt_strs_view(dto.ipv4) == opt_strs_view(vm.ipv4)
    &&& opt_str_view(dto.release) == opt_str_view(vm.release)
    &&& dto.memory_total is None
    &&& dto.memory_used is None
    &&& dto.disk_total is None
    &&& dto.disk_used is None
}

/// Converts a listing into wire DTOs, one per summary, in order; an
/// empty listing gives the empty array.
#[verifier::loop_isolation(false)]
pub fn dtos_from_summaries(vms: &Vec<VmSummary>) -> (dtos: Vec<VmStatusDto>)
    ensures
        dtos@.len() == vms@.len(),
        forall|i: int| 0 <= i < vms@.len() ==> dto_matches_summary(#[trigger] dtos@[i], vms@[i]),
{
    let mut dtos: Vec<VmStatusDto> = Vec::new();
    let n = vms.len();
    let mut i: usize = 0;
    while i < n
        invariant
            i <= n,
            dtos@.len() == i,
            forall|k: int| 0 <= k < i ==> dto_matches_summary(#[trigger] dtos@[k], vms@[k]),
        decreases n - i,
    {
        dtos.push(dto_from_summary(&vms[i]));
        i += 1;
    }
    dtos
}

/// The uniform success/failure envelope: both surfaces derive what
/// they present from this one value, so they cannot diverge on what
/// counts as success.
#[derive(Debug, Clone, PartialEq)]
pub struct HandlerResult {
    pub success: bool,
    pub message: String,
}

/// Converts an action outcome into the envelope: success carries the
/// given confirmation, failure carries the error's full rendering.
pub fn envelope_for_action(outcome: Result<(), ApiError>, success_message: String) -> (h:
    HandlerResult)
    ensures
        h.success == (outcome is Ok),
        outcome is Ok ==> h.message@ == success_message@,
        outcome matches Err(e) ==> h.message@ == spec_api_error_message(e),
{
    match outcome {
        Ok(()) => HandlerResult { success: true, message: success_message },
        Err(e) => HandlerResult { success: false, message: e.message() },
    }
}

} // verus!
