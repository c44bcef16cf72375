//! The transport-independent operation facade and the interactive
//! surface's pure rendering: mode selection, context-carrying errors,
//! summary and detail formatting, and subcommand dispatch.

use vstd::prelude::*;
use vstd::string::StringExecFns;

use crate::text::{spec_join, spec_u64_digits, str_views, u64_to_string};
use crate::vm::{
    action_err, parse_action_err, spec_error_message, Multipass, VmError, VmStatusResponse,
    VmSummary,
};

verus! {

/// Which backend services the operations: the local subprocess-backed
/// one, or the planned network one.
#[derive(Debug, Clone, Copy, PartialEq, Eq, Structural)]
pub enum VmMode {
    Local,
    Network,
}

/// Resolves the mode flag's value.  Exactly "local" and "network" are
/// accepted; anything else is reported back.
pub fn resolve_vm_mode(mode: &str) -> (r: Result<VmMode, String>)
    ensures
        mode@ == "local"@ ==> r == Ok::<VmMode, String>(VmMode::Local),
        mode@ == "network"@ ==> r == Ok::<VmMode, String>(VmMode::Network),
        (mode@ != "local"@ && mode@ != "network"@) ==> (r matches Err(m) && m@
            == "unsupported vm mode: "@ + mode@),
{
    proof {
        reveal_strlit("local");
        reveal_strlit("network");
        assert("local"@.len() == 5);
        assert("network"@.len() == 7);
        assert("local"@ != "network"@);
    }
    if crate::json::str_eqs(mode, "local") {
        Ok(VmMode::Local)
    } else if crate::json::str_eqs(mode, "network") {
        Ok(VmMode::Network)
    } else {
        let mut m = "unsupported vm mode: ".to_owned();
        m.append(mode);
        Err(m)
    }
}

/// An operation failure with the human-readable context the facade
/// attached; the underlying error kind is preserved unchanged.
#[derive(Debug, Clone)]
pub struct ApiError {
    pub context: String,
    pub cause: VmError,
}

/// The full rendering of a facade failure: the context, then the
/// underlying cause.
pub open spec fn spec_api_error_message(e: ApiError) -> Seq<char> {
    e.context@ + ": "@ + spec_error_message(e.cause)
}

impl ApiError {
    /// Renders the failure with its context and cause on one line.
    pub fn message(&self) -> (r: String)
        ensures
            r@ == spec_api_error_message(*self),
    {
        let mut s = self.context.clone();
        s.append(": ");
        s.append(self.cause.message().as_str());
        s
    }
}

/// The context line attached to a failing lifecycle verb.
pub open spec fn spec_verb_context(verb: Seq<char>, name: Seq<char>) -> Seq<char> {
    "failed to "@ + verb + " VM "@ + name
}

/// Builds the context line attached to a failing lifecycle verb.
pub fn verb_context(verb: &str, name: &str) -> (r: String)
    ensures
        r@ == spec_verb_context(verb@, name@),
{
    let mut s = "failed to ".to_owned();
    s.append(verb);
    s.append(" VM ");
    s.append(name);
    s
}

/// The typed async operation set both surfaces consume.  Each
/// operation either succeeds or reports a context-carrying error whose
/// cause obeys the adapter's taxonomy.
pub trait VmApi {
    fn launch(&self, name: &str) -> (r: Result<(), ApiError>)
        ensures
            r matches Err(e) ==> e.context@ == spec_verb_context("launch"@, name@) && action_err(
                e.cause,
                "launch"@,
            ),
    ;

    fn start(&self, name: &str) -> (r: Result<(), ApiError>)
        ensures
            r matches Err(e) ==> e.context@ == spec_verb_context("start"@, name@) && action_err(
                e.cause,
                "start"@,
            ),
    ;

    fn stop(&self, name: &str) -> (r: Result<(), ApiError>)
        ensures
            r matches Err(e) ==> e.context@ == spec_verb_context("stop"@, name@) && action_err(
                e.cause,
                "stop"@,
            ),
    ;

    fn restart(&self, name: &str) -> (r: Result<(), ApiError>)
        ensures
            r matches Err(e) ==> e.context@ == spec_verb_context("restart"@, name@) && action_err(
                e.cause,
                "restart"@,
            ),
    ;

    fn delete(&self, name: &str) -> (r: Result<(), ApiError>)
        ensures
            r matches Err(e) ==> e.context@ == spec_verb_context("delete"@, name@) && action_err(
                e.cause,
                "delete"@,
            ),
    ;

    fn info(&self, name: &str) -> (r: Result<VmStatusResponse, ApiError>)
        ensures
            r matches Ok(st) ==> st.name@ == name@,
            r matches Err(e) ==> e.context@ == "failed to get info for VM "@ + name@
                && parse_action_err(e.cause, "info"@, "status"@),
    ;

    fn list(&self) -> (r: Result<Vec<VmSummary>, ApiError>)
        ensures
            r matches Err(e) ==> e.context@ == "failed to list VMs from multipass"@
                && parse_action_err(e.cause, "list"@, "list"@),
    ;
}

/// The local backend: wraps an adapter, adding context to failures
/// without altering their kind.  Stateless above the adapter.
#[derive(Debug, Clone)]
pub struct LocalVmApi<M: Multipass> {
    multipass: M,
}

impl<M: Multipass> LocalVmApi<M> {
    /// Wraps an adapter.
    pub fn new(multipass: M) -> Self {
        LocalVmApi { multipass }
    }
}

impl<M: Multipass> VmApi for LocalVmApi<M> {
    fn launch(&self, name: &str) -> Result<(), ApiError> {
        match self.multipass.launch(name) {
            Ok(()) => Ok(()),
            Err(cause) => Err(ApiError { context: verb_context("launch", name), cause }),
        }
    }

    fn start(&self, name: &str) -> Result<(), ApiError> {
        match self.multipass.start(name) {
            Ok(()) => Ok(()),
            Err(cause) => Err(ApiError { context: verb_context("start", name), cause }),
        }
    }

    fn stop(&self, name: &str) -> Result<(), ApiError> {
        match self.multipass.stop(name) {
            Ok(()) => Ok(()),
            Err(cause) => Err(ApiError { context: verb_context("stop", name), cause }),
        }
    }

    fn restart(&self, name: &str) -> Result<(), ApiError> {
        match self.multipass.restart(name) {
            Ok(()) => Ok(()),
            Err(cause) => Err(ApiError { context: verb_context("restart", name), cause }),
        }
    }

    fn delete(&self, name: &str) -> Result<(), ApiError> {
        match self.multipass.delete(name) {
            Ok(()) => Ok(()),
            Err(cause) => Err(ApiError { context: verb_context("delete", name), cause }),
        }
    }

    fn info(&self, name: &str) -> Result<VmStatusResponse, ApiError> {
        match self.multipass.info(name) {
            Ok(st) => Ok(st),
            Err(cause) => {
                let mut context = "failed to get info for VM ".to_owned();
                context.append(name);
                Err(ApiError { context, cause })
            },
        }
    }

    fn list(&self) -> Result<Vec<VmSummary>, ApiError> {
        match self.multipass.list() {
            Ok(vms) => Ok(vms),
            Err(cause) => Err(
                ApiError { context: "failed to list VMs from multipass".to_owned(), cause },
            ),
        }
    }
}

/// The one-line rendering of a summary: name and state, then the
/// comma-joined addresses when any are present, then the release when
/// present, glued with " | ".
pub open spec fn spec_summary_line(vm: VmSummary) -> Seq<char> {
    let base = vm.name@ + " | "@ + vm.state@;
    let with_ip = match vm.ipv4 {
        Some(addrs) => if addrs@.len() > 0 {
            base + " | "@ + spec_join(str_views(addrs@), ","@)
        } else {
            base
        },
        None => base,
    };
    match vm.release {
        Some(release) => with_ip + " | "@ + release@,
        None => with_ip,
    }
}

/// Renders one summary line for the interactive surface.
pub fn format_vm_summary(vm: &VmSummary) -> (r: String)
    ensures
        r@ == spec_summary_line(*vm),
{
    let mut s = vm.name.clone();
    s.append(" | ");
    s.append(vm.state.as_str());
    match &vm.ipv4 {
        Some(addrs) => {
            if addrs.len() > 0 {
                s.append(" | ");
                s.append(crate::text::join_strings(addrs, ",").as_str());
            }
        },
        None => (),
    }
    match &vm.release {
        Some(release) => {
            s.append(" | ");
            s.append(release.as_str());
        },
        None => (),
    }
    s
}

/// A whole number of mebibytes.
pub open spec fn spec_mib(bytes: u64) -> u64 {
    (bytes / 1048576) as u64
}

/// A whole number of gibibytes.
pub open spec fn spec_gib(bytes: u64) -> u64 {
    (bytes / 1073741824) as u64
}

/// The truncated-integer percentage `used * 100 / total`, zero when
/// the total is zero, clipped to the `u64` range.
pub open spec fn spec_pct(used: u64, total: u64) -> u64 {
    if total == 0 {
        0u64
    } else {
        let q = (used as int) * 100 / (total as int);
        if q > u64::MAX as int {
            u64::MAX
        } else {
            q as u64
        }
    }
}

/// Computes the truncated usage percentage.
pub fn usage_pct(used: u64, total: u64) -> (r: u64)
    ensures
        r == spec_pct(used, total),
{
    if total == 0 {
        0
    } else {
        let q: u128 = (used as u128) * 100 / (total as u128);
        if q > u64::MAX as u128 {
            u64::MAX
        } else {
            q as u64
        }
    }
}

/// The memory line: used and total in whole MiB with the truncated
/// usage percentage.
pub open spec fn spec_memory_line(total: u64, used: u64) -> Seq<char> {
    "Memory: "@ + spec_u64_digits(spec_mib(used) as int) + " MiB / "@ + spec_u64_digits(
        spec_mib(total) as int,
    ) + " MiB ("@ + spec_u64_digits(spec_pct(used, total) as int) + "%)"@
}

/// The disk line: used and total in whole GiB with the truncated
/// usage percentage.
pub open spec fn spec_disk_line(total: u64, used: u64) -> Seq<char> {
    "Disk:   "@ + spec_u64_digits(spec_gib(used) as int) + " GiB / "@ + spec_u64_digits(
        spec_gib(total) as int,
    ) + " GiB ("@ + spec_u64_digits(spec_pct(used, total) as int) + "%)"@
}

/// One optional rendered line.
pub open spec fn seg_line(cond: bool, line: Seq<char>) -> Seq<Seq<char>> {
    if cond {
        seq![line]
    } else {
        Seq::empty()
    }
}

/// Whether the record carries any address to show.
pub open spec fn has_ipv4(info: VmStatusResponse) -> bool {
    match info.ipv4 {
        Some(addrs) => addrs@.len() > 0,
        None => false,
    }
}

/// The joined address list shown on the detail surface.
pub open spec fn spec_ipv4_joined(info: VmStatusResponse) -> Seq<char> {
    match info.ipv4 {
        Some(addrs) => spec_join(str_views(addrs@), ", "@),
        None => Seq::empty(),
    }
}

/// The detail rendering: one line per present field, in fixed order.
pub open spec fn spec_info_lines(info: VmStatusResponse) -> Seq<Seq<char>> {
    seq!["Name:  "@ + info.name@, "State: "@ + info.state@] + seg_line(
        has_ipv4(info),
        "IPv4:  "@ + spec_ipv4_joined(info),
    ) + seg_line(info.release is Some, "Release: "@ + crate::vm::opt_str_view(info.release)->Some_0)
        + seg_line(
        info.image_release is Some,
        "Image:   "@ + crate::vm::opt_str_view(info.image_release)->Some_0,
    ) + seg_line(info.cpu_count is Some, "CPUs:  "@ + crate::vm::opt_str_view(info.cpu_count)->Some_0)
        + seg_line(
        info.memory_total is Some && info.memory_used is Some,
        spec_memory_line(info.memory_total->Some_0, info.memory_used->Some_0),
    ) + seg_line(
        info.disk_total is Some && info.disk_used is Some,
        spec_disk_line(info.disk_total->Some_0, info.disk_used->Some_0),
    )
}

/// Renders the multi-line detail view of one VM.
pub fn format_vm_info(info: &VmStatusResponse) -> (lines: Vec<String>)
    ensures
        str_views(lines@) == spec_info_lines(*info),
{
    let ghost base = seq!["Name:  "@ + info.name@, "State: "@ + info.state@];
    let ghost with_ip = base + seg_line(has_ipv4(*info), "IPv4:  "@ + spec_ipv4_joined(*info));
    let ghost with_release = with_ip + seg_line(
        info.release is Some,
        "Release: "@ + crate::vm::opt_str_view(info.release)->Some_0,
    );
    let ghost with_image = with_release + seg_line(
        info.image_release is Some,
        "Image:   "@ + crate::vm::opt_str_view(info.image_release)->Some_0,
    );
    let ghost with_cpus = with_image + seg_line(
        info.cpu_count is Some,
        "CPUs:  "@ + crate::vm::opt_str_view(info.cpu_count)->Some_0,
    );
    let ghost with_memory = with_cpus + seg_line(
        info.memory_total is Some && info.memory_used is Some,
        spec_memory_line(info.memory_total->Some_0, info.memory_used->Some_0),
    );
    let mut lines: Vec<String> = Vec::new();
    let mut name_line = "Name:  ".to_owned();
    name_line.append(info.name.as_str());
    lines.push(name_line);
    let mut state_line = "State: ".to_owned();
    state_line.append(info.state.as_str());
    lines.push(state_line);
    proof {
        assert(str_views(lines@) =~= base);
    }
    match &info.ipv4 {
        Some(addrs) => {
            if addrs.len() > 0 {
                let mut l = "IPv4:  ".to_owned();
                l.append(crate::text::join_strings(addrs, ", ").as_str());
                lines.push(l);
            }
        },
        None => (),
    }
    proof {
        assert(str_views(lines@) =~= with_ip);
    }
    match &info.release {
        Some(release) => {
            let mut l = "Release: ".to_owned();
            l.append(release.as_str());
            lines.push(l);
        },
        None => (),
    }
    proof {
        assert(str_views(lines@) =~= with_release);
    }
    match &info.image_release {
        Some(image_release) => {
            let mut l = "Image:   ".to_owned();
            l.append(image_release.as_str());
            lines.push(l);
        },
        None => (),
    }
    proof {
        assert(str_views(lines@) =~= with_image);
    }
    match &info.cpu_count {
        Some(cpus) => {
            let mut l = "CPUs:  ".to_owned();
            l.append(cpus.as_str());
            lines.push(l);
        },
        None => (),
    }
    proof {
        assert(str_views(lines@) =~= with_cpus);
    }
    match (info.memory_total, info.memory_used) {
        (Some(total), Some(used)) => {
            let mut l = "Memory: ".to_owned();
            l.append(u64_to_string(used / 1048576).as_str());
            l.append(" MiB / ");
            l.append(u64_to_string(total / 1048576).as_str());
            l.append(" MiB (");
            l.append(u64_to_string(usage_pct(used, total)).as_str());
            l.append("%)");
            lines.push(l);
        },
        _ => (),
    }
    proof {
        assert(str_views(lines@) =~= with_memory);
    }
    match (info.disk_total, info.disk_used) {
        (Some(total), Some(used)) => {
            let mut l = "Disk:   ".to_owned();
            l.append(u64_to_string(used / 1073741824).as_str());
            l.append(" GiB / ");
            l.append(u64_to_string(total / 1073741824).as_str());
            l.append(" GiB (");
            l.append(u64_to_string(usage_pct(used, total)).as_str());
            l.append("%)");
            lines.push(l);
        },
        _ => (),
    }
    proof {
        assert(str_views(lines@) =~= spec_info_lines(*info));
    }
    lines
}

/// The summary lines of a non-empty listing, in order.
pub open spec fn spec_list_lines(vms: Seq<VmSummary>) -> Seq<Seq<char>> {
    Seq::new(vms.len(), |i: int| spec_summary_line(vms[i]))
}

/// Renders the interactive `list` output: one summary line per VM, or
/// the single line "No VMs found" when there is none.
#[verifier::loop_isolation(false)]
pub fn render_list(vms: &Vec<VmSummary>) -> (lines: Vec<String>)
    ensures
        vms@.len() == 0 ==> str_views(lines@) == seq!["No VMs found"@],
        vms@.len() > 0 ==> str_views(lines@) == spec_list_lines(vms@),
{
    if vms.len() == 0 {
        let lines = vec!["No VMs found".to_owned()];
        proof {
            assert(str_views(lines@) =~= seq!["No VMs found"@]);
        }
        return lines;
    }
    let n = vms.len();
    let mut lines: Vec<String> = Vec::new();
    let mut i: usize = 0;
    while i < n
        invariant
            i <= n,
            lines@.len() == i,
            forall|k: int| 0 <= k < i ==> (#[trigger] lines@[k])@ == spec_summary_line(vms@[k]),
        decreases n - i,
    {
        lines.push(format_vm_summary(&vms[i]));
        proof {
            assert(lines@[i as int]@ == spec_summary_line(vms@[i as int]));
        }
        i += 1;
    }
    proof {
        assert(str_views(lines@) =~= spec_list_lines(vms@));
    }
    lines
}

/// The confirmation line of a completed lifecycle verb.
pub open spec fn spec_done_line(done: Seq<char>, name: Seq<char>) -> Seq<char> {
    done + " "@ + name
}

/// Renders the confirmation line of a completed lifecycle verb.
pub fn done_message(done: &str, name: &str) -> (r: String)
    ensures
        r@ == spec_done_line(done@, name@),
{
    let mut s = done.to_owned();
    s.append(" ");
    s.append(name);
    s
}

/// A parsed interactive subcommand.
#[derive(Debug, Clone, PartialEq)]
pub enum VmCommand {
    Launch { name: String },
    Start { name: String },
    Stop { name: String },
    Restart { name: String },
    Delete { name: String },
    Info { name: String },
    List,
}

/// What the interactive surface prints on success, per subcommand.
pub open spec fn subcommand_ok(cmd: VmCommand, lines: Seq<Seq<char>>) -> bool {
    match cmd {
        VmCommand::Launch { name } => lines == seq![spec_done_line("launched"@, name@)],
        VmCommand::Start { name } => lines == seq![spec_done_line("started"@, name@)],
        VmCommand::Stop { name } => lines == seq![spec_done_line("stopped"@, name@)],
        VmCommand::Restart { name } => lines == seq![spec_done_line("restarted"@, name@)],
        VmCommand::Delete { name } => lines == seq![spec_done_line("deleted"@, name@)],
        VmCommand::Info { name } => exists|st: VmStatusResponse|
            lines == #[trigger] spec_info_lines(st) && st.name@ == name@,
        VmCommand::List => lines == seq!["No VMs found"@] || (lines.len() > 0 && exists|
            vms: Seq<VmSummary>,
        | lines == #[trigger] spec_list_lines(vms)),
    }
}

/// What a failing subcommand reports, per subcommand.
pub open spec fn subcommand_err(cmd: VmCommand, e: ApiError) -> bool {
    match cmd {
        VmCommand::Launch { name } => e.context@ == spec_verb_context("launch"@, name@)
            && action_err(e.cause, "launch"@),
        VmCommand::Start { name } => e.context@ == spec_verb_context("start"@, name@) && action_err(
            e.cause,
            "start"@,
        ),
        VmCommand::Stop { name } => e.context@ == spec_verb_context("stop"@, name@) && action_err(
            e.cause,
            "stop"@,
        ),
        VmCommand::Restart { name } => e.context@ == spec_verb_context("restart"@, name@)
            && action_err(e.cause, "restart"@),
        VmCommand::Delete { name } => e.context@ == spec_verb_context("delete"@, name@)
            && action_err(e.cause, "delete"@),
        VmCommand::Info { name } => e.context@ == "failed to get info for VM "@ + name@
            && parse_action_err(e.cause, "info"@, "status"@),
        VmCommand::List => e.context@ == "failed to list VMs from multipass"@ && parse_action_err(
            e.cause,
            "list"@,
            "list"@,
        ),
    }
}

/// Dispatches one interactive subcommand to the facade and renders the
/// outcome as lines for the interactive surface.
pub fn run_vm_subcommand<A: VmApi>(cmd: &VmCommand, api: &A) -> (r: Result<Vec<String>, ApiError>)
    ensures
        r matches Ok(lines) ==> subcommand_ok(*cmd, str_views(lines@)),
        r matches Err(e) ==> subcommand_err(*cmd, e),
{
    match cmd {
        VmCommand::Launch { name } => {
            match api.launch(name.as_str()) {
                Ok(()) => (),
                Err(e) => {
                    return Err(e);
                },
            }
            let lines = vec![done_message("launched", name.as_str())];
            proof {
                assert(str_views(lines@) =~= seq![spec_done_line("launched"@, name@)]);
            }
            Ok(lines)
        },
        VmCommand::Start { name } => {
            match api.start(name.as_str()) {
                Ok(()) => (),
                Err(e) => {
                    return Err(e);
                },
            }
            let lines = vec![done_message("started", name.as_str())];
            proof {
                assert(str_views(lines@) =~= seq![spec_done_line("started"@, name@)]);
            }
            Ok(lines)
        },
        VmCommand::Stop { name } => {
            match api.stop(name.as_str()) {
                Ok(()) => (),
                Err(e) => {
                    return Err(e);
                },
            }
            let lines = vec![done_message("stopped", name.as_str())];
            proof {
                assert(str_views(lines@) =~= seq![spec_done_line("stopped"@, name@)]);
            }
            Ok(lines)
        },
        VmCommand::Restart { name } => {
            match api.restart(name.as_str()) {
                Ok(()) => (),
                Err(e) => {
                    return Err(e);
                },
            }
            let lines = vec![done_message("restarted", name.as_str())];
            proof {
                assert(str_views(lines@) =~= seq![spec_done_line("restarted"@, name@)]);
            }
            Ok(lines)
        },
        VmCommand::Delete { name } => {
            match api.delete(name.as_str()) {
                Ok(()) => (),
                Err(e) => {
                    return Err(e);
                },
            }
            let lines = vec![done_message("deleted", name.as_str())];
            proof {
                assert(str_views(lines@) =~= seq![spec_done_line("deleted"@, name@)]);
            }
            Ok(lines)
        },
        VmCommand::Info { name } => {
            let st = match api.info(name.as_str()) {
                Ok(st) => st,
                Err(e) => {
                    return Err(e);
                },
            };
            let ghost gst = st;
            let lines = format_vm_info(&st);
            proof {
                assert(str_views(lines@) == spec_info_lines(gst));
            }
            Ok(lines)
        },
        VmCommand::List => {
            let vms = match api.list() {
                Ok(vms) => vms,
                Err(e) => {
                    return Err(e);
                },
            };
            let ghost gvms = vms@;
            let lines = render_list(&vms);
            proof {
                if gvms.len() > 0 {
                    assert(str_views(lines@) == spec_list_lines(gvms));
                }
            }
            Ok(lines)
        },
    }
}

} // verus!
