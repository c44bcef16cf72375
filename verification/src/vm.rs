//! Domain records, the error taxonomy, and the adapter logic that turns
//! lifecycle verbs into tool invocations and tool output into typed
//! records.

use vstd::prelude::*;
use vstd::string::StrSliceExecFns;
use vstd::string::StringExecFns;

use crate::json::{
    json_get, json_get_str, json_get_u64, parse_json, parsed_json, spec_get, spec_get_str,
    spec_get_u64, spec_lookup, spec_str_elems, str_elements, Json,
};
use crate::text::{parse_u64, spec_i64_digits, spec_parse_u64, spec_trim, str_views, trim};

verus! {

/// Request body for spawning a VM over the wire.
#[derive(Debug, Clone, PartialEq)]
pub struct SpawnVmRequest {
    pub name: String,
}

/// Detailed record of one VM, produced by the `info` operation.
/// Optional fields are present exactly when the tool's structured
/// output provides them.
#[derive(Debug, Clone, PartialEq)]
pub struct VmStatusResponse {
    pub name: String,
    pub state: String,
    pub ipv4: Option<Vec<String>>,
    pub release: Option<String>,
    pub image_release: Option<String>,
    pub cpu_count: Option<String>,
    pub memory_total: Option<u64>,
    pub memory_used: Option<u64>,
    pub disk_total: Option<u64>,
    pub disk_used: Option<u64>,
}

impl VmStatusResponse {
    /// A record with only the required fields set.
    pub fn minimal(name: &str, state: &str) -> (r: Self)
        ensures
            r.name@ == name@,
            r.state@ == state@,
            r.ipv4 is None,
            r.release is None,
            r.image_release is None,
            r.cpu_count is None,
            r.memory_total is None,
            r.memory_used is None,
            r.disk_total is None,
            r.disk_used is None,
    {
        VmStatusResponse {
            name: name.to_owned(),
            state: state.to_owned(),
            ipv4: None,
            release: None,
            image_release: None,
            cpu_count: None,
            memory_total: None,
            memory_used: None,
            disk_total: None,
            disk_used: None,
        }
    }
}

/// Summary record of one VM, produced by the `list` operation.
#[derive(Debug, Clone, PartialEq)]
pub struct VmSummary {
    pub name: String,
    pub state: String,
    pub ipv4: Option<Vec<String>>,
    pub release: Option<String>,
}

impl VmSummary {
    /// A summary with only the required fields set.
    pub fn minimal(name: &str, state: &str) -> (r: Self)
        ensures
            r.name@ == name@,
            r.state@ == state@,
            r.ipv4 is None,
            r.release is None,
    {
        VmSummary { name: name.to_owned(), state: state.to_owned(), ipv4: None, release: None }
    }
}

/// Raw result of running the external tool: exit status plus captured
/// output, uninterpreted.
#[derive(Debug, Clone, PartialEq)]
pub struct CommandOutput {
    pub status_code: i32,
    pub stdout: String,
    pub stderr: String,
}

impl CommandOutput {
    /// A successful execution with the given standard output.
    pub fn success(stdout: &str) -> (r: Self)
        ensures
            r.status_code == 0,
            r.stdout@ == stdout@,
            r.stderr@ == Seq::<char>::empty(),
    {
        CommandOutput { status_code: 0, stdout: stdout.to_owned(), stderr: String::new() }
    }
}

/// The error taxonomy.  Every error names the action it occurred
/// during, except process-launch failures, which precede action
/// context.
#[derive(Debug, Clone)]
pub enum VmError {
    /// The requested backend exists but is not implemented.
    NotImplemented,
    /// The process could not be spawned or awaited.
    CommandIo(String),
    /// The process ran and exited with a non-zero status.
    CommandFailed { action: &'static str, status_code: i32, stderr: String },
    /// The process exited with status zero but its output violates the
    /// expected schema.
    InvalidOutput { action: &'static str, reason: String },
}

/// The human-readable rendering of an error.
pub open spec fn spec_error_message(e: VmError) -> Seq<char> {
    match e {
        VmError::NotImplemented => "VM operation not implemented"@,
        VmError::CommandIo(detail) => "failed to execute command: "@ + detail@,
        VmError::CommandFailed { action, status_code, stderr } => "multipass "@ + action@
            + " failed with status "@ + spec_i64_digits(status_code as int) + ": "@ + stderr@,
        VmError::InvalidOutput { action, reason } => "invalid multipass output for "@ + action@
            + ": "@ + reason@,
    }
}

impl VmError {
    /// Renders the error for display.
    pub fn message(&self) -> (r: String)
        ensures
            r@ == spec_error_message(*self),
    {
        match self {
            VmError::NotImplemented => "VM operation not implemented".to_owned(),
            VmError::CommandIo(detail) => {
                let mut s = "failed to execute command: ".to_owned();
                s.append(detail.as_str());
                s
            },
            VmError::CommandFailed { action, status_code, stderr } => {
                let mut s = "multipass ".to_owned();
                s.append(action);
                s.append(" failed with status ");
                s.append(crate::text::i64_to_string(*status_code as i64).as_str());
                s.append(": ");
                s.append(stderr.as_str());
                s
            },
            VmError::InvalidOutput { action, reason } => {
                let mut s = "invalid multipass output for ".to_owned();
                s.append(action);
                s.append(": ");
                s.append(reason.as_str());
                s
            },
        }
    }
}

/// The argument vector for `launch`.
pub open spec fn spec_launch_args(name: Seq<char>) -> Seq<Seq<char>> {
    seq!["launch"@, "--name"@, name]
}

/// The argument vector for a plain verb applied to one VM.
pub open spec fn spec_verb_args(verb: Seq<char>, name: Seq<char>) -> Seq<Seq<char>> {
    seq![verb, name]
}

/// The argument vector for `delete`.
pub open spec fn spec_delete_args(name: Seq<char>) -> Seq<Seq<char>> {
    seq!["delete"@, name, "--purge"@]
}

/// The argument vector for `info`.
pub open spec fn spec_info_args(name: Seq<char>) -> Seq<Seq<char>> {
    seq!["info"@, name, "--format"@, "json"@]
}

/// The argument vector for `list`.
pub open spec fn spec_list_args() -> Seq<Seq<char>> {
    seq!["list"@, "--format"@, "json"@]
}

/// Builds the `launch` argument vector.
pub fn launch_args(name: &str) -> (args: Vec<String>)
    ensures
        str_views(args@) == spec_launch_args(name@),
{
    let args = vec!["launch".to_owned(), "--name".to_owned(), name.to_owned()];
    proof {
        assert(str_views(args@) =~= spec_launch_args(name@));
    }
    args
}

/// Builds the argument vector for `start`, `stop` or `restart`.
pub fn verb_args(verb: &str, name: &str) -> (args: Vec<String>)
    ensures
        str_views(args@) == spec_verb_args(verb@, name@),
{
    let args = vec![verb.to_owned(), name.to_owned()];
    proof {
        assert(str_views(args@) =~= spec_verb_args(verb@, name@));
    }
    args
}

/// Builds the `delete` argument vector; deletion always purges.
pub fn delete_args(name: &str) -> (args: Vec<String>)
    ensures
        str_views(args@) == spec_delete_args(name@),
{
    let args = vec!["delete".to_owned(), name.to_owned(), "--purge".to_owned()];
    proof {
        assert(str_views(args@) =~= spec_delete_args(name@));
    }
    args
}

/// Builds the `info` argument vector, requesting JSON output.
pub fn info_args(name: &str) -> (args: Vec<String>)
    ensures
        str_views(args@) == spec_info_args(name@),
{
    let args = vec!["info".to_owned(), name.to_owned(), "--format".to_owned(), "json".to_owned()];
    proof {
        assert(str_views(args@) =~= spec_info_args(name@));
    }
    args
}

/// Builds the `list` argument vector, requesting JSON output.
pub fn list_args() -> (args: Vec<String>)
    ensures
        str_views(args@) == spec_list_args(),
{
    let args = vec!["list".to_owned(), "--format".to_owned(), "json".to_owned()];
    proof {
        assert(str_views(args@) =~= spec_list_args());
    }
    args
}

/// Decides what a finished execution means: exit status zero passes the
/// output through, any other status is a `CommandFailed` carrying the
/// action, the status and the trimmed diagnostic output.
pub fn command_outcome(action: &'static str, output: CommandOutput) -> (r: Result<
    CommandOutput,
    VmError,
>)
    ensures
        output.status_code == 0 ==> r == Ok::<CommandOutput, VmError>(output),
        output.status_code != 0 ==> (r matches Err(VmError::CommandFailed {
            action: a,
            status_code,
            stderr,
        }) && a@ == action@ && status_code == output.status_code && stderr@ == spec_trim(
            output.stderr@,
        )),
{
    if output.status_code == 0 {
        Ok(output)
    } else {
        let stderr = trim(output.stderr.as_str()).to_owned();
        Err(VmError::CommandFailed { action, status_code: output.status_code, stderr })
    }
}

/// The view of an optional string.
pub open spec fn opt_str_view(o: Option<String>) -> Option<Seq<char>> {
    match o {
        Some(s) => Some(s@),
        None => None,
    }
}

/// The views of an optional list of strings.
pub open spec fn opt_strs_view(o: Option<Vec<String>>) -> Option<Seq<Seq<char>>> {
    match o {
        Some(v) => Some(str_views(v@)),
        None => None,
    }
}

/// The tool's record for `name` inside the top-level "info" object,
/// when that object exists.
pub open spec fn spec_status_entry(root: Json, name: Seq<char>) -> Option<Json> {
    match spec_get(root, "info"@) {
        Some(Json::Obj(entries)) => spec_lookup(entries@, name),
        _ => None,
    }
}

/// Whether an `info` tree satisfies the schema: an "info" object, an
/// entry for the requested name, and a string "state" field in it.
pub open spec fn status_ok_shape(root: Json, name: Seq<char>) -> bool {
    match spec_status_entry(root, name) {
        Some(entry) => spec_get_str(entry, "state"@) is Some,
        None => false,
    }
}

/// The reason reported for an `info` tree that violates the schema:
/// the first requirement it misses.
pub open spec fn spec_status_err_reason(root: Json, name: Seq<char>) -> Seq<char> {
    if !(spec_get(root, "info"@) matches Some(Json::Obj(_))) {
        "missing info object"@
    } else if spec_status_entry(root, name) is None {
        "missing VM entry for "@ + name
    } else {
        "missing VM state"@
    }
}

/// The ipv4 field of a record: the string elements of its "ipv4"
/// array, present only when that array is.
pub open spec fn spec_ipv4_field(entry: Json) -> Option<Seq<Seq<char>>> {
    match spec_get(entry, "ipv4"@) {
        Some(Json::Arr(items)) => Some(spec_str_elems(items@)),
        _ => None,
    }
}

/// A numeric field of the nested "memory" object.
pub open spec fn spec_mem_field(entry: Json, key: Seq<char>) -> Option<u64> {
    match spec_get(entry, "memory"@) {
        Some(m) => spec_get_u64(m, key),
        None => None,
    }
}

/// The first entry of the "disks" object, in the order the parser
/// hands entries out; which physical disk that is is the tool's
/// choice, not a guarantee.
pub open spec fn spec_first_disk(entry: Json) -> Option<Json> {
    match spec_get(entry, "disks"@) {
        Some(Json::Obj(d)) => if d@.len() > 0 {
            Some(d@[0].1)
        } else {
            None
        },
        _ => None,
    }
}

/// A field of the first disk: the tool renders disk sizes as numeric
/// strings, so the value is parsed, and a malformed one counts as
/// absent, not as an error.
pub open spec fn spec_disk_field(entry: Json, key: Seq<char>) -> Option<u64> {
    match spec_first_disk(entry) {
        Some(disk) => match spec_get_str(disk, key) {
            Some(s) => spec_parse_u64(s),
            None => None,
        },
        None => None,
    }
}

/// Every field of a status record extracted as the schema prescribes.
pub open spec fn status_fields_ok(st: VmStatusResponse, root: Json, name: Seq<char>) -> bool {
    let entry = spec_status_entry(root, name)->Some_0;
    &&& st.name@ == name
    &&& Some(st.state@) == spec_get_str(entry, "state"@)
    &&& opt_strs_view(st.ipv4) == spec_ipv4_field(entry)
    &&& opt_str_view(st.release) == spec_get_str(entry, "release"@)
    &&& opt_str_view(st.image_release) == spec_get_str(entry, "image_release"@)
    &&& opt_str_view(st.cpu_count) == spec_get_str(entry, "cpu_count"@)
    &&& st.memory_total == spec_mem_field(entry, "total"@)
    &&& st.memory_used == spec_mem_field(entry, "used"@)
    &&& st.disk_total == spec_disk_field(entry, "total"@)
    &&& st.disk_used == spec_disk_field(entry, "used"@)
}

/// Full statement of what status extraction returns for a given tree:
/// a record with exactly the fields the tree provides when the tree
/// satisfies the schema, and otherwise an `InvalidOutput` for action
/// "status" naming the first missing requirement.
pub open spec fn status_post(name: Seq<char>, root: Json, r: Result<
    VmStatusResponse,
    VmError,
>) -> bool {
    match r {
        Ok(st) => status_ok_shape(root, name) && status_fields_ok(st, root, name),
        Err(e) => {
            &&& !status_ok_shape(root, name)
            &&& e matches VmError::InvalidOutput { action, reason } && action@ == "status"@
                && reason@ == spec_status_err_reason(root, name)
        },
    }
}

/// For every `info` tree that carries a string "state" field for the
/// requested name, extraction succeeds and yields exactly the optional
/// fields the tree provides: an absent optional field maps to an
/// absent value, never to an error.
pub proof fn lemma_status_extraction_total(
    name: Seq<char>,
    root: Json,
    r: Result<VmStatusResponse, VmError>,
)
    requires
        status_ok_shape(root, name),
        status_post(name, root, r),
    ensures
        r is Ok,
        status_fields_ok(r->Ok_0, root, name),
{
}

/// An `info` tree missing the requested name's entry, or missing its
/// "state" field, fails with an `InvalidOutput` for action "status"
/// that names the first missing requirement.
pub proof fn lemma_status_schema_violation_fails(
    name: Seq<char>,
    root: Json,
    r: Result<VmStatusResponse, VmError>,
)
    requires
        !status_ok_shape(root, name),
        status_post(name, root, r),
    ensures
        r is Err,
        r->Err_0 matches VmError::InvalidOutput { action, reason } && action@ == "status"@
            && reason@ == spec_status_err_reason(root, name),
{
}

/// Right after a launch the tool may report nothing but the state: an
/// entry with a "state" field and no optional fields still extracts
/// cleanly, with every optional field absent.  Only a missing "state"
/// is a hard failure.
pub proof fn lemma_minimal_status_entry_extracts(
    name: Seq<char>,
    root: Json,
    r: Result<VmStatusResponse, VmError>,
)
    requires
        status_post(name, root, r),
        status_ok_shape(root, name),
        ({
            let entry = spec_status_entry(root, name)->Some_0;
            &&& spec_get(entry, "ipv4"@) is None
            &&& spec_get(entry, "release"@) is None
            &&& spec_get(entry, "image_release"@) is None
            &&& spec_get(entry, "cpu_count"@) is None
            &&& spec_get(entry, "memory"@) is None
            &&& spec_get(entry, "disks"@) is None
        }),
    ensures
        r is Ok,
        r->Ok_0.ipv4 is None,
        r->Ok_0.release is None,
        r->Ok_0.image_release is None,
        r->Ok_0.cpu_count is None,
        r->Ok_0.memory_total is None,
        r->Ok_0.memory_used is None,
        r->Ok_0.disk_total is None,
        r->Ok_0.disk_used is None,
{
    let st = r->Ok_0;
    let entry = spec_status_entry(root, name)->Some_0;
    assert(opt_strs_view(st.ipv4) == spec_ipv4_field(entry));
    assert(opt_str_view(st.release) == spec_get_str(entry, "release"@));
    assert(opt_str_view(st.image_release) == spec_get_str(entry, "image_release"@));
    assert(opt_str_view(st.cpu_count) == spec_get_str(entry, "cpu_count"@));
}

/// Extracts a status record from a parsed `info` tree.
pub fn extract_status(name: &str, root: &Json) -> (r: Result<VmStatusResponse, VmError>)
    ensures
        status_post(name@, *root, r),
{
    let info = match json_get(root, "info") {
        Some(i) => i,
        None => {
            return Err(
                VmError::InvalidOutput {
                    action: "status",
                    reason: "missing info object".to_owned(),
                },
            );
        },
    };
    match info {
        Json::Obj(_) => (),
        _ => {
            return Err(
                VmError::InvalidOutput {
                    action: "status",
                    reason: "missing info object".to_owned(),
                },
            );
        },
    }
    let entry = match json_get(info, name) {
        Some(e) => e,
        None => {
            let mut reason = "missing VM entry for ".to_owned();
            reason.append(name);
            return Err(VmError::InvalidOutput { action: "status", reason });
        },
    };
    let state = match json_get_str(entry, "state") {
        Some(s) => s.clone(),
        None => {
            return Err(
                VmError::InvalidOutput { action: "status", reason: "missing VM state".to_owned() },
            );
        },
    };
    let ipv4 = match json_get(entry, "ipv4") {
        Some(Json::Arr(items)) => Some(str_elements(items)),
        _ => None,
    };
    let release = match json_get_str(entry, "release") {
        Some(s) => Some(s.clone()),
        None => None,
    };
    let image_release = match json_get_str(entry, "image_release") {
        Some(s) => Some(s.clone()),
        None => None,
    };
    let cpu_count = match json_get_str(entry, "cpu_count") {
        Some(s) => Some(s.clone()),
        None => None,
    };
    let memory_total = match json_get(entry, "memory") {
        Some(m) => json_get_u64(m, "total"),
        None => None,
    };
    let memory_used = match json_get(entry, "memory") {
        Some(m) => json_get_u64(m, "used"),
        None => None,
    };
    let (disk_total, disk_used) = match json_get(entry, "disks") {
        Some(Json::Obj(d)) => {
            if d.len() > 0 {
                let first = &d[0].1;
                let dt = match json_get_str(first, "total") {
                    Some(s) => parse_u64(s.as_str()),
                    None => None,
                };
                let du = match json_get_str(first, "used") {
                    Some(s) => parse_u64(s.as_str()),
                    None => None,
                };
                (dt, du)
            } else {
                (None, None)
            }
        },
        _ => (None, None),
    };
    Ok(
        VmStatusResponse {
            name: name.to_owned(),
            state,
            ipv4,
            release,
            image_release,
            cpu_count,
            memory_total,
            memory_used,
            disk_total,
            disk_used,
        },
    )
}

/// The elements of the top-level "list" array, when it exists.
pub open spec fn spec_list_items(root: Json) -> Option<Seq<Json>> {
    match spec_get(root, "list"@) {
        Some(Json::Arr(items)) => Some(items@),
        _ => None,
    }
}

/// Whether one list element carries the required "name" and "state"
/// string fields.
pub open spec fn elem_ok(item: Json) -> bool {
    spec_get_str(item, "name"@) is Some && spec_get_str(item, "state"@) is Some
}

/// Every field of a summary extracted from one list element.
pub open spec fn summary_fields_ok(vm: VmSummary, item: Json) -> bool {
    &&& Some(vm.name@) == spec_get_str(item, "name"@)
    &&& Some(vm.state@) == spec_get_str(item, "state"@)
    &&& opt_strs_view(vm.ipv4) == spec_ipv4_field(item)
    &&& opt_str_view(vm.release) == spec_get_str(item, "release"@)
}

/// The reason reported for the first list element that misses a
/// required field.
pub open spec fn spec_items_reason(items: Seq<Json>) -> Seq<char>
    decreases items.len(),
{
    if items.len() == 0 {
        Seq::empty()
    } else if !elem_ok(items[0]) {
        if spec_get_str(items[0], "name"@) is None {
            "missing VM name"@
        } else {
            "missing VM state"@
        }
    } else {
        spec_items_reason(items.drop_first())
    }
}

/// The reason reported for a `list` tree that violates the schema.
pub open spec fn spec_list_err_reason(root: Json) -> Seq<char> {
    match spec_list_items(root) {
        None => "missing list array"@,
        Some(items) => spec_items_reason(items),
    }
}

/// Full statement of what list extraction returns for a given tree:
/// one summary per element when every element carries its required
/// fields, and otherwise an `InvalidOutput` for action "list" that
/// fails the whole operation, naming what the first bad element
/// misses.
pub open spec fn list_post(root: Json, r: Result<Vec<VmSummary>, VmError>) -> bool {
    match r {
        Ok(vms) => match spec_list_items(root) {
            Some(items) => vms@.len() == items.len() && (forall|i: int|
                0 <= i < items.len() ==> elem_ok(#[trigger] items[i]) && summary_fields_ok(
                    vms@[i],
                    items[i],
                )),
            None => false,
        },
        Err(e) => {
            &&& e matches VmError::InvalidOutput { action, reason } && action@ == "list"@
                && reason@ == spec_list_err_reason(root)
            &&& match spec_list_items(root) {
                Some(items) => exists|i: int| 0 <= i < items.len() && !elem_ok(#[trigger] items[i]),
                None => true,
            }
        },
    }
}

proof fn lemma_items_reason_step(items: Seq<Json>, i: int)
    requires
        0 <= i < items.len(),
        elem_ok(items[i]),
    ensures
        spec_items_reason(items.skip(i)) == spec_items_reason(items.skip(i + 1)),
{
    assert(items.skip(i)[0] == items[i]);
    assert(items.skip(i).drop_first() =~= items.skip(i + 1));
}

/// Extracts the summaries from a parsed `list` tree.
#[verifier::loop_isolation(false)]
pub fn extract_list(root: &Json) -> (r: Result<Vec<VmSummary>, VmError>)
    ensures
        list_post(*root, r),
{
    let items = match json_get(root, "list") {
        Some(Json::Arr(items)) => items,
        _ => {
            return Err(
                VmError::InvalidOutput { action: "list", reason: "missing list array".to_owned() },
            );
        },
    };
    let n = items.len();
    let mut vms: Vec<VmSummary> = Vec::new();
    let mut i: usize = 0;
    assert(items@.skip(0) =~= items@);
    while i < n
        invariant
            i <= n,
            vms@.len() == i,
            forall|k: int|
                0 <= k < i ==> elem_ok(#[trigger] items@[k]) && summary_fields_ok(
                    vms@[k],
                    items@[k],
                ),
            spec_items_reason(items@) == spec_items_reason(items@.skip(i as int)),
        decreases n - i,
    {
        let item = &items[i];
        proof {
            assert(items@.skip(i as int)[0] == items@[i as int]);
        }
        let name = match json_get_str(item, "name") {
            Some(s) => s.clone(),
            None => {
                return Err(
                    VmError::InvalidOutput {
                        action: "list",
                        reason: "missing VM name".to_owned(),
                    },
                );
            },
        };
        let state = match json_get_str(item, "state") {
            Some(s) => s.clone(),
            None => {
                proof {
                    assert(spec_get_str(items@[i as int], "name"@) is Some);
                    assert(!elem_ok(items@[i as int]));
                    assert(spec_items_reason(items@.skip(i as int)) == "missing VM state"@);
                }
                return Err(
                    VmError::InvalidOutput {
                        action: "list",
                        reason: "missing VM state".to_owned(),
                    },
                );
            },
        };
        let ipv4 = match json_get(item, "ipv4") {
            Some(Json::Arr(a)) => Some(str_elements(a)),
            _ => None,
        };
        let release = match json_get_str(item, "release") {
            Some(s) => Some(s.clone()),
            None => None,
        };
        vms.push(VmSummary { name, state, ipv4, release });
        proof {
            lemma_items_reason_step(items@, i as int);
        }
        i += 1;
    }
    proof {
        assert(items@.skip(n as int) =~= Seq::<Json>::empty());
    }
    Ok(vms)
}

/// Runs an external program and captures its result.  The library
/// leaves this capability open for its users: tests plug in scripted
/// executors, and the real asynchronous executor lives outside the
/// verified code.  Nothing is assumed of an implementation.
pub trait CommandExecutor {
    /// Runs `program` with `args`, capturing exit status, standard
    /// output and standard error in full; `Err` describes a process
    /// that could not be spawned or awaited.
    fn run(&self, program: &str, args: &[String]) -> Result<CommandOutput, String>;
}

/// What any error of a plain lifecycle verb may be: a process that
/// could not run, or a non-zero exit recorded under this action.
pub open spec fn action_err(e: VmError, action: Seq<char>) -> bool {
    match e {
        VmError::CommandIo(_) => true,
        VmError::CommandFailed { action: a, status_code, .. } => a@ == action && status_code != 0,
        _ => false,
    }
}

/// What any error of a parsing verb may be: as `action_err`, or output
/// that violates the schema, recorded under the parse action.
pub open spec fn parse_action_err(e: VmError, action: Seq<char>, parse_action: Seq<char>) -> bool {
    match e {
        VmError::CommandIo(_) => true,
        VmError::CommandFailed { action: a, status_code, .. } => a@ == action && status_code != 0,
        VmError::InvalidOutput { action: a, .. } => a@ == parse_action,
        _ => false,
    }
}

/// The typed operation set against the external virtualization tool.
/// Every error names the action it occurred during, except
/// process-launch failures, which precede action context; the plain
/// verbs never report malformed output.
pub trait Multipass {
    fn launch(&self, name: &str) -> (r: Result<(), VmError>)
        ensures
            r matches Err(e) ==> action_err(e, "launch"@),
    ;

    fn start(&self, name: &str) -> (r: Result<(), VmError>)
        ensures
            r matches Err(e) ==> action_err(e, "start"@),
    ;

    fn stop(&self, name: &str) -> (r: Result<(), VmError>)
        ensures
            r matches Err(e) ==> action_err(e, "stop"@),
    ;

    fn restart(&self, name: &str) -> (r: Result<(), VmError>)
        ensures
            r matches Err(e) ==> action_err(e, "restart"@),
    ;

    fn delete(&self, name: &str) -> (r: Result<(), VmError>)
        ensures
            r matches Err(e) ==> action_err(e, "delete"@),
    ;

    fn info(&self, name: &str) -> (r: Result<VmStatusResponse, VmError>)
        ensures
            r matches Ok(st) ==> st.name@ == name@,
            r matches Err(e) ==> parse_action_err(e, "info"@, "status"@),
    ;

    fn list(&self) -> (r: Result<Vec<VmSummary>, VmError>)
        ensures
            r matches Err(e) ==> parse_action_err(e, "list"@, "list"@),
    ;
}

/// The adapter: builds one fixed argument vector per lifecycle verb,
/// hands it to the injected executor, and turns raw results into typed
/// records or typed errors.  Stateless; shared freely across callers.
#[derive(Debug, Clone)]
pub struct MultipassCli<E: CommandExecutor> {
    executor: E,
}

impl<E: CommandExecutor> MultipassCli<E> {
    /// Wraps an executor.
    pub fn new(executor: E) -> Self {
        MultipassCli { executor }
    }

    /// Runs the tool with the given arguments and applies the uniform
    /// outcome policy: non-zero exit fails with `CommandFailed`, a
    /// spawn failure with `CommandIo`.
    fn run_command(&self, action: &'static str, args: Vec<String>) -> (r: Result<
        CommandOutput,
        VmError,
    >)
        ensures
            r matches Ok(out) ==> out.status_code == 0,
            r matches Err(e) ==> action_err(e, action@),
    {
        match self.executor.run("multipass", args.as_slice()) {
            Ok(out) => command_outcome(action, out),
            Err(detail) => Err(VmError::CommandIo(detail)),
        }
    }
}

impl<E: CommandExecutor> Multipass for MultipassCli<E> {
    fn launch(&self, name: &str) -> Result<(), VmError> {
        match self.run_command("launch", launch_args(name)) {
            Ok(_) => Ok(()),
            Err(e) => Err(e),
        }
    }

    fn start(&self, name: &str) -> Result<(), VmError> {
        match self.run_command("start", verb_args("start", name)) {
            Ok(_) => Ok(()),
            Err(e) => Err(e),
        }
    }

    fn stop(&self, name: &str) -> Result<(), VmError> {
        match self.run_command("stop", verb_args("stop", name)) {
            Ok(_) => Ok(()),
            Err(e) => Err(e),
        }
    }

    fn restart(&self, name: &str) -> Result<(), VmError> {
        match self.run_command("restart", verb_args("restart", name)) {
            Ok(_) => Ok(()),
            Err(e) => Err(e),
        }
    }

    fn delete(&self, name: &str) -> Result<(), VmError> {
        match self.run_command("delete", delete_args(name)) {
            Ok(_) => Ok(()),
            Err(e) => Err(e),
        }
    }

    fn info(&self, name: &str) -> Result<VmStatusResponse, VmError> {
        let out = match self.run_command("info", info_args(name)) {
            Ok(o) => o,
            Err(e) => {
                return Err(e);
            },
        };
        parse_status_output(name, out.stdout.as_str())
    }

    fn list(&self) -> Result<Vec<VmSummary>, VmError> {
        let out = match self.run_command("list", list_args()) {
            Ok(o) => o,
            Err(e) => {
                return Err(e);
            },
        };
        parse_list_output(out.stdout.as_str())
    }
}

/// Parses the text printed by `info` and extracts the status record.
/// Text that is not valid JSON fails with an `InvalidOutput` for
/// action "status" carrying the parser's rendering of the fault.
pub fn parse_status_output(name: &str, output: &str) -> (r: Result<VmStatusResponse, VmError>)
    ensures
        parsed_json(output@) matches Some(root) ==> status_post(name@, root, r),
        parsed_json(output@) is None ==> (r matches Err(VmError::InvalidOutput { action, .. })
            && action@ == "status"@),
{
    match parse_json(output) {
        Ok(root) => extract_status(name, &root),
        Err(detail) => Err(VmError::InvalidOutput { action: "status", reason: detail }),
    }
}

/// Parses the text printed by `list` and extracts the summaries.
/// Text that is not valid JSON fails with an `InvalidOutput` for
/// action "list" carrying the parser's rendering of the fault.
pub fn parse_list_output(output: &str) -> (r: Result<Vec<VmSummary>, VmError>)
    ensures
        parsed_json(output@) matches Some(root) ==> list_post(root, r),
        parsed_json(output@) is None ==> (r matches Err(VmError::InvalidOutput { action, .. })
            && action@ == "list"@),
{
    match parse_json(output) {
        Ok(root) => extract_list(&root),
        Err(detail) => Err(VmError::InvalidOutput { action: "list", reason: detail }),
    }
}

} // verus!
