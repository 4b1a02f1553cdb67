//! The sidecar supervisor: what is launched, with which arguments, and what
//! follows from each outcome of resolving and spawning it.

use vstd::prelude::*;
use vstd::string::*;
use crate::resources::{resolve_spec, ResourceEntryView, ResourceTable};
use crate::text::{copy_texts, texts};

verus! {

/// What to launch: the logical name of a packaged executable and the
/// arguments it is started with. Fixed once built.
#[derive(Debug, Clone, PartialEq, Eq)]
pub struct SidecarSpec {
    binary: String,
    args: Vec<String>,
}

/// What a [`SidecarSpec`] holds, as character sequences.
pub struct SidecarSpecView {
    pub binary: Seq<char>,
    pub args: Seq<Seq<char>>,
}

impl View for SidecarSpec {
    type V = SidecarSpecView;

    closed spec fn view(&self) -> SidecarSpecView {
        SidecarSpecView { binary: self.binary@, args: texts(self.args@) }
    }
}

impl SidecarSpec {
    /// The launch of `binary` with `args`, which reach the process as they
    /// are: in this order and uninterpreted.
    pub fn new(binary: &str, args: Vec<String>) -> (spec: SidecarSpec)
        ensures
            spec@ == (SidecarSpecView { binary: binary@, args: texts(args@) }),
    {
        SidecarSpec { binary: String::from_str(binary), args }
    }

    /// The backend service shipped with the application, in development
    /// mode and with dynamic clusters enabled.
    pub fn bundled_server() -> (spec: SidecarSpec)
        ensures
            spec@ == (SidecarSpecView {
                binary: "headlamp-server"@,
                args: seq!["-dev"@, "-enable-dynamic-clusters"@],
            }),
    {
        let mut args: Vec<String> = Vec::new();
        args.push(String::from_str("-dev"));
        args.push(String::from_str("-enable-dynamic-clusters"));
        assert(texts(args@) =~= seq!["-dev"@, "-enable-dynamic-clusters"@]);
        SidecarSpec { binary: String::from_str("headlamp-server"), args }
    }

    /// The logical name of the executable.
    pub fn binary(&self) -> (binary: &str)
        ensures
            binary@ == self@.binary,
    {
        self.binary.as_str()
    }

    /// The arguments, in order.
    pub fn args(&self) -> (args: &Vec<String>)
        ensures
            texts(args@) == self@.args,
    {
        &self.args
    }

    /// The request that starts this sidecar from the executable at
    /// `program`.
    pub fn request(&self, program: String) -> (request: SpawnRequest)
        ensures
            request@ == request_for(self@, program@),
    {
        SpawnRequest { program, args: copy_texts(&self.args) }
    }
}

/// What is handed to the operating system to start the sidecar: the
/// executable and its arguments.
#[derive(Debug, Clone, PartialEq, Eq)]
pub struct SpawnRequest {
    program: String,
    args: Vec<String>,
}

/// What a [`SpawnRequest`] holds, as character sequences.
pub struct SpawnRequestView {
    pub program: Seq<char>,
    pub args: Seq<Seq<char>>,
}

impl View for SpawnRequest {
    type V = SpawnRequestView;

    closed spec fn view(&self) -> SpawnRequestView {
        SpawnRequestView { program: self.program@, args: texts(self.args@) }
    }
}

impl SpawnRequest {
    /// The path of the executable to start.
    pub fn program(&self) -> (program: &str)
        ensures
            program@ == self@.program,
    {
        self.program.as_str()
    }

    /// The arguments to start it with, in order.
    pub fn args(&self) -> (args: &Vec<String>)
        ensures
            texts(args@) == self@.args,
    {
        &self.args
    }
}

/// Why the sidecar is not running. Either way the application cannot go on:
/// nothing is retried and nothing runs without the sidecar.
#[derive(Debug, Clone, PartialEq, Eq)]
pub enum LaunchError {
    /// The binary, named here, is not packaged for this platform.
    NotFound(String),
    /// The operating system refused to start the process, for the reason
    /// given here.
    SpawnFailed(String),
}

/// A [`LaunchError`] with its text as a character sequence.
pub enum LaunchErrorView {
    NotFound(Seq<char>),
    SpawnFailed(Seq<char>),
}

impl View for LaunchError {
    type V = LaunchErrorView;

    open spec fn view(&self) -> LaunchErrorView {
        match self {
            LaunchError::NotFound(binary) => LaunchErrorView::NotFound(binary@),
            LaunchError::SpawnFailed(reason) => LaunchErrorView::SpawnFailed(reason@),
        }
    }
}

/// The message shown when the application gives up on `error`.
pub open spec fn diagnostic_spec(error: LaunchErrorView) -> Seq<char> {
    match error {
        LaunchErrorView::NotFound(binary) => "Sidecar binary not found: "@ + binary,
        LaunchErrorView::SpawnFailed(reason) => "Failed to spawn sidecar: "@ + reason,
    }
}

impl LaunchError {
    /// A copy of this error.
    pub fn duplicate(&self) -> (copy: LaunchError)
        ensures
            copy@ == self@,
    {
        match self {
            LaunchError::NotFound(binary) => LaunchError::NotFound(binary.clone()),
            LaunchError::SpawnFailed(reason) => LaunchError::SpawnFailed(reason.clone()),
        }
    }

    /// The message to show when the application gives up.
    pub fn diagnostic(&self) -> (message: String)
        ensures
            message@ == diagnostic_spec(self@),
    {
        match self {
            LaunchError::NotFound(binary) => {
                String::from_str("Sidecar binary not found: ").concat(binary.as_str())
            },
            LaunchError::SpawnFailed(reason) => {
                String::from_str("Failed to spawn sidecar: ").concat(reason.as_str())
            },
        }
    }
}

/// The running sidecar process. There is one handle for it, held by
/// whoever launched it.
#[derive(Debug, PartialEq, Eq)]
pub struct SidecarHandle {
    pid: u32,
}

impl View for SidecarHandle {
    type V = u32;

    /// The identifier of the process.
    closed spec fn view(&self) -> u32 {
        self.pid
    }
}

impl SidecarHandle {
    /// The identifier of the process.
    pub fn pid(&self) -> (pid: u32)
        ensures
            pid == self@,
    {
        self.pid
    }
}

/// The request that starts `spec` from the executable at `program`: the
/// arguments are those of `spec`, unchanged.
pub open spec fn request_for(spec: SidecarSpecView, program: Seq<char>) -> SpawnRequestView {
    SpawnRequestView { program, args: spec.args }
}

/// What [`plan`] returns: the request for the resolved executable, or
/// `NotFound` with the name that did not resolve.
pub open spec fn plan_spec(
    spec: SidecarSpecView,
    table: Seq<ResourceEntryView>,
    target: Seq<char>,
) -> Result<SpawnRequestView, LaunchErrorView> {
    match resolve_spec(table, spec.binary, target) {
        Some(program) => Ok(request_for(spec, program)),
        None => Err(LaunchErrorView::NotFound(spec.binary)),
    }
}

/// A planned request or the failure to plan one, by their views.
pub open spec fn planned(result: Result<SpawnRequest, LaunchError>) -> Result<
    SpawnRequestView,
    LaunchErrorView,
> {
    match result {
        Ok(request) => Ok(request@),
        Err(error) => Err(error@),
    }
}

/// Resolves the binary of `spec` in `table` for the platform `target` and
/// builds the request to start it.
pub fn plan(spec: &SidecarSpec, table: &ResourceTable, target: &str) -> (result: Result<
    SpawnRequest,
    LaunchError,
>)
    ensures
        planned(result) == plan_spec(spec@, table@, target@),
{
    match table.resolve(spec.binary.as_str(), target) {
        Some(program) => Ok(spec.request(program)),
        None => Err(LaunchError::NotFound(spec.binary.clone())),
    }
}

/// What the operating system answered to a request to spawn, by its view:
/// the identifier of the new process, or its reason for refusing.
pub open spec fn answered(outcome: Result<u32, String>) -> Result<u32, Seq<char>> {
    match outcome {
        Ok(pid) => Ok(pid),
        Err(reason) => Err(reason@),
    }
}

/// What [`conclude`] returns: the process as it was started, or
/// `SpawnFailed` with the operating system's reason.
pub open spec fn conclude_spec(outcome: Result<u32, Seq<char>>) -> Result<u32, LaunchErrorView> {
    match outcome {
        Ok(pid) => Ok(pid),
        Err(reason) => Err(LaunchErrorView::SpawnFailed(reason)),
    }
}

/// A launch's result by its view.
pub open spec fn launched(result: Result<SidecarHandle, LaunchError>) -> Result<
    u32,
    LaunchErrorView,
> {
    match result {
        Ok(handle) => Ok(handle@),
        Err(error) => Err(error@),
    }
}

/// Turns the operating system's answer to the spawn request into the
/// launch's result.
pub fn conclude(outcome: Result<u32, String>) -> (result: Result<SidecarHandle, LaunchError>)
    ensures
        launched(result) == conclude_spec(answered(outcome)),
{
    match outcome {
        Ok(pid) => Ok(SidecarHandle { pid }),
        Err(reason) => Err(LaunchError::SpawnFailed(reason)),
    }
}

/// Launches `spec`: resolves its binary in `table` for the platform
/// `target`, hands the request to `spawn`, and concludes from its answer.
///
/// Where the binary does not resolve, the result is `NotFound`. Otherwise
/// `spawn` was called once, with the resolved executable and exactly the
/// arguments of `spec`, and the result follows from what it answered.
pub fn launch<F>(
    spec: SidecarSpec,
    table: &ResourceTable,
    target: &str,
    spawn: F,
) -> (result: Result<SidecarHandle, LaunchError>) where
    F: FnOnce(SpawnRequest) -> Result<u32, String>,

    requires
        forall|request: SpawnRequest|
            plan_spec(spec@, table@, target@) == Ok::<SpawnRequestView, LaunchErrorView>(request@)
                ==> call_requires(spawn, (request,)),
    ensures
        match plan_spec(spec@, table@, target@) {
            Ok(planned_request) => exists|request: SpawnRequest, outcome: Result<u32, String>|
                request@ == planned_request && #[trigger] call_ensures(spawn, (request,), outcome)
                    && launched(result) == conclude_spec(answered(outcome)),
            Err(error) => launched(result) == Err::<u32, LaunchErrorView>(error),
        },
{
    match plan(&spec, table, target) {
        Ok(request) => {
            let ghost handed = request;
            let outcome = spawn(request);
            let result = conclude(outcome);
            assert(call_ensures(spawn, (handed,), outcome));
            result
        },
        Err(error) => Err(error),
    }
}

} // verus!
