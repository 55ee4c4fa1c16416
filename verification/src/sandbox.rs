//! A sandbox as its service knows it: its phase, and how each request and each
//! piece of finished work moves it on.
use vstd::prelude::*;

use crate::rpc::{append_error, appended, rejects, rejects_if, rpc, rpc_error, Code, RpcError, RpcErrorView};
use crate::text::{decimal, decimal_text, opt_view, text_eq};

verus! {

pub const READY: &'static str = "SANDBOX_READY";

pub const NOT_READY: &'static str = "SANDBOX_NOTREADY";

/// The phase of a sandbox.
#[derive(Clone, Copy, Debug, PartialEq, Eq, Structural)]
pub enum Phase {
    Unmanaged,
    Creating,
    Created,
    Starting,
    Ready,
    Stopping,
    Stopped,
    ReleasePending,
    Failed,
    ShuttingDown,
    Shutdown,
}

/// The name of a phase.
pub open spec fn phase_text(phase: Phase) -> Seq<char> {
    match phase {
        Phase::Unmanaged => "Unmanaged"@,
        Phase::Creating => "Creating"@,
        Phase::Created => "Created"@,
        Phase::Starting => "Starting"@,
        Phase::Ready => "Ready"@,
        Phase::Stopping => "Stopping"@,
        Phase::Stopped => "Stopped"@,
        Phase::ReleasePending => "ReleasePending"@,
        Phase::Failed => "Failed"@,
        Phase::ShuttingDown => "ShuttingDown"@,
        Phase::Shutdown => "Shutdown"@,
    }
}

/// The name of a phase.
pub fn phase_name(phase: Phase) -> (name: &'static str)
    ensures
        name@ == phase_text(phase),
{
    match phase {
        Phase::Unmanaged => "Unmanaged",
        Phase::Creating => "Creating",
        Phase::Created => "Created",
        Phase::Starting => "Starting",
        Phase::Ready => "Ready",
        Phase::Stopping => "Stopping",
        Phase::Stopped => "Stopped",
        Phase::ReleasePending => "ReleasePending",
        Phase::Failed => "Failed",
        Phase::ShuttingDown => "ShuttingDown",
        Phase::Shutdown => "Shutdown",
    }
}

/// A moment, since the beginning of 1970.
#[derive(Clone, Copy, Debug, PartialEq, Eq, Structural)]
pub struct Timestamp {
    pub seconds: i64,
    pub nanos: i32,
}

/// A specification as the callers get it.
#[derive(Debug, PartialEq, Eq)]
pub struct SandboxSpec {
    pub type_url: String,
    pub value: Vec<u8>,
}

/// The contents of a [`SandboxSpec`].
pub struct SandboxSpecView {
    pub type_url: Seq<char>,
    pub value: Seq<u8>,
}

impl View for SandboxSpec {
    type V = SandboxSpecView;

    open spec fn view(&self) -> SandboxSpecView {
        SandboxSpecView { type_url: self.type_url@, value: self.value@ }
    }
}

/// The identity of a lease on runtime resources.
#[derive(Debug, PartialEq, Eq)]
pub struct RuntimeLease {
    pub endpoint: String,
    pub sandbox_id: String,
    pub lease_id: String,
    pub generation: u64,
}

/// The contents of a [`RuntimeLease`].
pub struct RuntimeLeaseView {
    pub endpoint: Seq<char>,
    pub sandbox_id: Seq<char>,
    pub lease_id: Seq<char>,
    pub generation: u64,
}

impl View for RuntimeLease {
    type V = RuntimeLeaseView;

    open spec fn view(&self) -> RuntimeLeaseView {
        RuntimeLeaseView {
            endpoint: self.endpoint@,
            sandbox_id: self.sandbox_id@,
            lease_id: self.lease_id@,
            generation: self.generation,
        }
    }
}

impl Clone for RuntimeLease {
    fn clone(&self) -> (copy: Self)
        ensures
            copy@ == self@,
    {
        RuntimeLease {
            endpoint: self.endpoint.clone(),
            sandbox_id: self.sandbox_id.clone(),
            lease_id: self.lease_id.clone(),
            generation: self.generation,
        }
    }
}

/// What is known of a sandbox.
#[derive(Debug, PartialEq, Eq)]
pub struct LifecycleState {
    pub phase: Phase,
    pub create_request: Option<Vec<u8>>,
    pub sandbox_spec: Option<SandboxSpec>,
    pub runtime: Option<RuntimeLease>,
    pub created_at: Option<Timestamp>,
    pub exited_at: Option<Timestamp>,
    pub exit_status: u32,
    pub last_error: Option<String>,
}

/// The contents of a [`LifecycleState`].
pub struct LifecycleStateView {
    pub phase: Phase,
    pub create_request: Option<Seq<u8>>,
    pub sandbox_spec: Option<SandboxSpecView>,
    pub runtime: Option<RuntimeLeaseView>,
    pub created_at: Option<Timestamp>,
    pub exited_at: Option<Timestamp>,
    pub exit_status: u32,
    pub last_error: Option<Seq<char>>,
}

/// The contents of a lease, if there is one.
pub open spec fn lease_view(lease: Option<RuntimeLease>) -> Option<RuntimeLeaseView> {
    match lease {
        Some(lease) => Some(lease@),
        None => None,
    }
}

impl View for LifecycleState {
    type V = LifecycleStateView;

    open spec fn view(&self) -> LifecycleStateView {
        LifecycleStateView {
            phase: self.phase,
            create_request: match self.create_request {
                Some(request) => Some(request@),
                None => None,
            },
            sandbox_spec: match self.sandbox_spec {
                Some(spec) => Some(spec@),
                None => None,
            },
            runtime: lease_view(self.runtime),
            created_at: self.created_at,
            exited_at: self.exited_at,
            exit_status: self.exit_status,
            last_error: opt_view(self.last_error),
        }
    }
}

/// A sandbox of which nothing is known yet.
pub open spec fn unmanaged() -> LifecycleStateView {
    LifecycleStateView {
        phase: Phase::Unmanaged,
        create_request: None,
        sandbox_spec: None,
        runtime: None,
        created_at: None,
        exited_at: None,
        exit_status: 0,
        last_error: None,
    }
}

impl Default for LifecycleState {
    fn default() -> (state: Self)
        ensures
            state@ == unmanaged(),
    {
        LifecycleState {
            phase: Phase::Unmanaged,
            create_request: None,
            sandbox_spec: None,
            runtime: None,
            created_at: None,
            exited_at: None,
            exit_status: 0,
            last_error: None,
        }
    }
}

/// What became of the lease when a start failed.
#[derive(Clone, Copy, Debug, PartialEq, Eq, Structural)]
pub enum StartCleanup {
    Released,
    ReleasePending,
    TeardownUnconfirmed,
}

/// Why a start failed, and what became of the lease.
#[derive(Debug, PartialEq, Eq)]
pub struct StartFailure {
    pub error: String,
    pub cleanup: StartCleanup,
}

/// The contents of a [`StartFailure`].
pub struct StartFailureView {
    pub error: Seq<char>,
    pub cleanup: StartCleanup,
}

impl View for StartFailure {
    type V = StartFailureView;

    open spec fn view(&self) -> StartFailureView {
        StartFailureView { error: self.error@, cleanup: self.cleanup }
    }
}

/// A start failed, and its lease was given back or not.
pub open spec fn released_after_failure(error: Seq<char>, release: Result<(), String>) -> StartFailureView {
    match release {
        Ok(_) => StartFailureView { error, cleanup: StartCleanup::Released },
        Err(message) => StartFailureView {
            error: error + "; release RuntimeResource: "@ + message@,
            cleanup: StartCleanup::ReleasePending,
        },
    }
}

/// Notes whether the lease of a start that failed was given back.
pub fn release_after_start_failure(error: String, release: &Result<(), String>) -> (failure:
    StartFailure)
    ensures
        failure@ == released_after_failure(error@, *release),
{
    match release {
        Ok(()) => StartFailure { error, cleanup: StartCleanup::Released },
        Err(message) => StartFailure {
            error: error.concat("; release RuntimeResource: ").concat(message.as_str()),
            cleanup: StartCleanup::ReleasePending,
        },
    }
}

/// The exit of a sandbox, which is noted once.
pub open spec fn frozen(state: LifecycleStateView, forced: bool, now: Timestamp) -> LifecycleStateView {
    if state.exited_at is None {
        LifecycleStateView {
            exit_status: if forced {
                1
            } else {
                0
            },
            exited_at: Some(now),
            ..state
        }
    } else {
        state
    }
}

/// Notes the exit of a sandbox, once.
pub fn freeze_exit(state: &mut LifecycleState, forced: bool, now: Timestamp)
    ensures
        final(state)@ == frozen(old(state)@, forced, now),
{
    if state.exited_at.is_none() {
        state.exit_status = if forced {
            1
        } else {
            0
        };
        state.exited_at = Some(now);
    }
}

/// A sandbox after its start.
pub open spec fn start_applied(
    state: LifecycleStateView,
    result: Result<(), StartFailureView>,
    now: Timestamp,
) -> LifecycleStateView {
    match result {
        Ok(_) => LifecycleStateView {
            phase: Phase::Ready,
            created_at: Some(now),
            last_error: None,
            ..state
        },
        Err(failure) => LifecycleStateView {
            phase: if failure.cleanup == StartCleanup::ReleasePending {
                Phase::ReleasePending
            } else {
                Phase::Failed
            },
            runtime: if failure.cleanup == StartCleanup::Released {
                None
            } else {
                state.runtime
            },
            last_error: Some(failure.error),
            ..frozen(state, true, now)
        },
    }
}

/// The contents of the result of a start.
pub open spec fn start_result(result: Result<(), StartFailure>) -> Result<(), StartFailureView> {
    match result {
        Ok(_) => Ok(()),
        Err(failure) => Err(failure@),
    }
}

/// Notes the result of a start.
pub fn apply_start_result(state: &mut LifecycleState, result: Result<(), StartFailure>, now: Timestamp)
    ensures
        final(state)@ == start_applied(old(state)@, start_result(result), now),
{
    match result {
        Ok(()) => {
            state.phase = Phase::Ready;
            state.created_at = Some(now);
            state.last_error = None;
        },
        Err(failure) => {
            state.phase = if failure.cleanup == StartCleanup::ReleasePending {
                Phase::ReleasePending
            } else {
                Phase::Failed
            };
            if failure.cleanup == StartCleanup::Released {
                state.runtime = None;
            }
            freeze_exit(state, true, now);
            state.last_error = Some(failure.error);
        },
    }
}

/// What follows the end of some work.
#[derive(Clone, Copy, Debug, PartialEq, Eq, Structural)]
pub enum Aftermath {
    Nothing,
    /// The exit of the machine is watched from now on.
    Monitor,
    /// The cleanup is asked for.
    RequestCleanup,
    /// The shim exits.
    Exit,
}

/// Notes the result of a start; the machine of a ready sandbox is watched, and
/// of a failed one the cleanup is asked for.
pub fn finish_start(state: &mut LifecycleState, result: Result<(), StartFailure>, now: Timestamp) -> (r:
    Aftermath)
    ensures
        final(state)@ == start_applied(old(state)@, start_result(result), now),
        r == (if result is Ok {
            Aftermath::Monitor
        } else {
            Aftermath::RequestCleanup
        }),
{
    let failed = result.is_err();
    apply_start_result(state, result, now);
    if failed {
        Aftermath::RequestCleanup
    } else {
        Aftermath::Monitor
    }
}

/// How a stop begins.
#[derive(Clone, Copy, Debug, PartialEq, Eq, Structural)]
pub enum StopTeardownAction {
    ReleaseOnly,
    Abort,
    Destroy,
}

/// How a stop begins, by the phase before it.
pub open spec fn teardown_action(previous: Phase) -> StopTeardownAction {
    match previous {
        Phase::ReleasePending => StopTeardownAction::ReleaseOnly,
        Phase::Failed => StopTeardownAction::Abort,
        _ => StopTeardownAction::Destroy,
    }
}

/// How a stop begins, by the phase before it.
pub fn stop_teardown_action(previous: Phase) -> (action: StopTeardownAction)
    ensures
        action == teardown_action(previous),
{
    match previous {
        Phase::ReleasePending => StopTeardownAction::ReleaseOnly,
        Phase::Failed => StopTeardownAction::Abort,
        _ => StopTeardownAction::Destroy,
    }
}

/// How a teardown went that succeeded.
#[derive(Debug, PartialEq, Eq)]
pub struct TeardownOutcome {
    pub forced: bool,
    pub warning: Option<String>,
}

/// The contents of a [`TeardownOutcome`].
pub struct TeardownOutcomeView {
    pub forced: bool,
    pub warning: Option<Seq<char>>,
}

impl View for TeardownOutcome {
    type V = TeardownOutcomeView;

    open spec fn view(&self) -> TeardownOutcomeView {
        TeardownOutcomeView { forced: self.forced, warning: opt_view(self.warning) }
    }
}

impl TeardownOutcome {
    /// A teardown as it should be.
    pub fn normal() -> (outcome: Self)
        ensures
            outcome@ == (TeardownOutcomeView { forced: false, warning: None }),
    {
        TeardownOutcome { forced: false, warning: None }
    }

    /// A teardown by force.
    pub fn forced(warning: Option<String>) -> (outcome: Self)
        ensures
            outcome@ == (TeardownOutcomeView { forced: true, warning: opt_view(warning) }),
    {
        TeardownOutcome { forced: true, warning }
    }
}

/// How a teardown and the release after it went.
#[derive(Debug, PartialEq, Eq)]
pub enum CleanupOutcome {
    Released(TeardownOutcome),
    ReleaseFailed(TeardownOutcome, String),
    TeardownFailed(String),
}

/// The contents of a [`CleanupOutcome`].
pub enum CleanupOutcomeView {
    Released(TeardownOutcomeView),
    ReleaseFailed(TeardownOutcomeView, Seq<char>),
    TeardownFailed(Seq<char>),
}

impl View for CleanupOutcome {
    type V = CleanupOutcomeView;

    open spec fn view(&self) -> CleanupOutcomeView {
        match self {
            CleanupOutcome::Released(teardown) => CleanupOutcomeView::Released(teardown@),
            CleanupOutcome::ReleaseFailed(teardown, error) => CleanupOutcomeView::ReleaseFailed(
                teardown@,
                error@,
            ),
            CleanupOutcome::TeardownFailed(error) => CleanupOutcomeView::TeardownFailed(error@),
        }
    }
}

/// The error of a lease that was not given back.
pub open spec fn release_error(error: Seq<char>, warning: Option<Seq<char>>) -> Seq<char> {
    appended("release RuntimeResource: "@ + error, "sandbox teardown warning"@, warning)
}

/// A sandbox after a stop.
pub open spec fn stop_applied(
    state: LifecycleStateView,
    previous: Phase,
    outcome: CleanupOutcomeView,
    now: Timestamp,
) -> LifecycleStateView {
    match outcome {
        CleanupOutcomeView::Released(teardown) => LifecycleStateView {
            phase: Phase::Stopped,
            runtime: None,
            last_error: teardown.warning,
            ..(if previous != Phase::ReleasePending {
                frozen(state, teardown.forced, now)
            } else {
                state
            })
        },
        CleanupOutcomeView::ReleaseFailed(teardown, error) => LifecycleStateView {
            phase: Phase::ReleasePending,
            last_error: Some(release_error(error, teardown.warning)),
            ..(if previous != Phase::ReleasePending {
                frozen(state, teardown.forced, now)
            } else {
                state
            })
        },
        CleanupOutcomeView::TeardownFailed(error) => LifecycleStateView {
            phase: Phase::Failed,
            last_error: Some(error),
            ..frozen(state, true, now)
        },
    }
}

/// Notes that a sandbox with containers is not stopped.
pub fn finish_stop_guard(state: &mut LifecycleState, previous: Phase, error: String)
    ensures
        final(state)@ == (LifecycleStateView {
            phase: previous,
            last_error: Some(error@),
            ..old(state)@
        }),
{
    state.phase = previous;
    state.last_error = Some(error);
}

/// Notes how a stop went; of one that failed the cleanup is asked for.
pub fn finish_stop(
    state: &mut LifecycleState,
    previous: Phase,
    outcome: CleanupOutcome,
    now: Timestamp,
) -> (r: Aftermath)
    ensures
        final(state)@ == stop_applied(old(state)@, previous, outcome@, now),
        r == (if outcome@ is Released {
            Aftermath::Nothing
        } else {
            Aftermath::RequestCleanup
        }),
{
    match outcome {
        CleanupOutcome::Released(teardown) => {
            state.runtime = None;
            if previous != Phase::ReleasePending {
                freeze_exit(state, teardown.forced, now);
            }
            state.phase = Phase::Stopped;
            state.last_error = teardown.warning;
            Aftermath::Nothing
        },
        CleanupOutcome::ReleaseFailed(teardown, error) => {
            if previous != Phase::ReleasePending {
                freeze_exit(state, teardown.forced, now);
            }
            state.phase = Phase::ReleasePending;
            state.last_error = Some(
                append_error(
                    "release RuntimeResource: ".to_owned().concat(error.as_str()),
                    "sandbox teardown warning",
                    teardown.warning,
                ),
            );
            Aftermath::RequestCleanup
        },
        CleanupOutcome::TeardownFailed(error) => {
            state.phase = Phase::Failed;
            freeze_exit(state, true, now);
            state.last_error = Some(error);
            Aftermath::RequestCleanup
        },
    }
}

/// A sandbox after a shutdown.
pub open spec fn shutdown_applied(
    state: LifecycleStateView,
    force_abort: bool,
    outcome: CleanupOutcomeView,
    now: Timestamp,
) -> LifecycleStateView {
    match outcome {
        CleanupOutcomeView::Released(teardown) => LifecycleStateView {
            phase: if teardown.warning is Some {
                Phase::Failed
            } else {
                Phase::Shutdown
            },
            runtime: None,
            last_error: teardown.warning,
            ..frozen(state, force_abort && teardown.forced, now)
        },
        CleanupOutcomeView::ReleaseFailed(teardown, error) => LifecycleStateView {
            phase: Phase::ReleasePending,
            last_error: Some(release_error(error, teardown.warning)),
            ..frozen(state, force_abort && teardown.forced, now)
        },
        CleanupOutcomeView::TeardownFailed(error) => LifecycleStateView {
            phase: Phase::Failed,
            last_error: Some(error),
            ..frozen(state, true, now)
        },
    }
}

/// Notes how a shutdown went: the shim exits after one that succeeded, and of
/// one that failed the cleanup is asked for.
pub fn finish_shutdown(
    state: &mut LifecycleState,
    force_abort: bool,
    outcome: CleanupOutcome,
    now: Timestamp,
) -> (r: Aftermath)
    ensures
        final(state)@ == shutdown_applied(old(state)@, force_abort, outcome@, now),
        r == (if final(state)@.phase == Phase::Shutdown {
            Aftermath::Exit
        } else {
            Aftermath::RequestCleanup
        }),
{
    match outcome {
        CleanupOutcome::Released(teardown) => {
            state.runtime = None;
            freeze_exit(state, force_abort && teardown.forced, now);
            if teardown.warning.is_some() {
                state.phase = Phase::Failed;
                state.last_error = teardown.warning;
                Aftermath::RequestCleanup
            } else {
                state.phase = Phase::Shutdown;
                state.last_error = None;
                Aftermath::Exit
            }
        },
        CleanupOutcome::ReleaseFailed(teardown, error) => {
            freeze_exit(state, force_abort && teardown.forced, now);
            state.phase = Phase::ReleasePending;
            state.last_error = Some(
                append_error(
                    "release RuntimeResource: ".to_owned().concat(error.as_str()),
                    "sandbox teardown warning",
                    teardown.warning,
                ),
            );
            Aftermath::RequestCleanup
        },
        CleanupOutcome::TeardownFailed(error) => {
            state.phase = Phase::Failed;
            freeze_exit(state, true, now);
            state.last_error = Some(error);
            Aftermath::RequestCleanup
        },
    }
}

/// Whether the exit of the machine is still watched.
pub fn monitoring(state: &LifecycleState) -> (r: bool)
    ensures
        r == (state@.phase == Phase::Ready),
{
    state.phase == Phase::Ready
}

/// How often it is looked whether the machine has exited.
pub const MONITOR_PAUSE_MS: u64 = 500;

/// A sandbox whose machine has exited.
pub open spec fn vm_exit_applied(state: LifecycleStateView, now: Timestamp) -> LifecycleStateView {
    if state.phase == Phase::Ready {
        LifecycleStateView {
            phase: Phase::Failed,
            exit_status: 1,
            exited_at: Some(now),
            last_error: Some("Cube VM exited unexpectedly"@),
            ..state
        }
    } else {
        state
    }
}

/// Notes that the machine has exited: a sandbox that was ready has failed.
pub fn note_vm_exit(state: &mut LifecycleState, now: Timestamp)
    ensures
        final(state)@ == vm_exit_applied(old(state)@, now),
{
    if state.phase == Phase::Ready {
        state.phase = Phase::Failed;
        state.exit_status = 1;
        state.exited_at = Some(now);
        state.last_error = Some("Cube VM exited unexpectedly".to_owned());
    }
}

/// Whether a phase is final for those who wait for the exit.
pub open spec fn is_terminal(phase: Phase) -> bool {
    phase == Phase::Stopped || phase == Phase::ReleasePending || phase == Phase::Failed || phase
        == Phase::Shutdown
}

/// What those who wait for the exit are told.
pub open spec fn wait_answer(state: LifecycleStateView) -> Option<(u32, Option<Timestamp>)> {
    if is_terminal(state.phase) {
        Some((state.exit_status, state.exited_at))
    } else {
        None
    }
}

/// What those who wait for the exit are told: the status and the moment.
pub fn terminal_wait_response(state: &LifecycleState) -> (r: Option<(u32, Option<Timestamp>)>)
    ensures
        r == wait_answer(state@),
{
    match state.phase {
        Phase::Stopped | Phase::ReleasePending | Phase::Failed | Phase::Shutdown => Some(
            (state.exit_status, state.exited_at),
        ),
        _ => None,
    }
}

/// Why a request is not for this sandbox, if it is not.
pub open spec fn id_fault(own: Seq<char>, id: Seq<char>) -> Option<RpcErrorView> {
    if id.len() == 0 {
        Some(rpc(Code::InvalidArgument, "sandbox_id is empty"@))
    } else if id != own {
        Some(
            rpc(Code::NotFound, "sandbox_id "@ + id + " does not match shim "@ + own),
        )
    } else {
        None
    }
}

/// Checks that a request is for this sandbox.
pub fn validate_id(own: &str, id: &str) -> (r: Result<(), RpcError>)
    ensures
        rejects_if(r, id_fault(own@, id@)),
{
    if id.unicode_len() == 0 {
        return Err(rpc_error(Code::InvalidArgument, "sandbox_id is empty".to_owned()));
    }
    if !text_eq(id, own) {
        return Err(
            rpc_error(
                Code::NotFound,
                "sandbox_id ".to_owned().concat(id).concat(" does not match shim ").concat(own),
            ),
        );
    }
    Ok(())
}

/// Checks that the shim serves still.
pub fn ping(state: &LifecycleState) -> (r: Result<(), RpcError>)
    ensures
        rejects_if(
            r,
            if state@.phase == Phase::Shutdown {
                Some(rpc(Code::Unavailable, "sandbox shim is shut down"@))
            } else {
                None
            },
        ),
{
    if state.phase == Phase::Shutdown {
        return Err(rpc_error(Code::Unavailable, "sandbox shim is shut down".to_owned()));
    }
    Ok(())
}

/// What a status shows of a sandbox; the details only where they are asked for.
pub open spec fn status_info(state: LifecycleStateView, verbose: bool) -> Seq<(Seq<char>, Seq<char>)> {
    if !verbose {
        Seq::empty()
    } else {
        let phase = seq![("phase"@, phase_text(state.phase))];
        let error = match state.last_error {
            Some(error) => seq![("last_error"@, error)],
            None => Seq::empty(),
        };
        let lease = match state.runtime {
            Some(lease) => seq![
                ("runtime_lease"@, lease.lease_id),
                ("runtime_generation"@, decimal(lease.generation as nat)),
            ],
            None => Seq::empty(),
        };
        phase + error + lease
    }
}

/// The contents of details.
pub open spec fn info_view(info: Seq<(String, String)>) -> Seq<(Seq<char>, Seq<char>)> {
    Seq::new(info.len(), |i: int| (info[i].0@, info[i].1@))
}

/// What a status shows of a sandbox: whether it is ready, and details.
pub fn sandbox_status(state: &LifecycleState, verbose: bool) -> (r: (&'static str, Vec<(String, String)>))
    ensures
        r.0@ == (if state@.phase == Phase::Ready {
            READY@
        } else {
            NOT_READY@
        }),
        info_view(r.1@) == status_info(state@, verbose),
{
    let mut info: Vec<(String, String)> = Vec::new();
    if verbose {
        info.push(("phase".to_owned(), phase_name(state.phase).to_owned()));
        if let Some(error) = &state.last_error {
            info.push(("last_error".to_owned(), error.clone()));
        }
        if let Some(lease) = &state.runtime {
            info.push(("runtime_lease".to_owned(), lease.lease_id.clone()));
            info.push(
                (
                    "runtime_generation".to_owned(),
                    decimal_text(lease.generation as u128),
                ),
            );
        }
    }
    assert(info_view(info@) =~= status_info(state@, verbose));
    if state.phase == Phase::Ready {
        (READY, info)
    } else {
        (NOT_READY, info)
    }
}

/// The platform of every sandbox: operating system and architecture.
pub fn platform() -> (r: (&'static str, &'static str))
    ensures
        r.0@ == "linux"@,
        r.1@ == "amd64"@,
{
    ("linux", "amd64")
}

/// What a start does: `None` means that the request is refused.
pub open spec fn start_admission(state: LifecycleStateView) -> (LifecycleStateView, Option<bool>) {
    match state.phase {
        Phase::Created => (LifecycleStateView { phase: Phase::Starting, ..state }, Some(true)),
        Phase::Starting | Phase::Ready => (state, Some(false)),
        _ => (state, None),
    }
}

/// Begins a start: whether it has to be run.
pub fn begin_start(state: &mut LifecycleState) -> (r: Result<bool, RpcError>)
    ensures
        final(state)@ == start_admission(old(state)@).0,
        match start_admission(old(state)@).1 {
            Some(run) => r == Ok::<bool, RpcError>(run),
            None => rejects(
                r,
                rpc(
                    Code::FailedPrecondition,
                    "sandbox cannot start from phase "@ + phase_text(old(state)@.phase),
                ),
            ),
        },
{
    match state.phase {
        Phase::Created => {
            state.phase = Phase::Starting;
            Ok(true)
        },
        Phase::Starting | Phase::Ready => Ok(false),
        phase => Err(
            rpc_error(
                Code::FailedPrecondition,
                "sandbox cannot start from phase ".to_owned().concat(phase_name(phase)),
            ),
        ),
    }
}

/// An error, or another text where there is none.
pub open spec fn error_or(error: Option<Seq<char>>, text: Seq<char>) -> Seq<char> {
    match error {
        Some(error) => error,
        None => text,
    }
}

fn text_or(error: &Option<String>, text: &str) -> (r: String)
    ensures
        r@ == error_or(opt_view(*error), text@),
{
    match error {
        Some(error) => error.clone(),
        None => text.to_owned(),
    }
}

/// What those who wait for a start are told: `None` means that they wait on.
pub open spec fn start_answer(state: LifecycleStateView) -> Option<Result<(), RpcErrorView>> {
    match state.phase {
        Phase::Ready => Some(Ok(())),
        Phase::Failed => Some(
            Err(rpc(Code::FailedPrecondition, error_or(state.last_error, "sandbox start failed"@))),
        ),
        Phase::Starting => None,
        phase => Some(
            Err(
                rpc(
                    Code::FailedPrecondition,
                    "sandbox cannot finish start from phase "@ + phase_text(phase),
                ),
            ),
        ),
    }
}

/// The answer is the one that is due.
pub open spec fn answered<T>(
    r: Option<Result<T, RpcError>>,
    answer: Option<Result<(), RpcErrorView>>,
) -> bool {
    match answer {
        None => r is None,
        Some(Ok(_)) => r matches Some(Ok(_)),
        Some(Err(error)) => r matches Some(Err(e)) && e@ == error,
    }
}

/// What those who wait for a start are told: when the sandbox was ready, and
/// its specification.
pub fn wait_for_start(state: &LifecycleState) -> (r: Option<
    Result<(Option<Timestamp>, &Option<SandboxSpec>), RpcError>,
>)
    ensures
        answered(r, start_answer(state@)),
        r matches Some(Ok((created_at, spec))) ==> created_at == state.created_at && *spec
            == state.sandbox_spec,
{
    match state.phase {
        Phase::Ready => Some(Ok((state.created_at, &state.sandbox_spec))),
        Phase::Failed => Some(
            Err(
                rpc_error(
                    Code::FailedPrecondition,
                    text_or(&state.last_error, "sandbox start failed"),
                ),
            ),
        ),
        Phase::Starting => None,
        phase => Some(
            Err(
                rpc_error(
                    Code::FailedPrecondition,
                    "sandbox cannot finish start from phase ".to_owned().concat(phase_name(phase)),
                ),
            ),
        ),
    }
}

/// What those who wait for a stop are told.
pub open spec fn stop_answer(state: LifecycleStateView) -> Option<Result<(), RpcErrorView>> {
    let refused = |message: Seq<char>|
        Some(Err::<(), RpcErrorView>(rpc(Code::FailedPrecondition, message)));
    let elsewhere = refused("sandbox cannot finish stop from phase "@ + phase_text(state.phase));
    match state.phase {
        Phase::Stopped => match state.last_error {
            Some(error) => refused(error),
            None => Some(Ok(())),
        },
        Phase::Shutdown => Some(Ok(())),
        Phase::ReleasePending => refused(
            error_or(state.last_error, "RuntimeResource release is pending"@),
        ),
        Phase::Failed | Phase::Ready | Phase::Created => match state.last_error {
            Some(error) => refused(error),
            None => elsewhere,
        },
        Phase::Stopping => None,
        _ => elsewhere,
    }
}

/// What those who wait for a stop are told.
pub fn wait_for_stop(state: &LifecycleState) -> (r: Option<Result<(), RpcError>>)
    ensures
        answered(r, stop_answer(state@)),
{
    match (state.phase, &state.last_error) {
        (Phase::Stopped, Some(error)) => Some(
            Err(rpc_error(Code::FailedPrecondition, error.clone())),
        ),
        (Phase::Stopped | Phase::Shutdown, _) => Some(Ok(())),
        (Phase::ReleasePending, error) => Some(
            Err(
                rpc_error(
                    Code::FailedPrecondition,
                    text_or(error, "RuntimeResource release is pending"),
                ),
            ),
        ),
        (Phase::Failed | Phase::Ready | Phase::Created, Some(error)) => Some(
            Err(rpc_error(Code::FailedPrecondition, error.clone())),
        ),
        (Phase::Stopping, _) => None,
        (phase, _) => Some(
            Err(
                rpc_error(
                    Code::FailedPrecondition,
                    "sandbox cannot finish stop from phase ".to_owned().concat(phase_name(phase)),
                ),
            ),
        ),
    }
}

/// What those who wait for a shutdown are told.
pub open spec fn shutdown_answer(state: LifecycleStateView) -> Option<Result<(), RpcErrorView>> {
    match state.phase {
        Phase::Shutdown => Some(Ok(())),
        Phase::Failed | Phase::ReleasePending => Some(
            Err(rpc(Code::Internal, error_or(state.last_error, "sandbox shutdown failed"@))),
        ),
        Phase::ShuttingDown => None,
        phase => Some(
            Err(
                rpc(
                    Code::FailedPrecondition,
                    "sandbox cannot finish shutdown from phase "@ + phase_text(phase),
                ),
            ),
        ),
    }
}

/// What those who wait for a shutdown are told.
pub fn wait_for_shutdown(state: &LifecycleState) -> (r: Option<Result<(), RpcError>>)
    ensures
        answered(r, shutdown_answer(state@)),
{
    match state.phase {
        Phase::Shutdown => Some(Ok(())),
        Phase::Failed | Phase::ReleasePending => Some(
            Err(
                rpc_error(
                    Code::Internal,
                    text_or(&state.last_error, "sandbox shutdown failed"),
                ),
            ),
        ),
        Phase::ShuttingDown => None,
        phase => Some(
            Err(
                rpc_error(
                    Code::FailedPrecondition,
                    "sandbox cannot finish shutdown from phase ".to_owned().concat(
                        phase_name(phase),
                    ),
                ),
            ),
        ),
    }
}

/// A retried release does not change what those who wait for the exit are told,
/// and no stop or shutdown does, once the exit is noted.
pub proof fn law_noted_exit_stays(
    state: LifecycleStateView,
    previous: Phase,
    force_abort: bool,
    outcome: CleanupOutcomeView,
    result: Result<(), StartFailureView>,
    now: Timestamp,
)
    requires
        state.exited_at is Some,
    ensures
        ({
            let stopped = stop_applied(state, previous, outcome, now);
            &&& wait_answer(stopped) == Some((state.exit_status, state.exited_at))
        }),
        ({
            let gone = shutdown_applied(state, force_abort, outcome, now);
            &&& wait_answer(gone) == Some((state.exit_status, state.exited_at))
        }),
        result is Err ==> wait_answer(start_applied(state, result, now)) == Some(
            (state.exit_status, state.exited_at),
        ),
{
}

/// A lease is forgotten only when it was given back.
pub proof fn law_lease_is_kept_until_released(
    state: LifecycleStateView,
    previous: Phase,
    force_abort: bool,
    outcome: CleanupOutcomeView,
    failure: StartFailureView,
    now: Timestamp,
)
    ensures
        stop_applied(state, previous, outcome, now).runtime == (if outcome is Released {
            None
        } else {
            state.runtime
        }),
        shutdown_applied(state, force_abort, outcome, now).runtime == (if outcome is Released {
            None
        } else {
            state.runtime
        }),
        start_applied(state, Err(failure), now).runtime == (if failure.cleanup
            == StartCleanup::Released {
            None
        } else {
            state.runtime
        }),
        start_applied(state, Ok(()), now).runtime == state.runtime,
{
}

/// After a release that failed, a stop only retries the release; after a
/// teardown that failed, it tears down by force.
pub proof fn law_failed_work_is_taken_up_where_it_failed(
    state: LifecycleStateView,
    previous: Phase,
    outcome: CleanupOutcomeView,
    now: Timestamp,
)
    ensures
        ({
            let after = stop_applied(state, previous, outcome, now).phase;
            &&& outcome is ReleaseFailed ==> teardown_action(after)
                == StopTeardownAction::ReleaseOnly
            &&& outcome is TeardownFailed ==> teardown_action(after) == StopTeardownAction::Abort
        }),
{
}

/// An exit that was not noted before is noted by the stop that ends the
/// sandbox: those who wait are told 0 where it was torn down without force, and
/// 1 where it was forced or could not be torn down, with the moment of the stop,
/// whatever became of the lease. A stop that only releases notes no exit.
pub proof fn law_stop_answers_those_who_wait(
    state: LifecycleStateView,
    previous: Phase,
    teardown: TeardownOutcomeView,
    error: Seq<char>,
    now: Timestamp,
)
    requires
        state.exited_at is None,
        previous != Phase::ReleasePending,
    ensures
        wait_answer(stop_applied(state, previous, CleanupOutcomeView::Released(teardown), now))
            == Some(
            (
                if teardown.forced {
                    1u32
                } else {
                    0u32
                },
                Some(now),
            ),
        ),
        wait_answer(
            stop_applied(state, previous, CleanupOutcomeView::ReleaseFailed(teardown, error), now),
        ) == Some(
            (
                if teardown.forced {
                    1u32
                } else {
                    0u32
                },
                Some(now),
            ),
        ),
        wait_answer(
            stop_applied(state, previous, CleanupOutcomeView::TeardownFailed(error), now),
        ) == Some((1u32, Some(now))),
        stop_applied(
            state,
            Phase::ReleasePending,
            CleanupOutcomeView::Released(teardown),
            now,
        ).exited_at is None,
{
}

/// A shutdown notes the exit as a stop does: 1 where an abort was asked for and
/// was needed, or where the teardown failed, and 0 otherwise.
pub proof fn law_shutdown_answers_those_who_wait(
    state: LifecycleStateView,
    force_abort: bool,
    teardown: TeardownOutcomeView,
    error: Seq<char>,
    now: Timestamp,
)
    requires
        state.exited_at is None,
    ensures
        ({
            let status: u32 = if force_abort && teardown.forced {
                1
            } else {
                0
            };
            &&& wait_answer(
                shutdown_applied(state, force_abort, CleanupOutcomeView::Released(teardown), now),
            ) == Some((status, Some(now)))
            &&& wait_answer(
                shutdown_applied(
                    state,
                    force_abort,
                    CleanupOutcomeView::ReleaseFailed(teardown, error),
                    now,
                ),
            ) == Some((status, Some(now)))
            &&& wait_answer(
                shutdown_applied(
                    state,
                    force_abort,
                    CleanupOutcomeView::TeardownFailed(error),
                    now,
                ),
            ) == Some((1u32, Some(now)))
        }),
{
}

/// What a caller of Stop is told agrees with how the stop went: a clean one
/// succeeds, one with a warning, with a lease that was not released or with a
/// teardown that failed is refused with its error; all of them answer.
pub proof fn law_stop_answers_its_caller(
    state: LifecycleStateView,
    previous: Phase,
    teardown: TeardownOutcomeView,
    error: Seq<char>,
    now: Timestamp,
)
    ensures
        ({
            let released = stop_applied(
                state,
                previous,
                CleanupOutcomeView::Released(teardown),
                now,
            );
            let stuck = stop_applied(
                state,
                previous,
                CleanupOutcomeView::ReleaseFailed(teardown, error),
                now,
            );
            let failed = stop_applied(
                state,
                previous,
                CleanupOutcomeView::TeardownFailed(error),
                now,
            );
            &&& released.phase == Phase::Stopped
            &&& released.last_error == teardown.warning
            &&& match teardown.warning {
                None => stop_answer(released) matches Some(Ok(_)),
                Some(warning) => stop_answer(released) == Some(
                    Err::<(), RpcErrorView>(rpc(Code::FailedPrecondition, warning)),
                ),
            }
            &&& stuck.phase == Phase::ReleasePending
            &&& stop_answer(stuck) matches Some(Err(refusal)) && refusal.code
                == Code::FailedPrecondition && Some(refusal.message) == stuck.last_error
            &&& failed.phase == Phase::Failed
            &&& stop_answer(failed) == Some(
                Err::<(), RpcErrorView>(rpc(Code::FailedPrecondition, error)),
            )
        }),
{
}

/// What a caller of Shutdown is told agrees with how the shutdown went: a clean
/// one succeeds and ends the shim, any other is an internal error.
pub proof fn law_shutdown_answers_its_caller(
    state: LifecycleStateView,
    force_abort: bool,
    teardown: TeardownOutcomeView,
    error: Seq<char>,
    now: Timestamp,
)
    ensures
        ({
            let released = shutdown_applied(
                state,
                force_abort,
                CleanupOutcomeView::Released(teardown),
                now,
            );
            let stuck = shutdown_applied(
                state,
                force_abort,
                CleanupOutcomeView::ReleaseFailed(teardown, error),
                now,
            );
            let failed = shutdown_applied(
                state,
                force_abort,
                CleanupOutcomeView::TeardownFailed(error),
                now,
            );
            &&& match teardown.warning {
                None => released.phase == Phase::Shutdown && released.last_error is None && (
                shutdown_answer(released) matches Some(Ok(_))),
                Some(warning) => released.phase == Phase::Failed && shutdown_answer(released)
                    == Some(Err::<(), RpcErrorView>(rpc(Code::Internal, warning))),
            }
            &&& stuck.phase == Phase::ReleasePending
            &&& shutdown_answer(stuck) matches Some(Err(refusal)) && refusal.code == Code::Internal
                && Some(refusal.message) == stuck.last_error
            &&& failed.phase == Phase::Failed
            &&& shutdown_answer(failed) == Some(
                Err::<(), RpcErrorView>(rpc(Code::Internal, error)),
            )
        }),
{
}

/// A start that succeeds makes the sandbox ready, from its moment on; one that
/// fails ends it with status 1, and its callers are told why. Where only the
/// lease is left, it is a release that is pending.
pub proof fn law_start_answers_its_callers(
    state: LifecycleStateView,
    failure: StartFailureView,
    now: Timestamp,
)
    ensures
        ({
            let ready = start_applied(state, Ok(()), now);
            let failed = start_applied(state, Err(failure), now);
            &&& ready.phase == Phase::Ready && ready.created_at == Some(now)
            &&& ready.last_error is None
            &&& ready.exited_at == state.exited_at && ready.exit_status == state.exit_status
            &&& wait_answer(ready) is None
            &&& start_answer(ready) matches Some(Ok(_))
            &&& failed.created_at == state.created_at
            &&& failed.last_error == Some(failure.error)
            &&& failure.cleanup == StartCleanup::ReleasePending <==> failed.phase
                == Phase::ReleasePending
            &&& failure.cleanup != StartCleanup::ReleasePending <==> failed.phase == Phase::Failed
            &&& failed.phase == Phase::Failed ==> start_answer(failed) == Some(
                Err::<(), RpcErrorView>(rpc(Code::FailedPrecondition, failure.error)),
            )
            &&& failed.phase == Phase::ReleasePending ==> (start_answer(failed) matches Some(
                Err(_),
            ))
            &&& state.exited_at is None ==> wait_answer(failed) == Some((1u32, Some(now)))
        }),
{
}

/// The exit of a ready sandbox's machine is answered with status 1 and its
/// moment; a sandbox in any other phase is not concerned.
pub proof fn law_machine_exit_is_answered(state: LifecycleStateView, now: Timestamp)
    ensures
        state.phase == Phase::Ready ==> wait_answer(vm_exit_applied(state, now)) == Some(
            (1u32, Some(now)),
        ) && vm_exit_applied(state, now).phase == Phase::Failed && vm_exit_applied(
            state,
            now,
        ).runtime == state.runtime,
        state.phase != Phase::Ready ==> vm_exit_applied(state, now) == state,
{
}

/// No work on a sandbox touches the request that created it or what it was
/// created with.
pub proof fn law_creation_is_remembered(
    state: LifecycleStateView,
    previous: Phase,
    force_abort: bool,
    outcome: CleanupOutcomeView,
    result: Result<(), StartFailureView>,
    now: Timestamp,
)
    ensures
        stop_applied(state, previous, outcome, now).create_request == state.create_request,
        stop_applied(state, previous, outcome, now).sandbox_spec == state.sandbox_spec,
        stop_applied(state, previous, outcome, now).created_at == state.created_at,
        shutdown_applied(state, force_abort, outcome, now).create_request == state.create_request,
        shutdown_applied(state, force_abort, outcome, now).sandbox_spec == state.sandbox_spec,
        shutdown_applied(state, force_abort, outcome, now).created_at == state.created_at,
        start_applied(state, result, now).create_request == state.create_request,
        start_applied(state, result, now).sandbox_spec == state.sandbox_spec,
        vm_exit_applied(state, now).create_request == state.create_request,
        vm_exit_applied(state, now).sandbox_spec == state.sandbox_spec,
        vm_exit_applied(state, now).created_at == state.created_at,
{
}

/// One start runs at a time, and only of a created sandbox: a second call joins
/// the start that runs or is told that it has run, and every other phase is
/// refused.
pub proof fn law_one_start_runs(state: LifecycleStateView)
    ensures
        start_admission(state).1 == Some(true) <==> state.phase == Phase::Created,
        start_admission(state).1 == Some(false) <==> state.phase == Phase::Starting || state.phase
            == Phase::Ready,
        state.phase == Phase::Created ==> start_admission(state).0 == (LifecycleStateView {
            phase: Phase::Starting,
            ..state
        }) && start_admission(start_admission(state).0).1 == Some(false),
        state.phase != Phase::Created ==> start_admission(state).0 == state,
        start_answer(start_admission(state).0) is None <==> state.phase == Phase::Created
            || state.phase == Phase::Starting,
{
}

/// Those who wait are told something exactly once the sandbox has come to an
/// end, and then its status and its moment.
pub proof fn law_waiting_ends_with_the_sandbox(state: LifecycleStateView)
    ensures
        wait_answer(state) is Some <==> state.phase == Phase::Stopped || state.phase
            == Phase::ReleasePending || state.phase == Phase::Failed || state.phase
            == Phase::Shutdown,
        wait_answer(state) is Some ==> wait_answer(state)->0 == (
            state.exit_status,
            state.exited_at,
        ),
        stop_answer(state) is None <==> state.phase == Phase::Stopping,
        shutdown_answer(state) is None <==> state.phase == Phase::ShuttingDown,
        start_answer(state) is None <==> state.phase == Phase::Starting,
        stop_answer(state) matches Some(Ok(_)) <==> state.phase == Phase::Shutdown || (state.phase
            == Phase::Stopped && state.last_error is None),
        shutdown_answer(state) matches Some(Ok(_)) <==> state.phase == Phase::Shutdown,
        start_answer(state) matches Some(Ok(_)) <==> state.phase == Phase::Ready,
{
}

/// A verbose status names the phase, the error and the lease, each where there
/// is one; another one names nothing.
pub proof fn law_status_shows_what_is_known(state: LifecycleStateView)
    ensures
        status_info(state, false).len() == 0,
        status_info(state, true).len() == 1 + (if state.last_error is Some {
            1int
        } else {
            0
        }) + (if state.runtime is Some {
            2int
        } else {
            0
        }),
        status_info(state, true)[0] == ("phase"@, phase_text(state.phase)),
        state.last_error is Some ==> status_info(state, true)[1] == (
            "last_error"@,
            state.last_error->0,
        ),
        state.runtime is Some ==> status_info(state, true)[status_info(state, true).len() - 2] == (
            "runtime_lease"@,
            state.runtime->0.lease_id,
        ) && status_info(state, true).last() == (
            "runtime_generation"@,
            decimal(state.runtime->0.generation as nat),
        ),
{
}

/// A request reaches the sandbox it names, and no other.
pub proof fn law_requests_name_their_sandbox(own: Seq<char>, id: Seq<char>)
    ensures
        own.len() > 0 ==> (id_fault(own, id) is None <==> id == own),
        id.len() == 0 ==> (id_fault(own, id) matches Some(fault) && fault.code
            == Code::InvalidArgument),
        id.len() > 0 && id != own ==> (id_fault(own, id) matches Some(fault) && fault.code
            == Code::NotFound),
{
}

/// What a failed start leaves says whether its lease is given back.
pub proof fn law_failed_start_tells_of_its_lease(error: Seq<char>, release: Result<(), String>)
    ensures
        release is Ok ==> released_after_failure(error, release).cleanup == StartCleanup::Released
            && released_after_failure(error, release).error == error,
        release matches Err(message) ==> released_after_failure(error, release).cleanup
            == StartCleanup::ReleasePending && released_after_failure(error, release).error == error
            + "; release RuntimeResource: "@ + message@,
{
}

/// A sandbox begins unmanaged, with nothing known of it.
pub proof fn law_sandboxes_begin_unmanaged()
    ensures
        unmanaged().phase == Phase::Unmanaged,
        unmanaged().create_request is None,
        unmanaged().sandbox_spec is None,
        unmanaged().runtime is None,
        unmanaged().created_at is None,
        unmanaged().exited_at is None,
        unmanaged().exit_status == 0,
        unmanaged().last_error is None,
{
}

} // verus!
