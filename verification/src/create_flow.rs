//! The creation of a sandbox: one caller runs it, every caller gets the durable
//! result, and a success is told only after it was read back exactly.
use vstd::prelude::*;

use crate::claim::{BeginCreateError, CreateAdmission};
use crate::fingerprint::CreateSandboxRequest;
use crate::lifecycle::{PersistedCreateResult, PersistedCreateResultView};
use crate::paths::{is_rooted, rooted};
use crate::record::{RuntimeResourceOwner, RuntimeOwnerState, RuntimeResourceOwnerView};
use crate::rpc::{
    code_named, rejects_if, rpc, rpc_code_from_name, rpc_error, Code, RpcError, RpcErrorView,
};
use crate::sandbox::{
    lease_view, phase_name, phase_text, LifecycleState, LifecycleStateView, Phase, RuntimeLease,
    RuntimeLeaseView, SandboxSpec, Timestamp,
};
use crate::target::passes_unless;
use crate::text::text_eq;

verus! {

/// How long a caller waits for the durable result.
pub const CREATE_RESULT_TIMEOUT_SECS: u64 = 45;

/// Why a request is refused at once, if it is.
pub open spec fn request_fault(
    own: Seq<char>,
    sandbox_id: Seq<char>,
    bundle_path: Seq<char>,
    has_options: bool,
) -> Option<RpcErrorView> {
    match crate::sandbox::id_fault(own, sandbox_id) {
        Some(error) => Some(error),
        None => if !is_rooted(bundle_path) {
            Some(rpc(Code::InvalidArgument, "bundle_path must be absolute"@))
        } else if !has_options {
            Some(
                rpc(
                    Code::InvalidArgument,
                    "sandbox options must contain CRI v1 PodSandboxConfig"@,
                ),
            )
        } else {
            None
        },
    }
}

/// Checks a request before anything is done for it.
pub fn validate_request(own: &str, request: &CreateSandboxRequest, has_options: bool) -> (r: Result<
    (),
    RpcError,
>)
    ensures
        rejects_if(
            r,
            request_fault(own@, request@.sandbox_id, request@.bundle_path, has_options),
        ),
{
    if let Err(error) = crate::sandbox::validate_id(own, request.sandbox_id.as_str()) {
        return Err(error);
    }
    if !rooted(request.bundle_path.as_str()) {
        return Err(rpc_error(Code::InvalidArgument, "bundle_path must be absolute".to_owned()));
    }
    if !has_options {
        return Err(
            rpc_error(
                Code::InvalidArgument,
                "sandbox options must contain CRI v1 PodSandboxConfig".to_owned(),
            ),
        );
    }
    Ok(())
}

/// What came of a creation.
#[derive(Debug, PartialEq, Eq)]
pub enum CreateOutcome {
    Created { lease: RuntimeLease },
    /// A lease that could not be given back is kept.
    Failed { error: String, kept: Option<RuntimeLease> },
}

/// The contents of a [`CreateOutcome`].
pub enum CreateOutcomeView {
    Created { lease: RuntimeLeaseView },
    Failed { error: Seq<char>, kept: Option<RuntimeLeaseView> },
}

impl View for CreateOutcome {
    type V = CreateOutcomeView;

    open spec fn view(&self) -> CreateOutcomeView {
        match self {
            CreateOutcome::Created { lease } => CreateOutcomeView::Created { lease: lease@ },
            CreateOutcome::Failed { error, kept } => CreateOutcomeView::Failed {
                error: error@,
                kept: lease_view(*kept),
            },
        }
    }
}

/// A step of a creation.
#[derive(Debug, PartialEq, Eq)]
pub enum Creation {
    /// The resources are prepared.
    Preparing,
    /// The sandbox is initialized.
    Initializing { lease: RuntimeLease },
    /// The lease is given back.
    Releasing { held: RuntimeLease, error: String },
    Finished { outcome: CreateOutcome },
}

/// The contents of a [`Creation`].
pub enum CreationView {
    Preparing,
    Initializing { lease: RuntimeLeaseView },
    Releasing { held: RuntimeLeaseView, error: Seq<char> },
    Finished { outcome: CreateOutcomeView },
}

impl View for Creation {
    type V = CreationView;

    open spec fn view(&self) -> CreationView {
        match self {
            Creation::Preparing => CreationView::Preparing,
            Creation::Initializing { lease } => CreationView::Initializing { lease: lease@ },
            Creation::Releasing { held, error } => CreationView::Releasing {
                held: held@,
                error: error@,
            },
            Creation::Finished { outcome } => CreationView::Finished { outcome: outcome@ },
        }
    }
}

/// What comes to a creation.
pub enum CreationEvent {
    Prepared { result: Result<RuntimeLease, String> },
    Answered { answer: Result<(), String> },
}

/// The step after an event.
pub open spec fn creation_next(state: CreationView, event: CreationEvent) -> CreationView {
    match (state, event) {
        (CreationView::Preparing, CreationEvent::Prepared { result }) => match result {
            Ok(lease) => CreationView::Initializing { lease: lease@ },
            Err(error) => CreationView::Finished {
                outcome: CreateOutcomeView::Failed {
                    error: "prepare RuntimeResource: "@ + error@,
                    kept: None,
                },
            },
        },
        (CreationView::Initializing { lease }, CreationEvent::Answered { answer }) => match answer {
            Ok(_) => CreationView::Finished { outcome: CreateOutcomeView::Created { lease } },
            Err(error) => CreationView::Releasing {
                held: lease,
                error: "initialize Cube sandbox: "@ + error@,
            },
        },
        (CreationView::Releasing { held, error }, CreationEvent::Answered { answer }) => {
            CreationView::Finished {
                outcome: match answer {
                    Ok(_) => CreateOutcomeView::Failed { error, kept: None },
                    Err(release) => CreateOutcomeView::Failed {
                        error: error + "; release RuntimeResource: "@ + release@,
                        kept: Some(held),
                    },
                },
            }
        },
        (state, _) => state,
    }
}

impl Creation {
    /// A creation that is about to begin.
    pub fn begin() -> (state: Self)
        ensures
            state@ == CreationView::Preparing,
    {
        Creation::Preparing
    }

    /// The creation after an event.
    pub fn step(self, event: CreationEvent) -> (next: Self)
        ensures
            next@ == creation_next(self@, event),
    {
        match (self, event) {
            (Creation::Preparing, CreationEvent::Prepared { result }) => match result {
                Ok(lease) => Creation::Initializing { lease },
                Err(error) => Creation::Finished {
                    outcome: CreateOutcome::Failed {
                        error: "prepare RuntimeResource: ".to_owned().concat(error.as_str()),
                        kept: None,
                    },
                },
            },
            (Creation::Initializing { lease }, CreationEvent::Answered { answer }) => match answer {
                Ok(_) => Creation::Finished { outcome: CreateOutcome::Created { lease } },
                Err(error) => Creation::Releasing {
                    held: lease,
                    error: "initialize Cube sandbox: ".to_owned().concat(error.as_str()),
                },
            },
            (Creation::Releasing { held, error }, CreationEvent::Answered { answer }) => {
                Creation::Finished {
                    outcome: match answer {
                        Ok(_) => CreateOutcome::Failed { error, kept: None },
                        Err(release) => CreateOutcome::Failed {
                            error: error.concat("; release RuntimeResource: ").concat(
                                release.as_str(),
                            ),
                            kept: Some(held),
                        },
                    },
                }
            },
            (state, _) => state,
        }
    }
}

/// A sandbox after its creation.
pub open spec fn create_applied(
    state: LifecycleStateView,
    outcome: CreateOutcomeView,
    now: Timestamp,
) -> LifecycleStateView {
    match outcome {
        CreateOutcomeView::Created { lease } => LifecycleStateView {
            phase: Phase::Created,
            runtime: Some(lease),
            last_error: None,
            ..state
        },
        CreateOutcomeView::Failed { error, kept } => LifecycleStateView {
            phase: Phase::Failed,
            runtime: kept,
            exit_status: 1,
            exited_at: Some(now),
            last_error: Some(error),
            ..state
        },
    }
}

/// The durable result of a creation.
pub open spec fn durable_result(outcome: CreateOutcomeView) -> PersistedCreateResultView {
    match outcome {
        CreateOutcomeView::Created { .. } => PersistedCreateResultView::Succeeded,
        CreateOutcomeView::Failed { error, .. } => PersistedCreateResultView::Failed {
            code: "FAILED_PRECONDITION"@,
            message: error,
        },
    }
}

/// Notes what came of a creation, and tells what is to be published.
pub fn finish_create(state: &mut LifecycleState, outcome: CreateOutcome, now: Timestamp) -> (r:
    PersistedCreateResult)
    ensures
        final(state)@ == create_applied(old(state)@, outcome@, now),
        r@ == durable_result(outcome@),
{
    match outcome {
        CreateOutcome::Created { lease } => {
            state.phase = Phase::Created;
            state.runtime = Some(lease);
            state.last_error = None;
            PersistedCreateResult::Succeeded
        },
        CreateOutcome::Failed { error, kept } => {
            state.phase = Phase::Failed;
            state.runtime = kept;
            state.exit_status = 1;
            state.exited_at = Some(now);
            state.last_error = Some(error.clone());
            PersistedCreateResult::Failed {
                code: "FAILED_PRECONDITION".to_owned(),
                message: error,
            }
        },
    }
}

/// Begins the creation: the first one, in a sandbox of which nothing is known.
pub fn begin_create(state: &mut LifecycleState, fingerprint: Vec<u8>, spec: SandboxSpec) -> (r: Result<
    (),
    RpcError,
>)
    ensures
        rejects_if(
            r,
            if old(state)@.phase == Phase::Unmanaged {
                None
            } else {
                Some(
                    rpc(
                        Code::Internal,
                        "first durable Create found local phase "@ + phase_text(
                            old(state)@.phase,
                        ),
                    ),
                )
            },
        ),
        final(state)@ == (if r is Ok {
            LifecycleStateView {
                phase: Phase::Creating,
                create_request: Some(fingerprint@),
                sandbox_spec: Some(spec@),
                ..old(state)@
            }
        } else {
            old(state)@
        }),
{
    match state.phase {
        Phase::Unmanaged => {
            state.phase = Phase::Creating;
            state.create_request = Some(fingerprint);
            state.sandbox_spec = Some(spec);
            Ok(())
        },
        phase => Err(
            rpc_error(
                Code::Internal,
                "first durable Create found local phase ".to_owned().concat(phase_name(phase)),
            ),
        ),
    }
}

/// Why a sandbox does not bear a durable success out, if it does not.
pub open spec fn local_fault(state: LifecycleStateView, fingerprint: Seq<u8>) -> Option<Seq<char>> {
    if !(state.phase == Phase::Created || state.phase == Phase::Starting || state.phase
        == Phase::Ready) {
        Some("durable CreateSandbox success has local phase "@ + phase_text(state.phase))
    } else if state.create_request != Some(fingerprint) {
        Some("durable CreateSandbox success has a different local request"@)
    } else if state.sandbox_spec is None {
        Some("durable CreateSandbox success has no local OCI spec"@)
    } else if state.runtime is None {
        Some("durable CreateSandbox success has no RuntimeResource lease"@)
    } else {
        None
    }
}

fn same_bytes(a: &Vec<u8>, b: &[u8]) -> (r: bool)
    ensures
        r == (a@ == b@),
{
    if a.len() != b.len() {
        return false;
    }
    let mut i: usize = 0;
    while i < a.len()
        invariant
            i <= a@.len(),
            a@.len() == b@.len(),
            forall|k: int| 0 <= k < i ==> a@[k] == b@[k],
        decreases a.len() - i,
    {
        if a[i] != b[i] {
            return false;
        }
        i = i + 1;
    }
    assert(a@ =~= b@);
    true
}

/// Checks that a sandbox bears a durable success out.
pub fn check_local_create(state: &LifecycleState, fingerprint: &[u8]) -> (r: Result<(), String>)
    ensures
        passes_unless(r, local_fault(state@, fingerprint@)),
{
    match state.phase {
        Phase::Created | Phase::Starting | Phase::Ready => {},
        phase => return Err(
            "durable CreateSandbox success has local phase ".to_owned().concat(phase_name(phase)),
        ),
    }
    let same = match &state.create_request {
        Some(request) => same_bytes(request, fingerprint),
        None => false,
    };
    if !same {
        return Err("durable CreateSandbox success has a different local request".to_owned());
    }
    if state.sandbox_spec.is_none() {
        return Err("durable CreateSandbox success has no local OCI spec".to_owned());
    }
    if state.runtime.is_none() {
        return Err("durable CreateSandbox success has no RuntimeResource lease".to_owned());
    }
    Ok(())
}

/// Checks that the sandbox of a durable success is initialized.
pub fn check_initialized(initialized: bool) -> (r: Result<(), String>)
    ensures
        passes_unless(
            r,
            if initialized {
                None
            } else {
                Some("durable CreateSandbox success has no initialized Cube sandbox"@)
            },
        ),
{
    if !initialized {
        return Err("durable CreateSandbox success has no initialized Cube sandbox".to_owned());
    }
    Ok(())
}

/// Whether the durable owner of the resources holds exactly this lease.
pub open spec fn owns_lease(owner: RuntimeResourceOwnerView, lease: RuntimeLeaseView) -> bool {
    &&& owner.state == RuntimeOwnerState::Allocated
    &&& owner.endpoint == Some(lease.endpoint)
    &&& owner.sandbox_id == Some(lease.sandbox_id)
    &&& owner.lease_id == Some(lease.lease_id)
    &&& owner.resource_generation == Some(lease.generation)
}

/// Checks that the durable owner of the resources holds exactly this lease.
pub fn check_runtime_owner(owner: &RuntimeResourceOwner, lease: &RuntimeLease) -> (r: Result<(), String>)
    ensures
        passes_unless(
            r,
            if owns_lease(owner@, lease@) {
                None
            } else {
                Some("durable CreateSandbox success does not match the RuntimeResource owner"@)
            },
        ),
{
    let same = match owner.release_identity() {
        Some((endpoint, sandbox, lease_id, generation)) => text_eq(
            endpoint,
            lease.endpoint.as_str(),
        ) && text_eq(sandbox, lease.sandbox_id.as_str()) && text_eq(
            lease_id,
            lease.lease_id.as_str(),
        ) && generation == lease.generation,
        None => false,
    };
    if owner.state() != RuntimeOwnerState::Allocated || !same {
        return Err(
            "durable CreateSandbox success does not match the RuntimeResource owner".to_owned(),
        );
    }
    Ok(())
}

/// A step of the readback of a durable success.
#[derive(Clone, Copy, Debug, PartialEq, Eq, Structural)]
pub enum ReadbackStep {
    /// The fenced operation begins.
    Begin,
    VerifyControllers,
    CheckLocal,
    CheckInitialized,
    CheckOwner,
    Verify,
    /// The provider is asked for the lease.
    Inspect,
    VerifyAgain,
}

/// The step after a step that succeeded.
pub open spec fn readback_after(step: ReadbackStep) -> Option<ReadbackStep> {
    match step {
        ReadbackStep::Begin => Some(ReadbackStep::VerifyControllers),
        ReadbackStep::VerifyControllers => Some(ReadbackStep::CheckLocal),
        ReadbackStep::CheckLocal => Some(ReadbackStep::CheckInitialized),
        ReadbackStep::CheckInitialized => Some(ReadbackStep::CheckOwner),
        ReadbackStep::CheckOwner => Some(ReadbackStep::Verify),
        ReadbackStep::Verify => Some(ReadbackStep::Inspect),
        ReadbackStep::Inspect => Some(ReadbackStep::VerifyAgain),
        ReadbackStep::VerifyAgain => None,
    }
}

/// Where the readback of a durable success stands.
#[derive(Debug, PartialEq, Eq)]
pub enum Readback {
    Acting { step: ReadbackStep },
    /// The cleanup of a degraded sandbox is made durable.
    Degrading { reason: String },
    Confirmed,
    Failed { message: String },
}

/// The contents of a [`Readback`].
pub enum ReadbackView {
    Acting { step: ReadbackStep },
    Degrading { reason: Seq<char> },
    Confirmed,
    Failed { message: Seq<char> },
}

impl View for Readback {
    type V = ReadbackView;

    open spec fn view(&self) -> ReadbackView {
        match self {
            Readback::Acting { step } => ReadbackView::Acting { step: *step },
            Readback::Degrading { reason } => ReadbackView::Degrading { reason: reason@ },
            Readback::Confirmed => ReadbackView::Confirmed,
            Readback::Failed { message } => ReadbackView::Failed { message: message@ },
        }
    }
}

/// Where a readback stands after the result of its step.
pub open spec fn readback_next(state: ReadbackView, result: Result<(), String>) -> ReadbackView {
    match state {
        ReadbackView::Acting { step } => match result {
            Ok(_) => match readback_after(step) {
                Some(step) => ReadbackView::Acting { step },
                None => ReadbackView::Confirmed,
            },
            Err(error) => ReadbackView::Degrading {
                reason: "durable CreateSandbox success exact readback failed: "@ + error@,
            },
        },
        ReadbackView::Degrading { reason } => ReadbackView::Failed {
            message: match result {
                Ok(_) => reason,
                Err(error) => reason + "; persist terminal DEGRADED cleanup: "@ + error@,
            },
        },
        state => state,
    }
}

impl Readback {
    /// A readback that is about to begin.
    pub fn begin() -> (state: Self)
        ensures
            state@ == (ReadbackView::Acting { step: ReadbackStep::Begin }),
    {
        Readback::Acting { step: ReadbackStep::Begin }
    }

    /// The readback after the result of its step.
    pub fn step(self, result: Result<(), String>) -> (next: Self)
        ensures
            next@ == readback_next(self@, result),
    {
        match (self, result) {
            (Readback::Acting { step }, Ok(_)) => match step {
                ReadbackStep::Begin => Readback::Acting { step: ReadbackStep::VerifyControllers },
                ReadbackStep::VerifyControllers => Readback::Acting {
                    step: ReadbackStep::CheckLocal,
                },
                ReadbackStep::CheckLocal => Readback::Acting {
                    step: ReadbackStep::CheckInitialized,
                },
                ReadbackStep::CheckInitialized => Readback::Acting {
                    step: ReadbackStep::CheckOwner,
                },
                ReadbackStep::CheckOwner => Readback::Acting { step: ReadbackStep::Verify },
                ReadbackStep::Verify => Readback::Acting { step: ReadbackStep::Inspect },
                ReadbackStep::Inspect => Readback::Acting { step: ReadbackStep::VerifyAgain },
                ReadbackStep::VerifyAgain => Readback::Confirmed,
            },
            (Readback::Acting { .. }, Err(error)) => Readback::Degrading {
                reason: "durable CreateSandbox success exact readback failed: ".to_owned().concat(
                    error.as_str(),
                ),
            },
            (Readback::Degrading { reason }, Ok(_)) => Readback::Failed { message: reason },
            (Readback::Degrading { reason }, Err(error)) => Readback::Failed {
                message: reason.concat("; persist terminal DEGRADED cleanup: ").concat(
                    error.as_str(),
                ),
            },
            (state, _) => state,
        }
    }
}

/// A step of a Create call.
#[derive(Clone, Copy, Debug, PartialEq, Eq, Structural)]
pub enum CreateStep {
    /// The options of the request are decoded.
    DecodeConfig,
    /// The durable lifecycle is looked up.
    LoadLifecycle,
    /// The lifecycle is claimed for the request.
    Claim,
    /// The namespaces of the request are checked.
    CheckNamespaces,
    /// The parent of the request's cgroup is checked.
    CheckParent,
    /// The specification of the bundle is read.
    LoadSpec,
    /// The annotations of the request are merged into it.
    MergeAnnotations,
    /// The resources are planned.
    Plan,
    /// The specification is written down for the callers.
    EncodeSpec,
    /// The server is moved into the cgroup of the pod.
    Place,
    /// The limits of the pod are set.
    ApplyCeiling,
    /// The creation begins.
    Begin,
}

/// What was wrong with a Create that is rejected.
#[derive(Clone, Copy, Debug, PartialEq, Eq, Structural)]
pub enum Rejection {
    Semantics,
    Placement,
    Ceiling,
    Local,
}

/// Where a Create call stands.
#[derive(Debug, PartialEq, Eq)]
pub enum CallStage {
    Acting { step: CreateStep },
    /// The failure is made durable.
    Publishing { error: RpcError, cause: Rejection },
    /// The call leaves those who wait for the failure that it published.
    Leaving { error: RpcError, cause: Rejection },
    /// The durable result is awaited.
    Waiting,
    /// The durable success is read back.
    Confirming,
    /// The call leaves those who wait.
    Finishing { outcome: Result<(), RpcError> },
    Ended { outcome: Result<(), RpcError> },
}

/// The contents of a [`CallStage`].
pub enum CallStageView {
    Acting { step: CreateStep },
    Publishing { error: RpcErrorView, cause: Rejection },
    Leaving { error: RpcErrorView, cause: Rejection },
    Waiting,
    Confirming,
    Finishing { outcome: Result<(), RpcErrorView> },
    Ended { outcome: Result<(), RpcErrorView> },
}

/// The contents of the result of a call.
pub open spec fn outcome_view(outcome: Result<(), RpcError>) -> Result<(), RpcErrorView> {
    match outcome {
        Ok(_) => Ok(()),
        Err(error) => Err(error@),
    }
}

impl View for CallStage {
    type V = CallStageView;

    open spec fn view(&self) -> CallStageView {
        match self {
            CallStage::Acting { step } => CallStageView::Acting { step: *step },
            CallStage::Publishing { error, cause } => CallStageView::Publishing {
                error: error@,
                cause: *cause,
            },
            CallStage::Leaving { error, cause } => CallStageView::Leaving {
                error: error@,
                cause: *cause,
            },
            CallStage::Waiting => CallStageView::Waiting,
            CallStage::Confirming => CallStageView::Confirming,
            CallStage::Finishing { outcome } => CallStageView::Finishing {
                outcome: outcome_view(*outcome),
            },
            CallStage::Ended { outcome } => CallStageView::Ended {
                outcome: outcome_view(*outcome),
            },
        }
    }
}

/// What comes to a Create call.
pub enum CallEvent {
    /// Whether the step succeeded.
    Answered { answer: Result<(), String> },
    /// Whether the durable lifecycle was found.
    Loaded { found: Result<bool, String> },
    /// Whether the lifecycle is this call's.
    Claimed { admission: Result<CreateAdmission, BeginCreateError> },
    /// Whether the creation began.
    Begun { begun: Result<(), RpcError> },
    /// The durable result, or that none came.
    Settled { settled: Result<PersistedCreateResult, String> },
}

/// A Create call.
#[derive(Debug, PartialEq, Eq)]
pub struct CreateCall {
    /// Whether the request names a network namespace by an absolute path.
    pub netns_absolute: bool,
    pub stage: CallStage,
}

/// The contents of a [`CreateCall`].
pub struct CreateCallView {
    pub netns_absolute: bool,
    pub stage: CallStageView,
}

impl View for CreateCall {
    type V = CreateCallView;

    open spec fn view(&self) -> CreateCallView {
        CreateCallView { netns_absolute: self.netns_absolute, stage: self.stage@ }
    }
}

/// A call that ends with an error at once.
pub open spec fn refused(code: Code, message: Seq<char>) -> CallStageView {
    CallStageView::Ended { outcome: Err(rpc(code, message)) }
}

/// A call whose error is published first.
pub open spec fn rejected(code: Code, message: Seq<char>, cause: Rejection) -> CallStageView {
    CallStageView::Publishing { error: rpc(code, message), cause }
}

/// Where a call stands after its step succeeded.
pub open spec fn call_step_done(state: CreateCallView, step: CreateStep) -> CallStageView {
    match step {
        CreateStep::DecodeConfig => CallStageView::Acting { step: CreateStep::LoadLifecycle },
        CreateStep::CheckNamespaces => if state.netns_absolute {
            CallStageView::Acting { step: CreateStep::CheckParent }
        } else {
            rejected(
                Code::InvalidArgument,
                "netns_path must be absolute; host-network sandboxes are not supported"@,
                Rejection::Semantics,
            )
        },
        CreateStep::CheckParent => CallStageView::Acting { step: CreateStep::LoadSpec },
        CreateStep::LoadSpec => CallStageView::Acting { step: CreateStep::MergeAnnotations },
        CreateStep::MergeAnnotations => CallStageView::Acting { step: CreateStep::Plan },
        CreateStep::Plan => CallStageView::Acting { step: CreateStep::EncodeSpec },
        CreateStep::EncodeSpec => CallStageView::Acting { step: CreateStep::Place },
        CreateStep::Place => CallStageView::Acting { step: CreateStep::ApplyCeiling },
        CreateStep::ApplyCeiling => CallStageView::Acting { step: CreateStep::Begin },
        _ => state.stage,
    }
}

/// Where a call stands after its step failed.
pub open spec fn call_step_failed(state: CreateCallView, step: CreateStep, error: Seq<char>) -> CallStageView {
    match step {
        CreateStep::DecodeConfig => refused(Code::InvalidArgument, error),
        CreateStep::CheckNamespaces
        | CreateStep::CheckParent
        | CreateStep::MergeAnnotations
        | CreateStep::Plan
        | CreateStep::EncodeSpec => rejected(Code::InvalidArgument, error, Rejection::Semantics),
        CreateStep::LoadSpec => rejected(
            Code::InvalidArgument,
            "load sandbox bundle spec: "@ + error,
            Rejection::Semantics,
        ),
        CreateStep::Place => rejected(
            Code::Internal,
            "place CubeShim server in Host Pod cgroup: "@ + error,
            Rejection::Placement,
        ),
        CreateStep::ApplyCeiling => rejected(
            Code::Internal,
            "apply Host Pod resource ceiling: "@ + error,
            Rejection::Ceiling,
        ),
        _ => state.stage,
    }
}

/// Where a call stands that published its failure, or could not tell whether
/// it did.
pub open spec fn call_published(
    error: RpcErrorView,
    cause: Rejection,
    answer: Result<(), String>,
) -> CallStageView {
    match (cause, answer) {
        (Rejection::Semantics, Err(join)) => refused(
            Code::Internal,
            "join rejected CreateSandbox publisher: "@ + join@,
        ),
        (Rejection::Local, Err(join)) => refused(
            Code::Internal,
            "join failed CreateSandbox publisher: "@ + join@,
        ),
        _ => CallStageView::Leaving { error, cause },
    }
}

/// Where a call stands that left those who wait for the failure it published.
pub open spec fn call_left(error: RpcErrorView, cause: Rejection, answer: Result<(), String>) -> CallStageView {
    match (cause, answer) {
        (Rejection::Semantics, Err(failure)) => refused(
            Code::Internal,
            "finish rejected CreateSandbox waiter: "@ + failure@,
        ),
        (Rejection::Placement, Err(failure)) => refused(
            Code::Internal,
            "finish failed Host placement waiter: "@ + failure@,
        ),
        (Rejection::Ceiling, Err(failure)) => refused(
            Code::Internal,
            "finish failed Host controller waiter: "@ + failure@,
        ),
        _ => CallStageView::Ended { outcome: Err(error) },
    }
}

/// Where a call stands after an event; an event that does not answer the stage
/// changes nothing.
pub open spec fn call_next(state: CreateCallView, event: CallEvent) -> CallStageView {
    match (state.stage, event) {
        (CallStageView::Acting { step }, CallEvent::Answered { answer }) => match answer {
            Ok(_) => call_step_done(state, step),
            Err(error) => call_step_failed(state, step, error@),
        },
        (
            CallStageView::Acting { step: CreateStep::LoadLifecycle },
            CallEvent::Loaded { found },
        ) => match found {
            Ok(true) => CallStageView::Acting { step: CreateStep::Claim },
            Ok(false) => refused(
                Code::FailedPrecondition,
                "managed CreateSandbox has no external shim lifecycle"@,
            ),
            Err(error) => refused(Code::FailedPrecondition, error@),
        },
        (
            CallStageView::Acting { step: CreateStep::Claim },
            CallEvent::Claimed { admission },
        ) => match admission {
            Ok(CreateAdmission::First) => CallStageView::Acting {
                step: CreateStep::CheckNamespaces,
            },
            Ok(_) => CallStageView::Waiting,
            Err(BeginCreateError::Conflict(message)) => refused(Code::AlreadyExists, message@),
            Err(BeginCreateError::Invalid(message)) => refused(Code::FailedPrecondition, message@),
        },
        (CallStageView::Acting { step: CreateStep::Begin }, CallEvent::Begun { begun }) => match begun {
            Ok(_) => CallStageView::Waiting,
            Err(error) => CallStageView::Publishing { error: error@, cause: Rejection::Local },
        },
        (
            CallStageView::Publishing { error, cause },
            CallEvent::Answered { answer },
        ) => call_published(error, cause, answer),
        (CallStageView::Leaving { error, cause }, CallEvent::Answered { answer }) => call_left(
            error,
            cause,
            answer,
        ),
        (CallStageView::Waiting, CallEvent::Settled { settled }) => match settled {
            Ok(PersistedCreateResult::Succeeded) => CallStageView::Confirming,
            Ok(PersistedCreateResult::Failed { code, message }) => CallStageView::Finishing {
                outcome: Err(rpc(code_named(code@), message@)),
            },
            Err(error) => CallStageView::Finishing { outcome: Err(rpc(Code::Internal, error@)) },
        },
        (CallStageView::Confirming, CallEvent::Answered { answer }) => CallStageView::Finishing {
            outcome: match answer {
                Ok(_) => Ok(()),
                Err(error) => Err(rpc(Code::Internal, error@)),
            },
        },
        (CallStageView::Finishing { outcome }, CallEvent::Answered { answer }) => match answer {
            Ok(_) => CallStageView::Ended { outcome },
            Err(error) => refused(Code::Internal, "finish CreateSandbox waiter: "@ + error@),
        },
        (stage, _) => stage,
    }
}

fn refuse(code: Code, message: String) -> (stage: CallStage)
    ensures
        stage@ == refused(code, message@),
{
    CallStage::Ended { outcome: Err(rpc_error(code, message)) }
}

fn reject(code: Code, message: String, cause: Rejection) -> (stage: CallStage)
    ensures
        stage@ == rejected(code, message@, cause),
{
    CallStage::Publishing { error: rpc_error(code, message), cause }
}

fn after_step(netns_absolute: bool, step: CreateStep) -> (stage: CallStage)
    ensures
        stage@ == call_step_done(
            CreateCallView { netns_absolute, stage: CallStageView::Acting { step } },
            step,
        ),
{
    match step {
        CreateStep::DecodeConfig => CallStage::Acting { step: CreateStep::LoadLifecycle },
        CreateStep::CheckNamespaces => if netns_absolute {
            CallStage::Acting { step: CreateStep::CheckParent }
        } else {
            reject(
                Code::InvalidArgument,
                "netns_path must be absolute; host-network sandboxes are not supported".to_owned(),
                Rejection::Semantics,
            )
        },
        CreateStep::CheckParent => CallStage::Acting { step: CreateStep::LoadSpec },
        CreateStep::LoadSpec => CallStage::Acting { step: CreateStep::MergeAnnotations },
        CreateStep::MergeAnnotations => CallStage::Acting { step: CreateStep::Plan },
        CreateStep::Plan => CallStage::Acting { step: CreateStep::EncodeSpec },
        CreateStep::EncodeSpec => CallStage::Acting { step: CreateStep::Place },
        CreateStep::Place => CallStage::Acting { step: CreateStep::ApplyCeiling },
        CreateStep::ApplyCeiling => CallStage::Acting { step: CreateStep::Begin },
        _ => CallStage::Acting { step },
    }
}

fn after_failure(netns_absolute: bool, step: CreateStep, error: String) -> (stage: CallStage)
    ensures
        stage@ == call_step_failed(
            CreateCallView { netns_absolute, stage: CallStageView::Acting { step } },
            step,
            error@,
        ),
{
    match step {
        CreateStep::DecodeConfig => refuse(Code::InvalidArgument, error),
        CreateStep::CheckNamespaces
        | CreateStep::CheckParent
        | CreateStep::MergeAnnotations
        | CreateStep::Plan
        | CreateStep::EncodeSpec => reject(Code::InvalidArgument, error, Rejection::Semantics),
        CreateStep::LoadSpec => reject(
            Code::InvalidArgument,
            "load sandbox bundle spec: ".to_owned().concat(error.as_str()),
            Rejection::Semantics,
        ),
        CreateStep::Place => reject(
            Code::Internal,
            "place CubeShim server in Host Pod cgroup: ".to_owned().concat(error.as_str()),
            Rejection::Placement,
        ),
        CreateStep::ApplyCeiling => reject(
            Code::Internal,
            "apply Host Pod resource ceiling: ".to_owned().concat(error.as_str()),
            Rejection::Ceiling,
        ),
        _ => CallStage::Acting { step },
    }
}

fn after_publishing(error: RpcError, cause: Rejection, answer: Result<(), String>) -> (stage: CallStage)
    ensures
        stage@ == call_published(error@, cause, answer),
{
    match (cause, answer) {
        (Rejection::Semantics, Err(join)) => refuse(
            Code::Internal,
            "join rejected CreateSandbox publisher: ".to_owned().concat(join.as_str()),
        ),
        (Rejection::Local, Err(join)) => refuse(
            Code::Internal,
            "join failed CreateSandbox publisher: ".to_owned().concat(join.as_str()),
        ),
        _ => CallStage::Leaving { error, cause },
    }
}

fn after_leaving(error: RpcError, cause: Rejection, answer: Result<(), String>) -> (stage: CallStage)
    ensures
        stage@ == call_left(error@, cause, answer),
{
    match (cause, answer) {
        (Rejection::Semantics, Err(failure)) => refuse(
            Code::Internal,
            "finish rejected CreateSandbox waiter: ".to_owned().concat(failure.as_str()),
        ),
        (Rejection::Placement, Err(failure)) => refuse(
            Code::Internal,
            "finish failed Host placement waiter: ".to_owned().concat(failure.as_str()),
        ),
        (Rejection::Ceiling, Err(failure)) => refuse(
            Code::Internal,
            "finish failed Host controller waiter: ".to_owned().concat(failure.as_str()),
        ),
        _ => CallStage::Ended { outcome: Err(error) },
    }
}

impl CreateCall {
    /// A call for a request that is in order so far.
    pub fn begin(request: &CreateSandboxRequest) -> (state: Self)
        ensures
            state@ == (CreateCallView {
                netns_absolute: is_rooted(request@.netns_path),
                stage: CallStageView::Acting { step: CreateStep::DecodeConfig },
            }),
    {
        CreateCall {
            netns_absolute: rooted(request.netns_path.as_str()),
            stage: CallStage::Acting { step: CreateStep::DecodeConfig },
        }
    }

    /// The call after an event.
    pub fn step(self, event: CallEvent) -> (next: Self)
        ensures
            next@ == (CreateCallView { stage: call_next(self@, event), ..self@ }),
    {
        let netns_absolute = self.netns_absolute;
        let stage = match (self.stage, event) {
            (CallStage::Acting { step }, CallEvent::Answered { answer }) => match answer {
                Ok(_) => after_step(netns_absolute, step),
                Err(error) => after_failure(netns_absolute, step, error),
            },
            (
                CallStage::Acting { step: CreateStep::LoadLifecycle },
                CallEvent::Loaded { found },
            ) => match found {
                Ok(true) => CallStage::Acting { step: CreateStep::Claim },
                Ok(false) => refuse(
                    Code::FailedPrecondition,
                    "managed CreateSandbox has no external shim lifecycle".to_owned(),
                ),
                Err(error) => refuse(Code::FailedPrecondition, error),
            },
            (
                CallStage::Acting { step: CreateStep::Claim },
                CallEvent::Claimed { admission },
            ) => match admission {
                Ok(CreateAdmission::First) => CallStage::Acting {
                    step: CreateStep::CheckNamespaces,
                },
                Ok(_) => CallStage::Waiting,
                Err(BeginCreateError::Conflict(message)) => refuse(Code::AlreadyExists, message),
                Err(BeginCreateError::Invalid(message)) => refuse(
                    Code::FailedPrecondition,
                    message,
                ),
            },
            (CallStage::Acting { step: CreateStep::Begin }, CallEvent::Begun { begun }) => {
                match begun {
                    Ok(_) => CallStage::Waiting,
                    Err(error) => CallStage::Publishing { error, cause: Rejection::Local },
                }
            },
            (CallStage::Publishing { error, cause }, CallEvent::Answered { answer }) => {
                after_publishing(error, cause, answer)
            },
            (CallStage::Leaving { error, cause }, CallEvent::Answered { answer }) => after_leaving(
                error,
                cause,
                answer,
            ),
            (CallStage::Waiting, CallEvent::Settled { settled }) => match settled {
                Ok(PersistedCreateResult::Succeeded) => CallStage::Confirming,
                Ok(PersistedCreateResult::Failed { code, message }) => CallStage::Finishing {
                    outcome: Err(rpc_error(rpc_code_from_name(code.as_str()), message)),
                },
                Err(error) => CallStage::Finishing {
                    outcome: Err(rpc_error(Code::Internal, error)),
                },
            },
            (CallStage::Confirming, CallEvent::Answered { answer }) => CallStage::Finishing {
                outcome: match answer {
                    Ok(_) => Ok(()),
                    Err(error) => Err(rpc_error(Code::Internal, error)),
                },
            },
            (CallStage::Finishing { outcome }, CallEvent::Answered { answer }) => match answer {
                Ok(_) => CallStage::Ended { outcome },
                Err(error) => refuse(
                    Code::Internal,
                    "finish CreateSandbox waiter: ".to_owned().concat(error.as_str()),
                ),
            },
            (stage, _) => stage,
        };
        CreateCall { netns_absolute, stage }
    }
}

/// A call tells of a success only after the durable success was read back.
pub proof fn law_success_is_confirmed(state: CreateCallView, event: CallEvent)
    ensures
        call_next(state, event) matches CallStageView::Ended { outcome: Ok(_) } ==> (state.stage
            matches CallStageView::Ended { outcome: Ok(_) }) || (state.stage
            matches CallStageView::Finishing { outcome: Ok(_) }),
        call_next(state, event) matches CallStageView::Finishing { outcome: Ok(_) } ==> (state.stage
            matches CallStageView::Finishing { outcome: Ok(_) }) || (state.stage is Confirming
            && (event matches CallEvent::Answered { answer: Ok(_) })),
        call_next(state, event) is Confirming ==> state.stage is Confirming || (state.stage is Waiting
            && (event matches CallEvent::Settled { settled: Ok(PersistedCreateResult::Succeeded) })),
{
}

/// Only the first call places the server, sets limits and begins the creation,
/// and only after the request was found in order.
pub proof fn law_only_the_first_call_acts(state: CreateCallView, event: CallEvent)
    ensures
        ({
            let next = call_next(state, event);
            &&& next == (CallStageView::Acting { step: CreateStep::CheckNamespaces }) ==> state.stage
                == next || (state.stage == (CallStageView::Acting { step: CreateStep::Claim })
                && (event matches CallEvent::Claimed { admission: Ok(CreateAdmission::First) }))
            &&& next == (CallStageView::Acting { step: CreateStep::Place }) ==> state.stage == next
                || state.stage == (CallStageView::Acting { step: CreateStep::EncodeSpec })
            &&& next == (CallStageView::Acting { step: CreateStep::ApplyCeiling }) ==> state.stage
                == next || state.stage == (CallStageView::Acting { step: CreateStep::Place })
            &&& next == (CallStageView::Acting { step: CreateStep::Begin }) ==> state.stage == next
                || state.stage == (CallStageView::Acting { step: CreateStep::ApplyCeiling })
        }),
{
}

/// What a call that owns the lifecycle fails with is published before the call
/// ends: no such step ends it.
pub proof fn law_failures_are_published(state: CreateCallView, event: CallEvent)
    requires
        state.stage matches CallStageView::Acting { step } && step != CreateStep::DecodeConfig
            && step != CreateStep::LoadLifecycle && step != CreateStep::Claim,
    ensures
        !(call_next(state, event) is Ended),
        !(call_next(state, event) is Finishing),
{
}

/// A lease is kept after a creation that failed exactly when it could not be
/// given back.
pub proof fn law_failed_creation_keeps_only_a_stuck_lease(state: CreationView, event: CreationEvent)
    requires
        !(state is Finished),
        creation_next(state, event) matches CreationView::Finished {
            outcome: CreateOutcomeView::Failed { kept: Some(_), .. },
        },
    ensures
        state is Releasing,
        event matches CreationEvent::Answered { answer: Err(_) },
{
}

/// Whether a request for the cleanup is settled: it was made durable, or there
/// is no lifecycle to clean up.
pub fn cleanup_settled(lifecycle: &Result<bool, String>, request: &Result<(), String>) -> (settled: bool)
    ensures
        settled == (match lifecycle {
            Ok(found) => !*found || *request is Ok,
            Err(_) => false,
        }),
{
    match lifecycle {
        Ok(found) => !*found || request.is_ok(),
        Err(_) => false,
    }
}

/// How long a request for the cleanup that is not settled is put off.
pub const CLEANUP_RETRY_MS: u64 = 100;

/// A call that meets no failure goes through all of its steps: the first call
/// checks the request before it places the server, sets the limits before it
/// begins the creation, and waits for the durable result; every other call that
/// is admitted only waits.
pub proof fn law_undisturbed_call_reaches_the_result(
    netns_absolute: bool,
    admission: CreateAdmission,
)
    requires
        netns_absolute,
    ensures
        ({
            let at = |stage: CallStageView| CreateCallView { netns_absolute, stage };
            let acting = |step: CreateStep| at(CallStageView::Acting { step });
            let good = CallEvent::Answered { answer: Ok(()) };
            &&& call_next(acting(CreateStep::DecodeConfig), good) == (CallStageView::Acting {
                step: CreateStep::LoadLifecycle,
            })
            &&& call_next(
                acting(CreateStep::LoadLifecycle),
                CallEvent::Loaded { found: Ok(true) },
            ) == (CallStageView::Acting { step: CreateStep::Claim })
            &&& call_next(
                acting(CreateStep::Claim),
                CallEvent::Claimed { admission: Ok(admission) },
            ) == (if admission == CreateAdmission::First {
                CallStageView::Acting { step: CreateStep::CheckNamespaces }
            } else {
                CallStageView::Waiting
            })
            &&& call_next(acting(CreateStep::CheckNamespaces), good) == (CallStageView::Acting {
                step: CreateStep::CheckParent,
            })
            &&& call_next(acting(CreateStep::CheckParent), good) == (CallStageView::Acting {
                step: CreateStep::LoadSpec,
            })
            &&& call_next(acting(CreateStep::LoadSpec), good) == (CallStageView::Acting {
                step: CreateStep::MergeAnnotations,
            })
            &&& call_next(acting(CreateStep::MergeAnnotations), good) == (CallStageView::Acting {
                step: CreateStep::Plan,
            })
            &&& call_next(acting(CreateStep::Plan), good) == (CallStageView::Acting {
                step: CreateStep::EncodeSpec,
            })
            &&& call_next(acting(CreateStep::EncodeSpec), good) == (CallStageView::Acting {
                step: CreateStep::Place,
            })
            &&& call_next(acting(CreateStep::Place), good) == (CallStageView::Acting {
                step: CreateStep::ApplyCeiling,
            })
            &&& call_next(acting(CreateStep::ApplyCeiling), good) == (CallStageView::Acting {
                step: CreateStep::Begin,
            })
            &&& call_next(acting(CreateStep::Begin), CallEvent::Begun { begun: Ok(()) }) is Waiting
            &&& call_next(
                at(CallStageView::Waiting),
                CallEvent::Settled { settled: Ok(PersistedCreateResult::Succeeded) },
            ) is Confirming
            &&& call_next(at(CallStageView::Confirming), good) == (CallStageView::Finishing {
                outcome: Ok(()),
            })
            &&& call_next(at(CallStageView::Finishing { outcome: Ok(()) }), good) == (
            CallStageView::Ended { outcome: Ok(()) })
        }),
{
}

/// A failure that became durable is told to every call that waits for it, with
/// the kind that its name stands for and its message; a result that did not
/// come, and a success that could not be confirmed, are internal errors.
pub proof fn law_durable_failure_is_told(
    state: CreateCallView,
    code: String,
    message: String,
    error: String,
    outcome: Result<(), RpcErrorView>,
)
    ensures
        ({
            let at = |stage: CallStageView| CreateCallView { stage, ..state };
            &&& call_next(
                at(CallStageView::Waiting),
                CallEvent::Settled { settled: Ok(PersistedCreateResult::Failed { code, message }) },
            ) matches CallStageView::Finishing { outcome: Err(told) } && told.message == message@
                && told.code == code_named(code@)
            &&& call_next(
                at(CallStageView::Waiting),
                CallEvent::Settled { settled: Err(error) },
            ) matches CallStageView::Finishing { outcome: Err(told) } && told.message == error@
                && told.code == Code::Internal
            &&& call_next(
                at(CallStageView::Confirming),
                CallEvent::Answered { answer: Err(error) },
            ) matches CallStageView::Finishing { outcome: Err(told) } && told.message == error@
                && told.code == Code::Internal
            &&& call_next(
                at(CallStageView::Finishing { outcome }),
                CallEvent::Answered { answer: Ok(()) },
            ) == (CallStageView::Ended { outcome })
            &&& call_next(
                at(CallStageView::Finishing { outcome }),
                CallEvent::Answered { answer: Err(error) },
            ) matches CallStageView::Ended { outcome: Err(told) } && told.code == Code::Internal
        }),
{
}

/// A call that may not claim the lifecycle ends at once, and says whether
/// another Create has it or the request is not in order.
pub proof fn law_refused_claims_end_the_call(state: CreateCallView, message: String)
    ensures
        ({
            let acting = |step: CreateStep|
                CreateCallView { stage: CallStageView::Acting { step }, ..state };
            &&& call_next(
                acting(CreateStep::Claim),
                CallEvent::Claimed { admission: Err(BeginCreateError::Conflict(message)) },
            ) == (CallStageView::Ended { outcome: Err(rpc(Code::AlreadyExists, message@)) })
            &&& call_next(
                acting(CreateStep::Claim),
                CallEvent::Claimed { admission: Err(BeginCreateError::Invalid(message)) },
            ) == (CallStageView::Ended { outcome: Err(rpc(Code::FailedPrecondition, message@)) })
            &&& call_next(
                acting(CreateStep::LoadLifecycle),
                CallEvent::Loaded { found: Err(message) },
            ) == (CallStageView::Ended { outcome: Err(rpc(Code::FailedPrecondition, message@)) })
            &&& call_next(
                acting(CreateStep::LoadLifecycle),
                CallEvent::Loaded { found: Ok(false) },
            ) == (CallStageView::Ended {
                outcome: Err(
                    rpc(
                        Code::FailedPrecondition,
                        "managed CreateSandbox has no external shim lifecycle"@,
                    ),
                ),
            })
            &&& call_next(
                acting(CreateStep::DecodeConfig),
                CallEvent::Answered { answer: Err(message) },
            ) == (CallStageView::Ended { outcome: Err(rpc(Code::InvalidArgument, message@)) })
        }),
{
}

/// What a call that owns the lifecycle fails with is published with the kind of
/// its cause: a request that is not in order is invalid, what the Host refuses
/// is internal. The call then leaves its waiters and ends with that error.
pub proof fn law_first_call_publishes_its_failure(
    state: CreateCallView,
    step: CreateStep,
    reason: String,
    error: RpcErrorView,
    cause: Rejection,
)
    ensures
        ({
            let at = |stage: CallStageView| CreateCallView { stage, ..state };
            let next = call_next(
                at(CallStageView::Acting { step }),
                CallEvent::Answered { answer: Err(reason) },
            );
            &&& step == CreateStep::CheckNamespaces || step == CreateStep::CheckParent || step
                == CreateStep::MergeAnnotations || step == CreateStep::Plan || step
                == CreateStep::EncodeSpec ==> next == (CallStageView::Publishing {
                error: rpc(Code::InvalidArgument, reason@),
                cause: Rejection::Semantics,
            })
            &&& step == CreateStep::LoadSpec ==> next == (CallStageView::Publishing {
                error: rpc(Code::InvalidArgument, "load sandbox bundle spec: "@ + reason@),
                cause: Rejection::Semantics,
            })
            &&& step == CreateStep::Place ==> next == (CallStageView::Publishing {
                error: rpc(
                    Code::Internal,
                    "place CubeShim server in Host Pod cgroup: "@ + reason@,
                ),
                cause: Rejection::Placement,
            })
            &&& step == CreateStep::ApplyCeiling ==> next == (CallStageView::Publishing {
                error: rpc(Code::Internal, "apply Host Pod resource ceiling: "@ + reason@),
                cause: Rejection::Ceiling,
            })
            &&& !state.netns_absolute ==> (call_next(
                at(CallStageView::Acting { step: CreateStep::CheckNamespaces }),
                CallEvent::Answered { answer: Ok(()) },
            ) matches CallStageView::Publishing { error: told, cause: Rejection::Semantics }
                && told.code == Code::InvalidArgument)
            &&& call_next(
                at(CallStageView::Publishing { error, cause }),
                CallEvent::Answered { answer: Ok(()) },
            ) == (CallStageView::Leaving { error, cause })
            &&& call_next(
                at(CallStageView::Leaving { error, cause }),
                CallEvent::Answered { answer: Ok(()) },
            ) == (CallStageView::Ended { outcome: Err(error) })
            &&& call_next(
                at(CallStageView::Leaving { error, cause: Rejection::Local }),
                CallEvent::Answered { answer: Err(reason) },
            ) == (CallStageView::Ended { outcome: Err(error) })
            &&& cause == Rejection::Placement || cause == Rejection::Ceiling ==> call_next(
                at(CallStageView::Publishing { error, cause }),
                CallEvent::Answered { answer: Err(reason) },
            ) == (CallStageView::Leaving { error, cause })
        }),
{
}

/// A call that has ended stays as it ended.
pub proof fn law_ended_call_stays(state: CreateCallView, event: CallEvent)
    requires
        state.stage is Ended,
    ensures
        call_next(state, event) == state.stage,
{
}

/// A creation whose resources are prepared and whose sandbox is initialized
/// leaves a created sandbox with its lease and a durable success; one that
/// fails leaves a failed sandbox that exited with 1, and a durable failure with
/// its reason.
pub proof fn law_creation_leaves_what_it_publishes(
    state: LifecycleStateView,
    lease: RuntimeLease,
    error: String,
    now: Timestamp,
)
    ensures
        ({
            let prepared = creation_next(
                CreationView::Preparing,
                CreationEvent::Prepared { result: Ok(lease) },
            );
            let created = creation_next(prepared, CreationEvent::Answered { answer: Ok(()) });
            let undone = creation_next(prepared, CreationEvent::Answered { answer: Err(error) });
            let released = creation_next(undone, CreationEvent::Answered { answer: Ok(()) });
            let stuck = creation_next(undone, CreationEvent::Answered { answer: Err(error) });
            let unprepared = creation_next(
                CreationView::Preparing,
                CreationEvent::Prepared { result: Err(error) },
            );
            &&& prepared is Initializing && created is Finished && undone is Releasing
                && released is Finished && stuck is Finished && unprepared is Finished
            &&& durable_result(created->outcome) is Succeeded
            &&& create_applied(state, created->outcome, now).phase == Phase::Created
            &&& create_applied(state, created->outcome, now).runtime == Some(lease@)
            &&& create_applied(state, created->outcome, now).last_error is None
            &&& crate::sandbox::wait_answer(create_applied(state, created->outcome, now)) is None
            &&& durable_result(released->outcome) == (PersistedCreateResultView::Failed {
                code: "FAILED_PRECONDITION"@,
                message: "initialize Cube sandbox: "@ + error@,
            })
            &&& create_applied(state, released->outcome, now).runtime is None
            &&& create_applied(state, stuck->outcome, now).runtime == Some(lease@)
            &&& create_applied(state, unprepared->outcome, now).runtime is None
            &&& durable_result(unprepared->outcome) == (PersistedCreateResultView::Failed {
                code: "FAILED_PRECONDITION"@,
                message: "prepare RuntimeResource: "@ + error@,
            })
            &&& create_applied(state, unprepared->outcome, now).phase == Phase::Failed
            &&& create_applied(state, unprepared->outcome, now).last_error == Some(
                "prepare RuntimeResource: "@ + error@,
            )
            &&& crate::sandbox::wait_answer(create_applied(state, released->outcome, now)) == Some(
                (1u32, Some(now)),
            )
            &&& crate::sandbox::wait_answer(create_applied(state, stuck->outcome, now)) == Some(
                (1u32, Some(now)),
            )
        }),
{
}

/// A durable success is borne out by a sandbox that was created, is starting or
/// is ready, for the same request, with its specification and its lease; and by
/// an owner that holds exactly this lease.
pub proof fn law_success_is_borne_out(
    state: LifecycleStateView,
    fingerprint: Seq<u8>,
    owner: RuntimeResourceOwnerView,
    lease: RuntimeLeaseView,
)
    ensures
        local_fault(state, fingerprint) is None <==> (state.phase == Phase::Created || state.phase
            == Phase::Starting || state.phase == Phase::Ready) && state.create_request == Some(
            fingerprint,
        ) && state.sandbox_spec is Some && state.runtime is Some,
        owns_lease(owner, lease) ==> owner.state == RuntimeOwnerState::Allocated && owner.endpoint
            == Some(lease.endpoint) && owner.sandbox_id == Some(lease.sandbox_id)
            && owner.lease_id == Some(lease.lease_id) && owner.resource_generation == Some(
            lease.generation,
        ),
        owner.state == RuntimeOwnerState::Allocated && owner.endpoint == Some(lease.endpoint)
            && owner.sandbox_id == Some(lease.sandbox_id) && owner.lease_id == Some(lease.lease_id)
            && owner.resource_generation == Some(lease.generation) ==> owns_lease(owner, lease),
{
}

/// A readback confirms a success after all of its steps: the operation is
/// verified before and after the provider is asked. A step that fails degrades
/// the sandbox first, and the call is told why.
pub proof fn law_readback_confirms_or_degrades(step: ReadbackStep, error: String, reason: Seq<char>)
    ensures
        ({
            let acting = |step: ReadbackStep| ReadbackView::Acting { step };
            &&& readback_next(acting(ReadbackStep::Begin), Ok(())) == acting(
                ReadbackStep::VerifyControllers,
            )
            &&& readback_next(acting(ReadbackStep::VerifyControllers), Ok(())) == acting(
                ReadbackStep::CheckLocal,
            )
            &&& readback_next(acting(ReadbackStep::CheckLocal), Ok(())) == acting(
                ReadbackStep::CheckInitialized,
            )
            &&& readback_next(acting(ReadbackStep::CheckInitialized), Ok(())) == acting(
                ReadbackStep::CheckOwner,
            )
            &&& readback_next(acting(ReadbackStep::CheckOwner), Ok(())) == acting(
                ReadbackStep::Verify,
            )
            &&& readback_next(acting(ReadbackStep::Verify), Ok(())) == acting(ReadbackStep::Inspect)
            &&& readback_next(acting(ReadbackStep::Inspect), Ok(())) == acting(
                ReadbackStep::VerifyAgain,
            )
            &&& readback_next(acting(ReadbackStep::VerifyAgain), Ok(())) is Confirmed
            &&& readback_next(acting(step), Err(error)) == (ReadbackView::Degrading {
                reason: "durable CreateSandbox success exact readback failed: "@ + error@,
            })
            &&& readback_next(ReadbackView::Degrading { reason }, Ok(())) == (
            ReadbackView::Failed { message: reason })
            &&& readback_next(ReadbackView::Degrading { reason }, Err(error)) == (
            ReadbackView::Failed {
                message: reason + "; persist terminal DEGRADED cleanup: "@ + error@,
            })
        }),
{
}

/// A request is taken up exactly where it names this sandbox, an absolute
/// bundle, and options.
pub proof fn law_requests_are_checked(
    own: Seq<char>,
    sandbox_id: Seq<char>,
    bundle_path: Seq<char>,
    has_options: bool,
)
    requires
        own.len() > 0,
    ensures
        request_fault(own, sandbox_id, bundle_path, has_options) is None <==> sandbox_id == own
            && is_rooted(bundle_path) && has_options,
        sandbox_id == own && request_fault(own, sandbox_id, bundle_path, has_options) is Some
            ==> request_fault(own, sandbox_id, bundle_path, has_options)->0.code
            == Code::InvalidArgument,
{
}

} // verus!
