//! The start of a sandbox: resources are acquired in a fixed order, each intent
//! is durable before what it announces, and a failure undoes what was begun.
use vstd::prelude::*;

use crate::sandbox::{
    release_after_start_failure, released_after_failure, StartCleanup, StartFailure,
    StartFailureView,
};

verus! {

/// What the agent in a sandbox has to offer.
pub const REQUIRED_SANDBOX_CAPABILITY: &'static str = "io.cubesandbox.agent.sandbox.lifecycle";

/// A step of a start.
#[derive(Clone, Copy, Debug, PartialEq, Eq, Structural)]
pub enum StartStep {
    /// The durable lifecycle is looked up.
    LoadLifecycle,
    /// The fenced operation begins.
    BeginOperation,
    /// The controllers of the host are read back.
    VerifyControllers,
    /// The identity of the TAP is asked for.
    IdentifyTap,
    /// The intent of the TAP is made durable.
    MarkTapIntent,
    /// The operation still owns the lifecycle.
    VerifyTap,
    /// The TAP is acquired.
    AcquireTap,
    /// The TAP, and the intent of the machine, are made durable.
    MarkTap,
    /// The operation still owns the lifecycle.
    VerifyVm,
    /// The process of the shim is recorded.
    RecordPid,
    /// The operation still owns the lifecycle.
    VerifyAgain,
    /// The machine is created.
    CreateVm,
    /// The machine is made durable.
    MarkVm,
    /// Does the agent manage sandboxes?
    CheckSandboxCapability,
    /// Does the agent manage resources?
    CheckResourceCapability,
}

/// What the failure of a step begins with.
pub open spec fn step_failure(step: StartStep) -> Seq<char> {
    match step {
        StartStep::LoadLifecycle => "load durable Host lifecycle for StartSandbox: "@,
        StartStep::BeginOperation => "begin fenced StartSandbox operation: "@,
        StartStep::VerifyControllers => "Host controller readback before StartSandbox: "@,
        StartStep::MarkTapIntent => "persist TAP allocation INTENT: "@,
        StartStep::VerifyTap => "TAP allocation owner was revoked: "@,
        StartStep::AcquireTap => "acquire RuntimeResource TAP: "@,
        StartStep::MarkTap => "commit TAP allocation and VM INTENT: "@,
        StartStep::VerifyVm | StartStep::VerifyAgain => "VM allocation owner was revoked: "@,
        StartStep::RecordPid => "record shim pid: "@,
        StartStep::MarkVm => "commit VM allocation identity: "@,
        _ => ""@,
    }
}

fn name_of_failure(step: StartStep) -> (name: &'static str)
    ensures
        name@ == step_failure(step),
{
    match step {
        StartStep::LoadLifecycle => "load durable Host lifecycle for StartSandbox: ",
        StartStep::BeginOperation => "begin fenced StartSandbox operation: ",
        StartStep::VerifyControllers => "Host controller readback before StartSandbox: ",
        StartStep::MarkTapIntent => "persist TAP allocation INTENT: ",
        StartStep::VerifyTap => "TAP allocation owner was revoked: ",
        StartStep::AcquireTap => "acquire RuntimeResource TAP: ",
        StartStep::MarkTap => "commit TAP allocation and VM INTENT: ",
        StartStep::VerifyVm | StartStep::VerifyAgain => "VM allocation owner was revoked: ",
        StartStep::RecordPid => "record shim pid: ",
        StartStep::MarkVm => "commit VM allocation identity: ",
        _ => "",
    }
}

/// The step after a step that succeeded; `None` means that the sandbox is
/// started.
pub open spec fn step_after(step: StartStep) -> Option<StartStep> {
    match step {
        StartStep::LoadLifecycle => Some(StartStep::BeginOperation),
        StartStep::BeginOperation => Some(StartStep::VerifyControllers),
        StartStep::VerifyControllers => Some(StartStep::IdentifyTap),
        StartStep::IdentifyTap => Some(StartStep::MarkTapIntent),
        StartStep::MarkTapIntent => Some(StartStep::VerifyTap),
        StartStep::VerifyTap => Some(StartStep::AcquireTap),
        StartStep::AcquireTap => Some(StartStep::MarkTap),
        StartStep::MarkTap => Some(StartStep::VerifyVm),
        StartStep::VerifyVm => Some(StartStep::RecordPid),
        StartStep::RecordPid => Some(StartStep::VerifyAgain),
        StartStep::VerifyAgain => Some(StartStep::CreateVm),
        StartStep::CreateVm => Some(StartStep::MarkVm),
        StartStep::MarkVm => Some(StartStep::CheckSandboxCapability),
        StartStep::CheckSandboxCapability => Some(StartStep::CheckResourceCapability),
        StartStep::CheckResourceCapability => None,
    }
}

fn following(step: StartStep) -> (next: Option<StartStep>)
    ensures
        next == step_after(step),
{
    match step {
        StartStep::LoadLifecycle => Some(StartStep::BeginOperation),
        StartStep::BeginOperation => Some(StartStep::VerifyControllers),
        StartStep::VerifyControllers => Some(StartStep::IdentifyTap),
        StartStep::IdentifyTap => Some(StartStep::MarkTapIntent),
        StartStep::MarkTapIntent => Some(StartStep::VerifyTap),
        StartStep::VerifyTap => Some(StartStep::AcquireTap),
        StartStep::AcquireTap => Some(StartStep::MarkTap),
        StartStep::MarkTap => Some(StartStep::VerifyVm),
        StartStep::VerifyVm => Some(StartStep::RecordPid),
        StartStep::RecordPid => Some(StartStep::VerifyAgain),
        StartStep::VerifyAgain => Some(StartStep::CreateVm),
        StartStep::CreateVm => Some(StartStep::MarkVm),
        StartStep::MarkVm => Some(StartStep::CheckSandboxCapability),
        StartStep::CheckSandboxCapability => Some(StartStep::CheckResourceCapability),
        StartStep::CheckResourceCapability => None,
    }
}

/// Whether a failure of a step has to undo the machine first: the sandbox holds
/// the TAP by then.
pub open spec fn needs_rollback(step: StartStep) -> bool {
    match step {
        StartStep::RecordPid
        | StartStep::VerifyAgain
        | StartStep::CreateVm
        | StartStep::MarkVm
        | StartStep::CheckSandboxCapability
        | StartStep::CheckResourceCapability => true,
        _ => false,
    }
}

fn must_roll_back(step: StartStep) -> (r: bool)
    ensures
        r == needs_rollback(step),
{
    match step {
        StartStep::RecordPid
        | StartStep::VerifyAgain
        | StartStep::CreateVm
        | StartStep::MarkVm
        | StartStep::CheckSandboxCapability
        | StartStep::CheckResourceCapability => true,
        _ => false,
    }
}

/// Where a start stands.
#[derive(Debug, PartialEq, Eq)]
pub enum StartStage {
    Acting { step: StartStep },
    /// The machine is aborted, and the TAP with it.
    RollingBack { error: String },
    /// The lease is given back.
    Releasing { error: String },
    Started,
    Failed { failure: StartFailure },
}

/// The contents of a [`StartStage`].
pub enum StartStageView {
    Acting { step: StartStep },
    RollingBack { error: Seq<char> },
    Releasing { error: Seq<char> },
    Started,
    Failed { failure: StartFailureView },
}

impl View for StartStage {
    type V = StartStageView;

    open spec fn view(&self) -> StartStageView {
        match self {
            StartStage::Acting { step } => StartStageView::Acting { step: *step },
            StartStage::RollingBack { error } => StartStageView::RollingBack { error: error@ },
            StartStage::Releasing { error } => StartStageView::Releasing { error: error@ },
            StartStage::Started => StartStageView::Started,
            StartStage::Failed { failure } => StartStageView::Failed { failure: failure@ },
        }
    }
}

/// What comes to a start.
pub enum StartEvent {
    /// Whether the durable lifecycle was found.
    Loaded { found: Result<bool, String> },
    /// Whether the agent has what was asked for.
    Offered { capable: bool },
    /// Whether the step succeeded.
    Answered { result: Result<(), String> },
}

/// A start.
#[derive(Debug, PartialEq, Eq)]
pub struct Start {
    /// What the agent has to offer to manage resources.
    pub resource_capability: String,
    pub stage: StartStage,
}

/// The contents of a [`Start`].
pub struct StartView {
    pub resource_capability: Seq<char>,
    pub stage: StartStageView,
}

impl View for Start {
    type V = StartView;

    open spec fn view(&self) -> StartView {
        StartView { resource_capability: self.resource_capability@, stage: self.stage@ }
    }
}

/// The stage after a failure of a step.
pub open spec fn step_failed(step: StartStep, error: Seq<char>) -> StartStageView {
    if needs_rollback(step) {
        StartStageView::RollingBack { error }
    } else {
        StartStageView::Releasing { error }
    }
}

/// The stage after a step that succeeded.
pub open spec fn step_done(step: StartStep) -> StartStageView {
    match step_after(step) {
        Some(step) => StartStageView::Acting { step },
        None => StartStageView::Started,
    }
}

/// Whether an event answers a step.
pub open spec fn answers_step(step: StartStep, event: StartEvent) -> bool {
    match step {
        StartStep::LoadLifecycle => event is Loaded,
        StartStep::CheckSandboxCapability | StartStep::CheckResourceCapability => event is Offered,
        _ => event is Answered,
    }
}

/// What an agent lacks.
pub open spec fn lacks(capability: Seq<char>) -> Seq<char> {
    "guest agent lacks required capability "@ + capability + ">=1"@
}

/// The stage after an event; an event that does not answer the stage changes
/// nothing.
pub open spec fn start_next(state: StartView, event: StartEvent) -> StartStageView {
    match state.stage {
        StartStageView::Acting { step } => if !answers_step(step, event) {
            state.stage
        } else {
            match event {
                StartEvent::Loaded { found: Ok(true) } => step_done(step),
                StartEvent::Loaded { found: Ok(false) } => step_failed(
                    step,
                    "managed StartSandbox has no durable Host lifecycle"@,
                ),
                StartEvent::Loaded { found: Err(error) } => step_failed(
                    step,
                    step_failure(step) + error@,
                ),
                StartEvent::Offered { capable } => if capable {
                    step_done(step)
                } else if step == StartStep::CheckSandboxCapability {
                    step_failed(step, lacks(REQUIRED_SANDBOX_CAPABILITY@))
                } else {
                    step_failed(step, lacks(state.resource_capability))
                },
                StartEvent::Answered { result: Ok(_) } => step_done(step),
                StartEvent::Answered { result: Err(error) } => step_failed(
                    step,
                    step_failure(step) + error@,
                ),
            }
        },
        StartStageView::RollingBack { error } => match event {
            StartEvent::Answered { result: Ok(_) } => StartStageView::Releasing { error },
            StartEvent::Answered { result: Err(rollback) } => StartStageView::Failed {
                failure: StartFailureView {
                    error: error + "; rollback VM: "@ + rollback@
                        + "; RuntimeResource release skipped until teardown is confirmed"@,
                    cleanup: StartCleanup::TeardownUnconfirmed,
                },
            },
            _ => state.stage,
        },
        StartStageView::Releasing { error } => match event {
            StartEvent::Answered { result } => StartStageView::Failed {
                failure: released_after_failure(error, result),
            },
            _ => state.stage,
        },
        stage => stage,
    }
}

fn failed(step: StartStep, error: String) -> (stage: StartStage)
    ensures
        stage@ == step_failed(step, error@),
{
    if must_roll_back(step) {
        StartStage::RollingBack { error }
    } else {
        StartStage::Releasing { error }
    }
}

fn done(step: StartStep) -> (stage: StartStage)
    ensures
        stage@ == step_done(step),
{
    match following(step) {
        Some(step) => StartStage::Acting { step },
        None => StartStage::Started,
    }
}

fn lacking(capability: &str) -> (message: String)
    ensures
        message@ == lacks(capability@),
{
    "guest agent lacks required capability ".to_owned().concat(capability).concat(">=1")
}

impl Start {
    /// A start that is about to begin. Without a lease it has failed already.
    pub fn begin(has_lease: bool, resource_capability: String) -> (state: Self)
        ensures
            state@ == (StartView {
                resource_capability: resource_capability@,
                stage: if has_lease {
                    StartStageView::Acting { step: StartStep::LoadLifecycle }
                } else {
                    StartStageView::Failed {
                        failure: StartFailureView {
                            error: "sandbox has no RuntimeResource lease"@,
                            cleanup: StartCleanup::Released,
                        },
                    }
                },
            }),
    {
        let stage = if has_lease {
            StartStage::Acting { step: StartStep::LoadLifecycle }
        } else {
            StartStage::Failed {
                failure: StartFailure {
                    error: "sandbox has no RuntimeResource lease".to_owned(),
                    cleanup: StartCleanup::Released,
                },
            }
        };
        Start { resource_capability, stage }
    }

    /// The start after an event.
    pub fn step(self, event: StartEvent) -> (next: Self)
        ensures
            next@ == (StartView { stage: start_next(self@, event), ..self@ }),
    {
        let resource_capability = self.resource_capability;
        let stage = match (self.stage, event) {
            (
                StartStage::Acting { step: StartStep::LoadLifecycle },
                StartEvent::Loaded { found },
            ) => match found {
                Ok(true) => done(StartStep::LoadLifecycle),
                Ok(false) => failed(
                    StartStep::LoadLifecycle,
                    "managed StartSandbox has no durable Host lifecycle".to_owned(),
                ),
                Err(error) => failed(
                    StartStep::LoadLifecycle,
                    name_of_failure(StartStep::LoadLifecycle).to_owned().concat(error.as_str()),
                ),
            },
            (
                StartStage::Acting { step: StartStep::CheckSandboxCapability },
                StartEvent::Offered { capable },
            ) => if capable {
                done(StartStep::CheckSandboxCapability)
            } else {
                failed(StartStep::CheckSandboxCapability, lacking(REQUIRED_SANDBOX_CAPABILITY))
            },
            (
                StartStage::Acting { step: StartStep::CheckResourceCapability },
                StartEvent::Offered { capable },
            ) => if capable {
                done(StartStep::CheckResourceCapability)
            } else {
                failed(
                    StartStep::CheckResourceCapability,
                    lacking(resource_capability.as_str()),
                )
            },
            (StartStage::Acting { step }, StartEvent::Answered { result }) => match step {
                StartStep::LoadLifecycle
                | StartStep::CheckSandboxCapability
                | StartStep::CheckResourceCapability => StartStage::Acting { step },
                _ => match result {
                    Ok(_) => done(step),
                    Err(error) => failed(
                        step,
                        name_of_failure(step).to_owned().concat(error.as_str()),
                    ),
                },
            },
            (StartStage::RollingBack { error }, StartEvent::Answered { result }) => match result {
                Ok(_) => StartStage::Releasing { error },
                Err(rollback) => StartStage::Failed {
                    failure: StartFailure {
                        error: error.concat("; rollback VM: ").concat(rollback.as_str()).concat(
                            "; RuntimeResource release skipped until teardown is confirmed",
                        ),
                        cleanup: StartCleanup::TeardownUnconfirmed,
                    },
                },
            },
            (StartStage::Releasing { error }, StartEvent::Answered { result }) => {
                StartStage::Failed { failure: release_after_start_failure(error, &result) }
            },
            (stage, _) => stage,
        };
        Start { resource_capability, stage }
    }
}

/// The place of a step in the order of steps.
pub open spec fn place_of(step: StartStep) -> nat {
    match step {
        StartStep::LoadLifecycle => 0,
        StartStep::BeginOperation => 1,
        StartStep::VerifyControllers => 2,
        StartStep::IdentifyTap => 3,
        StartStep::MarkTapIntent => 4,
        StartStep::VerifyTap => 5,
        StartStep::AcquireTap => 6,
        StartStep::MarkTap => 7,
        StartStep::VerifyVm => 8,
        StartStep::RecordPid => 9,
        StartStep::VerifyAgain => 10,
        StartStep::CreateVm => 11,
        StartStep::MarkVm => 12,
        StartStep::CheckSandboxCapability => 13,
        StartStep::CheckResourceCapability => 14,
    }
}

/// No step is left out and none comes before its time: each follows the success
/// of the one before it, and the sandbox is started after the last.
pub proof fn law_steps_come_in_order(state: StartView, event: StartEvent)
    requires
        state.stage is Acting,
        start_next(state, event) != state.stage,
    ensures
        match start_next(state, event) {
            StartStageView::Acting { step } => place_of(step) == place_of(state.stage->step) + 1,
            StartStageView::Started => place_of(state.stage->step) == 14,
            StartStageView::RollingBack { .. } => place_of(state.stage->step) >= 9,
            StartStageView::Releasing { .. } => place_of(state.stage->step) < 9,
            StartStageView::Failed { .. } => false,
        },
{
}

/// The lease is given back only when no machine holds its resources: before the
/// sandbox got the TAP, or after the machine was aborted with success.
pub proof fn law_release_waits_for_the_rollback(state: StartView, event: StartEvent)
    requires
        start_next(state, event) is Releasing,
        !(state.stage is Releasing),
    ensures
        match state.stage {
            StartStageView::Acting { step } => !needs_rollback(step),
            StartStageView::RollingBack { .. } => event matches StartEvent::Answered {
                result: Ok(_),
            },
            _ => false,
        },
{
}

/// A start that meets no failure goes through all of its steps: the intent of
/// the TAP is durable and still owned before the TAP is acquired, the TAP and
/// the intent of the machine before the machine is created, and the sandbox is
/// started once the machine is durable and the agent has what is asked for.
pub proof fn law_undisturbed_start_starts(capability: Seq<char>, step: StartStep)
    ensures
        ({
            let acting = |step: StartStep|
                StartView {
                    resource_capability: capability,
                    stage: StartStageView::Acting { step },
                };
            let good = StartEvent::Answered { result: Ok(()) };
            let fine = StartEvent::Offered { capable: true };
            let found = StartEvent::Loaded { found: Ok(true) };
            &&& start_next(acting(StartStep::LoadLifecycle), found) == (StartStageView::Acting {
                step: StartStep::BeginOperation,
            })
            &&& start_next(acting(StartStep::BeginOperation), good) == (StartStageView::Acting {
                step: StartStep::VerifyControllers,
            })
            &&& start_next(acting(StartStep::VerifyControllers), good) == (StartStageView::Acting {
                step: StartStep::IdentifyTap,
            })
            &&& start_next(acting(StartStep::IdentifyTap), good) == (StartStageView::Acting {
                step: StartStep::MarkTapIntent,
            })
            &&& start_next(acting(StartStep::MarkTapIntent), good) == (StartStageView::Acting {
                step: StartStep::VerifyTap,
            })
            &&& start_next(acting(StartStep::VerifyTap), good) == (StartStageView::Acting {
                step: StartStep::AcquireTap,
            })
            &&& start_next(acting(StartStep::AcquireTap), good) == (StartStageView::Acting {
                step: StartStep::MarkTap,
            })
            &&& start_next(acting(StartStep::MarkTap), good) == (StartStageView::Acting {
                step: StartStep::VerifyVm,
            })
            &&& start_next(acting(StartStep::VerifyVm), good) == (StartStageView::Acting {
                step: StartStep::RecordPid,
            })
            &&& start_next(acting(StartStep::RecordPid), good) == (StartStageView::Acting {
                step: StartStep::VerifyAgain,
            })
            &&& start_next(acting(StartStep::VerifyAgain), good) == (StartStageView::Acting {
                step: StartStep::CreateVm,
            })
            &&& start_next(acting(StartStep::CreateVm), good) == (StartStageView::Acting {
                step: StartStep::MarkVm,
            })
            &&& start_next(acting(StartStep::MarkVm), good) == (StartStageView::Acting {
                step: StartStep::CheckSandboxCapability,
            })
            &&& start_next(acting(StartStep::CheckSandboxCapability), fine) == (
            StartStageView::Acting { step: StartStep::CheckResourceCapability })
            &&& start_next(acting(StartStep::CheckResourceCapability), fine) is Started
        }),
{
}

/// A start that fails tells what failed. Before the machine holds anything its
/// lease is given back at once; afterwards the machine is aborted first, and
/// the lease is given back only where the abort succeeded.
pub proof fn law_failed_start_is_undone(
    capability: Seq<char>,
    step: StartStep,
    reason: String,
    rollback: String,
    release: Result<(), String>,
    error: Seq<char>,
)
    ensures
        ({
            let failing = StartEvent::Answered { result: Err(reason) };
            let at = |stage: StartStageView| StartView { resource_capability: capability, stage };
            let early = step == StartStep::BeginOperation || step == StartStep::VerifyControllers
                || step == StartStep::IdentifyTap || step == StartStep::MarkTapIntent || step
                == StartStep::VerifyTap || step == StartStep::AcquireTap || step
                == StartStep::MarkTap || step == StartStep::VerifyVm;
            let late = step == StartStep::RecordPid || step == StartStep::VerifyAgain || step
                == StartStep::CreateVm || step == StartStep::MarkVm;
            let next = start_next(at(StartStageView::Acting { step }), failing);
            &&& early ==> next is Releasing
            &&& late ==> next is RollingBack
            &&& step == StartStep::BeginOperation ==> next == (StartStageView::Releasing {
                error: "begin fenced StartSandbox operation: "@ + reason@,
            })
            &&& step == StartStep::VerifyControllers ==> next == (StartStageView::Releasing {
                error: "Host controller readback before StartSandbox: "@ + reason@,
            })
            &&& step == StartStep::MarkTapIntent ==> next == (StartStageView::Releasing {
                error: "persist TAP allocation INTENT: "@ + reason@,
            })
            &&& step == StartStep::VerifyTap ==> next == (StartStageView::Releasing {
                error: "TAP allocation owner was revoked: "@ + reason@,
            })
            &&& step == StartStep::AcquireTap ==> next == (StartStageView::Releasing {
                error: "acquire RuntimeResource TAP: "@ + reason@,
            })
            &&& step == StartStep::MarkTap ==> next == (StartStageView::Releasing {
                error: "commit TAP allocation and VM INTENT: "@ + reason@,
            })
            &&& step == StartStep::VerifyVm ==> next == (StartStageView::Releasing {
                error: "VM allocation owner was revoked: "@ + reason@,
            })
            &&& step == StartStep::RecordPid ==> next == (StartStageView::RollingBack {
                error: "record shim pid: "@ + reason@,
            })
            &&& step == StartStep::VerifyAgain ==> next == (StartStageView::RollingBack {
                error: "VM allocation owner was revoked: "@ + reason@,
            })
            &&& step == StartStep::MarkVm ==> next == (StartStageView::RollingBack {
                error: "commit VM allocation identity: "@ + reason@,
            })
            &&& start_next(
                at(StartStageView::Acting { step: StartStep::CheckSandboxCapability }),
                StartEvent::Offered { capable: false },
            ) == (StartStageView::RollingBack {
                error: "guest agent lacks required capability "@
                    + "io.cubesandbox.agent.sandbox.lifecycle"@ + ">=1"@,
            })
            &&& start_next(
                at(StartStageView::Acting { step: StartStep::CheckResourceCapability }),
                StartEvent::Offered { capable: false },
            ) == (StartStageView::RollingBack {
                error: "guest agent lacks required capability "@ + capability + ">=1"@,
            })
            &&& start_next(
                at(StartStageView::Acting { step: StartStep::LoadLifecycle }),
                StartEvent::Loaded { found: Ok(false) },
            ) == (StartStageView::Releasing {
                error: "managed StartSandbox has no durable Host lifecycle"@,
            })
            &&& start_next(
                at(StartStageView::Acting { step: StartStep::LoadLifecycle }),
                StartEvent::Loaded { found: Err(reason) },
            ) == (StartStageView::Releasing {
                error: "load durable Host lifecycle for StartSandbox: "@ + reason@,
            })
            &&& start_next(
                at(StartStageView::RollingBack { error }),
                StartEvent::Answered { result: Ok(()) },
            ) == (StartStageView::Releasing { error })
            &&& start_next(
                at(StartStageView::RollingBack { error }),
                StartEvent::Answered { result: Err(rollback) },
            ) matches StartStageView::Failed { failure } && failure.cleanup
                == StartCleanup::TeardownUnconfirmed && failure.error == error + "; rollback VM: "@
                + rollback@ + "; RuntimeResource release skipped until teardown is confirmed"@
            &&& start_next(
                at(StartStageView::Releasing { error }),
                StartEvent::Answered { result: release },
            ) matches StartStageView::Failed { failure } && (release is Ok ==> failure.cleanup
                == StartCleanup::Released && failure.error == error) && (release is Err
                ==> failure.cleanup == StartCleanup::ReleasePending)
        }),
{
}

/// A start that has ended stays as it ended, whatever comes.
pub proof fn law_ended_start_stays(state: StartView, event: StartEvent)
    requires
        state.stage is Started || state.stage is Failed,
    ensures
        start_next(state, event) == state.stage,
{
}

} // verus!
