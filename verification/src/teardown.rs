//! A teardown: the machine goes first, and only when that is confirmed is the
//! lease on its resources given back.
use vstd::prelude::*;

use crate::sandbox::{
    stop_teardown_action, teardown_action, CleanupOutcome, CleanupOutcomeView, Phase,
    StopTeardownAction, TeardownOutcome, TeardownOutcomeView,
};

verus! {

/// Why a machine is aborted.
#[derive(Debug, PartialEq, Eq)]
pub enum AbortCause {
    /// A stop after a failure.
    Stop,
    /// A shutdown.
    Shutdown,
    /// It could not be destroyed.
    DestroyFailed { destroy_error: String },
}

/// The contents of an [`AbortCause`].
pub enum AbortCauseView {
    Stop,
    Shutdown,
    DestroyFailed { destroy_error: Seq<char> },
}

impl View for AbortCause {
    type V = AbortCauseView;

    open spec fn view(&self) -> AbortCauseView {
        match self {
            AbortCause::Stop => AbortCauseView::Stop,
            AbortCause::Shutdown => AbortCauseView::Shutdown,
            AbortCause::DestroyFailed { destroy_error } => AbortCauseView::DestroyFailed {
                destroy_error: destroy_error@,
            },
        }
    }
}

/// A step of a teardown.
#[derive(Debug, PartialEq, Eq)]
pub enum TeardownStage {
    /// Is the sandbox without containers?
    Inspecting { action: StopTeardownAction },
    /// The machine is destroyed.
    Destroying,
    /// The machine is aborted.
    Aborting { cause: AbortCause },
    /// The lease is given back.
    Releasing { outcome: TeardownOutcome },
    /// The sandbox holds containers: nothing was done.
    Occupied,
    Finished { result: CleanupOutcome },
}

/// The contents of a [`TeardownStage`].
pub enum TeardownStageView {
    Inspecting { action: StopTeardownAction },
    Destroying,
    Aborting { cause: AbortCauseView },
    Releasing { outcome: TeardownOutcomeView },
    Occupied,
    Finished { result: CleanupOutcomeView },
}

impl View for TeardownStage {
    type V = TeardownStageView;

    open spec fn view(&self) -> TeardownStageView {
        match self {
            TeardownStage::Inspecting { action } => TeardownStageView::Inspecting {
                action: *action,
            },
            TeardownStage::Destroying => TeardownStageView::Destroying,
            TeardownStage::Aborting { cause } => TeardownStageView::Aborting { cause: cause@ },
            TeardownStage::Releasing { outcome } => TeardownStageView::Releasing {
                outcome: outcome@,
            },
            TeardownStage::Occupied => TeardownStageView::Occupied,
            TeardownStage::Finished { result } => TeardownStageView::Finished { result: result@ },
        }
    }
}

/// The error of a stop of a sandbox that holds containers.
pub const OCCUPIED: &'static str = "sandbox still contains containers";

/// A teardown.
#[derive(Debug, PartialEq, Eq)]
pub struct Teardown {
    pub has_lease: bool,
    pub stage: TeardownStage,
}

/// The contents of a [`Teardown`].
pub struct TeardownView {
    pub has_lease: bool,
    pub stage: TeardownStageView,
}

impl View for Teardown {
    type V = TeardownView;

    open spec fn view(&self) -> TeardownView {
        TeardownView { has_lease: self.has_lease, stage: self.stage@ }
    }
}

/// What comes to the teardown: whether the sandbox is empty, or whether the
/// step succeeded.
pub enum TeardownEvent {
    Inspected { empty: bool },
    Answered { result: Result<(), String> },
}

/// The step after the machine is gone: a lease is given back.
pub open spec fn released(has_lease: bool, outcome: TeardownOutcomeView) -> TeardownStageView {
    if has_lease {
        TeardownStageView::Releasing { outcome }
    } else {
        TeardownStageView::Finished { result: CleanupOutcomeView::Released(outcome) }
    }
}

/// How the abort of a machine that succeeded is reported.
pub open spec fn aborted(cause: AbortCauseView) -> TeardownOutcomeView {
    TeardownOutcomeView {
        forced: true,
        warning: match cause {
            AbortCauseView::DestroyFailed { destroy_error } => Some(
                "destroy sandbox: "@ + destroy_error + "; forced rollback"@,
            ),
            _ => None,
        },
    }
}

/// How the abort of a machine that failed is reported.
pub open spec fn abort_error(cause: AbortCauseView, error: Seq<char>) -> Seq<char> {
    match cause {
        AbortCauseView::Stop => "force stop sandbox: "@ + error,
        AbortCauseView::Shutdown => "force shutdown sandbox: "@ + error,
        AbortCauseView::DestroyFailed { destroy_error } => "destroy sandbox: "@ + destroy_error
            + "; forced rollback: "@ + error,
    }
}

/// The first step of a stop.
pub open spec fn stop_start(previous: Phase, has_lease: bool) -> TeardownStageView {
    if previous == Phase::ReleasePending {
        released(has_lease, TeardownOutcomeView { forced: false, warning: None })
    } else {
        TeardownStageView::Inspecting { action: teardown_action(previous) }
    }
}

/// The first step of a shutdown.
pub open spec fn shutdown_start(force_abort: bool, has_lease: bool) -> TeardownStageView {
    if force_abort {
        TeardownStageView::Aborting { cause: AbortCauseView::Shutdown }
    } else {
        released(has_lease, TeardownOutcomeView { forced: false, warning: None })
    }
}

/// The step after an answer.
pub open spec fn teardown_next(state: TeardownView, event: TeardownEvent) -> TeardownStageView {
    match (state.stage, event) {
        (TeardownStageView::Inspecting { action }, TeardownEvent::Inspected { empty }) => if !empty {
            TeardownStageView::Occupied
        } else {
            match action {
                StopTeardownAction::ReleaseOnly => released(
                    state.has_lease,
                    TeardownOutcomeView { forced: false, warning: None },
                ),
                StopTeardownAction::Abort => TeardownStageView::Aborting {
                    cause: AbortCauseView::Stop,
                },
                StopTeardownAction::Destroy => TeardownStageView::Destroying,
            }
        },
        (TeardownStageView::Destroying, TeardownEvent::Answered { result }) => match result {
            Ok(_) => released(
                state.has_lease,
                TeardownOutcomeView { forced: false, warning: None },
            ),
            Err(error) => TeardownStageView::Aborting {
                cause: AbortCauseView::DestroyFailed { destroy_error: error@ },
            },
        },
        (TeardownStageView::Aborting { cause }, TeardownEvent::Answered { result }) => match result {
            Ok(_) => released(state.has_lease, aborted(cause)),
            Err(error) => TeardownStageView::Finished {
                result: CleanupOutcomeView::TeardownFailed(abort_error(cause, error@)),
            },
        },
        (TeardownStageView::Releasing { outcome }, TeardownEvent::Answered { result }) => {
            TeardownStageView::Finished {
                result: match result {
                    Ok(_) => CleanupOutcomeView::Released(outcome),
                    Err(error) => CleanupOutcomeView::ReleaseFailed(outcome, error@),
                },
            }
        },
        (stage, _) => stage,
    }
}

fn after_teardown(has_lease: bool, outcome: TeardownOutcome) -> (stage: TeardownStage)
    ensures
        stage@ == released(has_lease, outcome@),
{
    if has_lease {
        TeardownStage::Releasing { outcome }
    } else {
        TeardownStage::Finished { result: CleanupOutcome::Released(outcome) }
    }
}

fn abort_outcome(cause: AbortCause) -> (outcome: TeardownOutcome)
    ensures
        outcome@ == aborted(cause@),
{
    match cause {
        AbortCause::DestroyFailed { destroy_error } => TeardownOutcome::forced(
            Some(
                "destroy sandbox: ".to_owned().concat(destroy_error.as_str()).concat(
                    "; forced rollback",
                ),
            ),
        ),
        _ => TeardownOutcome::forced(None),
    }
}

fn abort_message(cause: AbortCause, error: &str) -> (message: String)
    ensures
        message@ == abort_error(cause@, error@),
{
    match cause {
        AbortCause::Stop => "force stop sandbox: ".to_owned().concat(error),
        AbortCause::Shutdown => "force shutdown sandbox: ".to_owned().concat(error),
        AbortCause::DestroyFailed { destroy_error } => "destroy sandbox: ".to_owned().concat(
            destroy_error.as_str(),
        ).concat("; forced rollback: ").concat(error),
    }
}

impl Teardown {
    /// The teardown of a stop.
    pub fn stop(previous: Phase, has_lease: bool) -> (state: Self)
        ensures
            state@ == (TeardownView { has_lease, stage: stop_start(previous, has_lease) }),
    {
        let stage = if previous == Phase::ReleasePending {
            after_teardown(has_lease, TeardownOutcome::normal())
        } else {
            TeardownStage::Inspecting { action: stop_teardown_action(previous) }
        };
        Teardown { has_lease, stage }
    }

    /// The teardown of a shutdown.
    pub fn shutdown(force_abort: bool, has_lease: bool) -> (state: Self)
        ensures
            state@ == (TeardownView { has_lease, stage: shutdown_start(force_abort, has_lease) }),
    {
        let stage = if force_abort {
            TeardownStage::Aborting { cause: AbortCause::Shutdown }
        } else {
            after_teardown(has_lease, TeardownOutcome::normal())
        };
        Teardown { has_lease, stage }
    }

    /// The teardown after an answer.
    pub fn step(self, event: TeardownEvent) -> (next: Self)
        ensures
            next@ == (TeardownView { stage: teardown_next(self@, event), ..self@ }),
    {
        let has_lease = self.has_lease;
        let stage = match (self.stage, event) {
            (TeardownStage::Inspecting { action }, TeardownEvent::Inspected { empty }) => if !empty {
                TeardownStage::Occupied
            } else {
                match action {
                    StopTeardownAction::ReleaseOnly => after_teardown(
                        has_lease,
                        TeardownOutcome::normal(),
                    ),
                    StopTeardownAction::Abort => TeardownStage::Aborting {
                        cause: AbortCause::Stop,
                    },
                    StopTeardownAction::Destroy => TeardownStage::Destroying,
                }
            },
            (TeardownStage::Destroying, TeardownEvent::Answered { result }) => match result {
                Ok(_) => after_teardown(has_lease, TeardownOutcome::normal()),
                Err(destroy_error) => TeardownStage::Aborting {
                    cause: AbortCause::DestroyFailed { destroy_error },
                },
            },
            (TeardownStage::Aborting { cause }, TeardownEvent::Answered { result }) => match result {
                Ok(_) => after_teardown(has_lease, abort_outcome(cause)),
                Err(error) => TeardownStage::Finished {
                    result: CleanupOutcome::TeardownFailed(abort_message(cause, error.as_str())),
                },
            },
            (TeardownStage::Releasing { outcome }, TeardownEvent::Answered { result }) => {
                TeardownStage::Finished {
                    result: match result {
                        Ok(_) => CleanupOutcome::Released(outcome),
                        Err(error) => CleanupOutcome::ReleaseFailed(outcome, error),
                    },
                }
            },
            (stage, _) => stage,
        };
        Teardown { has_lease, stage }
    }
}

/// A lease is given back only after the machine was confirmed to be gone, and
/// not after a teardown that failed.
pub proof fn law_release_follows_a_confirmed_teardown(state: TeardownView, event: TeardownEvent)
    requires
        teardown_next(state, event) is Releasing,
        !(state.stage is Releasing),
    ensures
        match state.stage {
            TeardownStageView::Inspecting { action } => action == StopTeardownAction::ReleaseOnly,
            TeardownStageView::Destroying | TeardownStageView::Aborting { .. } => event
                matches TeardownEvent::Answered { result: Ok(_) },
            _ => false,
        },
{
}

/// A teardown with a lease is not reported as released before the release was
/// answered with success.
pub proof fn law_released_means_released(state: TeardownView, event: TeardownEvent)
    requires
        state.has_lease,
        !(state.stage is Finished),
        teardown_next(state, event) matches TeardownStageView::Finished {
            result: CleanupOutcomeView::Released(_),
        },
    ensures
        state.stage is Releasing,
        event matches TeardownEvent::Answered { result: Ok(_) },
{
}

/// How many answers a teardown still takes at most.
pub open spec fn steps_left(stage: TeardownStageView) -> nat {
    match stage {
        TeardownStageView::Inspecting { .. } => 4,
        TeardownStageView::Destroying => 3,
        TeardownStageView::Aborting { .. } => 2,
        TeardownStageView::Releasing { .. } => 1,
        _ => 0,
    }
}

/// Every answer to the step that is due brings a teardown nearer to its end.
pub proof fn law_teardown_ends(state: TeardownView, event: TeardownEvent)
    requires
        steps_left(state.stage) > 0,
        state.stage is Inspecting == event is Inspected,
    ensures
        steps_left(teardown_next(state, event)) < steps_left(state.stage),
{
}

/// A stop that nothing disturbs destroys the machine of an empty sandbox, gives
/// a lease back, and is reported as released without force or a warning.
pub proof fn law_undisturbed_stop_is_clean(previous: Phase, has_lease: bool)
    requires
        previous != Phase::ReleasePending,
        previous != Phase::Failed,
    ensures
        ({
            let begun = TeardownView { has_lease, stage: stop_start(previous, has_lease) };
            let empty = teardown_next(begun, TeardownEvent::Inspected { empty: true });
            let gone = teardown_next(
                TeardownView { has_lease, stage: empty },
                TeardownEvent::Answered { result: Ok(()) },
            );
            let ended = if has_lease {
                teardown_next(
                    TeardownView { has_lease, stage: gone },
                    TeardownEvent::Answered { result: Ok(()) },
                )
            } else {
                gone
            };
            &&& begun.stage is Inspecting
            &&& teardown_next(begun, TeardownEvent::Inspected { empty: false }) is Occupied
            &&& empty is Destroying
            &&& has_lease ==> gone is Releasing
            &&& ended == (TeardownStageView::Finished {
                result: CleanupOutcomeView::Released(
                    TeardownOutcomeView { forced: false, warning: None },
                ),
            })
        }),
{
}

/// A machine that cannot be destroyed is aborted: the teardown is then forced,
/// with a warning that tells why. Where the abort fails too, the teardown has
/// failed, and the lease is not given back.
pub proof fn law_stuck_machine_is_aborted(
    has_lease: bool,
    destroy_error: String,
    abort: String,
)
    ensures
        ({
            let at = |stage: TeardownStageView| TeardownView { has_lease, stage };
            let aborting = teardown_next(
                at(TeardownStageView::Destroying),
                TeardownEvent::Answered { result: Err(destroy_error) },
            );
            let outcome = TeardownOutcomeView {
                forced: true,
                warning: Some("destroy sandbox: "@ + destroy_error@ + "; forced rollback"@),
            };
            let ended = teardown_next(
                at(aborting),
                TeardownEvent::Answered { result: Ok(()) },
            );
            &&& aborting is Aborting
            &&& has_lease ==> ended == (TeardownStageView::Releasing { outcome })
            &&& !has_lease ==> ended == (TeardownStageView::Finished {
                result: CleanupOutcomeView::Released(outcome),
            })
            &&& teardown_next(
                at(aborting),
                TeardownEvent::Answered { result: Err(abort) },
            ) == (TeardownStageView::Finished {
                result: CleanupOutcomeView::TeardownFailed(
                    "destroy sandbox: "@ + destroy_error@ + "; forced rollback: "@ + abort@,
                ),
            })
        }),
{
}

/// A stop after a failure aborts the machine, one after a release that is
/// pending only gives the lease back, and a shutdown aborts exactly where it is
/// told to; an abort that was meant is forced without a warning.
pub proof fn law_teardowns_begin_where_they_have_to(
    has_lease: bool,
    cause: AbortCauseView,
    error: String,
)
    ensures
        ({
            let at = |stage: TeardownStageView| TeardownView { has_lease, stage };
            let plain = TeardownOutcomeView { forced: false, warning: None };
            let forced = TeardownOutcomeView { forced: true, warning: None };
            let over = |outcome: TeardownOutcomeView|
                if has_lease {
                    TeardownStageView::Releasing { outcome }
                } else {
                    TeardownStageView::Finished { result: CleanupOutcomeView::Released(outcome) }
                };
            &&& teardown_next(
                at(stop_start(Phase::Failed, has_lease)),
                TeardownEvent::Inspected { empty: true },
            ) == (TeardownStageView::Aborting { cause: AbortCauseView::Stop })
            &&& stop_start(Phase::ReleasePending, has_lease) == over(plain)
            &&& shutdown_start(false, has_lease) == over(plain)
            &&& shutdown_start(true, has_lease) == (TeardownStageView::Aborting {
                cause: AbortCauseView::Shutdown,
            })
            &&& cause is Stop || cause is Shutdown ==> teardown_next(
                at(TeardownStageView::Aborting { cause }),
                TeardownEvent::Answered { result: Ok(()) },
            ) == over(forced)
            &&& teardown_next(
                at(TeardownStageView::Aborting { cause: AbortCauseView::Stop }),
                TeardownEvent::Answered { result: Err(error) },
            ) == (TeardownStageView::Finished {
                result: CleanupOutcomeView::TeardownFailed("force stop sandbox: "@ + error@),
            })
            &&& teardown_next(
                at(TeardownStageView::Aborting { cause: AbortCauseView::Shutdown }),
                TeardownEvent::Answered { result: Err(error) },
            ) == (TeardownStageView::Finished {
                result: CleanupOutcomeView::TeardownFailed("force shutdown sandbox: "@ + error@),
            })
        }),
{
}

/// What a release comes to is reported with how the teardown before it went.
pub proof fn law_release_is_reported(
    outcome: TeardownOutcomeView,
    has_lease: bool,
    error: String,
)
    ensures
        teardown_next(
            TeardownView { has_lease, stage: TeardownStageView::Releasing { outcome } },
            TeardownEvent::Answered { result: Ok(()) },
        ) == (TeardownStageView::Finished { result: CleanupOutcomeView::Released(outcome) }),
        teardown_next(
            TeardownView { has_lease, stage: TeardownStageView::Releasing { outcome } },
            TeardownEvent::Answered { result: Err(error) },
        ) == (TeardownStageView::Finished {
            result: CleanupOutcomeView::ReleaseFailed(outcome, error@),
        }),
{
}

/// A stop of a ready sandbox that nothing disturbs is answered with 0 to those
/// who wait for the exit, and one whose machine had to be aborted with 1.
pub proof fn law_stopped_sandbox_reports_its_exit(
    state: crate::sandbox::LifecycleStateView,
    destroy_error: String,
    release: Result<(), String>,
    now: crate::sandbox::Timestamp,
)
    requires
        state.exited_at is None,
    ensures
        ({
            let at = |stage: TeardownStageView| TeardownView { has_lease: true, stage };
            let ok = TeardownEvent::Answered { result: Ok(()) };
            let failing = TeardownEvent::Answered { result: Err(destroy_error) };
            let released = TeardownEvent::Answered { result: release };
            let begun = stop_start(Phase::Ready, true);
            let empty = teardown_next(at(begun), TeardownEvent::Inspected { empty: true });
            let clean = teardown_next(at(teardown_next(at(empty), ok)), released);
            let forced = teardown_next(
                at(teardown_next(at(teardown_next(at(empty), failing)), ok)),
                released,
            );
            &&& clean is Finished && forced is Finished
            &&& crate::sandbox::wait_answer(
                crate::sandbox::stop_applied(state, Phase::Ready, clean->result, now),
            ) == Some((0u32, Some(now)))
            &&& crate::sandbox::wait_answer(
                crate::sandbox::stop_applied(state, Phase::Ready, forced->result, now),
            ) == Some((1u32, Some(now)))
        }),
{
}

} // verus!
