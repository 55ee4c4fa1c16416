//! The forward replay of a controller journal: every write follows a durable
//! intent, and the journal is committed once every file holds its target.
use vstd::prelude::*;

use crate::controllers::{
    exact_controller_readback, mark_controller_degraded, readback_fault,
};
use crate::record::{
    ControllerJournal, ControllerJournalView, ControllerStepState, ControllerTransactionState,
};
use crate::replay::{
    find_first_not_in, first_not_in, journal_files, set_step, step_files, with_step, PendingWrite,
    PendingWriteView, ReplayAction, ReplayActionView, ReplayEvent, ReplayEventView,
};
use crate::text::text_eq;

verus! {

/// Where a forward replay stands.
pub enum ForwardReplay {
    Loading,
    CheckingCommitted { journal: ControllerJournal },
    PersistingCommit { journal: ControllerJournal },
    Inspecting { journal: ControllerJournal, index: usize },
    PersistingIntent { journal: ControllerJournal, write: PendingWrite },
    PersistingApplied { journal: ControllerJournal },
    PersistingDegraded { journal: ControllerJournal, reason: String },
    BeforeWrite { write: PendingWrite },
    VerifyingClaim { write: PendingWrite },
    Writing { write: PendingWrite },
    AfterWrite { write: PendingWrite },
    BeforeReadback { write: PendingWrite },
    ReadingBack { write: PendingWrite },
    AfterReadback { write: PendingWrite, observed: String },
    Reloading { write: PendingWrite, observed: String },
    PersistingStep { journal: ControllerJournal, write: PendingWrite },
    AfterApplied { write: PendingWrite },
    Finished,
    Failed { message: String },
}

/// The contents of a [`ForwardReplay`].
pub enum ForwardView {
    Loading,
    CheckingCommitted { journal: ControllerJournalView },
    PersistingCommit { journal: ControllerJournalView },
    Inspecting { journal: ControllerJournalView, index: int },
    PersistingIntent { journal: ControllerJournalView, write: PendingWriteView },
    PersistingApplied { journal: ControllerJournalView },
    PersistingDegraded { journal: ControllerJournalView, reason: Seq<char> },
    BeforeWrite { write: PendingWriteView },
    VerifyingClaim { write: PendingWriteView },
    Writing { write: PendingWriteView },
    AfterWrite { write: PendingWriteView },
    BeforeReadback { write: PendingWriteView },
    ReadingBack { write: PendingWriteView },
    AfterReadback { write: PendingWriteView, observed: Seq<char> },
    Reloading { write: PendingWriteView, observed: Seq<char> },
    PersistingStep { journal: ControllerJournalView, write: PendingWriteView },
    AfterApplied { write: PendingWriteView },
    Finished,
    Failed { message: Seq<char> },
}

impl View for ForwardReplay {
    type V = ForwardView;

    open spec fn view(&self) -> ForwardView {
        match self {
            ForwardReplay::Loading => ForwardView::Loading,
            ForwardReplay::CheckingCommitted { journal } => ForwardView::CheckingCommitted {
                journal: journal@,
            },
            ForwardReplay::PersistingCommit { journal } => ForwardView::PersistingCommit {
                journal: journal@,
            },
            ForwardReplay::Inspecting { journal, index } => ForwardView::Inspecting {
                journal: journal@,
                index: *index as int,
            },
            ForwardReplay::PersistingIntent { journal, write } => ForwardView::PersistingIntent {
                journal: journal@,
                write: write@,
            },
            ForwardReplay::PersistingApplied { journal } => ForwardView::PersistingApplied {
                journal: journal@,
            },
            ForwardReplay::PersistingDegraded { journal, reason } => {
                ForwardView::PersistingDegraded { journal: journal@, reason: reason@ }
            },
            ForwardReplay::BeforeWrite { write } => ForwardView::BeforeWrite { write: write@ },
            ForwardReplay::VerifyingClaim { write } => ForwardView::VerifyingClaim {
                write: write@,
            },
            ForwardReplay::Writing { write } => ForwardView::Writing { write: write@ },
            ForwardReplay::AfterWrite { write } => ForwardView::AfterWrite { write: write@ },
            ForwardReplay::BeforeReadback { write } => ForwardView::BeforeReadback {
                write: write@,
            },
            ForwardReplay::ReadingBack { write } => ForwardView::ReadingBack { write: write@ },
            ForwardReplay::AfterReadback { write, observed } => ForwardView::AfterReadback {
                write: write@,
                observed: observed@,
            },
            ForwardReplay::Reloading { write, observed } => ForwardView::Reloading {
                write: write@,
                observed: observed@,
            },
            ForwardReplay::PersistingStep { journal, write } => ForwardView::PersistingStep {
                journal: journal@,
                write: write@,
            },
            ForwardReplay::AfterApplied { write } => ForwardView::AfterApplied { write: write@ },
            ForwardReplay::Finished => ForwardView::Finished,
            ForwardReplay::Failed { message } => ForwardView::Failed { message: message@ },
        }
    }
}

/// What a forward replay asks for in a state.
pub open spec fn forward_action(state: ForwardView) -> ReplayActionView {
    match state {
        ForwardView::Loading => ReplayActionView::Load,
        ForwardView::CheckingCommitted { journal } => ReplayActionView::ReadAll {
            files: step_files(journal.steps),
        },
        ForwardView::PersistingCommit { journal } => ReplayActionView::Persist { journal },
        ForwardView::Inspecting { journal, index } => ReplayActionView::Read {
            file: journal.steps[index].file,
        },
        ForwardView::PersistingIntent { journal, .. } => ReplayActionView::Persist { journal },
        ForwardView::PersistingApplied { journal } => ReplayActionView::Persist { journal },
        ForwardView::PersistingDegraded { journal, .. } => ReplayActionView::Persist { journal },
        ForwardView::BeforeWrite { write } => ReplayActionView::Failpoint {
            name: "before-write-"@ + write.file,
        },
        ForwardView::VerifyingClaim { .. } => ReplayActionView::VerifyClaim,
        ForwardView::Writing { write } => ReplayActionView::Write {
            file: write.file,
            value: write.value,
        },
        ForwardView::AfterWrite { write } => ReplayActionView::Failpoint {
            name: "after-write-"@ + write.file,
        },
        ForwardView::BeforeReadback { write } => ReplayActionView::Failpoint {
            name: "before-readback-"@ + write.file,
        },
        ForwardView::ReadingBack { write } => ReplayActionView::Read { file: write.file },
        ForwardView::AfterReadback { write, .. } => ReplayActionView::Failpoint {
            name: "after-readback-"@ + write.file,
        },
        ForwardView::Reloading { .. } => ReplayActionView::Load,
        ForwardView::PersistingStep { journal, .. } => ReplayActionView::Persist { journal },
        ForwardView::AfterApplied { write } => ReplayActionView::Failpoint {
            name: "after-applied-"@ + write.file,
        },
        ForwardView::Finished => ReplayActionView::Finish,
        ForwardView::Failed { message } => ReplayActionView::Fail { message },
    }
}

/// A journal marked as degraded.
pub open spec fn degraded(journal: ControllerJournalView, reason: Seq<char>) -> ControllerJournalView {
    ControllerJournalView {
        state: ControllerTransactionState::Degraded,
        degraded_reason: Some(reason),
        ..journal
    }
}

/// What a forward replay does with a journal that it loaded.
pub open spec fn forward_loaded(journal: ControllerJournalView) -> ForwardView {
    if journal.state == ControllerTransactionState::ControllersCommitted {
        ForwardView::CheckingCommitted { journal }
    } else if journal.state == ControllerTransactionState::Prepared || journal.state
        == ControllerTransactionState::Applying {
        match first_not_in(journal.steps, ControllerStepState::Applied, 0) {
            None => ForwardView::PersistingCommit {
                journal: ControllerJournalView {
                    state: ControllerTransactionState::ControllersCommitted,
                    ..journal
                },
            },
            Some(index) => ForwardView::Inspecting { journal, index },
        }
    } else {
        ForwardView::Failed {
            message: "Host controller transaction cannot move forward from "@
                + journal.state.label(),
        }
    }
}

/// The write that brings a step to its target.
pub open spec fn write_of(journal: ControllerJournalView, index: int) -> PendingWriteView {
    PendingWriteView {
        index,
        file: journal.steps[index].file,
        value: journal.steps[index].target,
    }
}

/// What a forward replay does with the value of the step it inspects.
pub open spec fn forward_inspected(
    journal: ControllerJournalView,
    index: int,
    actual: Seq<char>,
) -> ForwardView {
    let step = journal.steps[index];
    if step.state == ControllerStepState::NotStarted {
        if actual != step.old && actual != step.target {
            let reason = "controller "@ + step.file + " is neither old "@ + step.old
                + " nor target "@ + step.target + ": "@ + actual;
            ForwardView::PersistingDegraded { journal: degraded(journal, reason), reason }
        } else {
            ForwardView::PersistingIntent {
                journal: ControllerJournalView {
                    state: ControllerTransactionState::Applying,
                    ..with_step(journal, index, ControllerStepState::Intent, actual)
                },
                write: write_of(journal, index),
            }
        }
    } else if step.state == ControllerStepState::Intent {
        if actual == step.target {
            ForwardView::PersistingApplied {
                journal: with_step(journal, index, ControllerStepState::Applied, actual),
            }
        } else if actual != step.old {
            let reason = "controller "@ + step.file + " INTENT readback is neither old "@
                + step.old + " nor target "@ + step.target + ": "@ + actual;
            ForwardView::PersistingDegraded { journal: degraded(journal, reason), reason }
        } else {
            ForwardView::BeforeWrite { write: write_of(journal, index) }
        }
    } else {
        ForwardView::Failed {
            message: "controller "@ + step.file + " has invalid forward state "@
                + step.state.label(),
        }
    }
}

/// What a forward replay does with the journal that it loads after a write.
pub open spec fn forward_reloaded(
    journal: ControllerJournalView,
    write: PendingWriteView,
    observed: Seq<char>,
) -> ForwardView {
    if write.index >= journal.steps.len() {
        ForwardView::Failed { message: "Host controller step index changed"@ }
    } else if journal.steps[write.index].file != write.file || journal.steps[write.index].target
        != write.value || journal.steps[write.index].state != ControllerStepState::Intent {
        ForwardView::Failed { message: "Host controller INTENT changed during write"@ }
    } else {
        ForwardView::PersistingStep {
            journal: with_step(journal, write.index, ControllerStepState::Applied, observed),
            write,
        }
    }
}

/// Whether an event answers what a forward replay asked for in a state.
pub open spec fn forward_accepts(state: ForwardView, event: ReplayEventView) -> bool {
    if event is Failed {
        true
    } else {
        match state {
            ForwardView::Loading => event is Loaded,
            ForwardView::Reloading { .. } => event is Loaded,
            ForwardView::CheckingCommitted { journal } => event matches ReplayEventView::Values {
                readings,
            } && readings.len() == journal.steps.len(),
            ForwardView::Inspecting { journal, index } => event is Value && 0 <= index
                < journal.steps.len(),
            ForwardView::ReadingBack { .. } => event is Value,
            _ => event is Done,
        }
    }
}

/// The transitions of a forward replay. A failure of anything that it asked
/// for ends it with that failure.
pub open spec fn forward_next(state: ForwardView, event: ReplayEventView) -> ForwardView {
    if state is Finished || state is Failed {
        state
    } else if event is Failed {
        ForwardView::Failed { message: event->message }
    } else {
        match state {
            ForwardView::Loading => forward_loaded(event->journal),
            ForwardView::CheckingCommitted { journal } => match readback_fault(
                journal.steps,
                true,
                event->readings,
                0,
            ) {
                Some(message) => ForwardView::Failed { message },
                None => ForwardView::Finished,
            },
            ForwardView::PersistingCommit { .. } => ForwardView::Loading,
            ForwardView::Inspecting { journal, index } => forward_inspected(
                journal,
                index,
                event->value,
            ),
            ForwardView::PersistingIntent { write, .. } => ForwardView::BeforeWrite { write },
            ForwardView::PersistingApplied { .. } => ForwardView::Loading,
            ForwardView::PersistingDegraded { reason, .. } => ForwardView::Failed {
                message: reason,
            },
            ForwardView::BeforeWrite { write } => ForwardView::VerifyingClaim { write },
            ForwardView::VerifyingClaim { write } => ForwardView::Writing { write },
            ForwardView::Writing { write } => ForwardView::AfterWrite { write },
            ForwardView::AfterWrite { write } => ForwardView::BeforeReadback { write },
            ForwardView::BeforeReadback { write } => ForwardView::ReadingBack { write },
            ForwardView::ReadingBack { write } => if event->value != write.value {
                ForwardView::Failed {
                    message: "controller "@ + write.file + " target readback mismatch: expected "@
                        + write.value + ", found "@ + event->value,
                }
            } else {
                ForwardView::AfterReadback { write, observed: event->value }
            },
            ForwardView::AfterReadback { write, observed } => ForwardView::Reloading {
                write,
                observed,
            },
            ForwardView::Reloading { write, observed } => forward_reloaded(
                event->journal,
                write,
                observed,
            ),
            ForwardView::PersistingStep { write, .. } => ForwardView::AfterApplied { write },
            ForwardView::AfterApplied { .. } => ForwardView::Loading,
            other => other,
        }
    }
}

fn point(prefix: &str, file: &String) -> (action: ReplayAction)
    ensures
        action@ == (ReplayActionView::Failpoint { name: prefix@ + file@ }),
{
    ReplayAction::Failpoint { name: prefix.to_owned().concat(file.as_str()) }
}

fn loaded(journal: ControllerJournal) -> (next: ForwardReplay)
    ensures
        next@ == forward_loaded(journal@),
{
    let mut journal = journal;
    match journal.state {
        ControllerTransactionState::ControllersCommitted => ForwardReplay::CheckingCommitted {
            journal,
        },
        ControllerTransactionState::Prepared | ControllerTransactionState::Applying => {
            match find_first_not_in(&journal, ControllerStepState::Applied) {
                None => {
                    journal.state = ControllerTransactionState::ControllersCommitted;
                    ForwardReplay::PersistingCommit { journal }
                },
                Some(index) => ForwardReplay::Inspecting { journal, index },
            }
        },
        other => ForwardReplay::Failed {
            message: "Host controller transaction cannot move forward from ".to_owned().concat(
                other.name(),
            ),
        },
    }
}

fn inspected(journal: ControllerJournal, index: usize, actual: String) -> (next: ForwardReplay)
    requires
        index < journal@.steps.len(),
    ensures
        next@ == forward_inspected(journal@, index as int, actual@),
{
    let mut journal = journal;
    let ghost before = journal@;
    assert(journal@.steps[index as int] == journal.steps@[index as int]@);
    let step = journal.steps[index].clone();
    match step.state {
        ControllerStepState::NotStarted => {
            if !text_eq(actual.as_str(), step.old.as_str()) && !text_eq(
                actual.as_str(),
                step.target.as_str(),
            ) {
                let reason = "controller ".to_owned().concat(step.file.as_str()).concat(
                    " is neither old ",
                ).concat(step.old.as_str()).concat(" nor target ").concat(
                    step.target.as_str(),
                ).concat(": ").concat(actual.as_str());
                mark_controller_degraded(&mut journal, reason.as_str());
                return ForwardReplay::PersistingDegraded { journal, reason };
            }
            set_step(&mut journal, index, ControllerStepState::Intent, actual);
            journal.state = ControllerTransactionState::Applying;
            ForwardReplay::PersistingIntent {
                journal,
                write: PendingWrite { index, file: step.file, value: step.target },
            }
        },
        ControllerStepState::Intent => {
            if text_eq(actual.as_str(), step.target.as_str()) {
                set_step(&mut journal, index, ControllerStepState::Applied, actual);
                return ForwardReplay::PersistingApplied { journal };
            }
            if !text_eq(actual.as_str(), step.old.as_str()) {
                let reason = "controller ".to_owned().concat(step.file.as_str()).concat(
                    " INTENT readback is neither old ",
                ).concat(step.old.as_str()).concat(" nor target ").concat(
                    step.target.as_str(),
                ).concat(": ").concat(actual.as_str());
                mark_controller_degraded(&mut journal, reason.as_str());
                return ForwardReplay::PersistingDegraded { journal, reason };
            }
            ForwardReplay::BeforeWrite {
                write: PendingWrite { index, file: step.file, value: step.target },
            }
        },
        other => ForwardReplay::Failed {
            message: "controller ".to_owned().concat(step.file.as_str()).concat(
                " has invalid forward state ",
            ).concat(other.name()),
        },
    }
}

fn reloaded(journal: ControllerJournal, write: PendingWrite, observed: String) -> (next:
    ForwardReplay)
    ensures
        next@ == forward_reloaded(journal@, write@, observed@),
{
    let mut journal = journal;
    if write.index >= journal.steps.len() {
        return ForwardReplay::Failed { message: "Host controller step index changed".to_owned() };
    }
    assert(journal@.steps[write.index as int] == journal.steps@[write.index as int]@);
    let step = &journal.steps[write.index];
    if !text_eq(step.file.as_str(), write.file.as_str()) || !text_eq(
        step.target.as_str(),
        write.value.as_str(),
    ) || step.state != ControllerStepState::Intent {
        return ForwardReplay::Failed {
            message: "Host controller INTENT changed during write".to_owned(),
        };
    }
    set_step(&mut journal, write.index, ControllerStepState::Applied, observed);
    ForwardReplay::PersistingStep { journal, write }
}

impl ForwardReplay {
    /// A replay that is about to begin.
    pub fn start() -> (state: Self)
        ensures
            state@ == ForwardView::Loading,
    {
        ForwardReplay::Loading
    }

    /// What the replay asks for.
    pub fn action(&self) -> (action: ReplayAction)
        requires
            self@ matches ForwardView::Inspecting { journal, index } ==> 0 <= index
                < journal.steps.len(),
        ensures
            action@ == forward_action(self@),
    {
        match self {
            ForwardReplay::Loading => ReplayAction::Load,
            ForwardReplay::CheckingCommitted { journal } => ReplayAction::ReadAll {
                files: journal_files(journal),
            },
            ForwardReplay::PersistingCommit { journal } => ReplayAction::Persist {
                journal: journal.clone(),
            },
            ForwardReplay::Inspecting { journal, index } => {
                assert(journal@.steps[*index as int] == journal.steps@[*index as int]@);
                ReplayAction::Read { file: journal.steps[*index].file.clone() }
            },
            ForwardReplay::PersistingIntent { journal, .. } => ReplayAction::Persist {
                journal: journal.clone(),
            },
            ForwardReplay::PersistingApplied { journal } => ReplayAction::Persist {
                journal: journal.clone(),
            },
            ForwardReplay::PersistingDegraded { journal, .. } => ReplayAction::Persist {
                journal: journal.clone(),
            },
            ForwardReplay::BeforeWrite { write } => point("before-write-", &write.file),
            ForwardReplay::VerifyingClaim { .. } => ReplayAction::VerifyClaim,
            ForwardReplay::Writing { write } => ReplayAction::Write {
                file: write.file.clone(),
                value: write.value.clone(),
            },
            ForwardReplay::AfterWrite { write } => point("after-write-", &write.file),
            ForwardReplay::BeforeReadback { write } => point("before-readback-", &write.file),
            ForwardReplay::ReadingBack { write } => ReplayAction::Read {
                file: write.file.clone(),
            },
            ForwardReplay::AfterReadback { write, .. } => point("after-readback-", &write.file),
            ForwardReplay::Reloading { .. } => ReplayAction::Load,
            ForwardReplay::PersistingStep { journal, .. } => ReplayAction::Persist {
                journal: journal.clone(),
            },
            ForwardReplay::AfterApplied { write } => point("after-applied-", &write.file),
            ForwardReplay::Finished => ReplayAction::Finish,
            ForwardReplay::Failed { message } => ReplayAction::Fail { message: message.clone() },
        }
    }

    /// Takes what the replay asked for and moves on.
    pub fn step(self, event: ReplayEvent) -> (next: Self)
        requires
            forward_accepts(self@, event@),
        ensures
            next@ == forward_next(self@, event@),
    {
        match (self, event) {
            (ForwardReplay::Finished, _) => ForwardReplay::Finished,
            (ForwardReplay::Failed { message }, _) => ForwardReplay::Failed { message },
            (_, ReplayEvent::Failed { message }) => ForwardReplay::Failed { message },
            (ForwardReplay::Loading, ReplayEvent::Loaded { journal }) => loaded(journal),
            (
                ForwardReplay::CheckingCommitted { journal },
                ReplayEvent::Values { readings },
            ) => match exact_controller_readback(&journal, true, &readings) {
                Err(message) => ForwardReplay::Failed { message },
                Ok(()) => ForwardReplay::Finished,
            },
            (ForwardReplay::PersistingCommit { .. }, _) => ForwardReplay::Loading,
            (
                ForwardReplay::Inspecting { journal, index },
                ReplayEvent::Value { value },
            ) => inspected(journal, index, value),
            (ForwardReplay::PersistingIntent { write, .. }, _) => ForwardReplay::BeforeWrite {
                write,
            },
            (ForwardReplay::PersistingApplied { .. }, _) => ForwardReplay::Loading,
            (ForwardReplay::PersistingDegraded { reason, .. }, _) => ForwardReplay::Failed {
                message: reason,
            },
            (ForwardReplay::BeforeWrite { write }, _) => ForwardReplay::VerifyingClaim { write },
            (ForwardReplay::VerifyingClaim { write }, _) => ForwardReplay::Writing { write },
            (ForwardReplay::Writing { write }, _) => ForwardReplay::AfterWrite { write },
            (ForwardReplay::AfterWrite { write }, _) => ForwardReplay::BeforeReadback { write },
            (ForwardReplay::BeforeReadback { write }, _) => ForwardReplay::ReadingBack { write },
            (ForwardReplay::ReadingBack { write }, ReplayEvent::Value { value }) => {
                if !text_eq(value.as_str(), write.value.as_str()) {
                    return ForwardReplay::Failed {
                        message: "controller ".to_owned().concat(write.file.as_str()).concat(
                            " target readback mismatch: expected ",
                        ).concat(write.value.as_str()).concat(", found ").concat(value.as_str()),
                    };
                }
                ForwardReplay::AfterReadback { write, observed: value }
            },
            (ForwardReplay::AfterReadback { write, observed }, _) => ForwardReplay::Reloading {
                write,
                observed,
            },
            (
                ForwardReplay::Reloading { write, observed },
                ReplayEvent::Loaded { journal },
            ) => reloaded(journal, write, observed),
            (ForwardReplay::PersistingStep { write, .. }, _) => ForwardReplay::AfterApplied {
                write,
            },
            (ForwardReplay::AfterApplied { .. }, _) => ForwardReplay::Loading,
            (state, _) => state,
        }
    }
}

/// A step that was not started and reads its old or its new value is intended
/// and then written: what is persisted differs from the journal in that step
/// alone, and what is written is the step's new value.
pub proof fn law_unstarted_step_is_intended(
    journal: ControllerJournalView,
    index: int,
    actual: Seq<char>,
)
    requires
        0 <= index < journal.steps.len(),
        journal.steps[index].state == ControllerStepState::NotStarted,
        actual == journal.steps[index].old || actual == journal.steps[index].target,
    ensures
        ({
            let next = forward_next(
                ForwardView::Inspecting { journal, index },
                ReplayEventView::Value { value: actual },
            );
            let write = PendingWriteView {
                index,
                file: journal.steps[index].file,
                value: journal.steps[index].target,
            };
            &&& next matches ForwardView::PersistingIntent { journal: kept, write: w } && w == write
                && kept.state == ControllerTransactionState::Applying && kept.steps.len()
                == journal.steps.len() && kept.steps[index].state == ControllerStepState::Intent
                && kept.steps[index].observed == Some(actual) && kept.steps[index].file
                == journal.steps[index].file && kept.steps[index].old == journal.steps[index].old
                && kept.steps[index].target == journal.steps[index].target && kept.transaction_id
                == journal.transaction_id && kept.owner_epoch == journal.owner_epoch
            &&& forward_next(next, ReplayEventView::Done) == (ForwardView::BeforeWrite { write })
            &&& forward_next(ForwardView::BeforeWrite { write }, ReplayEventView::Done) == (
            ForwardView::VerifyingClaim { write })
            &&& forward_next(ForwardView::VerifyingClaim { write }, ReplayEventView::Done) == (
            ForwardView::Writing { write })
            &&& forward_action(ForwardView::Writing { write }) == (ReplayActionView::Write {
                file: write.file,
                value: journal.steps[index].target,
            })
        }),
{
}

/// An intended step is applied where it reads its new value, and written where
/// it still reads its old one; after the write its new value is read back and
/// recorded.
pub proof fn law_intended_step_is_applied(
    journal: ControllerJournalView,
    index: int,
    write: PendingWriteView,
    again: ControllerJournalView,
)
    requires
        0 <= index < journal.steps.len(),
        journal.steps[index].state == ControllerStepState::Intent,
        journal.steps[index].old != journal.steps[index].target,
        write == (PendingWriteView {
            index,
            file: journal.steps[index].file,
            value: journal.steps[index].target,
        }),
    ensures
        forward_next(
            ForwardView::Inspecting { journal, index },
            ReplayEventView::Value { value: journal.steps[index].old },
        ) == (ForwardView::BeforeWrite { write }),
        ({
            let next = forward_next(
                ForwardView::Inspecting { journal, index },
                ReplayEventView::Value { value: journal.steps[index].target },
            );
            next matches ForwardView::PersistingApplied { journal: kept }
                && kept.steps[index].state == ControllerStepState::Applied
                && kept.steps[index].observed == Some(journal.steps[index].target) && kept.state
                == journal.state
        }),
        forward_next(
            ForwardView::ReadingBack { write },
            ReplayEventView::Value { value: write.value },
        ) == (ForwardView::AfterReadback { write, observed: write.value }),
        ({
            let next = forward_next(
                ForwardView::Reloading { write, observed: write.value },
                ReplayEventView::Loaded { journal },
            );
            next matches ForwardView::PersistingStep { journal: kept, write: w } && w == write
                && kept.steps[index].state == ControllerStepState::Applied
                && kept.steps[index].observed == Some(write.value)
        }),
        again.steps.len() <= index ==> forward_next(
            ForwardView::Reloading { write, observed: write.value },
            ReplayEventView::Loaded { journal: again },
        ) is Failed,
{
}

/// Each point at which a replay may be cut off is named for what it stands
/// before or behind, and for its file.
pub proof fn law_forward_points_are_named(write: PendingWriteView, observed: Seq<char>)
    ensures
        forward_action(ForwardView::BeforeWrite { write }) == (ReplayActionView::Failpoint {
            name: "before-write-"@ + write.file,
        }),
        forward_action(ForwardView::AfterWrite { write }) == (ReplayActionView::Failpoint {
            name: "after-write-"@ + write.file,
        }),
        forward_action(ForwardView::BeforeReadback { write }) == (ReplayActionView::Failpoint {
            name: "before-readback-"@ + write.file,
        }),
        forward_action(ForwardView::AfterReadback { write, observed }) == (
        ReplayActionView::Failpoint { name: "after-readback-"@ + write.file }),
        forward_action(ForwardView::AfterApplied { write }) == (ReplayActionView::Failpoint {
            name: "after-applied-"@ + write.file,
        }),
        forward_action(ForwardView::ReadingBack { write }) == (ReplayActionView::Read {
            file: write.file,
        }),
        forward_action(ForwardView::VerifyingClaim { write }) == ReplayActionView::VerifyClaim,
        forward_action(ForwardView::Reloading { write, observed }) == ReplayActionView::Load,
{
}

} // verus!
