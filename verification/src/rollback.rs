//! The rollback of a controller journal: steps are undone in reverse order,
//! and the journal is restored once every file holds its old value.
use vstd::prelude::*;

use crate::controllers::{
    exact_controller_readback, mark_controller_degraded, readback_fault,
};
use crate::forward::degraded;
use crate::record::{
    ControllerJournal, ControllerJournalView, ControllerStepState, ControllerTransactionState,
};
use crate::replay::{
    find_last_not_in, journal_files, last_not_in, set_step, step_files, with_step, PendingWrite,
    PendingWriteView, ReplayAction, ReplayActionView, ReplayEvent, ReplayEventView,
};
use crate::text::text_eq;

verus! {

/// Where a rollback stands.
pub enum RollbackReplay {
    Loading,
    CheckingRestored { journal: ControllerJournal },
    PersistingState { journal: ControllerJournal },
    Inspecting { journal: ControllerJournal, index: usize },
    PersistingStep { journal: ControllerJournal },
    PersistingDegraded { journal: ControllerJournal, reason: String },
    PersistingUndoIntent { journal: ControllerJournal, write: PendingWrite },
    BeforeWrite { journal: ControllerJournal, write: PendingWrite },
    VerifyingClaim { journal: ControllerJournal, write: PendingWrite },
    Writing { journal: ControllerJournal, write: PendingWrite },
    AfterWrite { journal: ControllerJournal, write: PendingWrite },
    BeforeReadback { journal: ControllerJournal, write: PendingWrite },
    ReadingBack { journal: ControllerJournal, write: PendingWrite },
    AfterReadback { journal: ControllerJournal, write: PendingWrite, observed: String },
    Finished,
    Failed { message: String },
}

/// The contents of a [`RollbackReplay`].
pub enum RollbackView {
    Loading,
    CheckingRestored { journal: ControllerJournalView },
    PersistingState { journal: ControllerJournalView },
    Inspecting { journal: ControllerJournalView, index: int },
    PersistingStep { journal: ControllerJournalView },
    PersistingDegraded { journal: ControllerJournalView, reason: Seq<char> },
    PersistingUndoIntent { journal: ControllerJournalView, write: PendingWriteView },
    BeforeWrite { journal: ControllerJournalView, write: PendingWriteView },
    VerifyingClaim { journal: ControllerJournalView, write: PendingWriteView },
    Writing { journal: ControllerJournalView, write: PendingWriteView },
    AfterWrite { journal: ControllerJournalView, write: PendingWriteView },
    BeforeReadback { journal: ControllerJournalView, write: PendingWriteView },
    ReadingBack { journal: ControllerJournalView, write: PendingWriteView },
    AfterReadback { journal: ControllerJournalView, write: PendingWriteView, observed: Seq<char> },
    Finished,
    Failed { message: Seq<char> },
}

impl View for RollbackReplay {
    type V = RollbackView;

    open spec fn view(&self) -> RollbackView {
        match self {
            RollbackReplay::Loading => RollbackView::Loading,
            RollbackReplay::CheckingRestored { journal } => RollbackView::CheckingRestored {
                journal: journal@,
            },
            RollbackReplay::PersistingState { journal } => RollbackView::PersistingState {
                journal: journal@,
            },
            RollbackReplay::Inspecting { journal, index } => RollbackView::Inspecting {
                journal: journal@,
                index: *index as int,
            },
            RollbackReplay::PersistingStep { journal } => RollbackView::PersistingStep {
                journal: journal@,
            },
            RollbackReplay::PersistingDegraded { journal, reason } => {
                RollbackView::PersistingDegraded { journal: journal@, reason: reason@ }
            },
            RollbackReplay::PersistingUndoIntent { journal, write } => {
                RollbackView::PersistingUndoIntent { journal: journal@, write: write@ }
            },
            RollbackReplay::BeforeWrite { journal, write } => RollbackView::BeforeWrite {
                journal: journal@,
                write: write@,
            },
            RollbackReplay::VerifyingClaim { journal, write } => RollbackView::VerifyingClaim {
                journal: journal@,
                write: write@,
            },
            RollbackReplay::Writing { journal, write } => RollbackView::Writing {
                journal: journal@,
                write: write@,
            },
            RollbackReplay::AfterWrite { journal, write } => RollbackView::AfterWrite {
                journal: journal@,
                write: write@,
            },
            RollbackReplay::BeforeReadback { journal, write } => RollbackView::BeforeReadback {
                journal: journal@,
                write: write@,
            },
            RollbackReplay::ReadingBack { journal, write } => RollbackView::ReadingBack {
                journal: journal@,
                write: write@,
            },
            RollbackReplay::AfterReadback { journal, write, observed } => {
                RollbackView::AfterReadback {
                    journal: journal@,
                    write: write@,
                    observed: observed@,
                }
            },
            RollbackReplay::Finished => RollbackView::Finished,
            RollbackReplay::Failed { message } => RollbackView::Failed { message: message@ },
        }
    }
}

/// What a rollback asks for in a state.
pub open spec fn rollback_action(state: RollbackView) -> ReplayActionView {
    match state {
        RollbackView::Loading => ReplayActionView::Load,
        RollbackView::CheckingRestored { journal } => ReplayActionView::ReadAll {
            files: step_files(journal.steps),
        },
        RollbackView::PersistingState { journal } => ReplayActionView::Persist { journal },
        RollbackView::Inspecting { journal, index } => ReplayActionView::Read {
            file: journal.steps[index].file,
        },
        RollbackView::PersistingStep { journal } => ReplayActionView::Persist { journal },
        RollbackView::PersistingDegraded { journal, .. } => ReplayActionView::Persist { journal },
        RollbackView::PersistingUndoIntent { journal, .. } => ReplayActionView::Persist {
            journal,
        },
        RollbackView::BeforeWrite { write, .. } => ReplayActionView::Failpoint {
            name: "before-rollback-write-"@ + write.file,
        },
        RollbackView::VerifyingClaim { .. } => ReplayActionView::VerifyClaim,
        RollbackView::Writing { write, .. } => ReplayActionView::Write {
            file: write.file,
            value: write.value,
        },
        RollbackView::AfterWrite { write, .. } => ReplayActionView::Failpoint {
            name: "after-rollback-write-"@ + write.file,
        },
        RollbackView::BeforeReadback { write, .. } => ReplayActionView::Failpoint {
            name: "before-rollback-readback-"@ + write.file,
        },
        RollbackView::ReadingBack { write, .. } => ReplayActionView::Read { file: write.file },
        RollbackView::AfterReadback { write, .. } => ReplayActionView::Failpoint {
            name: "after-rollback-readback-"@ + write.file,
        },
        RollbackView::Finished => ReplayActionView::Finish,
        RollbackView::Failed { message } => ReplayActionView::Fail { message },
    }
}

/// The reason for which a transaction is degraded, as messages give it.
pub open spec fn reason_text(journal: ControllerJournalView) -> Seq<char> {
    match journal.degraded_reason {
        Some(reason) => reason,
        None => "no reason"@,
    }
}

/// What a rollback does with a journal that it loaded.
pub open spec fn rollback_loaded(journal: ControllerJournalView) -> RollbackView {
    if journal.state == ControllerTransactionState::Restored {
        RollbackView::CheckingRestored { journal }
    } else if journal.state == ControllerTransactionState::Degraded || journal.state
        == ControllerTransactionState::AbandonedForExactDelete {
        RollbackView::Failed {
            message: "Host controller rollback cannot continue from "@ + journal.state.label()
                + ": "@ + reason_text(journal),
        }
    } else if journal.state != ControllerTransactionState::RollingBack {
        RollbackView::PersistingState {
            journal: ControllerJournalView {
                state: ControllerTransactionState::RollingBack,
                ..journal
            },
        }
    } else {
        match last_not_in(
            journal.steps,
            ControllerStepState::Restored,
            journal.steps.len() as int,
        ) {
            None => RollbackView::PersistingState {
                journal: ControllerJournalView {
                    state: ControllerTransactionState::Restored,
                    ..journal
                },
            },
            Some(index) => RollbackView::Inspecting { journal, index },
        }
    }
}

/// The write that brings a step back to its old value.
pub open spec fn undo_of(journal: ControllerJournalView, index: int) -> PendingWriteView {
    PendingWriteView { index, file: journal.steps[index].file, value: journal.steps[index].old }
}

/// What a rollback does with the value of the step it inspects.
pub open spec fn rollback_inspected(
    journal: ControllerJournalView,
    index: int,
    actual: Seq<char>,
) -> RollbackView {
    let step = journal.steps[index];
    if step.state == ControllerStepState::NotStarted {
        if actual != step.old {
            let reason = "unstarted controller "@ + step.file + " changed from old "@ + step.old
                + " to "@ + actual;
            RollbackView::PersistingDegraded { journal: degraded(journal, reason), reason }
        } else {
            RollbackView::PersistingStep {
                journal: with_step(journal, index, ControllerStepState::Restored, actual),
            }
        }
    } else if step.state == ControllerStepState::Restored {
        RollbackView::Loading
    } else if actual == step.old {
        RollbackView::PersistingStep {
            journal: with_step(journal, index, ControllerStepState::Restored, actual),
        }
    } else if actual != step.target {
        let reason = "controller "@ + step.file + " rollback readback is neither old "@ + step.old
            + " nor target "@ + step.target + ": "@ + actual;
        RollbackView::PersistingDegraded { journal: degraded(journal, reason), reason }
    } else {
        RollbackView::PersistingUndoIntent {
            journal: with_step(journal, index, ControllerStepState::UndoIntent, actual),
            write: undo_of(journal, index),
        }
    }
}

/// What a rollback does with the value that it reads after a write.
pub open spec fn rollback_read_back(
    journal: ControllerJournalView,
    write: PendingWriteView,
    restored: Seq<char>,
) -> RollbackView {
    if restored != write.value {
        let reason = "controller "@ + write.file + " rollback readback mismatch: expected "@
            + write.value + ", found "@ + restored;
        RollbackView::PersistingDegraded { journal: degraded(journal, reason), reason }
    } else {
        RollbackView::AfterReadback { journal, write, observed: restored }
    }
}

/// Whether an event answers what a rollback asked for in a state.
pub open spec fn rollback_accepts(state: RollbackView, event: ReplayEventView) -> bool {
    if event is Failed {
        true
    } else {
        match state {
            RollbackView::Loading => event is Loaded,
            RollbackView::CheckingRestored { journal } => event matches ReplayEventView::Values {
                readings,
            } && readings.len() == journal.steps.len(),
            RollbackView::Inspecting { journal, index } => event is Value && 0 <= index
                < journal.steps.len(),
            RollbackView::ReadingBack { .. } => event is Value,
            RollbackView::AfterReadback { journal, write, .. } => event is Done && 0 <= write.index
                < journal.steps.len(),
            _ => event is Done,
        }
    }
}

/// The transitions of a rollback. A failure of anything that it asked for
/// ends it with that failure.
pub open spec fn rollback_next(state: RollbackView, event: ReplayEventView) -> RollbackView {
    if state is Finished || state is Failed {
        state
    } else if event is Failed {
        RollbackView::Failed { message: event->message }
    } else {
        match state {
            RollbackView::Loading => rollback_loaded(event->journal),
            RollbackView::CheckingRestored { journal } => match readback_fault(
                journal.steps,
                false,
                event->readings,
                0,
            ) {
                Some(message) => RollbackView::Failed { message },
                None => RollbackView::Finished,
            },
            RollbackView::PersistingState { .. } => RollbackView::Loading,
            RollbackView::Inspecting { journal, index } => rollback_inspected(
                journal,
                index,
                event->value,
            ),
            RollbackView::PersistingStep { .. } => RollbackView::Loading,
            RollbackView::PersistingDegraded { reason, .. } => RollbackView::Failed {
                message: reason,
            },
            RollbackView::PersistingUndoIntent { journal, write } => RollbackView::BeforeWrite {
                journal,
                write,
            },
            RollbackView::BeforeWrite { journal, write } => RollbackView::VerifyingClaim {
                journal,
                write,
            },
            RollbackView::VerifyingClaim { journal, write } => RollbackView::Writing {
                journal,
                write,
            },
            RollbackView::Writing { journal, write } => RollbackView::AfterWrite {
                journal,
                write,
            },
            RollbackView::AfterWrite { journal, write } => RollbackView::BeforeReadback {
                journal,
                write,
            },
            RollbackView::BeforeReadback { journal, write } => RollbackView::ReadingBack {
                journal,
                write,
            },
            RollbackView::ReadingBack { journal, write } => rollback_read_back(
                journal,
                write,
                event->value,
            ),
            RollbackView::AfterReadback { journal, write, observed } => {
                RollbackView::PersistingStep {
                    journal: with_step(
                        journal,
                        write.index,
                        ControllerStepState::Restored,
                        observed,
                    ),
                }
            },
            other => other,
        }
    }
}

fn point(prefix: &str, file: &String) -> (action: ReplayAction)
    ensures
        action@ == (ReplayActionView::Failpoint { name: prefix@ + file@ }),
{
    ReplayAction::Failpoint { name: prefix.to_owned().concat(file.as_str()) }
}

fn loaded(journal: ControllerJournal) -> (next: RollbackReplay)
    ensures
        next@ == rollback_loaded(journal@),
{
    let mut journal = journal;
    match journal.state {
        ControllerTransactionState::Restored => RollbackReplay::CheckingRestored { journal },
        ControllerTransactionState::Degraded
        | ControllerTransactionState::AbandonedForExactDelete => {
            let reason = match &journal.degraded_reason {
                Some(reason) => reason.as_str(),
                None => "no reason",
            };
            RollbackReplay::Failed {
                message: "Host controller rollback cannot continue from ".to_owned().concat(
                    journal.state.name(),
                ).concat(": ").concat(reason),
            }
        },
        ControllerTransactionState::RollingBack => {
            match find_last_not_in(&journal, ControllerStepState::Restored) {
                None => {
                    journal.state = ControllerTransactionState::Restored;
                    RollbackReplay::PersistingState { journal }
                },
                Some(index) => RollbackReplay::Inspecting { journal, index },
            }
        },
        _ => {
            journal.state = ControllerTransactionState::RollingBack;
            RollbackReplay::PersistingState { journal }
        },
    }
}

fn inspected(journal: ControllerJournal, index: usize, actual: String) -> (next: RollbackReplay)
    requires
        index < journal@.steps.len(),
    ensures
        next@ == rollback_inspected(journal@, index as int, actual@),
{
    let mut journal = journal;
    assert(journal@.steps[index as int] == journal.steps@[index as int]@);
    let step = journal.steps[index].clone();
    match step.state {
        ControllerStepState::NotStarted => {
            if !text_eq(actual.as_str(), step.old.as_str()) {
                let reason = "unstarted controller ".to_owned().concat(step.file.as_str()).concat(
                    " changed from old ",
                ).concat(step.old.as_str()).concat(" to ").concat(actual.as_str());
                mark_controller_degraded(&mut journal, reason.as_str());
                return RollbackReplay::PersistingDegraded { journal, reason };
            }
            set_step(&mut journal, index, ControllerStepState::Restored, actual);
            RollbackReplay::PersistingStep { journal }
        },
        ControllerStepState::Restored => RollbackReplay::Loading,
        _ => {
            if text_eq(actual.as_str(), step.old.as_str()) {
                set_step(&mut journal, index, ControllerStepState::Restored, actual);
                return RollbackReplay::PersistingStep { journal };
            }
            if !text_eq(actual.as_str(), step.target.as_str()) {
                let reason = "controller ".to_owned().concat(step.file.as_str()).concat(
                    " rollback readback is neither old ",
                ).concat(step.old.as_str()).concat(" nor target ").concat(
                    step.target.as_str(),
                ).concat(": ").concat(actual.as_str());
                mark_controller_degraded(&mut journal, reason.as_str());
                return RollbackReplay::PersistingDegraded { journal, reason };
            }
            set_step(&mut journal, index, ControllerStepState::UndoIntent, actual);
            RollbackReplay::PersistingUndoIntent {
                journal,
                write: PendingWrite { index, file: step.file, value: step.old },
            }
        },
    }
}

fn read_back(journal: ControllerJournal, write: PendingWrite, restored: String) -> (next:
    RollbackReplay)
    ensures
        next@ == rollback_read_back(journal@, write@, restored@),
{
    let mut journal = journal;
    if !text_eq(restored.as_str(), write.value.as_str()) {
        let reason = "controller ".to_owned().concat(write.file.as_str()).concat(
            " rollback readback mismatch: expected ",
        ).concat(write.value.as_str()).concat(", found ").concat(restored.as_str());
        mark_controller_degraded(&mut journal, reason.as_str());
        return RollbackReplay::PersistingDegraded { journal, reason };
    }
    RollbackReplay::AfterReadback { journal, write, observed: restored }
}

impl RollbackReplay {
    /// A rollback that is about to begin.
    pub fn start() -> (state: Self)
        ensures
            state@ == RollbackView::Loading,
    {
        RollbackReplay::Loading
    }

    /// What the rollback asks for.
    pub fn action(&self) -> (action: ReplayAction)
        requires
            self@ matches RollbackView::Inspecting { journal, index } ==> 0 <= index
                < journal.steps.len(),
        ensures
            action@ == rollback_action(self@),
    {
        match self {
            RollbackReplay::Loading => ReplayAction::Load,
            RollbackReplay::CheckingRestored { journal } => ReplayAction::ReadAll {
                files: journal_files(journal),
            },
            RollbackReplay::PersistingState { journal } => ReplayAction::Persist {
                journal: journal.clone(),
            },
            RollbackReplay::Inspecting { journal, index } => {
                assert(journal@.steps[*index as int] == journal.steps@[*index as int]@);
                ReplayAction::Read { file: journal.steps[*index].file.clone() }
            },
            RollbackReplay::PersistingStep { journal } => ReplayAction::Persist {
                journal: journal.clone(),
            },
            RollbackReplay::PersistingDegraded { journal, .. } => ReplayAction::Persist {
                journal: journal.clone(),
            },
            RollbackReplay::PersistingUndoIntent { journal, .. } => ReplayAction::Persist {
                journal: journal.clone(),
            },
            RollbackReplay::BeforeWrite { write, .. } => point(
                "before-rollback-write-",
                &write.file,
            ),
            RollbackReplay::VerifyingClaim { .. } => ReplayAction::VerifyClaim,
            RollbackReplay::Writing { write, .. } => ReplayAction::Write {
                file: write.file.clone(),
                value: write.value.clone(),
            },
            RollbackReplay::AfterWrite { write, .. } => point(
                "after-rollback-write-",
                &write.file,
            ),
            RollbackReplay::BeforeReadback { write, .. } => point(
                "before-rollback-readback-",
                &write.file,
            ),
            RollbackReplay::ReadingBack { write, .. } => ReplayAction::Read {
                file: write.file.clone(),
            },
            RollbackReplay::AfterReadback { write, .. } => point(
                "after-rollback-readback-",
                &write.file,
            ),
            RollbackReplay::Finished => ReplayAction::Finish,
            RollbackReplay::Failed { message } => ReplayAction::Fail { message: message.clone() },
        }
    }

    /// Takes what the rollback asked for and moves on.
    pub fn step(self, event: ReplayEvent) -> (next: Self)
        requires
            rollback_accepts(self@, event@),
        ensures
            next@ == rollback_next(self@, event@),
    {
        match (self, event) {
            (RollbackReplay::Finished, _) => RollbackReplay::Finished,
            (RollbackReplay::Failed { message }, _) => RollbackReplay::Failed { message },
            (_, ReplayEvent::Failed { message }) => RollbackReplay::Failed { message },
            (RollbackReplay::Loading, ReplayEvent::Loaded { journal }) => loaded(journal),
            (
                RollbackReplay::CheckingRestored { journal },
                ReplayEvent::Values { readings },
            ) => match exact_controller_readback(&journal, false, &readings) {
                Err(message) => RollbackReplay::Failed { message },
                Ok(()) => RollbackReplay::Finished,
            },
            (RollbackReplay::PersistingState { .. }, _) => RollbackReplay::Loading,
            (
                RollbackReplay::Inspecting { journal, index },
                ReplayEvent::Value { value },
            ) => inspected(journal, index, value),
            (RollbackReplay::PersistingStep { .. }, _) => RollbackReplay::Loading,
            (RollbackReplay::PersistingDegraded { reason, .. }, _) => RollbackReplay::Failed {
                message: reason,
            },
            (RollbackReplay::PersistingUndoIntent { journal, write }, _) => {
                RollbackReplay::BeforeWrite { journal, write }
            },
            (RollbackReplay::BeforeWrite { journal, write }, _) => {
                RollbackReplay::VerifyingClaim { journal, write }
            },
            (RollbackReplay::VerifyingClaim { journal, write }, _) => RollbackReplay::Writing {
                journal,
                write,
            },
            (RollbackReplay::Writing { journal, write }, _) => RollbackReplay::AfterWrite {
                journal,
                write,
            },
            (RollbackReplay::AfterWrite { journal, write }, _) => {
                RollbackReplay::BeforeReadback { journal, write }
            },
            (RollbackReplay::BeforeReadback { journal, write }, _) => {
                RollbackReplay::ReadingBack { journal, write }
            },
            (
                RollbackReplay::ReadingBack { journal, write },
                ReplayEvent::Value { value },
            ) => read_back(journal, write, value),
            (RollbackReplay::AfterReadback { journal, write, observed }, _) => {
                let mut journal = journal;
                set_step(&mut journal, write.index, ControllerStepState::Restored, observed);
                RollbackReplay::PersistingStep { journal }
            },
            (state, _) => state,
        }
    }
}

/// A step that reads its old value is restored without a write; one that was
/// started and reads its new value is undone by writing the old one.
pub proof fn law_started_step_is_undone(
    journal: ControllerJournalView,
    index: int,
)
    requires
        0 <= index < journal.steps.len(),
        journal.steps[index].state == ControllerStepState::Intent || journal.steps[index].state
            == ControllerStepState::Applied || journal.steps[index].state
            == ControllerStepState::UndoIntent,
        journal.steps[index].old != journal.steps[index].target,
    ensures
        ({
            let write = PendingWriteView {
                index,
                file: journal.steps[index].file,
                value: journal.steps[index].old,
            };
            let undone = rollback_next(
                RollbackView::Inspecting { journal, index },
                ReplayEventView::Value { value: journal.steps[index].target },
            );
            let restored = rollback_next(
                RollbackView::Inspecting { journal, index },
                ReplayEventView::Value { value: journal.steps[index].old },
            );
            &&& undone matches RollbackView::PersistingUndoIntent { journal: kept, write: w } && w
                == write && kept.steps[index].state == ControllerStepState::UndoIntent
                && kept.steps[index].observed == Some(journal.steps[index].target)
            &&& restored matches RollbackView::PersistingStep { journal: kept }
                && kept.steps[index].state == ControllerStepState::Restored
                && kept.steps[index].observed == Some(journal.steps[index].old)
            &&& rollback_action(RollbackView::Writing { journal, write }) == (
            ReplayActionView::Write { file: write.file, value: journal.steps[index].old })
            &&& rollback_next(
                RollbackView::ReadingBack { journal, write },
                ReplayEventView::Value { value: journal.steps[index].old },
            ) == (RollbackView::AfterReadback {
                journal,
                write,
                observed: journal.steps[index].old,
            })
        }),
{
}

/// A transaction that is not rolled back yet is turned first, one whose steps
/// are all restored is restored, and one that is degraded or abandoned is left
/// alone.
pub proof fn law_rollback_turns_or_ends(journal: ControllerJournalView)
    ensures
        ({
            let next = rollback_next(
                RollbackView::Loading,
                ReplayEventView::Loaded { journal },
            );
            let turned = ControllerJournalView {
                state: ControllerTransactionState::RollingBack,
                ..journal
            };
            let ended = ControllerJournalView {
                state: ControllerTransactionState::Restored,
                ..journal
            };
            &&& journal.state == ControllerTransactionState::Prepared || journal.state
                == ControllerTransactionState::Applying || journal.state
                == ControllerTransactionState::ControllersCommitted ==> next == (
            RollbackView::PersistingState { journal: turned })
            &&& journal.state == ControllerTransactionState::RollingBack && journal.steps.len() == 0
                ==> next == (RollbackView::PersistingState { journal: ended })
            &&& journal.state == ControllerTransactionState::Restored ==> next == (
            RollbackView::CheckingRestored { journal })
            &&& journal.state == ControllerTransactionState::Degraded || journal.state
                == ControllerTransactionState::AbandonedForExactDelete ==> next is Failed
        }),
{
}

/// Each point at which a rollback may be cut off is named for what it stands
/// before or behind, and for its file.
pub proof fn law_rollback_points_are_named(
    journal: ControllerJournalView,
    write: PendingWriteView,
    observed: Seq<char>,
)
    ensures
        rollback_action(RollbackView::BeforeWrite { journal, write }) == (
        ReplayActionView::Failpoint { name: "before-rollback-write-"@ + write.file }),
        rollback_action(RollbackView::AfterWrite { journal, write }) == (
        ReplayActionView::Failpoint { name: "after-rollback-write-"@ + write.file }),
        rollback_action(RollbackView::BeforeReadback { journal, write }) == (
        ReplayActionView::Failpoint { name: "before-rollback-readback-"@ + write.file }),
        rollback_action(RollbackView::AfterReadback { journal, write, observed }) == (
        ReplayActionView::Failpoint { name: "after-rollback-readback-"@ + write.file }),
        rollback_action(RollbackView::VerifyingClaim { journal, write })
            == ReplayActionView::VerifyClaim,
        rollback_action(RollbackView::ReadingBack { journal, write }) == (ReplayActionView::Read {
            file: write.file,
        }),
{
}

} // verus!
