//! What the replays of a controller journal achieve on a Host that does what
//! it is asked: no write without a durable intent, commit on targets, and
//! full restoration after a crash at any point.
use vstd::prelude::*;

use crate::controllers::{controller_files, fixed_steps, readback_fault};
use crate::forward::{forward_action, forward_next, ForwardView};
use crate::record::{
    ControllerJournalView, ControllerStepState, ControllerStepView, ControllerTransactionState,
};
use crate::replay::{
    first_not_in, last_not_in, step_files, PendingWriteView, ReplayActionView, ReplayEventView,
};
use crate::rollback::{rollback_action, rollback_next, RollbackView};

verus! {

/// A Host: the durable journal and the values of the controller files.
pub struct Host {
    pub journal: ControllerJournalView,
    pub values: Map<Seq<char>, Seq<char>>,
}

/// How a Host answers what a replay asks for, when nothing fails.
pub open spec fn answer(host: Host, action: ReplayActionView) -> (Host, ReplayEventView) {
    match action {
        ReplayActionView::Load => (host, ReplayEventView::Loaded { journal: host.journal }),
        ReplayActionView::ReadAll { files } => (
            host,
            ReplayEventView::Values {
                readings: files.map_values(
                    |file: Seq<char>| Ok::<Seq<char>, Seq<char>>(host.values[file]),
                ),
            },
        ),
        ReplayActionView::Read { file } => (
            host,
            ReplayEventView::Value { value: host.values[file] },
        ),
        ReplayActionView::Persist { journal } => (Host { journal, ..host }, ReplayEventView::Done),
        ReplayActionView::Write { file, value } => (
            Host { values: host.values.insert(file, value), ..host },
            ReplayEventView::Done,
        ),
        _ => (host, ReplayEventView::Done),
    }
}

/// A forward replay in progress on a Host.
pub struct ForwardRun {
    pub state: ForwardView,
    pub host: Host,
}

/// A rollback in progress on a Host.
pub struct RollbackRun {
    pub state: RollbackView,
    pub host: Host,
}

/// One action of a forward replay and its answer.
pub open spec fn forward_tick(run: ForwardRun) -> ForwardRun {
    let (host, event) = answer(run.host, forward_action(run.state));
    ForwardRun { state: forward_next(run.state, event), host }
}

/// One action of a rollback and its answer.
pub open spec fn rollback_tick(run: RollbackRun) -> RollbackRun {
    let (host, event) = answer(run.host, rollback_action(run.state));
    RollbackRun { state: rollback_next(run.state, event), host }
}

/// A forward replay after `n` actions.
pub open spec fn forward_run(run: ForwardRun, n: nat) -> ForwardRun
    decreases n,
{
    if n == 0 {
        run
    } else {
        forward_run(forward_tick(run), (n - 1) as nat)
    }
}

/// A rollback after `n` actions.
pub open spec fn rollback_run(run: RollbackRun, n: nat) -> RollbackRun
    decreases n,
{
    if n == 0 {
        run
    } else {
        rollback_run(rollback_tick(run), (n - 1) as nat)
    }
}

/// A forward replay that begins on a Host.
pub open spec fn forward_start(host: Host) -> ForwardRun {
    ForwardRun { state: ForwardView::Loading, host }
}

/// A rollback that begins on a Host.
pub open spec fn rollback_start(host: Host) -> RollbackRun {
    RollbackRun { state: RollbackView::Loading, host }
}

/// No two steps write one file.
pub open spec fn distinct_files(steps: Seq<ControllerStepView>) -> bool {
    forall|i: int, j: int|
        0 <= i < steps.len() && 0 <= j < steps.len() && i != j ==> (#[trigger] steps[i]).file != (
        #[trigger] steps[j]).file
}

/// The value of a step's file is one that the step's state allows.
pub open spec fn step_recoverable(step: ControllerStepView, value: Seq<char>) -> bool {
    if step.state == ControllerStepState::NotStarted || step.state
        == ControllerStepState::Restored {
        value == step.old
    } else {
        value == step.old || value == step.target
    }
}

/// A Host from which a rollback restores every controller: each file holds
/// its old or its target value, and only a file whose step has begun may hold
/// the target.
pub open spec fn recoverable(host: Host) -> bool {
    &&& distinct_files(host.journal.steps)
    &&& host.journal.state != ControllerTransactionState::Degraded
    &&& host.journal.state != ControllerTransactionState::AbandonedForExactDelete
    &&& forall|i: int|
        0 <= i < host.journal.steps.len() ==> step_recoverable(
            #[trigger] host.journal.steps[i],
            host.values[host.journal.steps[i].file],
        )
    &&& host.journal.state == ControllerTransactionState::Restored ==> forall|i: int|
        0 <= i < host.journal.steps.len() ==> (#[trigger] host.journal.steps[i]).state
            == ControllerStepState::Restored
}

/// Two journals plan the same writes: files, old values and targets.
pub open spec fn same_plan(a: ControllerJournalView, b: ControllerJournalView) -> bool {
    &&& a.steps.len() == b.steps.len()
    &&& forall|i: int|
        0 <= i < a.steps.len() ==> (#[trigger] a.steps[i]).file == b.steps[i].file && a.steps[i].old
            == b.steps[i].old && a.steps[i].target == b.steps[i].target
}

/// The journal holds a durable intent for this write, and every earlier step
/// is applied.
pub open spec fn intended(journal: ControllerJournalView, write: PendingWriteView) -> bool {
    &&& 0 <= write.index < journal.steps.len()
    &&& journal.steps[write.index].state == ControllerStepState::Intent
    &&& journal.steps[write.index].file == write.file
    &&& journal.steps[write.index].target == write.value
    &&& forall|k: int|
        0 <= k < write.index ==> (#[trigger] journal.steps[k]).state
            == ControllerStepState::Applied
}

/// The journal holds a durable undo intent for this write, and every later
/// step is restored.
pub open spec fn undo_intended(journal: ControllerJournalView, write: PendingWriteView) -> bool {
    &&& 0 <= write.index < journal.steps.len()
    &&& journal.state == ControllerTransactionState::RollingBack
    &&& journal.steps[write.index].state == ControllerStepState::UndoIntent
    &&& journal.steps[write.index].file == write.file
    &&& journal.steps[write.index].old == write.value
    &&& forall|k: int|
        write.index < k < journal.steps.len() ==> (#[trigger] journal.steps[k]).state
            == ControllerStepState::Restored
}

/// Persisting this journal keeps the Host recoverable.
pub open spec fn persistable(host: Host, journal: ControllerJournalView) -> bool {
    recoverable(Host { journal, ..host }) && same_plan(journal, host.journal)
}

/// What holds throughout a forward replay that began on a recoverable Host.
pub open spec fn forward_invariant(run: ForwardRun) -> bool {
    &&& recoverable(run.host)
    &&& match run.state {
        ForwardView::Loading => true,
        ForwardView::CheckingCommitted { journal } => journal == run.host.journal && journal.state
            == ControllerTransactionState::ControllersCommitted,
        ForwardView::PersistingCommit { journal } => persistable(run.host, journal),
        ForwardView::Inspecting { journal, index } => journal == run.host.journal && first_not_in(
            journal.steps,
            ControllerStepState::Applied,
            0,
        ) == Some(index) && journal.state != ControllerTransactionState::Restored,
        ForwardView::PersistingIntent { journal, write } => persistable(run.host, journal)
            && intended(journal, write),
        ForwardView::PersistingApplied { journal } => persistable(run.host, journal),
        ForwardView::PersistingDegraded { .. } => false,
        ForwardView::BeforeWrite { write } => intended(run.host.journal, write),
        ForwardView::VerifyingClaim { write } => intended(run.host.journal, write),
        ForwardView::Writing { write } => intended(run.host.journal, write),
        ForwardView::AfterWrite { write } => intended(run.host.journal, write),
        ForwardView::BeforeReadback { write } => intended(run.host.journal, write),
        ForwardView::ReadingBack { write } => intended(run.host.journal, write),
        ForwardView::AfterReadback { write, observed } => intended(run.host.journal, write),
        ForwardView::Reloading { write, observed } => intended(run.host.journal, write),
        ForwardView::PersistingStep { journal, .. } => persistable(run.host, journal),
        ForwardView::AfterApplied { .. } => true,
        ForwardView::Finished => true,
        ForwardView::Failed { .. } => true,
    }
}

/// What holds throughout a rollback that began on a recoverable Host.
pub open spec fn rollback_invariant(run: RollbackRun) -> bool {
    &&& recoverable(run.host)
    &&& match run.state {
        RollbackView::Loading => true,
        RollbackView::CheckingRestored { journal } => journal == run.host.journal && journal.state
            == ControllerTransactionState::Restored,
        RollbackView::PersistingState { journal } => persistable(run.host, journal),
        RollbackView::Inspecting { journal, index } => journal == run.host.journal
            && journal.state == ControllerTransactionState::RollingBack && last_not_in(
            journal.steps,
            ControllerStepState::Restored,
            journal.steps.len() as int,
        ) == Some(index),
        RollbackView::PersistingStep { journal } => persistable(run.host, journal),
        RollbackView::PersistingDegraded { .. } => false,
        RollbackView::PersistingUndoIntent { journal, write } => persistable(run.host, journal)
            && undo_intended(journal, write),
        RollbackView::BeforeWrite { journal, write } => journal == run.host.journal
            && undo_intended(journal, write),
        RollbackView::VerifyingClaim { journal, write } => journal == run.host.journal
            && undo_intended(journal, write),
        RollbackView::Writing { journal, write } => journal == run.host.journal && undo_intended(
            journal,
            write,
        ),
        RollbackView::AfterWrite { journal, write } => journal == run.host.journal
            && undo_intended(journal, write) && run.host.values[write.file] == write.value,
        RollbackView::BeforeReadback { journal, write } => journal == run.host.journal
            && undo_intended(journal, write) && run.host.values[write.file] == write.value,
        RollbackView::ReadingBack { journal, write } => journal == run.host.journal
            && undo_intended(journal, write) && run.host.values[write.file] == write.value,
        RollbackView::AfterReadback { journal, write, observed } => journal == run.host.journal
            && undo_intended(journal, write) && run.host.values[write.file] == write.value,
        RollbackView::Finished => run.host.journal.state == ControllerTransactionState::Restored,
        RollbackView::Failed { .. } => false,
    }
}

proof fn lemma_first_not_in(steps: Seq<ControllerStepView>, state: ControllerStepState, from: int)
    requires
        0 <= from <= steps.len(),
    ensures
        match first_not_in(steps, state, from) {
            Some(index) => from <= index < steps.len() && steps[index].state != state && forall|
                k: int,
            |
                from <= k < index ==> (#[trigger] steps[k]).state == state,
            None => forall|k: int| from <= k < steps.len() ==> (#[trigger] steps[k]).state == state,
        },
    decreases steps.len() - from,
{
    if from < steps.len() && steps[from].state == state {
        lemma_first_not_in(steps, state, from + 1);
    }
}

proof fn lemma_last_not_in(steps: Seq<ControllerStepView>, state: ControllerStepState, to: int)
    requires
        0 <= to <= steps.len(),
    ensures
        match last_not_in(steps, state, to) {
            Some(index) => 0 <= index < to && steps[index].state != state && forall|k: int|
                index < k < to ==> (#[trigger] steps[k]).state == state,
            None => forall|k: int| 0 <= k < to ==> (#[trigger] steps[k]).state == state,
        },
    decreases to,
{
    if to > 0 && steps[to - 1].state == state {
        lemma_last_not_in(steps, state, to - 1);
    }
}

proof fn lemma_forward_tick(run: ForwardRun)
    requires
        forward_invariant(run),
    ensures
        forward_invariant(forward_tick(run)),
        same_plan(forward_tick(run).host.journal, run.host.journal),
{
    lemma_first_not_in(run.host.journal.steps, ControllerStepState::Applied, 0);
}

proof fn lemma_rollback_tick(run: RollbackRun)
    requires
        rollback_invariant(run),
    ensures
        rollback_invariant(rollback_tick(run)),
        same_plan(rollback_tick(run).host.journal, run.host.journal),
{
    let steps = run.host.journal.steps;
    lemma_last_not_in(steps, ControllerStepState::Restored, steps.len() as int);
    if run.state is CheckingRestored {
        lemma_readback_of_restored(run.host, 0);
    }
}

/// On a restored Host every controller file reads its old value.
proof fn lemma_readback_of_restored(host: Host, from: int)
    requires
        recoverable(host),
        host.journal.state == ControllerTransactionState::Restored,
        0 <= from <= host.journal.steps.len(),
    ensures
        readback_fault(
            host.journal.steps,
            false,
            answer(
                host,
                ReplayActionView::ReadAll { files: step_files(host.journal.steps) },
            ).1->readings,
            from,
        ) is None,
    decreases host.journal.steps.len() - from,
{
    if from < host.journal.steps.len() {
        lemma_readback_of_restored(host, from + 1);
    }
}

proof fn lemma_forward_run(run: ForwardRun, n: nat)
    requires
        forward_invariant(run),
    ensures
        forward_invariant(forward_run(run, n)),
        same_plan(forward_run(run, n).host.journal, run.host.journal),
    decreases n,
{
    if n > 0 {
        lemma_forward_tick(run);
        lemma_forward_run(forward_tick(run), (n - 1) as nat);
    }
}

proof fn lemma_rollback_run(run: RollbackRun, n: nat)
    requires
        rollback_invariant(run),
    ensures
        rollback_invariant(rollback_run(run, n)),
        same_plan(rollback_run(run, n).host.journal, run.host.journal),
    decreases n,
{
    if n > 0 {
        lemma_rollback_tick(run);
        lemma_rollback_run(rollback_tick(run), (n - 1) as nat);
    }
}

/// A forward replay writes a controller file only while the durable journal
/// holds the intent of exactly this write and every earlier step is applied,
/// and it keeps the Host recoverable after each of its actions.
pub proof fn law_forward_writes_follow_durable_intents(host: Host, n: nat)
    requires
        recoverable(host),
    ensures
        ({
            let run = forward_run(forward_start(host), n);
            &&& run.state matches ForwardView::Writing { write } ==> intended(
                run.host.journal,
                write,
            )
            &&& recoverable(run.host)
            &&& same_plan(run.host.journal, host.journal)
        }),
{
    lemma_forward_run(forward_start(host), n);
}

/// A rollback writes a controller file only while the durable journal holds
/// the undo intent of exactly this write and every later step is restored,
/// and it keeps the Host recoverable after each of its actions.
pub proof fn law_rollback_writes_follow_durable_undo_intents_in_reverse(host: Host, n: nat)
    requires
        recoverable(host),
    ensures
        ({
            let run = rollback_run(rollback_start(host), n);
            &&& run.state matches RollbackView::Writing { write, .. } ==> undo_intended(
                run.host.journal,
                write,
            )
            &&& recoverable(run.host)
            &&& same_plan(run.host.journal, host.journal)
        }),
{
    lemma_rollback_run(rollback_start(host), n);
}

/// How many steps are left for a forward replay.
pub open spec fn unapplied(journal: ControllerJournalView) -> int {
    match first_not_in(journal.steps, ControllerStepState::Applied, 0) {
        Some(index) => journal.steps.len() - index,
        None => 0,
    }
}

/// How many steps are left for a rollback.
pub open spec fn unrestored(journal: ControllerJournalView) -> int {
    match last_not_in(
        journal.steps,
        ControllerStepState::Restored,
        journal.steps.len() as int,
    ) {
        Some(index) => index + 1,
        None => 0,
    }
}

/// A Host on which a forward replay can reach the targets: the transaction
/// has not turned back, and every applied step holds its target.
pub open spec fn forward_ready(host: Host) -> bool {
    &&& recoverable(host)
    &&& host.journal.state == ControllerTransactionState::Prepared || host.journal.state
        == ControllerTransactionState::Applying || host.journal.state
        == ControllerTransactionState::ControllersCommitted
    &&& forall|i: int|
        0 <= i < host.journal.steps.len() ==> {
            ||| (#[trigger] host.journal.steps[i]).state == ControllerStepState::NotStarted
            ||| host.journal.steps[i].state == ControllerStepState::Intent
            ||| host.journal.steps[i].state == ControllerStepState::Applied
                && host.values[host.journal.steps[i].file] == host.journal.steps[i].target
        }
    &&& host.journal.state == ControllerTransactionState::ControllersCommitted ==> unapplied(
        host.journal,
    ) == 0
}

spec fn forward_progress(run: ForwardRun) -> bool {
    &&& forward_invariant(run)
    &&& forward_ready(run.host)
    &&& match run.state {
        ForwardView::PersistingCommit { journal } => journal.state
            == ControllerTransactionState::ControllersCommitted && journal.steps
            == run.host.journal.steps && unapplied(journal) == 0 && run.host.journal.state
            != ControllerTransactionState::ControllersCommitted,
        ForwardView::Inspecting { journal, .. } => journal.state
            != ControllerTransactionState::ControllersCommitted,
        ForwardView::PersistingIntent { journal, .. } => forward_ready(
            Host { journal, ..run.host },
        ) && unapplied(journal) == unapplied(run.host.journal) && journal.state
            == ControllerTransactionState::Applying,
        ForwardView::PersistingApplied { journal } => forward_ready(Host { journal, ..run.host })
            && unapplied(journal) < unapplied(run.host.journal) && journal.state
            == run.host.journal.state,
        ForwardView::AfterWrite { write } => run.host.values[write.file] == write.value,
        ForwardView::BeforeReadback { write } => run.host.values[write.file] == write.value,
        ForwardView::ReadingBack { write } => run.host.values[write.file] == write.value,
        ForwardView::AfterReadback { write, .. } => run.host.values[write.file] == write.value,
        ForwardView::Reloading { write, .. } => run.host.values[write.file] == write.value,
        ForwardView::PersistingStep { journal, .. } => forward_ready(
            Host { journal, ..run.host },
        ) && unapplied(journal) < unapplied(run.host.journal) && journal.state
            == run.host.journal.state,
        ForwardView::Finished => run.host.journal.state
            == ControllerTransactionState::ControllersCommitted,
        ForwardView::Failed { .. } => false,
        _ => true,
    }
}

spec fn forward_measure(run: ForwardRun) -> int {
    20 * unapplied(run.host.journal) + (if run.host.journal.state
        == ControllerTransactionState::ControllersCommitted {
        0int
    } else {
        100int
    }) + (match run.state {
        ForwardView::Loading => 15int,
        ForwardView::CheckingCommitted { .. } => 14,
        ForwardView::PersistingCommit { .. } => 14,
        ForwardView::Inspecting { .. } => 14,
        ForwardView::PersistingIntent { .. } => 13,
        ForwardView::PersistingApplied { .. } => 13,
        ForwardView::PersistingDegraded { .. } => 13,
        ForwardView::BeforeWrite { .. } => 12,
        ForwardView::VerifyingClaim { .. } => 11,
        ForwardView::Writing { .. } => 10,
        ForwardView::AfterWrite { .. } => 9,
        ForwardView::BeforeReadback { .. } => 8,
        ForwardView::ReadingBack { .. } => 7,
        ForwardView::AfterReadback { .. } => 6,
        ForwardView::Reloading { .. } => 5,
        ForwardView::PersistingStep { .. } => 4,
        ForwardView::AfterApplied { .. } => 16,
        ForwardView::Finished => 0,
        ForwardView::Failed { .. } => 0,
    })
}

proof fn lemma_apply_step(journal: ControllerJournalView, index: int, observed: Seq<char>)
    requires
        first_not_in(journal.steps, ControllerStepState::Applied, 0) == Some(index),
    ensures
        unapplied(
            crate::replay::with_step(journal, index, ControllerStepState::Applied, observed),
        ) < unapplied(journal),
{
    let next = crate::replay::with_step(journal, index, ControllerStepState::Applied, observed);
    lemma_first_not_in(journal.steps, ControllerStepState::Applied, 0);
    lemma_first_not_in(next.steps, ControllerStepState::Applied, 0);
}

proof fn lemma_intend_step(journal: ControllerJournalView, index: int, observed: Seq<char>)
    requires
        first_not_in(journal.steps, ControllerStepState::Applied, 0) == Some(index),
    ensures
        unapplied(
            crate::replay::with_step(journal, index, ControllerStepState::Intent, observed),
        ) == unapplied(journal),
{
    let next = crate::replay::with_step(journal, index, ControllerStepState::Intent, observed);
    lemma_first_not_in(journal.steps, ControllerStepState::Applied, 0);
    lemma_first_not_in(next.steps, ControllerStepState::Applied, 0);
    assert(next.steps[index].state == ControllerStepState::Intent);
    assert forall|k: int| 0 <= k < index implies (#[trigger] next.steps[k]).state
        == ControllerStepState::Applied by {
        assert(next.steps[k] == journal.steps[k]);
    }
}

proof fn lemma_readback_of_committed(host: Host, from: int)
    requires
        forward_ready(host),
        host.journal.state == ControllerTransactionState::ControllersCommitted,
        0 <= from <= host.journal.steps.len(),
    ensures
        readback_fault(
            host.journal.steps,
            true,
            answer(
                host,
                ReplayActionView::ReadAll { files: step_files(host.journal.steps) },
            ).1->readings,
            from,
        ) is None,
    decreases host.journal.steps.len() - from,
{
    lemma_first_not_in(host.journal.steps, ControllerStepState::Applied, 0);
    if from < host.journal.steps.len() {
        lemma_readback_of_committed(host, from + 1);
    }
}

proof fn lemma_forward_progress(run: ForwardRun)
    requires
        forward_progress(run),
        !(run.state is Finished),
    ensures
        forward_progress(forward_tick(run)),
        0 <= forward_measure(forward_tick(run)) < forward_measure(run),
{
    let steps = run.host.journal.steps;
    lemma_forward_tick(run);
    lemma_first_not_in(steps, ControllerStepState::Applied, 0);
    let next = forward_tick(run);
    lemma_first_not_in(next.host.journal.steps, ControllerStepState::Applied, 0);
    match run.state {
        ForwardView::CheckingCommitted { .. } => {
            lemma_readback_of_committed(run.host, 0);
        },
        ForwardView::Inspecting { journal, index } => {
            let actual = run.host.values[journal.steps[index].file];
            lemma_apply_step(journal, index, actual);
            lemma_intend_step(journal, index, actual);
        },
        ForwardView::Reloading { write, observed } => {
            lemma_apply_step(run.host.journal, write.index, observed);
        },
        _ => {},
    }
}

proof fn lemma_forward_finishes(run: ForwardRun) -> (n: nat)
    requires
        forward_progress(run),
    ensures
        forward_run(run, n).state is Finished,
        forward_progress(forward_run(run, n)),
    decreases forward_measure(run),
{
    if run.state is Finished {
        0
    } else {
        lemma_forward_progress(run);
        lemma_first_not_in(run.host.journal.steps, ControllerStepState::Applied, 0);
        let rest = lemma_forward_finishes(forward_tick(run));
        rest + 1
    }
}

/// A forward replay that is not disturbed ends with a committed journal and
/// every controller file at its target.
pub proof fn law_forward_commits_the_targets(host: Host) -> (n: nat)
    requires
        forward_ready(host),
    ensures
        ({
            let run = forward_run(forward_start(host), n);
            &&& run.state is Finished
            &&& run.host.journal.state == ControllerTransactionState::ControllersCommitted
            &&& same_plan(run.host.journal, host.journal)
            &&& forall|i: int|
                0 <= i < host.journal.steps.len() ==> run.host.values[(
                #[trigger] host.journal.steps[i]).file] == host.journal.steps[i].target
        }),
{
    let n = lemma_forward_finishes(forward_start(host));
    lemma_forward_run(forward_start(host), n);
    let run = forward_run(forward_start(host), n);
    lemma_first_not_in(run.host.journal.steps, ControllerStepState::Applied, 0);
    assert forall|i: int| 0 <= i < host.journal.steps.len() implies run.host.values[(
    #[trigger] host.journal.steps[i]).file] == host.journal.steps[i].target by {
        assert(run.host.journal.steps[i].file == host.journal.steps[i].file);
    }
    n
}

spec fn rollback_progress(run: RollbackRun) -> bool {
    &&& rollback_invariant(run)
    &&& match run.state {
        RollbackView::PersistingState { journal } => journal.steps == run.host.journal.steps && (
        (journal.state == ControllerTransactionState::Restored && run.host.journal.state
            == ControllerTransactionState::RollingBack) || (journal.state
            == ControllerTransactionState::RollingBack && run.host.journal.state
            != ControllerTransactionState::RollingBack && run.host.journal.state
            != ControllerTransactionState::Restored)),
        RollbackView::PersistingStep { journal } => journal.state == run.host.journal.state
            && unrestored(journal) < unrestored(run.host.journal),
        RollbackView::PersistingUndoIntent { journal, .. } => journal.state
            == run.host.journal.state && unrestored(journal) == unrestored(run.host.journal),
        _ => true,
    }
}

spec fn rollback_measure(run: RollbackRun) -> int {
    20 * unrestored(run.host.journal) + (if run.host.journal.state
        == ControllerTransactionState::Restored {
        0int
    } else if run.host.journal.state == ControllerTransactionState::RollingBack {
        100int
    } else {
        200int
    }) + (match run.state {
        RollbackView::Loading => 15int,
        RollbackView::CheckingRestored { .. } => 14,
        RollbackView::PersistingState { .. } => 14,
        RollbackView::Inspecting { .. } => 14,
        RollbackView::PersistingStep { .. } => 5,
        RollbackView::PersistingDegraded { .. } => 13,
        RollbackView::PersistingUndoIntent { .. } => 13,
        RollbackView::BeforeWrite { .. } => 12,
        RollbackView::VerifyingClaim { .. } => 11,
        RollbackView::Writing { .. } => 10,
        RollbackView::AfterWrite { .. } => 9,
        RollbackView::BeforeReadback { .. } => 8,
        RollbackView::ReadingBack { .. } => 7,
        RollbackView::AfterReadback { .. } => 6,
        RollbackView::Finished => 0,
        RollbackView::Failed { .. } => 0,
    })
}

proof fn lemma_restore_step(journal: ControllerJournalView, index: int, observed: Seq<char>)
    requires
        0 <= index < journal.steps.len(),
        journal.steps[index].state != ControllerStepState::Restored,
        forall|k: int|
            index < k < journal.steps.len() ==> (#[trigger] journal.steps[k]).state
                == ControllerStepState::Restored,
    ensures
        unrestored(
            crate::replay::with_step(journal, index, ControllerStepState::Restored, observed),
        ) < unrestored(journal),
        unrestored(
            crate::replay::with_step(journal, index, ControllerStepState::UndoIntent, observed),
        ) == unrestored(journal),
{
    let restored = crate::replay::with_step(
        journal,
        index,
        ControllerStepState::Restored,
        observed,
    );
    let undo = crate::replay::with_step(journal, index, ControllerStepState::UndoIntent, observed);
    lemma_last_not_in(journal.steps, ControllerStepState::Restored, journal.steps.len() as int);
    lemma_last_not_in(restored.steps, ControllerStepState::Restored, journal.steps.len() as int);
    lemma_last_not_in(undo.steps, ControllerStepState::Restored, journal.steps.len() as int);
}

proof fn lemma_rollback_progress(run: RollbackRun)
    requires
        rollback_progress(run),
        !(run.state is Finished),
    ensures
        rollback_progress(rollback_tick(run)),
        0 <= rollback_measure(rollback_tick(run)) < rollback_measure(run),
{
    let steps = run.host.journal.steps;
    lemma_rollback_tick(run);
    lemma_last_not_in(steps, ControllerStepState::Restored, steps.len() as int);
    let next = rollback_tick(run);
    lemma_last_not_in(
        next.host.journal.steps,
        ControllerStepState::Restored,
        next.host.journal.steps.len() as int,
    );
    match run.state {
        RollbackView::Inspecting { journal, index } => {
            lemma_restore_step(journal, index, run.host.values[journal.steps[index].file]);
        },
        RollbackView::AfterReadback { journal, write, observed } => {
            lemma_restore_step(journal, write.index, observed);
        },
        _ => {},
    }
}

proof fn lemma_rollback_finishes(run: RollbackRun) -> (n: nat)
    requires
        rollback_progress(run),
    ensures
        rollback_run(run, n).state is Finished,
        rollback_progress(rollback_run(run, n)),
    decreases rollback_measure(run),
{
    if run.state is Finished {
        0
    } else {
        lemma_rollback_progress(run);
        lemma_last_not_in(
            run.host.journal.steps,
            ControllerStepState::Restored,
            run.host.journal.steps.len() as int,
        );
        let rest = lemma_rollback_finishes(rollback_tick(run));
        rest + 1
    }
}

/// A rollback that is not disturbed ends with a restored journal and every
/// controller file at its old value.
pub proof fn law_rollback_restores_the_old_values(host: Host) -> (n: nat)
    requires
        recoverable(host),
    ensures
        ({
            let run = rollback_run(rollback_start(host), n);
            &&& run.state is Finished
            &&& run.host.journal.state == ControllerTransactionState::Restored
            &&& same_plan(run.host.journal, host.journal)
            &&& forall|i: int|
                0 <= i < host.journal.steps.len() ==> run.host.values[(
                #[trigger] host.journal.steps[i]).file] == host.journal.steps[i].old
        }),
{
    let n = lemma_rollback_finishes(rollback_start(host));
    lemma_rollback_run(rollback_start(host), n);
    let run = rollback_run(rollback_start(host), n);
    assert forall|i: int| 0 <= i < host.journal.steps.len() implies run.host.values[(
    #[trigger] host.journal.steps[i]).file] == host.journal.steps[i].old by {
        assert(run.host.journal.steps[i].file == host.journal.steps[i].file);
        assert(run.host.journal.steps[i].state == ControllerStepState::Restored);
    }
    n
}

/// After a crash at any point of a forward replay, a rollback on what the
/// crash left behind restores every controller file to its old value.
pub proof fn law_crash_during_forward_is_rolled_back(host: Host, crash: nat) -> (n: nat)
    requires
        recoverable(host),
    ensures
        ({
            let left = forward_run(forward_start(host), crash).host;
            let run = rollback_run(rollback_start(left), n);
            &&& run.state is Finished
            &&& run.host.journal.state == ControllerTransactionState::Restored
            &&& forall|i: int|
                0 <= i < host.journal.steps.len() ==> run.host.values[(
                #[trigger] host.journal.steps[i]).file] == host.journal.steps[i].old
        }),
{
    lemma_forward_run(forward_start(host), crash);
    let left = forward_run(forward_start(host), crash).host;
    let n = law_rollback_restores_the_old_values(left);
    let run = rollback_run(rollback_start(left), n);
    assert forall|i: int| 0 <= i < host.journal.steps.len() implies run.host.values[(
    #[trigger] host.journal.steps[i]).file] == host.journal.steps[i].old by {
        assert(left.journal.steps[i].file == host.journal.steps[i].file);
    }
    n
}

/// After a crash at any point of a rollback, beginning the rollback again
/// restores every controller file to its old value.
pub proof fn law_crash_during_rollback_converges(host: Host, crash: nat) -> (n: nat)
    requires
        recoverable(host),
    ensures
        ({
            let left = rollback_run(rollback_start(host), crash).host;
            let run = rollback_run(rollback_start(left), n);
            &&& run.state is Finished
            &&& run.host.journal.state == ControllerTransactionState::Restored
            &&& forall|i: int|
                0 <= i < host.journal.steps.len() ==> run.host.values[(
                #[trigger] host.journal.steps[i]).file] == host.journal.steps[i].old
        }),
{
    lemma_rollback_run(rollback_start(host), crash);
    let left = rollback_run(rollback_start(host), crash).host;
    let n = law_rollback_restores_the_old_values(left);
    let run = rollback_run(rollback_start(left), n);
    assert forall|i: int| 0 <= i < host.journal.steps.len() implies run.host.values[(
    #[trigger] host.journal.steps[i]).file] == host.journal.steps[i].old by {
        assert(left.journal.steps[i].file == host.journal.steps[i].file);
    }
    n
}

/// The fixed controller files are distinct, so a fresh journal over the
/// values that the files hold is recoverable and ready to go forward.
pub proof fn law_fresh_transaction_is_ready(host: Host)
    requires
        fixed_steps(host.journal.steps),
        host.journal.state == ControllerTransactionState::Prepared,
        forall|i: int|
            0 <= i < 4 ==> (#[trigger] host.journal.steps[i]).state
                == ControllerStepState::NotStarted && host.values[host.journal.steps[i].file]
                == host.journal.steps[i].old,
    ensures
        recoverable(host),
        forward_ready(host),
{
    reveal_strlit("memory.oom.group");
    reveal_strlit("pids.max");
    reveal_strlit("memory.max");
    reveal_strlit("cpu.max");
    let steps = host.journal.steps;
    assert forall|i: int, j: int|
        0 <= i < steps.len() && 0 <= j < steps.len() && i != j implies (#[trigger] steps[i]).file
        != (#[trigger] steps[j]).file by {
        assert(steps[i].file == controller_files()[i]);
        assert(steps[j].file == controller_files()[j]);
        assert(controller_files()[i].len() != controller_files()[j].len());
    }
}

/// What an accepted transaction that finds no durable journal does to a Host
/// that holds the values which were read: its forward replay ends with every
/// controller file at the ceiling's value. Where it is cut off at any point, a
/// rollback puts back every value that was read.
pub proof fn law_accepted_ceiling_is_applied_or_undone(
    state: crate::lifecycle::LifecycleView,
    claim: crate::ceiling::ControllerClaimView,
    ceiling: crate::controllers::HostResourceCeiling,
    seen: crate::target::ProcessSighting,
    controllers: crate::ceiling::ControllerSighting,
    transaction_id: Seq<char>,
    values: Map<Seq<char>, Seq<char>>,
    crash: nat,
) -> (n: (nat, nat))
    requires
        controllers.readings@.len() == 4,
        state.host_owner.controllers is None,
        crate::ceiling::transaction_journal(
            state,
            claim,
            ceiling,
            seen,
            controllers,
            transaction_id,
        ) is Ok,
        controllers.readings@[0] matches Ok(value) ==> values["memory.oom.group"@] == value@,
        controllers.readings@[1] matches Ok(value) ==> values["pids.max"@] == value@,
        controllers.readings@[2] matches Ok(value) ==> values["memory.max"@] == value@,
        controllers.readings@[3] matches Ok(value) ==> values["cpu.max"@] == value@,
    ensures
        ({
            let journal = crate::ceiling::transaction_journal(
                state,
                claim,
                ceiling,
                seen,
                controllers,
                transaction_id,
            )->Ok_0;
            let host = Host { journal, values };
            let applied = forward_run(forward_start(host), n.0);
            let left = forward_run(forward_start(host), crash).host;
            let undone = rollback_run(rollback_start(left), n.1);
            &&& recoverable(host)
            &&& forward_ready(host)
            &&& applied.state is Finished
            &&& applied.host.journal.state == ControllerTransactionState::ControllersCommitted
            &&& applied.host.values["memory.oom.group"@] == ceiling.memory_oom_group@
            &&& applied.host.values["pids.max"@] == ceiling.pids_max@
            &&& applied.host.values["memory.max"@] == ceiling.memory_max@
            &&& applied.host.values["cpu.max"@] == ceiling.cpu_max@
            &&& undone.state is Finished
            &&& undone.host.values["memory.oom.group"@] == values["memory.oom.group"@]
            &&& undone.host.values["pids.max"@] == values["pids.max"@]
            &&& undone.host.values["memory.max"@] == values["memory.max"@]
            &&& undone.host.values["cpu.max"@] == values["cpu.max"@]
        }),
{
    crate::ceiling::law_fresh_transaction_has_not_started(
        state,
        claim,
        ceiling,
        seen,
        controllers,
        transaction_id,
    );
    let journal = crate::ceiling::transaction_journal(
        state,
        claim,
        ceiling,
        seen,
        controllers,
        transaction_id,
    )->Ok_0;
    let host = Host { journal, values };
    assert forall|i: int| 0 <= i < 4 implies (#[trigger] journal.steps[i]).file
        == controller_files()[i] && host.values[journal.steps[i].file] == journal.steps[i].old by {
        assert(controllers.readings@[i] is Ok);
    }
    law_fresh_transaction_is_ready(host);
    let applied = law_forward_commits_the_targets(host);
    let undone = law_crash_during_forward_is_rolled_back(host, crash);
    assert(journal.steps[0].old == values["memory.oom.group"@]);
    assert(journal.steps[1].old == values["pids.max"@]);
    assert(journal.steps[2].old == values["memory.max"@]);
    assert(journal.steps[3].old == values["cpu.max"@]);
    (applied, undone)
}

/// A forward replay never passes over a value that is neither the old one nor
/// the target: it degrades the journal, keeps why, and fails.
pub proof fn law_foreign_values_degrade_the_transaction(
    journal: ControllerJournalView,
    index: int,
    actual: Seq<char>,
)
    requires
        0 <= index < journal.steps.len(),
        actual != journal.steps[index].old,
        actual != journal.steps[index].target,
    ensures
        journal.steps[index].state == ControllerStepState::NotStarted || journal.steps[index].state
            == ControllerStepState::Intent ==> (forward_next(
            ForwardView::Inspecting { journal, index },
            ReplayEventView::Value { value: actual },
        ) matches ForwardView::PersistingDegraded { journal: marked, reason } && marked.state
            == ControllerTransactionState::Degraded && marked.degraded_reason == Some(reason)
            && marked.steps == journal.steps && forward_next(
            ForwardView::PersistingDegraded { journal: marked, reason },
            ReplayEventView::Done,
        ) == (ForwardView::Failed { message: reason })),
        journal.steps[index].state != ControllerStepState::Restored ==> (rollback_next(
            RollbackView::Inspecting { journal, index },
            ReplayEventView::Value { value: actual },
        ) matches RollbackView::PersistingDegraded { journal: marked, reason } && marked.state
            == ControllerTransactionState::Degraded && marked.degraded_reason == Some(reason)
            && marked.steps == journal.steps && rollback_next(
            RollbackView::PersistingDegraded { journal: marked, reason },
            ReplayEventView::Done,
        ) == (RollbackView::Failed { message: reason })),
{
}

/// A write counts only where the value is read back: any other value ends the
/// forward replay, and degrades a rollback.
pub proof fn law_writes_are_read_back(
    journal: ControllerJournalView,
    write: PendingWriteView,
    value: Seq<char>,
)
    ensures
        forward_next(
            ForwardView::ReadingBack { write },
            ReplayEventView::Value { value },
        ) is AfterReadback <==> value == write.value,
        forward_next(
            ForwardView::ReadingBack { write },
            ReplayEventView::Value { value },
        ) is Failed <==> value != write.value,
        rollback_next(
            RollbackView::ReadingBack { journal, write },
            ReplayEventView::Value { value },
        ) is AfterReadback <==> value == write.value,
        value != write.value ==> (rollback_next(
            RollbackView::ReadingBack { journal, write },
            ReplayEventView::Value { value },
        ) matches RollbackView::PersistingDegraded { journal: marked, .. } && marked.state
            == ControllerTransactionState::Degraded),
{
}

/// The claim is verified between the durable intent and the write, and a write
/// whose claim was lost is not made.
pub proof fn law_claim_is_verified_before_each_write(
    journal: ControllerJournalView,
    write: PendingWriteView,
    event: ReplayEventView,
    run: ForwardView,
    undo: RollbackView,
)
    ensures
        forward_next(run, event) is Writing && !(run is Writing) ==> run is VerifyingClaim
            && !(event is Failed),
        rollback_next(undo, event) is Writing && !(undo is Writing) ==> undo is VerifyingClaim
            && !(event is Failed),
        forward_action(ForwardView::VerifyingClaim { write }) is VerifyClaim,
        rollback_action(RollbackView::VerifyingClaim { journal, write }) is VerifyClaim,
        forward_action(ForwardView::Writing { write }) == (ReplayActionView::Write {
            file: write.file,
            value: write.value,
        }),
        rollback_action(RollbackView::Writing { journal, write }) == (ReplayActionView::Write {
            file: write.file,
            value: write.value,
        }),
{
}

/// Nothing that fails is passed over: a replay that is in progress ends with
/// the failure, and one that has ended stays as it is.
pub proof fn law_failures_end_a_replay(
    run: ForwardView,
    undo: RollbackView,
    message: Seq<char>,
    event: ReplayEventView,
)
    ensures
        !(run is Finished) && !(run is Failed) ==> forward_next(
            run,
            ReplayEventView::Failed { message },
        ) == (ForwardView::Failed { message }),
        !(undo is Finished) && !(undo is Failed) ==> rollback_next(
            undo,
            ReplayEventView::Failed { message },
        ) == (RollbackView::Failed { message }),
        run is Finished || run is Failed ==> forward_next(run, event) == run,
        undo is Finished || undo is Failed ==> rollback_next(undo, event) == undo,
{
}

/// A transaction that has turned back, is degraded or was given up never goes
/// forward again, and a degraded one is not rolled back by a replay.
pub proof fn law_turned_transactions_stay_turned(journal: ControllerJournalView)
    ensures
        ({
            let loaded = ReplayEventView::Loaded { journal };
            let turned = journal.state == ControllerTransactionState::RollingBack || journal.state
                == ControllerTransactionState::Restored || journal.state
                == ControllerTransactionState::Degraded || journal.state
                == ControllerTransactionState::AbandonedForExactDelete;
            &&& turned ==> forward_next(ForwardView::Loading, loaded) is Failed
            &&& journal.state == ControllerTransactionState::ControllersCommitted ==> forward_next(
                ForwardView::Loading,
                loaded,
            ) == (ForwardView::CheckingCommitted { journal })
            &&& journal.state == ControllerTransactionState::Degraded || journal.state
                == ControllerTransactionState::AbandonedForExactDelete ==> rollback_next(
                RollbackView::Loading,
                loaded,
            ) is Failed
        }),
{
}

} // verus!
