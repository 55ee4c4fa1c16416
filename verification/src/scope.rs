//! The cleanup of a systemd scope: systemd collects it, once its cgroup is seen
//! to be the recorded one and empty.
use vstd::prelude::*;

use crate::text::text_eq;

verus! {

/// How often systemd is asked for the state of a scope.
pub const QUERY_LIMIT: u32 = 100;

/// How long to wait between two questions.
pub const QUERY_PAUSE_MS: u64 = 10;

/// Where the cleanup of a scope stands.
#[derive(Debug, PartialEq, Eq)]
pub enum ScopeStage {
    /// Is the cgroup there?
    Looking,
    /// The cgroup is gone: is the unit, too?
    AskingAbsence,
    /// Is the cgroup the recorded one?
    VerifyingRecorded,
    /// What is the state of the unit?
    Querying { attempt: u32 },
    /// The state could not be had: was the unit collected?
    AskingCollected { attempt: u32, failure: String },
    /// The unit was collected: is the cgroup still there?
    LookingAgain,
    VerifyingCollected,
    CheckingCollected,
    Pausing { attempt: u32 },
    /// The unit has ended: the cgroup is checked before that is accepted, and
    /// before a failed unit is reset.
    VerifyingEnded { reset: bool },
    CheckingEmpty { reset: bool },
    VerifyingAgain { reset: bool },
    Resetting,
    Finished,
    Failed { message: String },
}

/// The contents of a [`ScopeStage`].
pub enum ScopeStageView {
    Looking,
    AskingAbsence,
    VerifyingRecorded,
    Querying { attempt: u32 },
    AskingCollected { attempt: u32, failure: Seq<char> },
    LookingAgain,
    VerifyingCollected,
    CheckingCollected,
    Pausing { attempt: u32 },
    VerifyingEnded { reset: bool },
    CheckingEmpty { reset: bool },
    VerifyingAgain { reset: bool },
    Resetting,
    Finished,
    Failed { message: Seq<char> },
}

impl View for ScopeStage {
    type V = ScopeStageView;

    open spec fn view(&self) -> ScopeStageView {
        match self {
            ScopeStage::Looking => ScopeStageView::Looking,
            ScopeStage::AskingAbsence => ScopeStageView::AskingAbsence,
            ScopeStage::VerifyingRecorded => ScopeStageView::VerifyingRecorded,
            ScopeStage::Querying { attempt } => ScopeStageView::Querying { attempt: *attempt },
            ScopeStage::AskingCollected { attempt, failure } => ScopeStageView::AskingCollected {
                attempt: *attempt,
                failure: failure@,
            },
            ScopeStage::LookingAgain => ScopeStageView::LookingAgain,
            ScopeStage::VerifyingCollected => ScopeStageView::VerifyingCollected,
            ScopeStage::CheckingCollected => ScopeStageView::CheckingCollected,
            ScopeStage::Pausing { attempt } => ScopeStageView::Pausing { attempt: *attempt },
            ScopeStage::VerifyingEnded { reset } => ScopeStageView::VerifyingEnded {
                reset: *reset,
            },
            ScopeStage::CheckingEmpty { reset } => ScopeStageView::CheckingEmpty { reset: *reset },
            ScopeStage::VerifyingAgain { reset } => ScopeStageView::VerifyingAgain {
                reset: *reset,
            },
            ScopeStage::Resetting => ScopeStageView::Resetting,
            ScopeStage::Finished => ScopeStageView::Finished,
            ScopeStage::Failed { message } => ScopeStageView::Failed { message: message@ },
        }
    }
}

/// What the cleanup of a scope asks for.
#[derive(Clone, Copy, Debug, PartialEq, Eq, Structural)]
pub enum ScopeAction {
    LookForCgroup,
    AskUnitAbsent,
    VerifyIdentity,
    VerifyEmpty,
    QueryState,
    Pause,
    ResetFailed,
    Stop,
}

/// What the cleanup of a scope is told.
#[derive(Debug, PartialEq, Eq)]
pub enum ScopeEvent {
    Cgroup { present: bool },
    Unit { absent: bool },
    State { active: Option<String> },
    Done,
    Failed { message: String },
}

/// The contents of a [`ScopeEvent`].
pub enum ScopeEventView {
    Cgroup { present: bool },
    Unit { absent: bool },
    State { active: Option<Seq<char>> },
    Done,
    Failed { message: Seq<char> },
}

impl View for ScopeEvent {
    type V = ScopeEventView;

    open spec fn view(&self) -> ScopeEventView {
        match self {
            ScopeEvent::Cgroup { present } => ScopeEventView::Cgroup { present: *present },
            ScopeEvent::Unit { absent } => ScopeEventView::Unit { absent: *absent },
            ScopeEvent::State { active } => ScopeEventView::State {
                active: crate::text::opt_view(*active),
            },
            ScopeEvent::Done => ScopeEventView::Done,
            ScopeEvent::Failed { message } => ScopeEventView::Failed { message: message@ },
        }
    }
}

/// What the cleanup of a scope asks for in a stage.
pub open spec fn scope_action(stage: ScopeStageView) -> ScopeAction {
    match stage {
        ScopeStageView::Looking | ScopeStageView::LookingAgain => ScopeAction::LookForCgroup,
        ScopeStageView::AskingAbsence | ScopeStageView::AskingCollected { .. } => {
            ScopeAction::AskUnitAbsent
        },
        ScopeStageView::VerifyingRecorded | ScopeStageView::VerifyingCollected
        | ScopeStageView::VerifyingEnded { .. } | ScopeStageView::VerifyingAgain { .. } => {
            ScopeAction::VerifyIdentity
        },
        ScopeStageView::CheckingCollected | ScopeStageView::CheckingEmpty { .. } => {
            ScopeAction::VerifyEmpty
        },
        ScopeStageView::Querying { .. } => ScopeAction::QueryState,
        ScopeStageView::Pausing { .. } => ScopeAction::Pause,
        ScopeStageView::Resetting => ScopeAction::ResetFailed,
        ScopeStageView::Finished | ScopeStageView::Failed { .. } => ScopeAction::Stop,
    }
}

/// Whether an event answers a stage.
pub open spec fn scope_accepts(stage: ScopeStageView, event: ScopeEventView) -> bool {
    event is Failed || match scope_action(stage) {
        ScopeAction::LookForCgroup => event is Cgroup,
        ScopeAction::AskUnitAbsent => event is Unit,
        ScopeAction::QueryState => event is State,
        _ => event is Done,
    }
}

/// What the state of a unit leads to.
pub open spec fn state_answered(unit: Seq<char>, active: Option<Seq<char>>) -> ScopeStageView {
    if active == Some("inactive"@) || active == Some("dead"@) {
        ScopeStageView::VerifyingEnded { reset: false }
    } else if active == Some("failed"@) {
        ScopeStageView::VerifyingEnded { reset: true }
    } else {
        ScopeStageView::Failed {
            message: "systemd scope "@ + unit + " has not been collected yet"@,
        }
    }
}

/// The transitions of a scope's cleanup. A question after the unit's state that
/// fails is repeated, as long as the unit was not collected meanwhile; any
/// other failure ends the cleanup.
pub open spec fn scope_next(unit: Seq<char>, stage: ScopeStageView, event: ScopeEventView) -> ScopeStageView {
    match stage {
        ScopeStageView::Finished | ScopeStageView::Failed { .. } => stage,
        ScopeStageView::Querying { attempt } => match event {
            ScopeEventView::Failed { message } => ScopeStageView::AskingCollected {
                attempt,
                failure: message,
            },
            ScopeEventView::State { active } => state_answered(unit, active),
            _ => stage,
        },
        _ => match event {
            ScopeEventView::Failed { message } => ScopeStageView::Failed { message },
            _ => scope_advance(unit, stage, event),
        },
    }
}

/// The stage that follows a stage after an answer.
pub open spec fn scope_advance(unit: Seq<char>, stage: ScopeStageView, event: ScopeEventView) -> ScopeStageView {
    match stage {
        ScopeStageView::Looking => if event->present {
            ScopeStageView::VerifyingRecorded
        } else {
            ScopeStageView::AskingAbsence
        },
        ScopeStageView::AskingAbsence => if event->absent {
            ScopeStageView::Finished
        } else {
            ScopeStageView::Failed {
                message: "systemd scope "@ + unit + " remains loaded after cgroup disappeared"@,
            }
        },
        ScopeStageView::VerifyingRecorded => ScopeStageView::Querying { attempt: 0 },
        ScopeStageView::AskingCollected { attempt, failure } => if event->absent {
            ScopeStageView::LookingAgain
        } else if attempt + 1 >= QUERY_LIMIT {
            ScopeStageView::Failed { message: failure }
        } else {
            ScopeStageView::Pausing { attempt: (attempt + 1) as u32 }
        },
        ScopeStageView::LookingAgain => if event->present {
            ScopeStageView::VerifyingCollected
        } else {
            ScopeStageView::Finished
        },
        ScopeStageView::VerifyingCollected => ScopeStageView::CheckingCollected,
        ScopeStageView::CheckingCollected => ScopeStageView::Finished,
        ScopeStageView::Pausing { attempt } => ScopeStageView::Querying { attempt },
        ScopeStageView::VerifyingEnded { reset } => ScopeStageView::CheckingEmpty { reset },
        ScopeStageView::CheckingEmpty { reset } => ScopeStageView::VerifyingAgain { reset },
        ScopeStageView::VerifyingAgain { reset } => if reset {
            ScopeStageView::Resetting
        } else {
            ScopeStageView::Finished
        },
        ScopeStageView::Resetting => ScopeStageView::Finished,
        other => other,
    }
}

/// What the state of a unit leads to.
fn answered(unit: &str, active: Option<String>) -> (next: ScopeStage)
    ensures
        next@ == state_answered(unit@, crate::text::opt_view(active)),
{
    if let Some(state) = active {
        if text_eq(state.as_str(), "inactive") || text_eq(state.as_str(), "dead") {
            return ScopeStage::VerifyingEnded { reset: false };
        }
        if text_eq(state.as_str(), "failed") {
            return ScopeStage::VerifyingEnded { reset: true };
        }
    }
    ScopeStage::Failed {
        message: "systemd scope ".to_owned().concat(unit).concat(" has not been collected yet"),
    }
}

/// The cleanup of a scope.
#[derive(Debug, PartialEq, Eq)]
pub struct ScopeCleanup {
    pub unit: String,
    pub stage: ScopeStage,
}

impl ScopeCleanup {
    /// A cleanup that is about to begin.
    pub fn start(unit: String) -> (state: Self)
        ensures
            state.unit == unit,
            state.stage@ == ScopeStageView::Looking,
    {
        ScopeCleanup { unit, stage: ScopeStage::Looking }
    }

    /// What the cleanup asks for.
    pub fn action(&self) -> (action: ScopeAction)
        ensures
            action == scope_action(self.stage@),
    {
        match &self.stage {
            ScopeStage::Looking | ScopeStage::LookingAgain => ScopeAction::LookForCgroup,
            ScopeStage::AskingAbsence | ScopeStage::AskingCollected { .. } => {
                ScopeAction::AskUnitAbsent
            },
            ScopeStage::VerifyingRecorded | ScopeStage::VerifyingCollected
            | ScopeStage::VerifyingEnded { .. } | ScopeStage::VerifyingAgain { .. } => {
                ScopeAction::VerifyIdentity
            },
            ScopeStage::CheckingCollected | ScopeStage::CheckingEmpty { .. } => {
                ScopeAction::VerifyEmpty
            },
            ScopeStage::Querying { .. } => ScopeAction::QueryState,
            ScopeStage::Pausing { .. } => ScopeAction::Pause,
            ScopeStage::Resetting => ScopeAction::ResetFailed,
            ScopeStage::Finished | ScopeStage::Failed { .. } => ScopeAction::Stop,
        }
    }

    /// The cleanup after an answer to what it asked for.
    pub fn step(self, event: ScopeEvent) -> (next: Self)
        requires
            scope_accepts(self.stage@, event@),
        ensures
            next.unit == self.unit,
            next.stage@ == scope_next(self.unit@, self.stage@, event@),
    {
        let unit = self.unit;
        let stage = match (self.stage, event) {
            (ScopeStage::Finished, _) => ScopeStage::Finished,
            (ScopeStage::Failed { message }, _) => ScopeStage::Failed { message },
            (ScopeStage::Querying { attempt }, ScopeEvent::Failed { message }) => {
                ScopeStage::AskingCollected { attempt, failure: message }
            },
            (ScopeStage::Querying { .. }, ScopeEvent::State { active }) => answered(
                unit.as_str(),
                active,
            ),
            (_, ScopeEvent::Failed { message }) => ScopeStage::Failed { message },
            (ScopeStage::Looking, ScopeEvent::Cgroup { present }) => if present {
                ScopeStage::VerifyingRecorded
            } else {
                ScopeStage::AskingAbsence
            },
            (ScopeStage::AskingAbsence, ScopeEvent::Unit { absent }) => if absent {
                ScopeStage::Finished
            } else {
                ScopeStage::Failed {
                    message: "systemd scope ".to_owned().concat(unit.as_str()).concat(
                        " remains loaded after cgroup disappeared",
                    ),
                }
            },
            (ScopeStage::VerifyingRecorded, _) => ScopeStage::Querying { attempt: 0 },
            (ScopeStage::AskingCollected { attempt, failure }, ScopeEvent::Unit { absent }) => {
                if absent {
                    ScopeStage::LookingAgain
                } else if attempt >= QUERY_LIMIT - 1 {
                    ScopeStage::Failed { message: failure }
                } else {
                    ScopeStage::Pausing { attempt: attempt + 1 }
                }
            },
            (ScopeStage::LookingAgain, ScopeEvent::Cgroup { present }) => if present {
                ScopeStage::VerifyingCollected
            } else {
                ScopeStage::Finished
            },
            (ScopeStage::VerifyingCollected, _) => ScopeStage::CheckingCollected,
            (ScopeStage::CheckingCollected, _) => ScopeStage::Finished,
            (ScopeStage::Pausing { attempt }, _) => ScopeStage::Querying { attempt },
            (ScopeStage::VerifyingEnded { reset }, _) => ScopeStage::CheckingEmpty { reset },
            (ScopeStage::CheckingEmpty { reset }, _) => ScopeStage::VerifyingAgain { reset },
            (ScopeStage::VerifyingAgain { reset }, _) => if reset {
                ScopeStage::Resetting
            } else {
                ScopeStage::Finished
            },
            (ScopeStage::Resetting, _) => ScopeStage::Finished,
            (stage, _) => stage,
        };
        ScopeCleanup { unit, stage }
    }
}

/// A failed unit is reset only right after its cgroup was seen to be the
/// recorded one, empty, and the recorded one again; so is an ended unit
/// accepted.
pub proof fn law_scope_is_reset_only_when_empty(
    unit: Seq<char>,
    stage: ScopeStageView,
    event: ScopeEventView,
)
    requires
        scope_accepts(stage, event),
    ensures
        ({
            let next = scope_next(unit, stage, event);
            &&& next is Resetting && !(stage is Resetting) ==> stage == (
            ScopeStageView::VerifyingAgain { reset: true }) && event is Done
            &&& next is VerifyingAgain ==> stage is CheckingEmpty && event is Done
            &&& next is CheckingEmpty ==> stage is VerifyingEnded && event is Done
            &&& next is VerifyingEnded ==> stage is Querying && event is State
        }),
{
}

/// A scope counts as cleaned up only where its cgroup is gone with its unit,
/// or was checked.
pub proof fn law_scope_is_finished_only_when_checked(
    unit: Seq<char>,
    stage: ScopeStageView,
    event: ScopeEventView,
)
    requires
        scope_accepts(stage, event),
        !(stage is Finished),
        scope_next(unit, stage, event) is Finished,
    ensures
        ({
            ||| stage is AskingAbsence && event == (ScopeEventView::Unit { absent: true })
            ||| stage is LookingAgain && event == (ScopeEventView::Cgroup { present: false })
            ||| stage is CheckingCollected && event is Done
            ||| stage == (ScopeStageView::VerifyingAgain { reset: false }) && event is Done
            ||| stage is Resetting && event is Done
        }),
{
}

/// systemd is asked for the state of a scope a bounded number of times.
pub proof fn law_questions_are_bounded(unit: Seq<char>, stage: ScopeStageView, event: ScopeEventView)
    requires
        scope_accepts(stage, event),
        stage matches ScopeStageView::Querying { attempt } ==> attempt < QUERY_LIMIT,
        stage matches ScopeStageView::AskingCollected { attempt, .. } ==> attempt < QUERY_LIMIT,
        stage matches ScopeStageView::Pausing { attempt } ==> attempt < QUERY_LIMIT,
    ensures
        scope_next(unit, stage, event) matches ScopeStageView::Querying { attempt } ==> attempt
            < QUERY_LIMIT,
        scope_next(unit, stage, event) matches ScopeStageView::AskingCollected { attempt, .. }
            ==> attempt < QUERY_LIMIT,
        scope_next(unit, stage, event) matches ScopeStageView::Pausing { attempt } ==> attempt
            < QUERY_LIMIT && (stage matches ScopeStageView::AskingCollected {
            attempt: before,
            ..
        } ==> attempt == before + 1),
{
}

/// A scope that has ended is collected: its cgroup is seen to be the recorded
/// one and empty, and the recorded one once more; a failed scope is then reset,
/// and one that is merely over is left to itself.
pub proof fn law_ended_scope_is_collected(unit: Seq<char>, attempt: u32)
    ensures
        ({
            let done = ScopeEventView::Done;
            let recorded = scope_next(
                unit,
                ScopeStageView::Looking,
                ScopeEventView::Cgroup { present: true },
            );
            let asking = scope_next(unit, recorded, done);
            let over = scope_next(
                unit,
                ScopeStageView::Querying { attempt },
                ScopeEventView::State { active: Some("inactive"@) },
            );
            let dead = scope_next(
                unit,
                ScopeStageView::Querying { attempt },
                ScopeEventView::State { active: Some("dead"@) },
            );
            let empty = scope_next(unit, over, done);
            let again = scope_next(unit, empty, done);
            &&& recorded == ScopeStageView::VerifyingRecorded
            &&& asking == (ScopeStageView::Querying { attempt: 0 })
            &&& over == (ScopeStageView::VerifyingEnded { reset: false })
            &&& dead == over
            &&& empty == (ScopeStageView::CheckingEmpty { reset: false })
            &&& again == (ScopeStageView::VerifyingAgain { reset: false })
            &&& scope_next(unit, again, done) == ScopeStageView::Finished
        }),
{
}

/// A failed scope is reset once its cgroup was seen to be recorded and empty.
pub proof fn law_failed_scope_is_reset(unit: Seq<char>, attempt: u32)
    ensures
        ({
            let done = ScopeEventView::Done;
            let failed = scope_next(
                unit,
                ScopeStageView::Querying { attempt },
                ScopeEventView::State { active: Some("failed"@) },
            );
            let empty = scope_next(unit, failed, done);
            let again = scope_next(unit, empty, done);
            let resetting = scope_next(unit, again, done);
            &&& failed == (ScopeStageView::VerifyingEnded { reset: true })
            &&& empty == (ScopeStageView::CheckingEmpty { reset: true })
            &&& again == (ScopeStageView::VerifyingAgain { reset: true })
            &&& resetting == ScopeStageView::Resetting
            &&& scope_next(unit, resetting, done) == ScopeStageView::Finished
        }),
{
    reveal_strlit("failed");
    reveal_strlit("inactive");
    reveal_strlit("dead");
    assert("failed"@.len() == 6);
    assert("inactive"@.len() == 8);
    assert("dead"@.len() == 4);
}

/// A scope that still runs, or in a state that is not known, is not collected.
pub proof fn law_running_scope_is_left_alone(
    unit: Seq<char>,
    attempt: u32,
    active: Option<Seq<char>>,
)
    requires
        active != Some("inactive"@),
        active != Some("dead"@),
        active != Some("failed"@),
    ensures
        scope_next(
            unit,
            ScopeStageView::Querying { attempt },
            ScopeEventView::State { active },
        ) == (ScopeStageView::Failed {
            message: "systemd scope "@ + unit + " has not been collected yet"@,
        }),
{
}

/// A scope whose cgroup is gone is done once its unit is gone too; a unit that
/// stays is an error.
pub proof fn law_gone_scope_needs_a_gone_unit(unit: Seq<char>)
    ensures
        scope_next(unit, ScopeStageView::Looking, ScopeEventView::Cgroup { present: false })
            == ScopeStageView::AskingAbsence,
        scope_next(unit, ScopeStageView::AskingAbsence, ScopeEventView::Unit { absent: true })
            == ScopeStageView::Finished,
        scope_next(unit, ScopeStageView::AskingAbsence, ScopeEventView::Unit { absent: false })
            == (ScopeStageView::Failed {
            message: "systemd scope "@ + unit + " remains loaded after cgroup disappeared"@,
        }),
{
}

/// A query that fails is repeated after a pause, up to a hundred times, as long
/// as the unit is there; a unit that is gone leaves its cgroup to be looked at.
pub proof fn law_failed_queries_are_repeated(
    unit: Seq<char>,
    attempt: u32,
    message: Seq<char>,
)
    ensures
        ({
            let asked = scope_next(
                unit,
                ScopeStageView::Querying { attempt },
                ScopeEventView::Failed { message },
            );
            let there = scope_next(unit, asked, ScopeEventView::Unit { absent: false });
            let gone = scope_next(unit, asked, ScopeEventView::Unit { absent: true });
            &&& asked == (ScopeStageView::AskingCollected { attempt, failure: message })
            &&& attempt < 99 ==> there == (ScopeStageView::Pausing { attempt: (attempt + 1) as u32 })
            &&& attempt >= 99 ==> there == (ScopeStageView::Failed { message })
            &&& gone == ScopeStageView::LookingAgain
            &&& scope_next(unit, gone, ScopeEventView::Cgroup { present: false })
                == ScopeStageView::Finished
            &&& scope_next(unit, gone, ScopeEventView::Cgroup { present: true })
                == ScopeStageView::VerifyingCollected
        }),
        scope_next(unit, ScopeStageView::Pausing { attempt }, ScopeEventView::Done) == (
        ScopeStageView::Querying { attempt }),
        scope_next(unit, ScopeStageView::VerifyingCollected, ScopeEventView::Done)
            == ScopeStageView::CheckingCollected,
        scope_next(unit, ScopeStageView::CheckingCollected, ScopeEventView::Done)
            == ScopeStageView::Finished,
{
}

/// Any other failure ends the cleanup of a scope with its message, and an ended
/// one stays as it ended.
pub proof fn law_scope_failures_are_told(
    unit: Seq<char>,
    stage: ScopeStageView,
    event: ScopeEventView,
    message: Seq<char>,
)
    ensures
        stage is Finished || stage is Failed ==> scope_next(unit, stage, event) == stage,
        !(stage is Finished) && !(stage is Failed) && !(stage is Querying) ==> scope_next(
            unit,
            stage,
            ScopeEventView::Failed { message },
        ) == (ScopeStageView::Failed { message }),
{
}

/// What is to be done at each stage.
pub proof fn law_scope_stages_ask_for_their_action(
    attempt: u32,
    failure: Seq<char>,
    reset: bool,
)
    ensures
        scope_action(ScopeStageView::Looking) == ScopeAction::LookForCgroup,
        scope_action(ScopeStageView::LookingAgain) == ScopeAction::LookForCgroup,
        scope_action(ScopeStageView::AskingAbsence) == ScopeAction::AskUnitAbsent,
        scope_action(ScopeStageView::AskingCollected { attempt, failure })
            == ScopeAction::AskUnitAbsent,
        scope_action(ScopeStageView::VerifyingRecorded) == ScopeAction::VerifyIdentity,
        scope_action(ScopeStageView::VerifyingCollected) == ScopeAction::VerifyIdentity,
        scope_action(ScopeStageView::VerifyingEnded { reset }) == ScopeAction::VerifyIdentity,
        scope_action(ScopeStageView::VerifyingAgain { reset }) == ScopeAction::VerifyIdentity,
        scope_action(ScopeStageView::CheckingCollected) == ScopeAction::VerifyEmpty,
        scope_action(ScopeStageView::CheckingEmpty { reset }) == ScopeAction::VerifyEmpty,
        scope_action(ScopeStageView::Querying { attempt }) == ScopeAction::QueryState,
        scope_action(ScopeStageView::Pausing { attempt }) == ScopeAction::Pause,
        scope_action(ScopeStageView::Resetting) == ScopeAction::ResetFailed,
        scope_action(ScopeStageView::Finished) == ScopeAction::Stop,
{
}

} // verus!
