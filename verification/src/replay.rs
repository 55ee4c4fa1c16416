//! What the replays of a controller journal ask of their surroundings, and
//! what they are told.
use vstd::prelude::*;

use crate::record::{
    step_views, ControllerJournal, ControllerJournalView, ControllerStepState, ControllerStepView,
};
use crate::text::{outcomes, views};

verus! {

/// What a replay asks for next.
pub enum ReplayAction {
    /// Load the durable journal, after checking its claim.
    Load,
    /// Read the canonical values of these controller files.
    ReadAll { files: Vec<String> },
    /// Read the canonical value of a controller file.
    Read { file: String },
    /// Make the journal durable, after checking its claim.
    Persist { journal: ControllerJournal },
    /// Pass a named point.
    Failpoint { name: String },
    /// Check the claim of the operation.
    VerifyClaim,
    /// Write a controller file.
    Write { file: String, value: String },
    /// Nothing more: the replay succeeded.
    Finish,
    /// Nothing more: the replay failed.
    Fail { message: String },
}

/// What a replay is told.
pub enum ReplayEvent {
    Loaded { journal: ControllerJournal },
    Values { readings: Vec<Result<String, String>> },
    Value { value: String },
    Done,
    Failed { message: String },
}

/// The contents of a [`ReplayAction`].
pub enum ReplayActionView {
    Load,
    ReadAll { files: Seq<Seq<char>> },
    Read { file: Seq<char> },
    Persist { journal: ControllerJournalView },
    Failpoint { name: Seq<char> },
    VerifyClaim,
    Write { file: Seq<char>, value: Seq<char> },
    Finish,
    Fail { message: Seq<char> },
}

/// The contents of a [`ReplayEvent`].
pub enum ReplayEventView {
    Loaded { journal: ControllerJournalView },
    Values { readings: Seq<Result<Seq<char>, Seq<char>>> },
    Value { value: Seq<char> },
    Done,
    Failed { message: Seq<char> },
}

impl View for ReplayAction {
    type V = ReplayActionView;

    open spec fn view(&self) -> ReplayActionView {
        match self {
            ReplayAction::Load => ReplayActionView::Load,
            ReplayAction::ReadAll { files } => ReplayActionView::ReadAll { files: views(files@) },
            ReplayAction::Read { file } => ReplayActionView::Read { file: file@ },
            ReplayAction::Persist { journal } => ReplayActionView::Persist { journal: journal@ },
            ReplayAction::Failpoint { name } => ReplayActionView::Failpoint { name: name@ },
            ReplayAction::VerifyClaim => ReplayActionView::VerifyClaim,
            ReplayAction::Write { file, value } => ReplayActionView::Write {
                file: file@,
                value: value@,
            },
            ReplayAction::Finish => ReplayActionView::Finish,
            ReplayAction::Fail { message } => ReplayActionView::Fail { message: message@ },
        }
    }
}

impl View for ReplayEvent {
    type V = ReplayEventView;

    open spec fn view(&self) -> ReplayEventView {
        match self {
            ReplayEvent::Loaded { journal } => ReplayEventView::Loaded { journal: journal@ },
            ReplayEvent::Values { readings } => ReplayEventView::Values {
                readings: outcomes(readings@),
            },
            ReplayEvent::Value { value } => ReplayEventView::Value { value: value@ },
            ReplayEvent::Done => ReplayEventView::Done,
            ReplayEvent::Failed { message } => ReplayEventView::Failed { message: message@ },
        }
    }
}

/// The files of a list of steps.
pub open spec fn step_files(steps: Seq<ControllerStepView>) -> Seq<Seq<char>> {
    steps.map_values(|step: ControllerStepView| step.file)
}

/// The files of a journal's steps.
pub fn journal_files(journal: &ControllerJournal) -> (files: Vec<String>)
    ensures
        views(files@) == step_files(journal@.steps),
{
    let mut files: Vec<String> = Vec::new();
    let mut i: usize = 0;
    while i < journal.steps.len()
        invariant
            i <= journal.steps.len(),
            files@.len() == i,
            forall|k: int| 0 <= k < i ==> (#[trigger] files@[k])@ == journal.steps@[k].file@,
        decreases journal.steps.len() - i,
    {
        files.push(journal.steps[i].file.clone());
        i = i + 1;
    }
    assert(views(files@) =~= step_files(journal@.steps));
    files
}

/// A journal with one step in another state, observed at a value.
pub open spec fn with_step(
    journal: ControllerJournalView,
    index: int,
    state: ControllerStepState,
    observed: Seq<char>,
) -> ControllerJournalView {
    ControllerJournalView {
        steps: journal.steps.update(
            index,
            ControllerStepView { state, observed: Some(observed), ..journal.steps[index] },
        ),
        ..journal
    }
}

/// Puts one step of a journal in another state, observed at a value.
pub fn set_step(
    journal: &mut ControllerJournal,
    index: usize,
    state: ControllerStepState,
    observed: String,
)
    requires
        index < old(journal)@.steps.len(),
    ensures
        final(journal)@ == with_step(old(journal)@, index as int, state, observed@),
{
    let ghost before = journal.steps@;
    journal.steps[index].state = state;
    journal.steps[index].observed = Some(observed);
    assert(step_views(journal.steps@) =~= with_step(
        old(journal)@,
        index as int,
        state,
        observed@,
    ).steps);
}

/// The first step, from `from` on, that is not in `state`.
pub open spec fn first_not_in(
    steps: Seq<ControllerStepView>,
    state: ControllerStepState,
    from: int,
) -> Option<int>
    decreases steps.len() - from,
{
    if from < 0 || from >= steps.len() {
        None
    } else if steps[from].state != state {
        Some(from)
    } else {
        first_not_in(steps, state, from + 1)
    }
}

/// The last of the first `to` steps that is not in `state`.
pub open spec fn last_not_in(
    steps: Seq<ControllerStepView>,
    state: ControllerStepState,
    to: int,
) -> Option<int>
    decreases to,
{
    if to <= 0 || to > steps.len() {
        None
    } else if steps[to - 1].state != state {
        Some(to - 1)
    } else {
        last_not_in(steps, state, to - 1)
    }
}

/// The index of an optional position.
pub open spec fn opt_index(index: Option<usize>) -> Option<int> {
    match index {
        Some(i) => Some(i as int),
        None => None,
    }
}

/// Finds the first step that is not in `state`.
pub fn find_first_not_in(journal: &ControllerJournal, state: ControllerStepState) -> (index: Option<
    usize,
>)
    ensures
        opt_index(index) == first_not_in(journal@.steps, state, 0),
        index matches Some(i) ==> i < journal@.steps.len() && journal@.steps[i as int].state
            != state,
{
    let ghost s = journal@.steps;
    let mut i: usize = 0;
    while i < journal.steps.len()
        invariant
            s == step_views(journal.steps@),
            i <= journal.steps.len(),
            first_not_in(s, state, i as int) == first_not_in(s, state, 0),
        decreases journal.steps.len() - i,
    {
        assert(s[i as int] == journal.steps@[i as int]@);
        if journal.steps[i].state != state {
            return Some(i);
        }
        i = i + 1;
    }
    None
}

/// Finds the last step that is not in `state`.
pub fn find_last_not_in(journal: &ControllerJournal, state: ControllerStepState) -> (index: Option<
    usize,
>)
    ensures
        opt_index(index) == last_not_in(journal@.steps, state, journal@.steps.len() as int),
        index matches Some(i) ==> i < journal@.steps.len() && journal@.steps[i as int].state
            != state,
{
    let ghost s = journal@.steps;
    let mut i: usize = journal.steps.len();
    while i > 0
        invariant
            s == step_views(journal.steps@),
            i <= journal.steps.len(),
            last_not_in(s, state, i as int) == last_not_in(s, state, s.len() as int),
        decreases i,
    {
        i = i - 1;
        assert(s[i as int] == journal.steps@[i as int]@);
        if journal.steps[i].state != state {
            return Some(i);
        }
    }
    None
}

/// A step whose file is about to be written, is being written or was just
/// written.
pub struct PendingWrite {
    pub index: usize,
    pub file: String,
    pub value: String,
}

/// The contents of a [`PendingWrite`].
pub struct PendingWriteView {
    pub index: int,
    pub file: Seq<char>,
    pub value: Seq<char>,
}

impl View for PendingWrite {
    type V = PendingWriteView;

    open spec fn view(&self) -> PendingWriteView {
        PendingWriteView { index: self.index as int, file: self.file@, value: self.value@ }
    }
}

} // verus!
