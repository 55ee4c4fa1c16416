//! The start of a server: its helper waits until the server is identified, and
//! the server waits until its helper lets it go on.
use vstd::prelude::*;

use crate::cleanup::{combine_errors, joined_messages};
use crate::identity::{FileIdentity, ProcessIdentity, ProcessIdentityView};
use crate::lifecycle::{check_record, record_fault};
use crate::paths::{parent_path, parent_spec};
use crate::record::{phase_rank, rank, LifecyclePhase, LifecycleRecord, LifecycleRecordView};
use crate::target::{cgroup_directory, cgroup_path, passes_unless, HostTarget, HostTargetView};
use crate::text::{
    contains_text, fails_with, occurs, signed_decimal, signed_decimal_text, text_eq, views,
};

verus! {

/// How often the identity of a spawned server is looked for.
pub const CAPTURE_LIMIT: u32 = 200;

/// How long to wait between two looks.
pub const CAPTURE_PAUSE_MS: u64 = 10;

/// The capture of a spawned server's identity.
#[derive(Debug, PartialEq, Eq)]
pub enum IdentityCapture {
    Trying { attempts: u32 },
    Captured { identity: ProcessIdentity },
    Failed { message: String },
}

/// The contents of an [`IdentityCapture`].
pub enum IdentityCaptureView {
    Trying { attempts: u32 },
    Captured { identity: ProcessIdentityView },
    Failed { message: Seq<char> },
}

impl View for IdentityCapture {
    type V = IdentityCaptureView;

    open spec fn view(&self) -> IdentityCaptureView {
        match self {
            IdentityCapture::Trying { attempts } => IdentityCaptureView::Trying {
                attempts: *attempts,
            },
            IdentityCapture::Captured { identity } => IdentityCaptureView::Captured {
                identity: identity@,
            },
            IdentityCapture::Failed { message } => IdentityCaptureView::Failed {
                message: message@,
            },
        }
    }
}

/// Whether a failure means that the spawned process is not the server yet.
pub open spec fn not_yet_the_server(message: Seq<char>) -> bool {
    occurs(message, "has no CUBE_SHIM_LAUNCH_NONCE"@)
}

/// What a look at a spawned server leads to. A process that has not become the
/// server yet is looked at again; one that ended, or cannot be identified for
/// another reason, is given up.
pub open spec fn capture_next(
    state: IdentityCaptureView,
    seen: Result<ProcessIdentity, String>,
    present: bool,
) -> IdentityCaptureView {
    match state {
        IdentityCaptureView::Trying { attempts } => match seen {
            Ok(identity) => IdentityCaptureView::Captured { identity: identity@ },
            Err(message) => if !present || !not_yet_the_server(message@) || attempts + 1
                >= CAPTURE_LIMIT {
                IdentityCaptureView::Failed { message: message@ }
            } else {
                IdentityCaptureView::Trying { attempts: (attempts + 1) as u32 }
            },
        },
        _ => state,
    }
}

impl IdentityCapture {
    /// A capture that is about to begin.
    pub fn start() -> (state: Self)
        ensures
            state@ == (IdentityCaptureView::Trying { attempts: 0 }),
    {
        IdentityCapture::Trying { attempts: 0 }
    }

    /// The capture after a look at the process.
    pub fn step(self, seen: Result<ProcessIdentity, String>, present: bool) -> (next: Self)
        ensures
            next@ == capture_next(self@, seen, present),
    {
        match self {
            IdentityCapture::Trying { attempts } => match seen {
                Ok(identity) => IdentityCapture::Captured { identity },
                Err(message) => {
                    if !present || !contains_text(message.as_str(), "has no CUBE_SHIM_LAUNCH_NONCE")
                        || attempts >= CAPTURE_LIMIT - 1 {
                        IdentityCapture::Failed { message }
                    } else {
                        IdentityCapture::Trying { attempts: attempts + 1 }
                    }
                },
            },
            other => other,
        }
    }
}

/// A capture ends after a bounded number of looks.
pub proof fn law_capture_ends(
    state: IdentityCaptureView,
    seen: Result<ProcessIdentity, String>,
    present: bool,
)
    requires
        state matches IdentityCaptureView::Trying { attempts } ==> attempts < CAPTURE_LIMIT,
    ensures
        capture_next(state, seen, present) matches IdentityCaptureView::Trying { attempts }
            ==> attempts < CAPTURE_LIMIT && (state matches IdentityCaptureView::Trying {
            attempts: before,
        } && attempts == before + 1),
{
}

/// Whether a wait for a phase is over.
pub open spec fn phase_reached(
    wanted: LifecyclePhase,
    read: Result<LifecycleRecord, String>,
    present: bool,
    expired: bool,
) -> Result<bool, Seq<char>> {
    let gone = wanted == LifecyclePhase::Done && !present;
    match read {
        Err(message) => if gone {
            Ok(true)
        } else {
            Err(message@)
        },
        Ok(record) => match record_fault(record@) {
            Some(message) => if gone {
                Ok(true)
            } else {
                Err(message)
            },
            None => if rank(record@.phase) >= rank(wanted) {
                Ok(true)
            } else if expired {
                Err(
                    "timed out waiting for lifecycle phase "@ + wanted.label() + "; current="@
                        + record@.phase.label(),
                )
            } else {
                Ok(false)
            },
        },
    }
}

/// Whether a wait for a phase is over. A lifecycle that is gone was done.
pub fn poll_phase(
    wanted: LifecyclePhase,
    read: &Result<LifecycleRecord, String>,
    present: bool,
    expired: bool,
) -> (r: Result<bool, String>)
    ensures
        match phase_reached(wanted, *read, present, expired) {
            Err(message) => fails_with(r, message),
            Ok(over) => r == Ok::<bool, String>(over),
        },
{
    let gone = wanted == LifecyclePhase::Done && !present;
    let record = match read {
        Err(message) => {
            return if gone {
                Ok(true)
            } else {
                Err(message.clone())
            };
        },
        Ok(record) => record,
    };
    if let Err(message) = check_record(record) {
        return if gone {
            Ok(true)
        } else {
            Err(message)
        };
    }
    if phase_rank(record.phase) >= phase_rank(wanted) {
        return Ok(true);
    }
    if expired {
        return Err(
            "timed out waiting for lifecycle phase ".to_owned().concat(wanted.name()).concat(
                "; current=",
            ).concat(record.phase.name()),
        );
    }
    Ok(false)
}

/// Whether the server that was spawned is registered.
pub open spec fn spawned_registered(record: LifecycleRecordView, pid: i32) -> Result<bool, Seq<char>> {
    match record.server {
        None => Ok(false),
        Some(server) => if server.pid != pid {
            Err(
                "registered server pid "@ + signed_decimal(server.pid as int)
                    + " does not match spawned "@ + signed_decimal(pid as int),
            )
        } else {
            Ok(true)
        },
    }
}

/// Whether the server that was spawned is registered; another one in its place
/// is an error.
pub fn spawned_server_registered(record: &LifecycleRecord, pid: i32) -> (r: Result<bool, String>)
    ensures
        match spawned_registered(record@, pid) {
            Err(message) => fails_with(r, message),
            Ok(registered) => r == Ok::<bool, String>(registered),
        },
{
    match &record.server {
        None => Ok(false),
        Some(server) => if server.pid != pid {
            Err(
                "registered server pid ".to_owned().concat(
                    signed_decimal_text(server.pid as i64).as_str(),
                ).concat(" does not match spawned ").concat(
                    signed_decimal_text(pid as i64).as_str(),
                ),
            )
        } else {
            Ok(true)
        },
    }
}

/// Checks the descriptor of a bootstrap gate: the standard ones are none.
pub fn check_gate_descriptor(fd: i32) -> (r: Result<(), String>)
    ensures
        passes_unless(
            r,
            if fd < 3 {
                Some("invalid bootstrap gate fd "@ + signed_decimal(fd as int))
            } else {
                None
            },
        ),
{
    if fd < 3 {
        return Err(
            "invalid bootstrap gate fd ".to_owned().concat(
                signed_decimal_text(fd as i64).as_str(),
            ),
        );
    }
    Ok(())
}

/// Checks what came through a bootstrap gate.
pub fn check_gate_token(token: u8) -> (r: Result<(), String>)
    ensures
        passes_unless(
            r,
            if token == 1 {
                None
            } else {
                Some("bootstrap gate returned an invalid token"@)
            },
        ),
{
    if token != 1 {
        return Err("bootstrap gate returned an invalid token".to_owned());
    }
    Ok(())
}

/// Checks that a lifecycle that was found by its key is the one that was looked
/// for.
pub fn verify_lookup(
    record: &LifecycleRecord,
    namespace: &str,
    instance_id: &str,
    bundle: &FileIdentity,
) -> (r: Result<(), String>)
    ensures
        passes_unless(
            r,
            if record@.namespace == namespace@ && record@.instance_id == instance_id@
                && record@.bundle_identity == *bundle {
                None
            } else {
                Some("lifecycle lookup identity mismatch"@)
            },
        ),
{
    if !text_eq(record.namespace.as_str(), namespace) || !text_eq(
        record.instance_id.as_str(),
        instance_id,
    ) || record.bundle_identity != *bundle {
        return Err("lifecycle lookup identity mismatch".to_owned());
    }
    Ok(())
}

/// Checks that a process that was moved is in its new cgroup.
pub fn verify_moved(cgroup: &str, pid: i32, actual: &Result<String, String>) -> (r: Result<(), String>)
    ensures
        passes_unless(
            r,
            match actual {
                Err(message) => Some(message@),
                Ok(found) => if found@ == cgroup@ {
                    None
                } else {
                    Some(
                        "pid "@ + signed_decimal(pid as int) + " moved to "@ + found@
                            + ", expected "@ + cgroup@,
                    )
                },
            },
        ),
{
    match actual {
        Err(message) => Err(message.clone()),
        Ok(found) => {
            if !text_eq(found.as_str(), cgroup) {
                return Err(
                    "pid ".to_owned().concat(signed_decimal_text(pid as i64).as_str()).concat(
                        " moved to ",
                    ).concat(found.as_str()).concat(", expected ").concat(cgroup),
                );
            }
            Ok(())
        },
    }
}

/// What the Host shows of a scope that systemd was asked to start.
pub struct ScopeSighting {
    pub present: bool,
    pub cgroup: Result<String, String>,
    pub parent: Result<FileIdentity, String>,
    pub leaf: Result<FileIdentity, String>,
}

/// Whether a scope is there, with its process, below its recorded parent.
pub open spec fn scope_ready(seen: ScopeSighting, cgroup: Seq<char>, parent: FileIdentity) -> bool {
    seen.present && (seen.cgroup matches Ok(actual) && actual@ == cgroup) && seen.parent == Ok::<
        FileIdentity,
        String,
    >(parent)
}

/// The leaf of a scope that is ready; none where it is not ready yet.
pub fn poll_scope(seen: &ScopeSighting, cgroup: &str, parent: FileIdentity) -> (r: Result<
    Option<FileIdentity>,
    String,
>)
    ensures
        if !scope_ready(*seen, cgroup@, parent) {
            r == Ok::<Option<FileIdentity>, String>(None)
        } else {
            match seen.leaf {
                Err(message) => fails_with(r, message@),
                Ok(leaf) => r == Ok::<Option<FileIdentity>, String>(Some(leaf)),
            }
        },
{
    if !seen.present {
        return Ok(None);
    }
    match &seen.cgroup {
        Err(_) => return Ok(None),
        Ok(actual) => {
            if !text_eq(actual.as_str(), cgroup) {
                return Ok(None);
            }
        },
    }
    match &seen.parent {
        Err(_) => return Ok(None),
        Ok(found) => {
            if *found != parent {
                return Ok(None);
            }
        },
    }
    match &seen.leaf {
        Err(message) => Err(message.clone()),
        Ok(leaf) => Ok(Some(*leaf)),
    }
}

/// Why a scope that was ready does not count as placed, if it does not.
pub open spec fn scope_gate_fault(
    seen: ScopeSighting,
    pid: i32,
    cgroup: Seq<char>,
    parent: FileIdentity,
    leaf: FileIdentity,
) -> Option<Seq<char>> {
    match seen.cgroup {
        Err(message) => Some(message@),
        Ok(actual) => {
            let changed = Some(
                "systemd placement gate failed for pid "@ + signed_decimal(pid as int)
                    + ": cgroup="@ + actual@ + " expected="@ + cgroup,
            );
            match seen.parent {
                Err(message) => Some(message@),
                Ok(found) => if found != parent {
                    changed
                } else {
                    match seen.leaf {
                        Err(message) => Some(message@),
                        Ok(found) => if found != leaf || actual@ != cgroup {
                            changed
                        } else {
                            None
                        },
                    }
                },
            }
        },
    }
}

/// Checks once more that a scope that was ready is the same one, with its
/// process in it.
pub fn verify_scope_gate(
    seen: &ScopeSighting,
    pid: i32,
    cgroup: &str,
    parent: FileIdentity,
    leaf: FileIdentity,
) -> (r: Result<(), String>)
    ensures
        passes_unless(r, scope_gate_fault(*seen, pid, cgroup@, parent, leaf)),
{
    let actual = match &seen.cgroup {
        Err(message) => return Err(message.clone()),
        Ok(actual) => actual,
    };
    let same_parent = match &seen.parent {
        Err(message) => return Err(message.clone()),
        Ok(found) => *found == parent,
    };
    if same_parent {
        match &seen.leaf {
            Err(message) => return Err(message.clone()),
            Ok(found) => {
                if *found == leaf && text_eq(actual.as_str(), cgroup) {
                    return Ok(());
                }
            },
        }
    }
    Err(
        "systemd placement gate failed for pid ".to_owned().concat(
            signed_decimal_text(pid as i64).as_str(),
        ).concat(": cgroup=").concat(actual.as_str()).concat(" expected=").concat(cgroup),
    )
}

/// How often it is looked whether a scope is ready.
pub const SCOPE_LOOKS: u32 = 200;

/// How long to wait between two looks.
pub const SCOPE_PAUSE_MS: u64 = 10;

/// A step of the wait for a scope that systemd was asked to start.
#[derive(Debug, PartialEq, Eq)]
pub enum ScopeWaitStage {
    /// Is the scope ready? There are so many looks left.
    Looking { left: u32 },
    /// It was not; there are so many looks left.
    Pausing { left: u32 },
    /// Is it still the same scope, with its process in it?
    Gating { leaf: FileIdentity },
    Placed,
    Failed { message: String },
}

/// The contents of a [`ScopeWaitStage`].
pub enum ScopeWaitStageView {
    Looking { left: u32 },
    Pausing { left: u32 },
    Gating { leaf: FileIdentity },
    Placed,
    Failed { message: Seq<char> },
}

impl View for ScopeWaitStage {
    type V = ScopeWaitStageView;

    open spec fn view(&self) -> ScopeWaitStageView {
        match self {
            ScopeWaitStage::Looking { left } => ScopeWaitStageView::Looking { left: *left },
            ScopeWaitStage::Pausing { left } => ScopeWaitStageView::Pausing { left: *left },
            ScopeWaitStage::Gating { leaf } => ScopeWaitStageView::Gating { leaf: *leaf },
            ScopeWaitStage::Placed => ScopeWaitStageView::Placed,
            ScopeWaitStage::Failed { message } => ScopeWaitStageView::Failed { message: message@ },
        }
    }
}

/// What comes to the wait for a scope.
pub enum ScopeWaitEvent {
    Seen { seen: ScopeSighting },
    Paused,
}

/// The wait for a scope that systemd was asked to start. systemd answers once it
/// has accepted the job, so the cgroup and the process in it have to be awaited.
#[derive(Debug, PartialEq, Eq)]
pub struct ScopeWait {
    pub pid: i32,
    pub cgroup: String,
    /// The directory that holds the scope's, as it is recorded.
    pub parent: FileIdentity,
    pub stage: ScopeWaitStage,
}

/// The contents of a [`ScopeWait`].
pub struct ScopeWaitView {
    pub pid: i32,
    pub cgroup: Seq<char>,
    pub parent: FileIdentity,
    pub stage: ScopeWaitStageView,
}

impl View for ScopeWait {
    type V = ScopeWaitView;

    open spec fn view(&self) -> ScopeWaitView {
        ScopeWaitView {
            pid: self.pid,
            cgroup: self.cgroup@,
            parent: self.parent,
            stage: self.stage@,
        }
    }
}

/// How the wait for the scope of a target begins, if it does.
pub open spec fn scope_wait(target: HostTargetView, pid: i32) -> Result<ScopeWaitView, Seq<char>> {
    match target {
        HostTargetView::Systemd { cgroup, parent_identity, .. } => if parent_spec(
            cgroup_path(cgroup),
        ) is None {
            Err("systemd target has no parent: "@ + cgroup_path(cgroup))
        } else {
            Ok(
                ScopeWaitView {
                    pid,
                    cgroup,
                    parent: parent_identity,
                    stage: ScopeWaitStageView::Looking { left: SCOPE_LOOKS },
                },
            )
        },
        _ => Err("systemd verification called for non-systemd target"@),
    }
}

/// The step after an answer.
pub open spec fn scope_wait_next(state: ScopeWaitView, event: ScopeWaitEvent) -> ScopeWaitStageView {
    match (state.stage, event) {
        (ScopeWaitStageView::Looking { left }, ScopeWaitEvent::Seen { seen }) => {
            if !scope_ready(seen, state.cgroup, state.parent) {
                ScopeWaitStageView::Pausing {
                    left: if left == 0 {
                        0
                    } else {
                        (left - 1) as u32
                    },
                }
            } else {
                match seen.leaf {
                    Err(message) => ScopeWaitStageView::Failed { message: message@ },
                    Ok(leaf) => ScopeWaitStageView::Gating { leaf },
                }
            }
        },
        (ScopeWaitStageView::Pausing { left }, ScopeWaitEvent::Paused) => if left == 0 {
            ScopeWaitStageView::Failed {
                message: "systemd placement did not create "@ + cgroup_path(state.cgroup)
                    + " with process "@ + signed_decimal(state.pid as int),
            }
        } else {
            ScopeWaitStageView::Looking { left }
        },
        (ScopeWaitStageView::Gating { leaf }, ScopeWaitEvent::Seen { seen }) => {
            match scope_gate_fault(seen, state.pid, state.cgroup, state.parent, leaf) {
                Some(message) => ScopeWaitStageView::Failed { message },
                None => ScopeWaitStageView::Placed,
            }
        },
        (stage, _) => stage,
    }
}

impl ScopeWait {
    /// Begins to wait for the scope of a target, with this process in it.
    pub fn start(target: &HostTarget, pid: i32) -> (r: Result<Self, String>)
        ensures
            match scope_wait(target@, pid) {
                Err(message) => fails_with(r, message),
                Ok(state) => r matches Ok(wait) && wait@ == state,
            },
    {
        match target {
            HostTarget::Systemd { cgroup, parent_identity, .. } => {
                let path = cgroup_directory(cgroup.as_str());
                if parent_path(path.as_str()).is_none() {
                    return Err("systemd target has no parent: ".to_owned().concat(path.as_str()));
                }
                Ok(
                    ScopeWait {
                        pid,
                        cgroup: cgroup.clone(),
                        parent: *parent_identity,
                        stage: ScopeWaitStage::Looking { left: SCOPE_LOOKS },
                    },
                )
            },
            _ => Err("systemd verification called for non-systemd target".to_owned()),
        }
    }

    /// The wait after an answer.
    pub fn step(self, event: ScopeWaitEvent) -> (next: Self)
        ensures
            next@ == (ScopeWaitView { stage: scope_wait_next(self@, event), ..self@ }),
    {
        let ScopeWait { pid, cgroup, parent, stage } = self;
        let stage = match (stage, event) {
            (ScopeWaitStage::Looking { left }, ScopeWaitEvent::Seen { seen }) => match poll_scope(
                &seen,
                cgroup.as_str(),
                parent,
            ) {
                Err(message) => ScopeWaitStage::Failed { message },
                Ok(Some(leaf)) => ScopeWaitStage::Gating { leaf },
                Ok(None) => ScopeWaitStage::Pausing {
                    left: if left == 0 {
                        0
                    } else {
                        left - 1
                    },
                },
            },
            (ScopeWaitStage::Pausing { left }, ScopeWaitEvent::Paused) => if left == 0 {
                ScopeWaitStage::Failed {
                    message: "systemd placement did not create ".to_owned().concat(
                        cgroup_directory(cgroup.as_str()).as_str(),
                    ).concat(" with process ").concat(signed_decimal_text(pid as i64).as_str()),
                }
            } else {
                ScopeWaitStage::Looking { left }
            },
            (ScopeWaitStage::Gating { leaf }, ScopeWaitEvent::Seen { seen }) => {
                match verify_scope_gate(&seen, pid, cgroup.as_str(), parent, leaf) {
                    Err(message) => ScopeWaitStage::Failed { message },
                    Ok(()) => ScopeWaitStage::Placed,
                }
            },
            (stage, _) => stage,
        };
        ScopeWait { pid, cgroup, parent, stage }
    }
}

/// A scope counts as placed only where it was ready, and was then seen again
/// with the same directory, the recorded parent and the process in it.
pub proof fn law_placed_scope_was_seen_twice(
    state: ScopeWaitView,
    event: ScopeWaitEvent,
    again: ScopeWaitEvent,
)
    requires
        state.stage is Looking,
        scope_wait_next(state, event) matches ScopeWaitStageView::Gating { leaf }
            && scope_wait_next(
            ScopeWaitView { stage: ScopeWaitStageView::Gating { leaf }, ..state },
            again,
        ) is Placed,
    ensures
        event matches ScopeWaitEvent::Seen { seen } && scope_ready(seen, state.cgroup, state.parent)
            && (again matches ScopeWaitEvent::Seen { seen: second } && second.leaf == seen.leaf
            && second.parent == Ok::<FileIdentity, String>(state.parent) && (
        second.cgroup matches Ok(cgroup) && cgroup@ == state.cgroup)),
{
}

/// How many answers the wait for a scope still takes at most.
pub open spec fn waits_left(stage: ScopeWaitStageView) -> int {
    match stage {
        ScopeWaitStageView::Looking { left } => 2 * left + 3,
        ScopeWaitStageView::Pausing { left } => 2 * left + 4,
        ScopeWaitStageView::Gating { .. } => 1,
        _ => 0,
    }
}

/// The wait for a scope ends: every answer to its step brings it nearer to its
/// end.
pub proof fn law_scope_wait_ends(state: ScopeWaitView, event: ScopeWaitEvent)
    requires
        waits_left(state.stage) > 0,
        state.stage matches ScopeWaitStageView::Looking { left } ==> left > 0,
        state.stage is Pausing == event is Paused,
    ensures
        0 <= waits_left(scope_wait_next(state, event)) < waits_left(state.stage),
        scope_wait_next(state, event) matches ScopeWaitStageView::Looking { left } ==> left > 0,
{
}

/// What failed while a bootstrap was aborted.
pub open spec fn abort_errors(results: Seq<Result<(), String>>) -> Seq<Seq<char>>
    decreases results.len(),
{
    if results.len() == 0 {
        Seq::empty()
    } else {
        match results.last() {
            Ok(_) => abort_errors(results.drop_last()),
            Err(message) => abort_errors(results.drop_last()).push(message@),
        }
    }
}

/// The result of an aborted bootstrap: each of its steps is taken, whatever
/// became of those before it.
pub fn abort_result(results: &Vec<Result<(), String>>) -> (r: Result<(), String>)
    ensures
        if abort_errors(results@).len() == 0 {
            r is Ok
        } else {
            fails_with(r, joined_messages(abort_errors(results@)))
        },
{
    let mut errors: Vec<String> = Vec::new();
    let mut i: usize = 0;
    assert(views(errors@) =~= abort_errors(results@.take(0)));
    while i < results.len()
        invariant
            i <= results.len(),
            views(errors@) == abort_errors(results@.take(i as int)),
        decreases results.len() - i,
    {
        proof {
            assert(results@.take(i + 1).drop_last() =~= results@.take(i as int));
            assert(results@.take(i + 1).last() == results@[i as int]);
        }
        if let Err(message) = &results[i] {
            let ghost before = errors@;
            errors.push(message.clone());
            assert(views(errors@) =~= views(before).push(message@));
        }
        i = i + 1;
    }
    assert(results@.take(i as int) =~= results@);
    assert(views(errors@).len() == errors@.len());
    combine_errors(&errors)
}

/// The identity of a process is captured as soon as it can be read, whatever
/// was tried before; as long as it is there and has no nonce yet it is looked at
/// again, up to the last of two hundred times; anything else fails at once.
pub proof fn law_identity_is_captured_when_seen(
    attempts: u32,
    identity: ProcessIdentity,
    message: String,
    present: bool,
)
    ensures
        capture_next(IdentityCaptureView::Trying { attempts }, Ok(identity), present) == (
        IdentityCaptureView::Captured { identity: identity@ }),
        ({
            let next = capture_next(
                IdentityCaptureView::Trying { attempts },
                Err(message),
                present,
            );
            let again = present && occurs(message@, "has no CUBE_SHIM_LAUNCH_NONCE"@) && attempts
                < 199;
            &&& again ==> next == (IdentityCaptureView::Trying { attempts: (attempts + 1) as u32 })
            &&& !again ==> next == (IdentityCaptureView::Failed { message: message@ })
        }),
{
}

/// A capture that has ended stays as it ended.
pub proof fn law_ended_capture_stays(
    state: IdentityCaptureView,
    seen: Result<ProcessIdentity, String>,
    present: bool,
)
    requires
        !(state is Trying),
    ensures
        capture_next(state, seen, present) == state,
{
}

/// A wait for a phase is over once the record has come as far or further, and
/// also where the end was waited for and the record is gone; a wait that is
/// over time says which phase was found.
pub proof fn law_waits_end_with_the_phase(
    wanted: LifecyclePhase,
    record: LifecycleRecord,
    present: bool,
    expired: bool,
    message: String,
)
    requires
        record@.schema_version == 2,
        record@.generation.len() > 0,
    ensures
        rank(record@.phase) >= rank(wanted) ==> phase_reached(wanted, Ok(record), present, expired)
            == Ok::<bool, Seq<char>>(true),
        rank(record@.phase) < rank(wanted) && !expired ==> phase_reached(
            wanted,
            Ok(record),
            present,
            expired,
        ) == Ok::<bool, Seq<char>>(false),
        rank(record@.phase) < rank(wanted) && expired ==> phase_reached(
            wanted,
            Ok(record),
            present,
            expired,
        ) == Err::<bool, Seq<char>>(
            "timed out waiting for lifecycle phase "@ + wanted.label() + "; current="@
                + record@.phase.label(),
        ),
        phase_reached(LifecyclePhase::Done, Err(message), false, expired) == Ok::<bool, Seq<char>>(
            true,
        ),
        phase_reached(wanted, Err(message), true, expired) == Err::<bool, Seq<char>>(message@),
        wanted != LifecyclePhase::Done ==> phase_reached(wanted, Err(message), false, expired)
            == Err::<bool, Seq<char>>(message@),
{
}

/// A registered server is the spawned one exactly where it has its number.
pub proof fn law_spawned_server_has_its_number(
    record: LifecycleRecordView,
    pid: i32,
)
    ensures
        record.server is None ==> spawned_registered(record, pid) == Ok::<bool, Seq<char>>(false),
        record.server matches Some(server) ==> (spawned_registered(record, pid) == Ok::<
            bool,
            Seq<char>,
        >(true)) == (server.pid == pid) && (spawned_registered(record, pid) is Err) == (server.pid
            != pid),
{
}

/// A scope passes its gate exactly where its process is in it, below the same
/// parent and in the same leaf as before.
pub proof fn law_scope_passes_its_gate(
    seen: ScopeSighting,
    pid: i32,
    cgroup: Seq<char>,
    parent: FileIdentity,
    leaf: FileIdentity,
)
    ensures
        (scope_gate_fault(seen, pid, cgroup, parent, leaf) is None) == (seen.cgroup is Ok
            && seen.cgroup->Ok_0@ == cgroup && seen.parent == Ok::<FileIdentity, String>(parent)
            && seen.leaf == Ok::<FileIdentity, String>(leaf)),
        scope_ready(seen, cgroup, parent) == (seen.present && seen.cgroup is Ok
            && seen.cgroup->Ok_0@ == cgroup && seen.parent == Ok::<FileIdentity, String>(parent)),
{
}

/// A wait for a scope looks for the target's cgroup below the target's parent,
/// two hundred times; no other target has a scope.
pub proof fn law_scopes_are_waited_for(target: HostTargetView, pid: i32)
    ensures
        !(target is Systemd) ==> scope_wait(target, pid) == Err::<ScopeWaitView, Seq<char>>(
            "systemd verification called for non-systemd target"@,
        ),
        target is Systemd && parent_spec(cgroup_path(target.location())) is Some ==> scope_wait(
            target,
            pid,
        ) == Ok::<ScopeWaitView, Seq<char>>(
            ScopeWaitView {
                pid,
                cgroup: target.location(),
                parent: target.parent()->0,
                stage: ScopeWaitStageView::Looking { left: 200 },
            },
        ),
{
}

/// A scope that is ready goes through its gate, and is in place once it passes;
/// one that is not is looked for again after a pause, until the last look.
pub proof fn law_ready_scope_is_placed(
    state: ScopeWaitView,
    seen: ScopeSighting,
    leaf: FileIdentity,
    left: u32,
    event: ScopeWaitEvent,
)
    ensures
        state.stage == (ScopeWaitStageView::Looking { left }) && scope_ready(
            seen,
            state.cgroup,
            state.parent,
        ) && seen.leaf == Ok::<FileIdentity, String>(leaf) ==> scope_wait_next(
            state,
            ScopeWaitEvent::Seen { seen },
        ) == (ScopeWaitStageView::Gating { leaf }),
        state.stage == (ScopeWaitStageView::Looking { left }) && !scope_ready(
            seen,
            state.cgroup,
            state.parent,
        ) && left > 0 ==> scope_wait_next(state, ScopeWaitEvent::Seen { seen }) == (
        ScopeWaitStageView::Pausing { left: (left - 1) as u32 }),
        state.stage == (ScopeWaitStageView::Pausing { left }) && left > 0 ==> scope_wait_next(
            state,
            ScopeWaitEvent::Paused,
        ) == (ScopeWaitStageView::Looking { left }),
        state.stage == (ScopeWaitStageView::Pausing { left: 0 }) ==> scope_wait_next(
            state,
            ScopeWaitEvent::Paused,
        ) is Failed,
        state.stage == (ScopeWaitStageView::Gating { leaf }) && scope_gate_fault(
            seen,
            state.pid,
            state.cgroup,
            state.parent,
            leaf,
        ) is None ==> scope_wait_next(state, ScopeWaitEvent::Seen { seen })
            == ScopeWaitStageView::Placed,
        state.stage == (ScopeWaitStageView::Gating { leaf }) && scope_gate_fault(
            seen,
            state.pid,
            state.cgroup,
            state.parent,
            leaf,
        ) is Some ==> scope_wait_next(state, ScopeWaitEvent::Seen { seen }) is Failed,
        state.stage is Placed || state.stage is Failed ==> scope_wait_next(state, event)
            == state.stage,
{
}

/// An abort tells every failure, in the order in which they came, and nothing
/// where all of it went well.
pub proof fn law_aborts_tell_every_failure(
    results: Seq<Result<(), String>>,
    message: String,
)
    ensures
        abort_errors(Seq::empty()).len() == 0,
        abort_errors(results.push(Ok(()))) == abort_errors(results),
        abort_errors(results.push(Err(message))) == abort_errors(results).push(message@),
{
    assert(results.push(Ok(())).drop_last() =~= results);
    assert(results.push(Err(message)).drop_last() =~= results);
}

} // verus!
