//! The cleanup of what a sandbox leaves on the Host: its controllers, its
//! cgroup and its socket. Nothing is removed whose recorded identity is not
//! seen again.
use vstd::prelude::*;

use crate::cleanup::{combine_errors, joined_messages};
use crate::controllers::{
    clear_fault, clear_restored_controller_journal, journal_owned,
    verify_controller_journal_owner,
};
use crate::identity::FileIdentity;
use crate::paths::{is_rooted, parent_path, parent_spec, rooted};
use crate::procfs::{events_unpopulated, lists_something, procs_listed, unpopulated};
use crate::record::{
    ControllerJournal, ControllerJournalView, ControllerTransactionState, HostCgroupOwnerView,
    HostCleanupJob, HostCleanupJobView, HostOwnerState, RuntimeCleanupJob, RuntimeCleanupJobView,
    SCHEMA_VERSION,
};
use crate::target::{cgroup_directory, cgroup_path, passes_unless, HostTarget};
use crate::text::{
    after_prefix, contains_text, fails_with, occurs, outcomes, strip_prefix, text_eq, views,
};

verus! {

pub const RECORD_FILE: &'static str = "record.json";

pub const RECORD_LOCK_FILE: &'static str = "record.lock";

pub const OPERATION_LOCK_FILE: &'static str = "operation.lock";

pub const HOST_OWNER_FILE: &'static str = "host-cgroup-owner.json";

pub const RUNTIME_OWNER_FILE: &'static str = "runtime-resource-owner.json";

pub const CLEANUP_REASON_FILE: &'static str = "cleanup-reason";

/// Whether a name is hidden.
pub open spec fn is_hidden(name: Seq<char>) -> bool {
    after_prefix(name, "."@) is Some
}

/// Whether a directory entry of an interrupted preparation may be removed.
pub open spec fn is_leftover(name: Seq<char>, is_file: bool) -> bool {
    is_file && (name == RECORD_LOCK_FILE@ || name == OPERATION_LOCK_FILE@ || name
        == HOST_OWNER_FILE@ || name == RUNTIME_OWNER_FILE@ || (is_hidden(name) && occurs(
        name,
        ".tmp-"@,
    )))
}

/// Checks that a directory entry of an interrupted preparation may be removed:
/// it is a file that a preparation writes before its record.
pub fn removable_leftover(name: &str, is_file: bool, path: &str) -> (r: Result<(), String>)
    ensures
        passes_unless(
            r,
            if is_leftover(name@, is_file) {
                None
            } else {
                Some("refuse to remove unknown interrupted lifecycle entry "@ + path@)
            },
        ),
{
    let known = text_eq(name, RECORD_LOCK_FILE) || text_eq(name, OPERATION_LOCK_FILE) || text_eq(
        name,
        HOST_OWNER_FILE,
    ) || text_eq(name, RUNTIME_OWNER_FILE) || (strip_prefix(name, ".").is_some() && contains_text(
        name,
        ".tmp-",
    ));
    if !known || !is_file {
        return Err(
            "refuse to remove unknown interrupted lifecycle entry ".to_owned().concat(path),
        );
    }
    Ok(())
}

/// The files of a completed lifecycle, in the order in which they are removed.
pub open spec fn completed_names() -> Seq<Seq<char>> {
    seq![
        CLEANUP_REASON_FILE@,
        RUNTIME_OWNER_FILE@,
        HOST_OWNER_FILE@,
        RECORD_FILE@,
        OPERATION_LOCK_FILE@,
        RECORD_LOCK_FILE@,
    ]
}

/// The files of a completed lifecycle, in the order in which they are removed.
pub fn completed_files() -> (names: Vec<String>)
    ensures
        views(names@) == completed_names(),
{
    let names = vec![
        CLEANUP_REASON_FILE.to_owned(),
        RUNTIME_OWNER_FILE.to_owned(),
        HOST_OWNER_FILE.to_owned(),
        RECORD_FILE.to_owned(),
        OPERATION_LOCK_FILE.to_owned(),
        RECORD_LOCK_FILE.to_owned(),
    ];
    assert(views(names@) =~= completed_names());
    names
}

/// Wherever the removal of a completed lifecycle is cut off, a later scan ends
/// it: the record is still there to say that the lifecycle is done, or all that
/// is left are files that go with an interrupted preparation.
pub proof fn law_a_removal_that_was_cut_off_is_ended(removed: int)
    requires
        0 <= removed <= completed_names().len(),
    ensures
        completed_names().skip(removed).contains(RECORD_FILE@) || forall|i: int|
            removed <= i < completed_names().len() ==> is_leftover(
                #[trigger] completed_names()[i],
                true,
            ),
{
    if removed <= 3 {
        assert(completed_names().skip(removed)[3 - removed] == RECORD_FILE@);
    }
}

/// Whether what is left of an interrupted preparation is old enough to go.
pub fn interrupted_is_ripe(age_ms: u128) -> (r: bool)
    ensures
        r == (age_ms >= crate::scanner::PRECOMMIT_GRACE_MS),
{
    age_ms >= crate::scanner::PRECOMMIT_GRACE_MS
}

/// Whether a directory entry of a queue is a job.
pub fn is_queue_entry(name: &str, is_file: bool) -> (r: bool)
    ensures
        r == (is_file && !is_hidden(name@)),
{
    is_file && strip_prefix(name, ".").is_none()
}

/// Whether a Host job may run; a job that is not what its name says is an
/// error.
pub open spec fn host_job_due(job: HostCleanupJobView, name: Seq<char>, path: Seq<char>) -> Result<
    bool,
    Seq<char>,
> {
    if job.owner.schema_version != SCHEMA_VERSION || job.owner.generation.len() == 0 || !is_rooted(
        job.socket.path,
    ) || !is_rooted(job.lifecycle_root) {
        Err("Host cleanup job has invalid durable identity: "@ + path)
    } else if name != job.owner.generation + ".json"@ {
        Err("Host cleanup queue filename/generation mismatch: "@ + path)
    } else {
        Ok(job.ready_for_cleanup)
    }
}

/// Whether a Host job may run.
pub fn admit_host_job(job: &HostCleanupJob, name: &str, path: &str) -> (r: Result<bool, String>)
    ensures
        match host_job_due(job@, name@, path@) {
            Err(message) => fails_with(r, message),
            Ok(due) => r == Ok::<bool, String>(due),
        },
{
    if job.owner.schema_version != SCHEMA_VERSION || job.owner.generation.as_str().is_empty()
        || !rooted(job.socket.path.as_str()) || !rooted(job.lifecycle_root.as_str()) {
        return Err(
            "Host cleanup job has invalid durable identity: ".to_owned().concat(path),
        );
    }
    if !text_eq(name, job.owner.generation.as_str().to_owned().concat(".json").as_str()) {
        return Err(
            "Host cleanup queue filename/generation mismatch: ".to_owned().concat(path),
        );
    }
    Ok(job.ready_for_cleanup)
}

/// Whether a runtime job may run; a job that is not what its name says is an
/// error.
pub open spec fn runtime_job_due(
    job: RuntimeCleanupJobView,
    name: Seq<char>,
    path: Seq<char>,
) -> Result<bool, Seq<char>> {
    if job.owner.schema_version != SCHEMA_VERSION || job.owner.generation_id.len() == 0 {
        Err("RuntimeResource cleanup job has invalid durable identity: "@ + path)
    } else if name != job.owner.generation_id + ".json"@ {
        Err("RuntimeResource cleanup queue filename/generation mismatch: "@ + path)
    } else {
        Ok(job.ready_for_cleanup)
    }
}

/// Whether a runtime job may run.
pub fn admit_runtime_job(job: &RuntimeCleanupJob, name: &str, path: &str) -> (r: Result<
    bool,
    String,
>)
    ensures
        match runtime_job_due(job@, name@, path@) {
            Err(message) => fails_with(r, message),
            Ok(due) => r == Ok::<bool, String>(due),
        },
{
    if job.owner.schema_version != SCHEMA_VERSION || job.owner.generation_id.as_str().is_empty() {
        return Err(
            "RuntimeResource cleanup job has invalid durable identity: ".to_owned().concat(path),
        );
    }
    if !text_eq(name, job.owner.generation_id.as_str().to_owned().concat(".json").as_str()) {
        return Err(
            "RuntimeResource cleanup queue filename/generation mismatch: ".to_owned().concat(
                path,
            ),
        );
    }
    Ok(job.ready_for_cleanup)
}

/// What failed of a Host job.
pub open spec fn host_job_errors(socket: Result<(), String>, cgroup: Result<(), String>) -> Seq<
    Seq<char>,
> {
    let first = match socket {
        Ok(_) => Seq::empty(),
        Err(message) => seq!["Host queue socket cleanup: "@ + message@],
    };
    match cgroup {
        Ok(_) => first,
        Err(message) => first.push("Host queue cgroup cleanup: "@ + message@),
    }
}

/// The result of a Host job: it is done once both its socket and its cgroup are
/// gone.
pub fn host_job_result(socket: &Result<(), String>, cgroup: &Result<(), String>) -> (r: Result<
    (),
    String,
>)
    ensures
        if *socket is Ok && *cgroup is Ok {
            r is Ok
        } else {
            fails_with(r, joined_messages(host_job_errors(*socket, *cgroup)))
        },
{
    let mut errors: Vec<String> = Vec::new();
    if let Err(message) = socket {
        errors.push("Host queue socket cleanup: ".to_owned().concat(message.as_str()));
    }
    if let Err(message) = cgroup {
        errors.push("Host queue cgroup cleanup: ".to_owned().concat(message.as_str()));
    }
    assert(views(errors@) =~= host_job_errors(*socket, *cgroup));
    combine_errors(&errors)
}

/// Why a cgroup is not the recorded one, if it is not.
pub open spec fn cleanup_identity_fault(
    path: Seq<char>,
    parent: Result<FileIdentity, String>,
    leaf: Result<FileIdentity, String>,
    expected_parent: FileIdentity,
    expected_leaf: Option<FileIdentity>,
) -> Option<Seq<char>> {
    match parent_spec(path) {
        None => Some("Host leaf has no parent: "@ + path),
        Some(directory) => match parent {
            Err(message) => Some(message@),
            Ok(found) => if found != expected_parent {
                Some("Host leaf parent identity changed: "@ + directory)
            } else if expected_leaf is None {
                Some("Host leaf exists without a durable post-create identity: "@ + path)
            } else {
                match leaf {
                    Err(message) => Some(message@),
                    Ok(found) => if Some(found) != expected_leaf {
                        Some("Host leaf identity changed: "@ + path)
                    } else {
                        None
                    },
                }
            },
        },
    }
}

/// Checks that a cgroup is the recorded one, below the recorded parent.
pub fn verify_cgroup_cleanup_identity(
    path: &str,
    parent: &Result<FileIdentity, String>,
    leaf: &Result<FileIdentity, String>,
    expected_parent: FileIdentity,
    expected_leaf: Option<FileIdentity>,
) -> (r: Result<(), String>)
    ensures
        passes_unless(
            r,
            cleanup_identity_fault(path@, *parent, *leaf, expected_parent, expected_leaf),
        ),
{
    let directory = match parent_path(path) {
        None => return Err("Host leaf has no parent: ".to_owned().concat(path)),
        Some(directory) => directory,
    };
    match parent {
        Err(message) => return Err(message.clone()),
        Ok(found) => {
            if *found != expected_parent {
                return Err(
                    "Host leaf parent identity changed: ".to_owned().concat(directory.as_str()),
                );
            }
        },
    }
    let expected = match expected_leaf {
        None => return Err(
            "Host leaf exists without a durable post-create identity: ".to_owned().concat(path),
        ),
        Some(expected) => expected,
    };
    match leaf {
        Err(message) => Err(message.clone()),
        Ok(found) => if *found != expected {
            Err("Host leaf identity changed: ".to_owned().concat(path))
        } else {
            Ok(())
        },
    }
}

/// What the Host shows of the contents of a cgroup.
pub struct CgroupContents {
    pub events: Result<String, String>,
    pub procs: Result<String, String>,
    pub has_child: Result<bool, String>,
}

/// Why a cgroup is not empty, if it is not.
pub open spec fn occupied(path: Seq<char>, contents: CgroupContents) -> Option<Seq<char>> {
    match contents.events {
        Err(error) => Some("read cgroup.events for "@ + path + ": "@ + error@),
        Ok(events) => if !unpopulated(events@) {
            Some("Host leaf is still populated: "@ + path)
        } else {
            match contents.procs {
                Err(error) => Some("read cgroup.procs for "@ + path + ": "@ + error@),
                Ok(procs) => if lists_something(procs@) {
                    Some("Host leaf still contains processes: "@ + path)
                } else {
                    match contents.has_child {
                        Err(error) => Some("scan Host leaf "@ + path + ": "@ + error@),
                        Ok(has_child) => if has_child {
                            Some("Host leaf still has children: "@ + path)
                        } else {
                            None
                        },
                    }
                },
            }
        },
    }
}

/// Checks that a cgroup is empty: not populated, without processes and without
/// children.
pub fn verify_empty_cgroup(path: &str, contents: &CgroupContents) -> (r: Result<(), String>)
    ensures
        passes_unless(r, occupied(path@, *contents)),
{
    match &contents.events {
        Err(error) => return Err(
            "read cgroup.events for ".to_owned().concat(path).concat(": ").concat(error.as_str()),
        ),
        Ok(events) => {
            if !events_unpopulated(events.as_str()) {
                return Err("Host leaf is still populated: ".to_owned().concat(path));
            }
        },
    }
    match &contents.procs {
        Err(error) => return Err(
            "read cgroup.procs for ".to_owned().concat(path).concat(": ").concat(error.as_str()),
        ),
        Ok(procs) => {
            if procs_listed(procs.as_str()) {
                return Err("Host leaf still contains processes: ".to_owned().concat(path));
            }
        },
    }
    match &contents.has_child {
        Err(error) => Err(
            "scan Host leaf ".to_owned().concat(path).concat(": ").concat(error.as_str()),
        ),
        Ok(has_child) => if *has_child {
            Err("Host leaf still has children: ".to_owned().concat(path))
        } else {
            Ok(())
        },
    }
}

/// How the cgroup of a target is removed.
#[derive(Debug, PartialEq, Eq)]
pub enum TargetCleanup {
    /// Nothing of it is there.
    Nothing,
    /// Its directory is removed.
    Directory { path: String },
    /// systemd collects its scope.
    Scope { unit: String, path: String },
}

/// How the cgroup of a Host job is removed: one that was never intended is not.
pub fn target_cleanup(owner_state: HostOwnerState, target: &HostTarget) -> (way: TargetCleanup)
    ensures
        match way {
            TargetCleanup::Nothing => owner_state == HostOwnerState::Empty
                || !target@.is_managed(),
            TargetCleanup::Directory { path } => owner_state != HostOwnerState::Empty
                && target@ is Cgroupfs && path@ == cgroup_path(target@.location()),
            TargetCleanup::Scope { unit, path } => owner_state != HostOwnerState::Empty
                && target@ is Systemd && unit@ == target@->unit && path@ == cgroup_path(
                target@.location(),
            ),
        },
{
    if owner_state == HostOwnerState::Empty {
        return TargetCleanup::Nothing;
    }
    match target {
        HostTarget::Cgroupfs { cgroup, .. } => TargetCleanup::Directory {
            path: cgroup_directory(cgroup.as_str()),
        },
        HostTarget::Systemd { unit, cgroup, .. } => TargetCleanup::Scope {
            unit: unit.clone(),
            path: cgroup_directory(cgroup.as_str()),
        },
        _ => TargetCleanup::Nothing,
    }
}

/// Whether the directory of a cgroup has to be removed.
pub open spec fn directory_removal(
    path: Seq<char>,
    present: bool,
    identity: Option<Seq<char>>,
    contents: CgroupContents,
) -> Result<bool, Seq<char>> {
    if !present {
        Ok(false)
    } else if identity is Some {
        Err(identity->0)
    } else {
        match occupied(path, contents) {
            Some(message) => Err(message),
            None => Ok(true),
        }
    }
}

/// Whether the directory of a cgroup has to be removed: one that is there has
/// to be the recorded one, and empty.
pub fn decide_directory_removal(
    target: &HostTarget,
    present: bool,
    parent: &Result<FileIdentity, String>,
    leaf: &Result<FileIdentity, String>,
    contents: &CgroupContents,
) -> (r: Result<bool, String>)
    requires
        target@.is_managed(),
    ensures
        match directory_removal(
            cgroup_path(target@.location()),
            present,
            cleanup_identity_fault(
                cgroup_path(target@.location()),
                *parent,
                *leaf,
                target@.parent()->0,
                target@.leaf(),
            ),
            *contents,
        ) {
            Err(message) => fails_with(r, message),
            Ok(remove) => r == Ok::<bool, String>(remove),
        },
{
    if !present {
        return Ok(false);
    }
    let path = cgroup_directory(target.cgroup());
    let expected = match target.parent_identity() {
        None => return Ok(false),
        Some(expected) => expected,
    };
    if let Err(message) = verify_cgroup_cleanup_identity(
        path.as_str(),
        parent,
        leaf,
        expected,
        target.leaf_identity(),
    ) {
        return Err(message);
    }
    match verify_empty_cgroup(path.as_str(), contents) {
        Err(message) => Err(message),
        Ok(()) => Ok(true),
    }
}

/// How the controllers of a Host job are cleaned up.
#[derive(Debug, PartialEq, Eq)]
pub enum ControllerCleanup {
    /// There is no transaction left, or nothing left to restore.
    Nothing,
    /// The cgroup is gone: the job changed and has to be made durable.
    Abandoned,
    /// The transaction has to be rolled back.
    Rollback { transaction_id: String },
}

/// How the cleanup of a job's controllers begins: the way, and the job.
pub open spec fn controller_cleanup(
    job: HostCleanupJobView,
    present: bool,
    parent: Result<FileIdentity, String>,
    leaf: Result<FileIdentity, String>,
) -> Result<Option<HostCleanupJobView>, Seq<char>> {
    let path = cgroup_path(job.owner.target.location());
    match job.owner.controllers {
        None => Ok(None),
        Some(journal) => if !journal_owned(
            journal,
            journal.owner_epoch,
            journal.owner_identity,
            journal.create_fingerprint,
        ) {
            Err("Host controller journal identity or fixed step order changed"@)
        } else if !present {
            Ok(
                Some(
                    HostCleanupJobView {
                        owner: HostCgroupOwnerView {
                            controllers: Some(
                                ControllerJournalView {
                                    state: ControllerTransactionState::AbandonedForExactDelete,
                                    degraded_reason: None,
                                    ..journal
                                },
                            ),
                            ..job.owner
                        },
                        ..job
                    },
                ),
            )
        } else {
            match job.owner.target.parent() {
                None => Err("controller cleanup target has no parent identity"@),
                Some(expected) => match cleanup_identity_fault(
                    path,
                    parent,
                    leaf,
                    expected,
                    job.owner.target.leaf(),
                ) {
                    Some(message) => Err(message),
                    None => Ok(None),
                },
            }
        },
    }
}

/// Begins the cleanup of a Host job's controllers. Where the cgroup is gone,
/// its transaction is abandoned; where it is the recorded one, the transaction
/// is to be rolled back.
pub fn begin_controller_cleanup(
    job: &mut HostCleanupJob,
    present: bool,
    parent: &Result<FileIdentity, String>,
    leaf: &Result<FileIdentity, String>,
) -> (r: Result<ControllerCleanup, String>)
    ensures
        match controller_cleanup(old(job)@, present, *parent, *leaf) {
            Err(message) => fails_with(r, message) && final(job)@ == old(job)@,
            Ok(Some(next)) => r == Ok::<ControllerCleanup, String>(ControllerCleanup::Abandoned)
                && final(job)@ == next,
            Ok(None) => final(job)@ == old(job)@ && match old(job)@.owner.controllers {
                None => r == Ok::<ControllerCleanup, String>(ControllerCleanup::Nothing),
                Some(journal) => r matches Ok(ControllerCleanup::Rollback { transaction_id })
                    && transaction_id@ == journal.transaction_id,
            },
        },
{
    let journal = match &job.owner.controllers {
        None => return Ok(ControllerCleanup::Nothing),
        Some(journal) => journal.clone(),
    };
    if let Err(message) = verify_controller_journal_owner(
        &journal,
        journal.owner_epoch,
        &journal.owner_identity,
        journal.create_fingerprint.as_str(),
    ) {
        return Err(message);
    }
    if !present {
        let mut abandoned = journal;
        abandoned.state = ControllerTransactionState::AbandonedForExactDelete;
        abandoned.degraded_reason = None;
        job.owner.controllers = Some(abandoned);
        return Ok(ControllerCleanup::Abandoned);
    }
    let expected = match job.owner.target.parent_identity() {
        None => return Err("controller cleanup target has no parent identity".to_owned()),
        Some(expected) => expected,
    };
    let path = cgroup_directory(job.owner.target.cgroup());
    if let Err(message) = verify_cgroup_cleanup_identity(
        path.as_str(),
        parent,
        leaf,
        expected,
        job.owner.target.leaf_identity(),
    ) {
        return Err(message);
    }
    Ok(ControllerCleanup::Rollback { transaction_id: journal.transaction_id })
}

/// The journal that the rollback of a Host job loads.
pub open spec fn cleanup_load(job: HostCleanupJobView, transaction_id: Seq<char>) -> Result<
    ControllerJournalView,
    Seq<char>,
> {
    match job.owner.controllers {
        None => Err("cleanup controller journal disappeared"@),
        Some(journal) => if journal.transaction_id != transaction_id {
            Err("cleanup controller transaction identity changed"@)
        } else {
            Ok(journal)
        },
    }
}

/// Loads the journal for the rollback of a Host job.
pub fn load_cleanup_journal(job: &HostCleanupJob, transaction_id: &str) -> (r: Result<
    ControllerJournal,
    String,
>)
    ensures
        match cleanup_load(job@, transaction_id@) {
            Err(message) => fails_with(r, message),
            Ok(journal) => r matches Ok(found) && found@ == journal,
        },
{
    match &job.owner.controllers {
        None => Err("cleanup controller journal disappeared".to_owned()),
        Some(journal) => if !text_eq(journal.transaction_id.as_str(), transaction_id) {
            Err("cleanup controller transaction identity changed".to_owned())
        } else {
            Ok(journal.clone())
        },
    }
}

/// A Host job with this journal.
pub open spec fn job_with(
    job: HostCleanupJobView,
    journal: Option<ControllerJournalView>,
) -> HostCleanupJobView {
    HostCleanupJobView {
        owner: HostCgroupOwnerView { controllers: journal, ..job.owner },
        ..job
    }
}

/// The Host job that its rollback makes durable.
pub open spec fn cleanup_persist(
    job: HostCleanupJobView,
    transaction_id: Seq<char>,
    journal: ControllerJournalView,
) -> Result<HostCleanupJobView, Seq<char>> {
    match job.owner.controllers {
        Some(current) if current.transaction_id == transaction_id => Ok(
            job_with(job, Some(journal)),
        ),
        _ => Err("cleanup controller transaction identity changed"@),
    }
}

/// Makes the journal of a Host job's rollback part of the job.
pub fn persist_cleanup_journal(
    job: &mut HostCleanupJob,
    transaction_id: &str,
    journal: &ControllerJournal,
) -> (r: Result<(), String>)
    ensures
        match cleanup_persist(old(job)@, transaction_id@, journal@) {
            Err(message) => fails_with(r, message) && final(job)@ == old(job)@,
            Ok(next) => r is Ok && final(job)@ == next,
        },
{
    let current = match &job.owner.controllers {
        None => false,
        Some(current) => text_eq(current.transaction_id.as_str(), transaction_id),
    };
    if !current {
        return Err("cleanup controller transaction identity changed".to_owned());
    }
    job.owner.controllers = Some(journal.clone());
    Ok(())
}

/// The Host job once its rollback is complete.
pub open spec fn cleanup_finish(
    job: HostCleanupJobView,
    transaction_id: Seq<char>,
    readings: Seq<Result<Seq<char>, Seq<char>>>,
) -> Result<HostCleanupJobView, Seq<char>> {
    match job.owner.controllers {
        None => Err("cleanup controller journal disappeared after rollback"@),
        Some(journal) => if journal.transaction_id != transaction_id || journal.state
            != ControllerTransactionState::Restored {
            Err("cleanup controller rollback did not reach RESTORED"@)
        } else {
            match clear_fault(Some(journal), readings) {
                Some(message) => Err(message),
                None => Ok(job_with(job, None)),
            }
        },
    }
}

/// Ends the rollback of a Host job: its journal goes once every controller file
/// is seen to hold its old value.
pub fn finish_controller_cleanup(
    job: &mut HostCleanupJob,
    transaction_id: &str,
    readings: &Vec<Result<String, String>>,
) -> (r: Result<(), String>)
    requires
        old(job)@.owner.controllers matches Some(journal) ==> readings@.len()
            == journal.steps.len(),
    ensures
        match cleanup_finish(old(job)@, transaction_id@, outcomes(readings@)) {
            Err(message) => fails_with(r, message) && final(job)@ == old(job)@,
            Ok(next) => r is Ok && final(job)@ == next,
        },
{
    match &job.owner.controllers {
        None => return Err("cleanup controller journal disappeared after rollback".to_owned()),
        Some(journal) => {
            if !text_eq(journal.transaction_id.as_str(), transaction_id) || journal.state
                != ControllerTransactionState::Restored {
                return Err("cleanup controller rollback did not reach RESTORED".to_owned());
            }
        },
    }
    clear_restored_controller_journal(&mut job.owner.controllers, readings)
}

/// A cgroup directory is removed only where it is the recorded one, below its
/// recorded parent, and empty.
pub proof fn law_only_the_recorded_empty_cgroup_is_removed(
    path: Seq<char>,
    present: bool,
    parent: Result<FileIdentity, String>,
    leaf: Result<FileIdentity, String>,
    expected_parent: FileIdentity,
    expected_leaf: Option<FileIdentity>,
    contents: CgroupContents,
)
    ensures
        directory_removal(
            path,
            present,
            cleanup_identity_fault(path, parent, leaf, expected_parent, expected_leaf),
            contents,
        ) == Ok::<bool, Seq<char>>(true) ==> parent == Ok::<FileIdentity, String>(
            expected_parent,
        ) && (expected_leaf matches Some(identity) && leaf == Ok::<FileIdentity, String>(identity))
            && (contents.events matches Ok(events) && unpopulated(events@)) && (
        contents.procs matches Ok(procs) && !lists_something(procs@)) && contents.has_child
            == Ok::<bool, String>(false),
{
}

/// What an interrupted preparation may leave behind goes: its locks, its two
/// owners and the files it was writing; whatever else is found is kept, and so
/// are directories, whatever their names.
pub proof fn law_leftovers_are_known_files(name: Seq<char>)
    ensures
        is_leftover("record.lock"@, true),
        is_leftover("operation.lock"@, true),
        is_leftover("host-cgroup-owner.json"@, true),
        is_leftover("runtime-resource-owner.json"@, true),
        !is_leftover(name, false),
        is_leftover(name, true) ==> name == "record.lock"@ || name == "operation.lock"@ || name
            == "host-cgroup-owner.json"@ || name == "runtime-resource-owner.json"@ || (name.len()
            > 0 && name[0] == '.'),
{
    reveal_strlit(".");
    if is_leftover(name, true) && is_hidden(name) {
        assert(name.subrange(0, 1)[0] == '.');
    }
}

/// A released job runs, and one that is not released waits, where its name and
/// its identity fit; a job under another name never runs.
pub proof fn law_released_jobs_run(
    job: HostCleanupJobView,
    work: RuntimeCleanupJobView,
    name: Seq<char>,
    path: Seq<char>,
)
    ensures
        job.owner.schema_version == 2 && job.owner.generation.len() > 0 && is_rooted(
            job.socket.path,
        ) && is_rooted(job.lifecycle_root) && name == job.owner.generation + ".json"@
            ==> host_job_due(job, name, path) == Ok::<bool, Seq<char>>(job.ready_for_cleanup),
        host_job_due(job, name, path) is Ok ==> job.owner.schema_version == 2
            && job.owner.generation.len() > 0 && is_rooted(job.socket.path) && is_rooted(
            job.lifecycle_root,
        ) && name == job.owner.generation + ".json"@,
        work.owner.schema_version == 2 && work.owner.generation_id.len() > 0 && name
            == work.owner.generation_id + ".json"@ ==> runtime_job_due(work, name, path) == Ok::<
            bool,
            Seq<char>,
        >(work.ready_for_cleanup),
        runtime_job_due(work, name, path) is Ok ==> work.owner.schema_version == 2
            && work.owner.generation_id.len() > 0 && name == work.owner.generation_id + ".json"@,
{
}

/// Both failures of a Host job are told, the socket's before the cgroup's.
pub proof fn law_both_failures_of_a_job_are_told(socket: String, cgroup: String)
    ensures
        host_job_errors(Err(socket), Ok(())) == seq!["Host queue socket cleanup: "@ + socket@],
        host_job_errors(Ok(()), Err(cgroup)) == seq!["Host queue cgroup cleanup: "@ + cgroup@],
        host_job_errors(Err(socket), Err(cgroup)) == seq![
            "Host queue socket cleanup: "@ + socket@,
            "Host queue cgroup cleanup: "@ + cgroup@,
        ],
        host_job_errors(Ok(()), Ok(())).len() == 0,
{
}

/// A directory that is there goes where it is the recorded one, below its
/// recorded parent, with nothing in it; a directory that is not there asks for
/// nothing.
pub proof fn law_recorded_empty_cgroup_is_removed(
    path: Seq<char>,
    parent: FileIdentity,
    leaf: FileIdentity,
    expected_parent: FileIdentity,
    expected_leaf: Option<FileIdentity>,
    events: String,
    procs: String,
    has_child: bool,
)
    requires
        parent_spec(path) is Some,
    ensures
        ({
            let contents = CgroupContents {
                events: Ok(events),
                procs: Ok(procs),
                has_child: Ok(has_child),
            };
            let fault = cleanup_identity_fault(
                path,
                Ok(parent),
                Ok(leaf),
                expected_parent,
                expected_leaf,
            );
            let recorded = parent == expected_parent && expected_leaf == Some(leaf);
            let empty = unpopulated(events@) && !lists_something(procs@) && !has_child;
            &&& (fault is None) == recorded
            &&& (occupied(path, contents) is None) == empty
            &&& directory_removal(path, false, fault, contents) == Ok::<bool, Seq<char>>(false)
            &&& recorded && empty ==> directory_removal(path, true, fault, contents) == Ok::<
                bool,
                Seq<char>,
            >(true)
            &&& !(recorded && empty) ==> directory_removal(path, true, fault, contents) is Err
        }),
{
}

/// What cannot be read of a cgroup counts as not empty.
pub proof fn law_unreadable_cgroup_is_kept(path: Seq<char>, contents: CgroupContents)
    requires
        contents.events is Err || contents.procs is Err || contents.has_child is Err,
    ensures
        occupied(path, contents) is Some,
        directory_removal(path, true, None, contents) is Err,
{
}

/// A transaction whose cgroup is gone is abandoned: its state is all that
/// changes, with what degraded it. A job without a transaction asks for nothing,
/// and one whose cgroup is the recorded one is rolled back.
pub proof fn law_gone_cgroup_abandons_its_transaction(
    job: HostCleanupJobView,
    journal: ControllerJournalView,
    parent: Result<FileIdentity, String>,
    leaf: Result<FileIdentity, String>,
)
    requires
        job.owner.controllers == Some(journal),
        journal_owned(
            journal,
            journal.owner_epoch,
            journal.owner_identity,
            journal.create_fingerprint,
        ),
    ensures
        controller_cleanup(job, false, parent, leaf) matches Ok(Some(next)) && next.owner.controllers
            matches Some(after) && after.state
            == ControllerTransactionState::AbandonedForExactDelete && after.degraded_reason is None
            && after.steps == journal.steps && after.transaction_id == journal.transaction_id
            && after.owner_epoch == journal.owner_epoch && after.owner_identity
            == journal.owner_identity && after.create_fingerprint == journal.create_fingerprint
            && next.owner.target == job.owner.target && next.owner.server == job.owner.server
            && next.owner.state == job.owner.state && next.owner.generation
            == job.owner.generation && next.socket == job.socket && next.ready_for_cleanup
            == job.ready_for_cleanup && next.lifecycle_root == job.lifecycle_root
            && next.created_at_ms == job.created_at_ms,
        job.owner.target.parent() is Some && parent == Ok::<FileIdentity, String>(
            job.owner.target.parent()->0,
        ) && job.owner.target.leaf() is Some && leaf == Ok::<FileIdentity, String>(
            job.owner.target.leaf()->0,
        ) && parent_spec(cgroup_path(job.owner.target.location())) is Some
            ==> controller_cleanup(job, true, parent, leaf) == Ok::<
            Option<HostCleanupJobView>,
            Seq<char>,
        >(None),
        job.owner.target.parent() is None ==> controller_cleanup(job, true, parent, leaf) is Err,
        parent matches Ok(found) ==> job.owner.target.parent() != Some(found)
            ==> controller_cleanup(job, true, parent, leaf) is Err,
{
}

/// The rollback of a job works on the job's own transaction: it loads what was
/// made durable last, and the transaction goes once it is restored and every
/// file reads its old value; another transaction's is never touched.
pub proof fn law_cleanup_rolls_its_own_transaction_back(
    job: HostCleanupJobView,
    journal: ControllerJournalView,
    next: ControllerJournalView,
    id: Seq<char>,
    readings: Seq<Result<Seq<char>, Seq<char>>>,
)
    requires
        job.owner.controllers == Some(journal),
    ensures
        journal.transaction_id == id ==> cleanup_load(job, id) == Ok::<
            ControllerJournalView,
            Seq<char>,
        >(journal),
        journal.transaction_id != id ==> cleanup_load(job, id) is Err && cleanup_persist(
            job,
            id,
            next,
        ) is Err && cleanup_finish(job, id, readings) is Err,
        journal.transaction_id == id ==> cleanup_persist(job, id, next) is Ok,
        cleanup_persist(job, id, next) matches Ok(after) ==> after.owner.controllers == Some(next)
            && after.owner.target == job.owner.target && after.owner.state == job.owner.state
            && after.owner.server == job.owner.server && after.ready_for_cleanup
            == job.ready_for_cleanup && after.socket == job.socket,
        cleanup_persist(job, id, next) matches Ok(after) ==> next.transaction_id == id
            ==> cleanup_load(after, id) == Ok::<ControllerJournalView, Seq<char>>(next),
        journal.state != ControllerTransactionState::Restored ==> cleanup_finish(
            job,
            id,
            readings,
        ) is Err,
        journal.transaction_id == id && journal.state == ControllerTransactionState::Restored
            && clear_fault(Some(journal), readings) is None ==> cleanup_finish(job, id, readings)
            == Ok::<HostCleanupJobView, Seq<char>>(
            HostCleanupJobView {
                owner: HostCgroupOwnerView { controllers: None, ..job.owner },
                ..job
            },
        ),
        clear_fault(Some(journal), readings) is Some ==> cleanup_finish(job, id, readings) is Err,
{
}

/// A job without a transaction has nothing to roll back.
pub proof fn law_no_transaction_no_rollback(
    job: HostCleanupJobView,
    present: bool,
    parent: Result<FileIdentity, String>,
    leaf: Result<FileIdentity, String>,
    id: Seq<char>,
    readings: Seq<Result<Seq<char>, Seq<char>>>,
)
    requires
        job.owner.controllers is None,
    ensures
        controller_cleanup(job, present, parent, leaf) == Ok::<
            Option<HostCleanupJobView>,
            Seq<char>,
        >(None),
        cleanup_load(job, id) is Err,
        cleanup_finish(job, id, readings) is Err,
{
}

} // verus!
