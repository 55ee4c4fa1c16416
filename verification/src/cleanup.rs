//! Cleanup: both owners are handed to their queues before anything is
//! signalled, and the queues are released once the server has stopped.
use vstd::prelude::*;

use crate::identity::{
    immutable_identity_matches, same_process, FileIdentity, OperationOwner, OperationOwnerView,
    OwnerKind, ProcessIdentity, ProcessIdentityView,
};
use crate::lifecycle::{
    check_host_owner, check_record, host_owner_fault, leaf_recorded, next_epoch, next_sequence,
    record_fault, updated, LifecycleHandle, LifecycleView,
};
use crate::observe::{seen, ProcessObservation};
use crate::record::{
    HostCgroupOwner, HostCgroupOwnerView, HostCleanupJob, HostCleanupJobView, HostOwnerState,
    LifecyclePhase, LifecycleRecord, LifecycleRecordView, RuntimeCleanupJob,
    RuntimeCleanupJobView, RuntimeResourceOwner, RuntimeResourceOwnerView,
};
use crate::target::{cgroup_directory, cgroup_path, passes_unless};
use crate::text::{
    decimal, decimal_text, fails_with, signed_decimal, signed_decimal_text, text_eq, views,
};

verus! {

/// A record that a scanner owns under a new epoch.
pub open spec fn scanner_owned(record: LifecycleRecordView, scanner: ProcessIdentityView) -> Result<
    LifecycleRecordView,
    Seq<char>,
> {
    if record.operation_owner.epoch == u64::MAX {
        Err("operation owner epoch overflow"@)
    } else {
        Ok(
            LifecycleRecordView {
                operation_owner: OperationOwnerView {
                    kind: OwnerKind::Scanner,
                    epoch: (record.operation_owner.epoch + 1) as u64,
                    identity: scanner,
                    revoked_epoch: Some(record.operation_owner.epoch),
                },
                ..record
            },
        )
    }
}

/// Whether a scanner owns a record.
pub open spec fn owned_by(record: LifecycleRecordView, scanner: ProcessIdentityView) -> bool {
    record.operation_owner.kind == OwnerKind::Scanner && same_process(
        record.operation_owner.identity,
        scanner,
    )
}

/// What the beginning of a handoff leads to: the scanner owns a lifecycle that
/// awaits cleanup.
pub open spec fn handoff_begun(
    record: LifecycleRecordView,
    scanner: Result<ProcessIdentity, String>,
) -> Result<LifecycleRecordView, Seq<char>> {
    if record_fault(record) is Some {
        Err(record_fault(record)->0)
    } else if record.phase != LifecyclePhase::CleanupRequired {
        Ok(record)
    } else {
        match scanner {
            Err(message) => Err(message@),
            Ok(identity) => updated(
                record,
                if owned_by(record, identity@) {
                    Ok(record)
                } else {
                    scanner_owned(record, identity@)
                },
            ),
        }
    }
}

/// What is left to do for a handoff.
#[derive(Clone, Copy, Debug, PartialEq, Eq, Structural)]
pub enum HandoffStep {
    /// Both owners have to be handed over.
    Transfer,
    /// The owners are handed over.
    Nothing,
    /// The server has stopped: the Host's job may run.
    ReleaseHostJob,
}

/// What is left to do for a handoff in a phase.
pub open spec fn handoff_step(phase: LifecyclePhase) -> HandoffStep {
    match phase {
        LifecyclePhase::CleanupRequired => HandoffStep::Transfer,
        LifecyclePhase::ServerStopped => HandoffStep::ReleaseHostJob,
        _ => HandoffStep::Nothing,
    }
}

/// The Host's job of a lifecycle that is handed over.
pub open spec fn host_job_of(
    record: LifecycleRecordView,
    owner: HostCgroupOwnerView,
    root: Seq<char>,
) -> HostCleanupJobView {
    HostCleanupJobView {
        owner,
        socket: record.socket,
        created_at_ms: record.created_at_ms,
        lifecycle_root: root,
        ready_for_cleanup: false,
    }
}

/// The Host's job of a lifecycle that is handed over.
pub fn host_cleanup_job(record: &LifecycleRecord, owner: &HostCgroupOwner, lifecycle_root: &str) -> (job:
    HostCleanupJob)
    ensures
        job@ == host_job_of(record@, owner@, lifecycle_root@),
{
    HostCleanupJob {
        owner: owner.clone(),
        socket: record.socket.clone(),
        created_at_ms: record.created_at_ms,
        lifecycle_root: lifecycle_root.to_owned(),
        ready_for_cleanup: false,
    }
}

/// The runtime job of a lifecycle that is handed over.
pub open spec fn runtime_job_of(owner: RuntimeResourceOwnerView) -> RuntimeCleanupJobView {
    RuntimeCleanupJobView { owner, ready_for_cleanup: false }
}

/// The runtime job of a lifecycle that is handed over.
pub fn runtime_cleanup_job(owner: &RuntimeResourceOwner) -> (job: RuntimeCleanupJob)
    ensures
        job@ == runtime_job_of(owner@),
{
    RuntimeCleanupJob { owner: owner.clone(), ready_for_cleanup: false }
}

/// Whether an existing job is the one to be handed over, released or not.
pub open spec fn same_host_job(existing: HostCleanupJobView, job: HostCleanupJobView) -> bool {
    existing == (HostCleanupJobView { ready_for_cleanup: existing.ready_for_cleanup, ..job })
}

/// Whether a job still has to be written; a different one in its place is an
/// error.
pub open spec fn handover(existing: Option<Result<bool, Seq<char>>>, path: Seq<char>) -> Result<
    bool,
    Seq<char>,
> {
    match existing {
        None => Ok(true),
        Some(Err(message)) => Err(message),
        Some(Ok(same)) => if same {
            Ok(false)
        } else {
            Err("existing cleanup job differs from canonical source: "@ + path)
        },
    }
}

/// Whether the Host's job still has to be written. A job that is there stays,
/// whether or not it was released.
pub fn persist_host_cleanup_job(
    existing: &Option<Result<HostCleanupJob, String>>,
    job: &HostCleanupJob,
    path: &str,
) -> (r: Result<bool, String>)
    ensures
        match handover(
            match existing {
                None => None,
                Some(Err(message)) => Some(Err(message@)),
                Some(Ok(found)) => Some(Ok(same_host_job(found@, job@))),
            },
            path@,
        ) {
            Err(message) => fails_with(r, message),
            Ok(write) => r == Ok::<bool, String>(write),
        },
{
    match existing {
        None => Ok(true),
        Some(Err(message)) => Err(message.clone()),
        Some(Ok(found)) => {
            if !found.owner.same(&job.owner) || !found.socket.same(&job.socket)
                || found.created_at_ms != job.created_at_ms || !text_eq(
                found.lifecycle_root.as_str(),
                job.lifecycle_root.as_str(),
            ) {
                return Err(
                    "existing cleanup job differs from canonical source: ".to_owned().concat(path),
                );
            }
            Ok(false)
        },
    }
}

/// Whether the runtime job still has to be written. A job that is there stays,
/// whether or not it was released.
pub fn persist_runtime_cleanup_job(
    existing: &Option<Result<RuntimeCleanupJob, String>>,
    job: &RuntimeCleanupJob,
    path: &str,
) -> (r: Result<bool, String>)
    ensures
        match handover(
            match existing {
                None => None,
                Some(Err(message)) => Some(Err(message@)),
                Some(Ok(found)) => Some(Ok(found@.owner == job@.owner)),
            },
            path@,
        ) {
            Err(message) => fails_with(r, message),
            Ok(write) => r == Ok::<bool, String>(write),
        },
{
    match existing {
        None => Ok(true),
        Some(Err(message)) => Err(message.clone()),
        Some(Ok(found)) => {
            if !found.owner.same(&job.owner) {
                return Err(
                    "existing cleanup job differs from canonical source: ".to_owned().concat(path),
                );
            }
            Ok(false)
        },
    }
}

/// Several messages in one.
pub open spec fn joined_messages(messages: Seq<Seq<char>>) -> Seq<char>
    decreases messages.len(),
{
    if messages.len() == 0 {
        Seq::empty()
    } else if messages.len() == 1 {
        messages[0]
    } else {
        joined_messages(messages.drop_last()) + "; "@ + messages.last()
    }
}

/// The result of work that may have failed in several places.
pub fn combine_errors(errors: &Vec<String>) -> (r: Result<(), String>)
    ensures
        if errors@.len() == 0 {
            r is Ok
        } else {
            fails_with(r, joined_messages(views(errors@)))
        },
{
    if errors.len() == 0 {
        return Ok(());
    }
    let ghost all = views(errors@);
    let mut message = errors[0].clone();
    let mut i: usize = 1;
    assert(all.take(1)[0] == errors@[0]@);
    while i < errors.len()
        invariant
            all == views(errors@),
            1 <= i <= errors.len(),
            message@ == joined_messages(all.take(i as int)),
        decreases errors.len() - i,
    {
        proof {
            assert(all.take(i + 1).drop_last() =~= all.take(i as int));
            assert(all.take(i + 1).last() == errors@[i as int]@);
        }
        message = message.concat("; ").concat(errors[i].as_str());
        i = i + 1;
    }
    assert(all.take(i as int) =~= all);
    Err(message)
}

/// How the handover of one owner went.
#[derive(Debug, PartialEq, Eq)]
pub enum Transfer {
    Handed,
    /// The owner could not be read.
    Unreadable { message: String },
    /// The job could not be put in its queue.
    Refused { message: String },
}

/// What failed in the handover of an owner, which is called `name`.
pub open spec fn transfer_errors(name: Seq<char>, transfer: Transfer) -> Seq<Seq<char>> {
    match transfer {
        Transfer::Handed => Seq::empty(),
        Transfer::Unreadable { message } => seq!["read "@ + name + " owner source: "@ + message@],
        Transfer::Refused { message } => seq![name + " owner handoff: "@ + message@],
    }
}

fn note_transfer(errors: &mut Vec<String>, name: &str, transfer: &Transfer)
    ensures
        views(final(errors)@) == views(old(errors)@) + transfer_errors(name@, *transfer),
{
    let ghost before = errors@;
    match transfer {
        Transfer::Handed => {},
        Transfer::Unreadable { message } => {
            errors.push(
                "read ".to_owned().concat(name).concat(" owner source: ").concat(
                    message.as_str(),
                ),
            );
        },
        Transfer::Refused { message } => {
            errors.push(name.to_owned().concat(" owner handoff: ").concat(message.as_str()));
        },
    }
    assert(views(errors@) =~= views(before) + transfer_errors(name@, *transfer));
}

/// The result of handing over both owners: one is handed over even where the
/// other fails.
pub fn transfer_result(host: &Transfer, runtime: &Transfer) -> (r: Result<(), String>)
    ensures
        if *host is Handed && *runtime is Handed {
            r is Ok
        } else {
            fails_with(
                r,
                joined_messages(
                    transfer_errors("Host"@, *host) + transfer_errors("RuntimeResource"@, *runtime),
                ),
            )
        },
{
    let mut errors: Vec<String> = Vec::new();
    assert(views(errors@) =~= Seq::empty());
    note_transfer(&mut errors, "Host", host);
    note_transfer(&mut errors, "RuntimeResource", runtime);
    assert(views(errors@) =~= transfer_errors("Host"@, *host) + transfer_errors(
        "RuntimeResource"@,
        *runtime,
    ));
    assert(views(errors@).len() == errors@.len());
    combine_errors(&errors)
}

/// What the end of a handoff leads to: the owners count as durable once both
/// jobs were read back.
pub open spec fn handoff_committed(
    record: LifecycleRecordView,
    host: Result<HostCleanupJob, String>,
    runtime: Result<RuntimeCleanupJob, String>,
) -> Result<LifecycleRecordView, Seq<char>> {
    match host {
        Err(message) => Err(message@),
        Ok(_) => match runtime {
            Err(message) => Err(message@),
            Ok(_) => crate::lifecycle::phase_advance(
                record,
                LifecyclePhase::CleanupRequired,
                LifecyclePhase::CleanupOwnersDurable,
            ),
        },
    }
}

/// What a released job looks like; a job of another generation is an error.
pub open spec fn host_release(job: HostCleanupJobView, generation: Seq<char>) -> Result<
    HostCleanupJobView,
    Seq<char>,
> {
    if job.owner.generation != generation {
        Err("Host cleanup job generation mismatch"@)
    } else {
        Ok(HostCleanupJobView { ready_for_cleanup: true, ..job })
    }
}

/// Releases the Host's job. The result says whether it changed.
pub fn mark_host_cleanup_ready(job: &mut HostCleanupJob, generation: &str) -> (r: Result<
    bool,
    String,
>)
    ensures
        match host_release(old(job)@, generation@) {
            Err(message) => fails_with(r, message) && final(job)@ == old(job)@,
            Ok(next) => r == Ok::<bool, String>(!old(job)@.ready_for_cleanup) && final(job)@
                == next,
        },
{
    if !text_eq(job.owner.generation.as_str(), generation) {
        return Err("Host cleanup job generation mismatch".to_owned());
    }
    let changed = !job.ready_for_cleanup;
    job.ready_for_cleanup = true;
    Ok(changed)
}

/// What a released job looks like; a job of another generation is an error.
pub open spec fn runtime_release(job: RuntimeCleanupJobView, generation: Seq<char>) -> Result<
    RuntimeCleanupJobView,
    Seq<char>,
> {
    if job.owner.generation_id != generation {
        Err("RuntimeResource cleanup job generation mismatch"@)
    } else {
        Ok(RuntimeCleanupJobView { ready_for_cleanup: true, ..job })
    }
}

/// Releases the runtime job. The result says whether it changed.
pub fn mark_runtime_cleanup_ready(job: &mut RuntimeCleanupJob, generation: &str) -> (r: Result<
    bool,
    String,
>)
    ensures
        match runtime_release(old(job)@, generation@) {
            Err(message) => fails_with(r, message) && final(job)@ == old(job)@,
            Ok(next) => r == Ok::<bool, String>(!old(job)@.ready_for_cleanup) && final(job)@
                == next,
        },
{
    if !text_eq(job.owner.generation_id.as_str(), generation) {
        return Err("RuntimeResource cleanup job generation mismatch".to_owned());
    }
    let changed = !job.ready_for_cleanup;
    job.ready_for_cleanup = true;
    Ok(changed)
}

/// Whether a scanner may take a lifecycle over: nothing is to do where it owns
/// it, and another scanner that is alive keeps it.
pub open spec fn takeover_needed(
    record: LifecycleRecordView,
    scanner: Result<ProcessIdentity, String>,
    other: Result<ProcessObservation, String>,
) -> Result<bool, Seq<char>> {
    match scanner {
        Err(message) => Err(message@),
        Ok(identity) => if record_fault(record) is Some {
            Err(record_fault(record)->0)
        } else if owned_by(record, identity@) {
            Ok(false)
        } else if record.operation_owner.kind == OwnerKind::Scanner && seen(other) is Err {
            Err(seen(other)->Err_0)
        } else if record.operation_owner.kind == OwnerKind::Scanner && seen(other)->Ok_0 is Exact {
            Err(
                "another live watchdog "@ + signed_decimal(
                    record.operation_owner.identity.pid as int,
                ) + " owns cleanup epoch "@ + decimal(record.operation_owner.epoch as nat),
            )
        } else {
            Ok(true)
        },
    }
}

/// What the takeover of a lifecycle by a scanner leads to.
pub open spec fn scanner_takeover(
    record: LifecycleRecordView,
    scanner: Result<ProcessIdentity, String>,
    other: Result<ProcessObservation, String>,
) -> Result<LifecycleRecordView, Seq<char>> {
    match takeover_needed(record, scanner, other) {
        Err(message) => Err(message),
        Ok(needed) => if !needed {
            Ok(record)
        } else {
            updated(
                record,
                if record.phase != LifecyclePhase::CleanupOwnersDurable && record.phase
                    != LifecyclePhase::ServerStopped {
                    Err(
                        "scanner takeover requires durable cleanup owners, found "@
                            + record.phase.label(),
                    )
                } else {
                    scanner_owned(record, scanner->Ok_0@)
                },
            )
        },
    }
}

/// Why the queues must not be released yet, if they must not.
pub open spec fn barrier_fault(record: LifecycleRecordView) -> Option<Seq<char>> {
    if record_fault(record) is Some {
        record_fault(record)
    } else if record.operation_owner.kind != OwnerKind::Scanner || record.phase
        != LifecyclePhase::ServerStopped {
        Some("cleanup operation barrier lost stopped scanner ownership"@)
    } else {
        None
    }
}

/// What the Host shows of a target's leaf that may have to be adopted.
pub struct LeafSighting {
    pub present: bool,
    pub parent: Result<FileIdentity, String>,
    pub leaf: Result<FileIdentity, String>,
    /// The processes in the leaf.
    pub members: Result<Vec<i32>, String>,
    /// Whether the Host owner's server is alive.
    pub server_alive: bool,
}

/// The first process, from `from` on, that does not belong in a leaf.
pub open spec fn stranger(members: Seq<i32>, server: Option<i32>, alive: bool, from: int) -> Option<i32>
    decreases members.len() - from,
{
    if from < 0 || from >= members.len() {
        None
    } else if server != Some(members[from]) || !alive {
        Some(members[from])
    } else {
        stranger(members, server, alive, from + 1)
    }
}

/// The number of a Host owner's server.
pub open spec fn owner_server(owner: HostCgroupOwnerView) -> Option<i32> {
    match owner.server {
        None => None,
        Some(server) => Some(server.pid),
    }
}

/// The leaf identity that a lifecycle has to record, if it has to.
pub open spec fn leaf_to_record(state: LifecycleView, leaf: LeafSighting) -> Result<
    Option<FileIdentity>,
    Seq<char>,
> {
    let record = state.record;
    let owner = state.host_owner;
    let path = cgroup_path(record.target.location());
    if record_fault(record) is Some {
        Err(record_fault(record)->0)
    } else if host_owner_fault(owner) is Some {
        Err(host_owner_fault(owner)->0)
    } else if owner.state == HostOwnerState::Empty {
        Ok(None)
    } else if !record.target.is_managed() || !record.target.same_place(owner.target) {
        Err("Host owner location differs from lifecycle record"@)
    } else if !leaf.present {
        Ok(None)
    } else if leaf.parent is Err {
        Err(leaf.parent->Err_0@)
    } else if record.target.parent() != Some(leaf.parent->Ok_0) {
        Err("cannot adopt Host leaf after parent identity changed"@)
    } else {
        match leaf.leaf {
            Err(message) => Err(message@),
            Ok(actual) => match (record.target.leaf(), owner.target.leaf()) {
                (Some(recorded), Some(owned)) => if recorded != owned || recorded != actual {
                    Err(
                        "Host leaf identity differs across durable owners or live path: "@ + path,
                    )
                } else {
                    Ok(None)
                },
                (Some(recorded), None) => if recorded != actual {
                    Err("lifecycle Host leaf identity differs from live path: "@ + path)
                } else {
                    Ok(Some(actual))
                },
                (None, Some(owned)) => if owned != actual {
                    Err("Host owner leaf identity differs from live path: "@ + path)
                } else {
                    Ok(Some(actual))
                },
                (None, None) => match leaf.members {
                    Err(message) => Err(message@),
                    Ok(members) => match stranger(
                        members@,
                        owner_server(owner),
                        leaf.server_alive,
                        0,
                    ) {
                        Some(pid) => Err(
                            "refuse to adopt Host leaf "@ + path + " containing unknown pid "@
                                + signed_decimal(pid as int),
                        ),
                        None => Ok(Some(actual)),
                    },
                },
            },
        }
    }
}

fn find_stranger(members: &Vec<i32>, server: Option<i32>, alive: bool) -> (r: Option<i32>)
    ensures
        r == stranger(members@, server, alive, 0),
{
    let mut i: usize = 0;
    while i < members.len()
        invariant
            i <= members.len(),
            stranger(members@, server, alive, 0) == stranger(members@, server, alive, i as int),
        decreases members.len() - i,
    {
        let known = match server {
            None => false,
            Some(pid) => pid == members[i] && alive,
        };
        if !known {
            return Some(members[i]);
        }
        i = i + 1;
    }
    None
}

/// Whether the server may be signalled though it is outside its cgroup: the
/// breach is durable.
pub open spec fn breach_durable(record: LifecycleRecordView, containment_ok: bool) -> bool {
    !containment_ok && record.phase == LifecyclePhase::CleanupOwnersDurable
        && record.containment_breach is Some
}

impl LifecycleHandle {
    /// Begins the handoff of the owners: the scanner owns a lifecycle that
    /// awaits cleanup.
    pub fn begin_cleanup_handoff(&mut self, scanner: &Result<ProcessIdentity, String>) -> (r: Result<
        HandoffStep,
        String,
    >)
        ensures
            match handoff_begun(old(self)@.record, *scanner) {
                Err(message) => fails_with(r, message) && final(self)@ == old(self)@,
                Ok(record) => r == Ok::<HandoffStep, String>(handoff_step(record.phase))
                    && final(self)@ == (LifecycleView { record, ..old(self)@ }),
            },
    {
        if let Err(message) = check_record(&self.record) {
            return Err(message);
        }
        if self.record.phase == LifecyclePhase::CleanupRequired {
            let identity = match scanner {
                Err(message) => return Err(message.clone()),
                Ok(identity) => identity,
            };
            if !(self.record.operation_owner.kind == OwnerKind::Scanner
                && immutable_identity_matches(&self.record.operation_owner.identity, identity)) {
                let epoch: u64 = match next_epoch(self.record.operation_owner.epoch) {
                    Err(message) => return Err(message),
                    Ok(epoch) => epoch,
                };
                let sequence: u64 = match next_sequence(self.record.sequence) {
                    Err(message) => return Err(message),
                    Ok(sequence) => sequence,
                };
                self.record.operation_owner = OperationOwner {
                    kind: OwnerKind::Scanner,
                    epoch,
                    identity: identity.clone(),
                    revoked_epoch: Some(self.record.operation_owner.epoch),
                };
                self.record.sequence = sequence;
            } else {
                match next_sequence(self.record.sequence) {
                    Err(message) => return Err(message),
                    Ok(sequence) => {
                        self.record.sequence = sequence;
                    },
                }
            }
        }
        Ok(
            match self.record.phase {
                LifecyclePhase::CleanupRequired => HandoffStep::Transfer,
                LifecyclePhase::ServerStopped => HandoffStep::ReleaseHostJob,
                _ => HandoffStep::Nothing,
            },
        )
    }

    /// Ends the handoff of the owners: they count as durable once both jobs
    /// were read back.
    pub fn commit_cleanup_handoff(
        &mut self,
        host: &Result<HostCleanupJob, String>,
        runtime: &Result<RuntimeCleanupJob, String>,
    ) -> (r: Result<(), String>)
        ensures
            crate::lifecycle::moves(
                old(self)@,
                final(self)@,
                r,
                handoff_committed(old(self)@.record, *host, *runtime),
            ),
    {
        if let Err(message) = host {
            return Err(message.clone());
        }
        if let Err(message) = runtime {
            return Err(message.clone());
        }
        self.advance_phase(LifecyclePhase::CleanupRequired, LifecyclePhase::CleanupOwnersDurable)
    }

    /// Makes the scanner the owner of the cleanup, unless it is that already.
    /// `other` is what was seen of a scanner that owns it.
    pub fn ensure_scanner_owner(
        &mut self,
        scanner: &Result<ProcessIdentity, String>,
        other: &Result<ProcessObservation, String>,
    ) -> (r: Result<(), String>)
        ensures
            crate::lifecycle::moves(
                old(self)@,
                final(self)@,
                r,
                scanner_takeover(old(self)@.record, *scanner, *other),
            ),
    {
        let identity = match scanner {
            Err(message) => return Err(message.clone()),
            Ok(identity) => identity,
        };
        if let Err(message) = check_record(&self.record) {
            return Err(message);
        }
        if self.record.operation_owner.kind == OwnerKind::Scanner {
            if immutable_identity_matches(&self.record.operation_owner.identity, identity) {
                return Ok(());
            }
            match crate::observe::immutable_process_is_live(other) {
                Err(message) => return Err(message),
                Ok(alive) => {
                    if alive {
                        return Err(
                            "another live watchdog ".to_owned().concat(
                                signed_decimal_text(
                                    self.record.operation_owner.identity.pid as i64,
                                ).as_str(),
                            ).concat(" owns cleanup epoch ").concat(
                                decimal_text(self.record.operation_owner.epoch as u128).as_str(),
                            ),
                        );
                    }
                },
            }
        }
        if self.record.phase != LifecyclePhase::CleanupOwnersDurable && self.record.phase
            != LifecyclePhase::ServerStopped {
            return Err(
                "scanner takeover requires durable cleanup owners, found ".to_owned().concat(
                    self.record.phase.name(),
                ),
            );
        }
        let epoch: u64 = match next_epoch(self.record.operation_owner.epoch) {
            Err(message) => return Err(message),
            Ok(epoch) => epoch,
        };
        match next_sequence(self.record.sequence) {
            Err(message) => Err(message),
            Ok(sequence) => {
                self.record.operation_owner = OperationOwner {
                    kind: OwnerKind::Scanner,
                    epoch,
                    identity: identity.clone(),
                    revoked_epoch: Some(self.record.operation_owner.epoch),
                };
                self.record.sequence = sequence;
                Ok(())
            },
        }
    }

    /// Checks that no operation can run any more: the scanner owns a lifecycle
    /// whose server has stopped.
    pub fn verify_cleanup_barrier(&self) -> (r: Result<(), String>)
        ensures
            passes_unless(r, barrier_fault(self@.record)),
    {
        if let Err(message) = check_record(&self.record) {
            return Err(message);
        }
        if self.record.operation_owner.kind != OwnerKind::Scanner || self.record.phase
            != LifecyclePhase::ServerStopped {
            return Err("cleanup operation barrier lost stopped scanner ownership".to_owned());
        }
        Ok(())
    }

    /// Records that the server has stopped.
    pub fn mark_server_stopped(&mut self) -> (r: Result<(), String>)
        ensures
            crate::lifecycle::moves(
                old(self)@,
                final(self)@,
                r,
                crate::lifecycle::phase_advance(
                    old(self)@.record,
                    LifecyclePhase::CleanupOwnersDurable,
                    LifecyclePhase::ServerStopped,
                ),
            ),
    {
        self.advance_phase(LifecyclePhase::CleanupOwnersDurable, LifecyclePhase::ServerStopped)
    }

    /// Records that nothing is left to clean up.
    pub fn mark_done(&mut self) -> (r: Result<(), String>)
        ensures
            crate::lifecycle::moves(
                old(self)@,
                final(self)@,
                r,
                crate::lifecycle::phase_advance(
                    old(self)@.record,
                    LifecyclePhase::ServerStopped,
                    LifecyclePhase::Done,
                ),
            ),
    {
        self.advance_phase(LifecyclePhase::ServerStopped, LifecyclePhase::Done)
    }

    /// Whether the server may be signalled though it is outside its cgroup.
    pub fn breach_is_durable(&self, containment_ok: bool) -> (r: bool)
        ensures
            r == breach_durable(self@.record, containment_ok),
    {
        !containment_ok && self.record.phase == LifecyclePhase::CleanupOwnersDurable
            && self.record.containment_breach.is_some()
    }

    /// Brings the leaf identity of record and Host owner into agreement with
    /// the leaf that is there. A leaf that neither of them recorded is adopted
    /// only where it holds no strange process.
    pub fn reconcile_host_target_identity(&mut self, leaf: &LeafSighting) -> (r: Result<(), String>)
        ensures
            match leaf_to_record(old(self)@, *leaf) {
                Err(message) => fails_with(r, message) && final(self)@ == old(self)@,
                Ok(None) => r is Ok && final(self)@ == old(self)@,
                Ok(Some(identity)) => leaf_recorded(old(self)@, final(self)@, r, identity),
            },
    {
        if let Err(message) = check_record(&self.record) {
            return Err(message);
        }
        if let Err(message) = check_host_owner(&self.host_owner) {
            return Err(message);
        }
        if self.host_owner.state == HostOwnerState::Empty {
            return Ok(());
        }
        if !self.record.target.managed() || !self.record.target.same_location(
            &self.host_owner.target,
        ) {
            return Err("Host owner location differs from lifecycle record".to_owned());
        }
        if !leaf.present {
            return Ok(());
        }
        let parent = match &leaf.parent {
            Err(message) => return Err(message.clone()),
            Ok(parent) => *parent,
        };
        let same_parent = match self.record.target.parent_identity() {
            None => false,
            Some(expected) => expected == parent,
        };
        if !same_parent {
            return Err("cannot adopt Host leaf after parent identity changed".to_owned());
        }
        let actual = match &leaf.leaf {
            Err(message) => return Err(message.clone()),
            Ok(actual) => *actual,
        };
        let path = cgroup_directory(self.record.target.cgroup());
        match (self.record.target.leaf_identity(), self.host_owner.target.leaf_identity()) {
            (Some(recorded), Some(owned)) => {
                if recorded != owned || recorded != actual {
                    return Err(
                        "Host leaf identity differs across durable owners or live path: ".to_owned().concat(
                        path.as_str()),
                    );
                }
                return Ok(());
            },
            (Some(recorded), None) => {
                if recorded != actual {
                    return Err(
                        "lifecycle Host leaf identity differs from live path: ".to_owned().concat(
                            path.as_str(),
                        ),
                    );
                }
            },
            (None, Some(owned)) => {
                if owned != actual {
                    return Err(
                        "Host owner leaf identity differs from live path: ".to_owned().concat(
                            path.as_str(),
                        ),
                    );
                }
            },
            (None, None) => {
                let members = match &leaf.members {
                    Err(message) => return Err(message.clone()),
                    Ok(members) => members,
                };
                let server: Option<i32> = match &self.host_owner.server {
                    None => None,
                    Some(server) => Some(server.pid),
                };
                if let Some(pid) = find_stranger(members, server, leaf.server_alive) {
                    return Err(
                        "refuse to adopt Host leaf ".to_owned().concat(path.as_str()).concat(
                            " containing unknown pid ",
                        ).concat(signed_decimal_text(pid as i64).as_str()),
                    );
                }
            },
        }
        self.persist_leaf_identity(actual)
    }
}

/// Where the convergence of a cleanup stands.
#[derive(Clone, Copy, Debug, PartialEq, Eq, Structural)]
pub enum ConvergeStage {
    ReconcileTarget,
    HandOff,
    TakeOver,
    ReadPhase,
    TerminateWorker,
    StopServer,
    MarkStopped,
    ReadStoppedPhase,
    CheckBarrier,
    ReleaseRuntimeJob,
    ReleaseHostJob,
    LookForJobs,
    MarkDone,
    Ended,
}

/// What the convergence of a cleanup is told.
#[derive(Debug, PartialEq, Eq)]
pub enum ConvergeEvent {
    Done,
    /// The phase of the record.
    Phase { phase: LifecyclePhase },
    /// Whether jobs are left in the queues.
    Jobs { host: bool, runtime: bool },
    Failed { message: String },
}

/// The contents of a [`ConvergeEvent`].
pub enum ConvergeEventView {
    Done,
    Phase { phase: LifecyclePhase },
    Jobs { host: bool, runtime: bool },
    Failed { message: Seq<char> },
}

impl View for ConvergeEvent {
    type V = ConvergeEventView;

    open spec fn view(&self) -> ConvergeEventView {
        match self {
            ConvergeEvent::Done => ConvergeEventView::Done,
            ConvergeEvent::Phase { phase } => ConvergeEventView::Phase { phase: *phase },
            ConvergeEvent::Jobs { host, runtime } => ConvergeEventView::Jobs {
                host: *host,
                runtime: *runtime,
            },
            ConvergeEvent::Failed { message } => ConvergeEventView::Failed { message: message@ },
        }
    }
}

/// The convergence of a cleanup: what is to be done next, and what has failed.
#[derive(Debug, PartialEq, Eq)]
pub struct Convergence {
    pub stage: ConvergeStage,
    /// What failed of the target's reconciliation; cleanup goes on beside it.
    pub target_failure: Option<String>,
    /// How the convergence ended.
    pub failure: Option<String>,
}

/// The contents of a [`Convergence`].
pub struct ConvergenceView {
    pub stage: ConvergeStage,
    pub target_failure: Option<Seq<char>>,
    pub failure: Option<Seq<char>>,
}

impl View for Convergence {
    type V = ConvergenceView;

    open spec fn view(&self) -> ConvergenceView {
        ConvergenceView {
            stage: self.stage,
            target_failure: crate::text::opt_view(self.target_failure),
            failure: crate::text::opt_view(self.failure),
        }
    }
}

/// Whether an event answers a stage.
pub open spec fn converge_accepts(stage: ConvergeStage, event: ConvergeEventView) -> bool {
    event is Failed || match stage {
        ConvergeStage::ReadPhase | ConvergeStage::ReadStoppedPhase => event is Phase,
        ConvergeStage::LookForJobs => event is Jobs,
        _ => event is Done,
    }
}

/// The stage that follows a stage after an answer.
pub open spec fn next_stage(stage: ConvergeStage, event: ConvergeEventView) -> ConvergeStage {
    match stage {
        ConvergeStage::ReconcileTarget => ConvergeStage::HandOff,
        ConvergeStage::HandOff => ConvergeStage::TakeOver,
        ConvergeStage::TakeOver => ConvergeStage::ReadPhase,
        ConvergeStage::ReadPhase => match event->phase {
            LifecyclePhase::CleanupOwnersDurable => ConvergeStage::TerminateWorker,
            LifecyclePhase::ServerStopped => ConvergeStage::CheckBarrier,
            _ => ConvergeStage::Ended,
        },
        ConvergeStage::TerminateWorker => ConvergeStage::StopServer,
        ConvergeStage::StopServer => ConvergeStage::MarkStopped,
        ConvergeStage::MarkStopped => ConvergeStage::ReadStoppedPhase,
        ConvergeStage::ReadStoppedPhase => if event->phase == LifecyclePhase::ServerStopped {
            ConvergeStage::CheckBarrier
        } else {
            ConvergeStage::Ended
        },
        ConvergeStage::CheckBarrier => ConvergeStage::ReleaseRuntimeJob,
        ConvergeStage::ReleaseRuntimeJob => ConvergeStage::ReleaseHostJob,
        ConvergeStage::ReleaseHostJob => ConvergeStage::LookForJobs,
        ConvergeStage::LookForJobs => if event->host || event->runtime {
            ConvergeStage::Ended
        } else {
            ConvergeStage::MarkDone
        },
        ConvergeStage::MarkDone => ConvergeStage::Ended,
        ConvergeStage::Ended => ConvergeStage::Ended,
    }
}

/// The transitions of a convergence. A failure to reconcile the target is
/// reported at the end, and only where the queues were released; any other
/// failure ends the convergence.
pub open spec fn converge_next(state: ConvergenceView, event: ConvergeEventView) -> ConvergenceView {
    if state.stage == ConvergeStage::Ended {
        state
    } else if state.stage == ConvergeStage::ReconcileTarget && event is Failed {
        ConvergenceView {
            stage: ConvergeStage::HandOff,
            target_failure: Some("Host target identity reconciliation: "@ + event->message),
            ..state
        }
    } else if event is Failed {
        ConvergenceView {
            stage: ConvergeStage::Ended,
            failure: Some(event->message),
            ..state
        }
    } else {
        let stage = next_stage(state.stage, event);
        ConvergenceView {
            stage,
            failure: if stage == ConvergeStage::Ended && (state.stage == ConvergeStage::LookForJobs
                || state.stage == ConvergeStage::MarkDone) {
                state.target_failure
            } else {
                state.failure
            },
            ..state
        }
    }
}

fn following(stage: ConvergeStage, event: &ConvergeEvent) -> (next: ConvergeStage)
    requires
        converge_accepts(stage, event@),
        !(event@ is Failed),
    ensures
        next == next_stage(stage, event@),
{
    match (stage, event) {
        (ConvergeStage::ReconcileTarget, _) => ConvergeStage::HandOff,
        (ConvergeStage::HandOff, _) => ConvergeStage::TakeOver,
        (ConvergeStage::TakeOver, _) => ConvergeStage::ReadPhase,
        (ConvergeStage::ReadPhase, ConvergeEvent::Phase { phase }) => match phase {
            LifecyclePhase::CleanupOwnersDurable => ConvergeStage::TerminateWorker,
            LifecyclePhase::ServerStopped => ConvergeStage::CheckBarrier,
            _ => ConvergeStage::Ended,
        },
        (ConvergeStage::TerminateWorker, _) => ConvergeStage::StopServer,
        (ConvergeStage::StopServer, _) => ConvergeStage::MarkStopped,
        (ConvergeStage::MarkStopped, _) => ConvergeStage::ReadStoppedPhase,
        (ConvergeStage::ReadStoppedPhase, ConvergeEvent::Phase { phase }) => {
            if *phase == LifecyclePhase::ServerStopped {
                ConvergeStage::CheckBarrier
            } else {
                ConvergeStage::Ended
            }
        },
        (ConvergeStage::CheckBarrier, _) => ConvergeStage::ReleaseRuntimeJob,
        (ConvergeStage::ReleaseRuntimeJob, _) => ConvergeStage::ReleaseHostJob,
        (ConvergeStage::ReleaseHostJob, _) => ConvergeStage::LookForJobs,
        (ConvergeStage::LookForJobs, ConvergeEvent::Jobs { host, runtime }) => {
            if *host || *runtime {
                ConvergeStage::Ended
            } else {
                ConvergeStage::MarkDone
            }
        },
        _ => ConvergeStage::Ended,
    }
}

impl Convergence {
    /// A convergence that is about to begin.
    pub fn start() -> (state: Self)
        ensures
            state@ == (ConvergenceView {
                stage: ConvergeStage::ReconcileTarget,
                target_failure: None,
                failure: None,
            }),
    {
        Convergence { stage: ConvergeStage::ReconcileTarget, target_failure: None, failure: None }
    }

    /// The convergence after an answer to its stage.
    pub fn step(self, event: ConvergeEvent) -> (next: Self)
        requires
            converge_accepts(self@.stage, event@),
        ensures
            next@ == converge_next(self@, event@),
    {
        if self.stage == ConvergeStage::Ended {
            return self;
        }
        if let ConvergeEvent::Failed { message } = event {
            if self.stage == ConvergeStage::ReconcileTarget {
                return Convergence {
                    stage: ConvergeStage::HandOff,
                    target_failure: Some(
                        "Host target identity reconciliation: ".to_owned().concat(
                            message.as_str(),
                        ),
                    ),
                    failure: self.failure,
                };
            }
            return Convergence {
                stage: ConvergeStage::Ended,
                target_failure: self.target_failure,
                failure: Some(message),
            };
        }
        let stage = following(self.stage, &event);
        let failure = if stage == ConvergeStage::Ended && (self.stage == ConvergeStage::LookForJobs
            || self.stage == ConvergeStage::MarkDone) {
            crate::identity::clone_opt_text(&self.target_failure)
        } else {
            self.failure
        };
        Convergence { stage, target_failure: self.target_failure, failure }
    }
}

/// Nothing is signalled before both owners are durable and the scanner owns the
/// cleanup, and no queue is released before the server has stopped: each of
/// these stages is entered only from the one before it.
pub proof fn law_cleanup_goes_in_order(state: ConvergenceView, event: ConvergeEventView)
    requires
        converge_accepts(state.stage, event),
    ensures
        ({
            let next = converge_next(state, event).stage;
            &&& next == ConvergeStage::TakeOver ==> state.stage == ConvergeStage::HandOff
                && event is Done
            &&& next == ConvergeStage::ReadPhase ==> state.stage == ConvergeStage::TakeOver
                && event is Done
            &&& next == ConvergeStage::TerminateWorker ==> state.stage == ConvergeStage::ReadPhase
                && event == (ConvergeEventView::Phase {
                phase: LifecyclePhase::CleanupOwnersDurable,
            })
            &&& next == ConvergeStage::StopServer ==> state.stage == ConvergeStage::TerminateWorker
                && event is Done
            &&& next == ConvergeStage::CheckBarrier ==> (state.stage == ConvergeStage::ReadPhase
                || state.stage == ConvergeStage::ReadStoppedPhase) && event == (
            ConvergeEventView::Phase { phase: LifecyclePhase::ServerStopped })
            &&& next == ConvergeStage::ReleaseRuntimeJob ==> state.stage
                == ConvergeStage::CheckBarrier && event is Done
            &&& next == ConvergeStage::ReleaseHostJob ==> state.stage
                == ConvergeStage::ReleaseRuntimeJob && event is Done
            &&& next == ConvergeStage::MarkDone ==> state.stage == ConvergeStage::LookForJobs
                && event == (ConvergeEventView::Jobs { host: false, runtime: false })
        }),
{
}

/// A convergence after several answers.
pub open spec fn converged(state: ConvergenceView, events: Seq<ConvergeEventView>) -> ConvergenceView
    decreases events.len(),
{
    if events.len() == 0 {
        state
    } else {
        converge_next(converged(state, events.drop_last()), events.last())
    }
}

/// The runtime job after several answers: it is released where that stage is
/// answered with success.
pub open spec fn runtime_job_after(
    job: RuntimeCleanupJobView,
    generation: Seq<char>,
    state: ConvergenceView,
    events: Seq<ConvergeEventView>,
) -> RuntimeCleanupJobView
    decreases events.len(),
{
    if events.len() == 0 {
        job
    } else {
        let before = runtime_job_after(job, generation, state, events.drop_last());
        if converged(state, events.drop_last()).stage == ConvergeStage::ReleaseRuntimeJob
            && events.last() is Done {
            match runtime_release(before, generation) {
                Ok(released) => released,
                Err(_) => before,
            }
        } else {
            before
        }
    }
}

/// Whether an operation holds the barrier all the while: the stage that waits
/// for it is not answered with success.
pub open spec fn barrier_held(state: ConvergenceView, events: Seq<ConvergeEventView>) -> bool {
    forall|k: int|
        0 <= k < events.len() ==> !((#[trigger] converged(state, events.take(k))).stage
            == ConvergeStage::CheckBarrier && events[k] is Done)
}

/// Whether a convergence has released no queue yet.
pub open spec fn before_release(stage: ConvergeStage) -> bool {
    stage != ConvergeStage::ReleaseRuntimeJob && stage != ConvergeStage::ReleaseHostJob && stage
        != ConvergeStage::LookForJobs && stage != ConvergeStage::MarkDone
}

/// As long as an operation holds the barrier, a convergence that has not passed
/// it releases no queue, and the runtime job stays as it is.
pub proof fn law_held_barrier_keeps_the_queues(
    state: ConvergenceView,
    events: Seq<ConvergeEventView>,
    job: RuntimeCleanupJobView,
    generation: Seq<char>,
)
    requires
        before_release(state.stage),
        forall|k: int|
            0 <= k < events.len() ==> converge_accepts(
                (#[trigger] converged(state, events.take(k))).stage,
                events[k],
            ),
        barrier_held(state, events),
    ensures
        before_release(converged(state, events).stage),
        runtime_job_after(job, generation, state, events) == job,
    decreases events.len(),
{
    if events.len() > 0 {
        let earlier = events.drop_last();
        assert forall|k: int| 0 <= k < earlier.len() implies earlier.take(k) == #[trigger] events.take(
            k,
        ) && earlier[k] == events[k] by {
            assert(earlier.take(k) =~= events.take(k));
        }
        assert forall|k: int| 0 <= k < earlier.len() implies converge_accepts(
            (#[trigger] converged(state, earlier.take(k))).stage,
            earlier[k],
        ) && !(converged(state, earlier.take(k)).stage == ConvergeStage::CheckBarrier
            && earlier[k] is Done) by {
            assert(earlier.take(k) == events.take(k));
            assert(converge_accepts(converged(state, events.take(k)).stage, events[k]));
        }
        law_held_barrier_keeps_the_queues(state, earlier, job, generation);
        let last = events.len() - 1;
        assert(events.take(last) =~= earlier);
        assert(converge_accepts(converged(state, events.take(last)).stage, events[last]));
    }
}

/// Whether a failure to reconcile the target came before or not, the owners are
/// handed over next.
pub proof fn law_broken_target_does_not_block_the_handoff(
    state: ConvergenceView,
    event: ConvergeEventView,
)
    requires
        state.stage == ConvergeStage::ReconcileTarget,
        converge_accepts(state.stage, event),
    ensures
        converge_next(state, event).stage == ConvergeStage::HandOff,
        converge_next(state, event).failure == state.failure,
{
}

/// Owners count as durable only once both of their jobs were read back.
pub proof fn law_owners_are_durable_after_readback(
    record: LifecycleRecordView,
    host: Result<HostCleanupJob, String>,
    runtime: Result<RuntimeCleanupJob, String>,
)
    requires
        record.phase == LifecyclePhase::CleanupRequired,
    ensures
        handoff_committed(record, host, runtime) matches Ok(next) ==> host is Ok && runtime is Ok
            && next.phase == LifecyclePhase::CleanupOwnersDurable,
{
}

/// A scanner that takes over revokes the epoch before it, and a live scanner
/// is never displaced.
pub proof fn law_one_live_scanner_owns_cleanup(
    record: LifecycleRecordView,
    scanner: ProcessIdentity,
    other: Result<ProcessObservation, String>,
)
    requires
        !owned_by(record, scanner@),
    ensures
        scanner_takeover(record, Ok(scanner), other) matches Ok(next) ==> owned_by(next, scanner@)
            && next.operation_owner.epoch == record.operation_owner.epoch + 1
            && next.operation_owner.revoked_epoch == Some(record.operation_owner.epoch),
        record.operation_owner.kind == OwnerKind::Scanner && (seen(other) matches Ok(found)
            && found is Exact) ==> scanner_takeover(record, Ok(scanner), other) is Err,
{
}

/// A job that was handed over is found again by a repeated handover, released
/// or not, and a changed one is refused.
pub proof fn law_handover_is_idempotent(
    record: LifecycleRecordView,
    owner: HostCgroupOwnerView,
    root: Seq<char>,
    ready: bool,
    path: Seq<char>,
)
    ensures
        ({
            let job = host_job_of(record, owner, root);
            let found = HostCleanupJobView { ready_for_cleanup: ready, ..job };
            handover(Some(Ok(same_host_job(found, job))), path) == Ok::<bool, Seq<char>>(false)
        }),
        handover(Some(Ok(false)), path) is Err,
{
}

/// A scanner that begins the handoff of a lifecycle that awaits cleanup owns it
/// under the next epoch, and the epoch before is revoked; where it owned it
/// before, it keeps its epoch. Nothing else of the record changes.
pub proof fn law_handoff_begins_with_the_scanner(
    record: LifecycleRecordView,
    scanner: ProcessIdentity,
)
    requires
        crate::laws::movable(record),
        record.phase == LifecyclePhase::CleanupRequired,
    ensures
        handoff_begun(record, Ok(scanner)) is Ok,
        ({
            let next = handoff_begun(record, Ok(scanner))->Ok_0;
            let mine = record.operation_owner.kind == OwnerKind::Scanner && same_process(
                record.operation_owner.identity,
                scanner@,
            );
            &&& next.phase == LifecyclePhase::CleanupRequired
            &&& next.operation_owner.kind == OwnerKind::Scanner
            &&& mine ==> crate::laws::only_counted(record, next)
            &&& !mine ==> next.operation_owner.epoch == record.operation_owner.epoch + 1
            &&& !mine ==> next.operation_owner.revoked_epoch == Some(
                record.operation_owner.epoch,
            )
            &&& !mine ==> next.operation_owner.identity == scanner@
            &&& crate::laws::same_preparation(record, next)
            &&& next.target == record.target
            &&& next.server == record.server
            &&& next.socket == record.socket
            &&& next.vmm_worker == record.vmm_worker
            &&& next.create_state == record.create_state
            &&& next.failure == record.failure
            &&& next.containment_breach == record.containment_breach
            &&& next.degraded_reason == record.degraded_reason
            &&& next.sequence == record.sequence + 1
        }),
{
}

/// A lifecycle that does not await cleanup is not touched by a handoff, whoever
/// asks for it; where its server has stopped the Host's job is released again,
/// and otherwise nothing is to do.
pub proof fn law_handoff_waits_for_cleanup(
    record: LifecycleRecordView,
    scanner: Result<ProcessIdentity, String>,
)
    requires
        crate::laws::movable(record),
        record.phase != LifecyclePhase::CleanupRequired,
    ensures
        handoff_begun(record, scanner) == Ok::<LifecycleRecordView, Seq<char>>(record),
        (handoff_step(record.phase) == HandoffStep::ReleaseHostJob) == (record.phase
            == LifecyclePhase::ServerStopped),
        handoff_step(record.phase) != HandoffStep::Transfer,
        handoff_step(LifecyclePhase::CleanupRequired) == HandoffStep::Transfer,
{
}

/// A job says what its lifecycle says, and does not run before it is released:
/// its release is all that changes, a job of another generation is never
/// released, and a repeated release changes nothing.
pub proof fn law_jobs_wait_for_their_release(
    record: LifecycleRecordView,
    owner: HostCgroupOwnerView,
    runtime: RuntimeResourceOwnerView,
    root: Seq<char>,
    generation: Seq<char>,
)
    ensures
        ({
            let job = host_job_of(record, owner, root);
            let work = runtime_job_of(runtime);
            &&& !job.ready_for_cleanup
            &&& job.owner == owner
            &&& job.socket == record.socket
            &&& job.created_at_ms == record.created_at_ms
            &&& job.lifecycle_root == root
            &&& !work.ready_for_cleanup
            &&& work.owner == runtime
            &&& (host_release(job, generation) is Ok) == (owner.generation == generation)
            &&& (runtime_release(work, generation) is Ok) == (runtime.generation_id == generation)
            &&& host_release(job, generation) matches Ok(free) ==> free.ready_for_cleanup
                && free.owner == owner && free.socket == record.socket && free.created_at_ms
                == record.created_at_ms && free.lifecycle_root == root && host_release(
                free,
                generation,
            ) == Ok::<HostCleanupJobView, Seq<char>>(free)
            &&& runtime_release(work, generation) matches Ok(free) ==> free.ready_for_cleanup
                && free.owner == runtime && runtime_release(free, generation) == Ok::<
                RuntimeCleanupJobView,
                Seq<char>,
            >(free)
        }),
{
}

/// A job is written where there is none, whatever its queue; one that cannot be
/// read, or that is another one, is never written over.
pub proof fn law_jobs_are_not_written_over(
    path: Seq<char>,
    unreadable: Seq<char>,
)
    ensures
        handover(None, path) == Ok::<bool, Seq<char>>(true),
        handover(Some(Ok(true)), path) == Ok::<bool, Seq<char>>(false),
        handover(Some(Ok(false)), path) == Err::<bool, Seq<char>>(
            "existing cleanup job differs from canonical source: "@ + path,
        ),
        handover(Some(Err(unreadable)), path) == Err::<bool, Seq<char>>(unreadable),
{
}

/// Only whether it was released may differ between a job that is there and the
/// one to be handed over.
pub proof fn law_same_job_says_the_same(existing: HostCleanupJobView, job: HostCleanupJobView)
    ensures
        same_host_job(existing, job) == (existing.owner == job.owner && existing.socket
            == job.socket && existing.created_at_ms == job.created_at_ms
            && existing.lifecycle_root == job.lifecycle_root),
{
}

/// Every message of several stands in their one message, in its place: a single
/// one is the message itself, and each further one follows behind "; ".
pub proof fn law_no_message_is_lost(messages: Seq<Seq<char>>, last: Seq<char>)
    ensures
        joined_messages(seq![last]) == last,
        messages.len() > 0 ==> joined_messages(messages.push(last)) == joined_messages(messages)
            + "; "@ + last,
{
    assert(messages.push(last).drop_last() =~= messages);
}

/// Both failed handovers are reported, the Host's before the other.
pub proof fn law_both_handovers_are_reported(host: Transfer, runtime: Transfer)
    ensures
        (transfer_errors("Host"@, host).len() == 0) == (host is Handed),
        host matches Transfer::Unreadable { message } ==> transfer_errors("Host"@, host)
            == seq!["read "@ + "Host"@ + " owner source: "@ + message@],
        runtime matches Transfer::Refused { message } ==> transfer_errors(
            "RuntimeResource"@,
            runtime,
        ) == seq!["RuntimeResource"@ + " owner handoff: "@ + message@],
        !(host is Handed) && !(runtime is Handed) ==> joined_messages(
            transfer_errors("Host"@, host) + transfer_errors("RuntimeResource"@, runtime),
        ) == transfer_errors("Host"@, host)[0] + "; "@ + transfer_errors(
            "RuntimeResource"@,
            runtime,
        )[0],
{
    if !(host is Handed) && !(runtime is Handed) {
        let first = transfer_errors("Host"@, host);
        let second = transfer_errors("RuntimeResource"@, runtime);
        assert(first + second =~= first.push(second[0]));
        law_no_message_is_lost(first, second[0]);
        assert(joined_messages(first) == first[0]);
    }
}

/// Once both jobs were read back the owners of a lifecycle that awaits cleanup
/// are durable; the phase is all that changes.
pub proof fn law_read_back_jobs_make_owners_durable(
    record: LifecycleRecordView,
    host: HostCleanupJob,
    runtime: RuntimeCleanupJob,
    message: String,
)
    requires
        crate::laws::movable(record),
        record.phase == LifecyclePhase::CleanupRequired,
    ensures
        handoff_committed(record, Ok(host), Ok(runtime)) is Ok,
        ({
            let next = handoff_committed(record, Ok(host), Ok(runtime))->Ok_0;
            &&& next.phase == LifecyclePhase::CleanupOwnersDurable
            &&& next == (LifecycleRecordView {
                phase: next.phase,
                sequence: next.sequence,
                ..record
            })
            &&& next.sequence == record.sequence + 1
        }),
        handoff_committed(record, Err(message), Ok(runtime)) is Err,
        handoff_committed(record, Ok(host), Err(message)) is Err,
{
}

/// A scanner takes over what a scanner that is gone, or anyone else, owned,
/// under the next epoch; what it owns itself it leaves as it is; and it asks
/// for durable owners.
pub proof fn law_scanner_takes_over_what_is_free(
    record: LifecycleRecordView,
    scanner: ProcessIdentity,
    other: Result<ProcessObservation, String>,
)
    requires
        crate::laws::movable(record),
        record.operation_owner.kind == OwnerKind::Scanner ==> other is Ok
            && !(other->Ok_0@ is Exact),
    ensures
        ({
            let mine = record.operation_owner.kind == OwnerKind::Scanner && same_process(
                record.operation_owner.identity,
                scanner@,
            );
            let next = scanner_takeover(record, Ok(scanner), other);
            &&& mine ==> next == Ok::<LifecycleRecordView, Seq<char>>(record)
            &&& !mine ==> (next is Ok) == (record.phase == LifecyclePhase::CleanupOwnersDurable
                || record.phase == LifecyclePhase::ServerStopped)
            &&& !mine && next is Ok ==> next->Ok_0 == (LifecycleRecordView {
                operation_owner: OperationOwnerView {
                    kind: OwnerKind::Scanner,
                    epoch: (record.operation_owner.epoch + 1) as u64,
                    identity: scanner@,
                    revoked_epoch: Some(record.operation_owner.epoch),
                },
                sequence: (record.sequence + 1) as u64,
                ..record
            })
        }),
{
}

/// The queues are free for release exactly where a scanner owns a lifecycle
/// whose server has stopped.
pub proof fn law_barrier_opens_when_stopped(record: LifecycleRecordView)
    requires
        crate::laws::movable(record),
    ensures
        (barrier_fault(record) is None) == (record.operation_owner.kind == OwnerKind::Scanner
            && record.phase == LifecyclePhase::ServerStopped),
{
}

/// A process found in a leaf is the strange one exactly where it is not the
/// live server of the leaf's owner; the one that is named stands in the leaf.
pub proof fn law_strangers_are_found(members: Seq<i32>, server: Option<i32>, alive: bool, from: int)
    requires
        0 <= from,
    ensures
        (stranger(members, server, alive, from) is None) == (forall|i: int|
            from <= i < members.len() ==> alive && server == Some(#[trigger] members[i])),
        stranger(members, server, alive, from) matches Some(pid) ==> exists|i: int|
            from <= i < members.len() && #[trigger] members[i] == pid && !(alive && server == Some(
                pid,
            )),
    decreases members.len() - from,
{
    if from < members.len() {
        law_strangers_are_found(members, server, alive, from + 1);
        let rest = stranger(members, server, alive, from + 1);
        if !(server != Some(members[from]) || !alive) {
            assert(stranger(members, server, alive, from) == rest);
            if rest is None {
                assert forall|i: int| from <= i < members.len() implies alive && server == Some(
                    #[trigger] members[i],
                ) by {
                    if i > from {
                        assert(from + 1 <= i);
                    }
                }
            }
        } else {
            assert(members[from] == members[from]);
        }
    }
}

/// A leaf that is there, below the recorded parent and with no stranger in it,
/// is recorded where a record lacks it; a leaf that is gone, or that was never
/// intended, asks for nothing; and one that is not the recorded one is refused.
pub proof fn law_leaf_that_is_seen_is_recorded(
    state: LifecycleView,
    leaf: LeafSighting,
    parent: FileIdentity,
    actual: FileIdentity,
    members: Vec<i32>,
)
    requires
        crate::laws::movable(state.record),
        state.host_owner.schema_version == 2,
        state.host_owner.generation.len() > 0,
        state.record.target.is_managed(),
        state.record.target.same_place(state.host_owner.target),
        leaf.parent == Ok::<FileIdentity, String>(parent),
        leaf.leaf == Ok::<FileIdentity, String>(actual),
        leaf.members == Ok::<Vec<i32>, String>(members),
        leaf.present,
        state.host_owner.state != HostOwnerState::Empty,
    ensures
        ({
            let recorded = state.record.target.leaf();
            let owned = state.host_owner.target.leaf();
            let found = leaf_to_record(state, leaf);
            let known = state.record.target.parent() == Some(parent);
            &&& !known ==> found is Err
            &&& recorded is Some && recorded != Some(actual) ==> found is Err
            &&& owned is Some && owned != Some(actual) ==> found is Err
            &&& known && recorded == Some(actual) && owned == Some(actual) ==> found == Ok::<
                Option<FileIdentity>,
                Seq<char>,
            >(None)
            &&& known && recorded is None && owned == Some(actual) ==> found == Ok::<
                Option<FileIdentity>,
                Seq<char>,
            >(Some(actual))
            &&& known && recorded == Some(actual) && owned is None ==> found == Ok::<
                Option<FileIdentity>,
                Seq<char>,
            >(Some(actual))
            &&& known && recorded is None && owned is None ==> (found == Ok::<
                Option<FileIdentity>,
                Seq<char>,
            >(Some(actual))) == (forall|i: int|
                0 <= i < members@.len() ==> leaf.server_alive && state.host_owner.server is Some
                    && state.host_owner.server->0.pid == #[trigger] members@[i])
            &&& known && recorded is None && owned is None ==> found is Err || found == Ok::<
                Option<FileIdentity>,
                Seq<char>,
            >(Some(actual))
        }),
{
    law_strangers_are_found(
        members@,
        owner_server(state.host_owner),
        leaf.server_alive,
        0,
    );
    let found = stranger(members@, owner_server(state.host_owner), leaf.server_alive, 0);
    if found is None {
        assert forall|i: int| 0 <= i < members@.len() implies leaf.server_alive
            && state.host_owner.server is Some && state.host_owner.server->0.pid
            == #[trigger] members@[i] by {
            assert(owner_server(state.host_owner) == Some(members@[i]));
        }
    }
}

/// A leaf that nobody intended, or that is gone, asks for nothing.
pub proof fn law_absent_leaf_is_left_alone(state: LifecycleView, leaf: LeafSighting)
    requires
        crate::laws::movable(state.record),
        state.host_owner.schema_version == 2,
        state.host_owner.generation.len() > 0,
        state.host_owner.state == HostOwnerState::Empty || (!leaf.present
            && state.record.target.is_managed() && state.record.target.same_place(
            state.host_owner.target,
        )),
    ensures
        leaf_to_record(state, leaf) == Ok::<Option<FileIdentity>, Seq<char>>(None),
{
}

/// A server outside its cgroup may be signalled exactly where its breach is
/// recorded and both owners are durable.
pub proof fn law_only_a_recorded_breach_allows_a_signal(
    record: LifecycleRecordView,
    containment_ok: bool,
)
    ensures
        containment_ok ==> !breach_durable(record, containment_ok),
        record.containment_breach is None ==> !breach_durable(record, containment_ok),
        record.phase != LifecyclePhase::CleanupOwnersDurable ==> !breach_durable(
            record,
            containment_ok,
        ),
        !containment_ok && record.containment_breach is Some && record.phase
            == LifecyclePhase::CleanupOwnersDurable ==> breach_durable(record, containment_ok),
{
}

/// A cleanup of which nothing fails stops the worker and the server, releases
/// both jobs, and ends with the lifecycle done once the queues are empty.
pub proof fn law_undisturbed_cleanup_is_done(state: ConvergenceView)
    requires
        state.stage == ConvergeStage::ReconcileTarget,
        state.target_failure is None,
        state.failure is None,
    ensures
        ({
            let done = ConvergeEventView::Done;
            let a = converge_next(state, done);
            let b = converge_next(a, done);
            let c = converge_next(b, done);
            let d = converge_next(
                c,
                ConvergeEventView::Phase { phase: LifecyclePhase::CleanupOwnersDurable },
            );
            let e = converge_next(d, done);
            let f = converge_next(e, done);
            let g = converge_next(f, done);
            let h = converge_next(
                g,
                ConvergeEventView::Phase { phase: LifecyclePhase::ServerStopped },
            );
            let i = converge_next(h, done);
            let j = converge_next(i, done);
            let k = converge_next(j, done);
            let l = converge_next(k, ConvergeEventView::Jobs { host: false, runtime: false });
            let m = converge_next(l, done);
            &&& a.stage == ConvergeStage::HandOff
            &&& b.stage == ConvergeStage::TakeOver
            &&& c.stage == ConvergeStage::ReadPhase
            &&& d.stage == ConvergeStage::TerminateWorker
            &&& e.stage == ConvergeStage::StopServer
            &&& f.stage == ConvergeStage::MarkStopped
            &&& g.stage == ConvergeStage::ReadStoppedPhase
            &&& h.stage == ConvergeStage::CheckBarrier
            &&& i.stage == ConvergeStage::ReleaseRuntimeJob
            &&& j.stage == ConvergeStage::ReleaseHostJob
            &&& k.stage == ConvergeStage::LookForJobs
            &&& l.stage == ConvergeStage::MarkDone
            &&& m.stage == ConvergeStage::Ended
            &&& m.failure is None
            &&& m.target_failure is None
        }),
{
}

/// A server that has stopped before is not stopped again; queues that still
/// hold a job leave the lifecycle for a later scan.
pub proof fn law_cleanup_goes_on_where_it_stopped(state: ConvergenceView, host: bool, runtime: bool)
    ensures
        state.stage == ConvergeStage::ReadPhase ==> converge_next(
            state,
            ConvergeEventView::Phase { phase: LifecyclePhase::ServerStopped },
        ) == (ConvergenceView { stage: ConvergeStage::CheckBarrier, ..state }),
        state.stage == ConvergeStage::LookForJobs && (host || runtime) ==> converge_next(
            state,
            ConvergeEventView::Jobs { host, runtime },
        ) == (ConvergenceView {
            stage: ConvergeStage::Ended,
            failure: state.target_failure,
            ..state
        }),
{
}

/// A failure ends a cleanup with its message, wherever it comes but for the
/// target's reconciliation, whose message is told at the end; an ended cleanup
/// stays as it ended.
pub proof fn law_cleanup_tells_what_failed(
    state: ConvergenceView,
    message: Seq<char>,
    event: ConvergeEventView,
)
    ensures
        ({
            let next = converge_next(state, ConvergeEventView::Failed { message });
            &&& state.stage == ConvergeStage::Ended ==> converge_next(state, event) == state
            &&& state.stage == ConvergeStage::ReconcileTarget ==> next.failure == state.failure
                && next.stage == ConvergeStage::HandOff && next.target_failure == Some(
                "Host target identity reconciliation: "@ + message,
            )
            &&& state.stage != ConvergeStage::ReconcileTarget && state.stage
                != ConvergeStage::Ended ==> next.failure == Some(message) && next.stage
                == ConvergeStage::Ended
        }),
        state.stage == ConvergeStage::MarkDone ==> converge_next(state, ConvergeEventView::Done)
            == (ConvergenceView {
            stage: ConvergeStage::Ended,
            failure: state.target_failure,
            ..state
        }),
{
}

} // verus!
