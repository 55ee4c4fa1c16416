//! The watchdog's judgement of a lifecycle: what is still owed to it, and when
//! it has to be cleaned up.
use vstd::prelude::*;

use crate::claim::{takeover_allows, takeover_cgroup_allowed};
use crate::digest::{hex, sha256, sha256_hex};
use crate::identity::{
    ContainmentIdentity, ProcessIdentity, ProcessIdentityView, VmmWorkerRecord,
    VmmWorkerRecordView, VmmWorkerState,
};
use crate::lifecycle::{
    check_record, claimed, cleaning, create_failure_cleanup_ready, failure_ready, is_claimed,
    is_cleaning, opt_breach, record_fault, scanner_cleanup, scanner_failure, server_registration,
    LifecycleHandle, LifecycleView,
};
use crate::observe::{seen, ObservationView, ProcessObservation};
use crate::record::{CreateState, LifecyclePhase, LifecycleRecord, LifecycleRecordView};
use crate::target::{
    membership_fault, passes_unless, verify_target_membership, TargetSighting,
};
use crate::text::{decimal, decimal_text, fails_with, opt_view, text_eq};
use crate::worker_protocol::PROTOCOL_VERSION;

verus! {

/// How long a takeover may take before it is given up.
pub const PRECOMMIT_GRACE_MS: u128 = 30_000;

/// How a scan of a lifecycle begins.
#[derive(Clone, Copy, Debug, PartialEq, Eq, Structural)]
pub enum ScanStart {
    /// The lifecycle was never prepared: what is left of it is removed.
    RemoveInterrupted,
    /// The lifecycle is done: it is removed.
    RemoveDone,
    /// The server may have to be found first.
    Adopt,
    /// The lifecycle is judged.
    Judge,
}

/// How the scan of a readable record begins.
pub open spec fn scan_start(record: LifecycleRecordView) -> ScanStart {
    if record.phase == LifecyclePhase::Done {
        ScanStart::RemoveDone
    } else if record.phase == LifecyclePhase::Prepared && record.server is None {
        ScanStart::Adopt
    } else {
        ScanStart::Judge
    }
}

/// How the scan of a lifecycle begins.
pub fn begin_scan(read: &Result<LifecycleRecord, String>, present: bool) -> (r: Result<
    ScanStart,
    String,
>)
    ensures
        match read {
            Ok(record) => match record_fault(record@) {
                None => r == Ok::<ScanStart, String>(scan_start(record@)),
                Some(message) => if present {
                    fails_with(r, message)
                } else {
                    r == Ok::<ScanStart, String>(ScanStart::RemoveInterrupted)
                },
            },
            Err(message) => if present {
                fails_with(r, message@)
            } else {
                r == Ok::<ScanStart, String>(ScanStart::RemoveInterrupted)
            },
        },
{
    let record = match read {
        Err(message) => {
            return if present {
                Err(message.clone())
            } else {
                Ok(ScanStart::RemoveInterrupted)
            };
        },
        Ok(record) => record,
    };
    if let Err(message) = check_record(record) {
        return if present {
            Err(message)
        } else {
            Ok(ScanStart::RemoveInterrupted)
        };
    }
    if record.phase == LifecyclePhase::Done {
        Ok(ScanStart::RemoveDone)
    } else if record.phase == LifecyclePhase::Prepared && record.server.is_none() {
        Ok(ScanStart::Adopt)
    } else {
        Ok(ScanStart::Judge)
    }
}

/// What was read of a process in a search. `gone` says whether the process had
/// ended when the first of the readings failed.
pub struct ProcessGlimpse {
    pub pid: i32,
    /// What identifies the launch of the process, if it has that.
    pub nonce: Result<Option<String>, String>,
    pub identity: Result<ProcessIdentity, String>,
    pub parent: Result<i32, String>,
    pub gone: bool,
}

/// What a failed reading means: nothing, of a process that has ended.
pub open spec fn unreadable(gone: bool, message: Seq<char>) -> Result<
    Option<ProcessIdentityView>,
    Seq<char>,
> {
    if gone {
        Ok(None)
    } else {
        Err(message)
    }
}

/// Whether a process is the unregistered server of a record.
pub open spec fn adoptable(
    record: LifecycleRecordView,
    helper_alive: bool,
    glimpse: ProcessGlimpse,
) -> Result<Option<ProcessIdentityView>, Seq<char>> {
    if glimpse.pid == record.helper.pid {
        Ok(None)
    } else {
        match glimpse.nonce {
            Err(message) => unreadable(glimpse.gone, message@),
            Ok(nonce) => if opt_view(nonce) != Some(record.launch_nonce_sha256) {
                Ok(None)
            } else {
                match glimpse.identity {
                    Err(message) => unreadable(glimpse.gone, message@),
                    Ok(identity) => if identity@.executable != record.expected_server_executable
                        || identity@.command_sha256 != record.expected_server_command_sha256
                        || identity@.cwd != record.bundle_identity || identity@.cgroup
                        != record.target.location() {
                        Ok(None)
                    } else {
                        match glimpse.parent {
                            Err(message) => unreadable(glimpse.gone, message@),
                            Ok(parent) => if parent != record.helper.pid && !(parent == 1
                                && !helper_alive) {
                                Ok(None)
                            } else {
                                Ok(Some(identity@))
                            },
                        }
                    },
                }
            },
        }
    }
}

/// Whether a process is the worker of a spawn intent.
pub open spec fn intended_worker(
    record: LifecycleRecordView,
    worker: VmmWorkerRecordView,
    glimpse: ProcessGlimpse,
) -> Result<Option<ProcessIdentityView>, Seq<char>> {
    match glimpse.nonce {
        Err(message) => unreadable(glimpse.gone, message@),
        Ok(None) => Ok(None),
        Ok(Some(nonce)) => if hex(sha256(vstd::utf8::encode_utf8(nonce@)))
            != worker.launch_nonce_sha256 || nonce@.len() == 0 {
            Ok(None)
        } else {
            match glimpse.identity {
                Err(message) => unreadable(glimpse.gone, message@),
                Ok(identity) => if identity@.executable != worker.expected_executable {
                    Ok(None)
                } else {
                    match glimpse.parent {
                        Err(message) => unreadable(glimpse.gone, message@),
                        Ok(parent) => if record.server is Some && parent != record.server->0.pid
                            && parent != 1 {
                            Ok(None)
                        } else {
                            Ok(Some(identity@))
                        },
                    }
                },
            }
        },
    }
}

/// The one match of a search, from `from` on, after `found`; a second match is
/// an error.
pub open spec fn only_match(
    verdicts: Seq<Result<Option<ProcessIdentityView>, Seq<char>>>,
    from: int,
    found: Option<ProcessIdentityView>,
    several: Seq<char>,
) -> Result<Option<ProcessIdentityView>, Seq<char>>
    decreases verdicts.len() - from,
{
    if from < 0 || from >= verdicts.len() {
        Ok(found)
    } else {
        match verdicts[from] {
            Err(message) => Err(message),
            Ok(None) => only_match(verdicts, from + 1, found, several),
            Ok(Some(identity)) => if found is Some {
                Err(several)
            } else {
                only_match(verdicts, from + 1, Some(identity), several)
            },
        }
    }
}

/// What a search for a record's server makes of the processes.
pub open spec fn adoption_verdicts(
    record: LifecycleRecordView,
    helper_alive: bool,
    glimpses: Seq<ProcessGlimpse>,
) -> Seq<Result<Option<ProcessIdentityView>, Seq<char>>> {
    glimpses.map_values(|glimpse: ProcessGlimpse| adoptable(record, helper_alive, glimpse))
}

/// What a search for a record's worker makes of the processes.
pub open spec fn worker_verdicts(
    record: LifecycleRecordView,
    worker: VmmWorkerRecordView,
    glimpses: Seq<ProcessGlimpse>,
) -> Seq<Result<Option<ProcessIdentityView>, Seq<char>>> {
    glimpses.map_values(|glimpse: ProcessGlimpse| intended_worker(record, worker, glimpse))
}

/// A process that a search may have found.
pub open spec fn opt_process(found: Option<ProcessIdentity>) -> Option<ProcessIdentityView> {
    match found {
        Some(identity) => Some(identity@),
        None => None,
    }
}

/// The outcome of a search.
pub open spec fn search_outcome(r: Result<Option<ProcessIdentity>, String>) -> Result<
    Option<ProcessIdentityView>,
    Seq<char>,
> {
    match r {
        Ok(found) => Ok(opt_process(found)),
        Err(message) => Err(message@),
    }
}

fn skip_if_gone(gone: bool, message: &String) -> (r: Result<Option<ProcessIdentity>, String>)
    ensures
        search_outcome(r) == unreadable(gone, message@),
{
    if gone {
        Ok(None)
    } else {
        Err(message.clone())
    }
}

fn judge_adoption(record: &LifecycleRecord, helper_alive: bool, glimpse: &ProcessGlimpse) -> (r:
    Result<Option<ProcessIdentity>, String>)
    ensures
        search_outcome(r) == adoptable(record@, helper_alive, *glimpse),
{
    if glimpse.pid == record.helper.pid {
        return Ok(None);
    }
    match &glimpse.nonce {
        Err(message) => return skip_if_gone(glimpse.gone, message),
        Ok(None) => return Ok(None),
        Ok(Some(nonce)) => {
            if !text_eq(nonce.as_str(), record.launch_nonce_sha256.as_str()) {
                return Ok(None);
            }
        },
    }
    let identity = match &glimpse.identity {
        Err(message) => return skip_if_gone(glimpse.gone, message),
        Ok(identity) => identity,
    };
    if identity.executable != record.expected_server_executable || !text_eq(
        identity.command_sha256.as_str(),
        record.expected_server_command_sha256.as_str(),
    ) || identity.cwd != record.bundle_identity || !text_eq(
        identity.cgroup.as_str(),
        record.target.cgroup(),
    ) {
        return Ok(None);
    }
    match &glimpse.parent {
        Err(message) => skip_if_gone(glimpse.gone, message),
        Ok(parent) => if *parent != record.helper.pid && !(*parent == 1 && !helper_alive) {
            Ok(None)
        } else {
            Ok(Some(identity.clone()))
        },
    }
}

fn judge_worker(record: &LifecycleRecord, worker: &VmmWorkerRecord, glimpse: &ProcessGlimpse) -> (r:
    Result<Option<ProcessIdentity>, String>)
    ensures
        search_outcome(r) == intended_worker(record@, worker@, *glimpse),
{
    match &glimpse.nonce {
        Err(message) => return skip_if_gone(glimpse.gone, message),
        Ok(None) => return Ok(None),
        Ok(Some(nonce)) => {
            if !text_eq(
                sha256_hex(nonce.as_str().as_bytes()).as_str(),
                worker.launch_nonce_sha256.as_str(),
            ) || nonce.as_str().is_empty() {
                return Ok(None);
            }
        },
    }
    let identity = match &glimpse.identity {
        Err(message) => return skip_if_gone(glimpse.gone, message),
        Ok(identity) => identity,
    };
    if identity.executable != worker.expected_executable {
        return Ok(None);
    }
    match &glimpse.parent {
        Err(message) => skip_if_gone(glimpse.gone, message),
        Ok(parent) => {
            let elsewhere = match &record.server {
                None => false,
                Some(server) => *parent != server.pid && *parent != 1,
            };
            if elsewhere {
                Ok(None)
            } else {
                Ok(Some(identity.clone()))
            }
        },
    }
}

/// Finds the server of a record that started but was not registered.
pub fn find_unregistered_server(
    record: &LifecycleRecord,
    helper: &Result<ProcessObservation, String>,
    glimpses: &Vec<ProcessGlimpse>,
) -> (r: Result<Option<ProcessIdentity>, String>)
    ensures
        search_outcome(r) == (match seen(*helper) {
            Err(message) => Err(message),
            Ok(observed) => only_match(
                adoption_verdicts(record@, observed is Exact, glimpses@),
                0,
                None,
                "multiple processes match the unregistered server identity"@,
            ),
        }),
{
    let helper_alive = match crate::observe::immutable_process_is_live(helper) {
        Err(message) => return Err(message),
        Ok(alive) => alive,
    };
    let ghost verdicts = adoption_verdicts(record@, helper_alive, glimpses@);
    let ghost several = "multiple processes match the unregistered server identity"@;
    let mut candidate: Option<ProcessIdentity> = None;
    let mut i: usize = 0;
    while i < glimpses.len()
        invariant
            i <= glimpses.len(),
            seen(*helper) matches Ok(observed) && (observed is Exact) == helper_alive,
            verdicts == adoption_verdicts(record@, helper_alive, glimpses@),
            several == "multiple processes match the unregistered server identity"@,
            only_match(verdicts, 0, None, several) == only_match(
                verdicts,
                i as int,
                opt_process(candidate),
                several,
            ),
        decreases glimpses.len() - i,
    {
        assert(verdicts[i as int] == adoptable(record@, helper_alive, glimpses@[i as int]));
        match judge_adoption(record, helper_alive, &glimpses[i]) {
            Err(message) => return Err(message),
            Ok(None) => {},
            Ok(Some(identity)) => {
                if candidate.is_some() {
                    return Err(
                        "multiple processes match the unregistered server identity".to_owned(),
                    );
                }
                candidate = Some(identity);
            },
        }
        i = i + 1;
    }
    Ok(candidate)
}

/// Why the worker of a record is not consistent, if it is not.
pub open spec fn worker_record_fault(
    record: LifecycleRecordView,
    worker: VmmWorkerRecordView,
) -> Option<Seq<char>> {
    if worker.protocol_version != PROTOCOL_VERSION {
        Some(
            "cube-vmm-worker durable protocol version "@ + decimal(worker.protocol_version as nat)
                + " is not supported"@,
        )
    } else if worker.operation_epoch == 0 || worker.operation_epoch
        > record.operation_owner.epoch {
        Some(
            "cube-vmm-worker durable operation epoch "@ + decimal(worker.operation_epoch as nat)
                + " is inconsistent with owner epoch "@ + decimal(
                record.operation_owner.epoch as nat,
            ),
        )
    } else if worker.launch_nonce_sha256.len() == 0 {
        Some("cube-vmm-worker durable launch nonce is empty"@)
    } else if worker.state == VmmWorkerState::SpawnIntent && worker.identity is Some {
        Some("spawn INTENT cube-vmm-worker unexpectedly has an identity"@)
    } else if worker.state == VmmWorkerState::Allocated && worker.identity is None {
        Some("allocated cube-vmm-worker has no process identity"@)
    } else {
        None
    }
}

/// Checks that the worker of a record is consistent.
pub fn validate_vmm_worker_record(record: &LifecycleRecord, worker: &VmmWorkerRecord) -> (r: Result<
    (),
    String,
>)
    ensures
        passes_unless(r, worker_record_fault(record@, worker@)),
{
    if worker.protocol_version != PROTOCOL_VERSION {
        return Err(
            "cube-vmm-worker durable protocol version ".to_owned().concat(
                decimal_text(worker.protocol_version as u128).as_str(),
            ).concat(" is not supported"),
        );
    }
    if worker.operation_epoch == 0 || worker.operation_epoch > record.operation_owner.epoch {
        return Err(
            "cube-vmm-worker durable operation epoch ".to_owned().concat(
                decimal_text(worker.operation_epoch as u128).as_str(),
            ).concat(" is inconsistent with owner epoch ").concat(
                decimal_text(record.operation_owner.epoch as u128).as_str(),
            ),
        );
    }
    if worker.launch_nonce_sha256.as_str().is_empty() {
        return Err("cube-vmm-worker durable launch nonce is empty".to_owned());
    }
    match (worker.state, worker.identity.is_some()) {
        (VmmWorkerState::SpawnIntent, true) => Err(
            "spawn INTENT cube-vmm-worker unexpectedly has an identity".to_owned(),
        ),
        (VmmWorkerState::Allocated, false) => Err(
            "allocated cube-vmm-worker has no process identity".to_owned(),
        ),
        _ => Ok(()),
    }
}

/// The allocated worker that a record has to be watched with.
pub open spec fn watched_worker(record: LifecycleRecordView) -> Result<
    Option<ProcessIdentityView>,
    Seq<char>,
> {
    match record.vmm_worker {
        None => Ok(None),
        Some(worker) => match worker_record_fault(record, worker) {
            Some(message) => Err(message),
            None => if worker.state == VmmWorkerState::SpawnIntent {
                Ok(None)
            } else if worker.identity->0.executable != worker.expected_executable
                || worker.identity->0.cgroup != record.target.location() {
                Err("allocated cube-vmm-worker durable identity is invalid"@)
            } else {
                Ok(worker.identity)
            },
        },
    }
}

/// The allocated worker that a record has to be watched with.
pub fn allocated_vmm_worker(record: &LifecycleRecord) -> (r: Result<
    Option<ProcessIdentity>,
    String,
>)
    ensures
        search_outcome(r) == watched_worker(record@),
{
    let worker = match &record.vmm_worker {
        None => return Ok(None),
        Some(worker) => worker,
    };
    if let Err(message) = validate_vmm_worker_record(record, worker) {
        return Err(message);
    }
    if worker.state == VmmWorkerState::SpawnIntent {
        return Ok(None);
    }
    match &worker.identity {
        None => Err("allocated cube-vmm-worker has no process identity".to_owned()),
        Some(identity) => {
            if identity.executable != worker.expected_executable || !text_eq(
                identity.cgroup.as_str(),
                record.target.cgroup(),
            ) || worker.launch_nonce_sha256.as_str().is_empty() {
                return Err("allocated cube-vmm-worker durable identity is invalid".to_owned());
            }
            Ok(Some(identity.clone()))
        },
    }
}

/// The process of a spawn intent, if it was started.
pub open spec fn spawned_worker(
    record: LifecycleRecordView,
    worker: VmmWorkerRecordView,
    glimpses: Seq<ProcessGlimpse>,
) -> Result<Option<ProcessIdentityView>, Seq<char>> {
    if worker_record_fault(record, worker) is Some {
        Err(worker_record_fault(record, worker)->0)
    } else if worker.state != VmmWorkerState::SpawnIntent || worker.identity is Some {
        Err("cube-vmm-worker is not an unallocated spawn INTENT"@)
    } else {
        only_match(
            worker_verdicts(record, worker, glimpses),
            0,
            None,
            "multiple processes match cube-vmm-worker spawn INTENT"@,
        )
    }
}

/// Finds the process of a spawn intent, if it was started.
pub fn find_spawn_intent_vmm_worker(
    record: &LifecycleRecord,
    worker: &VmmWorkerRecord,
    glimpses: &Vec<ProcessGlimpse>,
) -> (r: Result<Option<ProcessIdentity>, String>)
    ensures
        search_outcome(r) == spawned_worker(record@, worker@, glimpses@),
{
    if let Err(message) = validate_vmm_worker_record(record, worker) {
        return Err(message);
    }
    if worker.state != VmmWorkerState::SpawnIntent || worker.identity.is_some() {
        return Err("cube-vmm-worker is not an unallocated spawn INTENT".to_owned());
    }
    let ghost verdicts = worker_verdicts(record@, worker@, glimpses@);
    let ghost several = "multiple processes match cube-vmm-worker spawn INTENT"@;
    let mut candidate: Option<ProcessIdentity> = None;
    let mut i: usize = 0;
    while i < glimpses.len()
        invariant
            i <= glimpses.len(),
            worker_record_fault(record@, worker@) is None,
            worker@.state == VmmWorkerState::SpawnIntent,
            worker@.identity is None,
            verdicts == worker_verdicts(record@, worker@, glimpses@),
            several == "multiple processes match cube-vmm-worker spawn INTENT"@,
            only_match(verdicts, 0, None, several) == only_match(
                verdicts,
                i as int,
                opt_process(candidate),
                several,
            ),
        decreases glimpses.len() - i,
    {
        assert(verdicts[i as int] == intended_worker(record@, worker@, glimpses@[i as int]));
        match judge_worker(record, worker, &glimpses[i]) {
            Err(message) => return Err(message),
            Ok(None) => {},
            Ok(Some(identity)) => {
                if candidate.is_some() {
                    return Err("multiple processes match cube-vmm-worker spawn INTENT".to_owned());
                }
                candidate = Some(identity);
            },
        }
        i = i + 1;
    }
    Ok(candidate)
}

/// The worker process that cleanup has to end.
pub open spec fn doomed_worker(record: LifecycleRecordView, glimpses: Seq<ProcessGlimpse>) -> Result<
    Option<ProcessIdentityView>,
    Seq<char>,
> {
    match record.vmm_worker {
        None => Ok(None),
        Some(worker) => if worker_record_fault(record, worker) is Some {
            Err(worker_record_fault(record, worker)->0)
        } else if worker.state == VmmWorkerState::SpawnIntent {
            spawned_worker(record, worker, glimpses)
        } else {
            Ok(worker.identity)
        },
    }
}

/// The worker process that cleanup has to end.
pub fn worker_to_terminate(record: &LifecycleRecord, glimpses: &Vec<ProcessGlimpse>) -> (r: Result<
    Option<ProcessIdentity>,
    String,
>)
    ensures
        search_outcome(r) == doomed_worker(record@, glimpses@),
{
    let worker = match &record.vmm_worker {
        None => return Ok(None),
        Some(worker) => worker,
    };
    if let Err(message) = validate_vmm_worker_record(record, worker) {
        return Err(message);
    }
    match worker.state {
        VmmWorkerState::SpawnIntent => find_spawn_intent_vmm_worker(record, worker, glimpses),
        VmmWorkerState::Allocated => match &worker.identity {
            None => Err("allocated cube-vmm-worker has no identity".to_owned()),
            Some(identity) => Ok(Some(identity.clone())),
        },
    }
}

/// Whether a worker outside its cgroup may be ended: its breach is durable.
pub open spec fn durable_worker_breach(
    record: LifecycleRecordView,
    worker: VmmWorkerRecordView,
    identity: ProcessIdentityView,
    containment_ok: bool,
) -> bool {
    worker.state == VmmWorkerState::Allocated && !containment_ok && identity.cgroup
        != record.target.location() && (record.containment_breach matches Some(breach)
        && breach.cgroup == identity.cgroup)
}

/// Whether a worker process has to be signalled, and if so whether a breach of
/// its containment is allowed.
pub open spec fn worker_termination(
    record: LifecycleRecordView,
    worker: VmmWorkerRecordView,
    found: ObservationView,
    nonce: Result<Option<String>, String>,
) -> Result<Option<bool>, Seq<char>> {
    match found {
        ObservationView::Exact { identity, containment_ok } => {
            let breach = durable_worker_breach(record, worker, identity, containment_ok);
            if worker.state == VmmWorkerState::SpawnIntent && nonce is Err {
                Err(nonce->Err_0@)
            } else if worker.state == VmmWorkerState::SpawnIntent && nonce->Ok_0 is None {
                Err("spawn INTENT worker lost its launch nonce"@)
            } else if worker.state == VmmWorkerState::SpawnIntent && hex(
                sha256(vstd::utf8::encode_utf8(nonce->Ok_0->0@)),
            ) != worker.launch_nonce_sha256 {
                Err("spawn INTENT worker nonce changed before termination"@)
            } else if identity.executable != worker.expected_executable {
                Err("cube-vmm-worker executable changed before termination"@)
            } else if worker.state == VmmWorkerState::Allocated && (!containment_ok
                || identity.cgroup != record.target.location()) && !breach {
                Err("refuse to terminate allocated cube-vmm-worker outside its durable cgroup"@)
            } else {
                Ok(Some(breach))
            }
        },
        _ => Ok(None),
    }
}

/// Whether a worker process has to be signalled, and if so whether a breach of
/// its containment is allowed.
pub fn decide_worker_termination(
    record: &LifecycleRecord,
    worker: &VmmWorkerRecord,
    found: &ProcessObservation,
    nonce: &Result<Option<String>, String>,
) -> (r: Result<Option<bool>, String>)
    ensures
        match worker_termination(record@, worker@, found@, *nonce) {
            Err(message) => fails_with(r, message),
            Ok(signal) => r == Ok::<Option<bool>, String>(signal),
        },
{
    let (identity, containment_ok) = match found {
        ProcessObservation::Exact { identity, containment_ok } => (identity, *containment_ok),
        _ => return Ok(None),
    };
    if worker.state == VmmWorkerState::SpawnIntent {
        match nonce {
            Err(message) => return Err(message.clone()),
            Ok(None) => return Err("spawn INTENT worker lost its launch nonce".to_owned()),
            Ok(Some(nonce)) => {
                if !text_eq(
                    sha256_hex(nonce.as_str().as_bytes()).as_str(),
                    worker.launch_nonce_sha256.as_str(),
                ) {
                    return Err(
                        "spawn INTENT worker nonce changed before termination".to_owned(),
                    );
                }
            },
        }
    }
    if identity.executable != worker.expected_executable {
        return Err("cube-vmm-worker executable changed before termination".to_owned());
    }
    let target_breach = !text_eq(identity.cgroup.as_str(), record.target.cgroup());
    let recorded = match &record.containment_breach {
        None => false,
        Some(breach) => text_eq(breach.cgroup.as_str(), identity.cgroup.as_str()),
    };
    let allow_durable_breach = worker.state == VmmWorkerState::Allocated && !containment_ok
        && target_breach && recorded;
    if worker.state == VmmWorkerState::Allocated && (!containment_ok || target_breach)
        && !allow_durable_breach {
        return Err(
            "refuse to terminate allocated cube-vmm-worker outside its durable cgroup".to_owned(),
        );
    }
    Ok(Some(allow_durable_breach))
}

/// What the watchdog sees of a lifecycle.
pub struct ScanFacts {
    pub helper: Result<ProcessObservation, String>,
    /// The registered server, if there is one.
    pub server: Option<Result<ProcessObservation, String>>,
    /// The allocated worker, if there is one.
    pub worker: Result<Option<ProcessObservation>, String>,
    pub now: Result<u128, String>,
    /// The time at which the failure of a Create is judged.
    pub later: Result<u128, String>,
    /// The target's directories and the server's cgroup.
    pub target: TargetSighting,
    pub cgroup: Result<String, String>,
}

/// What the watchdog concludes of a lifecycle.
#[derive(Debug, PartialEq, Eq)]
pub enum ScanVerdict {
    /// Cleanup is requested, with the cgroup in which a process was found.
    Cleanup { reason: String, observed: Option<String> },
    /// The failure of the Create is published for its caller.
    Publish { code: String, message: String, observed: Option<String> },
    /// All is well, or the server answers for it.
    Settled,
    /// Nothing new; cleanup that was requested goes on.
    Proceed,
}

/// The contents of a [`ScanVerdict`].
pub enum ScanVerdictView {
    Cleanup { reason: Seq<char>, observed: Option<Seq<char>> },
    Publish { code: Seq<char>, message: Seq<char>, observed: Option<Seq<char>> },
    Settled,
    Proceed,
}

impl View for ScanVerdict {
    type V = ScanVerdictView;

    open spec fn view(&self) -> ScanVerdictView {
        match self {
            ScanVerdict::Cleanup { reason, observed } => ScanVerdictView::Cleanup {
                reason: reason@,
                observed: opt_view(*observed),
            },
            ScanVerdict::Publish { code, message, observed } => ScanVerdictView::Publish {
                code: code@,
                message: message@,
                observed: opt_view(*observed),
            },
            ScanVerdict::Settled => ScanVerdictView::Settled,
            ScanVerdict::Proceed => ScanVerdictView::Proceed,
        }
    }
}

/// The time that has passed since an earlier one.
pub open spec fn elapsed(now: u128, since: u128) -> int {
    if now >= since {
        now - since
    } else {
        0
    }
}

/// Whether the recorded process has ended.
pub open spec fn is_dead(found: Option<ObservationView>) -> bool {
    found matches Some(observed) && !(observed is Exact)
}

/// The cgroup in which a process was found outside its recorded one.
pub open spec fn found_outside(found: Option<ObservationView>) -> Option<Seq<char>> {
    match found {
        Some(ObservationView::Exact { identity, containment_ok: false }) => Some(identity.cgroup),
        _ => None,
    }
}

/// The verdict on a lifecycle whose takeover has not begun.
pub open spec fn bootstrap_verdict(
    record: LifecycleRecordView,
    helper_alive: bool,
    server: Option<ObservationView>,
    now: u128,
) -> ScanVerdictView {
    let abandoned = if record.phase == LifecyclePhase::SocketReady {
        elapsed(now, record.created_at_ms) >= PRECOMMIT_GRACE_MS
    } else {
        !helper_alive
    };
    if found_outside(server) is Some {
        ScanVerdictView::Cleanup {
            reason: "pre-commit server containment breach"@,
            observed: found_outside(server),
        }
    } else if abandoned {
        ScanVerdictView::Cleanup {
            reason: "pre-commit helper died or timed out"@,
            observed: None,
        }
    } else {
        ScanVerdictView::Proceed
    }
}

/// The cgroup in which a claimed lifecycle's worker or server was found though
/// it must not be there.
pub open spec fn invalid_containment(
    record: LifecycleRecordView,
    server: Option<ObservationView>,
    worker: Option<ObservationView>,
) -> Option<Seq<char>> {
    if found_outside(worker) is Some {
        found_outside(worker)
    } else {
        match found_outside(server) {
            Some(observed) if record.phase != LifecyclePhase::TakeoverClaimed || !takeover_allows(
                record,
                observed,
            ) => Some(observed),
            _ => None,
        }
    }
}

/// Whether a takeover has lasted too long.
pub open spec fn claim_timed_out(record: LifecycleRecordView, now: u128) -> bool {
    record.phase == LifecyclePhase::TakeoverClaimed && (
    record.takeover_claimed_at_ms matches Some(since) && elapsed(now, since)
        >= PRECOMMIT_GRACE_MS)
}

/// The verdict on a lifecycle that a takeover has claimed.
pub open spec fn claimed_verdict(
    record: LifecycleRecordView,
    server: Option<ObservationView>,
    worker: Option<ObservationView>,
    now: u128,
    facts: ScanFacts,
) -> Result<ScanVerdictView, Seq<char>> {
    let invalid = invalid_containment(record, server, worker);
    let timed_out = claim_timed_out(record, now);
    let fault = is_dead(server) || timed_out || invalid is Some;
    let ready = if record.create_state == CreateState::Failed {
        failure_ready(record, facts.later)
    } else {
        Ok(false)
    };
    if ready is Err {
        Err(ready->Err_0)
    } else if fault && record.create_state == CreateState::InProgress {
        Ok(
            if is_dead(server) {
                ScanVerdictView::Publish {
                    code: "INTERNAL"@,
                    message: "CubeShim server exited during Create"@,
                    observed: invalid,
                }
            } else if invalid is Some {
                ScanVerdictView::Publish {
                    code: "INTERNAL"@,
                    message: "CubeShim or cube-vmm-worker left the claimed Host cgroup"@,
                    observed: invalid,
                }
            } else {
                ScanVerdictView::Publish {
                    code: "DEADLINE_EXCEEDED"@,
                    message: "Host placement claim timed out"@,
                    observed: invalid,
                }
            },
        )
    } else if ready->Ok_0 || (fault && (record.create_state == CreateState::Succeeded
        || record.create_state == CreateState::Unstarted)) {
        Ok(
            ScanVerdictView::Cleanup {
                reason: if invalid is Some {
                    "committed CubeShim or cube-vmm-worker containment breach"@
                } else if is_dead(server) {
                    "committed server exited"@
                } else if timed_out {
                    "Host placement claim timed out"@
                } else {
                    "Create RPC failed and drained"@
                },
                observed: invalid,
            },
        )
    } else if record.phase == LifecyclePhase::ContainerdCommitted {
        Ok(monitored_verdict(record, server, facts))
    } else {
        Ok(ScanVerdictView::Proceed)
    }
}

/// The verdict on a committed lifecycle that shows no other fault: its server
/// has to be a member of the target.
pub open spec fn monitored_verdict(
    record: LifecycleRecordView,
    server: Option<ObservationView>,
    facts: ScanFacts,
) -> ScanVerdictView {
    match server {
        Some(ObservationView::Exact { identity, containment_ok: true }) => match membership_fault(
            record.target,
            identity.pid as int,
            facts.target,
            facts.cgroup,
        ) {
            None => ScanVerdictView::Settled,
            Some(error) => {
                let message = "committed Host target monitoring failed: "@ + error;
                if record.create_state == CreateState::InProgress {
                    ScanVerdictView::Publish { code: "INTERNAL"@, message, observed: None }
                } else {
                    ScanVerdictView::Cleanup { reason: message, observed: None }
                }
            },
        },
        _ => ScanVerdictView::Settled,
    }
}

/// An observation that was made, if any was due.
pub open spec fn opt_seen(found: Option<ProcessObservation>) -> Option<ObservationView> {
    match found {
        None => None,
        Some(observed) => Some(observed@),
    }
}

/// The observation of the server, if one was due.
pub open spec fn server_seen(server: Option<Result<ProcessObservation, String>>) -> Result<
    Option<ObservationView>,
    Seq<char>,
> {
    match server {
        None => Ok(None),
        Some(found) => match seen(found) {
            Err(message) => Err(message),
            Ok(observed) => Ok(Some(observed)),
        },
    }
}

/// The watchdog's verdict on a lifecycle.
pub open spec fn scan_verdict(record: LifecycleRecordView, facts: ScanFacts) -> Result<
    ScanVerdictView,
    Seq<char>,
> {
    match seen(facts.helper) {
        Err(message) => Err(message),
        Ok(helper) => match server_seen(facts.server) {
            Err(message) => Err(message),
            Ok(server) => match facts.worker {
                Err(message) => Err(message@),
                Ok(worker) => match facts.now {
                    Err(message) => Err(message@),
                    Ok(now) => if record.phase == LifecyclePhase::Prepared || record.phase
                        == LifecyclePhase::ServerIdentified || record.phase
                        == LifecyclePhase::SocketReady {
                        Ok(bootstrap_verdict(record, helper is Exact, server, now))
                    } else if is_claimed(record.phase) {
                        claimed_verdict(record, server, opt_seen(worker), now, facts)
                    } else {
                        Ok(ScanVerdictView::Proceed)
                    },
                },
            },
        },
    }
}

fn outside(found: &Option<&ProcessObservation>) -> (r: Option<String>)
    ensures
        opt_view(r) == found_outside(
            match found {
                None => None,
                Some(observed) => Some(observed@),
            },
        ),
{
    match found {
        Some(ProcessObservation::Exact { identity, containment_ok }) => if *containment_ok {
            None
        } else {
            Some(identity.cgroup.clone())
        },
        _ => None,
    }
}

fn past_grace(now: u128, since: u128) -> (r: bool)
    ensures
        r == (elapsed(now, since) >= PRECOMMIT_GRACE_MS),
{
    now >= since && now - since >= PRECOMMIT_GRACE_MS
}

fn verdict_on_bootstrap(
    record: &LifecycleRecord,
    helper_alive: bool,
    server: &Option<&ProcessObservation>,
    now: u128,
) -> (verdict: ScanVerdict)
    ensures
        verdict@ == bootstrap_verdict(
            record@,
            helper_alive,
            match server {
                None => None,
                Some(observed) => Some(observed@),
            },
            now,
        ),
{
    let breach = outside(server);
    if breach.is_some() {
        return ScanVerdict::Cleanup {
            reason: "pre-commit server containment breach".to_owned(),
            observed: breach,
        };
    }
    let abandoned = if record.phase == LifecyclePhase::SocketReady {
        past_grace(now, record.created_at_ms)
    } else {
        !helper_alive
    };
    if abandoned {
        ScanVerdict::Cleanup {
            reason: "pre-commit helper died or timed out".to_owned(),
            observed: None,
        }
    } else {
        ScanVerdict::Proceed
    }
}

fn verdict_on_monitoring(
    record: &LifecycleRecord,
    server: &Option<&ProcessObservation>,
    facts: &ScanFacts,
) -> (verdict: ScanVerdict)
    ensures
        verdict@ == monitored_verdict(
            record@,
            match server {
                None => None,
                Some(observed) => Some(observed@),
            },
            *facts,
        ),
{
    let identity = match server {
        Some(ProcessObservation::Exact { identity, containment_ok }) => {
            if !*containment_ok {
                return ScanVerdict::Settled;
            }
            identity
        },
        _ => return ScanVerdict::Settled,
    };
    match verify_target_membership(&record.target, identity.pid, &facts.target, &facts.cgroup) {
        Ok(()) => ScanVerdict::Settled,
        Err(error) => {
            let message = "committed Host target monitoring failed: ".to_owned().concat(
                error.as_str(),
            );
            if record.create_state == CreateState::InProgress {
                ScanVerdict::Publish { code: "INTERNAL".to_owned(), message, observed: None }
            } else {
                ScanVerdict::Cleanup { reason: message, observed: None }
            }
        },
    }
}

fn verdict_on_claimed(
    record: &LifecycleRecord,
    server: &Option<&ProcessObservation>,
    worker: &Option<&ProcessObservation>,
    now: u128,
    facts: &ScanFacts,
) -> (r: Result<ScanVerdict, String>)
    ensures
        match claimed_verdict(
            record@,
            match server {
                None => None,
                Some(observed) => Some(observed@),
            },
            match worker {
                None => None,
                Some(observed) => Some(observed@),
            },
            now,
            *facts,
        ) {
            Err(message) => fails_with(r, message),
            Ok(verdict) => r matches Ok(found) && found@ == verdict,
        },
{
    let server_dead = match server {
        Some(ProcessObservation::Gone) => true,
        Some(ProcessObservation::Reused) => true,
        _ => false,
    };
    let worker_breach = outside(worker);
    let invalid = if worker_breach.is_some() {
        worker_breach
    } else {
        match outside(server) {
            None => None,
            Some(observed) => if record.phase != LifecyclePhase::TakeoverClaimed
                || !takeover_cgroup_allowed(record, observed.as_str()) {
                Some(observed)
            } else {
                None
            },
        }
    };
    let timed_out = record.phase == LifecyclePhase::TakeoverClaimed
        && match record.takeover_claimed_at_ms {
        None => false,
        Some(since) => past_grace(now, since),
    };
    let fault = server_dead || timed_out || invalid.is_some();
    let ready = if record.create_state == CreateState::Failed {
        match create_failure_cleanup_ready(record, &facts.later) {
            Err(message) => return Err(message),
            Ok(ready) => ready,
        }
    } else {
        false
    };
    if fault && record.create_state == CreateState::InProgress {
        let (code, message) = if server_dead {
            ("INTERNAL", "CubeShim server exited during Create")
        } else if invalid.is_some() {
            ("INTERNAL", "CubeShim or cube-vmm-worker left the claimed Host cgroup")
        } else {
            ("DEADLINE_EXCEEDED", "Host placement claim timed out")
        };
        return Ok(
            ScanVerdict::Publish {
                code: code.to_owned(),
                message: message.to_owned(),
                observed: invalid,
            },
        );
    }
    if ready || (fault && (record.create_state == CreateState::Succeeded || record.create_state
        == CreateState::Unstarted)) {
        let reason = if invalid.is_some() {
            "committed CubeShim or cube-vmm-worker containment breach"
        } else if server_dead {
            "committed server exited"
        } else if timed_out {
            "Host placement claim timed out"
        } else {
            "Create RPC failed and drained"
        };
        return Ok(ScanVerdict::Cleanup { reason: reason.to_owned(), observed: invalid });
    }
    if record.phase == LifecyclePhase::ContainerdCommitted {
        return Ok(verdict_on_monitoring(record, server, facts));
    }
    Ok(ScanVerdict::Proceed)
}

/// The watchdog's verdict on a lifecycle.
pub fn scan_lifecycle(record: &LifecycleRecord, facts: &ScanFacts) -> (r: Result<
    ScanVerdict,
    String,
>)
    ensures
        match scan_verdict(record@, *facts) {
            Err(message) => fails_with(r, message),
            Ok(verdict) => r matches Ok(found) && found@ == verdict,
        },
{
    let helper_alive = match crate::observe::immutable_process_is_live(&facts.helper) {
        Err(message) => return Err(message),
        Ok(alive) => alive,
    };
    let server = match &facts.server {
        None => None,
        Some(Err(message)) => return Err(message.clone()),
        Some(Ok(observed)) => Some(observed),
    };
    let worker = match &facts.worker {
        Err(message) => return Err(message.clone()),
        Ok(None) => None,
        Ok(Some(observed)) => Some(observed),
    };
    let now: u128 = match &facts.now {
        Err(message) => return Err(message.clone()),
        Ok(now) => *now,
    };
    match record.phase {
        LifecyclePhase::Prepared | LifecyclePhase::ServerIdentified | LifecyclePhase::SocketReady => {
            Ok(verdict_on_bootstrap(record, helper_alive, &server, now))
        },
        LifecyclePhase::TakeoverClaimed | LifecyclePhase::ContainerdCommitted => {
            verdict_on_claimed(record, &server, &worker, now, facts)
        },
        _ => Ok(ScanVerdict::Proceed),
    }
}

/// How a scan ends.
#[derive(Clone, Copy, Debug, PartialEq, Eq, Structural)]
pub struct ScanEnd {
    /// Whether the record changed; the reason of a cleanup is then kept beside
    /// it.
    pub changed: bool,
    /// Whether cleanup has to go on.
    pub converge: bool,
}

/// What a verdict makes of the record.
pub open spec fn verdict_applied(
    record: LifecycleRecordView,
    snapshot: LifecycleRecordView,
    verdict: ScanVerdictView,
    observed: Option<ContainmentIdentity>,
    now: Result<u128, String>,
) -> Result<Option<LifecycleRecordView>, Seq<char>> {
    match verdict {
        ScanVerdictView::Cleanup { .. } => scanner_cleanup(
            record,
            snapshot,
            opt_breach(observed),
            now,
        ),
        ScanVerdictView::Publish { code, message, .. } => scanner_failure(
            record,
            snapshot,
            code,
            message,
            opt_breach(observed),
            now,
        ),
        _ => Ok(None),
    }
}

/// What the adoption of a server that was not registered leads to.
pub open spec fn adoption(
    record: LifecycleRecordView,
    helper: Result<ProcessObservation, String>,
    glimpses: Seq<ProcessGlimpse>,
    executable: Result<String, String>,
) -> Result<(bool, LifecycleRecordView), Seq<char>> {
    match seen(helper) {
        Err(message) => Err(message),
        Ok(observed) => match only_match(
            adoption_verdicts(record, observed is Exact, glimpses),
            0,
            None,
            "multiple processes match the unregistered server identity"@,
        ) {
            Err(message) => Err(message),
            Ok(None) => Ok((false, record)),
            Ok(Some(identity)) => match server_registration(
                record,
                identity,
                record.launch_nonce_sha256,
                executable,
            ) {
                Err(message) => Err(message),
                Ok(None) => Ok((true, record)),
                Ok(Some(next)) => Ok((true, next)),
            },
        },
    }
}

impl LifecycleHandle {
    /// Registers the server that started but was not registered, if there is
    /// one. The executable's path is that of the process that was found.
    pub fn adopt_unregistered_server(
        &mut self,
        helper: &Result<ProcessObservation, String>,
        glimpses: &Vec<ProcessGlimpse>,
        executable: &Result<String, String>,
    ) -> (r: Result<bool, String>)
        ensures
            match adoption(old(self)@.record, *helper, glimpses@, *executable) {
                Err(message) => fails_with(r, message) && final(self)@ == old(self)@,
                Ok((adopted, record)) => r == Ok::<bool, String>(adopted) && final(self)@ == (
                LifecycleView { record, ..old(self)@ }),
            },
    {
        match find_unregistered_server(&self.record, helper, glimpses) {
            Err(message) => Err(message),
            Ok(None) => Ok(false),
            Ok(Some(identity)) => {
                let nonce_hash = self.record.launch_nonce_sha256.clone();
                match self.register_server_identity(identity, nonce_hash.as_str(), executable) {
                    Err(message) => Err(message),
                    Ok(_) => Ok(true),
                }
            },
        }
    }

    /// Applies a verdict that was reached on an earlier reading of the record;
    /// a record that has changed since is left alone.
    pub fn apply_verdict(
        &mut self,
        snapshot: &LifecycleRecord,
        verdict: &ScanVerdict,
        observed: Option<ContainmentIdentity>,
        now: &Result<u128, String>,
    ) -> (r: Result<ScanEnd, String>)
        ensures
            match verdict_applied(old(self)@.record, snapshot@, verdict@, observed, *now) {
                Err(message) => fails_with(r, message) && final(self)@ == old(self)@,
                Ok(next) => {
                    let record = match next {
                        Some(changed) => changed,
                        None => old(self)@.record,
                    };
                    &&& final(self)@ == (LifecycleView { record, ..old(self)@ })
                    &&& r == Ok::<ScanEnd, String>(
                        ScanEnd {
                            changed: next is Some,
                            converge: !(verdict@ is Settled) && is_cleaning(record.phase),
                        },
                    )
                },
            },
    {
        let changed = match verdict {
            ScanVerdict::Cleanup { .. } => match self.scanner_request_cleanup_if_current(
                snapshot,
                observed,
                now,
            ) {
                Err(message) => return Err(message),
                Ok(changed) => changed,
            },
            ScanVerdict::Publish { code, message, .. } => {
                match self.scanner_publish_failure_if_current(
                    snapshot,
                    code.as_str(),
                    message.as_str(),
                    observed,
                    now,
                ) {
                    Err(message) => return Err(message),
                    Ok(changed) => changed,
                }
            },
            ScanVerdict::Settled => return Ok(ScanEnd { changed: false, converge: false }),
            ScanVerdict::Proceed => false,
        };
        Ok(ScanEnd { changed, converge: cleaning(self.record.phase) })
    }
}

/// The watchdog never requests cleanup of a Create that is in progress: it
/// publishes the failure first.
pub proof fn law_running_create_is_failed_before_cleanup(
    record: LifecycleRecordView,
    facts: ScanFacts,
)
    requires
        is_claimed(record.phase),
        record.create_state == CreateState::InProgress,
    ensures
        !(scan_verdict(record, facts) matches Ok(ScanVerdictView::Cleanup { .. })),
{
}

/// The death of a server is never overlooked: a Create in progress is failed
/// with an internal error, a finished one is cleaned up.
pub proof fn law_dead_server_is_noticed(record: LifecycleRecordView, facts: ScanFacts, now: u128)
    requires
        is_claimed(record.phase),
        record.create_state != CreateState::Failed,
        seen(facts.helper) is Ok,
        server_seen(facts.server) matches Ok(server) && is_dead(server),
        facts.worker is Ok,
        facts.now == Ok::<u128, String>(now),
    ensures
        record.create_state == CreateState::InProgress ==> (scan_verdict(record, facts) matches Ok(
            ScanVerdictView::Publish { code, message, .. },
        ) && code == "INTERNAL"@ && message == "CubeShim server exited during Create"@),
        record.create_state != CreateState::InProgress ==> (scan_verdict(record, facts) matches Ok(
            ScanVerdictView::Cleanup { .. },
        )),
{
}

/// A committed sandbox whose server is in its place and whose worker is not
/// astray is left alone.
pub proof fn law_healthy_sandbox_is_left_alone(
    record: LifecycleRecordView,
    facts: ScanFacts,
    identity: ProcessIdentityView,
    worker: Option<ProcessObservation>,
    now: u128,
)
    requires
        record.phase == LifecyclePhase::ContainerdCommitted,
        record.create_state != CreateState::Failed,
        seen(facts.helper) is Ok,
        server_seen(facts.server) == Ok::<Option<ObservationView>, Seq<char>>(
            Some(ObservationView::Exact { identity, containment_ok: true }),
        ),
        facts.worker == Ok::<Option<ProcessObservation>, String>(worker),
        found_outside(opt_seen(worker)) is None,
        facts.now == Ok::<u128, String>(now),
        membership_fault(record.target, identity.pid as int, facts.target, facts.cgroup) is None,
    ensures
        scan_verdict(record, facts) == Ok::<ScanVerdictView, Seq<char>>(ScanVerdictView::Settled),
{
}

/// A search never settles on one of several matches.
pub proof fn law_search_finds_the_only_match(
    verdicts: Seq<Result<Option<ProcessIdentityView>, Seq<char>>>,
    several: Seq<char>,
    i: int,
    j: int,
)
    requires
        0 <= i < j < verdicts.len(),
        verdicts[i] matches Ok(Some(_)),
        verdicts[j] matches Ok(Some(_)),
    ensures
        only_match(verdicts, 0, None, several) is Err,
{
    lemma_first_match(verdicts, 0, None, several, i, j);
}

proof fn lemma_first_match(
    verdicts: Seq<Result<Option<ProcessIdentityView>, Seq<char>>>,
    from: int,
    found: Option<ProcessIdentityView>,
    several: Seq<char>,
    i: int,
    j: int,
)
    requires
        0 <= from <= j < verdicts.len(),
        from <= i || found is Some,
        i < j,
        0 <= i,
        verdicts[i] matches Ok(Some(_)),
        verdicts[j] matches Ok(Some(_)),
    ensures
        only_match(verdicts, from, found, several) is Err,
    decreases verdicts.len() - from,
{
    match verdicts[from] {
        Err(message) => {},
        Ok(None) => {
            lemma_first_match(verdicts, from + 1, found, several, i, j);
        },
        Ok(Some(identity)) => {
            if found is None {
                lemma_first_match(verdicts, from + 1, Some(identity), several, i, j);
            }
        },
    }
}

/// A start that is in progress is left alone while its helper lives, and is
/// cleaned up once its helper has ended; a bound socket that no takeover claims
/// has thirty seconds, whatever becomes of the helper.
pub proof fn law_start_in_progress_is_left_alone(
    record: LifecycleRecordView,
    facts: ScanFacts,
    helper: ProcessObservation,
    server: Option<ProcessObservation>,
    now: u128,
)
    requires
        facts.helper == Ok::<ProcessObservation, String>(helper),
        match server {
            None => facts.server is None,
            Some(found) => facts.server == Some(Ok::<ProcessObservation, String>(found)),
        },
        !(server matches Some(ProcessObservation::Exact { containment_ok: false, .. })),
        facts.worker is Ok,
        facts.now == Ok::<u128, String>(now),
    ensures
        record.phase == LifecyclePhase::Prepared || record.phase
            == LifecyclePhase::ServerIdentified ==> match helper {
            ProcessObservation::Exact { .. } => scan_verdict(record, facts) matches Ok(
                ScanVerdictView::Proceed,
            ),
            _ => scan_verdict(record, facts) matches Ok(
                ScanVerdictView::Cleanup { reason, observed },
            ) && reason == "pre-commit helper died or timed out"@ && observed is None,
        },
        record.phase == LifecyclePhase::SocketReady && now - record.created_at_ms < 30_000 ==> (
        scan_verdict(record, facts) matches Ok(ScanVerdictView::Proceed)),
        record.phase == LifecyclePhase::SocketReady && now - record.created_at_ms >= 30_000 ==> (
        scan_verdict(record, facts) matches Ok(ScanVerdictView::Cleanup { reason, observed })
            && reason == "pre-commit helper died or timed out"@ && observed is None),
{
}

/// A server that is seen outside its cgroup before a takeover is cleaned up at
/// once, and the cgroup in which it was seen is kept.
pub proof fn law_stray_server_is_cleaned_up_before_commit(
    record: LifecycleRecordView,
    facts: ScanFacts,
    identity: ProcessIdentity,
)
    requires
        record.phase == LifecyclePhase::Prepared || record.phase
            == LifecyclePhase::ServerIdentified || record.phase == LifecyclePhase::SocketReady,
        facts.helper is Ok,
        facts.server == Some(
            Ok::<ProcessObservation, String>(
                ProcessObservation::Exact { identity, containment_ok: false },
            ),
        ),
        facts.worker is Ok,
        facts.now is Ok,
    ensures
        scan_verdict(record, facts) matches Ok(ScanVerdictView::Cleanup { reason, observed })
            && reason == "pre-commit server containment breach"@ && observed == Some(
            identity.cgroup@,
        ),
{
}

/// A takeover has thirty seconds: one that lasts longer fails its Create with
/// an exceeded deadline, and one that does not is left alone. A Host that is
/// committed has no such deadline.
pub proof fn law_takeover_has_thirty_seconds(
    record: LifecycleRecordView,
    facts: ScanFacts,
    server: ProcessIdentity,
    since: u128,
    now: u128,
)
    requires
        record.phase == LifecyclePhase::TakeoverClaimed,
        record.takeover_claimed_at_ms == Some(since),
        facts.helper is Ok,
        facts.server == Some(
            Ok::<ProcessObservation, String>(
                ProcessObservation::Exact { identity: server, containment_ok: true },
            ),
        ),
        facts.worker matches Ok(None),
        facts.now == Ok::<u128, String>(now),
    ensures
        record.create_state != CreateState::Failed && now - since < 30_000 ==> (scan_verdict(
            record,
            facts,
        ) matches Ok(ScanVerdictView::Proceed)),
        record.create_state == CreateState::InProgress && now - since >= 30_000 ==> (scan_verdict(
            record,
            facts,
        ) matches Ok(ScanVerdictView::Publish { code, message, observed }) && code
            == "DEADLINE_EXCEEDED"@ && message == "Host placement claim timed out"@
            && observed is None),
        record.create_state == CreateState::Succeeded && now - since >= 30_000 ==> (scan_verdict(
            record,
            facts,
        ) matches Ok(ScanVerdictView::Cleanup { reason, observed }) && reason
            == "Host placement claim timed out"@ && observed is None),
{
}

/// A worker that is seen outside its cgroup is never overlooked, whether its
/// server lives or not; the cgroup in which it was seen is kept.
pub proof fn law_stray_worker_is_noticed(
    record: LifecycleRecordView,
    facts: ScanFacts,
    worker: ProcessIdentity,
)
    requires
        record.phase == LifecyclePhase::TakeoverClaimed || record.phase
            == LifecyclePhase::ContainerdCommitted,
        facts.helper is Ok,
        !(facts.server matches Some(Err(_))),
        facts.worker == Ok::<Option<ProcessObservation>, String>(
            Some(ProcessObservation::Exact { identity: worker, containment_ok: false }),
        ),
        facts.now is Ok,
    ensures
        record.create_state == CreateState::InProgress ==> (scan_verdict(record, facts) matches Ok(
            ScanVerdictView::Publish { code, observed, .. },
        ) && code == "INTERNAL"@ && observed == Some(worker.cgroup@)),
        record.create_state == CreateState::InProgress && facts.server is None ==> (scan_verdict(
            record,
            facts,
        )->Ok_0->message == "CubeShim or cube-vmm-worker left the claimed Host cgroup"@),
        record.create_state == CreateState::Succeeded || record.create_state
            == CreateState::Unstarted ==> (scan_verdict(record, facts) matches Ok(
            ScanVerdictView::Cleanup { reason, observed },
        ) && reason == "committed CubeShim or cube-vmm-worker containment breach"@ && observed
            == Some(worker.cgroup@)),
{
}

/// A committed server must not leave its cgroup. While its takeover lasts, it
/// may also be where it was started or, for a managed sandbox, in its target.
pub proof fn law_stray_server_is_noticed(
    record: LifecycleRecordView,
    facts: ScanFacts,
    server: ProcessIdentity,
    now: u128,
)
    requires
        record.phase == LifecyclePhase::TakeoverClaimed || record.phase
            == LifecyclePhase::ContainerdCommitted,
        facts.helper is Ok,
        facts.server == Some(
            Ok::<ProcessObservation, String>(
                ProcessObservation::Exact { identity: server, containment_ok: false },
            ),
        ),
        facts.worker matches Ok(None),
        facts.now == Ok::<u128, String>(now),
    ensures
        ({
            let at_home = server.cgroup@ == record.helper.cgroup;
            let in_target = record.classification == crate::record::Classification::ManagedSandbox
                && server.cgroup@ == record.target.location();
            let tolerated = record.phase == LifecyclePhase::TakeoverClaimed && (at_home
                || in_target);
            &&& !tolerated && record.create_state == CreateState::InProgress ==> (scan_verdict(
                record,
                facts,
            ) matches Ok(ScanVerdictView::Publish { code, message, observed }) && code
                == "INTERNAL"@ && message
                == "CubeShim or cube-vmm-worker left the claimed Host cgroup"@ && observed == Some(
                server.cgroup@,
            ))
            &&& !tolerated && record.create_state == CreateState::Succeeded ==> (scan_verdict(
                record,
                facts,
            ) matches Ok(ScanVerdictView::Cleanup { reason, observed }) && reason
                == "committed CubeShim or cube-vmm-worker containment breach"@ && observed == Some(
                server.cgroup@,
            ))
            &&& tolerated && record.create_state != CreateState::Failed
                && record.takeover_claimed_at_ms == Some(now) ==> (scan_verdict(
                record,
                facts,
            ) matches Ok(ScanVerdictView::Proceed))
        }),
{
}

/// A failed Create is cleaned up once its callers have taken the failure or had
/// thirty seconds to take it, and not before.
pub proof fn law_failed_create_is_cleaned_up_when_taken(
    record: LifecycleRecordView,
    facts: ScanFacts,
    server: ProcessIdentity,
    now: u128,
    later: u128,
)
    requires
        record.phase == LifecyclePhase::TakeoverClaimed,
        record.takeover_claimed_at_ms is None,
        record.create_state == CreateState::Failed,
        record.failure is Some,
        facts.helper is Ok,
        facts.server == Some(
            Ok::<ProcessObservation, String>(
                ProcessObservation::Exact { identity: server, containment_ok: true },
            ),
        ),
        facts.worker matches Ok(None),
        facts.now == Ok::<u128, String>(now),
        facts.later == Ok::<u128, String>(later),
    ensures
        record.failure->0.drained || later - record.failure->0.published_at_ms >= 30_000 ==> (
        scan_verdict(record, facts) matches Ok(ScanVerdictView::Cleanup { reason, observed })
            && reason == "Create RPC failed and drained"@ && observed is None),
        !record.failure->0.drained && later - record.failure->0.published_at_ms < 30_000 ==> (
        scan_verdict(record, facts) matches Ok(ScanVerdictView::Proceed)),
{
}

/// A committed server that is in its cgroup but not a member of the recorded
/// target is not left alone.
pub proof fn law_drifted_target_is_noticed(
    record: LifecycleRecordView,
    facts: ScanFacts,
    server: ProcessIdentity,
)
    requires
        record.phase == LifecyclePhase::ContainerdCommitted,
        facts.helper is Ok,
        facts.server == Some(
            Ok::<ProcessObservation, String>(
                ProcessObservation::Exact { identity: server, containment_ok: true },
            ),
        ),
        facts.worker matches Ok(None),
        facts.now is Ok,
        membership_fault(record.target, server.pid as int, facts.target, facts.cgroup) is Some,
    ensures
        ({
            let error = membership_fault(
                record.target,
                server.pid as int,
                facts.target,
                facts.cgroup,
            )->0;
            let text = "committed Host target monitoring failed: "@ + error;
            &&& record.create_state == CreateState::InProgress ==> (scan_verdict(
                record,
                facts,
            ) matches Ok(ScanVerdictView::Publish { code, message, observed }) && code
                == "INTERNAL"@ && message == text && observed is None)
            &&& record.create_state == CreateState::Succeeded ==> (scan_verdict(
                record,
                facts,
            ) matches Ok(ScanVerdictView::Cleanup { reason, observed }) && reason == text
                && observed is None)
        }),
{
}

/// Cleanup that was requested goes on whatever the scan shows, and what cannot
/// be observed is an error, never a verdict.
pub proof fn law_unreadable_facts_give_no_verdict(record: LifecycleRecordView, facts: ScanFacts)
    ensures
        facts.helper is Err || facts.server matches Some(Err(_)) || facts.worker is Err
            || facts.now is Err ==> scan_verdict(record, facts) is Err,
        facts.helper is Ok && !(facts.server matches Some(Err(_))) && facts.worker is Ok
            && facts.now is Ok && (record.phase == LifecyclePhase::CleanupRequired || record.phase
            == LifecyclePhase::CleanupOwnersDurable || record.phase
            == LifecyclePhase::ServerStopped || record.phase == LifecyclePhase::Done) ==> (
        scan_verdict(record, facts) matches Ok(ScanVerdictView::Proceed)),
{
}

/// A verdict that is reached on the durable record takes effect: a Create in
/// progress is failed and fenced, everything else is fenced for cleanup, and
/// the breach that was seen is kept. Other verdicts change nothing.
pub proof fn law_verdicts_take_effect(
    record: LifecycleRecordView,
    verdict: ScanVerdictView,
    observed: Option<ContainmentIdentity>,
    now: u128,
)
    requires
        record.schema_version == 2,
        record.generation.len() > 0,
        record.sequence < u64::MAX,
        record.operation_owner.epoch < u64::MAX,
    ensures
        verdict is Cleanup && (record.phase == LifecyclePhase::Prepared || record.phase
            == LifecyclePhase::ServerIdentified || record.phase == LifecyclePhase::SocketReady || (
        is_claimed(record.phase) && record.create_state == CreateState::Succeeded)) ==> (
        verdict_applied(record, record, verdict, observed, Ok(now)) matches Ok(Some(next))
            && next.phase == LifecyclePhase::CleanupRequired && next.operation_owner.epoch
            == record.operation_owner.epoch + 1 && next.operation_owner.revoked_epoch == Some(
            record.operation_owner.epoch,
        ) && next.create_state == record.create_state && next.failure == record.failure && (
        record.containment_breach is None ==> next.containment_breach == opt_breach(observed))),
        verdict matches ScanVerdictView::Publish { code, message, .. } ==> ((record.phase
            == LifecyclePhase::TakeoverClaimed || record.phase
            == LifecyclePhase::ContainerdCommitted) && record.create_state
            == CreateState::InProgress ==> (verdict_applied(
            record,
            record,
            verdict,
            observed,
            Ok(now),
        ) matches Ok(Some(next)) && next.phase == record.phase && next.create_state
            == CreateState::Failed && next.failure is Some && next.failure->0.code == code
            && next.failure->0.message == message && next.failure->0.published_at_ms == now
            && next.failure->0.waiter_count == record.create_waiters && (next.failure->0.drained
            <==> record.create_waiters == 0) && next.operation_owner.epoch
            == record.operation_owner.epoch + 1 && next.operation_owner.revoked_epoch == Some(
            record.operation_owner.epoch,
        ) && (record.containment_breach is None ==> next.containment_breach == opt_breach(
            observed,
        )))),
        verdict is Settled || verdict is Proceed ==> (verdict_applied(
            record,
            record,
            verdict,
            observed,
            Ok(now),
        ) matches Ok(None)),
{
}

/// Exactly one process in a search is found; none that a search passes over is
/// taken for it.
pub proof fn law_the_only_match_is_found(
    verdicts: Seq<Result<Option<ProcessIdentityView>, Seq<char>>>,
    several: Seq<char>,
    i: int,
)
    requires
        0 <= i < verdicts.len(),
        verdicts[i] matches Ok(Some(_)),
        forall|k: int|
            0 <= k < verdicts.len() && k != i ==> (#[trigger] verdicts[k]) == Ok::<
                Option<ProcessIdentityView>,
                Seq<char>,
            >(None),
    ensures
        only_match(verdicts, 0, None, several) == verdicts[i],
{
    lemma_skips_to_match(verdicts, 0, several, i);
}

proof fn lemma_skips_to_match(
    verdicts: Seq<Result<Option<ProcessIdentityView>, Seq<char>>>,
    from: int,
    several: Seq<char>,
    i: int,
)
    requires
        0 <= from <= i < verdicts.len(),
        verdicts[i] matches Ok(Some(_)),
        forall|k: int|
            0 <= k < verdicts.len() && k != i ==> (#[trigger] verdicts[k]) == Ok::<
                Option<ProcessIdentityView>,
                Seq<char>,
            >(None),
    ensures
        only_match(verdicts, from, None, several) == verdicts[i],
    decreases i - from,
{
    if from < i {
        lemma_skips_to_match(verdicts, from + 1, several, i);
    } else {
        lemma_rest_is_passed_over(verdicts, i + 1, verdicts[i]->Ok_0, several);
    }
}

proof fn lemma_rest_is_passed_over(
    verdicts: Seq<Result<Option<ProcessIdentityView>, Seq<char>>>,
    from: int,
    found: Option<ProcessIdentityView>,
    several: Seq<char>,
)
    requires
        0 <= from <= verdicts.len(),
        forall|k: int|
            from <= k < verdicts.len() ==> (#[trigger] verdicts[k]) == Ok::<
                Option<ProcessIdentityView>,
                Seq<char>,
            >(None),
    ensures
        only_match(verdicts, from, found, several) == Ok::<
            Option<ProcessIdentityView>,
            Seq<char>,
        >(found),
    decreases verdicts.len() - from,
{
    if from < verdicts.len() {
        lemma_rest_is_passed_over(verdicts, from + 1, found, several);
    }
}

/// The process that the helper started is the unregistered server: it has the
/// launch's nonce, the recorded executable, command, directory and cgroup, and
/// it is a child of the helper or, once the helper has ended, of the first
/// process. A process that differs in any of these is not.
pub proof fn law_the_launched_server_is_adopted(
    record: LifecycleRecordView,
    helper_alive: bool,
    glimpse: ProcessGlimpse,
    identity: ProcessIdentity,
    nonce: String,
    parent: i32,
)
    requires
        glimpse.nonce == Ok::<Option<String>, String>(Some(nonce)),
        glimpse.identity == Ok::<ProcessIdentity, String>(identity),
        glimpse.parent == Ok::<i32, String>(parent),
    ensures
        adoptable(record, helper_alive, glimpse) == Ok::<Option<ProcessIdentityView>, Seq<char>>(
            if glimpse.pid != record.helper.pid && nonce@ == record.launch_nonce_sha256
                && identity.executable == record.expected_server_executable
                && identity.command_sha256@ == record.expected_server_command_sha256
                && identity.cwd == record.bundle_identity && identity.cgroup@
                == record.target.location() && (parent == record.helper.pid || (parent == 1
                && !helper_alive)) {
                Some(identity@)
            } else {
                None
            },
        ),
{
}

/// The process that was launched with the nonce of a spawn intent is its
/// worker: it has the recorded executable and is a child of the registered
/// server or of the first process.
pub proof fn law_the_launched_worker_is_found(
    record: LifecycleRecordView,
    worker: VmmWorkerRecordView,
    glimpse: ProcessGlimpse,
    identity: ProcessIdentity,
    nonce: String,
    parent: i32,
)
    requires
        glimpse.nonce == Ok::<Option<String>, String>(Some(nonce)),
        glimpse.identity == Ok::<ProcessIdentity, String>(identity),
        glimpse.parent == Ok::<i32, String>(parent),
    ensures
        intended_worker(record, worker, glimpse) == Ok::<Option<ProcessIdentityView>, Seq<char>>(
            if nonce@.len() > 0 && hex(sha256(vstd::utf8::encode_utf8(nonce@)))
                == worker.launch_nonce_sha256 && identity.executable == worker.expected_executable
                && (record.server is None || parent == record.server->0.pid || parent == 1) {
                Some(identity@)
            } else {
                None
            },
        ),
{
}

/// A process of which nothing can be read is passed over only where it has
/// ended.
pub proof fn law_unreadable_processes_are_not_passed_over(
    record: LifecycleRecordView,
    worker: VmmWorkerRecordView,
    helper_alive: bool,
    glimpse: ProcessGlimpse,
    message: String,
)
    requires
        glimpse.nonce == Err::<Option<String>, String>(message),
        glimpse.pid != record.helper.pid,
    ensures
        glimpse.gone ==> (adoptable(record, helper_alive, glimpse) matches Ok(None)) && (
        intended_worker(record, worker, glimpse) matches Ok(None)),
        !glimpse.gone ==> adoptable(record, helper_alive, glimpse) == Err::<
            Option<ProcessIdentityView>,
            Seq<char>,
        >(message@) && intended_worker(record, worker, glimpse) == Err::<
            Option<ProcessIdentityView>,
            Seq<char>,
        >(message@),
{
}

/// Cleanup ends the worker that a record names, and no other process: an
/// allocated one by its identity, an intended one by its search.
pub proof fn law_cleanup_ends_the_recorded_worker(
    record: LifecycleRecordView,
    glimpses: Seq<ProcessGlimpse>,
    worker: VmmWorkerRecordView,
)
    ensures
        record.vmm_worker is None ==> (doomed_worker(record, glimpses) matches Ok(None)),
        record.vmm_worker == Some(worker) && worker.protocol_version == PROTOCOL_VERSION
            && 0 < worker.operation_epoch <= record.operation_owner.epoch
            && worker.launch_nonce_sha256.len() > 0 && worker.state == VmmWorkerState::Allocated
            && worker.identity is Some ==> doomed_worker(record, glimpses) == Ok::<
            Option<ProcessIdentityView>,
            Seq<char>,
        >(worker.identity),
{
}

/// An allocated worker in its cgroup is signalled; one outside of it only where
/// exactly this breach is durable; and one that has ended never is.
pub proof fn law_workers_are_signalled_in_their_place(
    record: LifecycleRecordView,
    worker: VmmWorkerRecordView,
    identity: ProcessIdentityView,
    containment_ok: bool,
    nonce: Result<Option<String>, String>,
)
    requires
        worker.state == VmmWorkerState::Allocated,
        identity.executable == worker.expected_executable,
    ensures
        ({
            let found = ObservationView::Exact { identity, containment_ok };
            let home = containment_ok && identity.cgroup == record.target.location();
            let durable = !containment_ok && identity.cgroup != record.target.location()
                && record.containment_breach is Some && record.containment_breach->0.cgroup
                == identity.cgroup;
            &&& home ==> (worker_termination(record, worker, found, nonce) matches Ok(Some(false)))
            &&& durable ==> (worker_termination(record, worker, found, nonce) matches Ok(
                Some(true),
            ))
            &&& !home && !durable ==> worker_termination(record, worker, found, nonce) is Err
        }),
        worker_termination(record, worker, ObservationView::Gone, nonce) matches Ok(None),
        worker_termination(record, worker, ObservationView::Reused, nonce) matches Ok(None),
{
}

/// How a scan begins depends on the record alone: one that is done is removed,
/// a prepared one without a server is searched for its server first.
pub proof fn law_scans_begin_with_what_is_missing(record: LifecycleRecordView)
    ensures
        record.phase == LifecyclePhase::Done <==> scan_start(record) == ScanStart::RemoveDone,
        record.phase == LifecyclePhase::Prepared && record.server is None <==> scan_start(record)
            == ScanStart::Adopt,
        scan_start(record) != ScanStart::RemoveInterrupted,
{
}

/// An allocated worker in order is watched; one that is only intended, or none,
/// is not; and one that is not what was recorded is an error.
pub proof fn law_allocated_worker_is_watched(
    record: LifecycleRecordView,
    worker: VmmWorkerRecordView,
    identity: ProcessIdentityView,
)
    requires
        worker.protocol_version == 1,
        0 < worker.operation_epoch <= record.operation_owner.epoch,
        worker.launch_nonce_sha256.len() > 0,
    ensures
        record.vmm_worker is None ==> watched_worker(record) == Ok::<
            Option<ProcessIdentityView>,
            Seq<char>,
        >(None),
        record.vmm_worker == Some(worker) && worker.state == VmmWorkerState::SpawnIntent
            && worker.identity is None ==> watched_worker(record) == Ok::<
            Option<ProcessIdentityView>,
            Seq<char>,
        >(None),
        record.vmm_worker == Some(worker) && worker.state == VmmWorkerState::Allocated
            && worker.identity == Some(identity) ==> watched_worker(record) == (
        if identity.executable == worker.expected_executable && identity.cgroup
            == record.target.location() {
            Ok::<Option<ProcessIdentityView>, Seq<char>>(Some(identity))
        } else {
            Err("allocated cube-vmm-worker durable identity is invalid"@)
        }),
        (worker_record_fault(record, worker) is None) == (worker.state
            == VmmWorkerState::SpawnIntent && worker.identity is None || worker.state
            == VmmWorkerState::Allocated && worker.identity is Some),
{
}

/// A worker of another protocol, of no or of a later epoch, or without a nonce
/// is not in order.
pub proof fn law_inconsistent_worker_is_refused(
    record: LifecycleRecordView,
    worker: VmmWorkerRecordView,
)
    requires
        worker.protocol_version != 1 || worker.operation_epoch == 0 || worker.operation_epoch
            > record.operation_owner.epoch || worker.launch_nonce_sha256.len() == 0,
    ensures
        worker_record_fault(record, worker) is Some,
{
}

/// A server that was launched and never registered is registered by the scan
/// that finds it alone; where none is found, the record stays, and a helper that
/// cannot be looked at leaves everything open.
pub proof fn law_lost_server_is_registered_by_the_scan(
    record: LifecycleRecordView,
    helper: ProcessObservation,
    glimpses: Seq<ProcessGlimpse>,
    executable: Result<String, String>,
    identity: ProcessIdentityView,
    next: LifecycleRecordView,
    message: String,
)
    ensures
        ({
            let found = only_match(
                adoption_verdicts(record, helper@ is Exact, glimpses),
                0,
                None,
                "multiple processes match the unregistered server identity"@,
            );
            &&& found == Ok::<Option<ProcessIdentityView>, Seq<char>>(None) ==> adoption(
                record,
                Ok(helper),
                glimpses,
                executable,
            ) == Ok::<(bool, LifecycleRecordView), Seq<char>>((false, record))
            &&& found == Ok::<Option<ProcessIdentityView>, Seq<char>>(Some(identity))
                && server_registration(record, identity, record.launch_nonce_sha256, executable)
                == Ok::<Option<LifecycleRecordView>, Seq<char>>(Some(next)) ==> adoption(
                record,
                Ok(helper),
                glimpses,
                executable,
            ) == Ok::<(bool, LifecycleRecordView), Seq<char>>((true, next))
            &&& found is Err ==> adoption(record, Ok(helper), glimpses, executable) is Err
        }),
        adoption(record, Err(message), glimpses, executable) is Err,
{
}

/// Each process is judged in its place.
pub proof fn law_every_process_is_judged(
    record: LifecycleRecordView,
    worker: VmmWorkerRecordView,
    helper_alive: bool,
    glimpses: Seq<ProcessGlimpse>,
    i: int,
)
    requires
        0 <= i < glimpses.len(),
    ensures
        adoption_verdicts(record, helper_alive, glimpses).len() == glimpses.len(),
        adoption_verdicts(record, helper_alive, glimpses)[i] == adoptable(
            record,
            helper_alive,
            glimpses[i],
        ),
        worker_verdicts(record, worker, glimpses).len() == glimpses.len(),
        worker_verdicts(record, worker, glimpses)[i] == intended_worker(
            record,
            worker,
            glimpses[i],
        ),
{
}

/// The process of a worker that was intended and not recorded is looked for
/// among all processes; a worker that was recorded, or that is not in order, is
/// not looked for in this way.
pub proof fn law_intended_worker_is_looked_for(
    record: LifecycleRecordView,
    worker: VmmWorkerRecordView,
    glimpses: Seq<ProcessGlimpse>,
)
    requires
        worker.protocol_version == 1,
        0 < worker.operation_epoch <= record.operation_owner.epoch,
        worker.launch_nonce_sha256.len() > 0,
    ensures
        worker.state == VmmWorkerState::SpawnIntent && worker.identity is None ==> spawned_worker(
            record,
            worker,
            glimpses,
        ) == only_match(
            worker_verdicts(record, worker, glimpses),
            0,
            None,
            "multiple processes match cube-vmm-worker spawn INTENT"@,
        ),
        worker.state == VmmWorkerState::Allocated ==> spawned_worker(record, worker, glimpses)
            is Err,
        record.vmm_worker == Some(worker) && worker.state == VmmWorkerState::SpawnIntent
            && worker.identity is None ==> doomed_worker(record, glimpses) == spawned_worker(
            record,
            worker,
            glimpses,
        ),
{
}

} // verus!
