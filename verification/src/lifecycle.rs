//! The durable state of a lifecycle and its transitions.
use vstd::prelude::*;

use crate::controllers::{
    exact_controller_readback, host_owner_matches, readback_fault, verify_host_owner_for_record,
};
use crate::digest::command_sha256;
use crate::identity::{
    immutable_identity_matches, same_process, ContainmentIdentity, ContainmentIdentityView,
    FailureResult, FailureResultView, FileIdentity, OperationOwnerView, ProcessIdentity,
    ProcessIdentityView, SocketIdentityView,
};
use crate::paths::{same_path, same_path_spec};
use crate::record::{
    Classification, ControllerTransactionState, CreateState, HostCgroupOwner, HostCgroupOwnerView,
    LifecyclePhase, LifecycleRecord, LifecycleRecordView, RuntimeResourceOwner,
    RuntimeResourceOwnerView, SCHEMA_VERSION,
};
use crate::target::{passes_unless, target_drift, HostTargetView, TargetSighting};
use crate::text::{decimal, decimal_text, fails_with, opt_text_eq, outcomes, text_eq};

verus! {

/// How long a failed Create waits for its waiters before it is cleaned up.
pub const FAILURE_DRAIN_MS: u128 = 30_000;

/// The durable state of a lifecycle, as it was read under the lifecycle's
/// lock. A transition that fails leaves it as it was, and one that succeeds
/// leaves in it what has to be made durable before the lock is given up.
#[derive(Debug, PartialEq, Eq)]
pub struct LifecycleHandle {
    pub record: LifecycleRecord,
    pub host_owner: HostCgroupOwner,
    pub runtime_owner: RuntimeResourceOwner,
}

/// The contents of a [`LifecycleHandle`].
pub struct LifecycleView {
    pub record: LifecycleRecordView,
    pub host_owner: HostCgroupOwnerView,
    pub runtime_owner: RuntimeResourceOwnerView,
}

impl View for LifecycleHandle {
    type V = LifecycleView;

    open spec fn view(&self) -> LifecycleView {
        LifecycleView {
            record: self.record@,
            host_owner: self.host_owner@,
            runtime_owner: self.runtime_owner@,
        }
    }
}

impl Clone for LifecycleHandle {
    fn clone(&self) -> (copy: Self)
        ensures
            copy@ == self@,
    {
        LifecycleHandle {
            record: self.record.clone(),
            host_owner: self.host_owner.clone(),
            runtime_owner: self.runtime_owner.clone(),
        }
    }
}

/// A durable result of Create.
#[derive(Debug, PartialEq, Eq)]
pub enum PersistedCreateResult {
    Succeeded,
    Failed { code: String, message: String },
}

/// The contents of a [`PersistedCreateResult`].
pub enum PersistedCreateResultView {
    Succeeded,
    Failed { code: Seq<char>, message: Seq<char> },
}

impl View for PersistedCreateResult {
    type V = PersistedCreateResultView;

    open spec fn view(&self) -> PersistedCreateResultView {
        match self {
            PersistedCreateResult::Succeeded => PersistedCreateResultView::Succeeded,
            PersistedCreateResult::Failed { code, message } => PersistedCreateResultView::Failed {
                code: code@,
                message: message@,
            },
        }
    }
}

/// Why a record cannot be used, if it cannot.
pub open spec fn record_fault(record: LifecycleRecordView) -> Option<Seq<char>> {
    if record.schema_version != SCHEMA_VERSION || record.generation.len() == 0 {
        Some(
            "lifecycle record has unsupported schema or empty generation: "@ + decimal(
                record.schema_version as nat,
            ) + "/"@ + record.generation,
        )
    } else {
        None
    }
}

/// Why a Host owner cannot be used, if it cannot.
pub open spec fn host_owner_fault(owner: HostCgroupOwnerView) -> Option<Seq<char>> {
    if owner.schema_version != SCHEMA_VERSION || owner.generation.len() == 0 {
        Some(
            "Host owner has unsupported schema or empty generation: "@ + decimal(
                owner.schema_version as nat,
            ) + "/"@ + owner.generation,
        )
    } else {
        None
    }
}

/// What becomes of a record that a transition changes: the record must be
/// usable, and its sequence grows by one.
pub open spec fn updated(
    record: LifecycleRecordView,
    change: Result<LifecycleRecordView, Seq<char>>,
) -> Result<LifecycleRecordView, Seq<char>> {
    match record_fault(record) {
        Some(message) => Err(message),
        None => match change {
            Err(message) => Err(message),
            Ok(next) => if record.sequence == u64::MAX {
                Err("lifecycle sequence overflow"@)
            } else {
                Ok(LifecycleRecordView { sequence: (record.sequence + 1) as u64, ..next })
            },
        },
    }
}

/// A transition of the record: it succeeds with the new record, or fails and
/// changes nothing.
pub open spec fn moves(
    before: LifecycleView,
    after: LifecycleView,
    r: Result<(), String>,
    next: Result<LifecycleRecordView, Seq<char>>,
) -> bool {
    match next {
        Ok(record) => r is Ok && after == (LifecycleView { record, ..before }),
        Err(message) => fails_with(r, message) && after == before,
    }
}

/// Whether a takeover has claimed the lifecycle and cleanup has not begun.
pub open spec fn is_claimed(phase: LifecyclePhase) -> bool {
    phase == LifecyclePhase::TakeoverClaimed || phase == LifecyclePhase::ContainerdCommitted
}

/// Whether a takeover has claimed the lifecycle and cleanup has not begun.
pub fn claimed(phase: LifecyclePhase) -> (r: bool)
    ensures
        r == is_claimed(phase),
{
    phase == LifecyclePhase::TakeoverClaimed || phase == LifecyclePhase::ContainerdCommitted
}

/// Whether cleanup has begun and is not done.
pub open spec fn is_cleaning(phase: LifecyclePhase) -> bool {
    phase == LifecyclePhase::CleanupRequired || phase == LifecyclePhase::CleanupOwnersDurable
        || phase == LifecyclePhase::ServerStopped
}

/// Whether cleanup has begun and is not done.
pub fn cleaning(phase: LifecyclePhase) -> (r: bool)
    ensures
        r == is_cleaning(phase),
{
    phase == LifecyclePhase::CleanupRequired || phase == LifecyclePhase::CleanupOwnersDurable
        || phase == LifecyclePhase::ServerStopped
}

/// A record whose operation owner is fenced: its epoch is revoked and the next
/// one begins.
pub open spec fn fenced(record: LifecycleRecordView) -> LifecycleRecordView {
    LifecycleRecordView {
        operation_owner: OperationOwnerView {
            epoch: (record.operation_owner.epoch + 1) as u64,
            revoked_epoch: Some(record.operation_owner.epoch),
            ..record.operation_owner
        },
        ..record
    }
}

/// A record that is fenced and awaits cleanup, unless cleanup has begun.
pub open spec fn cleanup_requested(record: LifecycleRecordView) -> Result<
    LifecycleRecordView,
    Seq<char>,
> {
    if is_cleaning(record.phase) {
        Ok(record)
    } else if record.operation_owner.epoch == u64::MAX {
        Err("operation owner epoch overflow"@)
    } else {
        Ok(LifecycleRecordView { phase: LifecyclePhase::CleanupRequired, ..fenced(record) })
    }
}

/// The next number of a sequence.
pub fn next_sequence(sequence: u64) -> (r: Result<u64, String>)
    ensures
        if sequence == u64::MAX {
            fails_with(r, "lifecycle sequence overflow"@)
        } else {
            r matches Ok(next) && next == sequence + 1
        },
{
    if sequence == u64::MAX {
        return Err("lifecycle sequence overflow".to_owned());
    }
    Ok(sequence + 1)
}

/// The next epoch of an operation owner.
pub fn next_epoch(epoch: u64) -> (r: Result<u64, String>)
    ensures
        if epoch == u64::MAX {
            fails_with(r, "operation owner epoch overflow"@)
        } else {
            r matches Ok(next) && next == epoch + 1
        },
{
    if epoch == u64::MAX {
        return Err("operation owner epoch overflow".to_owned());
    }
    Ok(epoch + 1)
}

/// A published failure.
pub open spec fn failure_of(
    code: Seq<char>,
    message: Seq<char>,
    now: u128,
    waiters: u32,
    drained: bool,
) -> FailureResultView {
    FailureResultView { code, message, published_at_ms: now, waiter_count: waiters, drained }
}

/// Whether the failure of a Create may be cleaned up: every waiter has taken
/// it, or the waiters had their time.
pub open spec fn failure_ready(record: LifecycleRecordView, now: Result<u128, String>) -> Result<
    bool,
    Seq<char>,
> {
    match record.failure {
        None => Err("FAILED Create has no durable failure result"@),
        Some(failure) => if failure.drained {
            Ok(true)
        } else {
            match now {
                Err(message) => Err(message@),
                Ok(now) => Ok(now - failure.published_at_ms >= FAILURE_DRAIN_MS),
            }
        },
    }
}

/// Whether the failure of a Create may be cleaned up.
pub fn create_failure_cleanup_ready(record: &LifecycleRecord, now: &Result<u128, String>) -> (r:
    Result<bool, String>)
    ensures
        match failure_ready(record@, *now) {
            Err(message) => fails_with(r, message),
            Ok(ready) => r == Ok::<bool, String>(ready),
        },
{
    match &record.failure {
        None => Err("FAILED Create has no durable failure result".to_owned()),
        Some(failure) => {
            if failure.drained {
                return Ok(true);
            }
            match now {
                Err(message) => Err(message.clone()),
                Ok(now) => Ok(
                    *now >= failure.published_at_ms && *now - failure.published_at_ms
                        >= FAILURE_DRAIN_MS,
                ),
            }
        },
    }
}

/// Whether two records are the same durable version of one lifecycle.
pub open spec fn same_version(a: LifecycleRecordView, b: LifecycleRecordView) -> bool {
    a.generation == b.generation && a.sequence == b.sequence && a.phase == b.phase
}

/// Whether two records are the same durable version of one lifecycle.
pub fn same_scanner_snapshot(snapshot: &LifecycleRecord, current: &LifecycleRecord) -> (same: bool)
    ensures
        same == same_version(snapshot@, current@),
{
    text_eq(snapshot.generation.as_str(), current.generation.as_str()) && snapshot.sequence
        == current.sequence && snapshot.phase == current.phase
}

/// What a server registration leads to; `executable` is the path of the
/// server's executable. A server that is registered already is only compared.
pub open spec fn server_registration(
    record: LifecycleRecordView,
    identity: ProcessIdentityView,
    nonce_hash: Seq<char>,
    executable: Result<String, String>,
) -> Result<Option<LifecycleRecordView>, Seq<char>> {
    if record_fault(record) is Some {
        Err(record_fault(record)->0)
    } else if record.launch_nonce_sha256 != nonce_hash {
        Err("server launch nonce does not match lifecycle record"@)
    } else if identity.launch_nonce_sha256 != Some(nonce_hash) {
        Err("server process environment nonce does not match PREPARED"@)
    } else if identity.executable != record.expected_server_executable || identity.command_sha256
        != record.expected_server_command_sha256 || identity.cwd != record.bundle_identity {
        Err("server executable, argv, or bundle identity changed after PREPARED"@)
    } else {
        match executable {
            Err(message) => Err(message@),
            Ok(path) => if !same_path_spec(path@, record.expected_server_path) {
                Err(
                    "server executable path "@ + path@ + " does not match PREPARED "@
                        + record.expected_server_path,
                )
            } else {
                match record.server {
                    Some(registered) => if same_process(registered, identity) {
                        Ok(None)
                    } else {
                        Err("a different server identity is already registered"@)
                    },
                    None => if record.phase != LifecyclePhase::Prepared {
                        Err("server registration requires PREPARED, found "@ + record.phase.label())
                    } else if record.target.location() != identity.cgroup {
                        Err(
                            "server registered in "@ + identity.cgroup + ", expected "@
                                + record.target.location(),
                        )
                    } else {
                        match updated(
                            record,
                            Ok(
                                LifecycleRecordView {
                                    server: Some(identity),
                                    phase: LifecyclePhase::ServerIdentified,
                                    ..record
                                },
                            ),
                        ) {
                            Err(message) => Err(message),
                            Ok(next) => Ok(Some(next)),
                        }
                    },
                }
            },
        }
    }
}

/// What the Host shows of a path at which a socket was bound.
pub struct SocketSighting {
    pub path: String,
    pub is_socket: bool,
    pub device: u64,
    pub inode: u64,
    pub parent: Result<FileIdentity, String>,
}

/// What a bound socket leads to.
pub open spec fn socket_readiness(
    record: LifecycleRecordView,
    seen: SocketSighting,
) -> Result<LifecycleRecordView, Seq<char>> {
    if !seen.is_socket {
        Err("bound shim path is not a socket: "@ + seen.path@)
    } else {
        updated(
            record,
            if record.phase != LifecyclePhase::ServerIdentified && record.phase
                != LifecyclePhase::SocketReady {
                Err("socket readiness requires SERVER_IDENTIFIED, found "@ + record.phase.label())
            } else if record.socket.path != seen.path@ {
                Err("shim socket path changed after PREPARED"@)
            } else {
                match seen.parent {
                    Err(message) => Err(message@),
                    Ok(parent) => if parent != record.socket.parent {
                        Err("shim socket parent identity changed"@)
                    } else {
                        Ok(
                            LifecycleRecordView {
                                socket: SocketIdentityView {
                                    device: Some(seen.device),
                                    inode: Some(seen.inode),
                                    ..record.socket
                                },
                                phase: LifecyclePhase::SocketReady,
                                ..record
                            },
                        )
                    },
                }
            },
        )
    }
}

/// What a failed Create leads to.
pub open spec fn create_failure(
    record: LifecycleRecordView,
    code: Seq<char>,
    message: Seq<char>,
    now: Result<u128, String>,
) -> Result<LifecycleRecordView, Seq<char>> {
    updated(
        record,
        if !is_claimed(record.phase) {
            Err(
                "failed Create requires TAKEOVER_CLAIMED or CONTAINERD_COMMITTED, found "@
                    + record.phase.label(),
            )
        } else if record.create_state == CreateState::Failed {
            match record.failure {
                None => Err("durable FAILED Create has no result identity"@),
                Some(existing) => if existing.code == code && existing.message == message {
                    Ok(record)
                } else {
                    Err(
                        "refuse to replace durable Create failure "@ + existing.code + "/"@
                            + existing.message + " with "@ + code + "/"@ + message,
                    )
                },
            }
        } else if record.create_state != CreateState::InProgress {
            Err("failed Create cannot replace "@ + record.create_state.label())
        } else {
            match now {
                Err(error) => Err(error@),
                Ok(now) => Ok(
                    LifecycleRecordView {
                        create_state: CreateState::Failed,
                        failure: Some(
                            failure_of(code, message, now, record.create_waiters, false),
                        ),
                        ..record
                    },
                ),
            }
        },
    )
}

/// What the departure of a waiter leads to.
pub open spec fn waiter_departure(record: LifecycleRecordView) -> Result<
    LifecycleRecordView,
    Seq<char>,
> {
    updated(
        record,
        if record.create_waiters == 0 {
            Err("Create waiter count underflow"@)
        } else {
            let waiters = (record.create_waiters - 1) as u32;
            Ok(
                LifecycleRecordView {
                    create_waiters: waiters,
                    failure: match record.failure {
                        Some(failure) if waiters == 0 => Some(
                            FailureResultView { drained: true, ..failure },
                        ),
                        other => other,
                    },
                    ..record
                },
            )
        },
    )
}

/// The durable result of a Create, if there is one yet.
pub open spec fn create_result(record: LifecycleRecordView) -> Result<
    Option<PersistedCreateResultView>,
    Seq<char>,
> {
    if record_fault(record) is Some {
        Err(record_fault(record)->0)
    } else {
        match record.create_state {
            CreateState::Succeeded => Ok(Some(PersistedCreateResultView::Succeeded)),
            CreateState::Failed => match record.failure {
                None => Err("FAILED Create has no published result"@),
                Some(failure) => Ok(
                    Some(
                        PersistedCreateResultView::Failed {
                            code: failure.code,
                            message: failure.message,
                        },
                    ),
                ),
            },
            CreateState::InProgress => Ok(None),
            CreateState::Unstarted => Err("Create takeover is not committed"@),
        }
    }
}

/// What a request for cleanup leads to. A Create that is still in progress is
/// failed and fenced first, and cleanup waits until its failure is taken.
pub open spec fn cleanup_request(
    record: LifecycleRecordView,
    reason: Seq<char>,
    now: Result<u128, String>,
) -> Result<LifecycleRecordView, Seq<char>> {
    updated(
        record,
        if record.phase == LifecyclePhase::Done {
            Ok(record)
        } else if is_claimed(record.phase) && record.create_state == CreateState::InProgress {
            match now {
                Err(message) => Err(message@),
                Ok(now) => if record.operation_owner.epoch == u64::MAX {
                    Err("operation owner epoch overflow"@)
                } else {
                    Ok(
                        LifecycleRecordView {
                            create_state: CreateState::Failed,
                            failure: Some(
                                failure_of(
                                    "CANCELLED"@,
                                    reason,
                                    now,
                                    record.create_waiters,
                                    record.create_waiters == 0,
                                ),
                            ),
                            ..fenced(record)
                        },
                    )
                },
            }
        } else if is_claimed(record.phase) && record.create_state == CreateState::Failed {
            match failure_ready(record, now) {
                Err(message) => Err(message),
                Ok(false) => Ok(record),
                Ok(true) => cleanup_requested(record),
            }
        } else {
            cleanup_requested(record)
        },
    )
}

/// A breach that is recorded once: the first one stays.
pub open spec fn with_breach(
    record: LifecycleRecordView,
    observed: Option<ContainmentIdentityView>,
) -> LifecycleRecordView {
    LifecycleRecordView {
        containment_breach: match record.containment_breach {
            Some(first) => Some(first),
            None => observed,
        },
        ..record
    }
}

/// The contents of an optional breach.
pub open spec fn opt_breach(observed: Option<ContainmentIdentity>) -> Option<
    ContainmentIdentityView,
> {
    match observed {
        Some(value) => Some(value@),
        None => None,
    }
}

/// What the publication of a failure by the scanner leads to: nothing, when
/// the record is no longer the one that the scanner judged.
pub open spec fn scanner_failure(
    record: LifecycleRecordView,
    snapshot: LifecycleRecordView,
    code: Seq<char>,
    message: Seq<char>,
    observed: Option<ContainmentIdentityView>,
    now: Result<u128, String>,
) -> Result<Option<LifecycleRecordView>, Seq<char>> {
    if record_fault(record) is Some {
        Err(record_fault(record)->0)
    } else if !same_version(snapshot, record) {
        Ok(None)
    } else if record.create_state != CreateState::InProgress || !is_claimed(record.phase) {
        Err(
            "scanner failure takeover requires active Create, found "@ + record.phase.label()
                + "/"@ + record.create_state.label(),
        )
    } else if record.operation_owner.epoch == u64::MAX {
        Err("operation owner epoch overflow"@)
    } else {
        match now {
            Err(error) => Err(error@),
            Ok(now) => match updated(
                record,
                Ok(
                    LifecycleRecordView {
                        create_state: CreateState::Failed,
                        failure: Some(
                            failure_of(
                                code,
                                message,
                                now,
                                record.create_waiters,
                                record.create_waiters == 0,
                            ),
                        ),
                        ..fenced(with_breach(record, observed))
                    },
                ),
            ) {
                Err(error) => Err(error),
                Ok(next) => Ok(Some(next)),
            },
        }
    }
}

/// What a request for cleanup by the scanner leads to: nothing, when the
/// record is no longer the one that the scanner judged, when its failure is
/// not taken yet, or when there is nothing left to clean.
pub open spec fn scanner_cleanup(
    record: LifecycleRecordView,
    snapshot: LifecycleRecordView,
    observed: Option<ContainmentIdentityView>,
    now: Result<u128, String>,
) -> Result<Option<LifecycleRecordView>, Seq<char>> {
    if record_fault(record) is Some {
        Err(record_fault(record)->0)
    } else if !same_version(snapshot, record) {
        Ok(None)
    } else if is_claimed(record.phase) && record.create_state == CreateState::Unstarted {
        Err("scanner found claimed lifecycle without Create state"@)
    } else if is_claimed(record.phase) && record.create_state == CreateState::InProgress {
        Err(
            "scanner cannot revoke an IN_PROGRESS Create before publishing its durable failure"@,
        )
    } else if is_claimed(record.phase) && record.create_state == CreateState::Failed
        && failure_ready(record, now) is Err {
        Err(failure_ready(record, now)->Err_0)
    } else if is_claimed(record.phase) && record.create_state == CreateState::Failed
        && failure_ready(record, now) == Ok::<bool, Seq<char>>(false) {
        Ok(None)
    } else if record.phase == LifecyclePhase::Done {
        Ok(None)
    } else {
        match updated(record, cleanup_requested(with_breach(record, observed))) {
            Err(error) => Err(error),
            Ok(next) => Ok(Some(next)),
        }
    }
}

/// What a degradation leads to: cleanup, with the first reason kept.
pub open spec fn degraded_cleanup(record: LifecycleRecordView, reason: Seq<char>) -> Result<
    LifecycleRecordView,
    Seq<char>,
> {
    updated(
        record,
        if record.phase == LifecyclePhase::Done {
            Ok(record)
        } else {
            cleanup_requested(
                LifecycleRecordView {
                    degraded_reason: match record.degraded_reason {
                        Some(first) => Some(first),
                        None => Some(reason),
                    },
                    ..record
                },
            )
        },
    )
}

/// What an observed breach of containment leads to: cleanup, with the first
/// breach kept.
pub open spec fn containment_cleanup(
    record: LifecycleRecordView,
    observed: ContainmentIdentityView,
) -> Result<LifecycleRecordView, Seq<char>> {
    updated(
        record,
        if record.phase == LifecyclePhase::Done {
            Ok(record)
        } else {
            cleanup_requested(with_breach(record, Some(observed)))
        },
    )
}

/// What moving a record from one phase to another leads to; a record in any
/// other phase keeps it.
pub open spec fn phase_advance(
    record: LifecycleRecordView,
    from: LifecyclePhase,
    to: LifecyclePhase,
) -> Result<LifecycleRecordView, Seq<char>> {
    updated(
        record,
        Ok(
            LifecycleRecordView {
                phase: if record.phase == from {
                    to
                } else {
                    record.phase
                },
                ..record
            },
        ),
    )
}

/// Checks that a record can be used.
pub fn check_record(record: &LifecycleRecord) -> (r: Result<(), String>)
    ensures
        passes_unless(r, record_fault(record@)),
{
    if record.schema_version != SCHEMA_VERSION || record.generation.as_str().is_empty() {
        return Err(
            "lifecycle record has unsupported schema or empty generation: ".to_owned().concat(
                decimal_text(record.schema_version as u128).as_str(),
            ).concat("/").concat(record.generation.as_str()),
        );
    }
    Ok(())
}

/// The durable result of a Create that a record holds, if there is one yet.
pub fn recorded_create_result(record: &LifecycleRecord) -> (r: Result<
    Option<PersistedCreateResult>,
    String,
>)
    ensures
        match create_result(record@) {
            Err(message) => fails_with(r, message),
            Ok(None) => r matches Ok(None),
            Ok(Some(result)) => r matches Ok(Some(found)) && found@ == result,
        },
{
    if let Err(error) = check_record(record) {
        return Err(error);
    }
    match record.create_state {
        CreateState::Succeeded => Ok(Some(PersistedCreateResult::Succeeded)),
        CreateState::Failed => match &record.failure {
            None => Err("FAILED Create has no published result".to_owned()),
            Some(failure) => Ok(
                Some(
                    PersistedCreateResult::Failed {
                        code: failure.code.clone(),
                        message: failure.message.clone(),
                    },
                ),
            ),
        },
        CreateState::InProgress => Ok(None),
        CreateState::Unstarted => Err("Create takeover is not committed".to_owned()),
    }
}

/// Checks that a Host owner can be used.
pub fn check_host_owner(owner: &HostCgroupOwner) -> (r: Result<(), String>)
    ensures
        passes_unless(r, host_owner_fault(owner@)),
{
    if owner.schema_version != SCHEMA_VERSION || owner.generation.as_str().is_empty() {
        return Err(
            "Host owner has unsupported schema or empty generation: ".to_owned().concat(
                decimal_text(owner.schema_version as u128).as_str(),
            ).concat("/").concat(owner.generation.as_str()),
        );
    }
    Ok(())
}

impl LifecycleHandle {
    /// The record, when it can be used.
    pub fn read_record(&self) -> (r: Result<&LifecycleRecord, String>)
        ensures
            match record_fault(self@.record) {
                Some(message) => fails_with(r, message),
                None => r matches Ok(record) && record == self.record,
            },
    {
        match check_record(&self.record) {
            Err(message) => Err(message),
            Ok(()) => Ok(&self.record),
        }
    }

    /// The Host owner, when it can be used.
    pub fn read_host_owner(&self) -> (r: Result<&HostCgroupOwner, String>)
        ensures
            match host_owner_fault(self@.host_owner) {
                Some(message) => fails_with(r, message),
                None => r matches Ok(owner) && owner == self.host_owner,
            },
    {
        match check_host_owner(&self.host_owner) {
            Err(message) => Err(message),
            Ok(()) => Ok(&self.host_owner),
        }
    }

    /// The owner of the runtime resources.
    pub fn runtime_owner(&self) -> (owner: &RuntimeResourceOwner)
        ensures
            owner == self.runtime_owner,
    {
        &self.runtime_owner
    }

    /// What kind of lifecycle it is.
    pub fn classification(&self) -> (r: Result<Classification, String>)
        ensures
            match record_fault(self@.record) {
                Some(message) => fails_with(r, message),
                None => r == Ok::<Classification, String>(self@.record.classification),
            },
    {
        match self.read_record() {
            Err(message) => Err(message),
            Ok(record) => Ok(record.classification),
        }
    }

    /// Registers the identity of the server. The executable's path is given as
    /// the Host shows it. The result says whether the record changed.
    pub fn register_server_identity(
        &mut self,
        identity: ProcessIdentity,
        expected_nonce_hash: &str,
        executable: &Result<String, String>,
    ) -> (r: Result<bool, String>)
        ensures
            match server_registration(
                old(self)@.record,
                identity@,
                expected_nonce_hash@,
                *executable,
            ) {
                Err(message) => fails_with(r, message) && final(self)@ == old(self)@,
                Ok(None) => r == Ok::<bool, String>(false) && final(self)@ == old(self)@,
                Ok(Some(record)) => r == Ok::<bool, String>(true) && final(self)@ == (
                LifecycleView { record, ..old(self)@ }),
            },
    {
        if let Err(message) = check_record(&self.record) {
            return Err(message);
        }
        let record = &mut self.record;
        if !text_eq(record.launch_nonce_sha256.as_str(), expected_nonce_hash) {
            return Err("server launch nonce does not match lifecycle record".to_owned());
        }
        if !opt_text_eq(&identity.launch_nonce_sha256, expected_nonce_hash) {
            return Err("server process environment nonce does not match PREPARED".to_owned());
        }
        if identity.executable != record.expected_server_executable || !text_eq(
            identity.command_sha256.as_str(),
            record.expected_server_command_sha256.as_str(),
        ) || identity.cwd != record.bundle_identity {
            return Err(
                "server executable, argv, or bundle identity changed after PREPARED".to_owned(),
            );
        }
        match executable {
            Err(message) => return Err(message.clone()),
            Ok(path) => {
                if !same_path(path.as_str(), record.expected_server_path.as_str()) {
                    return Err(
                        "server executable path ".to_owned().concat(path.as_str()).concat(
                            " does not match PREPARED ",
                        ).concat(record.expected_server_path.as_str()),
                    );
                }
            },
        }
        if let Some(registered) = &record.server {
            if immutable_identity_matches(registered, &identity) {
                return Ok(false);
            }
            return Err("a different server identity is already registered".to_owned());
        }
        if record.phase != LifecyclePhase::Prepared {
            return Err(
                "server registration requires PREPARED, found ".to_owned().concat(
                    record.phase.name(),
                ),
            );
        }
        if !text_eq(record.target.cgroup(), identity.cgroup.as_str()) {
            return Err(
                "server registered in ".to_owned().concat(identity.cgroup.as_str()).concat(
                    ", expected ",
                ).concat(record.target.cgroup()),
            );
        }
        match next_sequence(record.sequence) {
            Err(message) => Err(message),
            Ok(sequence) => {
                record.server = Some(identity);
                record.phase = LifecyclePhase::ServerIdentified;
                record.sequence = sequence;
                Ok(true)
            },
        }
    }

    /// Records the socket that the server bound.
    pub fn mark_socket_ready(&mut self, seen: &SocketSighting) -> (r: Result<(), String>)
        ensures
            moves(old(self)@, final(self)@, r, socket_readiness(old(self)@.record, *seen)),
    {
        if !seen.is_socket {
            return Err(
                "bound shim path is not a socket: ".to_owned().concat(seen.path.as_str()),
            );
        }
        if let Err(message) = check_record(&self.record) {
            return Err(message);
        }
        let record = &mut self.record;
        if record.phase != LifecyclePhase::ServerIdentified && record.phase
            != LifecyclePhase::SocketReady {
            return Err(
                "socket readiness requires SERVER_IDENTIFIED, found ".to_owned().concat(
                    record.phase.name(),
                ),
            );
        }
        if !text_eq(record.socket.path.as_str(), seen.path.as_str()) {
            return Err("shim socket path changed after PREPARED".to_owned());
        }
        match &seen.parent {
            Err(message) => return Err(message.clone()),
            Ok(parent) => {
                if *parent != record.socket.parent {
                    return Err("shim socket parent identity changed".to_owned());
                }
            },
        }
        match next_sequence(record.sequence) {
            Err(message) => Err(message),
            Ok(sequence) => {
                record.socket.device = Some(seen.device);
                record.socket.inode = Some(seen.inode);
                record.phase = LifecyclePhase::SocketReady;
                record.sequence = sequence;
                Ok(())
            },
        }
    }

    /// Publishes the failure of a Create.
    pub fn finish_create_failure(
        &mut self,
        code: &str,
        message: &str,
        now: &Result<u128, String>,
    ) -> (r: Result<(), String>)
        ensures
            moves(
                old(self)@,
                final(self)@,
                r,
                create_failure(old(self)@.record, code@, message@, *now),
            ),
    {
        if let Err(error) = check_record(&self.record) {
            return Err(error);
        }
        let record = &mut self.record;
        if !claimed(record.phase) {
            return Err(
                "failed Create requires TAKEOVER_CLAIMED or CONTAINERD_COMMITTED, found ".to_owned().concat(
                record.phase.name()),
            );
        }
        if record.create_state == CreateState::Failed {
            match &record.failure {
                None => return Err("durable FAILED Create has no result identity".to_owned()),
                Some(existing) => {
                    if !text_eq(existing.code.as_str(), code) || !text_eq(
                        existing.message.as_str(),
                        message,
                    ) {
                        return Err(
                            "refuse to replace durable Create failure ".to_owned().concat(
                                existing.code.as_str(),
                            ).concat("/").concat(existing.message.as_str()).concat(" with ").concat(
                                code,
                            ).concat("/").concat(message),
                        );
                    }
                },
            }
            return match next_sequence(record.sequence) {
                Err(error) => Err(error),
                Ok(sequence) => {
                    record.sequence = sequence;
                    Ok(())
                },
            };
        }
        if record.create_state != CreateState::InProgress {
            return Err(
                "failed Create cannot replace ".to_owned().concat(record.create_state.name()),
            );
        }
        let published_at_ms: u128 = match now {
            Err(error) => return Err(error.clone()),
            Ok(now) => *now,
        };
        match next_sequence(record.sequence) {
            Err(error) => Err(error),
            Ok(sequence) => {
                record.create_state = CreateState::Failed;
                record.failure = Some(
                    FailureResult {
                        code: code.to_owned(),
                        message: message.to_owned(),
                        published_at_ms,
                        waiter_count: record.create_waiters,
                        drained: false,
                    },
                );
                record.sequence = sequence;
                Ok(())
            },
        }
    }

    /// Takes one waiter of the Create off the record; the last one drains the
    /// failure.
    pub fn finish_create_waiter(&mut self) -> (r: Result<(), String>)
        ensures
            moves(old(self)@, final(self)@, r, waiter_departure(old(self)@.record)),
    {
        if let Err(error) = check_record(&self.record) {
            return Err(error);
        }
        let record = &mut self.record;
        if record.create_waiters == 0 {
            return Err("Create waiter count underflow".to_owned());
        }
        match next_sequence(record.sequence) {
            Err(error) => Err(error),
            Ok(sequence) => {
                record.create_waiters = record.create_waiters - 1;
                if record.create_waiters == 0 {
                    let failure = record.failure.take();
                    record.failure = match failure {
                        Some(mut failure) => {
                            failure.drained = true;
                            Some(failure)
                        },
                        None => None,
                    };
                }
                record.sequence = sequence;
                Ok(())
            },
        }
    }

    /// The durable result of the Create, if there is one yet.
    pub fn current_create_result(&self) -> (r: Result<Option<PersistedCreateResult>, String>)
        ensures
            match create_result(self@.record) {
                Err(message) => fails_with(r, message),
                Ok(None) => r matches Ok(None),
                Ok(Some(result)) => r matches Ok(Some(found)) && found@ == result,
            },
    {
        recorded_create_result(&self.record)
    }

    /// Requests cleanup. After a success the reason has to be kept beside the
    /// record, unless the lifecycle is done.
    pub fn request_cleanup(&mut self, reason: &str, now: &Result<u128, String>) -> (r: Result<
        (),
        String,
    >)
        ensures
            moves(
                old(self)@,
                final(self)@,
                r,
                cleanup_request(old(self)@.record, reason@, *now),
            ),
    {
        if let Err(error) = check_record(&self.record) {
            return Err(error);
        }
        let sequence = next_sequence(self.record.sequence);
        let record = &mut self.record;
        if record.phase == LifecyclePhase::Done {
            return match sequence {
                Err(error) => Err(error),
                Ok(sequence) => {
                    record.sequence = sequence;
                    Ok(())
                },
            };
        }
        if claimed(record.phase) && record.create_state == CreateState::InProgress {
            let published_at_ms: u128 = match now {
                Err(error) => return Err(error.clone()),
                Ok(now) => *now,
            };
            let old_epoch: u64 = record.operation_owner.epoch;
            let epoch: u64 = match next_epoch(old_epoch) {
                Err(error) => return Err(error),
                Ok(epoch) => epoch,
            };
            return match sequence {
                Err(error) => Err(error),
                Ok(sequence) => {
                    record.create_state = CreateState::Failed;
                    record.failure = Some(
                        FailureResult {
                            code: "CANCELLED".to_owned(),
                            message: reason.to_owned(),
                            published_at_ms,
                            waiter_count: record.create_waiters,
                            drained: record.create_waiters == 0,
                        },
                    );
                    record.operation_owner.epoch = epoch;
                    record.operation_owner.revoked_epoch = Some(old_epoch);
                    record.sequence = sequence;
                    Ok(())
                },
            };
        }
        if claimed(record.phase) && record.create_state == CreateState::Failed {
            match create_failure_cleanup_ready(record, now) {
                Err(error) => return Err(error),
                Ok(true) => {},
                Ok(false) => return match sequence {
                    Err(error) => Err(error),
                    Ok(sequence) => {
                        record.sequence = sequence;
                        Ok(())
                    },
                },
            }
        }
        self.commit_cleanup(sequence)
    }

    /// Fences the record for cleanup and gives it its next sequence.
    fn commit_cleanup(&mut self, sequence: Result<u64, String>) -> (r: Result<(), String>)
        requires
            record_fault(old(self)@.record) is None,
            if old(self)@.record.sequence == u64::MAX {
                fails_with(sequence, "lifecycle sequence overflow"@)
            } else {
                sequence matches Ok(next) && next == old(self)@.record.sequence + 1
            },
        ensures
            moves(
                old(self)@,
                final(self)@,
                r,
                updated(old(self)@.record, cleanup_requested(old(self)@.record)),
            ),
    {
        let record = &mut self.record;
        if cleaning(record.phase) {
            return match sequence {
                Err(error) => Err(error),
                Ok(sequence) => {
                    record.sequence = sequence;
                    Ok(())
                },
            };
        }
        let old_epoch: u64 = record.operation_owner.epoch;
        let epoch: u64 = match next_epoch(old_epoch) {
            Err(error) => return Err(error),
            Ok(epoch) => epoch,
        };
        match sequence {
            Err(error) => Err(error),
            Ok(sequence) => {
                record.operation_owner.epoch = epoch;
                record.operation_owner.revoked_epoch = Some(old_epoch);
                record.phase = LifecyclePhase::CleanupRequired;
                record.sequence = sequence;
                Ok(())
            },
        }
    }

    /// Publishes a failure for the scanner and fences the Create, unless the
    /// record is no longer the one that the scanner judged. The result says
    /// whether it was.
    pub fn scanner_publish_failure_if_current(
        &mut self,
        snapshot: &LifecycleRecord,
        code: &str,
        message: &str,
        observed: Option<ContainmentIdentity>,
        now: &Result<u128, String>,
    ) -> (r: Result<bool, String>)
        ensures
            match scanner_failure(
                old(self)@.record,
                snapshot@,
                code@,
                message@,
                opt_breach(observed),
                *now,
            ) {
                Err(error) => fails_with(r, error) && final(self)@ == old(self)@,
                Ok(None) => r == Ok::<bool, String>(false) && final(self)@ == old(self)@,
                Ok(Some(record)) => r == Ok::<bool, String>(true) && final(self)@ == (
                LifecycleView { record, ..old(self)@ }),
            },
    {
        if let Err(error) = check_record(&self.record) {
            return Err(error);
        }
        let record = &mut self.record;
        if !same_scanner_snapshot(snapshot, record) {
            return Ok(false);
        }
        if record.create_state != CreateState::InProgress || !claimed(record.phase) {
            return Err(
                "scanner failure takeover requires active Create, found ".to_owned().concat(
                    record.phase.name(),
                ).concat("/").concat(record.create_state.name()),
            );
        }
        let old_epoch: u64 = record.operation_owner.epoch;
        let epoch: u64 = match next_epoch(old_epoch) {
            Err(error) => return Err(error),
            Ok(epoch) => epoch,
        };
        let published_at_ms: u128 = match now {
            Err(error) => return Err(error.clone()),
            Ok(now) => *now,
        };
        match next_sequence(record.sequence) {
            Err(error) => Err(error),
            Ok(sequence) => {
                if record.containment_breach.is_none() {
                    record.containment_breach = observed;
                }
                record.operation_owner.epoch = epoch;
                record.operation_owner.revoked_epoch = Some(old_epoch);
                record.create_state = CreateState::Failed;
                record.failure = Some(
                    FailureResult {
                        code: code.to_owned(),
                        message: message.to_owned(),
                        published_at_ms,
                        waiter_count: record.create_waiters,
                        drained: record.create_waiters == 0,
                    },
                );
                record.sequence = sequence;
                Ok(true)
            },
        }
    }

    /// Requests cleanup for the scanner, unless the record is no longer the
    /// one that the scanner judged or may not be cleaned up yet. The result
    /// says whether cleanup was requested; the reason then has to be kept
    /// beside the record.
    pub fn scanner_request_cleanup_if_current(
        &mut self,
        snapshot: &LifecycleRecord,
        observed: Option<ContainmentIdentity>,
        now: &Result<u128, String>,
    ) -> (r: Result<bool, String>)
        ensures
            match scanner_cleanup(old(self)@.record, snapshot@, opt_breach(observed), *now) {
                Err(error) => fails_with(r, error) && final(self)@ == old(self)@,
                Ok(None) => r == Ok::<bool, String>(false) && final(self)@ == old(self)@,
                Ok(Some(record)) => r == Ok::<bool, String>(true) && final(self)@ == (
                LifecycleView { record, ..old(self)@ }),
            },
    {
        if let Err(error) = check_record(&self.record) {
            return Err(error);
        }
        if !same_scanner_snapshot(snapshot, &self.record) {
            return Ok(false);
        }
        if claimed(self.record.phase) {
            match self.record.create_state {
                CreateState::Unstarted => return Err(
                    "scanner found claimed lifecycle without Create state".to_owned(),
                ),
                CreateState::InProgress => return Err(
                    "scanner cannot revoke an IN_PROGRESS Create before publishing its durable failure".to_owned(),
                ),
                CreateState::Failed => {
                    match create_failure_cleanup_ready(&self.record, now) {
                        Err(error) => return Err(error),
                        Ok(false) => return Ok(false),
                        Ok(true) => {},
                    }
                },
                CreateState::Succeeded => {},
            }
        }
        if self.record.phase == LifecyclePhase::Done {
            return Ok(false);
        }
        let sequence = next_sequence(self.record.sequence);
        match self.commit_cleanup(sequence) {
            Err(error) => Err(error),
            Ok(()) => {
                if self.record.containment_breach.is_none() {
                    self.record.containment_breach = observed;
                }
                Ok(true)
            },
        }
    }

    /// Requests the cleanup of a lifecycle that cannot go on. After a success
    /// the reason has to be kept beside the record, unless it is done.
    pub fn request_degraded_cleanup(&mut self, reason: &str) -> (r: Result<(), String>)
        ensures
            moves(old(self)@, final(self)@, r, degraded_cleanup(old(self)@.record, reason@)),
    {
        if let Err(error) = check_record(&self.record) {
            return Err(error);
        }
        let sequence = next_sequence(self.record.sequence);
        if self.record.phase == LifecyclePhase::Done {
            return match sequence {
                Err(error) => Err(error),
                Ok(sequence) => {
                    self.record.sequence = sequence;
                    Ok(())
                },
            };
        }
        match self.commit_cleanup(sequence) {
            Err(error) => Err(error),
            Ok(()) => {
                if self.record.degraded_reason.is_none() {
                    self.record.degraded_reason = Some(reason.to_owned());
                }
                Ok(())
            },
        }
    }

    /// Requests the cleanup of a lifecycle whose process was seen outside its
    /// target. After a success the reason has to be kept beside the record,
    /// unless it is done.
    pub fn request_containment_cleanup(&mut self, observed: ContainmentIdentity) -> (r: Result<
        (),
        String,
    >)
        ensures
            moves(old(self)@, final(self)@, r, containment_cleanup(old(self)@.record, observed@)),
    {
        if let Err(error) = check_record(&self.record) {
            return Err(error);
        }
        let sequence = next_sequence(self.record.sequence);
        if self.record.phase == LifecyclePhase::Done {
            return match sequence {
                Err(error) => Err(error),
                Ok(sequence) => {
                    self.record.sequence = sequence;
                    Ok(())
                },
            };
        }
        match self.commit_cleanup(sequence) {
            Err(error) => Err(error),
            Ok(()) => {
                if self.record.containment_breach.is_none() {
                    self.record.containment_breach = Some(observed);
                }
                Ok(())
            },
        }
    }

    /// Moves the record from one phase to another; a record in any other phase
    /// keeps it.
    pub(crate) fn advance_phase(&mut self, from: LifecyclePhase, to: LifecyclePhase) -> (r: Result<
        (),
        String,
    >)
        ensures
            moves(old(self)@, final(self)@, r, phase_advance(old(self)@.record, from, to)),
    {
        if let Err(error) = check_record(&self.record) {
            return Err(error);
        }
        match next_sequence(self.record.sequence) {
            Err(error) => Err(error),
            Ok(sequence) => {
                if self.record.phase == from {
                    self.record.phase = to;
                }
                self.record.sequence = sequence;
                Ok(())
            },
        }
    }

    /// Records the identity of the target's cgroup directory with the record
    /// and with the Host owner. The owner comes first: it has the identity
    /// even where the record cannot take it.
    pub fn persist_leaf_identity(&mut self, identity: FileIdentity) -> (r: Result<(), String>)
        ensures
            leaf_recorded(old(self)@, final(self)@, r, identity),
    {
        if let Err(error) = check_record(&self.record) {
            return Err(error);
        }
        if let Err(error) = check_host_owner(&self.host_owner) {
            return Err(error);
        }
        if !text_eq(self.record.generation.as_str(), self.host_owner.generation.as_str())
            || !self.record.target.same_location(&self.host_owner.target) {
            return Err("Host owner identity changed while recording leaf".to_owned());
        }
        self.host_owner.target.set_leaf_identity(identity);
        match next_sequence(self.record.sequence) {
            Err(error) => Err(error),
            Ok(sequence) => {
                self.record.target.set_leaf_identity(identity);
                self.record.sequence = sequence;
                Ok(())
            },
        }
    }

    /// Publishes the success of a Create. A managed sandbox must have its
    /// controllers committed and every one of them at its target. The result
    /// says whether the record changed.
    pub fn finish_create_success(
        &mut self,
        seen: &TargetSighting,
        readings: &Vec<Result<String, String>>,
    ) -> (r: Result<bool, String>)
        requires
            old(self)@.host_owner.controllers matches Some(journal) ==> readings@.len()
                == journal.steps.len(),
        ensures
            match create_success(old(self)@, *seen, outcomes(readings@)) {
                Err(message) => fails_with(r, message) && final(self)@ == old(self)@,
                Ok(None) => r == Ok::<bool, String>(false) && final(self)@ == old(self)@,
                Ok(Some(record)) => r == Ok::<bool, String>(true) && final(self)@ == (
                LifecycleView { record, ..old(self)@ }),
            },
    {
        if let Err(error) = check_record(&self.record) {
            return Err(error);
        }
        if self.record.phase != LifecyclePhase::ContainerdCommitted {
            return Err(
                "successful Create requires CONTAINERD_COMMITTED, found ".to_owned().concat(
                    self.record.phase.name(),
                ),
            );
        }
        if self.record.create_state == CreateState::Succeeded {
            return Ok(false);
        }
        if self.record.create_state != CreateState::InProgress {
            return Err(
                "successful Create cannot replace ".to_owned().concat(
                    self.record.create_state.name(),
                ),
            );
        }
        if self.record.classification == Classification::ManagedSandbox {
            if let Err(error) = check_host_owner(&self.host_owner) {
                return Err(error);
            }
            if let Err(error) = verify_host_owner_for_record(&self.host_owner, &self.record) {
                return Err(error);
            }
            match &self.host_owner.controllers {
                None => return Err(
                    "successful managed Create has no Host controller journal".to_owned(),
                ),
                Some(journal) => {
                    if journal.state != ControllerTransactionState::ControllersCommitted {
                        return Err(
                            "successful managed Create requires CONTROLLERS_COMMITTED, found ".to_owned().concat(
                            journal.state.name()),
                        );
                    }
                    if let Err(error) = crate::controllers::host_leaf_path(
                        &self.record.target,
                        seen,
                    ) {
                        return Err(error);
                    }
                    if let Err(error) = exact_controller_readback(journal, true, readings) {
                        return Err(error);
                    }
                },
            }
        }
        match next_sequence(self.record.sequence) {
            Err(error) => Err(error),
            Ok(sequence) => {
                self.record.create_state = CreateState::Succeeded;
                self.record.failure = None;
                self.record.sequence = sequence;
                Ok(true)
            },
        }
    }
}

/// How recording a leaf identity changes a lifecycle.
pub open spec fn leaf_recorded(
    before: LifecycleView,
    after: LifecycleView,
    r: Result<(), String>,
    identity: FileIdentity,
) -> bool {
    let owned = LifecycleView {
        host_owner: HostCgroupOwnerView {
            target: before.host_owner.target.with_leaf(Some(identity)),
            ..before.host_owner
        },
        ..before
    };
    if record_fault(before.record) is Some {
        fails_with(r, record_fault(before.record)->0) && after == before
    } else if host_owner_fault(before.host_owner) is Some {
        fails_with(r, host_owner_fault(before.host_owner)->0) && after == before
    } else if before.record.generation != before.host_owner.generation
        || !before.record.target.same_place(before.host_owner.target) {
        fails_with(r, "Host owner identity changed while recording leaf"@) && after == before
    } else if before.record.sequence == u64::MAX {
        fails_with(r, "lifecycle sequence overflow"@) && after == owned
    } else {
        r is Ok && after == (LifecycleView {
            record: LifecycleRecordView {
                target: before.record.target.with_leaf(Some(identity)),
                sequence: (before.record.sequence + 1) as u64,
                ..before.record
            },
            ..owned
        })
    }
}

/// Why the committed leaf of a target cannot be used, if it cannot.
pub open spec fn leaf_fault(target: HostTargetView, seen: TargetSighting) -> Option<Seq<char>> {
    if !target.is_managed() || target.leaf() is None {
        Some("managed Host target has no committed leaf identity"@)
    } else {
        target_drift(target, seen)
    }
}

/// Why the controllers of a managed lifecycle are not committed at their
/// targets, if they are not; `missing` and `pending` begin the messages about
/// a missing and an uncommitted journal.
pub open spec fn committed_fault(
    state: LifecycleView,
    seen: TargetSighting,
    readings: Seq<Result<Seq<char>, Seq<char>>>,
    missing: Seq<char>,
    pending: Seq<char>,
) -> Option<Seq<char>> {
    if host_owner_fault(state.host_owner) is Some {
        host_owner_fault(state.host_owner)
    } else if !host_owner_matches(state.host_owner, state.record) {
        Some("Host owner does not match committed lifecycle identity"@)
    } else {
        match state.host_owner.controllers {
            None => Some(missing),
            Some(journal) => if journal.state
                != ControllerTransactionState::ControllersCommitted {
                Some(pending + journal.state.label())
            } else if leaf_fault(state.record.target, seen) is Some {
                leaf_fault(state.record.target, seen)
            } else {
                readback_fault(journal.steps, true, readings, 0)
            },
        }
    }
}

/// What a successful Create leads to.
pub open spec fn create_success(
    state: LifecycleView,
    seen: TargetSighting,
    readings: Seq<Result<Seq<char>, Seq<char>>>,
) -> Result<Option<LifecycleRecordView>, Seq<char>> {
    let record = state.record;
    let fault = committed_fault(
        state,
        seen,
        readings,
        "successful managed Create has no Host controller journal"@,
        "successful managed Create requires CONTROLLERS_COMMITTED, found "@,
    );
    if record_fault(record) is Some {
        Err(record_fault(record)->0)
    } else if record.phase != LifecyclePhase::ContainerdCommitted {
        Err("successful Create requires CONTAINERD_COMMITTED, found "@ + record.phase.label())
    } else if record.create_state == CreateState::Succeeded {
        Ok(None)
    } else if record.create_state != CreateState::InProgress {
        Err("successful Create cannot replace "@ + record.create_state.label())
    } else if record.classification == Classification::ManagedSandbox && fault is Some {
        Err(fault->0)
    } else {
        match updated(
            record,
            Ok(
                LifecycleRecordView { create_state: CreateState::Succeeded, failure: None, ..record },
            ),
        ) {
            Err(message) => Err(message),
            Ok(next) => Ok(Some(next)),
        }
    }
}

/// A transition succeeds with its new record and with nothing else changed, or
/// fails with its message and changes nothing.
pub proof fn law_transitions_happen_whole(
    before: LifecycleView,
    after: LifecycleView,
    next: LifecycleRecordView,
    error: String,
    message: Seq<char>,
)
    ensures
        moves(before, after, Ok(()), Ok(next)) == (after.record == next && after.host_owner
            == before.host_owner && after.runtime_owner == before.runtime_owner),
        !moves(before, after, Err(error), Ok(next)),
        !moves(before, after, Ok(()), Err(message)),
        moves(before, after, Err(error), Err(message)) == (error@ == message && after == before),
{
}

/// What a change makes of a usable record is the change with the next sequence
/// number; a record that cannot be used, or counted on, is not changed.
pub proof fn law_changes_are_counted(
    record: LifecycleRecordView,
    next: LifecycleRecordView,
    message: Seq<char>,
)
    ensures
        record.schema_version == 2 && record.generation.len() > 0 && record.sequence < u64::MAX
            ==> updated(record, Ok(next)) == Ok::<LifecycleRecordView, Seq<char>>(
            LifecycleRecordView { sequence: (record.sequence + 1) as u64, ..next },
        ),
        record.schema_version == 2 && record.generation.len() > 0 ==> updated(record, Err(message))
            == Err::<LifecycleRecordView, Seq<char>>(message),
        record.schema_version != 2 || record.generation.len() == 0 || record.sequence == u64::MAX
            ==> updated(record, Ok(next)) is Err,
{
}

} // verus!
