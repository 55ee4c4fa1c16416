//! The claim of a lifecycle by its first Create, and the admission of retries.
use vstd::prelude::*;

use crate::cri::{classification, classify_and_target, BundleSpec};
use crate::digest::{hex, sha256, sha256_hex};
use crate::identity::{
    immutable_identity_matches, same_process, FileIdentity, OperationOwner, OperationOwnerView,
    OwnerKind, ProcessIdentity, ProcessIdentityView,
};
use crate::lifecycle::{
    check_record, claimed, is_claimed, next_epoch, next_sequence, record_fault, updated,
    LifecycleHandle, LifecycleView,
};
use crate::record::{
    Classification, CreateState, LifecyclePhase, LifecycleRecord, LifecycleRecordView,
};
use crate::target::{
    membership_fault, passes_unless, verify_target_membership, HostTarget, HostTargetView,
    TargetSighting,
};
use crate::text::{fails_with, opt_text_eq, text_eq};

verus! {

/// How a Create was admitted.
#[derive(Clone, Copy, Debug, PartialEq, Eq, Structural)]
pub enum CreateAdmission {
    First,
    RetryInProgress,
    RetrySucceeded,
    RetryFailed,
}

/// Why a Create was not admitted.
#[derive(Debug, PartialEq, Eq)]
pub enum BeginCreateError {
    /// Another Create owns the lifecycle.
    Conflict(String),
    /// The request or the lifecycle does not allow a Create.
    Invalid(String),
}

impl BeginCreateError {
    /// The message of the error.
    pub open spec fn text(self) -> Seq<char> {
        match self {
            BeginCreateError::Conflict(message) => message@,
            BeginCreateError::Invalid(message) => message@,
        }
    }

    /// The message of the error.
    pub fn message(&self) -> (message: &str)
        ensures
            message@ == self.text(),
    {
        match self {
            BeginCreateError::Conflict(message) => message.as_str(),
            BeginCreateError::Invalid(message) => message.as_str(),
        }
    }
}

/// A refused Create, in contents.
pub enum Refusal {
    Conflict(Seq<char>),
    Invalid(Seq<char>),
}

/// The result is this refusal.
pub open spec fn refused_with(
    r: Result<CreateAdmission, BeginCreateError>,
    refusal: Refusal,
) -> bool {
    match refusal {
        Refusal::Conflict(message) => r matches Err(BeginCreateError::Conflict(text)) && text@
            == message,
        Refusal::Invalid(message) => r matches Err(BeginCreateError::Invalid(text)) && text@
            == message,
    }
}

/// Whether a claimed server may be in a cgroup: where it was started or, for a
/// managed sandbox, in its target.
pub open spec fn takeover_allows(record: LifecycleRecordView, cgroup: Seq<char>) -> bool {
    cgroup == record.helper.cgroup || (record.classification == Classification::ManagedSandbox
        && cgroup == record.target.location())
}

/// Whether a claimed server may be in a cgroup.
pub fn takeover_cgroup_allowed(record: &LifecycleRecord, cgroup: &str) -> (r: bool)
    ensures
        r == takeover_allows(record@, cgroup@),
{
    text_eq(cgroup, record.helper.cgroup.as_str()) || (record.classification
        == Classification::ManagedSandbox && text_eq(cgroup, record.target.cgroup()))
}

/// The caller of a Create and its place, as the Host shows them.
pub struct CallerSighting {
    /// The process that makes the claim.
    pub server: Result<ProcessIdentity, String>,
    /// The directories of the recorded target.
    pub target: TargetSighting,
    /// The cgroup of the process that makes the claim.
    pub cgroup: Result<String, String>,
}

/// The admission that a retry of a Create gets.
pub open spec fn retry_admission(state: CreateState) -> Option<CreateAdmission> {
    match state {
        CreateState::InProgress => Some(CreateAdmission::RetryInProgress),
        CreateState::Succeeded => Some(CreateAdmission::RetrySucceeded),
        CreateState::Failed => Some(CreateAdmission::RetryFailed),
        CreateState::Unstarted => None,
    }
}

/// Why a retry of the durable Create is not admitted, if it is not.
pub open spec fn retry_fault(
    record: LifecycleRecordView,
    server: ProcessIdentityView,
    seen: CallerSighting,
) -> Option<Seq<char>> {
    let owner = record.operation_owner.identity;
    if record.operation_owner.kind != OwnerKind::Server || !same_process(owner, server) {
        Some("retry caller or claimed server identity changed"@)
    } else if record.phase == LifecyclePhase::ContainerdCommitted && (owner.cgroup
        != record.target.location() || server.cgroup != record.target.location()) {
        Some("retry caller or committed owner containment identity changed"@)
    } else if record.phase == LifecyclePhase::ContainerdCommitted && membership_fault(
        record.target,
        server.pid as int,
        seen.target,
        seen.cgroup,
    ) is Some {
        membership_fault(record.target, server.pid as int, seen.target, seen.cgroup)
    } else if record.phase != LifecyclePhase::ContainerdCommitted && !takeover_allows(
        record,
        server.cgroup,
    ) {
        Some("retry caller is outside both claimed Host locations"@)
    } else if record.create_waiters == u32::MAX {
        Some("Create waiter count overflow"@)
    } else if retry_admission(record.create_state) is None {
        Some("committed Create has no durable state"@)
    } else {
        None
    }
}

/// Why a lifecycle cannot be claimed for the first time, if it cannot.
pub open spec fn first_claim_fault(
    record: LifecycleRecordView,
    expected: Classification,
    target: HostTargetView,
    server: ProcessIdentityView,
    seen: CallerSighting,
) -> Option<Seq<char>> {
    if record.phase != LifecyclePhase::SocketReady {
        Some("takeover requires SOCKET_READY, found "@ + record.phase.label())
    } else if record.classification != Classification::Pending || !(record.target is Pending) {
        Some("unclaimed lifecycle has a concrete classification or target"@)
    } else if record.server is None {
        Some("takeover record has no server identity"@)
    } else if !same_process(record.server->0, server) {
        Some("takeover caller does not match registered server"@)
    } else if record.server->0.cgroup != record.target.location() || server.cgroup
        != record.target.location() {
        Some("first takeover caller left the bootstrap cgroup"@)
    } else if membership_fault(
        record.target,
        server.pid as int,
        seen.target,
        seen.cgroup,
    ) is Some {
        membership_fault(record.target, server.pid as int, seen.target, seen.cgroup)
    } else if expected == Classification::ManagedSandbox && target.leaf() is Some {
        Some("refuse to reuse an existing managed Host leaf "@ + target.location())
    } else if record.operation_owner.epoch == u64::MAX {
        Some("operation owner epoch overflow"@)
    } else {
        None
    }
}

/// A record that its first Create has claimed.
pub open spec fn claimed_record(
    record: LifecycleRecordView,
    expected: Classification,
    target: HostTargetView,
    fingerprint: Seq<char>,
    server: ProcessIdentityView,
    now: u128,
) -> LifecycleRecordView {
    LifecycleRecordView {
        operation_owner: OperationOwnerView {
            kind: OwnerKind::Server,
            epoch: (record.operation_owner.epoch + 1) as u64,
            identity: server,
            revoked_epoch: None,
        },
        classification: expected,
        target,
        phase: LifecyclePhase::TakeoverClaimed,
        takeover_claimed_at_ms: Some(now),
        create_state: CreateState::InProgress,
        create_fingerprint: Some(fingerprint),
        create_waiters: 1,
        ..record
    }
}

/// What a claim leads to: an admission with the record to be made durable, or
/// a refusal. A claimed lifecycle admits retries of its own Create only.
pub open spec fn claim_outcome(
    record: LifecycleRecordView,
    expected: Classification,
    target: HostTargetView,
    fingerprint: Seq<char>,
    seen: CallerSighting,
    now: Result<u128, String>,
) -> Result<(CreateAdmission, LifecycleRecordView), Refusal> {
    match seen.server {
        Err(message) => Err(Refusal::Invalid(message@)),
        Ok(caller) => {
            let server = caller@;
            if record_fault(record) is Some {
                Err(Refusal::Invalid(record_fault(record)->0))
            } else if is_claimed(record.phase) {
                if record.classification != expected || !record.target.same_place(target) {
                    Err(
                        Refusal::Conflict(
                            "takeover RPC "@ + expected.label() + " does not match durable "@
                                + record.classification.label(),
                        ),
                    )
                } else if record.create_fingerprint != Some(fingerprint) {
                    Err(
                        Refusal::Conflict(
                            "sandbox already has a different takeover fingerprint"@,
                        ),
                    )
                } else if retry_fault(record, server, seen) is Some {
                    Err(Refusal::Invalid(retry_fault(record, server, seen)->0))
                } else {
                    match updated(
                        record,
                        Ok(
                            LifecycleRecordView {
                                create_waiters: (record.create_waiters + 1) as u32,
                                ..record
                            },
                        ),
                    ) {
                        Err(message) => Err(Refusal::Invalid(message)),
                        Ok(next) => Ok((retry_admission(record.create_state)->0, next)),
                    }
                }
            } else if first_claim_fault(record, expected, target, server, seen) is Some {
                Err(Refusal::Invalid(first_claim_fault(record, expected, target, server, seen)->0))
            } else {
                match now {
                    Err(message) => Err(Refusal::Invalid(message@)),
                    Ok(now) => match updated(
                        record,
                        Ok(claimed_record(record, expected, target, fingerprint, server, now)),
                    ) {
                        Err(message) => Err(Refusal::Invalid(message)),
                        Ok(next) => Ok((CreateAdmission::First, next)),
                    },
                }
            }
        },
    }
}

/// A claim that succeeds with its admission and record, or is refused and
/// changes nothing.
pub open spec fn claims(
    before: LifecycleView,
    after: LifecycleView,
    r: Result<CreateAdmission, BeginCreateError>,
    outcome: Result<(CreateAdmission, LifecycleRecordView), Refusal>,
) -> bool {
    match outcome {
        Err(refusal) => refused_with(r, refusal) && after == before,
        Ok((admission, record)) => r == Ok::<CreateAdmission, BeginCreateError>(admission)
            && after == (LifecycleView { record, ..before }),
    }
}

fn invalid(message: String) -> (r: Result<CreateAdmission, BeginCreateError>)
    ensures
        refused_with(r, Refusal::Invalid(message@)),
{
    Err(BeginCreateError::Invalid(message))
}

fn check_retry(record: &LifecycleRecord, server: &ProcessIdentity, seen: &CallerSighting) -> (r:
    Result<CreateAdmission, String>)
    ensures
        match retry_fault(record@, server@, *seen) {
            Some(message) => fails_with(r, message),
            None => r == Ok::<CreateAdmission, String>(
                retry_admission(record@.create_state)->0,
            ),
        },
{
    let owner = &record.operation_owner.identity;
    if record.operation_owner.kind != OwnerKind::Server || !immutable_identity_matches(
        owner,
        server,
    ) {
        return Err("retry caller or claimed server identity changed".to_owned());
    }
    if record.phase == LifecyclePhase::ContainerdCommitted {
        if !text_eq(owner.cgroup.as_str(), record.target.cgroup()) || !text_eq(
            server.cgroup.as_str(),
            record.target.cgroup(),
        ) {
            return Err("retry caller or committed owner containment identity changed".to_owned());
        }
        if let Err(message) = verify_target_membership(
            &record.target,
            server.pid,
            &seen.target,
            &seen.cgroup,
        ) {
            return Err(message);
        }
    } else if !takeover_cgroup_allowed(record, server.cgroup.as_str()) {
        return Err("retry caller is outside both claimed Host locations".to_owned());
    }
    if record.create_waiters == u32::MAX {
        return Err("Create waiter count overflow".to_owned());
    }
    match record.create_state {
        CreateState::InProgress => Ok(CreateAdmission::RetryInProgress),
        CreateState::Succeeded => Ok(CreateAdmission::RetrySucceeded),
        CreateState::Failed => Ok(CreateAdmission::RetryFailed),
        CreateState::Unstarted => Err("committed Create has no durable state".to_owned()),
    }
}

fn check_first_claim(
    record: &LifecycleRecord,
    expected: Classification,
    target: &HostTarget,
    server: &ProcessIdentity,
    seen: &CallerSighting,
) -> (r: Result<u64, String>)
    ensures
        match first_claim_fault(record@, expected, target@, server@, *seen) {
            Some(message) => fails_with(r, message),
            None => r matches Ok(epoch) && epoch == record@.operation_owner.epoch + 1,
        },
{
    if record.phase != LifecyclePhase::SocketReady {
        return Err(
            "takeover requires SOCKET_READY, found ".to_owned().concat(record.phase.name()),
        );
    }
    if record.classification != Classification::Pending || !record.target.pending() {
        return Err("unclaimed lifecycle has a concrete classification or target".to_owned());
    }
    match &record.server {
        None => return Err("takeover record has no server identity".to_owned()),
        Some(registered) => {
            if !immutable_identity_matches(registered, server) {
                return Err("takeover caller does not match registered server".to_owned());
            }
            if !text_eq(registered.cgroup.as_str(), record.target.cgroup()) || !text_eq(
                server.cgroup.as_str(),
                record.target.cgroup(),
            ) {
                return Err("first takeover caller left the bootstrap cgroup".to_owned());
            }
        },
    }
    if let Err(message) = verify_target_membership(
        &record.target,
        server.pid,
        &seen.target,
        &seen.cgroup,
    ) {
        return Err(message);
    }
    if expected == Classification::ManagedSandbox && target.leaf_identity().is_some() {
        return Err(
            "refuse to reuse an existing managed Host leaf ".to_owned().concat(target.cgroup()),
        );
    }
    next_epoch(record.operation_owner.epoch)
}

/// The bundle of a request: its canonical path and the identity of the
/// directory.
pub struct BundleSighting {
    pub path: Result<String, String>,
    pub identity: Result<FileIdentity, String>,
}

/// Why the bundle of a request is not the one of the record, if it is not.
pub open spec fn bundle_fault(record: LifecycleRecordView, bundle: BundleSighting) -> Option<
    Seq<char>,
> {
    match bundle.path {
        Err(message) => Some(message@),
        Ok(path) => match bundle.identity {
            Err(message) => Some(message@),
            Ok(identity) => if identity != record.bundle_identity || path@ != record.bundle {
                Some("takeover bundle identity does not match PREPARED"@)
            } else {
                None
            },
        },
    }
}

/// Checks that the bundle of a request is the one of the record.
pub fn validate_takeover_bundle_identity(record: &LifecycleRecord, bundle: &BundleSighting) -> (r:
    Result<(), String>)
    ensures
        passes_unless(r, bundle_fault(record@, *bundle)),
{
    match &bundle.path {
        Err(message) => Err(message.clone()),
        Ok(path) => match &bundle.identity {
            Err(message) => Err(message.clone()),
            Ok(identity) => {
                if *identity != record.bundle_identity || !text_eq(
                    path.as_str(),
                    record.bundle.as_str(),
                ) {
                    return Err("takeover bundle identity does not match PREPARED".to_owned());
                }
                Ok(())
            },
        },
    }
}

/// What a managed Create leads to. A lifecycle that is claimed already keeps
/// its durable target, whatever the caller would derive now.
pub open spec fn managed_create_outcome(
    record: LifecycleRecordView,
    bundle: BundleSighting,
    id_check: Result<(), String>,
    derived: Result<HostTarget, String>,
    fingerprint: Seq<char>,
    seen: CallerSighting,
    now: Result<u128, String>,
) -> Result<(CreateAdmission, LifecycleRecordView), Refusal> {
    if record_fault(record) is Some {
        Err(Refusal::Invalid(record_fault(record)->0))
    } else if bundle_fault(record, bundle) is Some {
        Err(Refusal::Invalid(bundle_fault(record, bundle)->0))
    } else if record.namespace != "k8s.io"@ {
        Err(Refusal::Invalid("managed sandbox requires bootstrap namespace k8s.io"@))
    } else if id_check is Err {
        Err(Refusal::Invalid(id_check->Err_0@))
    } else if is_claimed(record.phase) {
        claim_outcome(
            record,
            Classification::ManagedSandbox,
            record.target,
            fingerprint,
            seen,
            now,
        )
    } else {
        match derived {
            Err(message) => Err(Refusal::Invalid(message@)),
            Ok(target) => claim_outcome(
                record,
                Classification::ManagedSandbox,
                target@,
                fingerprint,
                seen,
                now,
            ),
        }
    }
}

/// What a legacy Create leads to.
pub open spec fn legacy_create_outcome(
    record: LifecycleRecordView,
    instance_id: Seq<char>,
    id_check: Result<(), String>,
    bundle: BundleSighting,
    class: Result<(Classification, HostTargetView), Seq<char>>,
    fingerprint: Seq<char>,
    seen: CallerSighting,
    now: Result<u128, String>,
) -> Result<(CreateAdmission, LifecycleRecordView), Refusal> {
    if record_fault(record) is Some {
        Err(Refusal::Invalid(record_fault(record)->0))
    } else if id_check is Err {
        Err(Refusal::Invalid(id_check->Err_0@))
    } else if instance_id != record.instance_id {
        Err(
            Refusal::Invalid(
                "legacy CreateTask id "@ + instance_id + " does not match bootstrap "@
                    + record.instance_id,
            ),
        )
    } else if bundle_fault(record, bundle) is Some {
        Err(Refusal::Invalid(bundle_fault(record, bundle)->0))
    } else {
        match class {
            Err(message) => Err(Refusal::Invalid(message)),
            Ok((kind, target)) => if kind != Classification::LegacyTask {
                Err(
                    Refusal::Invalid("CreateTask cannot claim a managed Sandbox lifecycle"@),
                )
            } else {
                claim_outcome(record, kind, target, fingerprint, seen, now)
            },
        }
    }
}

/// The specification of a bundle together with what the Host says about it:
/// whether the annotated sandbox id is valid, and the target that its cgroups
/// path names.
pub struct BundleFacts {
    pub spec: Result<BundleSpec, String>,
    pub id_check: Result<(), String>,
    pub target: Result<HostTarget, String>,
}

/// What a bundle is and where it belongs, for this record.
pub open spec fn bundle_class(record: LifecycleRecordView, facts: BundleFacts) -> Result<
    (Classification, HostTargetView),
    Seq<char>,
> {
    match facts.spec {
        Err(message) => Err(message@),
        Ok(spec) => classification(
            spec@,
            record.namespace,
            record.instance_id,
            record.helper.cgroup,
            facts.id_check,
            facts.target,
        ),
    }
}

impl LifecycleHandle {
    /// Claims the lifecycle for a Create, or admits a retry of the Create that
    /// has claimed it.
    pub fn claim_create(
        &mut self,
        expected: Classification,
        target: HostTarget,
        fingerprint: &[u8],
        seen: &CallerSighting,
        now: &Result<u128, String>,
    ) -> (r: Result<CreateAdmission, BeginCreateError>)
        ensures
            claims(
                old(self)@,
                final(self)@,
                r,
                claim_outcome(
                    old(self)@.record,
                    expected,
                    target@,
                    hex(sha256(fingerprint@)),
                    *seen,
                    *now,
                ),
            ),
    {
        let fingerprint = sha256_hex(fingerprint);
        let server = match &seen.server {
            Err(message) => return invalid(message.clone()),
            Ok(server) => server.clone(),
        };
        if let Err(message) = check_record(&self.record) {
            return invalid(message);
        }
        let record = &mut self.record;
        if claimed(record.phase) {
            if record.classification != expected || !record.target.same_location(&target) {
                return Err(
                    BeginCreateError::Conflict(
                        "takeover RPC ".to_owned().concat(expected.name()).concat(
                            " does not match durable ",
                        ).concat(record.classification.name()),
                    ),
                );
            }
            if !opt_text_eq(&record.create_fingerprint, fingerprint.as_str()) {
                return Err(
                    BeginCreateError::Conflict(
                        "sandbox already has a different takeover fingerprint".to_owned(),
                    ),
                );
            }
            let admission = match check_retry(record, &server, seen) {
                Err(message) => return invalid(message),
                Ok(admission) => admission,
            };
            return match next_sequence(record.sequence) {
                Err(message) => invalid(message),
                Ok(sequence) => {
                    record.create_waiters = record.create_waiters + 1;
                    record.sequence = sequence;
                    Ok(admission)
                },
            };
        }
        let epoch: u64 = match check_first_claim(record, expected, &target, &server, seen) {
            Err(message) => return invalid(message),
            Ok(epoch) => epoch,
        };
        let claimed_at_ms: u128 = match now {
            Err(message) => return invalid(message.clone()),
            Ok(now) => *now,
        };
        match next_sequence(record.sequence) {
            Err(message) => invalid(message),
            Ok(sequence) => {
                record.operation_owner = OperationOwner {
                    kind: OwnerKind::Server,
                    epoch,
                    identity: server,
                    revoked_epoch: None,
                };
                record.classification = expected;
                record.target = target;
                record.phase = LifecyclePhase::TakeoverClaimed;
                record.takeover_claimed_at_ms = Some(claimed_at_ms);
                record.create_state = CreateState::InProgress;
                record.create_fingerprint = Some(fingerprint);
                record.create_waiters = 1;
                record.sequence = sequence;
                Ok(CreateAdmission::First)
            },
        }
    }

    /// Whether a managed Create uses the durable target, so that its caller
    /// must not derive another one.
    pub fn uses_durable_target(&self) -> (r: bool)
        ensures
            r == is_claimed(self@.record.phase),
    {
        claimed(self.record.phase)
    }

    /// Claims the lifecycle for a managed sandbox. `id_check` is whether the
    /// recorded instance id is a valid sandbox id, and `derived` the target
    /// under the caller's cgroup parent, which counts only while no Create has
    /// claimed the lifecycle.
    pub fn begin_managed_create(
        &mut self,
        bundle: &BundleSighting,
        id_check: &Result<(), String>,
        derived: &Result<HostTarget, String>,
        fingerprint: &[u8],
        seen: &CallerSighting,
        now: &Result<u128, String>,
    ) -> (r: Result<CreateAdmission, BeginCreateError>)
        ensures
            claims(
                old(self)@,
                final(self)@,
                r,
                managed_create_outcome(
                    old(self)@.record,
                    *bundle,
                    *id_check,
                    *derived,
                    hex(sha256(fingerprint@)),
                    *seen,
                    *now,
                ),
            ),
    {
        if let Err(message) = check_record(&self.record) {
            return invalid(message);
        }
        if let Err(message) = validate_takeover_bundle_identity(&self.record, bundle) {
            return invalid(message);
        }
        if !text_eq(self.record.namespace.as_str(), "k8s.io") {
            return invalid("managed sandbox requires bootstrap namespace k8s.io".to_owned());
        }
        if let Err(message) = id_check {
            return invalid(message.clone());
        }
        let target = if self.uses_durable_target() {
            self.record.target.clone()
        } else {
            match derived {
                Err(message) => return invalid(message.clone()),
                Ok(target) => target.clone(),
            }
        };
        self.claim_create(Classification::ManagedSandbox, target, fingerprint, seen, now)
    }

    /// Claims the lifecycle for a task. `id_check` is whether the caller's
    /// instance id is valid.
    pub fn begin_legacy_create(
        &mut self,
        instance_id: &str,
        id_check: &Result<(), String>,
        bundle: &BundleSighting,
        facts: &BundleFacts,
        fingerprint: &[u8],
        seen: &CallerSighting,
        now: &Result<u128, String>,
    ) -> (r: Result<CreateAdmission, BeginCreateError>)
        ensures
            claims(
                old(self)@,
                final(self)@,
                r,
                legacy_create_outcome(
                    old(self)@.record,
                    instance_id@,
                    *id_check,
                    *bundle,
                    bundle_class(old(self)@.record, *facts),
                    hex(sha256(fingerprint@)),
                    *seen,
                    *now,
                ),
            ),
    {
        if let Err(message) = check_record(&self.record) {
            return invalid(message);
        }
        if let Err(message) = id_check {
            return invalid(message.clone());
        }
        if !text_eq(instance_id, self.record.instance_id.as_str()) {
            return invalid(
                "legacy CreateTask id ".to_owned().concat(instance_id).concat(
                    " does not match bootstrap ",
                ).concat(self.record.instance_id.as_str()),
            );
        }
        if let Err(message) = validate_takeover_bundle_identity(&self.record, bundle) {
            return invalid(message);
        }
        let spec = match &facts.spec {
            Err(message) => return invalid(message.clone()),
            Ok(spec) => spec,
        };
        let (class, target) = match classify_and_target(
            spec,
            self.record.namespace.as_str(),
            self.record.instance_id.as_str(),
            self.record.helper.cgroup.as_str(),
            &facts.id_check,
            &facts.target,
        ) {
            Err(message) => return invalid(message),
            Ok(found) => found,
        };
        if class != Classification::LegacyTask {
            return invalid("CreateTask cannot claim a managed Sandbox lifecycle".to_owned());
        }
        self.claim_create(class, target, fingerprint, seen, now)
    }

    /// Whether a record that was read back holds exactly the claim that this
    /// lifecycle was to make durable. Where it does, the claim stands although
    /// making it durable reported an error.
    pub fn claim_is_durable(&self, durable: &LifecycleRecord, server: &ProcessIdentity) -> (r: bool)
        ensures
            r == holds_claim(durable@, self@.record, server@),
    {
        claimed(durable.phase) && durable.classification == self.record.classification
            && durable.target.same_location(&self.record.target)
            && crate::text::opt_text_same(
            &durable.create_fingerprint,
            &self.record.create_fingerprint,
        ) && durable.operation_owner.kind == OwnerKind::Server && immutable_identity_matches(
            &durable.operation_owner.identity,
            server,
        ) && durable.create_state != CreateState::Unstarted && durable.sequence
            == self.record.sequence && durable.create_waiters == self.record.create_waiters
    }
}

/// Whether a durable record holds the claim that `intended` was to hold, for
/// this server.
pub open spec fn holds_claim(
    durable: LifecycleRecordView,
    intended: LifecycleRecordView,
    server: ProcessIdentityView,
) -> bool {
    &&& is_claimed(durable.phase)
    &&& durable.classification == intended.classification
    &&& durable.target.same_place(intended.target)
    &&& durable.create_fingerprint == intended.create_fingerprint
    &&& durable.operation_owner.kind == OwnerKind::Server
    &&& same_process(durable.operation_owner.identity, server)
    &&& durable.create_state != CreateState::Unstarted
    &&& durable.sequence == intended.sequence
    &&& durable.create_waiters == intended.create_waiters
}

/// After a first claim of a lifecycle whose helper waits in the recorded
/// cgroup, the same Create is admitted as a retry and every other one meets a
/// conflict.
pub proof fn law_one_create_owns_a_claimed_lifecycle(
    record: LifecycleRecordView,
    expected: Classification,
    target: HostTargetView,
    fingerprint: Seq<char>,
    other: Seq<char>,
    seen: CallerSighting,
    now: Result<u128, String>,
)
    requires
        record.helper.cgroup == record.target.location(),
        claim_outcome(record, expected, target, fingerprint, seen, now) matches Ok((
            CreateAdmission::First,
            _,
        )),
    ensures
        ({
            let next = claim_outcome(record, expected, target, fingerprint, seen, now)->Ok_0.1;
            &&& next.create_state == CreateState::InProgress && next.create_waiters == 1
            &&& next.operation_owner.epoch == record.operation_owner.epoch + 1
            &&& next.sequence == record.sequence + 1
            &&& next.sequence < u64::MAX ==> (claim_outcome(
                next,
                expected,
                target,
                fingerprint,
                seen,
                now,
            ) matches Ok((CreateAdmission::RetryInProgress, again)) && again.create_waiters == 2)
            &&& other != fingerprint ==> claim_outcome(next, expected, target, other, seen, now)
                == Err::<(CreateAdmission, LifecycleRecordView), Refusal>(
                Refusal::Conflict("sandbox already has a different takeover fingerprint"@),
            )
        }),
{
}

/// Wherever the write of a claim fails, the claim can be made again: the record
/// before it does not pass for it, so the claim is refused and starts afresh,
/// and the record after it does, so the claim stands.
pub proof fn law_a_claim_is_retryable_after_every_failure(
    record: LifecycleRecordView,
    expected: Classification,
    target: HostTargetView,
    fingerprint: Seq<char>,
    seen: CallerSighting,
    now: Result<u128, String>,
)
    requires
        claim_outcome(record, expected, target, fingerprint, seen, now) is Ok,
    ensures
        ({
            let intended = claim_outcome(record, expected, target, fingerprint, seen, now)->Ok_0.1;
            let server = seen.server->Ok_0@;
            &&& !holds_claim(record, intended, server)
            &&& holds_claim(intended, intended, server)
        }),
{
}

/// A Create of the other kind meets a conflict once the lifecycle is claimed.
pub proof fn law_claims_of_two_kinds_have_one_winner(
    record: LifecycleRecordView,
    expected: Classification,
    other: Classification,
    target: HostTargetView,
    other_target: HostTargetView,
    fingerprint: Seq<char>,
    other_fingerprint: Seq<char>,
    seen: CallerSighting,
    now: Result<u128, String>,
)
    requires
        expected != other,
        claim_outcome(record, expected, target, fingerprint, seen, now) matches Ok((
            CreateAdmission::First,
            _,
        )),
    ensures
        ({
            let next = claim_outcome(record, expected, target, fingerprint, seen, now)->Ok_0.1;
            claim_outcome(next, other, other_target, other_fingerprint, seen, now) matches Err(
                Refusal::Conflict(_),
            )
        }),
{
}

/// A claimed managed lifecycle does not depend on the target that a later
/// caller would derive.
pub proof fn law_claimed_lifecycle_ignores_derived_targets(
    record: LifecycleRecordView,
    bundle: BundleSighting,
    id_check: Result<(), String>,
    derived: Result<HostTarget, String>,
    other: Result<HostTarget, String>,
    fingerprint: Seq<char>,
    seen: CallerSighting,
    now: Result<u128, String>,
)
    requires
        is_claimed(record.phase),
    ensures
        managed_create_outcome(record, bundle, id_check, derived, fingerprint, seen, now)
            == managed_create_outcome(record, bundle, id_check, other, fingerprint, seen, now),
{
}

/// A Create that is made again is admitted for what became of it: while it runs
/// as a retry of a running one, after its end as a retry of one that succeeded
/// or failed. Each is one waiter more, and changes nothing else.
pub proof fn law_repeated_create_is_admitted(
    record: LifecycleRecordView,
    fingerprint: Seq<char>,
    seen: CallerSighting,
    caller: ProcessIdentity,
    now: Result<u128, String>,
)
    requires
        record.schema_version == 2,
        record.generation.len() > 0,
        record.sequence < u64::MAX,
        record.create_waiters < u32::MAX,
        record.create_fingerprint == Some(fingerprint),
        record.operation_owner.kind == OwnerKind::Server,
        seen.server == Ok::<ProcessIdentity, String>(caller),
        same_process(record.operation_owner.identity, caller@),
        record.phase == LifecyclePhase::TakeoverClaimed ==> caller.cgroup@ == record.helper.cgroup
            || (record.classification == Classification::ManagedSandbox && caller.cgroup@
            == record.target.location()),
        record.phase == LifecyclePhase::ContainerdCommitted ==> caller.cgroup@
            == record.target.location() && record.operation_owner.identity.cgroup
            == record.target.location() && membership_fault(
            record.target,
            caller.pid as int,
            seen.target,
            seen.cgroup,
        ) is None,
        record.phase == LifecyclePhase::TakeoverClaimed || record.phase
            == LifecyclePhase::ContainerdCommitted,
        record.create_state != CreateState::Unstarted,
    ensures
        ({
            let outcome = claim_outcome(
                record,
                record.classification,
                record.target,
                fingerprint,
                seen,
                now,
            );
            &&& outcome is Ok
            &&& record.create_state == CreateState::InProgress ==> outcome->Ok_0.0
                == CreateAdmission::RetryInProgress
            &&& record.create_state == CreateState::Succeeded ==> outcome->Ok_0.0
                == CreateAdmission::RetrySucceeded
            &&& record.create_state == CreateState::Failed ==> outcome->Ok_0.0
                == CreateAdmission::RetryFailed
            &&& outcome->Ok_0.1.create_waiters == record.create_waiters + 1
            &&& outcome->Ok_0.1.sequence == record.sequence + 1
            &&& outcome->Ok_0.1 == (LifecycleRecordView {
                create_waiters: outcome->Ok_0.1.create_waiters,
                sequence: outcome->Ok_0.1.sequence,
                ..record
            })
        }),
{
}

/// A retry comes from the server that made the claim, from its place: a caller
/// that is another process, that is elsewhere or that comes while the counter
/// of waiters is full is not admitted.
pub proof fn law_strangers_do_not_retry(
    record: LifecycleRecordView,
    expected: Classification,
    target: HostTargetView,
    fingerprint: Seq<char>,
    seen: CallerSighting,
    caller: ProcessIdentity,
    now: Result<u128, String>,
)
    requires
        record.phase == LifecyclePhase::TakeoverClaimed || record.phase
            == LifecyclePhase::ContainerdCommitted,
        seen.server == Ok::<ProcessIdentity, String>(caller),
        record.operation_owner.kind != OwnerKind::Server || !same_process(
            record.operation_owner.identity,
            caller@,
        ) || record.create_waiters == u32::MAX || record.create_state == CreateState::Unstarted || (
        record.phase == LifecyclePhase::ContainerdCommitted && caller.cgroup@
            != record.target.location()) || (record.phase == LifecyclePhase::ContainerdCommitted
            && membership_fault(
            record.target,
            caller.pid as int,
            seen.target,
            seen.cgroup,
        ) is Some) || (record.phase == LifecyclePhase::TakeoverClaimed && caller.cgroup@
            != record.helper.cgroup && caller.cgroup@ != record.target.location()),
    ensures
        claim_outcome(record, expected, target, fingerprint, seen, now) is Err,
{
}

/// The registered server of a ready lifecycle claims it: it becomes the owner
/// of the next epoch, with the class, the target, the fingerprint and the
/// moment of its Create, which runs from then on with one waiter.
pub proof fn law_first_create_claims_the_lifecycle(
    record: LifecycleRecordView,
    expected: Classification,
    target: HostTargetView,
    fingerprint: Seq<char>,
    seen: CallerSighting,
    caller: ProcessIdentity,
    now: u128,
)
    requires
        record.schema_version == 2,
        record.generation.len() > 0,
        record.sequence < u64::MAX,
        record.operation_owner.epoch < u64::MAX,
        record.phase == LifecyclePhase::SocketReady,
        record.classification == Classification::Pending,
        record.target is Pending,
        seen.server == Ok::<ProcessIdentity, String>(caller),
        record.server is Some,
        same_process(record.server->0, caller@),
        record.server->0.cgroup == record.target.location(),
        caller.cgroup@ == record.target.location(),
        membership_fault(record.target, caller.pid as int, seen.target, seen.cgroup) is None,
    ensures
        ({
            let outcome = claim_outcome(record, expected, target, fingerprint, seen, Ok(now));
            let reused = expected == Classification::ManagedSandbox && target.leaf() is Some;
            &&& reused ==> outcome is Err
            &&& !reused ==> {
                &&& outcome is Ok
                &&& outcome->Ok_0.0 == CreateAdmission::First
                &&& outcome->Ok_0.1.operation_owner.kind == OwnerKind::Server
                &&& outcome->Ok_0.1.operation_owner.identity == caller@
                &&& outcome->Ok_0.1.operation_owner.epoch == record.operation_owner.epoch + 1
                &&& outcome->Ok_0.1.operation_owner.revoked_epoch is None
                &&& outcome->Ok_0.1.classification == expected
                &&& outcome->Ok_0.1.target == target
                &&& outcome->Ok_0.1.phase == LifecyclePhase::TakeoverClaimed
                &&& outcome->Ok_0.1.takeover_claimed_at_ms == Some(now)
                &&& outcome->Ok_0.1.create_state == CreateState::InProgress
                &&& outcome->Ok_0.1.create_fingerprint == Some(fingerprint)
                &&& outcome->Ok_0.1.create_waiters == 1
                &&& outcome->Ok_0.1.sequence == record.sequence + 1
                &&& outcome->Ok_0.1.server == record.server
                &&& outcome->Ok_0.1.helper == record.helper
                &&& outcome->Ok_0.1.socket == record.socket
                &&& outcome->Ok_0.1.failure == record.failure
                &&& outcome->Ok_0.1.generation == record.generation
                &&& outcome->Ok_0.1.instance_id == record.instance_id
            }
        }),
{
}

/// Nobody but the registered server claims a lifecycle for the first time, and
/// only once its socket is ready.
pub proof fn law_only_the_registered_server_claims(
    record: LifecycleRecordView,
    expected: Classification,
    target: HostTargetView,
    fingerprint: Seq<char>,
    seen: CallerSighting,
    now: Result<u128, String>,
)
    requires
        record.phase != LifecyclePhase::TakeoverClaimed,
        record.phase != LifecyclePhase::ContainerdCommitted,
        record.phase != LifecyclePhase::SocketReady || record.server is None
            || seen.server is Err || !same_process(record.server->0, seen.server->Ok_0@)
            || seen.server->Ok_0.cgroup@ != record.target.location()
            || record.server->0.cgroup != record.target.location() || record.classification
            != Classification::Pending || !(record.target is Pending) || membership_fault(
            record.target,
            seen.server->Ok_0.pid as int,
            seen.target,
            seen.cgroup,
        ) is Some || now is Err,
    ensures
        claim_outcome(record, expected, target, fingerprint, seen, now) is Err,
{
}

/// A managed sandbox is claimed under the bootstrap namespace of Kubernetes,
/// with a valid id and the prepared bundle; a task with the prepared instance
/// and bundle, and never for a managed sandbox. Where all that holds, the claim
/// alone decides.
pub proof fn law_requests_have_to_fit_the_preparation(
    record: LifecycleRecordView,
    bundle: BundleSighting,
    id_check: Result<(), String>,
    derived: HostTarget,
    fingerprint: Seq<char>,
    seen: CallerSighting,
    now: Result<u128, String>,
    instance_id: Seq<char>,
    class: Classification,
    target: HostTargetView,
)
    ensures
        ({
            let same_bundle = bundle.path is Ok && bundle.path->Ok_0@ == record.bundle
                && bundle.identity == Ok::<FileIdentity, String>(record.bundle_identity);
            let usable = record.schema_version == 2 && record.generation.len() > 0;
            let managed = managed_create_outcome(
                record,
                bundle,
                id_check,
                Ok(derived),
                fingerprint,
                seen,
                now,
            );
            let legacy = legacy_create_outcome(
                record,
                instance_id,
                id_check,
                bundle,
                Ok((class, target)),
                fingerprint,
                seen,
                now,
            );
            let claimed = record.phase == LifecyclePhase::TakeoverClaimed || record.phase
                == LifecyclePhase::ContainerdCommitted;
            &&& !usable || !same_bundle || id_check is Err || record.namespace != "k8s.io"@
                ==> managed is Err
            &&& usable && same_bundle && id_check is Ok && record.namespace == "k8s.io"@ && claimed
                ==> managed == claim_outcome(
                record,
                Classification::ManagedSandbox,
                record.target,
                fingerprint,
                seen,
                now,
            )
            &&& usable && same_bundle && id_check is Ok && record.namespace == "k8s.io"@ && !claimed
                ==> managed == claim_outcome(
                record,
                Classification::ManagedSandbox,
                derived@,
                fingerprint,
                seen,
                now,
            )
            &&& !usable || !same_bundle || id_check is Err || instance_id != record.instance_id
                || class != Classification::LegacyTask ==> legacy is Err
            &&& usable && same_bundle && id_check is Ok && instance_id == record.instance_id
                && class == Classification::LegacyTask ==> legacy == claim_outcome(
                record,
                Classification::LegacyTask,
                target,
                fingerprint,
                seen,
                now,
            )
        }),
{
}

/// A Create with another fingerprint, of another kind or for another place
/// meets a conflict, not an invalid request.
pub proof fn law_other_creates_conflict(
    record: LifecycleRecordView,
    expected: Classification,
    target: HostTargetView,
    fingerprint: Seq<char>,
    seen: CallerSighting,
    now: Result<u128, String>,
)
    requires
        record.schema_version == 2,
        record.generation.len() > 0,
        seen.server is Ok,
        record.phase == LifecyclePhase::TakeoverClaimed || record.phase
            == LifecyclePhase::ContainerdCommitted,
        record.classification != expected || record.create_fingerprint != Some(fingerprint)
            || record.target.location() != target.location(),
    ensures
        claim_outcome(record, expected, target, fingerprint, seen, now) matches Err(
            Refusal::Conflict(_),
        ),
{
}

/// A claim is answered with its admission and takes effect on the record alone;
/// a refused one is answered with its refusal, a conflict as a conflict, and
/// changes nothing.
pub proof fn law_claims_happen_whole(
    before: LifecycleView,
    after: LifecycleView,
    admission: CreateAdmission,
    record: LifecycleRecordView,
    text: String,
    message: Seq<char>,
)
    ensures
        claims(before, after, Ok(admission), Ok((admission, record))) == (after.record == record
            && after.host_owner == before.host_owner && after.runtime_owner
            == before.runtime_owner),
        claims(
            before,
            after,
            Err(BeginCreateError::Conflict(text)),
            Err(Refusal::Conflict(message)),
        ) == (text@ == message && after == before),
        claims(before, after, Err(BeginCreateError::Invalid(text)), Err(Refusal::Invalid(message)))
            == (text@ == message && after == before),
        !claims(
            before,
            after,
            Err(BeginCreateError::Invalid(text)),
            Err(Refusal::Conflict(message)),
        ),
        !claims(before, after, Ok(admission), Err(Refusal::Invalid(message))),
        !claims(before, after, Err(BeginCreateError::Invalid(text)), Ok((admission, record))),
{
}

/// A bundle is classified for the sandbox that the record names and for the
/// cgroup that its helper was started in.
pub proof fn law_bundles_are_classified_for_the_record(
    record: LifecycleRecordView,
    facts: BundleFacts,
)
    ensures
        facts.spec matches Ok(spec) ==> bundle_class(record, facts) == classification(
            spec@,
            record.namespace,
            record.instance_id,
            record.helper.cgroup,
            facts.id_check,
            facts.target,
        ),
        facts.spec matches Ok(spec) ==> spec@.container_type is None && spec@.sandbox_id is None
            ==> bundle_class(record, facts) == Ok::<(Classification, HostTargetView), Seq<char>>(
            (
                Classification::LegacyTask,
                HostTargetView::Legacy { cgroup: record.helper.cgroup },
            ),
        ),
        facts.spec is Err ==> bundle_class(record, facts) is Err,
{
}

} // verus!
