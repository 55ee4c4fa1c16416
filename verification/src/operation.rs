//! Operations on a lifecycle: what their owner may do, checked against the
//! record and the Host before every step.
use vstd::prelude::*;

use crate::controllers::{
    exact_controller_readback, host_leaf_path, host_owner_matches, journal_owned, readback_fault,
    verify_controller_journal_owner, verify_host_owner_for_record,
};
use crate::digest::{hex, sha256, sha256_hex};
use crate::identity::{
    immutable_identity_matches, same_process, FileIdentity, OwnerKind, ProcessIdentity,
    ProcessIdentityView, VmmWorkerRecord, VmmWorkerRecordView, VmmWorkerState,
};
use crate::lifecycle::{
    check_host_owner, check_record, host_owner_fault, leaf_fault, next_sequence, record_fault,
    updated, LifecycleHandle, LifecycleView,
};
use crate::record::{
    Classification, ControllerTransactionState, CreateState, ForwardResourceState, LifecyclePhase,
    LifecycleRecord, LifecycleRecordView, RuntimeOwnerState, RuntimeResourceOwner,
    RuntimeResourceOwnerView,
};
use crate::target::{
    membership_fault, passes_unless, target_drift, verify_live_target_identity,
    verify_target_membership, HostTarget, HostTargetView, ProcessSighting, TargetSighting,
};
use crate::text::{
    decimal, decimal_text, fails_with, opt_number, opt_number_text, outcomes, signed_decimal,
    signed_decimal_text, text_eq,
};
use crate::worker_protocol::PROTOCOL_VERSION;

verus! {

/// An operation that its owner has begun.
#[derive(Debug, PartialEq, Eq)]
pub struct LifecycleOperation {
    pub epoch: u64,
    pub owner: OwnerKind,
    pub identity: ProcessIdentity,
    pub target: HostTarget,
}

/// The contents of a [`LifecycleOperation`].
pub struct LifecycleOperationView {
    pub epoch: u64,
    pub owner: OwnerKind,
    pub identity: ProcessIdentityView,
    pub target: HostTargetView,
}

impl View for LifecycleOperation {
    type V = LifecycleOperationView;

    open spec fn view(&self) -> LifecycleOperationView {
        LifecycleOperationView {
            epoch: self.epoch,
            owner: self.owner,
            identity: self.identity@,
            target: self.target@,
        }
    }
}

/// The cgroup in which the owner of an operation is expected.
pub open spec fn owner_place(
    operation: LifecycleOperationView,
    record: LifecycleRecordView,
) -> Seq<char> {
    if operation.owner == OwnerKind::Scanner {
        operation.identity.cgroup
    } else {
        record.target.location()
    }
}

/// Whether an owner of this kind may run operations in this phase.
pub open spec fn owner_phase(owner: OwnerKind, phase: LifecyclePhase) -> bool {
    match owner {
        OwnerKind::Helper => phase == LifecyclePhase::Prepared,
        OwnerKind::Server => phase == LifecyclePhase::ContainerdCommitted,
        OwnerKind::Scanner => phase == LifecyclePhase::CleanupOwnersDurable || phase
            == LifecyclePhase::ServerStopped,
    }
}

/// What an operation is told whose epoch another owner has revoked.
pub open spec fn revoked_by(operation: LifecycleOperationView, record: LifecycleRecordView) -> Seq<
    char,
> {
    "runtime operation epoch "@ + decimal(operation.epoch as nat) + " was revoked by "@
        + record.operation_owner.kind.label() + "/"@ + decimal(record.operation_owner.epoch as nat)
}

/// Why an operation may not go on, if it may not.
pub open spec fn operation_fault(
    operation: LifecycleOperationView,
    record: LifecycleRecordView,
    seen: ProcessSighting,
) -> Option<Seq<char>> {
    if record.operation_owner.epoch != operation.epoch || record.operation_owner.kind
        != operation.owner {
        Some(revoked_by(operation, record))
    } else if !same_process(operation.identity, record.operation_owner.identity) {
        Some("runtime operation owner identity changed"@)
    } else if !record.target.same_place(operation.target) {
        Some("runtime operation Host target identity changed"@)
    } else if operation.owner != OwnerKind::Helper && record.target != operation.target {
        Some("runtime operation Host leaf identity changed"@)
    } else {
        match seen.identity {
            Err(message) => Some(message@),
            Ok(actual) => if !same_process(operation.identity, actual@) {
                Some("runtime operation process identity is no longer live"@)
            } else if actual@.cgroup != owner_place(operation, record) {
                Some(
                    "runtime operation owner moved to "@ + actual@.cgroup + ", expected "@
                        + owner_place(operation, record),
                )
            } else if target_drift(record.target, seen.target) is Some {
                target_drift(record.target, seen.target)
            } else if operation.owner != OwnerKind::Scanner && membership_fault(
                record.target,
                actual@.pid as int,
                seen.target,
                seen.cgroup,
            ) is Some {
                membership_fault(record.target, actual@.pid as int, seen.target, seen.cgroup)
            } else if !owner_phase(operation.owner, record.phase) {
                Some(
                    "runtime operation owner/phase mismatch: "@ + operation.owner.label() + "/"@
                        + record.phase.label(),
                )
            } else {
                None
            },
        }
    }
}

/// Why an operation on a lifecycle may not go on, if it may not.
pub open spec fn verify_fault(
    operation: LifecycleOperationView,
    record: LifecycleRecordView,
    seen: ProcessSighting,
) -> Option<Seq<char>> {
    match record_fault(record) {
        Some(message) => Some(message),
        None => operation_fault(operation, record, seen),
    }
}

/// Why the controllers of a managed lifecycle are not committed by this owner,
/// if they are not.
pub open spec fn owned_controllers_fault(
    state: LifecycleView,
    epoch: u64,
    identity: ProcessIdentityView,
    seen: TargetSighting,
    readings: Seq<Result<Seq<char>, Seq<char>>>,
    missing: Seq<char>,
    pending: Seq<char>,
) -> Option<Seq<char>> {
    if host_owner_fault(state.host_owner) is Some {
        host_owner_fault(state.host_owner)
    } else if !host_owner_matches(state.host_owner, state.record) {
        Some("Host owner does not match committed lifecycle identity"@)
    } else {
        match state.host_owner.controllers {
            None => Some(missing),
            Some(journal) => if journal.state
                != ControllerTransactionState::ControllersCommitted {
                Some(pending + journal.state.label())
            } else if state.record.create_fingerprint is None {
                Some("managed Create has no fingerprint"@)
            } else if !journal_owned(
                journal,
                epoch,
                identity,
                state.record.create_fingerprint->0,
            ) {
                Some("Host controller journal identity or fixed step order changed"@)
            } else if leaf_fault(state.record.target, seen) is Some {
                leaf_fault(state.record.target, seen)
            } else {
                readback_fault(journal.steps, true, readings, 0)
            },
        }
    }
}

fn check_owned_controllers(
    handle: &LifecycleHandle,
    epoch: u64,
    identity: &ProcessIdentity,
    seen: &TargetSighting,
    readings: &Vec<Result<String, String>>,
    missing: &str,
    pending: &str,
) -> (r: Result<(), String>)
    requires
        handle@.host_owner.controllers matches Some(journal) ==> readings@.len()
            == journal.steps.len(),
    ensures
        passes_unless(
            r,
            owned_controllers_fault(
                handle@,
                epoch,
                identity@,
                *seen,
                outcomes(readings@),
                missing@,
                pending@,
            ),
        ),
{
    if let Err(message) = check_host_owner(&handle.host_owner) {
        return Err(message);
    }
    if let Err(message) = verify_host_owner_for_record(&handle.host_owner, &handle.record) {
        return Err(message);
    }
    match &handle.host_owner.controllers {
        None => Err(missing.to_owned()),
        Some(journal) => {
            if journal.state != ControllerTransactionState::ControllersCommitted {
                return Err(pending.to_owned().concat(journal.state.name()));
            }
            let fingerprint = match &handle.record.create_fingerprint {
                None => return Err("managed Create has no fingerprint".to_owned()),
                Some(fingerprint) => fingerprint.as_str(),
            };
            if let Err(message) = verify_controller_journal_owner(
                journal,
                epoch,
                identity,
                fingerprint,
            ) {
                return Err(message);
            }
            if let Err(message) = host_leaf_path(&handle.record.target, seen) {
                return Err(message);
            }
            exact_controller_readback(journal, true, readings)
        },
    }
}

/// What a change of the runtime owner leads to.
pub open spec fn runtime_change(
    operation: LifecycleOperationView,
    state: LifecycleView,
    seen: ProcessSighting,
    change: Result<RuntimeResourceOwnerView, Seq<char>>,
) -> Result<RuntimeResourceOwnerView, Seq<char>> {
    if verify_fault(operation, state.record, seen) is Some {
        Err(verify_fault(operation, state.record, seen)->0)
    } else if state.runtime_owner.generation_id != state.record.generation {
        Err("RuntimeResource owner generation changed"@)
    } else {
        change
    }
}

/// A change of the runtime owner: it succeeds with the new owner, or fails and
/// changes nothing.
pub open spec fn owner_moves(
    before: LifecycleView,
    after: LifecycleView,
    r: Result<(), String>,
    next: Result<RuntimeResourceOwnerView, Seq<char>>,
) -> bool {
    match next {
        Ok(runtime_owner) => r is Ok && after == (LifecycleView { runtime_owner, ..before }),
        Err(message) => fails_with(r, message) && after == before,
    }
}

/// What the intent to acquire a TAP device leads to.
pub open spec fn tap_intent(owner: RuntimeResourceOwnerView, cleanup: Seq<char>) -> Result<
    RuntimeResourceOwnerView,
    Seq<char>,
> {
    if owner.state != RuntimeOwnerState::Allocated || owner.tap_state
        != ForwardResourceState::Untouched {
        Err(
            "TAP INTENT requires allocated lease with no prior TAP state; found "@
                + owner.state.label() + "/"@ + owner.tap_state.label(),
        )
    } else {
        Ok(
            RuntimeResourceOwnerView {
                tap_state: ForwardResourceState::Intent,
                tap_cleanup_identity: Some(cleanup),
                ..owner
            },
        )
    }
}

/// How a VM is identified for its cleanup.
pub open spec fn vm_cleanup_text(operation: LifecycleOperationView) -> Seq<char> {
    "host-cgroup="@ + operation.target.location() + ";server="@ + signed_decimal(
        operation.identity.pid as int,
    ) + ":"@ + decimal(operation.identity.start_time_ticks as nat)
}

/// What an acquired TAP device and the intent to start a VM lead to, in one
/// step.
pub open spec fn vm_intent(owner: RuntimeResourceOwnerView, cleanup: Seq<char>) -> Result<
    RuntimeResourceOwnerView,
    Seq<char>,
> {
    if owner.tap_state != ForwardResourceState::Intent || owner.vm_state
        != ForwardResourceState::Untouched {
        Err(
            "TAP allocation and VM INTENT require durable TAP INTENT with no prior VM state; found "@
                + owner.tap_state.label() + "/"@ + owner.vm_state.label(),
        )
    } else {
        Ok(
            RuntimeResourceOwnerView {
                tap_state: ForwardResourceState::Allocated,
                vm_state: ForwardResourceState::Intent,
                vm_cleanup_identity: Some(cleanup),
                ..owner
            },
        )
    }
}

/// What a started VM leads to.
pub open spec fn vm_allocation(owner: RuntimeResourceOwnerView) -> Result<
    RuntimeResourceOwnerView,
    Seq<char>,
> {
    if owner.vm_state != ForwardResourceState::Intent {
        Err("VM allocation requires durable INTENT, found "@ + owner.vm_state.label())
    } else {
        Ok(RuntimeResourceOwnerView { vm_state: ForwardResourceState::Allocated, ..owner })
    }
}

/// What the intent to spawn a VMM worker leads to.
pub open spec fn worker_intent(
    operation: LifecycleOperationView,
    record: LifecycleRecordView,
    executable: FileIdentity,
    nonce: Seq<char>,
    protocol_version: u16,
    seen: ProcessSighting,
) -> Result<LifecycleRecordView, Seq<char>> {
    if verify_fault(operation, record, seen) is Some {
        Err(verify_fault(operation, record, seen)->0)
    } else if record.vmm_worker is Some {
        Err("lifecycle already has a cube-vmm-worker record"@)
    } else {
        updated(
            record,
            Ok(
                LifecycleRecordView {
                    vmm_worker: Some(
                        VmmWorkerRecordView {
                            state: VmmWorkerState::SpawnIntent,
                            operation_epoch: operation.epoch,
                            protocol_version,
                            launch_nonce_sha256: hex(sha256(vstd::utf8::encode_utf8(nonce))),
                            expected_executable: executable,
                            identity: None,
                        },
                    ),
                    ..record
                },
            ),
        )
    }
}

/// Why a spawned worker is not the intended one, if it is not.
pub open spec fn worker_intent_fault(
    operation: LifecycleOperationView,
    record: LifecycleRecordView,
    worker: ProcessIdentityView,
    nonce_hash: Seq<char>,
    seen: ProcessSighting,
) -> Option<Seq<char>> {
    if verify_fault(operation, record, seen) is Some {
        verify_fault(operation, record, seen)
    } else {
        match record.vmm_worker {
            None => Some("cube-vmm-worker has no durable spawn INTENT"@),
            Some(intent) => if intent.state != VmmWorkerState::SpawnIntent
                || intent.operation_epoch != operation.epoch || intent.protocol_version
                != PROTOCOL_VERSION || intent.launch_nonce_sha256 != nonce_hash
                || intent.expected_executable != worker.executable || intent.identity is Some {
                Some("cube-vmm-worker does not match durable spawn INTENT"@)
            } else {
                None
            },
        }
    }
}

/// Why a worker that was moved does not count as placed, if it does not.
pub open spec fn worker_moved_fault(
    target: HostTargetView,
    before: ProcessIdentityView,
    intent: VmmWorkerRecordView,
    seen: ProcessSighting,
) -> Option<Seq<char>> {
    match seen.identity {
        Err(message) => Some(message@),
        Ok(actual) => if !same_process(before, actual@) || actual@.cgroup != target.location()
            || actual@.executable != intent.expected_executable {
            Some("cube-vmm-worker identity changed during placement"@)
        } else {
            membership_fault(target, actual@.pid as int, seen.target, seen.cgroup)
        },
    }
}

/// What a placed worker leads to.
pub open spec fn worker_allocation(
    operation: LifecycleOperationView,
    record: LifecycleRecordView,
    intent: VmmWorkerRecordView,
    worker: ProcessIdentityView,
    seen: ProcessSighting,
) -> Result<LifecycleRecordView, Seq<char>> {
    if verify_fault(operation, record, seen) is Some {
        Err(verify_fault(operation, record, seen)->0)
    } else if record.vmm_worker is None {
        Err("cube-vmm-worker spawn INTENT disappeared"@)
    } else if record.vmm_worker != Some(intent) {
        Err("cube-vmm-worker spawn INTENT changed during placement"@)
    } else {
        updated(
            record,
            Ok(
                LifecycleRecordView {
                    vmm_worker: Some(
                        VmmWorkerRecordView {
                            state: VmmWorkerState::Allocated,
                            identity: Some(worker),
                            ..intent
                        },
                    ),
                    ..record
                },
            ),
        )
    }
}

/// The operation that the owner of a record begins.
pub open spec fn operation_of(
    record: LifecycleRecordView,
    owner: OwnerKind,
) -> LifecycleOperationView {
    LifecycleOperationView {
        epoch: record.operation_owner.epoch,
        owner,
        identity: record.operation_owner.identity,
        target: record.target,
    }
}

/// Why the server may not begin an operation, if it may not.
pub open spec fn server_operation_fault(
    record: LifecycleRecordView,
    action: Seq<char>,
    allowed: Seq<CreateState>,
    seen: ProcessSighting,
) -> Option<Seq<char>> {
    if record_fault(record) is Some {
        record_fault(record)
    } else if record.operation_owner.kind != OwnerKind::Server || record.phase
        != LifecyclePhase::ContainerdCommitted || record.operation_owner.revoked_epoch is Some
        || !allowed.contains(record.create_state) {
        Some(
            action
                + " requires an unfenced committed server in an allowed Create state; found "@
                + record.operation_owner.kind.label() + "/"@ + record.phase.label() + "/"@
                + record.create_state.label() + "/revoked="@ + opt_number(
                record.operation_owner.revoked_epoch,
            ),
        )
    } else {
        operation_fault(operation_of(record, OwnerKind::Server), record, seen)
    }
}

/// Why the allocation of runtime resources may not begin, if it may not.
pub open spec fn runtime_intent_fault(
    state: LifecycleView,
    seen: ProcessSighting,
    readings: Seq<Result<Seq<char>, Seq<char>>>,
) -> Option<Seq<char>> {
    let record = state.record;
    if record_fault(record) is Some {
        record_fault(record)
    } else if record.operation_owner.kind != OwnerKind::Server || record.phase
        != LifecyclePhase::ContainerdCommitted || record.create_state != CreateState::InProgress {
        Some(
            "RuntimeResource allocation requires an IN_PROGRESS Create with committed server owner; found "@
                + record.operation_owner.kind.label() + "/"@ + record.phase.label() + "/"@
                + record.create_state.label(),
        )
    } else if operation_fault(operation_of(record, OwnerKind::Server), record, seen) is Some {
        operation_fault(operation_of(record, OwnerKind::Server), record, seen)
    } else if record.classification == Classification::ManagedSandbox {
        owned_controllers_fault(
            state,
            record.operation_owner.epoch,
            record.operation_owner.identity,
            seen.target,
            readings,
            "RuntimeResource allocation requires a Host controller journal"@,
            "RuntimeResource allocation requires CONTROLLERS_COMMITTED, found "@,
        )
    } else {
        None
    }
}

/// Why the helper may not begin to change its Host leaf, if it may not.
pub open spec fn helper_operation_fault(
    record: LifecycleRecordView,
    helper: Result<ProcessIdentity, String>,
    seen: TargetSighting,
) -> Option<Seq<char>> {
    if record_fault(record) is Some {
        record_fault(record)
    } else {
        match helper {
            Err(message) => Some(message@),
            Ok(caller) => if record.operation_owner.kind != OwnerKind::Helper || record.phase
                != LifecyclePhase::Prepared || !same_process(record.helper, caller@)
                || record.helper.cgroup != caller@.cgroup {
                Some(
                    "Host leaf mutation requires PREPARED helper owner; found "@
                        + record.operation_owner.kind.label() + "/"@ + record.phase.label(),
                )
            } else {
                target_drift(record.target, seen)
            },
        }
    }
}

/// Whether a Create state is one of those allowed.
fn state_allowed(state: CreateState, allowed: &Vec<CreateState>) -> (r: bool)
    ensures
        r == allowed@.contains(state),
{
    let mut i: usize = 0;
    while i < allowed.len()
        invariant
            i <= allowed.len(),
            forall|k: int| 0 <= k < i ==> allowed@[k] != state,
        decreases allowed.len() - i,
    {
        if allowed[i] == state {
            return true;
        }
        i = i + 1;
    }
    false
}

fn begin_operation(record: &LifecycleRecord, owner: OwnerKind) -> (operation: LifecycleOperation)
    ensures
        operation@ == operation_of(record@, owner),
{
    LifecycleOperation {
        epoch: record.operation_owner.epoch,
        owner,
        identity: record.operation_owner.identity.clone(),
        target: record.target.clone(),
    }
}

impl LifecycleOperation {
    /// Checks that the operation may go on: its epoch is not revoked, and its
    /// owner, its place and the phase are those with which it began.
    pub fn verify_record(&self, record: &LifecycleRecord, seen: &ProcessSighting) -> (r: Result<
        (),
        String,
    >)
        ensures
            passes_unless(r, operation_fault(self@, record@, *seen)),
    {
        if record.operation_owner.epoch != self.epoch || record.operation_owner.kind
            != self.owner {
            return Err(
                "runtime operation epoch ".to_owned().concat(
                    decimal_text(self.epoch as u128).as_str(),
                ).concat(" was revoked by ").concat(record.operation_owner.kind.name()).concat(
                    "/",
                ).concat(decimal_text(record.operation_owner.epoch as u128).as_str()),
            );
        }
        if !immutable_identity_matches(&self.identity, &record.operation_owner.identity) {
            return Err("runtime operation owner identity changed".to_owned());
        }
        if !record.target.same_location(&self.target) {
            return Err("runtime operation Host target identity changed".to_owned());
        }
        if self.owner != OwnerKind::Helper && !record.target.same(&self.target) {
            return Err("runtime operation Host leaf identity changed".to_owned());
        }
        let actual = match &seen.identity {
            Err(message) => return Err(message.clone()),
            Ok(actual) => actual,
        };
        if !immutable_identity_matches(&self.identity, actual) {
            return Err("runtime operation process identity is no longer live".to_owned());
        }
        let expected = if self.owner == OwnerKind::Scanner {
            self.identity.cgroup.as_str()
        } else {
            record.target.cgroup()
        };
        if !text_eq(actual.cgroup.as_str(), expected) {
            return Err(
                "runtime operation owner moved to ".to_owned().concat(
                    actual.cgroup.as_str(),
                ).concat(", expected ").concat(expected),
            );
        }
        if let Err(message) = verify_live_target_identity(&record.target, &seen.target) {
            return Err(message);
        }
        if self.owner != OwnerKind::Scanner {
            if let Err(message) = verify_target_membership(
                &record.target,
                actual.pid,
                &seen.target,
                &seen.cgroup,
            ) {
                return Err(message);
            }
        }
        let phase_matches = match self.owner {
            OwnerKind::Helper => record.phase == LifecyclePhase::Prepared,
            OwnerKind::Server => record.phase == LifecyclePhase::ContainerdCommitted,
            OwnerKind::Scanner => record.phase == LifecyclePhase::CleanupOwnersDurable
                || record.phase == LifecyclePhase::ServerStopped,
        };
        if !phase_matches {
            return Err(
                "runtime operation owner/phase mismatch: ".to_owned().concat(
                    self.owner.name(),
                ).concat("/").concat(record.phase.name()),
            );
        }
        Ok(())
    }

    /// Checks that the operation may go on with this lifecycle.
    pub fn verify(&self, handle: &LifecycleHandle, seen: &ProcessSighting) -> (r: Result<
        (),
        String,
    >)
        ensures
            passes_unless(r, verify_fault(self@, handle@.record, *seen)),
    {
        if let Err(message) = check_record(&handle.record) {
            return Err(message);
        }
        self.verify_record(&handle.record, seen)
    }

    /// Checks that the controllers of a managed lifecycle are committed by this
    /// operation's owner and hold their targets.
    pub fn verify_host_controllers(
        &self,
        handle: &LifecycleHandle,
        seen: &ProcessSighting,
        readings: &Vec<Result<String, String>>,
    ) -> (r: Result<(), String>)
        requires
            handle@.host_owner.controllers matches Some(journal) ==> readings@.len()
                == journal.steps.len(),
        ensures
            passes_unless(
                r,
                if verify_fault(self@, handle@.record, *seen) is Some {
                    verify_fault(self@, handle@.record, *seen)
                } else if handle@.record.classification != Classification::ManagedSandbox {
                    None
                } else {
                    owned_controllers_fault(
                        handle@,
                        self@.epoch,
                        self@.identity,
                        seen.target,
                        outcomes(readings@),
                        "managed Host owner has no controller transaction"@,
                        "Host controller transaction is not committed: "@,
                    )
                },
            ),
    {
        if let Err(message) = self.verify(handle, seen) {
            return Err(message);
        }
        if handle.record.classification != Classification::ManagedSandbox {
            return Ok(());
        }
        check_owned_controllers(
            handle,
            self.epoch,
            &self.identity,
            &seen.target,
            readings,
            "managed Host owner has no controller transaction",
            "Host controller transaction is not committed: ",
        )
    }

    /// Checks that the operation may change the runtime owner.
    fn verify_runtime(&self, handle: &LifecycleHandle, seen: &ProcessSighting) -> (r: Result<
        (),
        String,
    >)
        ensures
            match runtime_change(self@, handle@, *seen, Ok(handle@.runtime_owner)) {
                Err(message) => fails_with(r, message),
                Ok(_) => r is Ok && verify_fault(self@, handle@.record, *seen) is None
                    && handle@.runtime_owner.generation_id == handle@.record.generation,
            },
    {
        if let Err(message) = self.verify(handle, seen) {
            return Err(message);
        }
        if !text_eq(
            handle.runtime_owner.generation_id.as_str(),
            handle.record.generation.as_str(),
        ) {
            return Err("RuntimeResource owner generation changed".to_owned());
        }
        Ok(())
    }

    /// Records that the lease was granted.
    pub fn mark_allocated(&self, handle: &mut LifecycleHandle, seen: &ProcessSighting) -> (r:
        Result<(), String>)
        ensures
            owner_moves(
                old(handle)@,
                final(handle)@,
                r,
                runtime_change(
                    self@,
                    old(handle)@,
                    *seen,
                    Ok(
                        RuntimeResourceOwnerView {
                            state: RuntimeOwnerState::Allocated,
                            ..old(handle)@.runtime_owner
                        },
                    ),
                ),
            ),
    {
        if let Err(message) = self.verify_runtime(handle, seen) {
            return Err(message);
        }
        handle.runtime_owner.mark_allocated();
        Ok(())
    }

    /// Records that the lease was given back.
    pub fn mark_released(&self, handle: &mut LifecycleHandle, seen: &ProcessSighting) -> (r: Result<
        (),
        String,
    >)
        ensures
            owner_moves(
                old(handle)@,
                final(handle)@,
                r,
                runtime_change(
                    self@,
                    old(handle)@,
                    *seen,
                    Ok(
                        RuntimeResourceOwnerView {
                            state: RuntimeOwnerState::Released,
                            ..old(handle)@.runtime_owner
                        },
                    ),
                ),
            ),
    {
        if let Err(message) = self.verify_runtime(handle, seen) {
            return Err(message);
        }
        handle.runtime_owner.mark_released();
        Ok(())
    }

    /// Records the intent to acquire a TAP device.
    pub fn mark_tap_intent(
        &self,
        handle: &mut LifecycleHandle,
        cleanup_identity: &str,
        seen: &ProcessSighting,
    ) -> (r: Result<(), String>)
        ensures
            owner_moves(
                old(handle)@,
                final(handle)@,
                r,
                runtime_change(
                    self@,
                    old(handle)@,
                    *seen,
                    tap_intent(old(handle)@.runtime_owner, cleanup_identity@),
                ),
            ),
    {
        if let Err(message) = self.verify_runtime(handle, seen) {
            return Err(message);
        }
        let owner = &mut handle.runtime_owner;
        if owner.state != RuntimeOwnerState::Allocated || owner.tap_state
            != ForwardResourceState::Untouched {
            return Err(
                "TAP INTENT requires allocated lease with no prior TAP state; found ".to_owned().concat(
                owner.state.name()).concat("/").concat(owner.tap_state.name()),
            );
        }
        owner.tap_state = ForwardResourceState::Intent;
        owner.tap_cleanup_identity = Some(cleanup_identity.to_owned());
        Ok(())
    }

    /// Records the acquired TAP device and the intent to start a VM.
    pub fn mark_tap_allocated_and_vm_intent(
        &self,
        handle: &mut LifecycleHandle,
        seen: &ProcessSighting,
    ) -> (r: Result<(), String>)
        ensures
            owner_moves(
                old(handle)@,
                final(handle)@,
                r,
                runtime_change(
                    self@,
                    old(handle)@,
                    *seen,
                    vm_intent(old(handle)@.runtime_owner, vm_cleanup_text(self@)),
                ),
            ),
    {
        if let Err(message) = self.verify_runtime(handle, seen) {
            return Err(message);
        }
        let cleanup = "host-cgroup=".to_owned().concat(self.target.cgroup()).concat(
            ";server=",
        ).concat(signed_decimal_text(self.identity.pid as i64).as_str()).concat(":").concat(
            decimal_text(self.identity.start_time_ticks as u128).as_str(),
        );
        let owner = &mut handle.runtime_owner;
        if owner.tap_state != ForwardResourceState::Intent || owner.vm_state
            != ForwardResourceState::Untouched {
            return Err(
                "TAP allocation and VM INTENT require durable TAP INTENT with no prior VM state; found ".to_owned().concat(
                owner.tap_state.name()).concat("/").concat(owner.vm_state.name()),
            );
        }
        owner.tap_state = ForwardResourceState::Allocated;
        owner.vm_state = ForwardResourceState::Intent;
        owner.vm_cleanup_identity = Some(cleanup);
        Ok(())
    }

    /// Records that the VM was started.
    pub fn mark_vm_allocated(&self, handle: &mut LifecycleHandle, seen: &ProcessSighting) -> (r:
        Result<(), String>)
        ensures
            owner_moves(
                old(handle)@,
                final(handle)@,
                r,
                runtime_change(self@, old(handle)@, *seen, vm_allocation(old(handle)@.runtime_owner)),
            ),
    {
        if let Err(message) = self.verify_runtime(handle, seen) {
            return Err(message);
        }
        let owner = &mut handle.runtime_owner;
        if owner.vm_state != ForwardResourceState::Intent {
            return Err(
                "VM allocation requires durable INTENT, found ".to_owned().concat(
                    owner.vm_state.name(),
                ),
            );
        }
        owner.vm_state = ForwardResourceState::Allocated;
        Ok(())
    }

    /// Records the intent to spawn a VMM worker with this executable and nonce.
    pub fn record_worker_intent(
        &self,
        handle: &mut LifecycleHandle,
        executable: FileIdentity,
        nonce: &str,
        protocol_version: u16,
        seen: &ProcessSighting,
    ) -> (r: Result<(), String>)
        ensures
            crate::lifecycle::moves(
                old(handle)@,
                final(handle)@,
                r,
                worker_intent(
                    self@,
                    old(handle)@.record,
                    executable,
                    nonce@,
                    protocol_version,
                    *seen,
                ),
            ),
    {
        if let Err(message) = self.verify(handle, seen) {
            return Err(message);
        }
        if handle.record.vmm_worker.is_some() {
            return Err("lifecycle already has a cube-vmm-worker record".to_owned());
        }
        match next_sequence(handle.record.sequence) {
            Err(message) => Err(message),
            Ok(sequence) => {
                handle.record.vmm_worker = Some(
                    VmmWorkerRecord {
                        state: VmmWorkerState::SpawnIntent,
                        operation_epoch: self.epoch,
                        protocol_version,
                        launch_nonce_sha256: sha256_hex(nonce.as_bytes()),
                        expected_executable: executable,
                        identity: None,
                    },
                );
                handle.record.sequence = sequence;
                Ok(())
            },
        }
    }

    /// The intent that a spawned worker, seen with this nonce, belongs to.
    pub fn match_worker_intent(
        &self,
        handle: &LifecycleHandle,
        worker: &ProcessIdentity,
        nonce_hash: &str,
        seen: &ProcessSighting,
    ) -> (r: Result<VmmWorkerRecord, String>)
        ensures
            match worker_intent_fault(self@, handle@.record, worker@, nonce_hash@, *seen) {
                Some(message) => fails_with(r, message),
                None => r matches Ok(intent) && handle@.record.vmm_worker == Some(intent@),
            },
    {
        if let Err(message) = self.verify(handle, seen) {
            return Err(message);
        }
        match &handle.record.vmm_worker {
            None => Err("cube-vmm-worker has no durable spawn INTENT".to_owned()),
            Some(intent) => {
                if intent.state != VmmWorkerState::SpawnIntent || intent.operation_epoch
                    != self.epoch || intent.protocol_version != PROTOCOL_VERSION || !text_eq(
                    intent.launch_nonce_sha256.as_str(),
                    nonce_hash,
                ) || intent.expected_executable != worker.executable
                    || intent.identity.is_some() {
                    return Err("cube-vmm-worker does not match durable spawn INTENT".to_owned());
                }
                Ok(intent.clone())
            },
        }
    }

    /// Checks that a worker that was moved is still the same process, in the
    /// operation's target.
    pub fn verify_worker_moved(
        &self,
        before: &ProcessIdentity,
        intent: &VmmWorkerRecord,
        seen: &ProcessSighting,
    ) -> (r: Result<(), String>)
        ensures
            passes_unless(r, worker_moved_fault(self@.target, before@, intent@, *seen)),
    {
        let actual = match &seen.identity {
            Err(message) => return Err(message.clone()),
            Ok(actual) => actual,
        };
        if !immutable_identity_matches(before, actual) || !text_eq(
            actual.cgroup.as_str(),
            self.target.cgroup(),
        ) || actual.executable != intent.expected_executable {
            return Err("cube-vmm-worker identity changed during placement".to_owned());
        }
        verify_target_membership(&self.target, actual.pid, &seen.target, &seen.cgroup)
    }

    /// Records that the worker was placed.
    pub fn record_worker_allocation(
        &self,
        handle: &mut LifecycleHandle,
        intent: &VmmWorkerRecord,
        worker: ProcessIdentity,
        seen: &ProcessSighting,
    ) -> (r: Result<(), String>)
        ensures
            crate::lifecycle::moves(
                old(handle)@,
                final(handle)@,
                r,
                worker_allocation(self@, old(handle)@.record, intent@, worker@, *seen),
            ),
    {
        if let Err(message) = self.verify(handle, seen) {
            return Err(message);
        }
        match &handle.record.vmm_worker {
            None => return Err("cube-vmm-worker spawn INTENT disappeared".to_owned()),
            Some(current) => {
                if !current.same(intent) {
                    return Err(
                        "cube-vmm-worker spawn INTENT changed during placement".to_owned(),
                    );
                }
            },
        }
        match next_sequence(handle.record.sequence) {
            Err(message) => Err(message),
            Ok(sequence) => {
                let mut allocated = intent.clone();
                allocated.state = VmmWorkerState::Allocated;
                allocated.identity = Some(worker);
                handle.record.vmm_worker = Some(allocated);
                handle.record.sequence = sequence;
                Ok(())
            },
        }
    }
}

impl LifecycleHandle {
    /// Begins the allocation of runtime resources: the intended owner becomes
    /// durable before the lease is asked for.
    pub fn begin_runtime_intent(
        &mut self,
        owner: &RuntimeResourceOwner,
        seen: &ProcessSighting,
        readings: &Vec<Result<String, String>>,
    ) -> (r: Result<LifecycleOperation, String>)
        requires
            old(self)@.host_owner.controllers matches Some(journal) ==> readings@.len()
                == journal.steps.len(),
        ensures
            match runtime_intent_fault(old(self)@, *seen, outcomes(readings@)) {
                Some(message) => fails_with(r, message) && final(self)@ == old(self)@,
                None => r matches Ok(operation) && operation@ == operation_of(
                    old(self)@.record,
                    OwnerKind::Server,
                ) && final(self)@ == (LifecycleView {
                    runtime_owner: RuntimeResourceOwnerView {
                        generation_id: old(self)@.record.generation,
                        ..owner@
                    },
                    ..old(self)@
                }),
            },
    {
        if let Err(message) = check_record(&self.record) {
            return Err(message);
        }
        let record = &self.record;
        if record.operation_owner.kind != OwnerKind::Server || record.phase
            != LifecyclePhase::ContainerdCommitted || record.create_state
            != CreateState::InProgress {
            return Err(
                "RuntimeResource allocation requires an IN_PROGRESS Create with committed server owner; found ".to_owned().concat(
                record.operation_owner.kind.name()).concat("/").concat(
                    record.phase.name(),
                ).concat("/").concat(record.create_state.name()),
            );
        }
        let operation = begin_operation(record, OwnerKind::Server);
        if let Err(message) = operation.verify_record(record, seen) {
            return Err(message);
        }
        if record.classification == Classification::ManagedSandbox {
            if let Err(message) = check_owned_controllers(
                self,
                record.operation_owner.epoch,
                &record.operation_owner.identity,
                &seen.target,
                readings,
                "RuntimeResource allocation requires a Host controller journal",
                "RuntimeResource allocation requires CONTROLLERS_COMMITTED, found ",
            ) {
                return Err(message);
            }
        }
        let mut owner = owner.clone();
        owner.generation_id = self.record.generation.clone();
        self.runtime_owner = owner;
        Ok(operation)
    }

    fn begin_server_operation(
        &self,
        action: &str,
        allowed: &Vec<CreateState>,
        seen: &ProcessSighting,
    ) -> (r: Result<LifecycleOperation, String>)
        ensures
            match server_operation_fault(self@.record, action@, allowed@, *seen) {
                Some(message) => fails_with(r, message),
                None => r matches Ok(operation) && operation@ == operation_of(
                    self@.record,
                    OwnerKind::Server,
                ),
            },
    {
        if let Err(message) = check_record(&self.record) {
            return Err(message);
        }
        let record = &self.record;
        if record.operation_owner.kind != OwnerKind::Server || record.phase
            != LifecyclePhase::ContainerdCommitted
            || record.operation_owner.revoked_epoch.is_some() || !state_allowed(
            record.create_state,
            allowed,
        ) {
            return Err(
                action.to_owned().concat(
                    " requires an unfenced committed server in an allowed Create state; found ",
                ).concat(record.operation_owner.kind.name()).concat("/").concat(
                    record.phase.name(),
                ).concat("/").concat(record.create_state.name()).concat("/revoked=").concat(
                    opt_number_text(record.operation_owner.revoked_epoch).as_str(),
                ),
            );
        }
        let operation = begin_operation(record, OwnerKind::Server);
        match operation.verify_record(record, seen) {
            Err(message) => Err(message),
            Ok(()) => Ok(operation),
        }
    }

    /// Begins the release of the runtime resources.
    pub fn begin_runtime_release(&self, seen: &ProcessSighting) -> (r: Result<
        LifecycleOperation,
        String,
    >)
        ensures
            match server_operation_fault(
                self@.record,
                "RuntimeResource release"@,
                seq![CreateState::InProgress, CreateState::Succeeded, CreateState::Failed],
                *seen,
            ) {
                Some(message) => fails_with(r, message),
                None => r matches Ok(operation) && operation@ == operation_of(
                    self@.record,
                    OwnerKind::Server,
                ),
            },
    {
        let allowed: Vec<CreateState> = vec![
            CreateState::InProgress,
            CreateState::Succeeded,
            CreateState::Failed,
        ];
        assert(allowed@ =~= seq![
            CreateState::InProgress,
            CreateState::Succeeded,
            CreateState::Failed,
        ]);
        self.begin_server_operation("RuntimeResource release", &allowed, seen)
    }

    /// Begins the start of a created sandbox.
    pub fn begin_start_operation(&self, seen: &ProcessSighting) -> (r: Result<
        LifecycleOperation,
        String,
    >)
        ensures
            match server_operation_fault(
                self@.record,
                "StartSandbox"@,
                seq![CreateState::Succeeded],
                *seen,
            ) {
                Some(message) => fails_with(r, message),
                None => r matches Ok(operation) && operation@ == operation_of(
                    self@.record,
                    OwnerKind::Server,
                ),
            },
    {
        let allowed: Vec<CreateState> = vec![CreateState::Succeeded];
        assert(allowed@ =~= seq![CreateState::Succeeded]);
        self.begin_server_operation("StartSandbox", &allowed, seen)
    }

    /// Begins the readback of a successful Create. The caller checks the
    /// operation again before it reports success.
    pub fn begin_create_readback_operation(&self, seen: &ProcessSighting) -> (r: Result<
        LifecycleOperation,
        String,
    >)
        ensures
            match server_operation_fault(
                self@.record,
                "CreateSandbox readback"@,
                seq![CreateState::Succeeded],
                *seen,
            ) {
                Some(message) => fails_with(r, message),
                None => r matches Ok(operation) && operation@ == operation_of(
                    self@.record,
                    OwnerKind::Server,
                ),
            },
    {
        let allowed: Vec<CreateState> = vec![CreateState::Succeeded];
        assert(allowed@ =~= seq![CreateState::Succeeded]);
        self.begin_server_operation("CreateSandbox readback", &allowed, seen)
    }

    /// Begins the helper's change of its Host leaf.
    pub fn begin_helper_host_operation(
        &self,
        helper: &Result<ProcessIdentity, String>,
        seen: &TargetSighting,
    ) -> (r: Result<LifecycleOperation, String>)
        ensures
            match helper_operation_fault(self@.record, *helper, *seen) {
                Some(message) => fails_with(r, message),
                None => r matches Ok(operation) && operation@ == operation_of(
                    self@.record,
                    OwnerKind::Helper,
                ),
            },
    {
        if let Err(message) = check_record(&self.record) {
            return Err(message);
        }
        let caller = match helper {
            Err(message) => return Err(message.clone()),
            Ok(caller) => caller,
        };
        let record = &self.record;
        if record.operation_owner.kind != OwnerKind::Helper || record.phase
            != LifecyclePhase::Prepared || !immutable_identity_matches(&record.helper, caller)
            || !text_eq(record.helper.cgroup.as_str(), caller.cgroup.as_str()) {
            return Err(
                "Host leaf mutation requires PREPARED helper owner; found ".to_owned().concat(
                    record.operation_owner.kind.name(),
                ).concat("/").concat(record.phase.name()),
            );
        }
        if let Err(message) = verify_live_target_identity(&record.target, seen) {
            return Err(message);
        }
        Ok(begin_operation(record, OwnerKind::Helper))
    }
}

/// An operation whose epoch was revoked may not go on, whatever the Host shows:
/// it is told who revoked it, and changes nothing durable.
pub proof fn law_revoked_operation_is_refused(
    operation: LifecycleOperationView,
    state: LifecycleView,
    seen: ProcessSighting,
    change: Result<RuntimeResourceOwnerView, Seq<char>>,
)
    requires
        state.record.operation_owner.epoch != operation.epoch,
    ensures
        operation_fault(operation, state.record, seen) == Some(
            revoked_by(operation, state.record),
        ),
        record_fault(state.record) is None ==> verify_fault(operation, state.record, seen) == Some(
            revoked_by(operation, state.record),
        ),
        runtime_change(operation, state, seen, change) is Err,
{
}

/// An operation that a server has begun may go on as long as nothing changed.
pub proof fn law_begun_operation_may_go_on(
    record: LifecycleRecordView,
    action: Seq<char>,
    allowed: Seq<CreateState>,
    seen: ProcessSighting,
)
    requires
        server_operation_fault(record, action, allowed, seen) is None,
    ensures
        verify_fault(operation_of(record, OwnerKind::Server), record, seen) is None,
{
}

/// Runtime resources are acquired in order and once: a VM is intended only
/// after a TAP intent, which needs an allocated lease, and no intent repeats.
pub proof fn law_runtime_resources_are_acquired_in_order(
    owner: RuntimeResourceOwnerView,
    tap: Seq<char>,
    vm: Seq<char>,
)
    ensures
        tap_intent(owner, tap) matches Ok(next) ==> owner.state == RuntimeOwnerState::Allocated
            && tap_intent(next, tap) is Err,
        vm_intent(owner, vm) matches Ok(next) ==> owner.tap_state == ForwardResourceState::Intent
            && next.tap_cleanup_identity == owner.tap_cleanup_identity && next.tap_state
            == ForwardResourceState::Allocated && vm_intent(next, vm) is Err,
        vm_allocation(owner) is Ok ==> owner.vm_state == ForwardResourceState::Intent,
{
}

/// An operation goes on while nothing of it has changed: the epoch and the kind
/// of its owner, its process, its target, its place and the phase that its kind
/// works in.
pub proof fn law_unchanged_operation_goes_on(
    operation: LifecycleOperationView,
    record: LifecycleRecordView,
    seen: ProcessSighting,
    actual: ProcessIdentity,
)
    requires
        record.schema_version == 2,
        record.generation.len() > 0,
        record.operation_owner.epoch == operation.epoch,
        record.operation_owner.kind == operation.owner,
        same_process(operation.identity, record.operation_owner.identity),
        record.target == operation.target,
        seen.identity == Ok::<ProcessIdentity, String>(actual),
        same_process(operation.identity, actual@),
        operation.owner == OwnerKind::Scanner ==> actual.cgroup@ == operation.identity.cgroup,
        operation.owner != OwnerKind::Scanner ==> actual.cgroup@ == record.target.location(),
        target_drift(record.target, seen.target) is None,
        operation.owner != OwnerKind::Scanner ==> membership_fault(
            record.target,
            actual.pid as int,
            seen.target,
            seen.cgroup,
        ) is None,
        operation.owner == OwnerKind::Helper ==> record.phase == LifecyclePhase::Prepared,
        operation.owner == OwnerKind::Server ==> record.phase
            == LifecyclePhase::ContainerdCommitted,
        operation.owner == OwnerKind::Scanner ==> record.phase
            == LifecyclePhase::CleanupOwnersDurable || record.phase
            == LifecyclePhase::ServerStopped,
    ensures
        operation_fault(operation, record, seen) is None,
        verify_fault(operation, record, seen) is None,
{
}

/// An operation ends as soon as anything of it has changed.
pub proof fn law_changed_operation_ends(
    operation: LifecycleOperationView,
    record: LifecycleRecordView,
    seen: ProcessSighting,
)
    requires
        operation_fault(operation, record, seen) is None,
    ensures
        record.operation_owner.epoch == operation.epoch,
        record.operation_owner.kind == operation.owner,
        same_process(operation.identity, record.operation_owner.identity),
        record.target.location() == operation.target.location(),
        operation.owner != OwnerKind::Helper ==> record.target == operation.target,
        seen.identity is Ok,
        same_process(operation.identity, seen.identity->Ok_0@),
        operation.owner == OwnerKind::Scanner ==> seen.identity->Ok_0.cgroup@
            == operation.identity.cgroup,
        operation.owner != OwnerKind::Scanner ==> seen.identity->Ok_0.cgroup@
            == record.target.location(),
        target_drift(record.target, seen.target) is None,
        operation.owner != OwnerKind::Scanner ==> membership_fault(
            record.target,
            seen.identity->Ok_0.pid as int,
            seen.target,
            seen.cgroup,
        ) is None,
        operation.owner == OwnerKind::Helper ==> record.phase == LifecyclePhase::Prepared,
        operation.owner == OwnerKind::Server ==> record.phase
            == LifecyclePhase::ContainerdCommitted,
        operation.owner == OwnerKind::Scanner ==> record.phase
            == LifecyclePhase::CleanupOwnersDurable || record.phase
            == LifecyclePhase::ServerStopped,
{
}

/// The resources of an allocated lease are acquired one after the other, each
/// after its durable intent, and the owner keeps how each is cleaned up.
/// Nothing else of the owner changes.
pub proof fn law_resources_are_acquired_step_by_step(
    owner: RuntimeResourceOwnerView,
    tap: Seq<char>,
    vm: Seq<char>,
)
    requires
        owner.state == RuntimeOwnerState::Allocated,
        owner.tap_state == ForwardResourceState::Untouched,
        owner.vm_state == ForwardResourceState::Untouched,
    ensures
        tap_intent(owner, tap) is Ok,
        ({
            let intended = tap_intent(owner, tap)->Ok_0;
            &&& intended.tap_state == ForwardResourceState::Intent
            &&& intended.tap_cleanup_identity == Some(tap)
            &&& intended.vm_state == owner.vm_state
            &&& intended.state == owner.state && intended.lease_id == owner.lease_id
                && intended.endpoint == owner.endpoint && intended.sandbox_id == owner.sandbox_id
                && intended.generation_id == owner.generation_id
                && intended.resource_generation == owner.resource_generation
            &&& tap_intent(intended, tap) is Err
            &&& vm_allocation(intended) is Err
            &&& vm_intent(intended, vm) is Ok
            &&& {
                let acquired = vm_intent(intended, vm)->Ok_0;
                &&& acquired.tap_state == ForwardResourceState::Allocated
                &&& acquired.tap_cleanup_identity == Some(tap)
                &&& acquired.vm_state == ForwardResourceState::Intent
                &&& acquired.vm_cleanup_identity == Some(vm)
                &&& acquired.state == owner.state && acquired.lease_id == owner.lease_id
                    && acquired.generation_id == owner.generation_id
                &&& vm_intent(acquired, vm) is Err
                &&& vm_allocation(acquired) is Ok
                &&& {
                    let started = vm_allocation(acquired)->Ok_0;
                    &&& started.vm_state == ForwardResourceState::Allocated
                    &&& started.tap_state == ForwardResourceState::Allocated
                    &&& started.tap_cleanup_identity == Some(tap)
                    &&& started.vm_cleanup_identity == Some(vm)
                    &&& started.state == owner.state && started.lease_id == owner.lease_id
                    &&& vm_allocation(started) is Err
                }
            }
        }),
        vm_intent(owner, vm) is Err,
        vm_allocation(owner) is Err,
{
}

/// No TAP without an allocated lease.
pub proof fn law_tap_needs_a_lease(owner: RuntimeResourceOwnerView, tap: Seq<char>)
    requires
        owner.state != RuntimeOwnerState::Allocated,
    ensures
        tap_intent(owner, tap) is Err,
{
}

/// A change of the runtime owner takes effect exactly where its operation goes
/// on and the owner is of this lifecycle.
pub proof fn law_runtime_changes_take_effect(
    operation: LifecycleOperationView,
    state: LifecycleView,
    seen: ProcessSighting,
    change: Result<RuntimeResourceOwnerView, Seq<char>>,
)
    ensures
        verify_fault(operation, state.record, seen) is None && state.runtime_owner.generation_id
            == state.record.generation ==> runtime_change(operation, state, seen, change)
            == change,
        verify_fault(operation, state.record, seen) is Some || state.runtime_owner.generation_id
            != state.record.generation ==> runtime_change(operation, state, seen, change) is Err,
{
}

/// A worker is intended once, by the nonce, the executable and the epoch of its
/// launch; the process that fits the intent is then recorded as the worker.
pub proof fn law_worker_is_intended_and_then_recorded(
    operation: LifecycleOperationView,
    record: LifecycleRecordView,
    executable: FileIdentity,
    nonce: Seq<char>,
    worker: ProcessIdentityView,
    seen: ProcessSighting,
)
    requires
        verify_fault(operation, record, seen) is None,
        record.vmm_worker is None,
        record.sequence < u64::MAX - 1,
        worker.executable == executable,
    ensures
        worker_intent(operation, record, executable, nonce, PROTOCOL_VERSION, seen) is Ok,
        ({
            let next = worker_intent(
                operation,
                record,
                executable,
                nonce,
                PROTOCOL_VERSION,
                seen,
            )->Ok_0;
            let hash = hex(sha256(vstd::utf8::encode_utf8(nonce)));
            &&& next.vmm_worker is Some
            &&& next.vmm_worker->0.state == VmmWorkerState::SpawnIntent
            &&& next.vmm_worker->0.operation_epoch == operation.epoch
            &&& next.vmm_worker->0.launch_nonce_sha256 == hash
            &&& next.vmm_worker->0.expected_executable == executable
            &&& next.vmm_worker->0.identity is None
            &&& next == (LifecycleRecordView {
                vmm_worker: next.vmm_worker,
                sequence: next.sequence,
                ..record
            })
            &&& next.sequence == record.sequence + 1
            &&& worker_intent(operation, next, executable, nonce, PROTOCOL_VERSION, seen) is Err
            &&& worker_intent_fault(operation, next, worker, hash, seen) is None
            &&& worker_allocation(operation, next, next.vmm_worker->0, worker, seen) is Ok
            &&& {
                let placed = worker_allocation(
                    operation,
                    next,
                    next.vmm_worker->0,
                    worker,
                    seen,
                )->Ok_0;
                &&& placed.vmm_worker is Some
                &&& placed.vmm_worker->0.state == VmmWorkerState::Allocated
                &&& placed.vmm_worker->0.identity == Some(worker)
                &&& placed.vmm_worker->0.launch_nonce_sha256 == hash
                &&& placed.vmm_worker->0.operation_epoch == operation.epoch
                &&& placed.vmm_worker->0.expected_executable == executable
                &&& placed.phase == record.phase && placed.operation_owner
                    == record.operation_owner && placed.target == record.target
                &&& worker_intent_fault(operation, placed, worker, hash, seen) is Some
                &&& worker_allocation(
                    operation,
                    placed,
                    next.vmm_worker->0,
                    worker,
                    seen,
                ) is Err
            }
        }),
{
    assert(operation_fault(operation, record, seen) is None);
}

/// A worker that was launched with another nonce, by another executable or under
/// another epoch is not the intended one.
pub proof fn law_foreign_worker_is_refused(
    operation: LifecycleOperationView,
    record: LifecycleRecordView,
    worker: ProcessIdentityView,
    nonce_hash: Seq<char>,
    seen: ProcessSighting,
)
    requires
        record.vmm_worker is None || record.vmm_worker->0.launch_nonce_sha256 != nonce_hash
            || record.vmm_worker->0.expected_executable != worker.executable
            || record.vmm_worker->0.operation_epoch != operation.epoch
            || record.vmm_worker->0.state != VmmWorkerState::SpawnIntent
            || record.vmm_worker->0.protocol_version != PROTOCOL_VERSION,
    ensures
        worker_intent_fault(operation, record, worker, nonce_hash, seen) is Some,
{
}

/// A worker counts as placed where it is the same process, in the target, with
/// the intended executable.
pub proof fn law_placed_worker_is_in_the_target(
    target: HostTargetView,
    before: ProcessIdentityView,
    intent: VmmWorkerRecordView,
    seen: ProcessSighting,
)
    ensures
        worker_moved_fault(target, before, intent, seen) is None <==> seen.identity is Ok
            && same_process(before, seen.identity->Ok_0@) && seen.identity->Ok_0.cgroup@
            == target.location() && seen.identity->Ok_0.executable == intent.expected_executable
            && membership_fault(
            target,
            seen.identity->Ok_0.pid as int,
            seen.target,
            seen.cgroup,
        ) is None,
{
}

/// The committed server begins an operation in the states that the operation
/// allows, as long as it is not fenced, and under its present epoch.
pub proof fn law_committed_server_begins_operations(
    record: LifecycleRecordView,
    action: Seq<char>,
    allowed: Seq<CreateState>,
    seen: ProcessSighting,
)
    ensures
        server_operation_fault(record, action, allowed, seen) is None <==> record.schema_version
            == 2 && record.generation.len() > 0 && record.operation_owner.kind == OwnerKind::Server
            && record.phase == LifecyclePhase::ContainerdCommitted
            && record.operation_owner.revoked_epoch is None && allowed.contains(
            record.create_state,
        ) && operation_fault(operation_of(record, OwnerKind::Server), record, seen) is None,
        operation_of(record, OwnerKind::Server).epoch == record.operation_owner.epoch,
        operation_of(record, OwnerKind::Server).identity == record.operation_owner.identity,
        operation_of(record, OwnerKind::Server).target == record.target,
        operation_of(record, OwnerKind::Server).owner == OwnerKind::Server,
{
}

/// Resources are allocated only for a Create that runs; those of a managed
/// sandbox only once its controllers are committed by the same owner and seen
/// at their targets.
pub proof fn law_resources_wait_for_the_controllers(
    state: LifecycleView,
    seen: ProcessSighting,
    readings: Seq<Result<Seq<char>, Seq<char>>>,
)
    ensures
        runtime_intent_fault(state, seen, readings) is None ==> state.record.create_state
            == CreateState::InProgress && state.record.phase
            == LifecyclePhase::ContainerdCommitted && state.record.operation_owner.kind
            == OwnerKind::Server && operation_fault(
            operation_of(state.record, OwnerKind::Server),
            state.record,
            seen,
        ) is None,
        runtime_intent_fault(state, seen, readings) is None && state.record.classification
            == Classification::ManagedSandbox ==> state.host_owner.controllers is Some
            && state.host_owner.controllers->0.state
            == ControllerTransactionState::ControllersCommitted
            && state.host_owner.controllers->0.owner_epoch == state.record.operation_owner.epoch
            && Some(state.host_owner.controllers->0.create_fingerprint)
            == state.record.create_fingerprint && state.host_owner.target == state.record.target
            && readback_fault(state.host_owner.controllers->0.steps, true, readings, 0) is None,
        state.record.schema_version == 2 && state.record.generation.len() > 0
            && state.record.operation_owner.kind == OwnerKind::Server && state.record.phase
            == LifecyclePhase::ContainerdCommitted && state.record.create_state
            == CreateState::InProgress && state.record.classification
            != Classification::ManagedSandbox && operation_fault(
            operation_of(state.record, OwnerKind::Server),
            state.record,
            seen,
        ) is None ==> runtime_intent_fault(state, seen, readings) is None,
{
}

/// The controllers that an owner committed pass for committed: a journal that is
/// committed by it for its Create, in the place of the lifecycle, with every
/// value read back.
pub proof fn law_committed_controllers_pass(
    state: LifecycleView,
    epoch: u64,
    identity: ProcessIdentityView,
    seen: TargetSighting,
    readings: Seq<Result<Seq<char>, Seq<char>>>,
    missing: Seq<char>,
    pending: Seq<char>,
)
    requires
        host_owner_fault(state.host_owner) is None,
        host_owner_matches(state.host_owner, state.record),
        state.host_owner.controllers is Some,
        state.host_owner.controllers->0.state == ControllerTransactionState::ControllersCommitted,
        state.record.create_fingerprint is Some,
        journal_owned(
            state.host_owner.controllers->0,
            epoch,
            identity,
            state.record.create_fingerprint->0,
        ),
        leaf_fault(state.record.target, seen) is None,
        readback_fault(state.host_owner.controllers->0.steps, true, readings, 0) is None,
    ensures
        owned_controllers_fault(state, epoch, identity, seen, readings, missing, pending) is None,
{
}

/// Only the helper that prepared a lifecycle changes its Host leaf, from its own
/// cgroup and before a server is registered.
pub proof fn law_helper_changes_its_own_leaf(
    record: LifecycleRecordView,
    helper: Result<ProcessIdentity, String>,
    seen: TargetSighting,
)
    ensures
        helper_operation_fault(record, helper, seen) is None <==> record.schema_version == 2
            && record.generation.len() > 0 && helper is Ok && record.operation_owner.kind
            == OwnerKind::Helper && record.phase == LifecyclePhase::Prepared && same_process(
            record.helper,
            helper->Ok_0@,
        ) && record.helper.cgroup == helper->Ok_0.cgroup@ && target_drift(record.target, seen)
            is None,
{
}

/// A change of the runtime owner succeeds with the new owner and with nothing
/// else changed, or fails with its message and changes nothing.
pub proof fn law_owners_change_whole(
    before: LifecycleView,
    after: LifecycleView,
    next: RuntimeResourceOwnerView,
    error: String,
    message: Seq<char>,
)
    ensures
        owner_moves(before, after, Ok(()), Ok(next)) == (after.runtime_owner == next
            && after.record == before.record && after.host_owner == before.host_owner),
        !owner_moves(before, after, Err(error), Ok(next)),
        !owner_moves(before, after, Ok(()), Err(message)),
        owner_moves(before, after, Err(error), Err(message)) == (error@ == message && after
            == before),
{
}

/// A machine is found again by its cgroup and by its server's number and start.
pub proof fn law_machines_are_found_by_their_server(operation: LifecycleOperationView)
    ensures
        vm_cleanup_text(operation) == "host-cgroup="@ + operation.target.location() + ";server="@
            + signed_decimal(operation.identity.pid as int) + ":"@ + decimal(
            operation.identity.start_time_ticks as nat,
        ),
{
}

} // verus!
