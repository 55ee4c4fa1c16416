//! Durable lifecycles: preparation, claims, operations, failures and cleanup.
use cube_shim::claim::{
    takeover_cgroup_allowed, BeginCreateError, BundleFacts, BundleSighting, CallerSighting,
    CreateAdmission,
};
use cube_shim::ceiling::ControllerSighting;
use cube_shim::cleanup::{
    combine_errors, host_cleanup_job, mark_host_cleanup_ready, mark_runtime_cleanup_ready,
    persist_host_cleanup_job, persist_runtime_cleanup_job, runtime_cleanup_job, transfer_result,
    ConvergeEvent, ConvergeStage, Convergence, HandoffStep, LeafSighting, Transfer,
};
use cube_shim::controllers::HostResourceCeiling;
use cube_shim::cri::BundleSpec;
use cube_shim::digest::sha256_hex;
use cube_shim::host_cleanup::{
    admit_host_job, admit_runtime_job, begin_controller_cleanup, host_job_result,
    ControllerCleanup,
};
use cube_shim::identity::{
    ContainmentIdentity, FailureResult, FileIdentity, OperationOwner, OwnerKind, ProcessIdentity,
    SocketIdentity, VmmWorkerRecord, VmmWorkerState,
};
use cube_shim::lifecycle::{
    create_failure_cleanup_ready, LifecycleHandle, PersistedCreateResult, SocketSighting,
};
use cube_shim::observe::ProcessObservation;
use cube_shim::operation::LifecycleOperation;
use cube_shim::persist::{settle_write, RecordWrite, WriteStage};
use cube_shim::placement::PlacementStep;
use cube_shim::prepare::{prepare_socket, reserve_socket, Preparation};
use cube_shim::publish::{
    next_delay_ms, poll_create_result, publication_without_record, publish_create_result_once, CreatePublisherGuard,
    CreateWaiterGuard,
};
use cube_shim::record::{
    phase_rank, Classification, CreateState, ForwardResourceState, HostCgroupOwner,
    HostOwnerState, LifecyclePhase, LifecycleRecord, RuntimeOwnerState, RuntimeResourceOwner,
    SCHEMA_VERSION,
};
use cube_shim::scanner::{
    allocated_vmm_worker, begin_scan, decide_worker_termination, find_spawn_intent_vmm_worker,
    find_unregistered_server, scan_lifecycle, worker_to_terminate, ProcessGlimpse, ScanFacts,
    ScanStart, ScanVerdict, PRECOMMIT_GRACE_MS,
};
use cube_shim::session::{HelperSession, ServerWaitEvent, ServerWaitStage};
use cube_shim::sockets::{another_record_owns_socket, socket_reserved};
use cube_shim::target::{HostTarget, ProcessSighting, TargetSighting};
use cube_shim::worker_protocol::PROTOCOL_VERSION;

const NOW: u128 = 1_725_000_000_000;

fn now() -> Result<u128, String> {
    Ok(NOW)
}

fn file(inode: u64) -> FileIdentity {
    FileIdentity { device: 1, inode }
}

fn process(pid: i32) -> ProcessIdentity {
    ProcessIdentity {
        pid,
        boot_id: "boot".to_string(),
        start_time_ticks: 5,
        executable: file(2),
        command_sha256: "command".to_string(),
        cwd: file(3),
        cgroup: "/server".to_string(),
        launch_nonce_sha256: None,
    }
}

fn server() -> ProcessIdentity {
    process(100)
}

fn record(phase: LifecyclePhase) -> LifecycleRecord {
    LifecycleRecord {
        schema_version: SCHEMA_VERSION,
        sequence: 1,
        generation: "fixture-generation".to_string(),
        phase,
        classification: Classification::LegacyTask,
        namespace: "fixture".to_string(),
        instance_id: "fixture".to_string(),
        bundle: "/bundle".to_string(),
        bundle_identity: file(3),
        created_at_ms: NOW,
        takeover_claimed_at_ms: None,
        launch_nonce_sha256: sha256_hex(b"fixture"),
        expected_server_path: "/fixture/server".to_string(),
        expected_server_executable: file(2),
        expected_server_argv: vec!["fixture".to_string()],
        expected_server_command_sha256: "command".to_string(),
        helper: server(),
        server: None,
        target: HostTarget::Legacy {
            cgroup: "/server".to_string(),
        },
        socket: SocketIdentity {
            path: "/run/shim.sock".to_string(),
            parent: file(7),
            device: None,
            inode: None,
            absent_at_prepare: true,
        },
        operation_owner: OperationOwner {
            kind: OwnerKind::Helper,
            epoch: 1,
            identity: server(),
            revoked_epoch: None,
        },
        create_state: CreateState::Unstarted,
        create_fingerprint: None,
        create_waiters: 0,
        failure: None,
        containment_breach: None,
        vmm_worker: None,
        degraded_reason: None,
    }
}

fn lifecycle(phase: LifecyclePhase) -> LifecycleHandle {
    let record = record(phase);
    let host_owner = HostCgroupOwner {
        schema_version: SCHEMA_VERSION,
        generation: record.generation.clone(),
        namespace: "fixture".to_string(),
        instance_id: "fixture".to_string(),
        state: HostOwnerState::Empty,
        target: record.target.clone(),
        original_cgroup: record.helper.cgroup.clone(),
        server: None,
        controllers: None,
    };
    let runtime_owner = RuntimeResourceOwner::empty(record.generation.clone());
    LifecycleHandle {
        record,
        host_owner,
        runtime_owner,
    }
}

/// A committed lifecycle whose server owns the operation.
fn owned(epoch: u64, create_state: CreateState) -> LifecycleHandle {
    let mut handle = lifecycle(LifecyclePhase::ContainerdCommitted);
    handle.record.operation_owner = OperationOwner {
        kind: OwnerKind::Server,
        epoch,
        identity: server(),
        revoked_epoch: None,
    };
    handle.record.create_state = create_state;
    handle
}

/// A lifecycle that waits for its first request.
fn pending(namespace: &str, id: &str) -> LifecycleHandle {
    let mut handle = lifecycle(LifecyclePhase::SocketReady);
    handle.record.classification = Classification::Pending;
    handle.record.target = HostTarget::Pending {
        original_cgroup: "/server".to_string(),
    };
    handle.record.server = Some(server());
    handle.record.namespace = namespace.to_string();
    handle.record.instance_id = id.to_string();
    handle.host_owner.target = handle.record.target.clone();
    handle.host_owner.namespace = namespace.to_string();
    handle.host_owner.instance_id = id.to_string();
    handle
}

fn target_sighting() -> TargetSighting {
    TargetSighting {
        parent_path: "/sys/fs/cgroup".to_string(),
        parent: Ok(file(20)),
        leaf_path: "/sys/fs/cgroup/server".to_string(),
        leaf: Ok(file(21)),
    }
}

fn seen(identity: ProcessIdentity) -> ProcessSighting {
    let cgroup = identity.cgroup.clone();
    ProcessSighting {
        identity: Ok(identity),
        target: target_sighting(),
        cgroup: Ok(cgroup),
    }
}

fn caller() -> CallerSighting {
    CallerSighting {
        server: Ok(server()),
        target: target_sighting(),
        cgroup: Ok("/server".to_string()),
    }
}

fn bundle() -> BundleSighting {
    BundleSighting {
        path: Ok("/bundle".to_string()),
        identity: Ok(file(3)),
    }
}

fn managed_target() -> HostTarget {
    HostTarget::Systemd {
        oci_path: "system.slice:cri-containerd:id".to_string(),
        slice: "system.slice".to_string(),
        unit: "cri-containerd-id.scope".to_string(),
        cgroup: "/system.slice/cri-containerd-id.scope".to_string(),
        parent_identity: file(20),
        leaf_identity: None,
    }
}

fn claim_managed(handle: &mut LifecycleHandle, fingerprint: &[u8]) -> Result<CreateAdmission, BeginCreateError> {
    handle.begin_managed_create(
        &bundle(),
        &Ok(()),
        &Ok(managed_target()),
        fingerprint,
        &caller(),
        &now(),
    )
}

fn task_facts() -> BundleFacts {
    BundleFacts {
        spec: Ok(BundleSpec {
            container_type: None,
            sandbox_id: None,
            cgroups_path: None,
        }),
        id_check: Ok(()),
        target: Err("no target".to_string()),
    }
}

fn claim_legacy(
    handle: &mut LifecycleHandle,
    id: &str,
    facts: &BundleFacts,
    fingerprint: &[u8],
) -> Result<CreateAdmission, BeginCreateError> {
    handle.begin_legacy_create(
        id,
        &Ok(()),
        &bundle(),
        facts,
        fingerprint,
        &caller(),
        &now(),
    )
}

fn intent() -> RuntimeResourceOwner {
    RuntimeResourceOwner::intent(
        "/run/cubelet.sock".to_string(),
        "sandbox".to_string(),
        "lease".to_string(),
        1,
        "allocation".to_string(),
    )
}

/// A lifecycle with an allocated lease, ready for a start.
fn leased(epoch: u64) -> (LifecycleHandle, LifecycleOperation) {
    let mut handle = owned(epoch, CreateState::InProgress);
    let prepare = handle
        .begin_runtime_intent(&intent(), &seen(server()), &vec![])
        .unwrap();
    prepare.mark_allocated(&mut handle, &seen(server())).unwrap();
    handle.record.create_state = CreateState::Succeeded;
    let start = handle.begin_start_operation(&seen(server())).unwrap();
    (handle, start)
}

fn hand_off(handle: &mut LifecycleHandle) -> RuntimeResourceOwner {
    let step = handle.begin_cleanup_handoff(&Ok(process(900))).unwrap();
    assert_eq!(step, HandoffStep::Transfer);
    let host = host_cleanup_job(&handle.record, &handle.host_owner, "/lifecycles");
    let runtime = runtime_cleanup_job(&handle.runtime_owner);
    assert!(!runtime.ready_for_cleanup);
    assert!(!host.ready_for_cleanup);
    let owner = runtime.owner.clone();
    handle
        .commit_cleanup_handoff(&Ok(host), &Ok(runtime))
        .unwrap();
    owner
}

#[test]
fn atomic_record_round_trip_rejects_no_data_loss() {
    let owner = RuntimeResourceOwner::empty("generation-a".to_string());
    let copy = owner.clone();
    assert_eq!(copy, owner);
    assert!(copy.same(&owner));
    let handle = lifecycle(LifecyclePhase::SocketReady);
    assert!(handle.record.clone().same(&handle.record));
    let mut changed = handle.record.clone();
    changed.sequence += 1;
    assert!(!changed.same(&handle.record));
}

#[test]
fn vmm_worker_spawn_intent_precedes_identity_allocation() {
    let mut handle = owned(2, CreateState::Succeeded);
    handle.record.server = Some(server());
    let operation = handle.begin_start_operation(&seen(server())).unwrap();
    operation
        .record_worker_intent(
            &mut handle,
            file(60),
            "nonce",
            PROTOCOL_VERSION,
            &seen(server()),
        )
        .unwrap();
    let intent = handle.record.vmm_worker.clone().unwrap();
    assert_eq!(intent.state, VmmWorkerState::SpawnIntent);
    assert_eq!(intent.operation_epoch, 2);
    assert_eq!(intent.launch_nonce_sha256, sha256_hex(b"nonce"));
    assert!(intent.identity.is_none());

    let mut worker = process(200);
    worker.executable = file(60);
    let glimpse = ProcessGlimpse {
        pid: 200,
        nonce: Ok(Some("nonce".to_string())),
        identity: Ok(worker.clone()),
        parent: Ok(server().pid),
        gone: false,
    };
    let discovered = find_spawn_intent_vmm_worker(&handle.record, &intent, &vec![glimpse])
        .unwrap()
        .unwrap();
    assert_eq!(discovered.pid, 200);
    let matched = operation
        .match_worker_intent(
            &handle,
            &worker,
            &sha256_hex(b"nonce"),
            &seen(server()),
        )
        .unwrap();
    operation
        .verify_worker_moved(&worker, &matched, &seen(worker.clone()))
        .unwrap();
    operation
        .record_worker_allocation(&mut handle, &matched, worker.clone(), &seen(server()))
        .unwrap();
    let allocated = handle.record.vmm_worker.as_ref().unwrap();
    assert_eq!(allocated.state, VmmWorkerState::Allocated);
    assert_eq!(allocated.operation_epoch, 2);
    assert_eq!(allocated.launch_nonce_sha256, sha256_hex(b"nonce"));
    let identity = allocated.identity.as_ref().unwrap();
    assert_eq!(identity.pid, 200);
    assert_eq!(identity.executable, file(60));
    assert_eq!(
        allocated_vmm_worker(&handle.record).unwrap().unwrap().pid,
        200
    );
}

fn worker_record(state: VmmWorkerState, epoch: u64, identity: Option<ProcessIdentity>) -> VmmWorkerRecord {
    VmmWorkerRecord {
        state,
        operation_epoch: epoch,
        protocol_version: PROTOCOL_VERSION,
        launch_nonce_sha256: sha256_hex(b"nonce"),
        expected_executable: file(2),
        identity,
    }
}

fn glimpse(pid: i32) -> ProcessGlimpse {
    ProcessGlimpse {
        pid,
        nonce: Ok(Some("nonce".to_string())),
        identity: Ok(process(pid)),
        parent: Ok(server().pid),
        gone: false,
    }
}

#[test]
fn vmm_worker_spawn_intent_cleanup_does_not_require_placement() {
    let mut handle = owned(2, CreateState::Succeeded);
    handle.record.server = Some(server());
    handle.record.vmm_worker = Some(worker_record(VmmWorkerState::SpawnIntent, 2, None));
    handle.record.target = HostTarget::Legacy {
        cgroup: "/not-yet-placed".to_string(),
    };
    let found = worker_to_terminate(&handle.record, &vec![glimpse(200)])
        .unwrap()
        .unwrap();
    assert_eq!(found.pid, 200);
    let worker = handle.record.vmm_worker.as_ref().unwrap();
    let decision = decide_worker_termination(
        &handle.record,
        worker,
        &ProcessObservation::Exact {
            identity: process(200),
            containment_ok: false,
        },
        &Ok(Some("nonce".to_string())),
    )
    .unwrap();
    assert!(decision.is_some());
}

#[test]
fn vmm_worker_allocated_containment_breach_requires_durable_identity() {
    let mut handle = owned(2, CreateState::Succeeded);
    let mut recorded = process(200);
    recorded.cgroup = "/durable-target".to_string();
    handle.record.target = HostTarget::Legacy {
        cgroup: recorded.cgroup.clone(),
    };
    handle.record.vmm_worker = Some(worker_record(
        VmmWorkerState::Allocated,
        2,
        Some(recorded),
    ));
    let escaped = ProcessObservation::Exact {
        identity: process(200),
        containment_ok: false,
    };
    let worker = handle.record.vmm_worker.clone().unwrap();
    assert!(decide_worker_termination(
        &handle.record,
        &worker,
        &escaped,
        &Ok(Some("nonce".to_string()))
    )
    .unwrap_err()
    .contains("outside its durable cgroup"));
    handle.record.containment_breach = Some(ContainmentIdentity {
        cgroup: "/server".to_string(),
        device: Some(1),
        inode: Some(21),
    });
    assert!(decide_worker_termination(
        &handle.record,
        &worker,
        &escaped,
        &Ok(Some("nonce".to_string()))
    )
    .unwrap()
    .is_some());
    assert_eq!(
        decide_worker_termination(
            &handle.record,
            &worker,
            &ProcessObservation::Gone,
            &Ok(None)
        )
        .unwrap(),
        None
    );
}

#[test]
fn multiple_spawn_intent_workers_fail_closed() {
    let mut handle = owned(1, CreateState::Succeeded);
    handle.record.server = Some(server());
    handle.record.vmm_worker = Some(worker_record(VmmWorkerState::SpawnIntent, 1, None));
    let worker = handle.record.vmm_worker.as_ref().unwrap();
    let error =
        find_spawn_intent_vmm_worker(&handle.record, worker, &vec![glimpse(200), glimpse(201)])
            .unwrap_err();
    assert!(error.contains("multiple processes match"), "{error}");
}

#[test]
fn scanner_rejects_incoherent_worker_protocol_and_epoch() {
    let mut handle = owned(1, CreateState::Succeeded);
    let mut worker = worker_record(VmmWorkerState::Allocated, 1, Some(process(200)));
    worker.protocol_version = PROTOCOL_VERSION + 1;
    handle.record.vmm_worker = Some(worker);
    assert!(allocated_vmm_worker(&handle.record)
        .unwrap_err()
        .contains("protocol version"));
    let worker = handle.record.vmm_worker.as_mut().unwrap();
    worker.protocol_version = PROTOCOL_VERSION;
    worker.operation_epoch = handle.record.operation_owner.epoch + 1;
    assert!(allocated_vmm_worker(&handle.record)
        .unwrap_err()
        .contains("operation epoch"));
}

#[test]
fn duplicate_server_identity_registration_does_not_rewrite_record() {
    let mut handle = lifecycle(LifecyclePhase::Prepared);
    let nonce_hash = sha256_hex(b"idempotent-server-register");
    let mut identity = server();
    identity.launch_nonce_sha256 = Some(nonce_hash.clone());
    handle.record.launch_nonce_sha256 = nonce_hash.clone();
    let executable = Ok("/fixture/server".to_string());
    let before = handle.record.sequence;
    handle
        .register_server_identity(identity.clone(), &nonce_hash, &executable)
        .unwrap();
    let registered = handle.record.sequence;
    assert_eq!(registered, before + 1);
    handle
        .register_server_identity(identity, &nonce_hash, &executable)
        .unwrap();
    assert_eq!(handle.record.sequence, registered);
}

#[test]
fn managed_first_rpc_claims_without_sandbox_config_json() {
    let id = "a".repeat(64);
    let mut handle = pending("k8s.io", &id);
    assert_eq!(
        claim_managed(&mut handle, b"managed-create").unwrap(),
        CreateAdmission::First
    );
    assert_eq!(handle.record.phase, LifecyclePhase::TakeoverClaimed);
    assert_eq!(handle.record.classification, Classification::ManagedSandbox);
    assert!(handle.record.target.managed());
    assert_eq!(
        claim_managed(&mut handle, b"managed-create").unwrap(),
        CreateAdmission::RetryInProgress
    );
    assert!(matches!(
        claim_managed(&mut handle, b"different-create"),
        Err(BeginCreateError::Conflict(_))
    ));
    assert!(handle.uses_durable_target());
    assert!(matches!(
        handle.begin_managed_create(
            &bundle(),
            &Ok(()),
            &Err("caller parent must not be read".to_string()),
            b"different-parent-fingerprint",
            &caller(),
            &now(),
        ),
        Err(BeginCreateError::Conflict(_))
    ));
    assert!(matches!(
        claim_legacy(&mut handle, &id, &task_facts(), b"managed-create"),
        Err(BeginCreateError::Conflict(_))
    ));
    assert_eq!(handle.host_owner.state, HostOwnerState::Empty);
    assert!(matches!(handle.host_owner.target, HostTarget::Pending { .. }));
}

#[test]
fn retry_waiter_is_counted_exactly_once_across_atomic_record_stages() {
    let mut handle = pending("k8s.io", &"f".repeat(64));
    claim_managed(&mut handle, b"managed-create").unwrap();
    let before = handle.clone();
    assert_eq!(before.record.create_waiters, 1);
    assert_eq!(
        claim_managed(&mut handle, b"managed-create").unwrap(),
        CreateAdmission::RetryInProgress
    );
    assert_eq!(handle.record.sequence, before.record.sequence + 1);
    assert_eq!(handle.record.create_waiters, 2);
}

#[test]
fn scanner_cannot_revoke_a_newer_first_rpc_claim() {
    let mut handle = pending("k8s.io", &"c".repeat(64));
    let stale = handle.record.clone();
    assert_eq!(
        claim_managed(&mut handle, b"managed-create").unwrap(),
        CreateAdmission::First
    );
    assert_eq!(
        handle.scanner_request_cleanup_if_current(&stale, None, &now()),
        Ok(false)
    );
    assert_eq!(handle.record.phase, LifecyclePhase::TakeoverClaimed);
    assert_eq!(handle.record.create_state, CreateState::InProgress);
}

#[test]
fn concurrent_sandbox_and_task_claim_have_one_durable_winner() {
    let id = "e".repeat(64);
    let mut handle = pending("k8s.io", &id);
    let managed = claim_managed(&mut handle, b"managed-create");
    let legacy = claim_legacy(&mut handle, &id, &task_facts(), b"legacy-create");
    assert!(matches!(managed, Ok(CreateAdmission::First)));
    assert!(matches!(legacy, Err(BeginCreateError::Conflict(_))));
    assert_eq!(handle.record.phase, LifecyclePhase::TakeoverClaimed);
    assert_eq!(handle.record.create_state, CreateState::InProgress);
    assert_eq!(handle.record.create_waiters, 1);
    assert_eq!(handle.host_owner.state, HostOwnerState::Empty);
}

fn facts(helper: ProcessObservation, server: Option<ProcessObservation>, clock: u128) -> ScanFacts {
    ScanFacts {
        helper: Ok(helper),
        server: server.map(Ok),
        worker: Ok(None),
        now: Ok(clock),
        later: Ok(clock),
        target: target_sighting(),
        cgroup: Ok("/server".to_string()),
    }
}

fn exact(identity: ProcessIdentity) -> ProcessObservation {
    ProcessObservation::Exact {
        identity,
        containment_ok: true,
    }
}

#[test]
fn scanner_publishes_failure_before_cleaning_abandoned_claim() {
    let mut handle = pending("k8s.io", &"d".repeat(64));
    claim_managed(&mut handle, b"managed-create").unwrap();
    handle.record.takeover_claimed_at_ms = Some(0);
    let snapshot = handle.record.clone();
    let verdict = scan_lifecycle(
        &snapshot,
        &facts(exact(server()), Some(exact(server())), NOW),
    )
    .unwrap();
    assert_eq!(
        verdict,
        ScanVerdict::Publish {
            code: "DEADLINE_EXCEEDED".to_string(),
            message: "Host placement claim timed out".to_string(),
            observed: None
        }
    );
    handle
        .apply_verdict(&snapshot, &verdict, None, &now())
        .unwrap();
    assert_eq!(handle.record.phase, LifecyclePhase::TakeoverClaimed);
    assert_eq!(handle.record.create_state, CreateState::Failed);
    assert_eq!(
        handle.current_create_result().unwrap(),
        Some(PersistedCreateResult::Failed {
            code: "DEADLINE_EXCEEDED".to_string(),
            message: "Host placement claim timed out".to_string(),
        })
    );
    publish_create_result_once(
        &mut handle,
        &PersistedCreateResult::Succeeded,
        &now(),
        &target_sighting(),
        &vec![],
    )
    .unwrap();
    assert_eq!(handle.record.create_state, CreateState::Failed);
    handle.finish_create_waiter().unwrap();
    let drained = handle.record.clone();
    assert_eq!(
        handle.scanner_request_cleanup_if_current(&drained, None, &now()),
        Ok(true)
    );
    assert_eq!(handle.record.phase, LifecyclePhase::CleanupRequired);
}

#[test]
fn current_schema_is_required_for_lifecycle_and_host_owner() {
    let mut handle = lifecycle(LifecyclePhase::SocketReady);
    handle.record.schema_version = SCHEMA_VERSION - 1;
    assert!(handle.read_record().is_err());
    handle.record.schema_version = SCHEMA_VERSION;
    assert!(handle.read_record().is_ok());
    handle.host_owner.schema_version = SCHEMA_VERSION - 1;
    assert!(handle.read_host_owner().is_err());
}

#[test]
fn legacy_first_rpc_claims_only_with_real_task_spec() {
    let mut handle = pending("fixture", "fixture");
    let mut absent = task_facts();
    absent.spec = Err("read spec: no such file".to_string());
    assert!(claim_legacy(&mut handle, "fixture", &absent, b"legacy").is_err());
    assert!(claim_legacy(&mut handle, "wrong", &task_facts(), b"legacy").is_err());
    assert_eq!(
        claim_legacy(&mut handle, "fixture", &task_facts(), b"legacy").unwrap(),
        CreateAdmission::First
    );
    handle.commit_legacy_takeover(&caller()).unwrap();
    assert_eq!(handle.record.phase, LifecyclePhase::ContainerdCommitted);
    assert_eq!(handle.record.classification, Classification::LegacyTask);
    assert_eq!(handle.host_owner.state, HostOwnerState::Empty);
}

#[test]
fn delete_fences_takeover_before_host_commit() {
    let mut handle = pending("fixture", "fixture");
    assert_eq!(
        claim_legacy(&mut handle, "fixture", &task_facts(), b"legacy").unwrap(),
        CreateAdmission::First
    );
    let claimed = handle.record.clone();
    handle
        .request_cleanup("delete before Host commit", &now())
        .unwrap();
    assert_eq!(handle.record.phase, LifecyclePhase::TakeoverClaimed);
    assert_eq!(handle.record.create_state, CreateState::Failed);
    assert_eq!(
        handle.record.operation_owner.epoch,
        claimed.operation_owner.epoch + 1
    );
    assert!(handle.commit_legacy_takeover(&caller()).is_err());
    assert_eq!(handle.host_owner.state, HostOwnerState::Empty);
}

#[test]
fn socket_ready_does_not_treat_normal_helper_exit_as_abandonment() {
    let mut handle = lifecycle(LifecyclePhase::SocketReady);
    handle.record.helper = process(50);
    handle.record.server = Some(server());
    let verdict = scan_lifecycle(
        &handle.record,
        &facts(ProcessObservation::Gone, Some(exact(server())), NOW),
    )
    .unwrap();
    assert!(!matches!(
        verdict,
        ScanVerdict::Cleanup { .. } | ScanVerdict::Publish { .. }
    ));
}

#[test]
fn scanner_notices_a_dead_server() {
    let mut handle = owned(2, CreateState::Succeeded);
    handle.record.server = Some(server());
    let verdict = scan_lifecycle(
        &handle.record,
        &facts(
            exact(server()),
            Some(ProcessObservation::Gone),
            NOW + PRECOMMIT_GRACE_MS,
        ),
    )
    .unwrap();
    assert!(matches!(verdict, ScanVerdict::Cleanup { .. }));
}

#[test]
fn cleanup_handoff_persists_both_owners_before_durable_phase() {
    let mut handle = lifecycle(LifecyclePhase::SocketReady);
    handle.request_cleanup("unit test", &now()).unwrap();
    hand_off(&mut handle);
    assert_eq!(handle.record.phase, LifecyclePhase::CleanupOwnersDurable);
    assert_eq!(handle.record.operation_owner.kind, OwnerKind::Scanner);
    assert_eq!(handle.record.operation_owner.epoch, 3);
    assert_eq!(handle.record.operation_owner.revoked_epoch, Some(2));
}

#[test]
fn cleanup_handoff_attempts_both_owners_and_rejects_mismatched_destination() {
    let mut handle = lifecycle(LifecyclePhase::SocketReady);
    handle.request_cleanup("unit test", &now()).unwrap();
    let host = host_cleanup_job(&handle.record, &handle.host_owner, "/lifecycles");
    let mut other = host.clone();
    other.owner.generation = "wrong".to_string();
    let error =
        persist_host_cleanup_job(&Some(Ok(other)), &host, "/queue/host.json").unwrap_err();
    assert!(error.contains("differs from canonical source"));
    assert!(persist_host_cleanup_job(
        &Some(Err("decode record: bad".to_string())),
        &host,
        "/queue/host.json"
    )
    .unwrap_err()
    .contains("decode record"));
    let runtime = runtime_cleanup_job(&handle.runtime_owner);
    assert_eq!(
        persist_runtime_cleanup_job(&None, &runtime, "/queue/runtime.json"),
        Ok(true)
    );
    let result = transfer_result(
        &Transfer::Refused {
            message: error.clone(),
        },
        &Transfer::Handed,
    );
    assert!(result.unwrap_err().contains("differs from canonical source"));
    assert_eq!(handle.record.phase, LifecyclePhase::CleanupRequired);
    assert!(transfer_result(&Transfer::Handed, &Transfer::Handed).is_ok());
    assert!(combine_errors(&vec![]).is_ok());
    assert!(combine_errors(&vec!["a".to_string(), "b".to_string()])
        .unwrap_err()
        .contains("b"));
}

#[test]
fn failed_create_is_not_drained_until_last_waiter_exits() {
    let mut handle = lifecycle(LifecyclePhase::ContainerdCommitted);
    handle.record.create_state = CreateState::InProgress;
    handle.record.create_waiters = 2;
    handle
        .finish_create_failure("INVALID_ARGUMENT", "fixture", &now())
        .unwrap();
    let published = handle.record.failure.clone().unwrap();
    assert!(handle
        .finish_create_failure("INTERNAL", "must not replace first result", &now())
        .is_err());
    assert_eq!(handle.record.failure.clone().unwrap(), published);
    handle.finish_create_waiter().unwrap();
    assert!(!handle.record.failure.as_ref().unwrap().drained);
    handle.finish_create_waiter().unwrap();
    assert!(handle.record.failure.as_ref().unwrap().drained);
}

#[test]
fn delete_during_create_publishes_failure_before_cleanup() {
    let mut handle = owned(7, CreateState::InProgress);
    handle.record.create_waiters = 1;
    handle.record.create_fingerprint = Some("fixture-create".to_string());
    let in_progress = handle.record.clone();

    handle
        .request_cleanup("containerd delete action", &now())
        .unwrap();
    let failed = handle.record.clone();
    assert_eq!(failed.phase, LifecyclePhase::ContainerdCommitted);
    assert_eq!(failed.create_state, CreateState::Failed);
    assert_eq!(failed.create_waiters, 1);
    assert_eq!(
        failed.operation_owner.epoch,
        in_progress.operation_owner.epoch + 1
    );
    assert_eq!(
        failed.operation_owner.revoked_epoch,
        Some(in_progress.operation_owner.epoch)
    );
    let failure = failed.failure.clone().unwrap();
    assert_eq!(failure.code, "CANCELLED");
    assert_eq!(failure.message, "containerd delete action");
    assert_eq!(failure.waiter_count, 1);
    assert!(!failure.drained);
    let sighting = seen(server());
    assert!(handle
        .begin_runtime_intent(&intent(), &sighting, &vec![])
        .is_err());
    assert!(handle.begin_start_operation(&sighting).is_err());
    assert!(handle.begin_create_readback_operation(&sighting).is_err());
    assert!(handle.begin_runtime_release(&sighting).is_err());
    assert_eq!(handle.runtime_owner().state(), RuntimeOwnerState::Empty);

    assert_eq!(
        handle.scanner_publish_failure_if_current(
            &in_progress,
            "INTERNAL",
            "scanner must not replace delete failure",
            None,
            &now(),
        ),
        Ok(false)
    );
    handle
        .request_cleanup("duplicate delete action", &now())
        .unwrap();
    assert_eq!(handle.record.phase, LifecyclePhase::ContainerdCommitted);
    assert_eq!(handle.record.failure, failed.failure);

    handle.finish_create_waiter().unwrap();
    assert!(handle.record.failure.as_ref().unwrap().drained);
    handle
        .request_cleanup("drained delete action", &now())
        .unwrap();
    assert_eq!(handle.record.phase, LifecyclePhase::CleanupRequired);
    let mut drained = failed.failure.unwrap();
    drained.drained = true;
    assert_eq!(handle.record.failure, Some(drained));
}

#[test]
fn scanner_fences_and_handoffs_before_waiting_for_operation_barrier() {
    let mut handle = owned(17, CreateState::InProgress);
    let operation = handle
        .begin_runtime_intent(&intent(), &seen(server()), &vec![])
        .unwrap();
    let snapshot = handle.record.clone();
    assert_eq!(
        handle.scanner_publish_failure_if_current(
            &snapshot,
            "DEADLINE_EXCEEDED",
            "provider operation stuck",
            None,
            &now(),
        ),
        Ok(true)
    );
    assert_eq!(handle.record.create_state, CreateState::Failed);
    assert_eq!(handle.record.operation_owner.epoch, 18);
    assert_eq!(handle.record.operation_owner.revoked_epoch, Some(17));
    assert!(operation.verify(&handle, &seen(server())).is_err());
    let current = handle.record.clone();
    assert_eq!(
        handle.scanner_request_cleanup_if_current(&current, None, &now()),
        Ok(true)
    );
    let queued = hand_off(&mut handle);
    assert_eq!(handle.record.phase, LifecyclePhase::CleanupOwnersDurable);
    assert_eq!(queued.state(), RuntimeOwnerState::Intent);
}

#[test]
fn cleanup_signals_stuck_server_before_operation_barrier() {
    let mut run = Convergence::start();
    let mut order: Vec<&str> = vec![];
    let mut phases = vec![
        LifecyclePhase::ServerStopped,
        LifecyclePhase::CleanupOwnersDurable,
    ];
    loop {
        let event = match &run.stage {
            ConvergeStage::ReadPhase | ConvergeStage::ReadStoppedPhase => ConvergeEvent::Phase {
                phase: phases.pop().unwrap(),
            },
            ConvergeStage::StopServer => {
                order.push("signal");
                ConvergeEvent::Done
            }
            ConvergeStage::CheckBarrier => {
                order.push("barrier");
                ConvergeEvent::Done
            }
            ConvergeStage::ReleaseRuntimeJob => {
                order.push("runtime");
                ConvergeEvent::Done
            }
            ConvergeStage::ReleaseHostJob => {
                order.push("host");
                ConvergeEvent::Done
            }
            ConvergeStage::LookForJobs => ConvergeEvent::Jobs {
                host: true,
                runtime: true,
            },
            ConvergeStage::Ended => break,
            _ => ConvergeEvent::Done,
        };
        run = run.step(event);
    }
    assert_eq!(order, ["signal", "barrier", "runtime", "host"]);
    assert_eq!(run.failure, None);
}

#[test]
fn host_reconcile_failure_does_not_park_runtime_cleanup_queue() {
    let mut run = Convergence::start();
    let mut released = false;
    let mut phases = vec![
        LifecyclePhase::ServerStopped,
        LifecyclePhase::CleanupOwnersDurable,
    ];
    loop {
        let event = match &run.stage {
            ConvergeStage::ReconcileTarget => ConvergeEvent::Failed {
                message: "Host target differs".to_string(),
            },
            ConvergeStage::ReadPhase | ConvergeStage::ReadStoppedPhase => ConvergeEvent::Phase {
                phase: phases.pop().unwrap(),
            },
            ConvergeStage::ReleaseRuntimeJob => {
                released = true;
                ConvergeEvent::Done
            }
            ConvergeStage::LookForJobs => ConvergeEvent::Jobs {
                host: true,
                runtime: true,
            },
            ConvergeStage::Ended => break,
            _ => ConvergeEvent::Done,
        };
        run = run.step(event);
    }
    assert!(released);
    let error = run.failure.unwrap();
    assert!(
        error.contains("Host target identity reconciliation"),
        "{error}"
    );
}

#[test]
fn dropped_create_waiter_never_publishes_operation_result() {
    let mut handle = lifecycle(LifecyclePhase::ContainerdCommitted);
    handle.record.create_state = CreateState::InProgress;
    handle.record.create_waiters = 1;
    let mut waiter = CreateWaiterGuard::new();
    assert!(waiter.due());
    let departure = handle.finish_create_waiter();
    waiter.departed(&departure);
    assert!(!waiter.due());
    assert_eq!(handle.record.create_waiters, 0);
    assert_eq!(handle.record.create_state, CreateState::InProgress);
    assert!(handle.record.failure.is_none());

    publish_create_result_once(
        &mut handle,
        &PersistedCreateResult::Succeeded,
        &now(),
        &target_sighting(),
        &vec![],
    )
    .unwrap();
    assert_eq!(handle.record.create_state, CreateState::Succeeded);
}

#[test]
fn cancelled_first_create_detaches_exact_failure_across_all_atomic_stages() {
    let guard = CreatePublisherGuard::new();
    assert_eq!(
        guard.outstanding(),
        Some(PersistedCreateResult::Failed {
            code: "CANCELLED".to_string(),
            message: "first Create operation ended before selecting its durable result"
                .to_string()
        })
    );
    let mut guard = CreatePublisherGuard::new();
    guard.select(PersistedCreateResult::Succeeded);
    assert_eq!(guard.outstanding(), Some(PersistedCreateResult::Succeeded));
    guard.published();
    assert_eq!(guard.outstanding(), None);
}

#[test]
fn publications_are_put_off_longer_and_longer() {
    assert_eq!(next_delay_ms(10), 20);
    assert_eq!(next_delay_ms(600), 1000);
    assert_eq!(next_delay_ms(1000), 1000);
    assert!(publication_without_record("EIO".to_string(), true).is_err());
    assert!(publication_without_record("ENOENT".to_string(), false).is_ok());
}

#[test]
fn revoked_server_epoch_cannot_publish_runtime_side_effect() {
    let mut handle = owned(7, CreateState::Succeeded);
    let operation = handle.begin_runtime_release(&seen(server())).unwrap();
    handle.request_cleanup("epoch race", &now()).unwrap();
    assert!(operation
        .mark_released(&mut handle, &seen(server()))
        .is_err());
    assert_eq!(handle.record.operation_owner.epoch, 8);
}

#[test]
fn revoked_epoch_cannot_replace_empty_handoff_with_runtime_intent() {
    let mut handle = owned(7, CreateState::Unstarted);
    handle
        .request_cleanup("revoke before intent", &now())
        .unwrap();
    let queued = hand_off(&mut handle);
    assert!(handle
        .begin_runtime_intent(&intent(), &seen(server()), &vec![])
        .is_err());
    assert_eq!(handle.runtime_owner().state(), RuntimeOwnerState::Empty);
    assert_eq!(queued.state(), RuntimeOwnerState::Empty);
}

#[test]
fn revoke_at_pre_tap_preserves_durable_intent_for_cleanup() {
    let (mut handle, start) = leased(7);
    start
        .mark_tap_intent(
            &mut handle,
            "provider-release=sandbox/lease",
            &seen(server()),
        )
        .unwrap();
    handle
        .request_cleanup("revoke at pre-start-tap", &now())
        .unwrap();
    assert!(start.verify(&handle, &seen(server())).is_err());
    let queued = hand_off(&mut handle);
    assert_eq!(queued.tap_state, ForwardResourceState::Intent);
    assert_eq!(queued.vm_state, ForwardResourceState::Untouched);
}

#[test]
fn revoke_after_runtime_intent_before_prepare_rpc_is_cleanup_replayable() {
    let mut handle = owned(9, CreateState::InProgress);
    let operation = handle
        .begin_runtime_intent(&intent(), &seen(server()), &vec![])
        .unwrap();
    handle
        .request_cleanup("revoke after INTENT before provider RPC", &now())
        .unwrap();
    assert!(operation.verify(&handle, &seen(server())).is_err());
    handle
        .request_cleanup("drain cancelled Create after INTENT", &now())
        .unwrap();
    let queued = hand_off(&mut handle);
    assert_eq!(queued.state(), RuntimeOwnerState::Intent);
    assert_eq!(
        queued.release_identity(),
        Some(("/run/cubelet.sock", "sandbox", "lease", 1))
    );
}

#[test]
fn revoke_at_pre_vm_preserves_tap_and_vm_cleanup_identity() {
    let (mut handle, start) = leased(11);
    let sighting = seen(server());
    start
        .mark_tap_intent(&mut handle, "provider-release=sandbox/lease", &sighting)
        .unwrap();
    start
        .mark_tap_allocated_and_vm_intent(&mut handle, &sighting)
        .unwrap();
    handle
        .request_cleanup("revoke at pre-start-vm", &now())
        .unwrap();
    assert!(start.verify(&handle, &sighting).is_err());
    let queued = hand_off(&mut handle);
    assert_eq!(queued.tap_state, ForwardResourceState::Allocated);
    assert_eq!(queued.vm_state, ForwardResourceState::Intent);
    assert!(queued.vm_cleanup_identity.is_some());
}

#[test]
fn combined_tap_and_vm_transition_is_guarded_and_atomic() {
    let (mut handle, start) = leased(12);
    let sighting = seen(server());
    assert!(start
        .mark_tap_allocated_and_vm_intent(&mut handle, &sighting)
        .is_err());
    assert_eq!(
        handle.runtime_owner.tap_state,
        ForwardResourceState::Untouched
    );
    assert_eq!(
        handle.runtime_owner.vm_state,
        ForwardResourceState::Untouched
    );
    assert!(handle.runtime_owner.vm_cleanup_identity.is_none());

    start
        .mark_tap_intent(&mut handle, "provider-release=sandbox/lease", &sighting)
        .unwrap();
    start
        .mark_tap_allocated_and_vm_intent(&mut handle, &sighting)
        .unwrap();
    let committed = handle.runtime_owner.clone();
    assert_eq!(committed.tap_state, ForwardResourceState::Allocated);
    assert_eq!(committed.vm_state, ForwardResourceState::Intent);
    assert!(committed.vm_cleanup_identity.is_some());

    assert!(start
        .mark_tap_allocated_and_vm_intent(&mut handle, &sighting)
        .is_err());
    assert_eq!(handle.runtime_owner, committed);
    start.mark_vm_allocated(&mut handle, &sighting).unwrap();
    assert_eq!(
        handle.runtime_owner.vm_state,
        ForwardResourceState::Allocated
    );
}

#[test]
fn create_readback_rejects_cleanup_revoked_between_inspect_and_return() {
    let mut handle = owned(23, CreateState::Succeeded);
    let sighting = seen(server());
    let readback = handle.begin_create_readback_operation(&sighting).unwrap();
    readback.verify(&handle, &sighting).unwrap();
    handle
        .request_cleanup("revoke after provider Inspect", &now())
        .unwrap();
    let error = readback.verify(&handle, &sighting).unwrap_err();
    assert!(error.contains("revoked"));
    assert_eq!(
        error,
        "runtime operation epoch 23 was revoked by Server/24"
    );
}

#[test]
fn a_held_barrier_keeps_the_runtime_job_back() {
    let mut convergence = Convergence::start();
    for event in [
        ConvergeEvent::Done,
        ConvergeEvent::Done,
        ConvergeEvent::Done,
        ConvergeEvent::Phase {
            phase: LifecyclePhase::ServerStopped,
        },
    ] {
        convergence = convergence.step(event);
    }
    assert_eq!(convergence.stage, ConvergeStage::CheckBarrier);
    let held = convergence.step(ConvergeEvent::Failed {
        message: "the operation is held".to_string(),
    });
    assert_eq!(held.stage, ConvergeStage::Ended);
    assert_eq!(held.failure.as_deref(), Some("the operation is held"));
}

#[test]
fn create_readback_success_linearizes_before_later_cleanup() {
    let mut handle = owned(29, CreateState::Succeeded);
    let sighting = seen(server());
    let readback = handle.begin_create_readback_operation(&sighting).unwrap();
    readback.verify(&handle, &sighting).unwrap();
    readback.verify(&handle, &sighting).unwrap();
    handle
        .request_cleanup("cleanup overlaps Create response delivery", &now())
        .unwrap();
    assert_eq!(handle.record.phase, LifecyclePhase::CleanupRequired);
    hand_off(&mut handle);
}

#[test]
fn cleanup_does_not_enable_runtime_consumer_before_operation_barrier() {
    let mut handle = owned(19, CreateState::Succeeded);
    handle.begin_start_operation(&seen(server())).unwrap();
    handle
        .request_cleanup("operation barrier fixture", &now())
        .unwrap();
    handle.begin_cleanup_handoff(&Ok(process(900))).unwrap();
    let mut queued = runtime_cleanup_job(&handle.runtime_owner);
    assert!(!queued.ready_for_cleanup);
    assert_eq!(
        mark_runtime_cleanup_ready(&mut queued, "fixture-generation"),
        Ok(true)
    );
    assert!(queued.ready_for_cleanup);
    assert_eq!(
        mark_runtime_cleanup_ready(&mut queued, "fixture-generation"),
        Ok(false)
    );
    assert!(mark_runtime_cleanup_ready(&mut queued, "other").is_err());
    let mut host = host_cleanup_job(&handle.record, &handle.host_owner, "/lifecycles");
    assert_eq!(
        mark_host_cleanup_ready(&mut host, "fixture-generation"),
        Ok(true)
    );
    assert!(mark_host_cleanup_ready(&mut host, "other").is_err());
}

#[test]
fn containment_drift_cannot_commit_runtime_intent() {
    let mut handle = owned(9, CreateState::Unstarted);
    handle.record.target = HostTarget::Legacy {
        cgroup: "/forged-cgroup".to_string(),
    };
    assert!(handle
        .begin_runtime_intent(&intent(), &seen(server()), &vec![])
        .is_err());
    assert_eq!(handle.runtime_owner().state(), RuntimeOwnerState::Empty);
}

#[test]
fn first_containment_observation_is_durable_with_filesystem_identity() {
    let mut handle = lifecycle(LifecyclePhase::ContainerdCommitted);
    handle
        .request_containment_cleanup(ContainmentIdentity {
            cgroup: "/observed".to_string(),
            device: Some(1),
            inode: Some(33),
        })
        .unwrap();
    let breach = handle.record.containment_breach.clone().unwrap();
    assert_eq!(breach.cgroup, "/observed");
    assert!(breach.device.is_some());
    assert!(breach.inode.is_some());
    assert_eq!(handle.record.phase, LifecyclePhase::CleanupRequired);
    assert!(!handle.breach_is_durable(false));
    hand_off(&mut handle);
    assert!(handle.breach_is_durable(false));
}

#[test]
fn degraded_sandboxes_are_cleaned_up() {
    let mut handle = owned(3, CreateState::Succeeded);
    handle.request_degraded_cleanup("readback failed").unwrap();
    assert_eq!(
        handle.record.degraded_reason.as_deref(),
        Some("readback failed")
    );
    assert_eq!(handle.record.phase, LifecyclePhase::CleanupRequired);
}

#[test]
fn second_prepared_lifecycle_cannot_reserve_same_socket_before_bind() {
    let canonical = Ok("/run".to_string());
    let address = "unix:///run/shim.sock";
    let mut records: Vec<Result<Option<LifecycleRecord>, String>> = vec![];
    let path = reserve_socket(address, &canonical, &records, &Ok(file(7))).unwrap();
    assert_eq!(path, "/run/shim.sock");
    let socket = prepare_socket(path, file(7), false).unwrap();
    assert!(socket.absent_at_prepare);
    assert_eq!(socket.inode, None);
    let first = LifecycleHandle::create(&Preparation {
        socket,
        ..preparation()
    });
    records.push(Ok(Some(first.handle.record)));

    let error = reserve_socket(address, &canonical, &records, &Ok(file(7))).unwrap_err();
    assert!(error.contains("already reserved"));
    assert_eq!(
        error,
        "shim socket path is already reserved by another live lifecycle: /run/shim.sock"
    );
    assert_eq!(records.len(), 1);
    assert!(prepare_socket("/run/shim.sock".to_string(), file(7), true).is_err());
}

#[test]
fn reserved_socket_is_found_among_other_entries() {
    let canonical = Ok("/run".to_string());
    let address = "unix:///run/shim.sock";
    let first = LifecycleHandle::create(&preparation());
    let mut entries: Vec<Result<Option<LifecycleRecord>, String>> = vec![
        Ok(None),
        Ok(Some(first.handle.record)),
        Err("decode record".to_string()),
    ];
    assert_eq!(
        reserve_socket(address, &canonical, &entries, &Ok(file(7))).unwrap_err(),
        "shim socket path is already reserved by another live lifecycle: /run/shim.sock"
    );
    entries.swap(1, 2);
    assert_eq!(
        reserve_socket(address, &canonical, &entries, &Ok(file(7))).unwrap_err(),
        "decode record"
    );
}

fn seen_server(record: Result<LifecycleRecord, String>) -> ServerWaitEvent {
    ServerWaitEvent::Seen {
        record,
        target: TargetSighting {
            parent_path: "/sys/fs/cgroup".to_string(),
            parent: Ok(file(1)),
            leaf_path: "/sys/fs/cgroup/server".to_string(),
            leaf: Ok(file(2)),
        },
        cgroup: Ok("/server".to_string()),
    }
}

#[test]
fn helper_waits_for_a_record_that_can_be_used() {
    let mut session = HelperSession::start("/server");
    session.target = HostTarget::Legacy {
        cgroup: "/server".to_string(),
    };
    let registered = || LifecycleRecord {
        server: Some(server()),
        ..record(LifecyclePhase::ServerIdentified)
    };
    let wait = |record: LifecycleRecord, pid: i32| {
        ServerWaitStage::begin().step(&session, pid, seen_server(Ok(record)))
    };
    assert_eq!(wait(registered(), 100), ServerWaitStage::Identified);
    let failed = |message: &str| ServerWaitStage::Failed {
        message: message.to_string(),
    };
    assert_eq!(
        wait(registered(), 101),
        failed("registered server pid 100 does not match spawned 101")
    );
    let mut strange = registered();
    strange.schema_version += 1;
    let version = strange.schema_version;
    assert_eq!(
        wait(strange, 100),
        failed(&format!(
            "lifecycle record has unsupported schema or empty generation: {version}/fixture-generation"
        ))
    );
    let mut nameless = registered();
    nameless.generation = String::new();
    assert_eq!(
        wait(nameless, 100),
        failed(&format!(
            "lifecycle record has unsupported schema or empty generation: {SCHEMA_VERSION}/"
        ))
    );
    // A record that cannot be used is refused before its server is looked for.
    let mut early = record(LifecyclePhase::ServerIdentified);
    early.generation = String::new();
    assert!(matches!(wait(early, 100), ServerWaitStage::Failed { .. }));
    assert_eq!(
        ServerWaitStage::begin().step(&session, 100, seen_server(Err("read record".to_string()))),
        failed("read record")
    );
}

#[test]
fn helper_looks_for_its_server_two_hundred_times() {
    let session = HelperSession::start("/server");
    let mut stage = ServerWaitStage::begin();
    let mut looks = 0;
    let mut pauses = 0;
    let message = loop {
        let event = match stage {
            ServerWaitStage::Looking { .. } => {
                looks += 1;
                seen_server(Ok(record(LifecyclePhase::Prepared)))
            }
            ServerWaitStage::Pausing { .. } => {
                pauses += 1;
                ServerWaitEvent::Paused
            }
            ServerWaitStage::Identified => panic!("there is no server"),
            ServerWaitStage::Failed { message } => break message,
        };
        stage = stage.step(&session, 100, event);
    };
    assert_eq!((looks, pauses), (200, 200));
    assert_eq!(message, "timed out waiting for server 100 identity");
}

#[test]
fn sockets_are_free_again_once_their_lifecycle_is_done() {
    let canonical = Ok("/run".to_string());
    let address = "unix:///run/shim.sock";
    let mut prepared = LifecycleHandle::create(&preparation());
    prepared.handle.record.phase = LifecyclePhase::Done;
    let records = vec![Ok(None), Ok(Some(prepared.handle.record))];
    assert_eq!(
        reserve_socket(address, &canonical, &records, &Ok(file(7))).unwrap(),
        "/run/shim.sock"
    );
    let unreadable = vec![Err("decode record".to_string())];
    assert_eq!(
        reserve_socket(address, &canonical, &unreadable, &Ok(file(7))).unwrap_err(),
        "decode record"
    );
    assert_eq!(
        reserve_socket(address, &canonical, &records, &Err("stat identity".to_string()))
            .unwrap_err(),
        "stat identity"
    );
    assert_eq!(
        socket_reserved(&records, &None, "/", &Ok(file(7))).unwrap_err(),
        "shim socket has no parent: /"
    );
    assert_eq!(
        socket_reserved(&records, &None, "/run/..", &Ok(file(7))).unwrap_err(),
        "shim socket path must contain a basename: /run/.."
    );
}

#[test]
fn socket_reservation_matches_parent_inode_across_bind_mount_spellings() {
    let mut other = record(LifecyclePhase::SocketReady);
    other.generation = "other".to_string();
    other.socket.path = "/different-bind-mount/shim.sock".to_string();
    let records = vec![Ok(Some(other)), Ok(None)];
    let own = Some("fixture-generation".to_string());
    assert_eq!(
        another_record_owns_socket(&records, &own, file(7), "shim.sock"),
        Ok(true)
    );
    assert_eq!(
        another_record_owns_socket(&records, &own, file(7), "different.sock"),
        Ok(false)
    );
    assert_eq!(
        another_record_owns_socket(&records, &Some("other".to_string()), file(7), "shim.sock"),
        Ok(false)
    );
}

fn preparation() -> Preparation {
    Preparation {
        namespace: "k8s.io".to_string(),
        instance_id: "id".to_string(),
        containerd_grpc_address: "/run/containerd/containerd.sock".to_string(),
        bundle: "/bundle".to_string(),
        bundle_identity: file(3),
        classification: Classification::Pending,
        target: HostTarget::Pending {
            original_cgroup: "/server".to_string(),
        },
        address: "unix:///run/shim.sock".to_string(),
        nonce: vec![9; 32],
        executable: "/usr/local/bin/containerd-shim-cube-rs".to_string(),
        executable_identity: file(2),
        debug: false,
        helper: server(),
        socket: SocketIdentity {
            path: "/run/shim.sock".to_string(),
            parent: file(7),
            device: None,
            inode: None,
            absent_at_prepare: true,
        },
        created_at_ms: NOW,
    }
}

#[test]
fn preparations_start_a_lifecycle() {
    let prepared = LifecycleHandle::create_with(&preparation(), "generation-a");
    assert_eq!(prepared.handle.record.phase, LifecyclePhase::Prepared);
    assert_eq!(prepared.handle.record.generation, "generation-a");
    assert_eq!(prepared.handle.record.operation_owner.epoch, 1);
    assert_eq!(
        prepared.handle.record.launch_nonce_sha256,
        sha256_hex(&[9; 32])
    );
    assert_eq!(prepared.key.len(), 64);
    let first = LifecycleHandle::create(&preparation());
    let second = LifecycleHandle::create(&preparation());
    assert_eq!(first.key, second.key);
    assert_eq!(first.handle.record.generation.len(), 36);
    assert_ne!(
        first.handle.record.generation,
        second.handle.record.generation
    );
}

#[test]
fn scanner_adopts_only_full_nonce_executable_argv_bundle_match() {
    let mut record = record(LifecyclePhase::Prepared);
    let hash = sha256_hex(b"fixture");
    let mut matching = process(300);
    matching.launch_nonce_sha256 = Some(hash.clone());
    record.helper = process(50);
    let glimpse = |identity: ProcessIdentity| ProcessGlimpse {
        pid: identity.pid,
        nonce: Ok(Some(hash.clone())),
        identity: Ok(identity),
        parent: Ok(1),
        gone: false,
    };
    let helper = Ok(ProcessObservation::Gone);
    let found =
        find_unregistered_server(&record, &helper, &vec![glimpse(matching.clone())]).unwrap();
    assert_eq!(found.map(|identity| identity.pid), Some(300));
    let mut wrong = matching.clone();
    wrong.executable = file(99);
    assert_eq!(
        find_unregistered_server(&record, &helper, &vec![glimpse(wrong)])
            .unwrap()
            .map(|identity| identity.pid),
        None
    );
    let mut elsewhere = matching;
    elsewhere.cwd = file(98);
    assert_eq!(
        find_unregistered_server(&record, &helper, &vec![glimpse(elsewhere)])
            .unwrap()
            .map(|identity| identity.pid),
        None
    );
}

#[test]
fn scans_begin_by_phase() {
    assert_eq!(
        begin_scan(&Ok(record(LifecyclePhase::Done)), true).unwrap(),
        ScanStart::RemoveDone
    );
    assert_eq!(
        begin_scan(&Err("ENOENT".to_string()), false).unwrap(),
        ScanStart::RemoveInterrupted
    );
    assert!(begin_scan(&Err("EIO".to_string()), true).is_err());
    assert!(phase_rank(LifecyclePhase::Prepared) < phase_rank(LifecyclePhase::Done));
}

#[test]
fn sockets_become_ready_once_bound() {
    let mut handle = lifecycle(LifecyclePhase::ServerIdentified);
    handle.record.server = Some(server());
    handle
        .mark_socket_ready(&SocketSighting {
            path: "/run/shim.sock".to_string(),
            is_socket: true,
            device: 1,
            inode: 44,
            parent: Ok(file(7)),
        })
        .unwrap();
    assert_eq!(handle.record.phase, LifecyclePhase::SocketReady);
    assert_eq!(handle.record.socket.inode, Some(44));
    let mut other = lifecycle(LifecyclePhase::ServerIdentified);
    assert!(other
        .mark_socket_ready(&SocketSighting {
            path: "/run/shim.sock".to_string(),
            is_socket: false,
            device: 1,
            inode: 44,
            parent: Ok(file(7)),
        })
        .is_err());
}

#[test]
fn managed_servers_are_placed_and_limited() {
    let mut handle = pending("k8s.io", &"a".repeat(64));
    claim_managed(&mut handle, b"managed-create").unwrap();
    assert!(takeover_cgroup_allowed(&handle.record, "/server"));
    let claim = match handle.place_managed_server(&caller()).unwrap() {
        PlacementStep::Place { claim } => claim,
        _ => panic!("expected a placement"),
    };
    assert!(claim.needs_move(&server()));
    let mut moved = server();
    moved.cgroup = "/system.slice/cri-containerd-id.scope".to_string();
    let placed = CallerSighting {
        server: Ok(moved.clone()),
        target: target_sighting(),
        cgroup: Ok(moved.cgroup.clone()),
    };
    handle
        .commit_host_placement(&claim, &placed, &Ok(file(21)))
        .unwrap();
    assert_eq!(handle.record.phase, LifecyclePhase::ContainerdCommitted);
    assert_eq!(handle.host_owner.state, HostOwnerState::Allocated);
    assert_eq!(handle.record.target.leaf_identity(), Some(file(21)));

    let operation = handle.begin_controller_operation().unwrap();
    let ceiling = HostResourceCeiling {
        memory_oom_group: "1".to_string(),
        pids_max: "512".to_string(),
        memory_max: "536870912".to_string(),
        cpu_max: "125000 100000".to_string(),
    };
    let sighting = ControllerSighting {
        readings: ["0", "max", "max", "max 100000"]
            .iter()
            .map(|value| Ok(value.to_string()))
            .collect(),
        pids_current: Ok("1".to_string()),
        memory_current: Ok("4096".to_string()),
        pids_limit: 4_194_304,
    };
    handle
        .begin_controller_transaction(&operation, &ceiling, &seen(moved.clone()), &sighting)
        .unwrap();
    let journal = handle
        .load_forward_journal(&operation, &seen(moved))
        .unwrap();
    assert_eq!(journal.steps.len(), 4);
    assert_eq!(journal.steps[3].old, "max 100000");
    assert_eq!(journal.transaction_id.len(), 36);
}

#[test]
fn cleanup_jobs_are_admitted_when_ready() {
    let handle = lifecycle(LifecyclePhase::CleanupRequired);
    let mut host = host_cleanup_job(&handle.record, &handle.host_owner, "/lifecycles");
    let name = "fixture-generation.json";
    assert_eq!(admit_host_job(&host, name, "/queue/x"), Ok(false));
    host.ready_for_cleanup = true;
    assert_eq!(admit_host_job(&host, name, "/queue/x"), Ok(true));
    assert!(admit_host_job(&host, "other.json", "/queue/x").is_err());
    let mut runtime = runtime_cleanup_job(&handle.runtime_owner);
    assert_eq!(admit_runtime_job(&runtime, name, "/queue/x"), Ok(false));
    runtime.ready_for_cleanup = true;
    assert_eq!(admit_runtime_job(&runtime, name, "/queue/x"), Ok(true));
    assert!(host_job_result(&Ok(()), &Ok(())).is_ok());
    assert!(host_job_result(&Err("a".to_string()), &Err("b".to_string()))
        .unwrap_err()
        .contains("b"));
    assert_eq!(
        begin_controller_cleanup(&mut host, true, &Ok(file(20)), &Ok(file(21))).unwrap(),
        ControllerCleanup::Nothing
    );
}

#[test]
fn failures_wait_for_their_waiters() {
    let mut record = record(LifecyclePhase::ContainerdCommitted);
    record.create_state = CreateState::Failed;
    record.create_waiters = 1;
    record.failure = Some(FailureResult {
        code: "CANCELLED".to_string(),
        message: "x".to_string(),
        published_at_ms: NOW,
        waiter_count: 1,
        drained: false,
    });
    assert_eq!(create_failure_cleanup_ready(&record, &now()), Ok(false));
    assert_eq!(
        create_failure_cleanup_ready(&record, &Ok(NOW + 30_000)),
        Ok(true)
    );
    record.failure.as_mut().unwrap().drained = true;
    assert_eq!(create_failure_cleanup_ready(&record, &now()), Ok(true));
}

#[test]
fn leaf_identities_are_reconciled() {
    let mut handle = lifecycle(LifecyclePhase::CleanupRequired);
    handle.record.target = managed_target();
    handle.host_owner.target = managed_target();
    handle.host_owner.state = HostOwnerState::Intent;
    handle
        .reconcile_host_target_identity(&LeafSighting {
            present: true,
            parent: Ok(file(20)),
            leaf: Ok(file(21)),
            members: Ok(vec![]),
            server_alive: false,
        })
        .unwrap();
    assert_eq!(handle.record.target.leaf_identity(), Some(file(21)));
    let mut scanner = lifecycle(LifecyclePhase::CleanupOwnersDurable);
    scanner
        .ensure_scanner_owner(&Ok(process(900)), &Ok(ProcessObservation::Gone))
        .unwrap();
    assert_eq!(scanner.record.operation_owner.kind, OwnerKind::Scanner);
    assert!(scanner.verify_cleanup_barrier().is_err());
    scanner.mark_server_stopped().unwrap();
    assert_eq!(scanner.record.phase, LifecyclePhase::ServerStopped);
    scanner.verify_cleanup_barrier().unwrap();
    scanner.mark_done().unwrap();
    assert_eq!(scanner.record.phase, LifecyclePhase::Done);
}

#[test]
fn wait_for_a_durable_result_ends() {
    let mut handle = owned(3, CreateState::InProgress);
    assert_eq!(poll_create_result(&handle.record, false), Ok(None));
    assert_eq!(
        poll_create_result(&handle.record, true),
        Err("timed out waiting for durable Create result".to_string())
    );
    assert_eq!(handle.finish_create_failure("INTERNAL", "broken", &now()), Ok(()));
    let failed = PersistedCreateResult::Failed {
        code: "INTERNAL".to_string(),
        message: "broken".to_string(),
    };
    assert_eq!(poll_create_result(&handle.record, true), Ok(Some(failed)));
    let unclaimed = lifecycle(LifecyclePhase::SocketReady);
    assert_eq!(
        poll_create_result(&unclaimed.record, false),
        Err("Create takeover is not committed".to_string())
    );
}

const WRITE_STAGES: [(&str, WriteStage); 4] = [
    ("temp", WriteStage::Creating),
    ("file-fsync", WriteStage::Syncing),
    ("rename", WriteStage::Renaming),
    ("parent-fsync", WriteStage::SyncingParent),
];

/// Replaces `old` by `new` on a disk that fails at one stage, if at any. Gives
/// back the result and what the disk holds.
fn write_over<T: Clone>(fails_at: Option<&WriteStage>, old: &T, new: &T) -> (Result<(), String>, T) {
    let mut disk = old.clone();
    let mut write = RecordWrite::begin_with("/lifecycles/key/record.json", 1, "unique").unwrap();
    loop {
        let fails = fails_at.is_some_and(|stage| *stage == write.stage);
        match &write.stage {
            WriteStage::Written => return (Ok(()), disk),
            WriteStage::Failed { message } => return (Err(message.clone()), disk),
            WriteStage::Renaming if !fails => disk = new.clone(),
            _ => {}
        }
        write = write.step(if fails {
            Err("injected failure".to_string())
        } else {
            Ok(())
        });
    }
}

#[test]
fn first_rpc_claim_is_retryable_across_every_atomic_record_stage() {
    for (stage, fails_at) in WRITE_STAGES {
        let id = "b".repeat(64);
        let before = pending("k8s.io", &id);
        let mut claimed = before.clone();
        let first = claim_managed(&mut claimed, b"managed-create").unwrap();
        let (written, durable) = write_over(Some(&fails_at), &before, &claimed);
        let exact = claimed.claim_is_durable(&durable.record, &server());
        let first = settle_write(&written, &Ok(exact)).map(|_| first);
        let durable_phase = durable.record.phase;
        let mut again = durable.clone();
        let retry = claim_managed(&mut again, b"managed-create").unwrap();
        if stage == "parent-fsync" {
            assert_eq!(first.unwrap(), CreateAdmission::First);
            assert_eq!(durable_phase, LifecyclePhase::TakeoverClaimed);
            assert_eq!(retry, CreateAdmission::RetryInProgress);
        } else {
            assert!(first.is_err());
            assert_eq!(durable_phase, LifecyclePhase::SocketReady);
            assert_eq!(retry, CreateAdmission::First);
        }
    }
}

#[test]
fn create_result_publisher_retries_each_atomic_commit_stage_without_identity_loss() {
    for (index, (_, fails_at)) in WRITE_STAGES.into_iter().enumerate() {
        let intended = if index % 2 == 0 {
            PersistedCreateResult::Succeeded
        } else {
            PersistedCreateResult::Failed {
                code: "INVALID_ARGUMENT".to_string(),
                message: "exact semantic failure".to_string(),
            }
        };
        let mut durable = lifecycle(LifecyclePhase::ContainerdCommitted);
        durable.record.create_state = CreateState::InProgress;
        durable.record.create_waiters = 1;
        let mut failure = Some(&fails_at);
        loop {
            let mut next = durable.clone();
            publish_create_result_once(&mut next, &intended, &now(), &target_sighting(), &vec![])
                .unwrap();
            let (written, left) = write_over(failure.take(), &durable, &next);
            durable = left;
            if written.is_ok() {
                break;
            }
        }
        assert_eq!(durable.current_create_result().unwrap(), Some(intended));
    }
}

#[test]
fn combined_tap_and_vm_transition_survives_every_atomic_write_failure() {
    for (index, (stage, fails_at)) in WRITE_STAGES.into_iter().enumerate() {
        let (mut handle, start) = leased(20 + index as u64);
        let sighting = seen(server());
        start
            .mark_tap_intent(&mut handle, "provider-release=sandbox/lease", &sighting)
            .unwrap();
        let mut next = handle.clone();
        start
            .mark_tap_allocated_and_vm_intent(&mut next, &sighting)
            .unwrap();
        let (written, owner) =
            write_over(Some(&fails_at), &handle.runtime_owner, &next.runtime_owner);
        assert!(written.is_err());
        assert_eq!(
            (owner.tap_state, owner.vm_state),
            if stage == "parent-fsync" {
                (
                    ForwardResourceState::Allocated,
                    ForwardResourceState::Intent,
                )
            } else {
                (
                    ForwardResourceState::Intent,
                    ForwardResourceState::Untouched,
                )
            },
            "stage={stage}"
        );
        assert_eq!(
            owner.tap_cleanup_identity.as_deref(),
            Some("provider-release=sandbox/lease"),
            "stage={stage}"
        );
        assert_eq!(
            owner.vm_cleanup_identity.is_some(),
            stage == "parent-fsync",
            "stage={stage}"
        );
    }
}
