//! A sandbox and its service: phases, tasks, creation, start and teardown.
use cube_shim::claim::{BeginCreateError, CreateAdmission};
use cube_shim::clock::{elapsed_timestamp, now_timestamp, timestamp};
use cube_shim::create_flow::{
    begin_create, check_initialized, check_local_create, check_runtime_owner, cleanup_settled,
    finish_create, validate_request, CallEvent, CallStage, CreateCall, CreateOutcome, CreateStep,
    Creation, CreationEvent, Readback, ReadbackStep, Rejection,
};
use cube_shim::fingerprint::{create_request_fingerprint, CreateSandboxRequest, Mount};
use cube_shim::lifecycle::PersistedCreateResult;
use cube_shim::record::RuntimeResourceOwner;
use cube_shim::rpc::{
    append_error, rpc_code_from_name, rpc_error, rpc_failure_identity, Code, RpcError,
};
use cube_shim::sandbox::{
    apply_start_result, begin_start, finish_shutdown, finish_start, finish_stop,
    finish_stop_guard, freeze_exit, monitoring, note_vm_exit, ping, platform,
    release_after_start_failure, sandbox_status, stop_teardown_action, terminal_wait_response,
    validate_id, wait_for_shutdown, wait_for_start, wait_for_stop, Aftermath, CleanupOutcome,
    LifecycleState, Phase, RuntimeLease, SandboxSpec, StartCleanup, StartFailure,
    StopTeardownAction, TeardownOutcome, Timestamp, NOT_READY, READY,
};
use cube_shim::sandbox_spec::{encode_sandbox_spec, label_spec, OCI_SPEC_TYPE_URL};
use cube_shim::start_flow::{Start, StartEvent, StartStage, StartStep};
use cube_shim::tasks::{SandboxLifecycle, ShutdownAction, StopAdmission, TaskMode};
use cube_shim::teardown::{AbortCause, Teardown, TeardownEvent, TeardownStage, OCCUPIED};

const NOW: Timestamp = Timestamp {
    seconds: 1_725_000_000,
    nanos: 123_456_789,
};
const LATER: Timestamp = Timestamp {
    seconds: 1_725_000_100,
    nanos: 0,
};

fn lease() -> RuntimeLease {
    RuntimeLease {
        endpoint: "/run/cubelet.sock".to_string(),
        sandbox_id: "sandbox".to_string(),
        lease_id: "lease".to_string(),
        generation: 7,
    }
}

fn state(phase: Phase) -> LifecycleState {
    LifecycleState {
        phase,
        ..Default::default()
    }
}

fn ready() -> SandboxLifecycle {
    let mut lifecycle = SandboxLifecycle::default();
    lifecycle.state.phase = Phase::Ready;
    lifecycle.state.runtime = Some(lease());
    lifecycle
}

fn root() -> Result<String, String> {
    Ok("/data/cubelet/shared/sb".to_string())
}

fn nothing() -> Result<String, String> {
    Err("no lease".to_string())
}

#[test]
fn unmanaged_task_mode_preserves_legacy_runtime() {
    let mut lifecycle = SandboxLifecycle::default();
    let reservation = lifecycle
        .reserve_task_create("legacy-task", nothing())
        .unwrap();
    assert_eq!(reservation.mode, TaskMode::Legacy);
    assert!(!lifecycle.is_managed());
}

#[test]
fn managed_task_is_rejected_until_ready() {
    let mut lifecycle = SandboxLifecycle::default();
    lifecycle.state.phase = Phase::Created;
    assert!(lifecycle
        .reserve_task_create("task-before-ready", root())
        .err()
        .unwrap()
        .contains("not ready"));
    assert_eq!(
        lifecycle.managed_task_mode(root()).unwrap_err(),
        "managed Sandbox is not ready (phase Created)"
    );
    lifecycle.state.phase = Phase::Ready;
    assert_eq!(
        lifecycle.task_mode(root()).unwrap_err(),
        "ready sandbox has no RuntimeResource lease"
    );
    lifecycle.state.runtime = Some(lease());
    let reservation = lifecycle.reserve_task_create("task-ready", root()).unwrap();
    assert_eq!(
        reservation.mode,
        TaskMode::ManagedReady {
            shared_root: "/data/cubelet/shared/sb".to_string()
        }
    );
    assert_eq!(
        lifecycle.managed_task_mode(Err("escapes".to_string())),
        Err("escapes".to_string())
    );
}

#[test]
fn task_create_reservation_rejects_duplicate_and_blocks_shutdown() {
    let mut lifecycle = ready();
    let reservation = lifecycle.reserve_task_create("same-task", root()).unwrap();
    assert!(lifecycle
        .reserve_task_create("same-task", root())
        .err()
        .unwrap()
        .contains("already in progress"));
    assert_eq!(lifecycle.begin_shutdown(), None);
    assert_eq!(lifecycle.begin_stop(), StopAdmission::Wait);
    lifecycle.release_task_create(&reservation);
    assert_eq!(
        lifecycle.begin_shutdown(),
        Some(ShutdownAction::Run { force_abort: true })
    );
}

#[test]
fn managed_sandbox_allows_distinct_task_creates_and_waits_for_all() {
    let mut lifecycle = ready();
    let alpha = lifecycle.reserve_task_create("alpha", root()).unwrap();
    let beta = lifecycle.reserve_task_create("beta", root()).unwrap();
    assert_eq!(
        alpha.mode,
        TaskMode::ManagedReady {
            shared_root: "/data/cubelet/shared/sb".to_string()
        }
    );
    assert_eq!(alpha.mode, beta.mode);
    assert_eq!(lifecycle.begin_shutdown(), None);
    lifecycle.release_task_create(&alpha);
    assert!(lifecycle.has_task_creates());
    assert_eq!(lifecycle.begin_shutdown(), None);
    lifecycle.release_task_create(&beta);
    assert_eq!(
        lifecycle.begin_shutdown(),
        Some(ShutdownAction::Run { force_abort: true })
    );
}

#[test]
fn shutdown_waits_for_detached_operation_before_transitioning() {
    let mut lifecycle = SandboxLifecycle::default();
    lifecycle.state.phase = Phase::Creating;
    assert_eq!(lifecycle.begin_shutdown(), None);
    lifecycle.state.phase = Phase::Created;
    assert_eq!(
        lifecycle.begin_shutdown(),
        Some(ShutdownAction::Run { force_abort: true })
    );
    assert_eq!(lifecycle.state.phase, Phase::ShuttingDown);
    assert_eq!(
        lifecycle.begin_shutdown(),
        Some(ShutdownAction::WaitForExisting)
    );
}

#[test]
fn shutdown_after_stop_skips_redundant_force_abort() {
    let mut lifecycle = SandboxLifecycle::default();
    lifecycle.state.phase = Phase::Stopped;
    assert_eq!(
        lifecycle.begin_shutdown(),
        Some(ShutdownAction::Run { force_abort: false })
    );
    assert_eq!(lifecycle.state.phase, Phase::ShuttingDown);
}

#[test]
fn shutdown_with_pending_release_retries_only_release() {
    let mut lifecycle = SandboxLifecycle::default();
    lifecycle.state.phase = Phase::ReleasePending;
    assert_eq!(
        lifecycle.begin_shutdown(),
        Some(ShutdownAction::Run { force_abort: false })
    );
    assert_eq!(lifecycle.state.phase, Phase::ShuttingDown);
    lifecycle.state.phase = Phase::Shutdown;
    assert_eq!(
        lifecycle.begin_shutdown(),
        Some(ShutdownAction::AlreadyComplete)
    );
}

#[test]
fn stops_begin_by_phase() {
    let mut lifecycle = ready();
    assert_eq!(
        lifecycle.begin_stop(),
        StopAdmission::Run {
            previous: Phase::Ready
        }
    );
    assert_eq!(lifecycle.begin_stop(), StopAdmission::Join);
    lifecycle.state.phase = Phase::Stopped;
    assert_eq!(lifecycle.begin_stop(), StopAdmission::Stopped);
    lifecycle.state.phase = Phase::Unmanaged;
    assert_eq!(
        lifecycle.begin_stop(),
        StopAdmission::Refuse {
            error: RpcError {
                code: Code::FailedPrecondition,
                message: "sandbox cannot stop from phase Unmanaged".to_string()
            }
        }
    );
}

#[test]
fn start_rollback_release_failure_enters_retry_only_phase() {
    let mut state = LifecycleState {
        phase: Phase::Starting,
        runtime: Some(lease()),
        ..Default::default()
    };
    apply_start_result(
        &mut state,
        Err(StartFailure {
            error: "start failed; release RuntimeResource: unavailable".to_string(),
            cleanup: StartCleanup::ReleasePending,
        }),
        NOW,
    );

    assert_eq!(state.phase, Phase::ReleasePending);
    assert!(state.runtime.is_some());
    assert_eq!(state.exit_status, 1);
    assert!(state.exited_at.is_some());
    assert_eq!(
        stop_teardown_action(state.phase),
        StopTeardownAction::ReleaseOnly
    );
}

#[test]
fn start_rollback_failure_retains_lease_and_requires_abort() {
    let mut state = LifecycleState {
        phase: Phase::Starting,
        runtime: Some(lease()),
        ..Default::default()
    };
    apply_start_result(
        &mut state,
        Err(StartFailure {
            error: "start failed; rollback VM failed".to_string(),
            cleanup: StartCleanup::TeardownUnconfirmed,
        }),
        NOW,
    );

    assert_eq!(state.phase, Phase::Failed);
    assert!(state.runtime.is_some());
    assert_eq!(stop_teardown_action(state.phase), StopTeardownAction::Abort);
}

#[test]
fn teardown_is_confirmed_before_release_and_failure_retains_lease() {
    let run = Teardown::stop(Phase::Ready, true);
    assert_eq!(
        run.stage,
        TeardownStage::Inspecting {
            action: StopTeardownAction::Destroy
        }
    );
    let run = run.step(TeardownEvent::Inspected { empty: true });
    assert_eq!(run.stage, TeardownStage::Destroying);
    let run = run.step(TeardownEvent::Answered { result: Ok(()) });
    assert_eq!(
        run.stage,
        TeardownStage::Releasing {
            outcome: TeardownOutcome::normal()
        }
    );
    let run = run.step(TeardownEvent::Answered { result: Ok(()) });
    assert_eq!(
        run.stage,
        TeardownStage::Finished {
            result: CleanupOutcome::Released(TeardownOutcome::normal())
        }
    );

    let run = Teardown::stop(Phase::Failed, true);
    let run = run.step(TeardownEvent::Inspected { empty: true });
    let run = run.step(TeardownEvent::Answered {
        result: Err("VM still active".to_string()),
    });
    assert_eq!(
        run.stage,
        TeardownStage::Finished {
            result: CleanupOutcome::TeardownFailed(
                "force stop sandbox: VM still active".to_string()
            )
        }
    );
}

#[test]
fn failed_destruction_is_forced() {
    let answered = |result: Result<(), &str>| TeardownEvent::Answered {
        result: result.map_err(|error| error.to_string()),
    };
    let run = Teardown::stop(Phase::Created, false);
    let run = run.step(TeardownEvent::Inspected { empty: true });
    let run = run.step(answered(Err("stuck")));
    assert_eq!(
        run.stage,
        TeardownStage::Aborting {
            cause: AbortCause::DestroyFailed {
                destroy_error: "stuck".to_string()
            }
        }
    );
    let run = run.step(answered(Ok(())));
    assert_eq!(
        run.stage,
        TeardownStage::Finished {
            result: CleanupOutcome::Released(TeardownOutcome::forced(Some(
                "destroy sandbox: stuck; forced rollback".to_string()
            )))
        }
    );
    let occupied =
        Teardown::stop(Phase::Ready, true).step(TeardownEvent::Inspected { empty: false });
    assert_eq!(occupied.stage, TeardownStage::Occupied);
    assert_eq!(OCCUPIED, "sandbox still contains containers");
    let forced = Teardown::shutdown(true, true).step(answered(Err("x")));
    assert_eq!(
        forced.stage,
        TeardownStage::Finished {
            result: CleanupOutcome::TeardownFailed("force shutdown sandbox: x".to_string())
        }
    );
    let retry = Teardown::stop(Phase::ReleasePending, true).step(answered(Err("busy")));
    assert_eq!(
        retry.stage,
        TeardownStage::Finished {
            result: CleanupOutcome::ReleaseFailed(
                TeardownOutcome::normal(),
                "busy".to_string()
            )
        }
    );
}

#[test]
fn pending_release_is_terminal_and_retry_does_not_change_wait_result() {
    let mut state = LifecycleState {
        phase: Phase::ReleasePending,
        exited_at: Some(NOW),
        exit_status: 0,
        last_error: Some("release RuntimeResource: unavailable".to_string()),
        ..Default::default()
    };
    let before = terminal_wait_response(&state).unwrap();

    freeze_exit(&mut state, true, LATER);
    state.phase = Phase::Stopped;
    state.last_error = None;
    let after = terminal_wait_response(&state).unwrap();

    assert_eq!(before.0, after.0);
    assert_eq!(before.1, after.1);
    assert_eq!(after.0, 0);
    assert_eq!(after.1, Some(NOW));
}

#[test]
fn stops_and_shutdowns_are_noted() {
    let mut sandbox = state(Phase::Stopping);
    sandbox.runtime = Some(lease());
    let after = finish_stop(
        &mut sandbox,
        Phase::Ready,
        CleanupOutcome::ReleaseFailed(
            TeardownOutcome::forced(Some("warned".to_string())),
            "busy".to_string(),
        ),
        NOW,
    );
    assert_eq!(after, Aftermath::RequestCleanup);
    assert_eq!(sandbox.phase, Phase::ReleasePending);
    assert_eq!(sandbox.exit_status, 1);
    assert_eq!(sandbox.exited_at, Some(NOW));
    assert!(sandbox.runtime.is_some());
    assert_eq!(
        sandbox.last_error.as_deref(),
        Some("release RuntimeResource: busy; sandbox teardown warning: warned")
    );
    let after = finish_stop(
        &mut sandbox,
        Phase::ReleasePending,
        CleanupOutcome::Released(TeardownOutcome::normal()),
        LATER,
    );
    assert_eq!(after, Aftermath::Nothing);
    assert_eq!(sandbox.phase, Phase::Stopped);
    assert_eq!(sandbox.exit_status, 1);
    assert_eq!(sandbox.exited_at, Some(NOW));
    assert!(sandbox.runtime.is_none());
    assert_eq!(wait_for_stop(&sandbox), Some(Ok(())));
    let after = finish_shutdown(
        &mut sandbox,
        false,
        CleanupOutcome::Released(TeardownOutcome::normal()),
        LATER,
    );
    assert_eq!(after, Aftermath::Exit);
    assert_eq!(sandbox.phase, Phase::Shutdown);
    assert_eq!(wait_for_shutdown(&sandbox), Some(Ok(())));
    assert_eq!(
        ping(&sandbox),
        Err(RpcError {
            code: Code::Unavailable,
            message: "sandbox shim is shut down".to_string()
        })
    );

    let mut occupied = state(Phase::Stopping);
    finish_stop_guard(&mut occupied, Phase::Ready, OCCUPIED.to_string());
    assert_eq!(occupied.phase, Phase::Ready);
    assert_eq!(
        wait_for_stop(&occupied),
        Some(Err(RpcError {
            code: Code::FailedPrecondition,
            message: OCCUPIED.to_string()
        }))
    );

    let mut failed = state(Phase::ShuttingDown);
    let after = finish_shutdown(
        &mut failed,
        true,
        CleanupOutcome::TeardownFailed("x".to_string()),
        NOW,
    );
    assert_eq!(after, Aftermath::RequestCleanup);
    assert_eq!(
        wait_for_shutdown(&failed),
        Some(Err(RpcError {
            code: Code::Internal,
            message: "x".to_string()
        }))
    );
}

#[test]
fn starts_are_noted_and_watched() {
    let mut sandbox = state(Phase::Created);
    assert_eq!(begin_start(&mut sandbox), Ok(true));
    assert_eq!(begin_start(&mut sandbox), Ok(false));
    assert!(wait_for_start(&sandbox).is_none());
    assert_eq!(finish_start(&mut sandbox, Ok(()), NOW), Aftermath::Monitor);
    assert!(monitoring(&sandbox));
    match wait_for_start(&sandbox) {
        Some(Ok((created_at, spec))) => {
            assert_eq!(created_at, Some(NOW));
            assert!(spec.is_none());
        }
        _ => panic!("expected a ready sandbox"),
    }
    note_vm_exit(&mut sandbox, LATER);
    assert_eq!(sandbox.phase, Phase::Failed);
    assert_eq!(terminal_wait_response(&sandbox), Some((1, Some(LATER))));
    assert_eq!(
        begin_start(&mut sandbox).unwrap_err().message,
        "sandbox cannot start from phase Failed"
    );
    let mut failing = state(Phase::Starting);
    let failure = release_after_start_failure("x".to_string(), &Err("busy".to_string()));
    assert_eq!(failure.error, "x; release RuntimeResource: busy");
    assert_eq!(
        finish_start(&mut failing, Err(failure), NOW),
        Aftermath::RequestCleanup
    );
    assert_eq!(failing.phase, Phase::ReleasePending);
}

#[test]
fn status_shows_details_on_request() {
    let mut sandbox = state(Phase::Ready);
    sandbox.runtime = Some(lease());
    sandbox.last_error = Some("old".to_string());
    assert_eq!(sandbox_status(&sandbox, false), (READY, vec![]));
    let pair = |key: &str, value: &str| (key.to_string(), value.to_string());
    assert_eq!(
        sandbox_status(&sandbox, true).1,
        vec![
            pair("phase", "Ready"),
            pair("last_error", "old"),
            pair("runtime_lease", "lease"),
            pair("runtime_generation", "7"),
        ]
    );
    assert_eq!(sandbox_status(&state(Phase::Created), false).0, NOT_READY);
    assert_eq!(platform(), ("linux", "amd64"));
}

#[test]
fn requests_are_for_this_sandbox() {
    assert_eq!(validate_id("a", "a"), Ok(()));
    assert_eq!(validate_id("a", "").unwrap_err().code, Code::InvalidArgument);
    let other = validate_id("a", "b").unwrap_err();
    assert_eq!(other.code, Code::NotFound);
    assert_eq!(other.message, "sandbox_id b does not match shim a");
}

fn request(annotations: &[(&str, &str)]) -> CreateSandboxRequest {
    CreateSandboxRequest {
        sandbox_id: "sandbox-a".to_string(),
        bundle_path: "/run/containerd/bundle".to_string(),
        netns_path: "/run/netns/pod-a".to_string(),
        rootfs: vec![],
        annotations: annotations
            .iter()
            .map(|(key, value)| (key.to_string(), value.to_string()))
            .collect(),
    }
}

#[test]
fn create_retry_fingerprint_ignores_annotation_map_iteration_order() {
    let first = request(&[("z.example/key", "z"), ("a.example/key", "a")]);
    let second = request(&[("a.example/key", "a"), ("z.example/key", "z")]);
    assert_eq!(
        create_request_fingerprint(&first, "cri-fingerprint"),
        create_request_fingerprint(&second, "cri-fingerprint")
    );
    let second = request(&[("a.example/key", "a"), ("z.example/key", "changed")]);
    assert_ne!(
        create_request_fingerprint(&first, "cri-fingerprint"),
        create_request_fingerprint(&second, "cri-fingerprint")
    );
}

#[test]
fn fingerprint_hashes_length_prefixed_parts() {
    let mut bytes: Vec<u8> = Vec::new();
    let mut part = |value: &[u8]| {
        bytes.extend_from_slice(&(value.len() as u64).to_be_bytes());
        bytes.extend_from_slice(value);
    };
    let one = 1u64.to_be_bytes();
    for value in [
        &b"create-sandbox-request-v2"[..],
        b"sandbox-id",
        b"sandbox-a",
        b"bundle-path",
        b"/run/containerd/bundle",
        b"netns-path",
        b"/run/netns/pod-a",
        b"cri-semantic-fingerprint",
        b"cri",
        b"rootfs",
        &one,
        b"mount",
        b"type",
        b"overlay",
        b"source",
        b"src",
        b"target",
        b"/",
        b"options",
        &one,
        b"option",
        b"ro",
        b"annotations",
        &one,
        b"entry",
        b"key",
        b"value",
    ] {
        part(value);
    }
    let mut hashed = request(&[("key", "value")]);
    hashed.rootfs = vec![Mount {
        kind: "overlay".to_string(),
        source: "src".to_string(),
        target: "/".to_string(),
        options: vec!["ro".to_string()],
    }];
    let expected = <sha2::Sha256 as sha2::Digest>::digest(&bytes).to_vec();
    assert_eq!(create_request_fingerprint(&hashed, "cri"), expected);
}

#[test]
fn sandbox_spec_uses_containerd_oci_type_url_and_json_encoding() {
    let mut spec = oci_spec::runtime::Spec::default();
    spec.set_hostname(Some("cube-sandbox".to_string()));

    let encoded = encode_sandbox_spec(&spec).unwrap();

    assert_eq!(encoded.type_url, OCI_SPEC_TYPE_URL);
    let decoded: serde_json::Value = serde_json::from_slice(&encoded.value).unwrap();
    assert_eq!(decoded["hostname"], "cube-sandbox");
    assert!(decoded.get("ociVersion").is_some());
    assert_eq!(encoded.value.first(), Some(&b'{'));
    assert_eq!(encoded.value.last(), Some(&b'}'));
}

#[test]
fn unwritable_specs_are_reported() {
    assert_eq!(
        label_spec(Err("bad".to_string())).unwrap_err(),
        "serialize OCI sandbox spec failed: bad"
    );
    assert_eq!(
        OCI_SPEC_TYPE_URL,
        "types.containerd.io/opencontainers/runtime-spec/1/Spec"
    );
}

#[test]
fn timestamps_include_nanoseconds() {
    let timestamp = now_timestamp();
    assert!(timestamp.seconds > 0);
    assert!((0..1_000_000_000).contains(&timestamp.nanos));
}

#[test]
fn timestamps_keep_their_parts() {
    let moment = timestamp(12, 34);
    assert_eq!(moment.seconds, 12);
    assert_eq!(moment.nanos, 34);
}

#[test]
fn a_clock_before_the_epoch_shows_the_epoch() {
    let moment = elapsed_timestamp(Err("second time provided was later than self".to_string()));
    assert_eq!((moment.seconds, moment.nanos), (0, 0));
    let moment = elapsed_timestamp(Ok((12, 34)));
    assert_eq!((moment.seconds, moment.nanos), (12, 34));
}

#[test]
fn errors_are_kept_by_name() {
    for code in [
        Code::Cancelled,
        Code::Unknown,
        Code::InvalidArgument,
        Code::NotFound,
        Code::AlreadyExists,
        Code::FailedPrecondition,
        Code::Unavailable,
        Code::Internal,
    ] {
        let error = rpc_error(code, "m".to_string());
        let (name, message) = rpc_failure_identity(&error);
        assert_eq!(rpc_code_from_name(&name), code);
        assert_eq!(message, "m");
    }
    assert_eq!(rpc_code_from_name("DEADLINE_EXCEEDED"), Code::Unknown);
    assert_eq!(append_error("a".to_string(), "b", None), "a");
    assert_eq!(
        append_error("a".to_string(), "b", Some("c".to_string())),
        "a; b: c"
    );
}

fn started(mut start: Start, steps: usize) -> Start {
    for _ in 0..steps {
        let event = match start.stage {
            StartStage::Acting {
                step: StartStep::LoadLifecycle,
            } => StartEvent::Loaded { found: Ok(true) },
            StartStage::Acting {
                step: StartStep::CheckSandboxCapability | StartStep::CheckResourceCapability,
            } => StartEvent::Offered { capable: true },
            _ => StartEvent::Answered { result: Ok(()) },
        };
        start = start.step(event);
    }
    start
}

fn new_start() -> Start {
    Start::begin(true, "io.cube.resource.v2".to_string())
}

#[test]
fn starts_take_every_step() {
    assert_eq!(started(new_start(), 15).stage, StartStage::Started);
    assert_eq!(
        started(new_start(), 6).stage,
        StartStage::Acting {
            step: StartStep::AcquireTap
        }
    );
    assert_eq!(
        Start::begin(false, String::new()).stage,
        StartStage::Failed {
            failure: StartFailure {
                error: "sandbox has no RuntimeResource lease".to_string(),
                cleanup: StartCleanup::Released
            }
        }
    );
}

#[test]
fn early_start_failures_release_the_lease() {
    let absent = new_start().step(StartEvent::Loaded { found: Ok(false) });
    assert_eq!(
        absent.stage,
        StartStage::Releasing {
            error: "managed StartSandbox has no durable Host lifecycle".to_string()
        }
    );
    let tap = started(new_start(), 6).step(StartEvent::Answered {
        result: Err("busy".to_string()),
    });
    let tap = tap.step(StartEvent::Answered { result: Ok(()) });
    assert_eq!(
        tap.stage,
        StartStage::Failed {
            failure: StartFailure {
                error: "acquire RuntimeResource TAP: busy".to_string(),
                cleanup: StartCleanup::Released
            }
        }
    );
}

#[test]
fn late_start_failures_roll_the_machine_back() {
    let lacking = started(new_start(), 14).step(StartEvent::Offered { capable: false });
    assert_eq!(
        lacking.stage,
        StartStage::RollingBack {
            error: "guest agent lacks required capability io.cube.resource.v2>=1".to_string()
        }
    );
    let stuck = lacking.step(StartEvent::Answered {
        result: Err("stuck".to_string()),
    });
    assert_eq!(
        stuck.stage,
        StartStage::Failed {
            failure: StartFailure {
                error: "guest agent lacks required capability io.cube.resource.v2>=1; rollback VM: stuck; RuntimeResource release skipped until teardown is confirmed".to_string(),
                cleanup: StartCleanup::TeardownUnconfirmed
            }
        }
    );
    let pid = started(new_start(), 9).step(StartEvent::Answered {
        result: Err("EIO".to_string()),
    });
    let pid = pid.step(StartEvent::Answered { result: Ok(()) });
    assert_eq!(
        pid.stage,
        StartStage::Releasing {
            error: "record shim pid: EIO".to_string()
        }
    );
}

#[test]
fn creations_keep_a_stuck_lease() {
    let prepared = Creation::begin().step(CreationEvent::Prepared { result: Ok(lease()) });
    let failed = prepared.step(CreationEvent::Answered {
        answer: Err("bad".to_string()),
    });
    let finished = failed.step(CreationEvent::Answered {
        answer: Err("busy".to_string()),
    });
    let outcome = match finished {
        Creation::Finished { outcome } => outcome,
        _ => panic!("expected the end"),
    };
    let mut sandbox = state(Phase::Creating);
    let result = finish_create(&mut sandbox, outcome, NOW);
    assert_eq!(
        result,
        PersistedCreateResult::Failed {
            code: "FAILED_PRECONDITION".to_string(),
            message: "initialize Cube sandbox: bad; release RuntimeResource: busy".to_string()
        }
    );
    assert_eq!(sandbox.phase, Phase::Failed);
    assert_eq!(sandbox.runtime, Some(lease()));
    assert_eq!(sandbox.exit_status, 1);

    let failed = Creation::begin().step(CreationEvent::Prepared {
        result: Err("none".to_string()),
    });
    assert_eq!(
        failed,
        Creation::Finished {
            outcome: CreateOutcome::Failed {
                error: "prepare RuntimeResource: none".to_string(),
                kept: None
            }
        }
    );
    let mut sandbox = state(Phase::Creating);
    let result = finish_create(&mut sandbox, CreateOutcome::Created { lease: lease() }, NOW);
    assert_eq!(result, PersistedCreateResult::Succeeded);
    assert_eq!(sandbox.phase, Phase::Created);
}

fn spec() -> SandboxSpec {
    label_spec(Ok(vec![123, 125])).unwrap()
}

#[test]
fn durable_successes_are_borne_out() {
    let mut sandbox = LifecycleState::default();
    assert_eq!(begin_create(&mut sandbox, vec![1, 2], spec()), Ok(()));
    assert_eq!(sandbox.phase, Phase::Creating);
    let again = begin_create(&mut sandbox, vec![1, 2], spec()).unwrap_err();
    assert_eq!(again.code, Code::Internal);
    assert_eq!(
        again.message,
        "first durable Create found local phase Creating"
    );
    assert_eq!(
        check_local_create(&sandbox, &[1, 2]).unwrap_err(),
        "durable CreateSandbox success has local phase Creating"
    );
    sandbox.phase = Phase::Created;
    assert_eq!(
        check_local_create(&sandbox, &[1, 3]).unwrap_err(),
        "durable CreateSandbox success has a different local request"
    );
    assert_eq!(
        check_local_create(&sandbox, &[1, 2]).unwrap_err(),
        "durable CreateSandbox success has no RuntimeResource lease"
    );
    sandbox.runtime = Some(lease());
    assert_eq!(check_local_create(&sandbox, &[1, 2]), Ok(()));
    sandbox.sandbox_spec = None;
    assert_eq!(
        check_local_create(&sandbox, &[1, 2]).unwrap_err(),
        "durable CreateSandbox success has no local OCI spec"
    );
    assert!(check_initialized(true).is_ok());
    assert!(check_initialized(false).is_err());
    let mut owner = RuntimeResourceOwner::intent(
        "/run/cubelet.sock".to_string(),
        "sandbox".to_string(),
        "lease".to_string(),
        7,
        "key".to_string(),
    );
    assert!(check_runtime_owner(&owner, &lease()).is_err());
    owner.mark_allocated();
    assert!(check_runtime_owner(&owner, &lease()).is_ok());
    let mut other = lease();
    other.generation = 8;
    assert!(check_runtime_owner(&owner, &other).is_err());
}

#[test]
fn failed_readbacks_degrade_the_sandbox() {
    let mut readback = Readback::begin();
    for _ in 0..7 {
        readback = readback.step(Ok(()));
    }
    assert_eq!(
        readback,
        Readback::Acting {
            step: ReadbackStep::VerifyAgain
        }
    );
    assert_eq!(readback.step(Ok(())), Readback::Confirmed);
    let failed = Readback::begin().step(Err("revoked".to_string()));
    let failed = failed.step(Err("EIO".to_string()));
    assert_eq!(
        failed,
        Readback::Failed {
            message: "durable CreateSandbox success exact readback failed: revoked; persist terminal DEGRADED cleanup: EIO".to_string()
        }
    );
}

fn answered(answer: Result<(), &str>) -> CallEvent {
    CallEvent::Answered {
        answer: answer.map_err(|error| error.to_string()),
    }
}

fn claimed(admission: Result<CreateAdmission, BeginCreateError>) -> CreateCall {
    CreateCall::begin(&request(&[]))
        .step(answered(Ok(())))
        .step(CallEvent::Loaded { found: Ok(true) })
        .step(CallEvent::Claimed { admission })
}

fn ended(call: CreateCall) -> Result<(), RpcError> {
    match call.stage {
        CallStage::Ended { outcome } => outcome,
        _ => panic!("expected the end"),
    }
}

#[test]
fn first_create_call_acts_and_confirms() {
    let mut call = claimed(Ok(CreateAdmission::First));
    let steps = [
        CreateStep::CheckNamespaces,
        CreateStep::CheckParent,
        CreateStep::LoadSpec,
        CreateStep::MergeAnnotations,
        CreateStep::Plan,
        CreateStep::EncodeSpec,
        CreateStep::Place,
        CreateStep::ApplyCeiling,
    ];
    for step in steps {
        assert_eq!(call.stage, CallStage::Acting { step });
        call = call.step(answered(Ok(())));
    }
    assert_eq!(
        call.stage,
        CallStage::Acting {
            step: CreateStep::Begin
        }
    );
    let call = call.step(CallEvent::Begun { begun: Ok(()) });
    assert_eq!(call.stage, CallStage::Waiting);
    let call = call.step(CallEvent::Settled {
        settled: Ok(PersistedCreateResult::Succeeded),
    });
    assert_eq!(call.stage, CallStage::Confirming);
    let call = call.step(answered(Ok(()))).step(answered(Ok(())));
    assert_eq!(ended(call), Ok(()));
}

#[test]
fn retried_create_calls_only_wait() {
    let call = claimed(Ok(CreateAdmission::RetryFailed));
    assert_eq!(call.stage, CallStage::Waiting);
    let call = call.step(CallEvent::Settled {
        settled: Ok(PersistedCreateResult::Failed {
            code: "INVALID_ARGUMENT".to_string(),
            message: "bad".to_string(),
        }),
    });
    let error = ended(call.step(answered(Ok(())))).unwrap_err();
    assert_eq!(error.code, Code::InvalidArgument);
    assert_eq!(error.message, "bad");
    let call = claimed(Ok(CreateAdmission::RetryInProgress));
    let call = call.step(CallEvent::Settled {
        settled: Err("timed out".to_string()),
    });
    let error = ended(call.step(answered(Err("EIO")))).unwrap_err();
    assert_eq!(error.code, Code::Internal);
    assert_eq!(error.message, "finish CreateSandbox waiter: EIO");
}

#[test]
fn refused_create_calls_name_the_reason() {
    let conflict = claimed(Err(BeginCreateError::Conflict("owned".to_string())));
    assert_eq!(ended(conflict).unwrap_err().code, Code::AlreadyExists);
    let invalid = claimed(Err(BeginCreateError::Invalid("bad".to_string())));
    assert_eq!(ended(invalid).unwrap_err().code, Code::FailedPrecondition);
    let absent = CreateCall::begin(&request(&[]))
        .step(answered(Ok(())))
        .step(CallEvent::Loaded { found: Ok(false) });
    assert_eq!(
        ended(absent).unwrap_err().message,
        "managed CreateSandbox has no external shim lifecycle"
    );
    let undecoded = CreateCall::begin(&request(&[])).step(answered(Err("bad")));
    assert_eq!(ended(undecoded).unwrap_err().code, Code::InvalidArgument);
}

#[test]
fn failures_are_published_before_they_are_told() {
    let call = claimed(Ok(CreateAdmission::First));
    let call = call.step(answered(Ok(()))).step(answered(Ok(())));
    let call = call.step(answered(Err("EIO")));
    let expected = || RpcError {
        code: Code::InvalidArgument,
        message: "load sandbox bundle spec: EIO".to_string(),
    };
    assert_eq!(
        call.stage,
        CallStage::Publishing {
            error: expected(),
            cause: Rejection::Semantics
        }
    );
    let call = call.step(answered(Ok(())));
    assert_eq!(
        call.stage,
        CallStage::Leaving {
            error: expected(),
            cause: Rejection::Semantics
        }
    );
    assert_eq!(ended(call.step(answered(Ok(())))), Err(expected()));

    let mut host = request(&[]);
    host.netns_path = "netns".to_string();
    let call = CreateCall::begin(&host)
        .step(answered(Ok(())))
        .step(CallEvent::Loaded { found: Ok(true) })
        .step(CallEvent::Claimed {
            admission: Ok(CreateAdmission::First),
        })
        .step(answered(Ok(())));
    let error = ended(call.step(answered(Err("panicked")))).unwrap_err();
    assert_eq!(
        error.message,
        "join rejected CreateSandbox publisher: panicked"
    );
}

#[test]
fn create_requests_are_checked_first() {
    let good = request(&[]);
    assert_eq!(validate_request("sandbox-a", &good, true), Ok(()));
    assert_eq!(
        validate_request("sandbox-a", &good, false)
            .unwrap_err()
            .message,
        "sandbox options must contain CRI v1 PodSandboxConfig"
    );
    let mut relative = request(&[]);
    relative.bundle_path = "bundle".to_string();
    assert_eq!(
        validate_request("sandbox-a", &relative, true)
            .unwrap_err()
            .message,
        "bundle_path must be absolute"
    );
    assert_eq!(
        validate_request("other", &good, true).unwrap_err().code,
        Code::NotFound
    );
}

#[test]
fn cleanup_requests_are_repeated_until_durable() {
    assert!(cleanup_settled(&Ok(true), &Ok(())));
    assert!(!cleanup_settled(&Ok(true), &Err("EIO".to_string())));
    assert!(cleanup_settled(&Ok(false), &Err("none".to_string())));
    assert!(!cleanup_settled(&Err("EIO".to_string()), &Ok(())));
}
