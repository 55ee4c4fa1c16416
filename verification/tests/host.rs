//! What a shim reads of its host: cgroups, processes, units and sockets.
use cube_shim::bootstrap::{
    abort_result, check_gate_descriptor, check_gate_token, poll_scope, verify_moved,
    verify_scope_gate, IdentityCapture, ScopeSighting, ScopeWait, ScopeWaitEvent, ScopeWaitStage,
};
use cube_shim::cri::{
    canonical_cri_cgroup_parent, classify_and_target, load_spec, parse_host_target,
    parse_systemd_target_components, plan_host_target, target_path_from_cri_parent,
    validate_unified_cgroup_mountinfo, BundleSpec, ParentSighting, PlannedTarget,
    CONTAINER_TYPE_ANNOTATION, SANDBOX_ID_ANNOTATION,
};
use cube_shim::digest::{
    bytes_hex, command_sha256, decode_hex, lifecycle_key, sha256_hex, socket_ownership_digest,
};
use cube_shim::host_cleanup::{
    decide_directory_removal, interrupted_is_ripe, is_queue_entry, removable_leftover,
    target_cleanup, verify_cgroup_cleanup_identity, verify_empty_cgroup, CgroupContents,
    TargetCleanup,
};
use cube_shim::identity::{immutable_identity_matches, FileIdentity, ProcessIdentity, SocketIdentity};
use cube_shim::observe::{
    immutable_process_is_live, may_signal, observe_process, pidfd_open_failure_means_gone,
    process_identity_failure_means_gone, OpenFailure, ProcPresence, ProcessObservation,
    ProcessProbe, EINVAL, ESRCH,
};
use cube_shim::paths::{
    canonical_socket_path, file_name, join, normalized_cgroup_relative, parent_path, same_path,
    unix_socket_path,
};
use cube_shim::procfs::{
    capture_process_identity, cgroup_pids, containment_identity, events_unpopulated,
    launch_nonce_hash, process_cgroup, process_environment_value, process_launch_nonce,
    process_parent_pid, process_start_time, procs_listed, systemd_property,
    systemd_unit_absent_from_output, ProcessReadings,
};
use cube_shim::record::{Classification, HostOwnerState};
use cube_shim::scope::{ScopeAction, ScopeCleanup, ScopeEvent};
use cube_shim::sockets::{
    confirm_socket_removal, decide_socket_ownership, decide_socket_removal, descriptor_names,
    unix_socket_kernel_inodes, PathStat, SocketFacts,
};
use cube_shim::target::{cgroup_directory, HostTarget};
use cube_shim::text::{
    contains_text, decimal_text, ends_with, split_lines, split_words, trim,
};
use cube_shim::watchdog::{
    probe_stamp, probe_target, verify_watchdog_service, watchdog_command, watchdog_pids,
    ProbeStage, ScopeProbe, WatchdogSighting, PROBE_ITERATIONS, WATCHDOG_CGROUP,
};

fn file(inode: u64) -> FileIdentity {
    FileIdentity { device: 1, inode }
}

fn process(pid: i32) -> ProcessIdentity {
    ProcessIdentity {
        pid,
        boot_id: "boot".to_string(),
        start_time_ticks: 5,
        executable: file(2),
        command_sha256: "command".to_string(),
        cwd: file(3),
        cgroup: "/target".to_string(),
        launch_nonce_sha256: None,
    }
}

fn mounted() -> Result<String, String> {
    Ok("30 20 0:27 / /sys/fs/cgroup rw - cgroup2 cgroup rw\n".to_string())
}

#[test]
fn systemd_absence_accepts_not_found_stdout_with_nonzero_status() {
    assert!(systemd_unit_absent_from_output("collected.scope", false, "not-found\n", "").unwrap());
    assert!(!systemd_unit_absent_from_output("loaded.scope", true, "loaded\n", "").unwrap());
    assert!(systemd_unit_absent_from_output(
        "legacy.scope",
        false,
        "",
        "Unit legacy.scope could not be found."
    )
    .unwrap());
    assert!(
        systemd_unit_absent_from_output("broken.scope", false, "", "")
            .unwrap_err()
            .contains("query systemd unit collection broken.scope")
    );
}

#[test]
fn managed_systemd_target_parser_accepts_exact_cri_shape() {
    let id = "b".repeat(64);
    let input = format!("kubepods-burstable-podabc.slice:cri-containerd:{id}");
    let (slice, unit) = parse_systemd_target_components(&input, &id).unwrap();
    assert_eq!(slice, "kubepods-burstable-podabc.slice");
    assert_eq!(unit, format!("cri-containerd-{id}.scope"));
    assert!(parse_systemd_target_components(
        &format!("kubepods-burstable-podabc.slice:runc:{id}"),
        &id
    )
    .is_err());
}

#[test]
fn cri_parent_normalization_matches_systemd_and_cgroupfs_forms() {
    let id = "c".repeat(64);
    assert_eq!(
        canonical_cri_cgroup_parent("kubepods-burstable-podabc.slice").unwrap(),
        "/kubepods.slice/kubepods-burstable.slice/kubepods-burstable-podabc.slice"
    );
    assert_eq!(
        target_path_from_cri_parent("kubepods-burstable-podabc.slice", &id).unwrap(),
        format!("kubepods-burstable-podabc.slice:cri-containerd:{id}")
    );
    assert_eq!(
        target_path_from_cri_parent(
            "/kubepods.slice/kubepods-burstable.slice/kubepods-burstable-podabc.slice",
            &id,
        )
        .unwrap(),
        format!("kubepods-burstable-podabc.slice:cri-containerd:{id}")
    );
    assert_eq!(
        canonical_cri_cgroup_parent("/kubepods/burstable/podabc").unwrap(),
        "/kubepods/burstable/podabc"
    );
    assert_eq!(
        target_path_from_cri_parent("/kubepods/burstable/podabc", &id).unwrap(),
        format!("/kubepods/burstable/podabc/{id}")
    );
    assert!(target_path_from_cri_parent("/wrong/kubepods-burstable-podabc.slice", &id).is_err());
    assert!(canonical_cri_cgroup_parent("").is_err());
    assert!(canonical_cri_cgroup_parent("parent:child").is_err());
}

#[test]
fn unified_cgroup_validation_allows_same_hierarchy_bind_aliases() {
    let mountinfo = "30 20 0:27 / /sys/fs/cgroup rw - cgroup2 cgroup rw\n31 20 0:27 / /run/cilium/cgroupv2 rw - cgroup2 cgroup rw\n";
    validate_unified_cgroup_mountinfo(mountinfo).unwrap();

    let different = "30 20 0:27 / /sys/fs/cgroup rw - cgroup2 cgroup rw\n31 20 0:28 / /run/other/cgroup2 rw - cgroup2 cgroup rw\n";
    assert!(validate_unified_cgroup_mountinfo(different).is_err());
    assert!(validate_unified_cgroup_mountinfo(
        "31 20 0:27 / /run/cilium/cgroupv2 rw - cgroup2 cgroup rw\n"
    )
    .is_err());
}

fn bundle(container_type: Option<&str>, sandbox_id: Option<&str>) -> BundleSpec {
    BundleSpec {
        container_type: container_type.map(|text| text.to_string()),
        sandbox_id: sandbox_id.map(|text| text.to_string()),
        cgroups_path: None,
    }
}

fn no_target() -> Result<HostTarget, String> {
    Err("no target".to_string())
}

#[test]
fn classifier_accepts_exact_managed_sandbox() {
    let id = "a".repeat(64);
    let mut spec = bundle(Some("sandbox"), Some(&id));
    let path = format!("kubepods-burstable-podabc.slice:cri-containerd:{id}");
    spec.cgroups_path = Some(path.clone());
    let plan = plan_host_target(&path, &id, &mounted()).unwrap();
    let target = parse_host_target(
        plan,
        &ParentSighting {
            canonical: Err("No such file or directory".to_string()),
            identity: Err("No such file or directory".to_string()),
        },
        &Ok(None),
    );
    let error =
        classify_and_target(&spec, "k8s.io", &id, "/original", &Ok(()), &target).unwrap_err();
    assert!(error.contains("canonicalize cgroup parent"));

    let parent = "/sys/fs/cgroup/kubepods.slice/kubepods-burstable.slice/kubepods-burstable-podabc.slice";
    let target = parse_host_target(
        plan_host_target(&path, &id, &mounted()).unwrap(),
        &ParentSighting {
            canonical: Ok(parent.to_string()),
            identity: Ok(file(9)),
        },
        &Ok(None),
    );
    let (classification, target) =
        classify_and_target(&spec, "k8s.io", &id, "/original", &Ok(()), &target).unwrap();
    assert_eq!(classification, Classification::ManagedSandbox);
    assert!(target.managed());
    assert_eq!(target.parent_identity(), Some(file(9)));
}

#[test]
fn classifier_accepts_cri_container_and_direct_legacy() {
    let cri = bundle(Some("container"), Some("sandbox-1"));
    assert_eq!(
        classify_and_target(
            &cri,
            "k8s.io",
            "container-1",
            "/original",
            &Ok(()),
            &no_target()
        )
        .unwrap()
        .0,
        Classification::LegacyTask
    );
    let direct = bundle(None, None);
    assert_eq!(
        classify_and_target(
            &direct,
            "default",
            "task-1",
            "/original",
            &Ok(()),
            &no_target()
        )
        .unwrap()
        .0,
        Classification::LegacyTask
    );
}

#[test]
fn classifier_rejects_partial_unknown_and_conflicting_annotations() {
    for spec in [
        bundle(Some("sandbox"), None),
        bundle(None, Some("sandbox-1")),
        bundle(Some("unknown"), Some("sandbox-1")),
    ] {
        assert!(classify_and_target(
            &spec,
            "k8s.io",
            "sandbox-1",
            "/original",
            &Ok(()),
            &no_target()
        )
        .is_err());
    }
}

#[test]
fn cgroupfs_normalization_rejects_escape_and_wrong_leaf() {
    assert!(normalized_cgroup_relative("/a/../b").is_err());
    let normalized = normalized_cgroup_relative("/a/b/id").unwrap();
    assert_eq!(normalized, "a/b/id");
    assert!(plan_host_target("/a/b/wrong", "id", &mounted()).is_err());
    assert_eq!(
        plan_host_target("/a/b/id", "id", &mounted()).unwrap(),
        PlannedTarget::Cgroupfs {
            oci_path: "/a/b/id".to_string(),
            cgroup: "/a/b/id".to_string()
        }
    );
}

#[test]
fn bundle_specs_are_read_from_json() {
    let json = format!(
        "{{\"ociVersion\":\"1.0.2\",\"annotations\":{{\"{CONTAINER_TYPE_ANNOTATION}\":\"sandbox\",\"{SANDBOX_ID_ANNOTATION}\":\"id\"}},\"linux\":{{\"cgroupsPath\":\"/a/b\"}}}}"
    );
    let spec = load_spec("/b/config.json", &Ok(json.into_bytes())).unwrap();
    assert_eq!(spec.container_type.as_deref(), Some("sandbox"));
    assert_eq!(spec.sandbox_id.as_deref(), Some("id"));
    assert_eq!(spec.cgroups_path.as_deref(), Some("/a/b"));
    assert!(load_spec("/b/config.json", &Ok(b"{".to_vec())).is_err());
    assert!(load_spec("/b/config.json", &Err("EIO".to_string())).is_err());
}

#[test]
fn immutable_identity_ignores_only_containment() {
    let mut current = process(100);
    current.launch_nonce_sha256 = Some("nonce".to_string());
    let mut sibling = current.clone();
    sibling.cgroup = "/sibling".to_string();
    assert!(immutable_identity_matches(&current, &sibling));
    sibling.start_time_ticks += 1;
    assert!(!immutable_identity_matches(&current, &sibling));
}

#[test]
fn pidfd_einval_requires_confirmed_missing_proc_entry() {
    let einval = Some(EINVAL);
    let esrch = Some(ESRCH);
    let eperm = Some(1);

    assert!(pidfd_open_failure_means_gone(einval, ProcPresence::Missing));
    assert!(!pidfd_open_failure_means_gone(einval, ProcPresence::Present));
    assert!(!pidfd_open_failure_means_gone(einval, ProcPresence::Unknown));
    assert!(pidfd_open_failure_means_gone(esrch, ProcPresence::Unknown));
    assert!(!pidfd_open_failure_means_gone(eperm, ProcPresence::Missing));
    assert!(process_identity_failure_means_gone(ProcPresence::Missing));
    assert!(!process_identity_failure_means_gone(ProcPresence::Present));
    assert!(!process_identity_failure_means_gone(ProcPresence::Unknown));
}

#[test]
fn stale_pidfd_is_gone_after_proc_disappears() {
    let expected = process(i32::MAX);
    let probe = ProcessProbe {
        opened: Err(OpenFailure {
            errno: Some(EINVAL),
            message: "invalid argument".to_string(),
        }),
        present: Ok(false),
        identity: Err("gone".to_string()),
    };
    assert!(matches!(
        observe_process(&expected, &probe).unwrap(),
        ProcessObservation::Gone
    ));
}

#[test]
fn pidfd_fencing_terminates_only_the_recorded_identity() {
    let expected = process(100);
    let probe = |identity: ProcessIdentity| ProcessProbe {
        opened: Ok(()),
        present: Ok(true),
        identity: Ok(identity),
    };
    match observe_process(&expected, &probe(process(100))).unwrap() {
        ProcessObservation::Exact { containment_ok, .. } => assert!(containment_ok),
        _ => panic!("spawned server was not observed exactly"),
    }
    assert_eq!(may_signal(&expected, &Ok(process(100)), false, false), Ok(true));
    let mut bait = process(100);
    bait.start_time_ticks += 1;
    assert!(matches!(
        observe_process(&expected, &probe(bait.clone())).unwrap(),
        ProcessObservation::Reused
    ));
    assert!(may_signal(&expected, &Ok(bait), false, false) != Ok(true));
    let mut escaped = process(100);
    escaped.cgroup = "/elsewhere".to_string();
    assert!(may_signal(&expected, &Ok(escaped.clone()), false, true).is_err());
    assert_eq!(may_signal(&expected, &Ok(escaped), true, true), Ok(true));
    assert_eq!(immutable_process_is_live(&Ok(ProcessObservation::Gone)), Ok(false));
}

#[test]
fn server_identity_reads_nonce_from_target_environment() {
    let nonce = vec![9_u8; 32];
    let environment = format!("A=b\0CUBE_SHIM_LAUNCH_NONCE={}\0", bytes_hex(&nonce));
    let found = process_launch_nonce(100, environment.as_bytes())
        .unwrap()
        .unwrap();
    let hash = launch_nonce_hash(&found).unwrap();
    assert_eq!(hash, sha256_hex(&nonce));
    let mut actual = process(100);
    actual.launch_nonce_sha256 = Some(hash);
    let mut forged = actual.clone();
    forged.launch_nonce_sha256 = Some(sha256_hex(b"caller supplied fake nonce"));
    let probe = ProcessProbe {
        opened: Ok(()),
        present: Ok(true),
        identity: Ok(actual),
    };
    assert!(matches!(
        observe_process(&forged, &probe).unwrap(),
        ProcessObservation::Reused
    ));
    assert_eq!(
        process_environment_value(100, b"A=b\0C=d\0", "C").unwrap(),
        Some("d".to_string())
    );
    assert_eq!(process_launch_nonce(100, b"A=b\0").unwrap(), None);
}

#[test]
fn process_readings_become_an_identity() {
    let stat = "100 (a) b) S 7 1 1 0 -1 4194560 1 0 0 0 0 0 0 0 20 0 1 0 987654 0 0";
    assert_eq!(process_start_time(100, stat), Ok(987654));
    assert_eq!(process_parent_pid(100, stat), Ok(7));
    assert!(process_start_time(100, "100 nothing").is_err());
    assert_eq!(
        process_cgroup(100, "0::/a/b\n"),
        Ok("/a/b".to_string())
    );
    assert!(process_cgroup(100, "1:cpu:/a\n").is_err());
    let readings = ProcessReadings {
        stat: Ok(stat.to_string()),
        command: Ok(b"a\0b\0".to_vec()),
        boot_id: Ok("boot\n".to_string()),
        executable: Ok(file(2)),
        cwd: Ok(file(3)),
        cgroup: Ok("0::/a/b\n".to_string()),
    };
    let identity = capture_process_identity(100, &readings, None).unwrap();
    assert_eq!(identity.boot_id, "boot");
    assert_eq!(identity.start_time_ticks, 987654);
    assert_eq!(identity.cgroup, "/a/b");
    assert_eq!(
        identity.command_sha256,
        command_sha256(&vec!["a".to_string(), "b".to_string()])
    );
    assert_eq!(cgroup_pids("1\n22\n"), Ok(vec![1, 22]));
    assert!(cgroup_pids("x\n").is_err());
    assert!(events_unpopulated("populated 0\nfrozen 0\n"));
    assert!(!events_unpopulated("populated 1\n"));
    assert!(procs_listed("12\n"));
    assert!(!procs_listed("\n"));
    assert_eq!(
        systemd_property("LoadState=loaded\nActiveState=failed\n", "ActiveState"),
        Some("failed".to_string())
    );
    let contained = containment_identity("/a", &Ok(Some(file(8)))).unwrap();
    assert_eq!(contained.inode, Some(8));
    assert_eq!(containment_identity("/a", &Ok(None)).unwrap().device, None);
}

/// Runs the cleanup of a scope against a host whose cgroup is the recorded,
/// empty one; tells whether the unit was reset, and how often its state was
/// asked for.
fn clean_scope<F, A>(mut query: F, mut absent: A, identity: Result<(), &str>, empty: Result<(), &str>) -> (Result<(), String>, bool, usize)
where
    F: FnMut() -> Result<Option<String>, String>,
    A: FnMut() -> bool,
{
    let failed = |error: &str| ScopeEvent::Failed {
        message: error.to_string(),
    };
    let mut run = ScopeCleanup::start("fixture.scope".to_string());
    let mut reset = false;
    let mut queries = 0;
    loop {
        let event = match run.action() {
            ScopeAction::LookForCgroup => ScopeEvent::Cgroup { present: true },
            ScopeAction::AskUnitAbsent => ScopeEvent::Unit { absent: absent() },
            ScopeAction::VerifyIdentity => match identity {
                Ok(()) => ScopeEvent::Done,
                Err(error) => failed(error),
            },
            ScopeAction::VerifyEmpty => match empty {
                Ok(()) => ScopeEvent::Done,
                Err(error) => failed(error),
            },
            ScopeAction::QueryState => {
                queries += 1;
                match query() {
                    Ok(active) => ScopeEvent::State { active },
                    Err(message) => ScopeEvent::Failed { message },
                }
            }
            ScopeAction::Pause => ScopeEvent::Done,
            ScopeAction::ResetFailed => {
                reset = true;
                ScopeEvent::Done
            }
            ScopeAction::Stop => break,
        };
        run = run.step(event);
    }
    let result = match run.stage {
        cube_shim::scope::ScopeStage::Failed { message } => Err(message),
        _ => Ok(()),
    };
    (result, reset, queries)
}

fn active(state: &str) -> Result<Option<String>, String> {
    Ok(Some(state.to_string()))
}

#[test]
fn systemd_cleanup_accepts_exact_empty_inactive_and_collection_race() {
    let (result, reset, _) = clean_scope(
        || active("inactive"),
        || panic!("inactive state must not require an absence query"),
        Ok(()),
        Ok(()),
    );
    result.unwrap();
    assert!(!reset);

    let (result, reset, _) = clean_scope(
        || Err("injected systemctl show collection race".to_string()),
        || true,
        Ok(()),
        Ok(()),
    );
    result.unwrap();
    assert!(!reset);

    let mut calls = 0;
    let (result, reset, queries) = clean_scope(
        || {
            calls += 1;
            if calls <= 2 {
                Err("injected transient systemctl show failure".to_string())
            } else {
                active("inactive")
            }
        },
        || false,
        Ok(()),
        Ok(()),
    );
    result.unwrap();
    assert!(!reset);
    assert_eq!(queries, 3);
}

#[test]
fn systemd_cleanup_resets_only_exact_empty_failed_scope() {
    let (result, reset, _) = clean_scope(
        || active("failed"),
        || panic!("failed state must not require an absence query"),
        Ok(()),
        Ok(()),
    );
    result.unwrap();
    assert!(reset);
}

#[test]
fn systemd_cleanup_rejects_leaf_replacement_during_property_retry() {
    for final_state in ["inactive", "failed"] {
        let mut leaf = file(2);
        let mut calls = 0;
        let mut reset = false;
        let mut run = ScopeCleanup::start("fixture.scope".to_string());
        loop {
            let event = match run.action() {
                ScopeAction::LookForCgroup => ScopeEvent::Cgroup { present: true },
                ScopeAction::AskUnitAbsent => ScopeEvent::Unit { absent: false },
                ScopeAction::VerifyIdentity => match verify_cgroup_cleanup_identity(
                    "/sys/fs/cgroup/fixture.scope",
                    &Ok(file(1)),
                    &Ok(leaf),
                    file(1),
                    Some(file(2)),
                ) {
                    Ok(()) => ScopeEvent::Done,
                    Err(message) => ScopeEvent::Failed { message },
                },
                ScopeAction::VerifyEmpty | ScopeAction::Pause => ScopeEvent::Done,
                ScopeAction::QueryState => {
                    calls += 1;
                    if calls == 1 {
                        leaf = file(3);
                        ScopeEvent::Failed {
                            message: "injected systemctl show collection race".to_string(),
                        }
                    } else {
                        ScopeEvent::State {
                            active: Some(final_state.to_string()),
                        }
                    }
                }
                ScopeAction::ResetFailed => {
                    reset = true;
                    ScopeEvent::Done
                }
                ScopeAction::Stop => break,
            };
            run = run.step(event);
        }
        let error = match run.stage {
            cube_shim::scope::ScopeStage::Failed { message } => message,
            stage => panic!("the replaced leaf was accepted: {stage:?}"),
        };
        assert!(error.contains("leaf identity changed"), "{error}");
        assert_eq!(calls, 2);
        assert!(!reset);
    }
}

#[test]
fn systemd_cleanup_fails_closed_for_live_or_uncertain_identity() {
    let (result, _, _) = clean_scope(|| active("active"), || false, Ok(()), Ok(()));
    assert!(result.unwrap_err().contains("has not been collected"));

    let leaf = "/sys/fs/cgroup/fixture.slice/fixture.scope";
    let replaced =
        verify_cgroup_cleanup_identity(leaf, &Ok(file(1)), &Ok(file(2)), file(1), Some(file(3)));
    let (result, _, _) = clean_scope(
        || Err("injected systemctl show collection race".to_string()),
        || true,
        replaced.as_ref().map(|_| ()).map_err(String::as_str),
        Ok(()),
    );
    assert!(result.unwrap_err().contains("leaf identity changed"));

    let kept =
        verify_cgroup_cleanup_identity(leaf, &Ok(file(1)), &Ok(file(2)), file(1), Some(file(2)));
    let live = verify_empty_cgroup(
        leaf,
        &CgroupContents {
            events: Ok("populated 1\n".to_string()),
            procs: Ok(String::new()),
            has_child: Ok(false),
        },
    );
    let (result, reset, _) = clean_scope(
        || active("inactive"),
        || false,
        kept.as_ref().map(|_| ()).map_err(String::as_str),
        live.as_ref().map(|_| ()).map_err(String::as_str),
    );
    assert!(result.unwrap_err().contains("still populated"));
    assert!(!reset);
}

#[test]
fn cgroups_are_removed_only_when_empty_and_recorded() {
    let path = "/sys/fs/cgroup/a";
    assert!(verify_cgroup_cleanup_identity(path, &Ok(file(1)), &Ok(file(2)), file(1), Some(file(2))).is_ok());
    assert!(verify_cgroup_cleanup_identity(path, &Ok(file(1)), &Ok(file(3)), file(1), Some(file(2)))
        .unwrap_err()
        .contains("leaf identity changed"));
    assert!(verify_cgroup_cleanup_identity(path, &Ok(file(4)), &Ok(file(2)), file(1), Some(file(2))).is_err());
    let contents = |events: &str, procs: &str, has_child: bool| CgroupContents {
        events: Ok(events.to_string()),
        procs: Ok(procs.to_string()),
        has_child: Ok(has_child),
    };
    assert!(verify_empty_cgroup(path, &contents("populated 0\n", "", false)).is_ok());
    assert!(verify_empty_cgroup(path, &contents("populated 1\n", "", false))
        .unwrap_err()
        .contains("still populated"));
    assert!(verify_empty_cgroup(path, &contents("populated 0\n", "5\n", false)).is_err());
    assert!(verify_empty_cgroup(path, &contents("populated 0\n", "", true)).is_err());
    let mut unreadable = contents("", "", false);
    unreadable.events = Err("gone".to_string());
    assert_eq!(
        verify_empty_cgroup(path, &unreadable),
        Err("read cgroup.events for /sys/fs/cgroup/a: gone".to_string())
    );
    let mut unreadable = contents("populated 0\n", "", false);
    unreadable.has_child = Err("gone".to_string());
    assert_eq!(
        verify_empty_cgroup(path, &unreadable),
        Err("scan Host leaf /sys/fs/cgroup/a: gone".to_string())
    );
    let target = HostTarget::Cgroupfs {
        oci_path: "/a".to_string(),
        cgroup: "/a".to_string(),
        parent_identity: file(1),
        leaf_identity: Some(file(2)),
    };
    assert_eq!(
        decide_directory_removal(
            &target,
            true,
            &Ok(file(1)),
            &Ok(file(2)),
            &contents("populated 0\n", "", false)
        ),
        Ok(true)
    );
    assert_eq!(
        target_cleanup(HostOwnerState::Empty, &target),
        TargetCleanup::Nothing
    );
    assert_eq!(
        target_cleanup(HostOwnerState::Allocated, &target),
        TargetCleanup::Directory {
            path: "/sys/fs/cgroup/a".to_string()
        }
    );
    assert_eq!(cgroup_directory("/a"), "/sys/fs/cgroup/a");
}

#[test]
fn cleanup_files_are_told_apart() {
    assert!(is_queue_entry("a.json", true));
    assert!(!is_queue_entry("a.json", false));
    assert!(!is_queue_entry(".a.json.tmp-1", true));
    assert!(!interrupted_is_ripe(0));
    assert!(interrupted_is_ripe(3_600_000));
    assert!(removable_leftover("record.lock", true, "/x/record.lock").is_ok());
    assert!(removable_leftover("other", true, "/x/other").is_err());
}

#[test]
fn sockets_are_spelled_one_way() {
    assert_eq!(
        canonical_socket_path("/run/a.sock", &Ok("/run".to_string())),
        Ok("/run/a.sock".to_string())
    );
    assert!(canonical_socket_path("/link/a.sock", &Ok("/run".to_string()))
        .unwrap_err()
        .contains("canonical parent"));
    assert_eq!(
        unix_socket_path("unix:///run/a.sock", &Ok("/run".to_string())),
        Ok("/run/a.sock".to_string())
    );
    assert!(unix_socket_path("tcp://x", &Ok("/run".to_string())).is_err());
}

#[test]
fn paths_are_taken_apart() {
    assert!(same_path("/a//b/.", "/a/b"));
    assert_eq!(file_name("/a/b"), Some("b".to_string()));
    assert_eq!(file_name("/a/.."), None);
    assert_eq!(parent_path("/a/b"), Some("/a".to_string()));
    assert_eq!(join("/a", "b"), "/a/b");
}

fn socket() -> SocketIdentity {
    SocketIdentity {
        path: "/run/shim.sock".to_string(),
        parent: file(1),
        device: Some(1),
        inode: Some(50),
        absent_at_prepare: true,
    }
}

fn facts(inode: u64) -> SocketFacts {
    SocketFacts {
        stat: Ok(Some(PathStat {
            is_socket: true,
            identity: file(inode),
            modified: 1_000,
        })),
        parent: Ok(file(1)),
        live_owner: Ok(false),
        reserved: Ok(false),
    }
}

#[test]
fn old_socket_identity_never_unlinks_new_generation_socket() {
    assert_eq!(
        decide_socket_removal(&socket(), 0, &facts(50)),
        Ok(Some(file(50)))
    );
    assert!(decide_socket_removal(&socket(), 0, &facts(51)) != Ok(Some(file(51))));
    let replaced = PathStat {
        is_socket: true,
        identity: file(51),
        modified: 1_000,
    };
    assert!(confirm_socket_removal(
        &socket(),
        file(50),
        &Ok(replaced),
        &Ok(file(1)),
        &Ok(false)
    )
    .is_err());
}

#[test]
fn unregistered_bound_socket_is_detected_by_kernel_inode() {
    let table = "Num       RefCount Protocol Flags    Type St Inode Path\n0000: 00000002 00000000 00010000 0001 01 4242 /run/bait.sock\n0000: 00000002 00000000 00010000 0001 01 4243 /run/other.sock\n";
    let inodes = unix_socket_kernel_inodes(table, "/run/bait.sock").unwrap();
    assert_eq!(inodes, vec![4242]);
    assert_eq!(
        descriptor_names("socket:[4242]", &inodes, "/proc/1/fd/3"),
        Ok(true)
    );
    assert_eq!(
        descriptor_names("socket:[4243]", &inodes, "/proc/1/fd/4"),
        Ok(false)
    );
    assert_eq!(
        decide_socket_ownership("/run/bait.sock", &inodes, true, &inodes),
        Ok(true)
    );
    assert_eq!(
        decide_socket_ownership("/run/bait.sock", &vec![], false, &vec![]),
        Ok(false)
    );
}

#[test]
fn unregistered_closed_socket_is_removed_after_stable_owner_scan() {
    let mut unbound = socket();
    unbound.device = None;
    unbound.inode = None;
    let mut seen = facts(77);
    seen.stat = Ok(Some(PathStat {
        is_socket: true,
        identity: file(77),
        modified: 10_000,
    }));
    assert_eq!(
        decide_socket_removal(&unbound, 9_000_000, &seen),
        Ok(Some(file(77)))
    );
    seen.live_owner = Ok(true);
    assert!(decide_socket_removal(&unbound, 9_000_000, &seen) != Ok(Some(file(77))));
}

#[test]
fn server_identity_capture_is_bounded() {
    let captured = IdentityCapture::start().step(Ok(process(5)), true);
    match captured {
        IdentityCapture::Captured { identity } => assert_eq!(identity.pid, 5),
        _ => panic!("expected the identity"),
    }
    let mut state = IdentityCapture::start();
    for _ in 0..250 {
        state = state.step(Err("not yet".to_string()), true);
    }
    assert!(matches!(state, IdentityCapture::Failed { .. }));
}

fn scope_target() -> HostTarget {
    HostTarget::Systemd {
        oci_path: "a.slice:cri:b".to_string(),
        slice: "a.slice".to_string(),
        unit: "b.scope".to_string(),
        cgroup: "/a.slice/b.scope".to_string(),
        parent_identity: file(1),
        leaf_identity: None,
    }
}

fn scope_seen(present: bool, leaf: u64) -> ScopeWaitEvent {
    ScopeWaitEvent::Seen {
        seen: ScopeSighting {
            present,
            cgroup: Ok("/a.slice/b.scope".to_string()),
            parent: Ok(file(1)),
            leaf: Ok(file(leaf)),
        },
    }
}

#[test]
fn a_scope_is_awaited_and_seen_twice() {
    let wait = ScopeWait::start(&scope_target(), 5)
        .unwrap()
        .step(scope_seen(false, 2))
        .step(ScopeWaitEvent::Paused)
        .step(scope_seen(true, 2));
    assert_eq!(wait.stage, ScopeWaitStage::Gating { leaf: file(2) });
    assert_eq!(
        wait.step(scope_seen(true, 2)).stage,
        ScopeWaitStage::Placed
    );
    let replaced = ScopeWait::start(&scope_target(), 5)
        .unwrap()
        .step(scope_seen(true, 2))
        .step(scope_seen(true, 3));
    assert_eq!(
        replaced.stage,
        ScopeWaitStage::Failed {
            message: "systemd placement gate failed for pid 5: cgroup=/a.slice/b.scope \
                      expected=/a.slice/b.scope"
                .to_string()
        }
    );
}

#[test]
fn a_scope_is_given_up_after_two_hundred_looks() {
    let mut wait = ScopeWait::start(&scope_target(), 5).unwrap();
    let mut looks = 0;
    loop {
        let event = match wait.stage {
            ScopeWaitStage::Looking { .. } => {
                looks += 1;
                scope_seen(false, 2)
            }
            ScopeWaitStage::Pausing { .. } => ScopeWaitEvent::Paused,
            _ => break,
        };
        wait = wait.step(event);
    }
    assert_eq!(looks, 200);
    assert_eq!(
        wait.stage,
        ScopeWaitStage::Failed {
            message: "systemd placement did not create /sys/fs/cgroup/a.slice/b.scope with \
                      process 5"
                .to_string()
        }
    );
    let legacy = HostTarget::Legacy {
        cgroup: "/a".to_string(),
    };
    assert_eq!(
        ScopeWait::start(&legacy, 5).unwrap_err(),
        "systemd verification called for non-systemd target"
    );
}

#[test]
fn scopes_are_joined_exactly() {
    let seen = |present: bool| ScopeSighting {
        present,
        cgroup: Ok("/a.slice/b.scope".to_string()),
        parent: Ok(file(1)),
        leaf: Ok(file(2)),
    };
    assert_eq!(poll_scope(&seen(true), "/a.slice/b.scope", file(1)), Ok(Some(file(2))));
    assert_eq!(poll_scope(&seen(false), "/a.slice/b.scope", file(1)), Ok(None));
    assert!(verify_scope_gate(&seen(true), 5, "/a.slice/b.scope", file(1), file(2)).is_ok());
    assert!(verify_scope_gate(&seen(true), 5, "/a.slice/b.scope", file(1), file(3)).is_err());
    assert!(verify_moved("/a", 5, &Ok("/a".to_string())).is_ok());
    assert!(verify_moved("/a", 5, &Ok("/b".to_string())).is_err());
    assert!(check_gate_descriptor(3).is_ok());
    assert!(check_gate_descriptor(-1).is_err());
    assert!(check_gate_token(0xff).is_err());
    assert!(abort_result(&vec![Ok(()), Ok(())]).is_ok());
    assert!(abort_result(&vec![Ok(()), Err("x".to_string())]).is_err());
}

#[test]
fn digests_are_length_prefixed() {
    assert_eq!(
        sha256_hex(b"abc"),
        "ba7816bf8f01cfea414140de5dae2223b00361a396177a9cb410ff61f20015ad"
    );
    assert_eq!(bytes_hex(&[0, 255, 16]), "00ff10");
    assert_eq!(decode_hex("00ff10"), Ok(vec![0, 255, 16]));
    assert!(decode_hex("0g").is_err());
    assert_ne!(
        lifecycle_key("ab", "c", b"/b", &file(1)),
        lifecycle_key("a", "bc", b"/b", &file(1))
    );
    assert_ne!(
        socket_ownership_digest(&file(1), b"a"),
        socket_ownership_digest(&file(2), b"a")
    );
    assert_eq!(
        command_sha256(&vec!["a".to_string()]),
        sha256_hex(b"a\0")
    );
}

#[test]
fn texts_are_taken_apart() {
    assert_eq!(trim("  a b \n"), "a b");
    assert_eq!(split_words(" a  b\t c "), vec!["a", "b", "c"]);
    assert_eq!(split_lines("a\nb\n"), vec!["a", "b"]);
    assert!(contains_text("abcd", "bc"));
    assert!(!contains_text("abcd", "cb"));
    assert!(ends_with("a.json", ".json"));
    assert_eq!(decimal_text(0), "0");
    assert_eq!(
        decimal_text(340282366920938463463374607431768211455),
        "340282366920938463463374607431768211455"
    );
}

#[test]
fn watchdogs_are_verified() {
    assert_eq!(watchdog_pids("77\n"), Ok(vec![77]));
    let mut watcher = process(77);
    watcher.cgroup = WATCHDOG_CGROUP.to_string();
    watcher.command_sha256 = watchdog_command();
    let seen = |watcher: ProcessIdentity| WatchdogSighting {
        executable: file(2),
        processes: vec![Ok(watcher)],
        boot_id: "boot".to_string(),
        binary_sha256: "sha".to_string(),
        current_sha256: "sha".to_string(),
    };
    let stamp = |sha: &str| {
        probe_stamp(
            "boot",
            "/usr/local/bin/containerd-shim-cube-rs",
            file(2),
            sha,
            9,
        )
    };
    verify_watchdog_service(&seen(watcher.clone()), &stamp("sha")).unwrap();
    assert!(verify_watchdog_service(&seen(watcher), &stamp("other")).is_err());
    assert!(verify_watchdog_service(&seen(process(77)), &stamp("sha")).is_err());
}

#[test]
fn probes_take_every_iteration() {
    let target = probe_target("boot", 1, file(1));
    assert!(target.managed());
    let mut probe = ScopeProbe::start();
    let mut steps = 0;
    while probe.stage != ProbeStage::Passed && steps < 10_000 {
        probe = probe.step(Ok(true), "/sys/fs/cgroup/x", "x.scope");
        steps += 1;
        assert!(!matches!(probe.stage, ProbeStage::Failed { .. }));
    }
    assert_eq!(probe.stage, ProbeStage::Passed);
    assert!(steps >= PROBE_ITERATIONS as usize);
}
