//! Scans of the lifecycles and of the cleanup queues, kept in memory.
use std::collections::BTreeMap;

use cube_shim::identity::{FileIdentity, SocketIdentity};
use cube_shim::queues::{
    Entry, RootScan, RootScanEvent, RootScanStage, ScanKind, HOST_QUEUE_DIRECTORY,
    RUNTIME_QUEUE_DIRECTORY, SOCKET_LOCK_DIRECTORY,
};
use cube_shim::record::{
    HostCgroupOwner, HostCleanupJob, HostOwnerState, RuntimeCleanupJob, RuntimeOwnerState,
    RuntimeResourceOwner, SCHEMA_VERSION,
};
use cube_shim::session::cleanup_queue_path;
use cube_shim::target::HostTarget;

fn answered(result: Result<(), &str>) -> RootScanEvent {
    RootScanEvent::Answered {
        result: result.map_err(str::to_string),
    }
}

fn file(path: &str) -> Entry {
    Entry {
        name: path.rsplit('/').next().unwrap().to_string(),
        path: path.to_string(),
        is_file: true,
        is_directory: false,
    }
}

fn directory(name: &str) -> Entry {
    Entry {
        name: name.to_string(),
        path: format!("/lifecycles/{name}"),
        is_file: false,
        is_directory: true,
    }
}

fn listed(entry: Entry) -> RootScanEvent {
    RootScanEvent::Listed {
        entry: Some(Ok(entry)),
    }
}

fn opened(kind: ScanKind) -> RootScan {
    let scan = RootScan::begin(kind, "/scanned");
    assert_eq!(scan.stage, RootScanStage::Opening);
    scan.step(answered(Ok(())))
}

fn no_more() -> RootScanEvent {
    RootScanEvent::Listed { entry: None }
}

fn host_job(generation: &str) -> HostCleanupJob {
    HostCleanupJob {
        owner: HostCgroupOwner {
            schema_version: SCHEMA_VERSION,
            generation: generation.to_string(),
            namespace: "fixture".to_string(),
            instance_id: "fixture".to_string(),
            state: HostOwnerState::Empty,
            target: HostTarget::Legacy {
                cgroup: "/system.slice".to_string(),
            },
            original_cgroup: "/system.slice".to_string(),
            server: None,
            controllers: None,
        },
        socket: SocketIdentity {
            path: "/root/absent.sock".to_string(),
            parent: FileIdentity {
                device: 1,
                inode: 2,
            },
            device: None,
            inode: None,
            absent_at_prepare: true,
        },
        created_at_ms: 1000,
        lifecycle_root: "/root/no-lifecycle-source".to_string(),
        ready_for_cleanup: true,
    }
}

fn runtime_job(owner: RuntimeResourceOwner) -> RuntimeCleanupJob {
    RuntimeCleanupJob {
        owner,
        ready_for_cleanup: true,
    }
}

/// Scans a runtime queue; `release` says what becomes of each owner.
fn scan_runtime_queue(
    queue: &mut BTreeMap<String, RuntimeCleanupJob>,
    mut release: impl FnMut(&RuntimeResourceOwner) -> Result<(), &'static str>,
) -> Result<(), String> {
    let mut paths: Vec<String> = queue.keys().cloned().collect();
    let mut scan = RootScan::begin(ScanKind::RuntimeJobs, "/queue/runtime-resource");
    loop {
        let event = match &scan.stage {
            RootScanStage::Opening => answered(Ok(())),
            RootScanStage::Listing => RootScanEvent::Listed {
                entry: paths.pop().map(|path| Ok(file(&path))),
            },
            RootScanStage::Reading { path, .. } => RootScanEvent::RuntimeJob {
                runtime_job: Ok(queue[path].clone()),
            },
            RootScanStage::Working { path } => answered(release(&queue[path].owner)),
            RootScanStage::Acknowledging { path } => {
                queue.remove(path).unwrap();
                answered(Ok(()))
            }
            RootScanStage::Reconciling { path } => panic!("runtime job has controllers: {path}"),
            RootScanStage::Ended => return scan.result(),
        };
        scan = scan.step(event);
    }
}

/// Scans a Host queue whose sockets and cgroups are all gone.
fn scan_host_queue(queue: &mut BTreeMap<String, HostCleanupJob>) -> Result<(), String> {
    let mut paths: Vec<String> = queue.keys().cloned().collect();
    let mut scan = RootScan::begin(ScanKind::HostJobs, "/queue/host-cgroup");
    loop {
        let event = match &scan.stage {
            RootScanStage::Listing => RootScanEvent::Listed {
                entry: paths.pop().map(|path| Ok(file(&path))),
            },
            RootScanStage::Reading { path, .. } => RootScanEvent::HostJob {
                host_job: Ok(queue[path].clone()),
            },
            RootScanStage::Working { .. } => RootScanEvent::Cleaned {
                socket: Ok(()),
                cgroup: Ok(()),
            },
            RootScanStage::Acknowledging { path } => {
                queue.remove(path).unwrap();
                answered(Ok(()))
            }
            RootScanStage::Opening | RootScanStage::Reconciling { .. } => answered(Ok(())),
            RootScanStage::Ended => return scan.result(),
        };
        scan = scan.step(event);
    }
}

fn queued(kind: &str, generation: &str) -> String {
    cleanup_queue_path("/queue", kind, generation)
}

#[test]
fn independent_cleanup_queues_work_without_lifecycle_source() {
    let generation = "orphaned-generation";
    let mut host = BTreeMap::from([(
        queued(HOST_QUEUE_DIRECTORY, generation),
        host_job(generation),
    )]);
    let mut runtime = BTreeMap::from([(
        queued(RUNTIME_QUEUE_DIRECTORY, generation),
        runtime_job(RuntimeResourceOwner::empty(generation.to_string())),
    )]);
    scan_host_queue(&mut host).unwrap();
    scan_runtime_queue(&mut runtime, |_| Ok(())).unwrap();
    assert!(!host.contains_key(&queued(HOST_QUEUE_DIRECTORY, generation)));
    assert!(!runtime.contains_key(&queued(RUNTIME_QUEUE_DIRECTORY, generation)));
}

#[test]
fn runtime_queue_replays_intent_and_allocated_without_lifecycle_source() {
    let mut intent = RuntimeResourceOwner::intent(
        "/run/cubelet.sock".to_string(),
        "sandbox-intent".to_string(),
        "lease-intent".to_string(),
        1,
        "key-intent".to_string(),
    );
    intent.generation_id = "generation-intent".to_string();
    let mut allocated = RuntimeResourceOwner::intent(
        "/run/cubelet.sock".to_string(),
        "sandbox-allocated".to_string(),
        "lease-allocated".to_string(),
        2,
        "key-allocated".to_string(),
    );
    allocated.generation_id = "generation-allocated".to_string();
    allocated.mark_allocated();
    let mut queue = BTreeMap::new();
    for owner in [intent, allocated] {
        queue.insert(
            queued(RUNTIME_QUEUE_DIRECTORY, &owner.generation_id),
            runtime_job(owner),
        );
    }
    let mut states = Vec::new();
    scan_runtime_queue(&mut queue, |owner| {
        states.push(owner.state);
        Ok(())
    })
    .unwrap();
    states.sort_by_key(|state| match state {
        RuntimeOwnerState::Intent => 0,
        RuntimeOwnerState::Allocated => 1,
        RuntimeOwnerState::Empty => 2,
        RuntimeOwnerState::Released => 3,
    });
    assert_eq!(
        states,
        vec![RuntimeOwnerState::Intent, RuntimeOwnerState::Allocated]
    );
    assert_eq!(queue.len(), 0);
}

#[test]
fn a_job_that_fails_stays_queued_and_the_others_go() {
    let mut queue = BTreeMap::new();
    for generation in ["a", "b", "c"] {
        queue.insert(
            queued(RUNTIME_QUEUE_DIRECTORY, generation),
            runtime_job(RuntimeResourceOwner::empty(generation.to_string())),
        );
    }
    let result = scan_runtime_queue(&mut queue, |owner| {
        if owner.generation_id == "b" {
            Err("provider is away")
        } else {
            Ok(())
        }
    });
    assert_eq!(
        result.unwrap_err(),
        "RuntimeResource queue cleanup: provider is away"
    );
    let left: Vec<&String> = queue.keys().collect();
    assert_eq!(left, ["/queue/runtime-resource/b.json"]);
}

#[test]
fn a_job_that_is_not_ready_is_left_alone() {
    let mut job = runtime_job(RuntimeResourceOwner::empty("a".to_string()));
    job.ready_for_cleanup = false;
    let mut queue = BTreeMap::from([(queued(RUNTIME_QUEUE_DIRECTORY, "a"), job)]);
    scan_runtime_queue(&mut queue, |_| panic!("the job is not ready")).unwrap();
    assert_eq!(queue.len(), 1);
}

#[test]
fn a_scan_reports_all_that_failed() {
    let scan = opened(ScanKind::HostJobs)
        .step(RootScanEvent::Listed {
            entry: Some(Err("unreadable".to_string())),
        })
        .step(listed(file("/queue/host-cgroup/a.json")))
        .step(RootScanEvent::HostJob {
            host_job: Err("decode record a".to_string()),
        })
        .step(listed(file("/queue/host-cgroup/b.json")))
        .step(RootScanEvent::HostJob {
            host_job: Ok(host_job("other")),
        })
        .step(listed(file("/queue/host-cgroup/c.json")))
        .step(RootScanEvent::HostJob {
            host_job: Ok(host_job("c")),
        })
        .step(answered(Err("journal")))
        .step(listed(file("/queue/host-cgroup/d.json")))
        .step(RootScanEvent::HostJob {
            host_job: Ok(host_job("d")),
        })
        .step(answered(Ok(())))
        .step(RootScanEvent::Cleaned {
            socket: Err("bound".to_string()),
            cgroup: Err("populated".to_string()),
        })
        .step(listed(file("/queue/host-cgroup/e.json")))
        .step(RootScanEvent::HostJob {
            host_job: Ok(host_job("e")),
        })
        .step(answered(Ok(())))
        .step(RootScanEvent::Cleaned {
            socket: Ok(()),
            cgroup: Ok(()),
        })
        .step(answered(Err("acknowledge cleanup queue e")))
        .step(no_more());
    assert_eq!(scan.stage, RootScanStage::Ended);
    assert_eq!(
        scan.errors,
        [
            "read Host cleanup queue entry: unreadable",
            "decode record a",
            "Host cleanup queue filename/generation mismatch: /queue/host-cgroup/b.json",
            "Host queue controller cleanup: journal",
            "Host queue socket cleanup: bound; Host queue cgroup cleanup: populated",
            "acknowledge cleanup queue e",
        ]
    );
    assert_eq!(scan.result().unwrap_err(), scan.errors.join("; "));
}

#[test]
fn a_scan_that_cannot_be_opened_ends() {
    for (kind, message) in [
        (
            ScanKind::Lifecycles,
            "scan lifecycle root /scanned: absent",
        ),
        (
            ScanKind::HostJobs,
            "scan Host cleanup queue /scanned: absent",
        ),
        (
            ScanKind::RuntimeJobs,
            "scan RuntimeResource cleanup queue /scanned: absent",
        ),
    ] {
        let scan = RootScan::begin(kind, "/scanned").step(answered(Err("absent")));
        assert_eq!(scan.stage, RootScanStage::Ended);
        assert_eq!(scan.result().unwrap_err(), message);
    }
}

#[test]
fn a_lifecycle_scan_looks_at_directories_but_the_locks() {
    let scan = opened(ScanKind::Lifecycles).step(listed(directory(SOCKET_LOCK_DIRECTORY)));
    assert_eq!(scan.stage, RootScanStage::Listing);
    let scan = scan.step(listed(file("/lifecycles/stray")));
    assert_eq!(scan.stage, RootScanStage::Listing);
    let scan = scan.step(listed(directory("key")));
    assert_eq!(
        scan.stage,
        RootScanStage::Working {
            path: "/lifecycles/key".to_string()
        }
    );
    let scan = scan
        .step(answered(Err("observe server")))
        .step(listed(directory("next")))
        .step(answered(Ok(())))
        .step(no_more());
    assert_eq!(scan.result().unwrap_err(), "observe server");
}

#[test]
fn a_queue_scan_passes_over_hidden_files_and_directories() {
    for kind in [ScanKind::HostJobs, ScanKind::RuntimeJobs] {
        let scan = opened(kind)
            .step(listed(file("/queue/.a.json.tmp-1-u")))
            .step(listed(directory("a.json")));
        assert_eq!(scan.stage, RootScanStage::Listing);
        assert_eq!(scan.step(no_more()).result(), Ok(()));
    }
}
