//! Bootstrap helpers, the environment's settings, and the clock.
use cube_shim::clock::{elapsed_ms, unix_time_ms};
use cube_shim::identity::FileIdentity;
use cube_shim::session::{
    check_new_scope, cleanup_queue_path, cleanup_queue_root, controller_failpoint_files,
    failpoint_files, gate_descriptor, lifecycle_directory, lifecycle_root, placing,
    server_identity_timeout, HelperSession, Placing, FAILPOINT_DIR_ENV, FAILPOINT_LIMIT_MS,
    FAILPOINT_PAUSE_MS,
};
use cube_shim::sockets::socket_lock_name;
use cube_shim::target::{HostTarget, TargetSighting};
use cube_shim::worker_client::new_nonce;
use cube_shim::worker_protocol::{expected_parent, inherited_fd_number, CONTROL_FD_ENV};

fn file(inode: u64) -> FileIdentity {
    FileIdentity { device: 1, inode }
}

fn systemd() -> HostTarget {
    HostTarget::Systemd {
        oci_path: "pod.slice:cri:sandbox".to_string(),
        slice: "pod.slice".to_string(),
        unit: "cri-sandbox.scope".to_string(),
        cgroup: "/pod.slice/cri-sandbox.scope".to_string(),
        parent_identity: file(1),
        leaf_identity: None,
    }
}

fn sighting() -> TargetSighting {
    TargetSighting {
        parent_path: "/sys/fs/cgroup/pod.slice".to_string(),
        parent: Ok(file(1)),
        leaf_path: "/sys/fs/cgroup/pod.slice/cri-sandbox.scope".to_string(),
        leaf: Ok(file(2)),
    }
}

fn place() -> Result<String, String> {
    Ok("/pod.slice/cri-sandbox.scope".to_string())
}

fn home() -> Result<String, String> {
    Ok("/system.slice/containerd.service".to_string())
}

fn managed_session() -> HelperSession {
    let mut session = HelperSession::start("/system.slice/containerd.service");
    session.target = systemd();
    session
}

#[test]
fn helper_starts_where_it_was_started() {
    let session = HelperSession::start("/system.slice/containerd.service");
    assert!(session.target.pending());
    assert_eq!(session.target.cgroup(), "/system.slice/containerd.service");
    assert!(!session.moved);
    assert!(session.gate_held);
}

#[test]
fn helper_counts_as_moved_only_where_it_is_seen() {
    let failure: Result<(), String> = Err("start systemd scope: refused".to_string());
    let mut session = managed_session();
    assert_eq!(
        session.joined(&failure, &home()),
        Err("start systemd scope: refused".to_string())
    );
    assert!(!session.moved);
    let mut session = managed_session();
    assert!(session.joined(&failure, &place()).is_err());
    assert!(session.moved);
    let mut session = managed_session();
    assert!(session.joined(&failure, &Err("gone".to_string())).is_err());
    assert!(!session.moved);
    let mut session = managed_session();
    assert_eq!(session.joined(&Ok(()), &place()), Ok(()));
    assert!(session.moved);
    session.identify(file(2));
    assert_eq!(session.target.leaf_identity(), Some(file(2)));
}

#[test]
fn gate_is_released_once_and_only_in_place() {
    let mut session = managed_session();
    assert_eq!(
        session.release_gate(7, &sighting(), &home()),
        Err(
            "process 7 is in /system.slice/containerd.service, expected /pod.slice/cri-sandbox.scope"
                .to_string()
        )
    );
    assert!(session.gate_held);
    assert_eq!(session.release_gate(7, &sighting(), &place()), Ok(()));
    assert!(!session.gate_held);
    assert_eq!(
        session.release_gate(7, &sighting(), &place()),
        Err("bootstrap gate is already released".to_string())
    );
}

#[test]
fn moved_helper_has_to_be_seen_back() {
    let mut session = managed_session();
    assert_eq!(session.restore_helper(&Err("unused".to_string()), &place()), Ok(()));
    assert_eq!(session.joined(&Ok(()), &place()), Ok(()));
    assert_eq!(
        session.restore_helper(&Ok(()), &place()),
        Err("helper cgroup restore readback mismatch".to_string())
    );
    assert!(session.moved);
    assert_eq!(
        session.restore_helper(&Err("move pid 7: denied".to_string()), &home()),
        Err("move pid 7: denied".to_string())
    );
    assert!(session.moved);
    assert_eq!(session.restore_helper(&Ok(()), &home()), Ok(()));
    assert!(!session.moved);
}

#[test]
fn unreadable_record_stops_the_wait_for_a_server() {
    let session = managed_session();
    assert_eq!(
        session.server_identified(&Err("read record: gone".to_string()), 9, &sighting(), &place()),
        Err("read record: gone".to_string())
    );
    assert_eq!(
        server_identity_timeout(-9),
        "timed out waiting for server -9 identity"
    );
}

#[test]
fn tests_hold_a_shim_by_files() {
    assert_eq!(FAILPOINT_DIR_ENV, "CUBE_SHIM_TEST_FAILPOINT_DIR");
    assert_eq!((FAILPOINT_LIMIT_MS, FAILPOINT_PAUSE_MS), (60_000, 10));
    assert_eq!(
        failpoint_files("/tmp/points", "pre-start-tap", "key"),
        (
            "/tmp/points/pre-start-tap-key.reached".to_string(),
            "/tmp/points/pre-start-tap-key.release".to_string()
        )
    );
    assert_eq!(
        controller_failpoint_files("/tmp/points/", "after-prepared", "pod"),
        (
            "/tmp/points/controller-after-prepared-pod.reached".to_string(),
            "/tmp/points/controller-after-prepared-pod.release".to_string()
        )
    );
}

#[test]
fn targets_are_joined_in_their_own_way() {
    assert!(matches!(
        placing(&systemd()),
        Placing::Scope { slice, unit } if slice == "pod.slice" && unit == "cri-sandbox.scope"
    ));
    let cgroupfs = HostTarget::Cgroupfs {
        oci_path: "/pod/sandbox".to_string(),
        cgroup: "/pod/sandbox".to_string(),
        parent_identity: file(1),
        leaf_identity: None,
    };
    assert!(matches!(
        placing(&cgroupfs),
        Placing::Directory { cgroup, path }
            if cgroup == "/pod/sandbox" && path == "/sys/fs/cgroup/pod/sandbox"
    ));
    let legacy = HostTarget::Legacy {
        cgroup: "/task".to_string(),
    };
    assert!(matches!(placing(&legacy), Placing::Stay));
    assert_eq!(check_new_scope("cri-sandbox.scope", false), Ok(()));
    assert_eq!(
        check_new_scope("cri-sandbox.scope", true),
        Err("refuse to reuse existing systemd scope cri-sandbox.scope".to_string())
    );
}

#[test]
fn directories_from_the_environment_are_absolute() {
    assert_eq!(
        lifecycle_root(None),
        Ok("/data/cubelet/shim-lifecycle".to_string())
    );
    assert_eq!(lifecycle_root(Some("/srv".to_string())), Ok("/srv".to_string()));
    assert_eq!(
        lifecycle_root(Some("srv".to_string())),
        Err("CUBE_SHIM_LIFECYCLE_ROOT must be absolute: srv".to_string())
    );
    assert_eq!(
        cleanup_queue_root(None),
        Ok("/data/cubelet/shim-cleanup".to_string())
    );
    assert_eq!(
        cleanup_queue_root(Some("queue".to_string())),
        Err("CUBE_SHIM_CLEANUP_QUEUE_ROOT must be absolute".to_string())
    );
    assert_eq!(lifecycle_directory(None), Ok(None));
    assert_eq!(
        lifecycle_directory(Some("here".to_string())),
        Err("CUBE_SHIM_LIFECYCLE_DIR must be absolute: here".to_string())
    );
    assert_eq!(
        lifecycle_directory(Some("/here".to_string())),
        Ok(Some("/here".to_string()))
    );
    assert_eq!(
        cleanup_queue_path("/data/queue", "host-cgroup", "g-1"),
        "/data/queue/host-cgroup/g-1.json"
    );
}

#[test]
fn descriptors_from_the_environment_are_numbers() {
    assert_eq!(gate_descriptor("3"), Ok(3));
    assert_eq!(
        gate_descriptor("2"),
        Err("invalid bootstrap gate fd 2".to_string())
    );
    assert_eq!(
        gate_descriptor("three"),
        Err("parse CUBE_SHIM_GATE_FD: invalid digit found in string".to_string())
    );
    assert_eq!(inherited_fd_number(CONTROL_FD_ENV, &Ok("-4".to_string())), Ok(-4));
    assert_eq!(
        inherited_fd_number(CONTROL_FD_ENV, &Ok(String::new())),
        Err("parse CUBE_VMM_WORKER_CONTROL_FD: cannot parse integer from empty string".to_string())
    );
    assert_eq!(
        inherited_fd_number(CONTROL_FD_ENV, &Err("environment variable not found".to_string())),
        Err("read CUBE_VMM_WORKER_CONTROL_FD: environment variable not found".to_string())
    );
    assert_eq!(expected_parent(&Ok("4294967295".to_string())), Ok(u32::MAX));
    assert_eq!(
        expected_parent(&Ok("4294967296".to_string())),
        Err(
            "parse CUBE_VMM_WORKER_PARENT_PID: number too large to fit in target type".to_string()
        )
    );
    assert_eq!(
        expected_parent(&Err("not set".to_string())),
        Err("read CUBE_VMM_WORKER_PARENT_PID: not set".to_string())
    );
}

#[test]
fn socket_aliases_share_one_lock() {
    let lock = socket_lock_name("/run/cube/shim.sock", &Ok(file(9)));
    assert_eq!(lock, socket_lock_name("/run/./cube//shim.sock", &Ok(file(9))));
    assert_ne!(lock, socket_lock_name("/run/cube/shim.sock", &Ok(file(10))));
    assert_ne!(lock, socket_lock_name("/run/cube/other.sock", &Ok(file(9))));
    match lock {
        Ok(name) => {
            assert_eq!(name.len(), 64 + ".lock".len());
            assert!(name.ends_with(".lock"));
        }
        Err(error) => panic!("{}", error),
    }
    assert_eq!(
        socket_lock_name("/run/cube/..", &Ok(file(9))),
        Err("shim socket path must contain a basename: /run/cube/..".to_string())
    );
    assert_eq!(
        socket_lock_name("/", &Ok(file(9))),
        Err("shim socket has no parent: /".to_string())
    );
    assert_eq!(
        socket_lock_name("/run/cube/shim.sock", &Err("stat identity: gone".to_string())),
        Err("stat identity: gone".to_string())
    );
}

#[test]
fn clock_counts_from_the_epoch() {
    match unix_time_ms() {
        Ok(ms) => assert!(ms > 1_600_000_000_000),
        Err(error) => panic!("{}", error),
    }
    assert_eq!(elapsed_ms(Ok(7)), Ok(7));
    assert_eq!(
        elapsed_ms(Err("second time provided was later than self".to_string())),
        Err(
            "system clock is before UNIX epoch: second time provided was later than self"
                .to_string()
        )
    );
}

#[test]
fn worker_nonces_are_fresh_identifiers() {
    let nonce = new_nonce();
    assert_eq!(nonce.len(), 36);
    assert_eq!(&nonce[14..15], "4");
    assert_ne!(nonce, new_nonce());
}
