//! How records and directories become durable, on a disk that is kept in memory.
use std::collections::BTreeSet;

use cube_shim::host_cleanup::{completed_files, removable_leftover};
use cube_shim::persist::{
    acknowledge_removal, settle_write, Creation, DirectoryEvent, DirectoryStage, DirectoryWork,
    Found, RecordWrite, Removal, WriteStage,
};
use cube_shim::session::cleanup_queue_path;

const RECORD: &str = "/run/shim/key/record.json";
const TEMPORARY: &str = "/run/shim/key/.record.json.tmp-42-unique";

fn failed(error: &str) -> Result<(), String> {
    Err(error.to_string())
}

/// Runs a write of `new` over `old`, with the step after `fail_after` others
/// failing. Gives back the result and what the record and its temporary file
/// hold.
fn run_write(fail_after: usize) -> (Result<(), String>, String, Option<String>) {
    let mut record = "old".to_string();
    let mut temporary: Option<String> = None;
    let mut write = RecordWrite::begin_with(RECORD, 42, "unique").unwrap();
    let mut done = 0;
    loop {
        let fails = done == fail_after;
        match &write.stage {
            WriteStage::Written => return (Ok(()), record, temporary),
            WriteStage::Failed { message } => return (Err(message.clone()), record, temporary),
            WriteStage::Discarding { .. } => temporary = None,
            _ if fails => {}
            WriteStage::Creating => temporary = Some(String::new()),
            WriteStage::Writing => temporary = Some("new".to_string()),
            WriteStage::Renaming => record = temporary.take().unwrap(),
            _ => {}
        }
        write = write.step(if fails { failed("no space") } else { Ok(()) });
        done += 1;
    }
}

#[test]
fn a_write_names_its_temporary_file_after_the_record() {
    let write = RecordWrite::begin_with(RECORD, 42, "unique").unwrap();
    assert_eq!(write.path, RECORD);
    assert_eq!(write.parent, "/run/shim/key");
    assert_eq!(write.temporary, TEMPORARY);
    assert_eq!(write.stage, WriteStage::Creating);
    let upwards = RecordWrite::begin_with("/run/..", 7, "u").unwrap();
    assert_eq!(upwards.temporary, "/run/.record.tmp-7-u");
    assert_eq!(
        RecordWrite::begin_with("/", 42, "unique").err().unwrap(),
        "record has no parent: /"
    );
    assert!(removable_leftover(".record.json.tmp-42-unique", true, TEMPORARY).is_ok());
}

#[test]
fn two_writes_do_not_share_a_temporary_file() {
    let first = RecordWrite::begin(RECORD, 42).unwrap();
    let second = RecordWrite::begin(RECORD, 42).unwrap();
    let prefix = "/run/shim/key/.record.json.tmp-42-";
    assert!(first.temporary.starts_with(prefix));
    assert_eq!(first.temporary.len(), prefix.len() + 36);
    assert_ne!(first.temporary, second.temporary);
}

#[test]
fn a_record_is_old_or_new_wherever_a_write_fails() {
    let expected = [
        (
            format!("create temporary record {TEMPORARY}: no space"),
            "old",
        ),
        (format!("persist record {TEMPORARY}: no space"), "old"),
        (format!("persist record {TEMPORARY}: no space"), "old"),
        (format!("commit record {RECORD}: no space"), "old"),
        (
            "sync directory /run/shim/key: no space".to_string(),
            "new",
        ),
    ];
    for (fail_after, (message, contents)) in expected.iter().enumerate() {
        let (result, record, temporary) = run_write(fail_after);
        assert_eq!(result.unwrap_err(), *message);
        assert_eq!(record, *contents);
        assert_eq!(temporary, None);
    }
    assert_eq!(run_write(5), (Ok(()), "new".to_string(), None));
}

#[test]
fn a_write_that_ended_stays_as_it_is() {
    let mut write = RecordWrite::begin_with(RECORD, 42, "unique").unwrap();
    write.stage = WriteStage::Written;
    assert_eq!(write.step(failed("late")).stage, WriteStage::Written);
}

#[test]
fn an_exact_readback_outweighs_the_error_of_a_write() {
    let unread: Result<bool, String> = Err("read record".to_string());
    assert_eq!(settle_write(&Ok(()), &unread), Ok(false));
    let broken = failed("sync directory /run: busy");
    assert_eq!(settle_write(&broken, &Ok(true)), Ok(true));
    assert_eq!(
        settle_write(&broken, &Ok(false)),
        Err("sync directory /run: busy".to_string())
    );
    assert_eq!(
        settle_write(&broken, &unread),
        Err("read record".to_string())
    );
}

#[test]
fn a_job_that_is_gone_is_acknowledged_again() {
    let path = "/run/queue/host-cgroup/generation.json";
    assert_eq!(acknowledge_removal(path, &Removal::Removed), Ok(()));
    assert_eq!(acknowledge_removal(path, &Removal::Absent), Ok(()));
    let busy = Removal::Failed {
        error: "busy".to_string(),
    };
    assert_eq!(
        acknowledge_removal(path, &busy).unwrap_err(),
        "acknowledge cleanup queue /run/queue/host-cgroup/generation.json: busy"
    );
}

/// Acknowledges a job; the process may be cut off before or after the removal.
fn acknowledge(jobs: &mut BTreeSet<String>, path: &str, cut_off: &str) -> Result<(), String> {
    if cut_off == "before-unlink" {
        return Err("cut off before the removal".to_string());
    }
    let removal = if jobs.remove(path) {
        Removal::Removed
    } else {
        Removal::Absent
    };
    if cut_off == "after-unlink" {
        return Err("cut off after the removal".to_string());
    }
    acknowledge_removal(path, &removal)
}

#[test]
fn cleanup_queue_unlink_crash_matrix_is_idempotent_and_fsyncs_retry() {
    for stage in ["before-unlink", "after-unlink"] {
        let path = cleanup_queue_path("/queue", "host-cgroup", "generation");
        let mut jobs = BTreeSet::from([path.clone()]);
        assert!(acknowledge(&mut jobs, &path, stage).is_err());
        assert_eq!(jobs.contains(&path), stage == "before-unlink");
        acknowledge(&mut jobs, &path, "").unwrap();
        assert!(!jobs.contains(&path));
        acknowledge(&mut jobs, &path, "").unwrap();
    }
}

#[test]
fn the_record_of_a_completed_lifecycle_goes_before_its_locks() {
    let files = completed_files();
    assert_eq!(
        files,
        [
            "cleanup-reason",
            "runtime-resource-owner.json",
            "host-cgroup-owner.json",
            "record.json",
            "operation.lock",
            "record.lock",
        ]
    );
    for removed in 0..=files.len() {
        let left = &files[removed..];
        assert!(
            left.iter().any(|name| name == "record.json")
                || left
                    .iter()
                    .all(|name| removable_leftover(name, true, name).is_ok())
        );
    }
}

/// Answers the step that is due, on a disk that holds these directories.
fn answer(
    work: &DirectoryWork,
    disk: &mut BTreeSet<String>,
    synced: &mut Vec<String>,
) -> DirectoryEvent {
    match &work.stage {
        DirectoryStage::Creating => DirectoryEvent::Made {
            creation: if disk.insert(work.path().to_string()) {
                Creation::Created
            } else {
                Creation::Exists
            },
        },
        DirectoryStage::SyncingParent | DirectoryStage::Syncing => {
            synced.push(work.syncs().unwrap().to_string());
            DirectoryEvent::Synced { result: Ok(()) }
        }
        _ => DirectoryEvent::Looked {
            found: if disk.contains(work.path()) {
                Found::Directory
            } else {
                Found::Missing {
                    error: "absent".to_string(),
                }
            },
        },
    }
}

fn ended(work: &DirectoryWork) -> bool {
    matches!(
        work.stage,
        DirectoryStage::Ready | DirectoryStage::Failed { .. }
    )
}

#[test]
fn a_directory_is_made_from_the_first_that_exists() {
    let mut disk = BTreeSet::from(["/run".to_string()]);
    let mut synced = Vec::new();
    let mut work = DirectoryWork::begin("/run/shim/key");
    assert_eq!(work.syncs(), None);
    while !ended(&work) {
        let event = answer(&work, &mut disk, &mut synced);
        work = work.step(event);
    }
    assert_eq!(work.stage, DirectoryStage::Ready);
    assert_eq!(work.chain, ["/run/shim/key", "/run/shim", "/run"]);
    assert!(disk.contains("/run/shim") && disk.contains("/run/shim/key"));
    assert_eq!(
        synced,
        ["/run", "/run", "/run/shim", "/run/shim", "/run/shim/key"]
    );
}

#[test]
fn ensure_directory_accepts_concurrent_creators() {
    let mut disk = BTreeSet::from(["/tmp/race".to_string()]);
    let mut works: Vec<DirectoryWork> = (0..32)
        .map(|_| DirectoryWork::begin("/tmp/race/shared"))
        .collect();
    while works.iter().any(|work| !ended(work)) {
        works = works
            .into_iter()
            .map(|work| {
                let event = answer(&work, &mut disk, &mut Vec::new());
                work.step(event)
            })
            .collect();
    }
    for work in &works {
        assert_eq!(work.stage, DirectoryStage::Ready);
    }
    assert!(disk.contains("/tmp/race/shared"));
}

fn message_of(work: DirectoryWork) -> String {
    match work.stage {
        DirectoryStage::Failed { message } => message,
        stage => panic!("the directory did not fail: {stage:?}"),
    }
}

fn looked(found: Found) -> DirectoryEvent {
    DirectoryEvent::Looked { found }
}

fn denied() -> String {
    "denied".to_string()
}

#[test]
fn a_directory_fails_with_the_step_that_failed() {
    let begin = || DirectoryWork::begin("/run/shim");
    assert_eq!(
        message_of(begin().step(looked(Found::Other))),
        "path is not a directory: /run/shim"
    );
    assert_eq!(
        message_of(begin().step(looked(Found::Unknown { error: denied() }))),
        "stat directory /run/shim: denied"
    );
    assert_eq!(
        message_of(DirectoryWork::begin("/").step(looked(Found::Missing { error: denied() }))),
        "directory has no parent: /"
    );
    let creating = || {
        let work = begin()
            .step(looked(Found::Missing { error: denied() }))
            .step(looked(Found::Directory))
            .step(DirectoryEvent::Synced { result: Ok(()) });
        assert_eq!(work.stage, DirectoryStage::Creating);
        work
    };
    assert_eq!(
        message_of(creating().step(DirectoryEvent::Made {
            creation: Creation::Failed { error: denied() },
        })),
        "create directory /run/shim: denied"
    );
    let again = || {
        creating().step(DirectoryEvent::Made {
            creation: Creation::Exists,
        })
    };
    assert_eq!(
        message_of(again().step(looked(Found::Other))),
        "path is not a directory: /run/shim"
    );
    assert_eq!(
        message_of(again().step(looked(Found::Missing { error: denied() }))),
        "stat raced directory /run/shim: denied"
    );
    let refused = || DirectoryEvent::Synced {
        result: failed("denied"),
    };
    let syncing_parent = again().step(looked(Found::Directory));
    assert_eq!(syncing_parent.syncs(), Some("/run"));
    assert_eq!(
        message_of(syncing_parent.step(refused())),
        "sync directory /run: denied"
    );
    assert_eq!(
        message_of(begin().step(looked(Found::Directory)).step(refused())),
        "sync directory /run/shim: denied"
    );
}
