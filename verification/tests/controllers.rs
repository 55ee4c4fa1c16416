//! Controller transactions: values, journals, replays and crashes.
use std::collections::HashMap;

use cube_shim::ceiling::{CeilingAction, CeilingRun};
use cube_shim::controllers::{
    canonical_controller_value, clear_restored_controller_journal, controller_targets,
    exact_controller_readback, mark_controller_degraded, preflight_controller_targets,
    verify_controller_journal_identity, verify_controller_journal_owner, HostResourceCeiling,
};
use cube_shim::forward::ForwardReplay;
use cube_shim::identity::{FileIdentity, ProcessIdentity};
use cube_shim::record::{
    ControllerJournal, ControllerStep, ControllerStepState, ControllerTransactionState,
};
use cube_shim::replay::{ReplayAction, ReplayEvent};
use cube_shim::rollback::RollbackReplay;

const PIDS_LIMIT: u64 = 4_194_304;
const FILES: [&str; 4] = ["memory.oom.group", "pids.max", "memory.max", "cpu.max"];

fn identity() -> ProcessIdentity {
    ProcessIdentity {
        pid: 100,
        boot_id: "boot".to_string(),
        start_time_ticks: 5,
        executable: FileIdentity {
            device: 1,
            inode: 2,
        },
        command_sha256: "command".to_string(),
        cwd: FileIdentity {
            device: 1,
            inode: 3,
        },
        cgroup: "/target".to_string(),
        launch_nonce_sha256: None,
    }
}

fn step(file: &str, old: &str, target: &str) -> ControllerStep {
    ControllerStep {
        file: file.to_string(),
        old: old.to_string(),
        target: target.to_string(),
        state: ControllerStepState::NotStarted,
        observed: None,
    }
}

/// A host: the values of its controller files, and the journal on its disk.
struct Host {
    values: HashMap<String, String>,
    journal: ControllerJournal,
    /// The state of every journal that was written.
    persisted: Vec<ControllerJournal>,
    claim: Result<(), String>,
    crash: Option<String>,
    /// The write of a journal that fails, and whether it reaches the disk.
    broken_write: Option<(usize, bool)>,
}

fn fixture() -> Host {
    let steps = vec![
        step("memory.oom.group", "0", "1"),
        step("pids.max", "max", "512"),
        step("memory.max", "max", "536870912"),
        step("cpu.max", "max 100000", "125000 100000"),
    ];
    let values = steps
        .iter()
        .map(|step| (step.file.clone(), step.old.clone()))
        .collect();
    Host {
        values,
        journal: ControllerJournal {
            schema_version: 1,
            transaction_id: "transaction".to_string(),
            owner_epoch: 2,
            owner_identity: identity(),
            create_fingerprint: "fingerprint".to_string(),
            state: ControllerTransactionState::Prepared,
            steps,
            degraded_reason: None,
        },
        persisted: vec![],
        claim: Ok(()),
        crash: None,
        broken_write: None,
    }
}

fn committed() -> Host {
    let mut host = fixture();
    host.journal.state = ControllerTransactionState::ControllersCommitted;
    for step in &mut host.journal.steps {
        step.state = ControllerStepState::Applied;
        step.observed = Some(step.target.clone());
        host.values.insert(step.file.clone(), step.target.clone());
    }
    host
}

impl Host {
    fn read(&self, file: &str) -> Result<String, String> {
        canonical_controller_value(file, &self.values[file], PIDS_LIMIT)
    }

    fn readings(&self) -> Vec<Result<String, String>> {
        self.journal
            .steps
            .iter()
            .map(|step| self.read(&step.file))
            .collect()
    }

    fn perform(&mut self, action: ReplayAction) -> ReplayEvent {
        match action {
            ReplayAction::Load => ReplayEvent::Loaded {
                journal: self.journal.clone(),
            },
            ReplayAction::ReadAll { files } => ReplayEvent::Values {
                readings: files.iter().map(|file| self.read(file)).collect(),
            },
            ReplayAction::Read { file } => match self.read(&file) {
                Ok(value) => ReplayEvent::Value { value },
                Err(message) => ReplayEvent::Failed { message },
            },
            ReplayAction::Persist { journal } => {
                self.persisted.push(journal.clone());
                match self.broken_write {
                    Some((index, reaches)) if index == self.persisted.len() => {
                        if reaches {
                            self.journal = journal;
                        }
                        ReplayEvent::Failed {
                            message: "injected failure".to_string(),
                        }
                    }
                    _ => {
                        self.journal = journal;
                        ReplayEvent::Done
                    }
                }
            }
            ReplayAction::Failpoint { name } => {
                if self.crash.as_deref() == Some(name.as_str()) {
                    self.crash = None;
                    ReplayEvent::Failed {
                        message: format!("injected crash at {name}"),
                    }
                } else {
                    ReplayEvent::Done
                }
            }
            ReplayAction::VerifyClaim => match &self.claim {
                Ok(()) => ReplayEvent::Done,
                Err(message) => ReplayEvent::Failed {
                    message: message.clone(),
                },
            },
            ReplayAction::Write { file, value } => {
                self.values.insert(file, value);
                ReplayEvent::Done
            }
            ReplayAction::Finish | ReplayAction::Fail { .. } => ReplayEvent::Done,
        }
    }

    fn forward(&mut self) -> Result<(), String> {
        let mut replay = ForwardReplay::start();
        loop {
            match replay.action() {
                ReplayAction::Finish => return Ok(()),
                ReplayAction::Fail { message } => return Err(message),
                action => {
                    let event = self.perform(action);
                    replay = replay.step(event);
                }
            }
        }
    }

    fn rollback(&mut self) -> Result<(), String> {
        let mut replay = RollbackReplay::start();
        loop {
            match replay.action() {
                ReplayAction::Finish => return Ok(()),
                ReplayAction::Fail { message } => return Err(message),
                action => {
                    let event = self.perform(action);
                    replay = replay.step(event);
                }
            }
        }
    }

    fn apply_ceiling(&mut self) -> Result<(), String> {
        let mut run = CeilingRun::start();
        loop {
            let event = match run.action() {
                CeilingAction::Finish => return Ok(()),
                CeilingAction::Fail { message } => return Err(message),
                CeilingAction::Forward { action } | CeilingAction::Rollback { action } => {
                    self.perform(action)
                }
                CeilingAction::BeginRollback | CeilingAction::FinishRollback => ReplayEvent::Done,
            };
            run = run.step(event);
        }
    }
}

fn pids(current: &str) -> Result<String, String> {
    Ok(current.to_string())
}

#[test]
fn controller_preflight_and_canonical_values_are_strict() {
    let host = fixture();
    let memory = Ok("4096".to_string());
    preflight_controller_targets(&host.journal.steps, &pids("1"), &memory, PIDS_LIMIT).unwrap();
    assert_eq!(
        canonical_controller_value("cpu.max", "125000  100000\n", PIDS_LIMIT).unwrap(),
        "125000 100000"
    );
    assert!(canonical_controller_value("cpu.max", "125000", PIDS_LIMIT).is_err());
    assert!(canonical_controller_value("memory.oom.group", "2", PIDS_LIMIT).is_err());
    assert!(
        canonical_controller_value("pids.max", &(PIDS_LIMIT + 1).to_string(), PIDS_LIMIT).is_err()
    );
    assert!(
        preflight_controller_targets(&host.journal.steps, &pids("513"), &memory, PIDS_LIMIT)
            .unwrap_err()
            .contains("pids.current")
    );
}

#[test]
fn controller_preflight_rejects_invalid_pids_target_without_controller_writes() {
    let mut host = fixture();
    host.journal.steps[1].target = u64::MAX.to_string();
    let before = host.values.clone();
    assert!(preflight_controller_targets(
        &host.journal.steps,
        &pids("1"),
        &Ok("4096".to_string()),
        PIDS_LIMIT
    )
    .unwrap_err()
    .contains("exceeds Linux numeric limit"));
    assert_eq!(host.values, before);
}

#[test]
fn controller_rollback_replays_reverse_order_with_durable_undo_intent() {
    let mut host = committed();
    host.rollback().unwrap();
    let mut observed: Vec<String> = vec![];
    for journal in &host.persisted {
        for step in &journal.steps {
            if step.state == ControllerStepState::UndoIntent && !observed.contains(&step.file) {
                observed.push(step.file.clone());
            }
        }
    }
    assert_eq!(
        observed,
        ["cpu.max", "memory.max", "pids.max", "memory.oom.group"]
    );
    assert_eq!(host.journal.state, ControllerTransactionState::Restored);
    exact_controller_readback(&host.journal, false, &host.readings()).unwrap();
}

#[test]
fn controller_rollback_recovers_intent_readback_and_degrades_on_foreign_value() {
    for intent_value_is_target in [false, true] {
        let mut host = fixture();
        host.journal.state = ControllerTransactionState::Applying;
        host.journal.steps[0].state = ControllerStepState::Intent;
        let value = if intent_value_is_target {
            host.journal.steps[0].target.clone()
        } else {
            host.journal.steps[0].old.clone()
        };
        host.values.insert(FILES[0].to_string(), value);
        host.rollback().unwrap();
        assert_eq!(host.journal.state, ControllerTransactionState::Restored);
    }

    let mut host = fixture();
    host.journal.state = ControllerTransactionState::Applying;
    host.journal.steps[2].state = ControllerStepState::Intent;
    host.values
        .insert("memory.max".to_string(), "123456".to_string());
    let error = host.rollback().unwrap_err();
    assert!(error.contains("neither old"));
    assert_eq!(host.journal.state, ControllerTransactionState::Degraded);
}

#[test]
fn controller_forward_journal_atomic_persistence_matrix_converges() {
    for persistence_index in 1..=9 {
        for reaches in [false, true] {
            let mut host = fixture();
            host.broken_write = Some((persistence_index, reaches));
            let error = host.forward().unwrap_err();
            assert!(
                error.contains("injected failure"),
                "{persistence_index}/{reaches}: {error}"
            );
            host.broken_write = None;
            host.forward().unwrap();
            assert_eq!(
                host.journal.state,
                ControllerTransactionState::ControllersCommitted
            );
            exact_controller_readback(&host.journal, true, &host.readings()).unwrap();
        }
    }
}

#[test]
fn controller_rollback_journal_atomic_persistence_matrix_converges() {
    for persistence_index in 1..=10 {
        for reaches in [false, true] {
            let mut host = committed();
            host.broken_write = Some((persistence_index, reaches));
            let error = host.rollback().unwrap_err();
            assert!(
                error.contains("injected failure"),
                "{persistence_index}/{reaches}: {error}"
            );
            host.broken_write = None;
            host.rollback().unwrap();
            assert_eq!(host.journal.state, ControllerTransactionState::Restored);
            exact_controller_readback(&host.journal, false, &host.readings()).unwrap();
        }
    }
}

#[test]
fn restored_embedded_controller_journal_removal_is_crash_recoverable() {
    let mut host = fixture();
    host.journal.state = ControllerTransactionState::Restored;
    for step in &mut host.journal.steps {
        step.state = ControllerStepState::Restored;
        step.observed = Some(step.old.clone());
    }
    let mut embedded = Some(host.journal.clone());
    clear_restored_controller_journal(&mut embedded, &host.readings()).unwrap();
    assert!(embedded.is_none());
    clear_restored_controller_journal(&mut embedded, &vec![]).unwrap();
    assert!(embedded.is_none());
    let mut applied = Some(committed().journal);
    assert!(clear_restored_controller_journal(&mut applied, &host.readings()).is_err());
}

#[test]
fn controller_forward_write_readback_and_step_crash_matrix_rolls_back() {
    let mut crash_points = vec!["after-prepared".to_string()];
    for file in FILES {
        for boundary in [
            "before-write",
            "after-write",
            "before-readback",
            "after-readback",
            "after-applied",
        ] {
            crash_points.push(format!("{boundary}-{file}"));
        }
    }
    for crash_point in crash_points {
        let mut host = fixture();
        if crash_point != "after-prepared" {
            host.crash = Some(crash_point.clone());
            let error = host.forward().unwrap_err();
            assert!(error.contains(&crash_point), "{crash_point}: {error}");
        }
        host.rollback().unwrap();
        assert_eq!(host.journal.state, ControllerTransactionState::Restored);
        exact_controller_readback(&host.journal, false, &host.readings()).unwrap();
    }
}

#[test]
fn controller_rollback_write_and_readback_crash_matrix_converges() {
    for file in FILES {
        for boundary in [
            "before-rollback-write",
            "after-rollback-write",
            "before-rollback-readback",
            "after-rollback-readback",
        ] {
            let crash_point = format!("{boundary}-{file}");
            let mut host = committed();
            host.crash = Some(crash_point.clone());
            let error = host.rollback().unwrap_err();
            assert!(error.contains(&crash_point), "{crash_point}: {error}");
            host.rollback().unwrap();
            assert_eq!(host.journal.state, ControllerTransactionState::Restored);
            exact_controller_readback(&host.journal, false, &host.readings()).unwrap();
        }
    }
}

#[test]
fn revoked_epoch_fences_controller_rollback_before_external_write() {
    let mut host = committed();
    let expected = host.values.clone();
    host.claim = Err("operation owner epoch was revoked".to_string());
    let error = host.rollback().unwrap_err();
    assert!(error.contains("epoch was revoked"));
    assert_eq!(host.journal.steps[3].state, ControllerStepState::UndoIntent);
    assert_eq!(host.values, expected);
}

#[test]
fn ceilings_are_applied_or_undone() {
    let mut host = fixture();
    host.apply_ceiling().unwrap();
    assert_eq!(host.values["memory.max"], "536870912");
    assert_eq!(host.values["cpu.max"], "125000 100000");

    let mut host = fixture();
    host.crash = Some("after-write-memory.max".to_string());
    let error = host.apply_ceiling().unwrap_err();
    assert!(error.contains("injected crash at after-write-memory.max"));
    assert_eq!(host.journal.state, ControllerTransactionState::Restored);
    assert_eq!(host.values["memory.max"], "max");
}

#[test]
fn ceilings_name_their_files_in_order() {
    let targets = controller_targets(&HostResourceCeiling {
        memory_oom_group: "1".to_string(),
        pids_max: "512".to_string(),
        memory_max: "1024".to_string(),
        cpu_max: "1 2".to_string(),
    });
    let names: Vec<&str> = targets.iter().map(|target| target.0).collect();
    assert_eq!(names, FILES);
    assert_eq!(targets[3].1, "1 2");
}

#[test]
fn journals_belong_to_their_operation() {
    let host = fixture();
    assert!(verify_controller_journal_owner(&host.journal, 2, &identity(), "fingerprint").is_ok());
    assert!(verify_controller_journal_owner(&host.journal, 3, &identity(), "fingerprint").is_err());
    assert!(verify_controller_journal_owner(&host.journal, 2, &identity(), "other").is_err());
    let mut other = identity();
    other.pid = 101;
    assert!(verify_controller_journal_owner(&host.journal, 2, &other, "fingerprint").is_err());
    let targets = controller_targets(&HostResourceCeiling {
        memory_oom_group: "1".to_string(),
        pids_max: "512".to_string(),
        memory_max: "536870912".to_string(),
        cpu_max: "125000 100000".to_string(),
    });
    assert!(verify_controller_journal_identity(
        &host.journal,
        2,
        &identity(),
        "fingerprint",
        &targets
    )
    .is_ok());
    let mut changed = fixture().journal;
    changed.steps[0].target = "0".to_string();
    assert!(
        verify_controller_journal_identity(&changed, 2, &identity(), "fingerprint", &targets)
            .is_err()
    );
}

#[test]
fn degraded_journals_keep_the_reason() {
    let mut journal = fixture().journal;
    mark_controller_degraded(&mut journal, "foreign value");
    assert_eq!(journal.state, ControllerTransactionState::Degraded);
    assert_eq!(journal.degraded_reason.as_deref(), Some("foreign value"));
}

#[test]
fn finished_replays_stay_finished() {
    let mut host = fixture();
    host.forward().unwrap();
    let writes = host.persisted.len();
    host.forward().unwrap();
    assert_eq!(host.persisted.len(), writes);
    host.rollback().unwrap();
    let writes = host.persisted.len();
    host.rollback().unwrap();
    assert_eq!(host.persisted.len(), writes);
}

#[test]
fn numbers_of_controllers_are_parsed() {
    assert_eq!(
        canonical_controller_value("memory.max", " 42 \n", PIDS_LIMIT).unwrap(),
        "42"
    );
    assert_eq!(
        canonical_controller_value("memory.max", "max\n", PIDS_LIMIT).unwrap(),
        "max"
    );
    assert!(canonical_controller_value("memory.max", "x", PIDS_LIMIT).is_err());
    assert!(canonical_controller_value("io.max", "1", PIDS_LIMIT).is_err());
}
