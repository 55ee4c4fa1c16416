//! The resource controllers of a Host cgroup: canonical values, the checks
//! that precede a transaction, and the checks of its journal.
use vstd::prelude::*;

use crate::identity::{
    immutable_identity_matches, same_process, OwnerKind, ProcessIdentity, ProcessIdentityView,
};
use crate::record::{
    step_views, Classification, ControllerJournal, ControllerJournalView, ControllerStep,
    ControllerStepView, ControllerTransactionState, CreateState, HostCgroupOwner,
    HostCgroupOwnerView, HostOwnerState, LifecyclePhase, LifecycleRecord, LifecycleRecordView,
    JOURNAL_VERSION, SCHEMA_VERSION,
};
use crate::target::{
    cgroup_directory, cgroup_path, membership_fault, passes_unless, target_drift,
    verify_live_target_identity, verify_target_membership, HostTarget, HostTargetView,
    ProcessSighting,
};
use crate::text::{
    decimal, decimal_text, lemma_words_are_words, lemma_words_of_pair, lemma_words_of_word,
    opt_number, opt_number_text, outcome, outcomes, parse_u64, parse_u64_message, quote, quoted,
    split_words, text_eq, trim, trimmed, unsigned_value, words,
};

verus! {

/// The ceilings that a managed sandbox puts on its Host cgroup.
pub struct HostResourceCeiling {
    pub memory_oom_group: String,
    pub pids_max: String,
    pub memory_max: String,
    pub cpu_max: String,
}

/// The controller files of a transaction, in the order in which they are
/// written.
pub open spec fn controller_files() -> Seq<Seq<char>> {
    seq!["memory.oom.group"@, "pids.max"@, "memory.max"@, "cpu.max"@]
}

/// The controller files of a transaction with the values of a ceiling.
pub fn controller_targets(ceiling: &HostResourceCeiling) -> (targets: Vec<(&'static str, String)>)
    ensures
        targets@.len() == 4,
        forall|i: int| 0 <= i < 4 ==> (#[trigger] targets@[i]).0@ == controller_files()[i],
        targets@[0].1@ == ceiling.memory_oom_group@,
        targets@[1].1@ == ceiling.pids_max@,
        targets@[2].1@ == ceiling.memory_max@,
        targets@[3].1@ == ceiling.cpu_max@,
{
    let mut targets: Vec<(&'static str, String)> = Vec::new();
    targets.push(("memory.oom.group", ceiling.memory_oom_group.clone()));
    targets.push(("pids.max", ceiling.pids_max.clone()));
    targets.push(("memory.max", ceiling.memory_max.clone()));
    targets.push(("cpu.max", ceiling.cpu_max.clone()));
    targets
}

/// The number that a controller field denotes.
pub open spec fn field_value(field: Seq<char>) -> Option<nat> {
    unsigned_value(field, u64::MAX as nat)
}

/// The canonical form of what a controller file holds, or why it has none:
/// the fields of the file with single spaces between them.
pub open spec fn canonical_value(file: Seq<char>, raw: Seq<char>, pids_limit: u64) -> Result<
    Seq<char>,
    Seq<char>,
> {
    let fields = words(raw);
    if file == "cpu.max"@ {
        if fields.len() != 2 {
            Err("cpu.max must contain quota and period: "@ + quoted(raw))
        } else if fields[0] != "max"@ && field_value(fields[0]) is None {
            Err("parse cpu.max quota "@ + fields[0] + ": "@ + parse_u64_message(fields[0]))
        } else if field_value(fields[1]) is None {
            Err("parse cpu.max period "@ + fields[1] + ": "@ + parse_u64_message(fields[1]))
        } else if field_value(fields[1]) == Some(0nat) {
            Err("cpu.max period must be non-zero"@)
        } else {
            Ok(fields[0] + " "@ + fields[1])
        }
    } else if file == "memory.max"@ {
        if fields.len() != 1 {
            Err(file + " must contain one value: "@ + quoted(raw))
        } else if fields[0] != "max"@ && field_value(fields[0]) is None {
            Err("parse "@ + file + " value "@ + fields[0] + ": "@ + parse_u64_message(fields[0]))
        } else {
            Ok(fields[0])
        }
    } else if file == "pids.max"@ {
        if fields.len() != 1 {
            Err(file + " must contain one value: "@ + quoted(raw))
        } else if fields[0] == "max"@ {
            Ok(fields[0])
        } else if field_value(fields[0]) is None {
            Err("parse "@ + file + " value "@ + fields[0] + ": "@ + parse_u64_message(fields[0]))
        } else if field_value(fields[0])->0 > pids_limit {
            Err(
                "pids.max "@ + decimal(field_value(fields[0])->0)
                    + " exceeds Linux numeric limit "@ + decimal(pids_limit as nat),
            )
        } else {
            Ok(fields[0])
        }
    } else if file == "memory.oom.group"@ {
        if fields.len() != 1 || (fields[0] != "0"@ && fields[0] != "1"@) {
            Err("memory.oom.group must be 0 or 1: "@ + quoted(raw))
        } else {
            Ok(fields[0])
        }
    } else {
        Err("unsupported Host controller file "@ + file)
    }
}

/// The canonical form of what a controller file holds.
pub fn canonical_controller_value(file: &str, raw: &str, pids_limit: u64) -> (r: Result<
    String,
    String,
>)
    ensures
        outcome(r) == canonical_value(file@, raw@, pids_limit),
{
    let fields = split_words(raw);
    let ghost wanted = words(raw@);
    assert(wanted.len() == fields@.len());
    assert(forall|i: int| 0 <= i < wanted.len() ==> #[trigger] wanted[i] == fields@[i]@);
    if text_eq(file, "cpu.max") {
        if fields.len() != 2 {
            return Err(
                "cpu.max must contain quota and period: ".to_owned().concat(quote(raw).as_str()),
            );
        }
        let quota = fields[0].as_str();
        let period_text = fields[1].as_str();
        if !text_eq(quota, "max") {
            if let Err(error) = parse_u64(quota) {
                return Err(
                    "parse cpu.max quota ".to_owned().concat(quota).concat(": ").concat(
                        error.as_str(),
                    ),
                );
            }
        }
        let period: u64 = match parse_u64(period_text) {
            Ok(value) => value,
            Err(error) => return Err(
                "parse cpu.max period ".to_owned().concat(period_text).concat(": ").concat(
                    error.as_str(),
                ),
            ),
        };
        if period == 0 {
            return Err("cpu.max period must be non-zero".to_owned());
        }
        Ok(quota.to_owned().concat(" ").concat(period_text))
    } else if text_eq(file, "memory.max") {
        if fields.len() != 1 {
            return Err(
                file.to_owned().concat(" must contain one value: ").concat(quote(raw).as_str()),
            );
        }
        let value = fields[0].as_str();
        if !text_eq(value, "max") {
            if let Err(error) = parse_u64(value) {
                return Err(
                    "parse ".to_owned().concat(file).concat(" value ").concat(value).concat(
                        ": ",
                    ).concat(error.as_str()),
                );
            }
        }
        Ok(value.to_owned())
    } else if text_eq(file, "pids.max") {
        if fields.len() != 1 {
            return Err(
                file.to_owned().concat(" must contain one value: ").concat(quote(raw).as_str()),
            );
        }
        let value = fields[0].as_str();
        if text_eq(value, "max") {
            return Ok(value.to_owned());
        }
        let number: u64 = match parse_u64(value) {
            Ok(number) => number,
            Err(error) => return Err(
                "parse ".to_owned().concat(file).concat(" value ").concat(value).concat(
                    ": ",
                ).concat(error.as_str()),
            ),
        };
        if number > pids_limit {
            return Err(
                "pids.max ".to_owned().concat(decimal_text(number as u128).as_str()).concat(
                    " exceeds Linux numeric limit ",
                ).concat(decimal_text(pids_limit as u128).as_str()),
            );
        }
        Ok(value.to_owned())
    } else if text_eq(file, "memory.oom.group") {
        if fields.len() != 1 {
            return Err(
                "memory.oom.group must be 0 or 1: ".to_owned().concat(quote(raw).as_str()),
            );
        }
        let value = fields[0].as_str();
        if !text_eq(value, "0") && !text_eq(value, "1") {
            return Err(
                "memory.oom.group must be 0 or 1: ".to_owned().concat(quote(raw).as_str()),
            );
        }
        Ok(value.to_owned())
    } else {
        Err("unsupported Host controller file ".to_owned().concat(file))
    }
}

/// A canonical value is its own canonical form.
pub proof fn law_canonical_value_is_idempotent(file: Seq<char>, raw: Seq<char>, pids_limit: u64)
    requires
        canonical_value(file, raw, pids_limit) is Ok,
    ensures
        canonical_value(file, canonical_value(file, raw, pids_limit)->Ok_0, pids_limit)
            == canonical_value(file, raw, pids_limit),
{
    let fields = words(raw);
    lemma_words_are_words(raw, 0);
    if file == "cpu.max"@ {
        lemma_words_are_words(raw, 1);
        lemma_words_of_pair(fields[0], fields[1]);
    } else {
        lemma_words_of_word(fields[0]);
    }
}

/// Why a record does not allow controller writes, if it does not.
pub open spec fn controller_record_fault(record: LifecycleRecordView) -> Option<Seq<char>> {
    if record.classification != Classification::ManagedSandbox || record.phase
        != LifecyclePhase::ContainerdCommitted || record.create_state != CreateState::InProgress
        || record.operation_owner.kind != OwnerKind::Server
        || record.operation_owner.revoked_epoch is Some {
        Some(
            "Host controller mutation requires an unfenced committed managed Create; found "@
                + record.classification.label() + "/"@ + record.phase.label() + "/"@
                + record.create_state.label() + "/"@ + record.operation_owner.kind.label()
                + "/revoked="@ + opt_number(record.operation_owner.revoked_epoch),
        )
    } else {
        None
    }
}

/// Checks that a record allows controller writes: a managed sandbox whose
/// committed server runs an unfenced Create.
pub fn verify_controller_record(record: &LifecycleRecord) -> (r: Result<(), String>)
    ensures
        passes_unless(r, controller_record_fault(record@)),
{
    if record.classification != Classification::ManagedSandbox || record.phase
        != LifecyclePhase::ContainerdCommitted || record.create_state != CreateState::InProgress
        || record.operation_owner.kind != OwnerKind::Server
        || record.operation_owner.revoked_epoch.is_some() {
        return Err(
            "Host controller mutation requires an unfenced committed managed Create; found ".to_owned().concat(
            record.classification.name()).concat("/").concat(record.phase.name()).concat("/").concat(
                record.create_state.name(),
            ).concat("/").concat(record.operation_owner.kind.name()).concat("/revoked=").concat(
                opt_number_text(record.operation_owner.revoked_epoch).as_str(),
            ),
        );
    }
    Ok(())
}

/// Why a controller operation no longer holds its claim, if it does not.
pub open spec fn controller_claim_fault(
    record: LifecycleRecordView,
    epoch: u64,
    identity: ProcessIdentityView,
    target: HostTargetView,
    seen: ProcessSighting,
) -> Option<Seq<char>> {
    if controller_record_fault(record) is Some {
        controller_record_fault(record)
    } else if record.operation_owner.epoch != epoch || !same_process(
        record.operation_owner.identity,
        identity,
    ) || record.target != target {
        Some("Host controller operation owner was revoked or changed"@)
    } else {
        match seen.identity {
            Err(error) => Some(error@),
            Ok(actual) => if !same_process(identity, actual@) || actual.cgroup@
                != target.location() {
                Some("Host controller operation process identity or containment changed"@)
            } else {
                membership_fault(target, actual.pid as int, seen.target, seen.cgroup)
            },
        }
    }
}

/// Checks that a controller operation still holds its claim: the record, the
/// epoch, the process and its place are those with which it began.
pub fn verify_controller_claim(
    record: &LifecycleRecord,
    epoch: u64,
    identity: &ProcessIdentity,
    target: &HostTarget,
    seen: &ProcessSighting,
) -> (r: Result<(), String>)
    ensures
        passes_unless(r, controller_claim_fault(record@, epoch, identity@, target@, *seen)),
{
    if let Err(error) = verify_controller_record(record) {
        return Err(error);
    }
    if record.operation_owner.epoch != epoch || !immutable_identity_matches(
        &record.operation_owner.identity,
        identity,
    ) || !record.target.same(target) {
        return Err("Host controller operation owner was revoked or changed".to_owned());
    }
    match &seen.identity {
        Err(error) => Err(error.clone()),
        Ok(actual) => {
            if !immutable_identity_matches(identity, actual) || !text_eq(
                actual.cgroup.as_str(),
                target.cgroup(),
            ) {
                return Err(
                    "Host controller operation process identity or containment changed".to_owned(),
                );
            }
            verify_target_membership(target, actual.pid, &seen.target, &seen.cgroup)
        },
    }
}

/// Whether a Host owner is the allocated owner of a record's target.
pub open spec fn host_owner_matches(
    owner: HostCgroupOwnerView,
    record: LifecycleRecordView,
) -> bool {
    &&& owner.schema_version == SCHEMA_VERSION
    &&& owner.generation == record.generation
    &&& owner.namespace == record.namespace
    &&& owner.instance_id == record.instance_id
    &&& owner.state == HostOwnerState::Allocated
    &&& owner.target == record.target
    &&& owner.original_cgroup == record.helper.cgroup
    &&& owner.server matches Some(server) && (record.server matches Some(registered)
        && same_process(server, registered))
}

/// Checks that a Host owner is the allocated owner of a record's target.
pub fn verify_host_owner_for_record(owner: &HostCgroupOwner, record: &LifecycleRecord) -> (r:
    Result<(), String>)
    ensures
        passes_unless(
            r,
            if host_owner_matches(owner@, record@) {
                None
            } else {
                Some("Host owner does not match committed lifecycle identity"@)
            },
        ),
{
    let server_matches = match (&owner.server, &record.server) {
        (Some(server), Some(registered)) => immutable_identity_matches(server, registered),
        _ => false,
    };
    if owner.schema_version != SCHEMA_VERSION || !text_eq(
        owner.generation.as_str(),
        record.generation.as_str(),
    ) || !text_eq(owner.namespace.as_str(), record.namespace.as_str()) || !text_eq(
        owner.instance_id.as_str(),
        record.instance_id.as_str(),
    ) || owner.state != HostOwnerState::Allocated || !owner.target.same(&record.target) || !text_eq(
        owner.original_cgroup.as_str(),
        record.helper.cgroup.as_str(),
    ) || !server_matches {
        return Err("Host owner does not match committed lifecycle identity".to_owned());
    }
    Ok(())
}

/// Whether the steps of a journal are the controller files in their order.
pub open spec fn fixed_steps(steps: Seq<ControllerStepView>) -> bool {
    steps.len() == 4 && forall|i: int|
        0 <= i < 4 ==> (#[trigger] steps[i]).file == controller_files()[i]
}

/// Whether a journal belongs to this owner and this Create.
pub open spec fn journal_owned(
    journal: ControllerJournalView,
    epoch: u64,
    identity: ProcessIdentityView,
    fingerprint: Seq<char>,
) -> bool {
    &&& journal.schema_version == JOURNAL_VERSION
    &&& journal.transaction_id.len() > 0
    &&& journal.owner_epoch == epoch
    &&& same_process(journal.owner_identity, identity)
    &&& journal.create_fingerprint == fingerprint
    &&& fixed_steps(journal.steps)
}

fn steps_are_fixed(steps: &Vec<ControllerStep>) -> (r: bool)
    ensures
        r == fixed_steps(step_views(steps@)),
{
    let ghost s = step_views(steps@);
    if steps.len() != 4 {
        return false;
    }
    assert(forall|i: int| 0 <= i < 4 ==> (#[trigger] s[i]).file == steps@[i].file@);
    let r = text_eq(steps[0].file.as_str(), "memory.oom.group") && text_eq(
        steps[1].file.as_str(),
        "pids.max",
    ) && text_eq(steps[2].file.as_str(), "memory.max") && text_eq(
        steps[3].file.as_str(),
        "cpu.max",
    );
    proof {
        assert(s[0].file == steps@[0].file@);
        assert(s[1].file == steps@[1].file@);
        assert(s[2].file == steps@[2].file@);
        assert(s[3].file == steps@[3].file@);
    }
    r
}

/// Checks that a journal belongs to this owner and this Create.
pub fn verify_controller_journal_owner(
    journal: &ControllerJournal,
    epoch: u64,
    identity: &ProcessIdentity,
    fingerprint: &str,
) -> (r: Result<(), String>)
    ensures
        passes_unless(
            r,
            if journal_owned(journal@, epoch, identity@, fingerprint@) {
                None
            } else {
                Some("Host controller journal identity or fixed step order changed"@)
            },
        ),
{
    if journal.schema_version != JOURNAL_VERSION || journal.transaction_id.as_str().is_empty()
        || journal.owner_epoch != epoch || !immutable_identity_matches(
        &journal.owner_identity,
        identity,
    ) || !text_eq(journal.create_fingerprint.as_str(), fingerprint) || !steps_are_fixed(
        &journal.steps,
    ) {
        return Err("Host controller journal identity or fixed step order changed".to_owned());
    }
    Ok(())
}

/// Whether the steps of a journal aim at exactly these files and values.
pub open spec fn same_targets(
    steps: Seq<ControllerStepView>,
    targets: Seq<(&'static str, String)>,
) -> bool {
    forall|i: int|
        0 <= i < steps.len() && i < targets.len() ==> (#[trigger] steps[i]).file == targets[i].0@
            && steps[i].target == targets[i].1@
}

/// Checks that a journal belongs to this owner and this Create, and aims at
/// these values.
pub fn verify_controller_journal_identity(
    journal: &ControllerJournal,
    epoch: u64,
    identity: &ProcessIdentity,
    fingerprint: &str,
    targets: &Vec<(&'static str, String)>,
) -> (r: Result<(), String>)
    ensures
        passes_unless(
            r,
            if !journal_owned(journal@, epoch, identity@, fingerprint@) {
                Some("Host controller journal identity or fixed step order changed"@)
            } else if !same_targets(journal@.steps, targets@) {
                Some("Host controller retry target differs from durable journal"@)
            } else {
                None
            },
        ),
{
    if let Err(error) = verify_controller_journal_owner(journal, epoch, identity, fingerprint) {
        return Err(error);
    }
    let ghost steps = journal@.steps;
    let mut i: usize = 0;
    while i < journal.steps.len() && i < targets.len()
        invariant
            steps == step_views(journal.steps@),
            journal_owned(journal@, epoch, identity@, fingerprint@),
            i <= journal.steps.len(),
            i <= targets.len(),
            forall|k: int|
                0 <= k < i ==> (#[trigger] steps[k]).file == targets@[k].0@ && steps[k].target
                    == targets@[k].1@,
        decreases journal.steps.len() - i,
    {
        assert(steps[i as int] == journal.steps@[i as int]@);
        if !text_eq(journal.steps[i].file.as_str(), targets[i].0) || !text_eq(
            journal.steps[i].target.as_str(),
            targets[i].1.as_str(),
        ) {
            return Err("Host controller retry target differs from durable journal".to_owned());
        }
        i = i + 1;
    }
    Ok(())
}

/// The first step, from `from` on, whose old or target value is not
/// acceptable to its controller, with the reason.
pub open spec fn step_value_fault(
    steps: Seq<ControllerStepView>,
    from: int,
    pids_limit: u64,
) -> Option<Seq<char>>
    decreases steps.len() - from,
{
    if from < 0 || from >= steps.len() {
        None
    } else {
        match canonical_value(steps[from].file, steps[from].old, pids_limit) {
            Err(message) => Some(message),
            Ok(_) => match canonical_value(steps[from].file, steps[from].target, pids_limit) {
                Err(message) => Some(message),
                Ok(_) => step_value_fault(steps, from + 1, pids_limit),
            },
        }
    }
}

/// Why a usage that was read as `current` does not fit under `target`, if it
/// does not; `what` names the usage.
pub open spec fn usage_fault(
    what: Seq<char>,
    target: Seq<char>,
    current: Result<String, String>,
) -> Option<Seq<char>> {
    if field_value(target) is None {
        Some("parse Host "@ + what + " target: "@ + parse_u64_message(target))
    } else {
        match current {
            Err(error) => Some("read Host "@ + what + ".current: "@ + error@),
            Ok(raw) => if field_value(trimmed(raw@)) is None {
                Some(
                    "parse Host "@ + what + ".current: "@ + parse_u64_message(trimmed(raw@)),
                )
            } else if field_value(trimmed(raw@))->0 > field_value(target)->0 {
                Some(
                    "Host "@ + what + ".current "@ + decimal(field_value(trimmed(raw@))->0)
                        + " exceeds target "@ + decimal(field_value(target)->0),
                )
            } else {
                None
            },
        }
    }
}

fn check_usage(what: &str, target: &str, current: &Result<String, String>) -> (r: Result<
    (),
    String,
>)
    ensures
        passes_unless(r, usage_fault(what@, target@, *current)),
{
    let limit: u64 = match parse_u64(target) {
        Ok(limit) => limit,
        Err(error) => return Err(
            "parse Host ".to_owned().concat(what).concat(" target: ").concat(error.as_str()),
        ),
    };
    let raw = match current {
        Ok(raw) => trim(raw.as_str()),
        Err(error) => return Err(
            "read Host ".to_owned().concat(what).concat(".current: ").concat(error.as_str()),
        ),
    };
    let used: u64 = match parse_u64(raw.as_str()) {
        Ok(used) => used,
        Err(error) => return Err(
            "parse Host ".to_owned().concat(what).concat(".current: ").concat(error.as_str()),
        ),
    };
    if used > limit {
        return Err(
            "Host ".to_owned().concat(what).concat(".current ").concat(
                decimal_text(used as u128).as_str(),
            ).concat(" exceeds target ").concat(decimal_text(limit as u128).as_str()),
        );
    }
    Ok(())
}

/// Why a controller transaction must not begin, if it must not.
pub open spec fn preflight_fault(
    steps: Seq<ControllerStepView>,
    pids_current: Result<String, String>,
    memory_current: Result<String, String>,
    pids_limit: u64,
) -> Option<Seq<char>> {
    if steps.len() != 4 {
        Some("Host controller transaction requires four fixed steps"@)
    } else if step_value_fault(steps, 0, pids_limit) is Some {
        step_value_fault(steps, 0, pids_limit)
    } else if usage_fault("pids"@, steps[1].target, pids_current) is Some {
        usage_fault("pids"@, steps[1].target, pids_current)
    } else {
        usage_fault("memory"@, steps[2].target, memory_current)
    }
}

/// Checks that a controller transaction may begin: four steps with
/// acceptable values, whose process and memory ceilings are numbers that the
/// present usage does not exceed.
pub fn preflight_controller_targets(
    steps: &Vec<ControllerStep>,
    pids_current: &Result<String, String>,
    memory_current: &Result<String, String>,
    pids_limit: u64,
) -> (r: Result<(), String>)
    ensures
        passes_unless(
            r,
            preflight_fault(step_views(steps@), *pids_current, *memory_current, pids_limit),
        ),
{
    let ghost s = step_views(steps@);
    if steps.len() != 4 {
        return Err("Host controller transaction requires four fixed steps".to_owned());
    }
    let mut i: usize = 0;
    while i < steps.len()
        invariant
            s == step_views(steps@),
            s.len() == 4,
            i <= steps.len(),
            step_value_fault(s, i as int, pids_limit) == step_value_fault(s, 0, pids_limit),
        decreases steps.len() - i,
    {
        assert(s[i as int] == steps@[i as int]@);
        if let Err(error) = canonical_controller_value(
            steps[i].file.as_str(),
            steps[i].old.as_str(),
            pids_limit,
        ) {
            return Err(error);
        }
        if let Err(error) = canonical_controller_value(
            steps[i].file.as_str(),
            steps[i].target.as_str(),
            pids_limit,
        ) {
            return Err(error);
        }
        i = i + 1;
    }
    assert(s[1] == steps@[1]@);
    assert(s[2] == steps@[2]@);
    if let Err(error) = check_usage("pids", steps[1].target.as_str(), pids_current) {
        return Err(error);
    }
    check_usage("memory", steps[2].target.as_str(), memory_current)
}

/// The value that a step leaves in its file: its target, or its old value.
pub open spec fn wanted(step: ControllerStepView, target: bool) -> Seq<char> {
    if target {
        step.target
    } else {
        step.old
    }
}

/// Why the readings of the controller files, from `from` on, are not what the
/// steps want, if they are not.
pub open spec fn readback_fault(
    steps: Seq<ControllerStepView>,
    target: bool,
    readings: Seq<Result<Seq<char>, Seq<char>>>,
    from: int,
) -> Option<Seq<char>>
    decreases steps.len() - from,
{
    if from < 0 || from >= steps.len() {
        None
    } else {
        match readings[from] {
            Err(error) => Some(error),
            Ok(actual) => if actual != wanted(steps[from], target) {
                Some(
                    "Host controller "@ + steps[from].file + " readback mismatch: expected "@
                        + wanted(steps[from], target) + ", found "@ + actual,
                )
            } else {
                readback_fault(steps, target, readings, from + 1)
            },
        }
    }
}

/// Checks that the controller files hold exactly the targets, or exactly the
/// old values, of a journal's steps.
pub fn exact_controller_readback(
    journal: &ControllerJournal,
    target: bool,
    readings: &Vec<Result<String, String>>,
) -> (r: Result<(), String>)
    requires
        readings@.len() == journal@.steps.len(),
    ensures
        passes_unless(r, readback_fault(journal@.steps, target, outcomes(readings@), 0)),
{
    let ghost s = journal@.steps;
    let mut i: usize = 0;
    while i < journal.steps.len()
        invariant
            s == step_views(journal.steps@),
            readings@.len() == s.len(),
            i <= journal.steps.len(),
            readback_fault(s, target, outcomes(readings@), i as int) == readback_fault(
                s,
                target,
                outcomes(readings@),
                0,
            ),
        decreases journal.steps.len() - i,
    {
        let step = &journal.steps[i];
        assert(s[i as int] == step@);
        assert(outcomes(readings@)[i as int] == outcome(readings@[i as int]));
        let expected = if target {
            step.target.as_str()
        } else {
            step.old.as_str()
        };
        match &readings[i] {
            Err(error) => return Err(error.clone()),
            Ok(actual) => {
                if !text_eq(actual.as_str(), expected) {
                    return Err(
                        "Host controller ".to_owned().concat(step.file.as_str()).concat(
                            " readback mismatch: expected ",
                        ).concat(expected).concat(", found ").concat(actual.as_str()),
                    );
                }
            },
        }
        i = i + 1;
    }
    Ok(())
}

/// A readback without a fault means that every file holds what its step wants.
pub proof fn law_exact_readback_means_every_value(
    steps: Seq<ControllerStepView>,
    target: bool,
    readings: Seq<Result<Seq<char>, Seq<char>>>,
    from: int,
    i: int,
)
    requires
        readback_fault(steps, target, readings, from) is None,
        0 <= from <= i < steps.len(),
    ensures
        readings[i] == Ok::<Seq<char>, Seq<char>>(wanted(steps[i], target)),
    decreases i - from,
{
    if from < i {
        law_exact_readback_means_every_value(steps, target, readings, from + 1, i);
    }
}

/// Marks a controller transaction as degraded.
pub fn mark_controller_degraded(journal: &mut ControllerJournal, reason: &str)
    ensures
        final(journal)@ == (ControllerJournalView {
            state: ControllerTransactionState::Degraded,
            degraded_reason: Some(reason@),
            ..old(journal)@
        }),
{
    journal.state = ControllerTransactionState::Degraded;
    journal.degraded_reason = Some(reason.to_owned());
}

/// The contents of an optional journal.
pub open spec fn opt_journal(journal: Option<ControllerJournal>) -> Option<ControllerJournalView> {
    match journal {
        Some(value) => Some(value@),
        None => None,
    }
}

/// Why a restored journal must not be removed, if it must not.
pub open spec fn clear_fault(
    journal: Option<ControllerJournalView>,
    readings: Seq<Result<Seq<char>, Seq<char>>>,
) -> Option<Seq<char>> {
    match journal {
        None => None,
        Some(restored) => if restored.state != ControllerTransactionState::Restored {
            Some(
                "Host controller journal removal requires RESTORED, found "@
                    + restored.state.label(),
            )
        } else {
            readback_fault(restored.steps, false, readings, 0)
        },
    }
}

/// Removes the journal of a restored transaction, once every controller file
/// is seen to hold its old value.
pub fn clear_restored_controller_journal(
    journal: &mut Option<ControllerJournal>,
    readings: &Vec<Result<String, String>>,
) -> (r: Result<(), String>)
    requires
        *old(journal) matches Some(restored) ==> readings@.len() == restored@.steps.len(),
    ensures
        passes_unless(r, clear_fault(opt_journal(*old(journal)), outcomes(readings@))),
        r is Ok ==> *final(journal) is None,
        r is Err ==> *final(journal) == *old(journal),
{
    match &*journal {
        None => return Ok(()),
        Some(restored) => {
            if restored.state != ControllerTransactionState::Restored {
                return Err(
                    "Host controller journal removal requires RESTORED, found ".to_owned().concat(
                        restored.state.name(),
                    ),
                );
            }
            if let Err(error) = exact_controller_readback(restored, false, readings) {
                return Err(error);
            }
        },
    }
    *journal = None;
    Ok(())
}

/// The directory of a managed target's cgroup, once its leaf identity is
/// committed and the directories are the recorded ones.
pub fn host_leaf_path(target: &HostTarget, seen: &crate::target::TargetSighting) -> (r: Result<
    String,
    String,
>)
    ensures
        outcome(r) == (if !target@.is_managed() || target@.leaf() is None {
            Err("managed Host target has no committed leaf identity"@)
        } else {
            match target_drift(target@, *seen) {
                Some(message) => Err(message),
                None => Ok(cgroup_path(target@.location())),
            }
        }),
{
    if !target.managed() || target.leaf_identity().is_none() {
        return Err("managed Host target has no committed leaf identity".to_owned());
    }
    if let Err(error) = verify_live_target_identity(target, seen) {
        return Err(error);
    }
    Ok(cgroup_directory(target.cgroup()))
}

/// A controller file takes the values that the kernel takes: a quota and a
/// period that is not zero, a limit or none, a number of processes up to the
/// kernel's, and a flag; each is kept as it was written.
pub proof fn law_good_values_are_accepted(a: Seq<char>, b: Seq<char>, raw: Seq<char>, limit: u64)
    ensures
        words(raw) == seq![a, b] && (a == "max"@ || field_value(a) is Some) && field_value(b)
            is Some && field_value(b)->0 > 0 ==> canonical_value("cpu.max"@, raw, limit) == Ok::<
            Seq<char>,
            Seq<char>,
        >(a + " "@ + b),
        words(raw) == seq![a] && (a == "max"@ || field_value(a) is Some) ==> canonical_value(
            "memory.max"@,
            raw,
            limit,
        ) == Ok::<Seq<char>, Seq<char>>(a),
        words(raw) == seq![a] && (a == "max"@ || (field_value(a) matches Some(count) && count
            <= limit)) ==> canonical_value("pids.max"@, raw, limit) == Ok::<Seq<char>, Seq<char>>(
            a,
        ),
        words(raw) == seq![a] && (a == "0"@ || a == "1"@) ==> canonical_value(
            "memory.oom.group"@,
            raw,
            limit,
        ) == Ok::<Seq<char>, Seq<char>>(a),
{
    lemma_files_differ();
}

proof fn lemma_files_differ()
    ensures
        "cpu.max"@ != "memory.max"@,
        "cpu.max"@ != "pids.max"@,
        "cpu.max"@ != "memory.oom.group"@,
        "memory.max"@ != "pids.max"@,
        "memory.max"@ != "memory.oom.group"@,
        "pids.max"@ != "memory.oom.group"@,
{
    reveal_strlit("cpu.max");
    reveal_strlit("memory.max");
    reveal_strlit("pids.max");
    reveal_strlit("memory.oom.group");
    assert("cpu.max"@[0] == 'c');
    assert("memory.max"@[0] == 'm');
    assert("pids.max"@[0] == 'p');
    assert("memory.oom.group"@.len() == 16);
    assert("memory.max"@.len() == 10);
}

/// Every other value is refused: one with too few or too many parts, one that
/// is no number, a period of zero, too many processes, a flag that is neither,
/// and any value of another file.
pub proof fn law_bad_values_are_refused(file: Seq<char>, raw: Seq<char>, limit: u64)
    ensures
        words(raw).len() != 2 ==> canonical_value("cpu.max"@, raw, limit) is Err,
        words(raw).len() == 2 && (field_value(words(raw)[1]) is None || field_value(words(raw)[1])
            == Some(0nat)) ==> canonical_value("cpu.max"@, raw, limit) is Err,
        words(raw).len() == 2 && words(raw)[0] != "max"@ && field_value(words(raw)[0]) is None
            ==> canonical_value("cpu.max"@, raw, limit) is Err,
        words(raw).len() != 1 ==> canonical_value("memory.max"@, raw, limit) is Err
            && canonical_value("pids.max"@, raw, limit) is Err && canonical_value(
            "memory.oom.group"@,
            raw,
            limit,
        ) is Err,
        words(raw).len() == 1 && words(raw)[0] != "max"@ && field_value(words(raw)[0]) is None
            ==> canonical_value("memory.max"@, raw, limit) is Err && canonical_value(
            "pids.max"@,
            raw,
            limit,
        ) is Err,
        words(raw).len() == 1 && words(raw)[0] != "max"@ && (field_value(words(raw)[0])
            matches Some(count) && count > limit) ==> canonical_value("pids.max"@, raw, limit)
            is Err,
        words(raw).len() == 1 && words(raw)[0] != "0"@ && words(raw)[0] != "1"@ ==> canonical_value(
            "memory.oom.group"@,
            raw,
            limit,
        ) is Err,
        file != "cpu.max"@ && file != "memory.max"@ && file != "pids.max"@ && file
            != "memory.oom.group"@ ==> canonical_value(file, raw, limit) is Err,
{
    lemma_files_differ();
}

/// Controllers are changed exactly for the running Create of a committed
/// managed sandbox whose server owns it under an epoch that nobody revoked.
pub proof fn law_running_create_may_change_controllers(record: LifecycleRecordView)
    ensures
        (controller_record_fault(record) is None) == (record.classification
            == Classification::ManagedSandbox && record.phase
            == LifecyclePhase::ContainerdCommitted && record.create_state
            == CreateState::InProgress && record.operation_owner.kind == OwnerKind::Server
            && record.operation_owner.revoked_epoch is None),
{
}

/// A claim to the controllers holds exactly for the recorded owner, under the
/// recorded epoch and target, seen where the target is.
pub proof fn law_owner_claims_the_controllers(
    record: LifecycleRecordView,
    epoch: u64,
    identity: ProcessIdentityView,
    target: HostTargetView,
    seen: ProcessSighting,
    actual: ProcessIdentity,
)
    requires
        controller_record_fault(record) is None,
        target_drift(target, seen.target) is None,
        seen.identity == Ok::<ProcessIdentity, String>(actual),
    ensures
        (controller_claim_fault(record, epoch, identity, target, seen) is None) == (
        record.operation_owner.epoch == epoch && same_process(
            record.operation_owner.identity,
            identity,
        ) && record.target == target && same_process(identity, actual@) && actual@.cgroup
            == target.location() && seen.cgroup is Ok && seen.cgroup->Ok_0@ == target.location()),
{
}

/// A Host owner fits its record exactly where it is allocated for the same
/// sandbox, target and helper, and its server is the registered one.
pub proof fn law_host_owner_fits_its_record(
    owner: HostCgroupOwnerView,
    record: LifecycleRecordView,
    server: ProcessIdentityView,
    registered: ProcessIdentityView,
)
    requires
        owner.server == Some(server),
        record.server == Some(registered),
    ensures
        host_owner_matches(owner, record) == (owner.schema_version == 2 && owner.generation
            == record.generation && owner.namespace == record.namespace && owner.instance_id
            == record.instance_id && owner.state == HostOwnerState::Allocated && owner.target
            == record.target && owner.original_cgroup == record.helper.cgroup && same_process(
            server,
            registered,
        )),
{
}

/// An owner without a server, or of a record without one, fits nothing.
pub proof fn law_unserved_owner_fits_nothing(
    owner: HostCgroupOwnerView,
    record: LifecycleRecordView,
)
    requires
        owner.server is None || record.server is None,
    ensures
        !host_owner_matches(owner, record),
{
}

/// A journal has its four steps in their order, and belongs to one owner, epoch
/// and Create.
pub proof fn law_journals_have_their_four_steps(
    journal: ControllerJournalView,
    epoch: u64,
    identity: ProcessIdentityView,
    fingerprint: Seq<char>,
)
    ensures
        journal_owned(journal, epoch, identity, fingerprint) == (journal.schema_version == 1
            && journal.transaction_id.len() > 0 && journal.owner_epoch == epoch && same_process(
            journal.owner_identity,
            identity,
        ) && journal.create_fingerprint == fingerprint && journal.steps.len() == 4
            && journal.steps[0].file == "memory.oom.group"@ && journal.steps[1].file
            == "pids.max"@ && journal.steps[2].file == "memory.max"@ && journal.steps[3].file
            == "cpu.max"@),
{
    let files = controller_files();
    if journal.steps.len() == 4 && journal.steps[0].file == "memory.oom.group"@
        && journal.steps[1].file == "pids.max"@ && journal.steps[2].file == "memory.max"@
        && journal.steps[3].file == "cpu.max"@ {
        assert(fixed_steps(journal.steps));
    }
    if fixed_steps(journal.steps) {
        assert(journal.steps[0].file == files[0]);
        assert(journal.steps[1].file == files[1]);
        assert(journal.steps[2].file == files[2]);
        assert(journal.steps[3].file == files[3]);
    }
}

/// A limit is set exactly where what is in use fits below it.
pub proof fn law_limits_are_not_below_the_use(
    what: Seq<char>,
    target: Seq<char>,
    raw: String,
    limit: nat,
    used: nat,
)
    requires
        field_value(target) == Some(limit),
        field_value(trimmed(raw@)) == Some(used),
    ensures
        (usage_fault(what, target, Ok(raw)) is None) == (used <= limit),
        used > limit ==> usage_fault(what, target, Ok(raw)) == Some(
            "Host "@ + what + ".current "@ + decimal(used) + " exceeds target "@ + decimal(limit),
        ),
{
}

/// Steps pass their check where every old and new value is one that its file
/// takes, and the processes and the memory in use fit below their limits.
pub proof fn law_fitting_steps_pass(
    steps: Seq<ControllerStepView>,
    pids: Result<String, String>,
    memory: Result<String, String>,
    limit: u64,
)
    requires
        steps.len() == 4,
    ensures
        (preflight_fault(steps, pids, memory, limit) is None) == ((forall|i: int|
            0 <= i < 4 ==> canonical_value((#[trigger] steps[i]).file, steps[i].old, limit) is Ok
                && canonical_value(steps[i].file, steps[i].target, limit) is Ok) && usage_fault(
            "pids"@,
            steps[1].target,
            pids,
        ) is None && usage_fault("memory"@, steps[2].target, memory) is None),
{
    lemma_step_values(steps, 0, limit);
}

proof fn lemma_step_values(steps: Seq<ControllerStepView>, from: int, limit: u64)
    requires
        0 <= from,
    ensures
        (step_value_fault(steps, from, limit) is None) == (forall|i: int|
            from <= i < steps.len() ==> canonical_value(
                (#[trigger] steps[i]).file,
                steps[i].old,
                limit,
            ) is Ok && canonical_value(steps[i].file, steps[i].target, limit) is Ok),
    decreases steps.len() - from,
{
    if from < steps.len() {
        lemma_step_values(steps, from + 1, limit);
        if canonical_value(steps[from].file, steps[from].old, limit) is Ok && canonical_value(
            steps[from].file,
            steps[from].target,
            limit,
        ) is Ok && step_value_fault(steps, from + 1, limit) is None {
            assert forall|i: int| from <= i < steps.len() implies canonical_value(
                (#[trigger] steps[i]).file,
                steps[i].old,
                limit,
            ) is Ok && canonical_value(steps[i].file, steps[i].target, limit) is Ok by {
                if i > from {
                    assert(from + 1 <= i);
                }
            }
        }
    }
}

/// A journal goes exactly where it is restored and every file reads its old
/// value again.
pub proof fn law_restored_journal_goes(
    journal: ControllerJournalView,
    readings: Seq<Result<Seq<char>, Seq<char>>>,
)
    requires
        readings.len() == journal.steps.len(),
    ensures
        (clear_fault(Some(journal), readings) is None) == (journal.state
            == ControllerTransactionState::Restored && forall|i: int|
            0 <= i < journal.steps.len() ==> #[trigger] readings[i] == Ok::<Seq<char>, Seq<char>>(
                journal.steps[i].old,
            )),
        clear_fault(None, readings) is None,
{
    lemma_readback(journal.steps, false, readings, 0);
}

/// A read-back is exact exactly where every file reads what is wanted of it.
pub proof fn law_exact_readback_is_recognised(
    steps: Seq<ControllerStepView>,
    readings: Seq<Result<Seq<char>, Seq<char>>>,
)
    requires
        readings.len() == steps.len(),
    ensures
        (readback_fault(steps, true, readings, 0) is None) == (forall|i: int|
            0 <= i < steps.len() ==> #[trigger] readings[i] == Ok::<Seq<char>, Seq<char>>(
                steps[i].target,
            )),
        (readback_fault(steps, false, readings, 0) is None) == (forall|i: int|
            0 <= i < steps.len() ==> #[trigger] readings[i] == Ok::<Seq<char>, Seq<char>>(
                steps[i].old,
            )),
{
    lemma_readback(steps, true, readings, 0);
    lemma_readback(steps, false, readings, 0);
}

proof fn lemma_readback(
    steps: Seq<ControllerStepView>,
    target: bool,
    readings: Seq<Result<Seq<char>, Seq<char>>>,
    from: int,
)
    requires
        0 <= from,
        readings.len() == steps.len(),
    ensures
        (readback_fault(steps, target, readings, from) is None) == (forall|i: int|
            from <= i < steps.len() ==> #[trigger] readings[i] == Ok::<Seq<char>, Seq<char>>(
                if target {
                    steps[i].target
                } else {
                    steps[i].old
                },
            )),
    decreases steps.len() - from,
{
    if from < steps.len() {
        lemma_readback(steps, target, readings, from + 1);
        let value = if target {
            steps[from].target
        } else {
            steps[from].old
        };
        if readings[from] == Ok::<Seq<char>, Seq<char>>(value) && readback_fault(
            steps,
            target,
            readings,
            from + 1,
        ) is None {
            assert forall|i: int| from <= i < steps.len() implies #[trigger] readings[i] == Ok::<
                Seq<char>,
                Seq<char>,
            >(
                if target {
                    steps[i].target
                } else {
                    steps[i].old
                },
            ) by {
                if i > from {
                    assert(from + 1 <= i);
                }
            }
        }
    }
}

/// A retry asks for the same targets exactly where it names each file of the
/// journal, in its order, with the value that the journal has for it.
pub proof fn law_retries_ask_for_the_same(
    steps: Seq<ControllerStepView>,
    targets: Seq<(&'static str, String)>,
    i: int,
)
    requires
        0 <= i < steps.len(),
        steps.len() == targets.len(),
    ensures
        same_targets(steps, targets) ==> steps[i].file == targets[i].0@ && steps[i].target
            == targets[i].1@,
        steps[i].file != targets[i].0@ || steps[i].target != targets[i].1@ ==> !same_targets(
            steps,
            targets,
        ),
{
}

} // verus!
