//! The transaction that puts a managed sandbox's ceilings on its Host cgroup:
//! its journal is durable before the first write, and where it cannot be
//! completed the old values are put back.
use vstd::prelude::*;

use crate::controllers::{
    clear_fault, clear_restored_controller_journal, controller_claim_fault, controller_files,
    controller_record_fault, controller_targets, host_leaf_path, host_owner_matches,
    journal_owned, preflight_controller_targets, preflight_fault, verify_controller_claim,
    verify_controller_journal_identity, verify_controller_journal_owner,
    verify_controller_record, verify_host_owner_for_record, HostResourceCeiling,
};
use crate::forward::{forward_action, forward_accepts, forward_next, ForwardReplay, ForwardView};
use crate::identity::{ProcessIdentity, ProcessIdentityView};
use crate::lifecycle::{
    check_host_owner, check_record, host_owner_fault, leaf_fault, record_fault, LifecycleHandle,
    LifecycleView,
};
use crate::prepare::{fresh_uuid, is_random_uuid};
use crate::record::{
    step_views, ControllerJournal, ControllerJournalView, ControllerStep, ControllerStepState,
    ControllerStepView, ControllerTransactionState, HostCgroupOwnerView, JOURNAL_VERSION,
};
use crate::replay::{ReplayAction, ReplayActionView, ReplayEvent, ReplayEventView};
use crate::rollback::{
    rollback_accepts, rollback_action, rollback_next, RollbackReplay, RollbackView,
};
use crate::target::{passes_unless, HostTarget, HostTargetView, ProcessSighting};
use crate::text::{fails_with, outcome, outcomes, text_eq};

verus! {

/// The claim under which controllers are written.
#[derive(Debug, PartialEq, Eq)]
pub struct ControllerClaim {
    pub epoch: u64,
    pub identity: ProcessIdentity,
    pub target: HostTarget,
    pub fingerprint: String,
}

/// The contents of a [`ControllerClaim`].
pub struct ControllerClaimView {
    pub epoch: u64,
    pub identity: ProcessIdentityView,
    pub target: HostTargetView,
    pub fingerprint: Seq<char>,
}

impl View for ControllerClaim {
    type V = ControllerClaimView;

    open spec fn view(&self) -> ControllerClaimView {
        ControllerClaimView {
            epoch: self.epoch,
            identity: self.identity@,
            target: self.target@,
            fingerprint: self.fingerprint@,
        }
    }
}

/// Why a controller operation may not begin, if it may not.
pub open spec fn controller_operation_fault(state: LifecycleView) -> Option<Seq<char>> {
    if record_fault(state.record) is Some {
        record_fault(state.record)
    } else if controller_record_fault(state.record) is Some {
        controller_record_fault(state.record)
    } else if host_owner_fault(state.host_owner) is Some {
        host_owner_fault(state.host_owner)
    } else if !host_owner_matches(state.host_owner, state.record) {
        Some("Host owner does not match committed lifecycle identity"@)
    } else if state.record.create_fingerprint is None {
        Some("managed Create has no fingerprint"@)
    } else {
        None
    }
}

/// Why a lifecycle no longer supports a controller claim, if it does not.
pub open spec fn claim_fault(
    state: LifecycleView,
    claim: ControllerClaimView,
    seen: ProcessSighting,
) -> Option<Seq<char>> {
    match record_fault(state.record) {
        Some(message) => Some(message),
        None => controller_claim_fault(
            state.record,
            claim.epoch,
            claim.identity,
            claim.target,
            seen,
        ),
    }
}

/// Why a lifecycle no longer supports a controller claim with its Host owner,
/// if it does not.
pub open spec fn owned_claim_fault(
    state: LifecycleView,
    claim: ControllerClaimView,
    seen: ProcessSighting,
) -> Option<Seq<char>> {
    if claim_fault(state, claim, seen) is Some {
        claim_fault(state, claim, seen)
    } else if host_owner_fault(state.host_owner) is Some {
        host_owner_fault(state.host_owner)
    } else if !host_owner_matches(state.host_owner, state.record) {
        Some("Host owner does not match committed lifecycle identity"@)
    } else {
        None
    }
}

/// The first controller file, from `from` on, whose old value could not be
/// read, with the reason.
pub open spec fn unread(readings: Seq<Result<Seq<char>, Seq<char>>>, from: int) -> Option<Seq<char>>
    decreases 4 - from,
{
    if from < 0 || from >= 4 {
        None
    } else {
        match readings[from] {
            Err(message) => Some(message),
            Ok(_) => unread(readings, from + 1),
        }
    }
}

/// The values that a ceiling gives to the controller files, in their order.
pub open spec fn ceiling_values(ceiling: HostResourceCeiling) -> Seq<Seq<char>> {
    seq![
        ceiling.memory_oom_group@,
        ceiling.pids_max@,
        ceiling.memory_max@,
        ceiling.cpu_max@,
    ]
}

/// The steps of a transaction that has not started.
pub open spec fn fresh_steps(
    ceiling: HostResourceCeiling,
    readings: Seq<Result<Seq<char>, Seq<char>>>,
) -> Seq<ControllerStepView> {
    Seq::new(
        4,
        |i: int|
            ControllerStepView {
                file: controller_files()[i],
                old: readings[i]->Ok_0,
                target: ceiling_values(ceiling)[i],
                state: ControllerStepState::NotStarted,
                observed: None,
            },
    )
}

/// The journal of a transaction that has not started.
pub open spec fn fresh_journal(
    claim: ControllerClaimView,
    ceiling: HostResourceCeiling,
    readings: Seq<Result<Seq<char>, Seq<char>>>,
    transaction_id: Seq<char>,
) -> ControllerJournalView {
    ControllerJournalView {
        schema_version: JOURNAL_VERSION,
        transaction_id,
        owner_epoch: claim.epoch,
        owner_identity: claim.identity,
        create_fingerprint: claim.fingerprint,
        state: ControllerTransactionState::Prepared,
        steps: fresh_steps(ceiling, readings),
        degraded_reason: None,
    }
}

/// Whether a journal aims at a ceiling.
pub open spec fn aims_at(journal: ControllerJournalView, ceiling: HostResourceCeiling) -> bool {
    forall|i: int|
        0 <= i < 4 ==> (#[trigger] journal.steps[i]).target == ceiling_values(ceiling)[i]
}

/// What is seen of the Host's controllers before a transaction begins.
pub struct ControllerSighting {
    /// The canonical values of the controller files, in their order.
    pub readings: Vec<Result<String, String>>,
    pub pids_current: Result<String, String>,
    pub memory_current: Result<String, String>,
    /// The largest process limit that the Host accepts.
    pub pids_limit: u64,
}

/// The journal with which a transaction goes on: the durable one, or a fresh
/// one.
pub open spec fn transaction_journal(
    state: LifecycleView,
    claim: ControllerClaimView,
    ceiling: HostResourceCeiling,
    seen: ProcessSighting,
    controllers: ControllerSighting,
    transaction_id: Seq<char>,
) -> Result<ControllerJournalView, Seq<char>> {
    let readings = outcomes(controllers.readings@);
    let steps = fresh_steps(ceiling, readings);
    if leaf_fault(claim.target, seen.target) is Some {
        Err(leaf_fault(claim.target, seen.target)->0)
    } else if owned_claim_fault(state, claim, seen) is Some {
        Err(owned_claim_fault(state, claim, seen)->0)
    } else {
        match state.host_owner.controllers {
            Some(journal) => if !journal_owned(
                journal,
                claim.epoch,
                claim.identity,
                claim.fingerprint,
            ) {
                Err("Host controller journal identity or fixed step order changed"@)
            } else if !aims_at(journal, ceiling) {
                Err("Host controller retry target differs from durable journal"@)
            } else {
                Ok(journal)
            },
            None => if unread(readings, 0) is Some {
                Err(unread(readings, 0)->0)
            } else if preflight_fault(
                steps,
                controllers.pids_current,
                controllers.memory_current,
                controllers.pids_limit,
            ) is Some {
                Err(
                    preflight_fault(
                        steps,
                        controllers.pids_current,
                        controllers.memory_current,
                        controllers.pids_limit,
                    )->0,
                )
            } else {
                Ok(fresh_journal(claim, ceiling, readings, transaction_id))
            },
        }
    }
}

/// A lifecycle whose Host owner holds this journal.
pub open spec fn with_journal(
    state: LifecycleView,
    journal: Option<ControllerJournalView>,
) -> LifecycleView {
    LifecycleView {
        host_owner: HostCgroupOwnerView { controllers: journal, ..state.host_owner },
        ..state
    }
}

/// A change of the journal: it succeeds with the new journal, or fails and
/// changes nothing.
pub open spec fn journal_moves(
    before: LifecycleView,
    after: LifecycleView,
    r: Result<(), String>,
    next: Result<Option<ControllerJournalView>, Seq<char>>,
) -> bool {
    match next {
        Ok(journal) => r is Ok && after == with_journal(before, journal),
        Err(message) => fails_with(r, message) && after == before,
    }
}

/// The journal that a forward replay loads.
pub open spec fn forward_load(
    state: LifecycleView,
    claim: ControllerClaimView,
    seen: ProcessSighting,
) -> Result<ControllerJournalView, Seq<char>> {
    if owned_claim_fault(state, claim, seen) is Some {
        Err(owned_claim_fault(state, claim, seen)->0)
    } else {
        match state.host_owner.controllers {
            None => Err("Host controller journal disappeared"@),
            Some(journal) => if !journal_owned(
                journal,
                claim.epoch,
                claim.identity,
                claim.fingerprint,
            ) {
                Err("Host controller journal identity or fixed step order changed"@)
            } else {
                Ok(journal)
            },
        }
    }
}

/// The journal that a forward replay makes durable.
pub open spec fn forward_persist(
    state: LifecycleView,
    claim: ControllerClaimView,
    journal: ControllerJournalView,
    seen: ProcessSighting,
) -> Result<Option<ControllerJournalView>, Seq<char>> {
    if owned_claim_fault(state, claim, seen) is Some {
        Err(owned_claim_fault(state, claim, seen)->0)
    } else {
        match state.host_owner.controllers {
            Some(current) => if current.transaction_id != journal.transaction_id
                || current.owner_epoch != journal.owner_epoch {
                Err("Host controller transaction changed during forward"@)
            } else {
                Ok(Some(journal))
            },
            None => Err("Host controller transaction changed during forward"@),
        }
    }
}

/// The journal that a rollback finds; `missing` is said where there is none.
pub open spec fn rollback_load(
    state: LifecycleView,
    claim: ControllerClaimView,
    seen: ProcessSighting,
    missing: Seq<char>,
) -> Result<ControllerJournalView, Seq<char>> {
    if claim_fault(state, claim, seen) is Some {
        Err(claim_fault(state, claim, seen)->0)
    } else if host_owner_fault(state.host_owner) is Some {
        Err(host_owner_fault(state.host_owner)->0)
    } else {
        match state.host_owner.controllers {
            None => Err(missing),
            Some(journal) => if !journal_owned(
                journal,
                claim.epoch,
                claim.identity,
                claim.fingerprint,
            ) {
                Err("Host controller journal identity or fixed step order changed"@)
            } else {
                Ok(journal)
            },
        }
    }
}

/// The journal with which a rollback begins.
pub open spec fn rollback_begin(
    state: LifecycleView,
    claim: ControllerClaimView,
    seen: ProcessSighting,
) -> Result<Option<ControllerJournalView>, Seq<char>> {
    if leaf_fault(claim.target, seen.target) is Some {
        Err(leaf_fault(claim.target, seen.target)->0)
    } else {
        match rollback_load(
            state,
            claim,
            seen,
            "Host controller journal disappeared before rollback"@,
        ) {
            Err(message) => Err(message),
            Ok(journal) => if journal.state == ControllerTransactionState::Restored {
                Ok(Some(journal))
            } else {
                Ok(
                    Some(
                        ControllerJournalView {
                            state: ControllerTransactionState::RollingBack,
                            ..journal
                        },
                    ),
                )
            },
        }
    }
}

/// The journal that a rollback makes durable.
pub open spec fn rollback_persist(
    state: LifecycleView,
    claim: ControllerClaimView,
    journal: ControllerJournalView,
    seen: ProcessSighting,
) -> Result<Option<ControllerJournalView>, Seq<char>> {
    if claim_fault(state, claim, seen) is Some {
        Err(claim_fault(state, claim, seen)->0)
    } else if host_owner_fault(state.host_owner) is Some {
        Err(host_owner_fault(state.host_owner)->0)
    } else {
        match state.host_owner.controllers {
            None => Err("Host controller journal disappeared during rollback"@),
            Some(current) => if current.transaction_id != journal.transaction_id {
                Err("Host controller transaction changed during rollback"@)
            } else {
                Ok(Some(journal))
            },
        }
    }
}

/// What is left of the journal once a rollback is complete.
pub open spec fn rollback_finish(
    state: LifecycleView,
    claim: ControllerClaimView,
    seen: ProcessSighting,
    readings: Seq<Result<Seq<char>, Seq<char>>>,
) -> Result<Option<ControllerJournalView>, Seq<char>> {
    if owned_claim_fault(state, claim, seen) is Some {
        Err(owned_claim_fault(state, claim, seen)->0)
    } else {
        match state.host_owner.controllers {
            None => Err("Host controller journal disappeared after rollback"@),
            Some(journal) => if !journal_owned(
                journal,
                claim.epoch,
                claim.identity,
                claim.fingerprint,
            ) {
                Err("Host controller journal identity or fixed step order changed"@)
            } else if journal.state != ControllerTransactionState::Restored {
                Err("Host controller rollback did not reach RESTORED"@)
            } else {
                match clear_fault(Some(journal), readings) {
                    Some(message) => Err(message),
                    None => Ok(None),
                }
            },
        }
    }
}

fn check_claim(handle: &LifecycleHandle, claim: &ControllerClaim, seen: &ProcessSighting) -> (r:
    Result<(), String>)
    ensures
        passes_unless(r, claim_fault(handle@, claim@, *seen)),
{
    if let Err(message) = check_record(&handle.record) {
        return Err(message);
    }
    verify_controller_claim(&handle.record, claim.epoch, &claim.identity, &claim.target, seen)
}

fn check_owned_claim(
    handle: &LifecycleHandle,
    claim: &ControllerClaim,
    seen: &ProcessSighting,
) -> (r: Result<(), String>)
    ensures
        passes_unless(r, owned_claim_fault(handle@, claim@, *seen)),
{
    if let Err(message) = check_claim(handle, claim, seen) {
        return Err(message);
    }
    if let Err(message) = check_host_owner(&handle.host_owner) {
        return Err(message);
    }
    verify_host_owner_for_record(&handle.host_owner, &handle.record)
}

fn new_steps(ceiling: &HostResourceCeiling, readings: &Vec<Result<String, String>>) -> (r: Result<
    Vec<ControllerStep>,
    String,
>)
    requires
        readings@.len() == 4,
    ensures
        match unread(outcomes(readings@), 0) {
            Some(message) => fails_with(r, message),
            None => r matches Ok(steps) && step_views(steps@) == fresh_steps(
                *ceiling,
                outcomes(readings@),
            ),
        },
{
    let targets = controller_targets(ceiling);
    let mut steps: Vec<ControllerStep> = Vec::new();
    let mut i: usize = 0;
    while i < 4
        invariant
            i <= 4,
            steps@.len() == i,
            readings@.len() == 4,
            targets@.len() == 4,
            forall|k: int| 0 <= k < 4 ==> (#[trigger] targets@[k]).0@ == controller_files()[k],
            forall|k: int| 0 <= k < 4 ==> (#[trigger] targets@[k]).1@ == ceiling_values(*ceiling)[k],
            unread(outcomes(readings@), 0) == unread(outcomes(readings@), i as int),
            forall|k: int|
                0 <= k < i ==> (#[trigger] steps@[k])@ == fresh_steps(
                    *ceiling,
                    outcomes(readings@),
                )[k],
        decreases 4 - i,
    {
        assert(outcomes(readings@)[i as int] == outcome(readings@[i as int]));
        match &readings[i] {
            Err(message) => return Err(message.clone()),
            Ok(old) => steps.push(
                ControllerStep {
                    file: targets[i].0.to_owned(),
                    old: old.clone(),
                    target: targets[i].1.clone(),
                    state: ControllerStepState::NotStarted,
                    observed: None,
                },
            ),
        }
        i = i + 1;
    }
    assert(step_views(steps@) =~= fresh_steps(*ceiling, outcomes(readings@)));
    Ok(steps)
}

impl LifecycleHandle {
    /// Begins a controller operation: the committed server of an unfenced
    /// managed Create gets the claim under which controllers are written.
    pub fn begin_controller_operation(&self) -> (r: Result<ControllerClaim, String>)
        ensures
            match controller_operation_fault(self@) {
                Some(message) => fails_with(r, message),
                None => r matches Ok(claim) && claim@ == (ControllerClaimView {
                    epoch: self@.record.operation_owner.epoch,
                    identity: self@.record.operation_owner.identity,
                    target: self@.record.target,
                    fingerprint: self@.record.create_fingerprint->0,
                }),
            },
    {
        if let Err(message) = check_record(&self.record) {
            return Err(message);
        }
        if let Err(message) = verify_controller_record(&self.record) {
            return Err(message);
        }
        if let Err(message) = check_host_owner(&self.host_owner) {
            return Err(message);
        }
        if let Err(message) = verify_host_owner_for_record(&self.host_owner, &self.record) {
            return Err(message);
        }
        match &self.record.create_fingerprint {
            None => Err("managed Create has no fingerprint".to_owned()),
            Some(fingerprint) => Ok(
                ControllerClaim {
                    epoch: self.record.operation_owner.epoch,
                    identity: self.record.operation_owner.identity.clone(),
                    target: self.record.target.clone(),
                    fingerprint: fingerprint.clone(),
                },
            ),
        }
    }

    /// Begins or resumes a controller transaction under this identifier: its
    /// journal is durable before any controller is written.
    pub fn begin_controller_transaction_with(
        &mut self,
        claim: &ControllerClaim,
        ceiling: &HostResourceCeiling,
        seen: &ProcessSighting,
        controllers: &ControllerSighting,
        transaction_id: &str,
    ) -> (r: Result<(), String>)
        requires
            controllers.readings@.len() == 4,
        ensures
            match transaction_journal(
                old(self)@,
                claim@,
                *ceiling,
                *seen,
                *controllers,
                transaction_id@,
            ) {
                Ok(journal) => r is Ok && final(self)@ == with_journal(old(self)@, Some(journal)),
                Err(message) => fails_with(r, message) && final(self)@ == old(self)@,
            },
    {
        let ghost before = self@;
        if let Err(message) = host_leaf_path(&claim.target, &seen.target) {
            return Err(message);
        }
        if let Err(message) = check_owned_claim(self, claim, seen) {
            return Err(message);
        }
        match &self.host_owner.controllers {
            Some(journal) => {
                let targets = controller_targets(ceiling);
                let r = verify_controller_journal_identity(
                    journal,
                    claim.epoch,
                    &claim.identity,
                    claim.fingerprint.as_str(),
                    &targets,
                );
                proof {
                    assert(forall|k: int|
                        0 <= k < 4 ==> (#[trigger] targets@[k]).1@ == ceiling_values(*ceiling)[k]);
                    if journal_owned(journal@, claim.epoch, claim.identity@, claim.fingerprint@) {
                        if aims_at(journal@, *ceiling) {
                            assert(crate::controllers::same_targets(journal@.steps, targets@)) by {
                                assert forall|i: int| 0 <= i < 4 implies (
                                #[trigger] journal@.steps[i]).file == targets@[i].0@
                                    && journal@.steps[i].target == targets@[i].1@ by {
                                    let _ = targets@[i];
                                }
                            }
                        }
                        if crate::controllers::same_targets(journal@.steps, targets@) {
                            assert(aims_at(journal@, *ceiling)) by {
                                assert forall|i: int| 0 <= i < 4 implies (
                                #[trigger] journal@.steps[i]).target == ceiling_values(
                                    *ceiling,
                                )[i] by {
                                    let _ = targets@[i];
                                }
                            }
                        }
                    }
                    assert(with_journal(before, Some(journal@)) == before);
                }
                r
            },
            None => {
                let steps = match new_steps(ceiling, &controllers.readings) {
                    Err(message) => return Err(message),
                    Ok(steps) => steps,
                };
                if let Err(message) = preflight_controller_targets(
                    &steps,
                    &controllers.pids_current,
                    &controllers.memory_current,
                    controllers.pids_limit,
                ) {
                    return Err(message);
                }
                self.host_owner.controllers = Some(
                    ControllerJournal {
                        schema_version: JOURNAL_VERSION,
                        transaction_id: transaction_id.to_owned(),
                        owner_epoch: claim.epoch,
                        owner_identity: claim.identity.clone(),
                        create_fingerprint: claim.fingerprint.clone(),
                        state: ControllerTransactionState::Prepared,
                        steps,
                        degraded_reason: None,
                    },
                );
                Ok(())
            },
        }
    }

    /// Begins a controller transaction under a fresh identifier, or resumes
    /// the durable one.
    pub fn begin_controller_transaction(
        &mut self,
        claim: &ControllerClaim,
        ceiling: &HostResourceCeiling,
        seen: &ProcessSighting,
        controllers: &ControllerSighting,
    ) -> (r: Result<(), String>)
        requires
            controllers.readings@.len() == 4,
        ensures
            exists|transaction_id: Seq<char>|
                is_random_uuid(transaction_id) && match #[trigger] transaction_journal(
                    old(self)@,
                    claim@,
                    *ceiling,
                    *seen,
                    *controllers,
                    transaction_id,
                ) {
                    Ok(journal) => r is Ok && final(self)@ == with_journal(
                        old(self)@,
                        Some(journal),
                    ),
                    Err(message) => fails_with(r, message) && final(self)@ == old(self)@,
                },
    {
        let transaction_id = fresh_uuid();
        self.begin_controller_transaction_with(
            claim,
            ceiling,
            seen,
            controllers,
            transaction_id.as_str(),
        )
    }

    /// Checks that a controller claim still holds, before a controller is
    /// written.
    pub fn verify_controller_operation(&self, claim: &ControllerClaim, seen: &ProcessSighting) -> (r:
        Result<(), String>)
        ensures
            passes_unless(r, claim_fault(self@, claim@, *seen)),
    {
        check_claim(self, claim, seen)
    }

    /// Loads the journal for a forward replay.
    pub fn load_forward_journal(&self, claim: &ControllerClaim, seen: &ProcessSighting) -> (r:
        Result<ControllerJournal, String>)
        ensures
            match forward_load(self@, claim@, *seen) {
                Ok(journal) => r matches Ok(loaded) && loaded@ == journal,
                Err(message) => fails_with(r, message),
            },
    {
        if let Err(message) = check_owned_claim(self, claim, seen) {
            return Err(message);
        }
        match &self.host_owner.controllers {
            None => Err("Host controller journal disappeared".to_owned()),
            Some(journal) => match verify_controller_journal_owner(
                journal,
                claim.epoch,
                &claim.identity,
                claim.fingerprint.as_str(),
            ) {
                Err(message) => Err(message),
                Ok(()) => Ok(journal.clone()),
            },
        }
    }

    /// Makes the journal of a forward replay durable.
    pub fn persist_forward_journal(
        &mut self,
        claim: &ControllerClaim,
        journal: &ControllerJournal,
        seen: &ProcessSighting,
    ) -> (r: Result<(), String>)
        ensures
            journal_moves(
                old(self)@,
                final(self)@,
                r,
                forward_persist(old(self)@, claim@, journal@, *seen),
            ),
    {
        if let Err(message) = check_owned_claim(self, claim, seen) {
            return Err(message);
        }
        let changed = match &self.host_owner.controllers {
            None => true,
            Some(current) => !text_eq(
                current.transaction_id.as_str(),
                journal.transaction_id.as_str(),
            ) || current.owner_epoch != journal.owner_epoch,
        };
        if changed {
            return Err("Host controller transaction changed during forward".to_owned());
        }
        self.host_owner.controllers = Some(journal.clone());
        Ok(())
    }

    fn find_rollback_journal(
        &self,
        claim: &ControllerClaim,
        seen: &ProcessSighting,
        missing: &str,
    ) -> (r: Result<ControllerJournal, String>)
        ensures
            match rollback_load(self@, claim@, *seen, missing@) {
                Ok(journal) => r matches Ok(loaded) && loaded@ == journal,
                Err(message) => fails_with(r, message),
            },
    {
        if let Err(message) = check_claim(self, claim, seen) {
            return Err(message);
        }
        if let Err(message) = check_host_owner(&self.host_owner) {
            return Err(message);
        }
        match &self.host_owner.controllers {
            None => Err(missing.to_owned()),
            Some(journal) => match verify_controller_journal_owner(
                journal,
                claim.epoch,
                &claim.identity,
                claim.fingerprint.as_str(),
            ) {
                Err(message) => Err(message),
                Ok(()) => Ok(journal.clone()),
            },
        }
    }

    /// Begins the rollback of a transaction: from now on it only goes back.
    pub fn begin_controller_rollback(&mut self, claim: &ControllerClaim, seen: &ProcessSighting) -> (r:
        Result<(), String>)
        ensures
            journal_moves(
                old(self)@,
                final(self)@,
                r,
                rollback_begin(old(self)@, claim@, *seen),
            ),
    {
        let ghost before = self@;
        if let Err(message) = host_leaf_path(&claim.target, &seen.target) {
            return Err(message);
        }
        match self.find_rollback_journal(
            claim,
            seen,
            "Host controller journal disappeared before rollback",
        ) {
            Err(message) => Err(message),
            Ok(found) => {
                let mut journal = found;
                if journal.state != ControllerTransactionState::Restored {
                    journal.state = ControllerTransactionState::RollingBack;
                }
                self.host_owner.controllers = Some(journal);
                Ok(())
            },
        }
    }

    /// Loads the journal for a rollback.
    pub fn load_rollback_journal(&self, claim: &ControllerClaim, seen: &ProcessSighting) -> (r:
        Result<ControllerJournal, String>)
        ensures
            match rollback_load(
                self@,
                claim@,
                *seen,
                "Host controller journal disappeared during rollback"@,
            ) {
                Ok(journal) => r matches Ok(loaded) && loaded@ == journal,
                Err(message) => fails_with(r, message),
            },
    {
        self.find_rollback_journal(
            claim,
            seen,
            "Host controller journal disappeared during rollback",
        )
    }

    /// Makes the journal of a rollback durable.
    pub fn persist_rollback_journal(
        &mut self,
        claim: &ControllerClaim,
        journal: &ControllerJournal,
        seen: &ProcessSighting,
    ) -> (r: Result<(), String>)
        ensures
            journal_moves(
                old(self)@,
                final(self)@,
                r,
                rollback_persist(old(self)@, claim@, journal@, *seen),
            ),
    {
        if let Err(message) = check_claim(self, claim, seen) {
            return Err(message);
        }
        if let Err(message) = check_host_owner(&self.host_owner) {
            return Err(message);
        }
        match &self.host_owner.controllers {
            None => return Err("Host controller journal disappeared during rollback".to_owned()),
            Some(current) => {
                if !text_eq(current.transaction_id.as_str(), journal.transaction_id.as_str()) {
                    return Err("Host controller transaction changed during rollback".to_owned());
                }
            },
        }
        self.host_owner.controllers = Some(journal.clone());
        Ok(())
    }

    /// Ends a rollback: its journal goes once every controller file is seen to
    /// hold its old value.
    pub fn finish_controller_rollback(
        &mut self,
        claim: &ControllerClaim,
        seen: &ProcessSighting,
        readings: &Vec<Result<String, String>>,
    ) -> (r: Result<(), String>)
        requires
            old(self)@.host_owner.controllers matches Some(journal) ==> readings@.len()
                == journal.steps.len(),
        ensures
            journal_moves(
                old(self)@,
                final(self)@,
                r,
                rollback_finish(old(self)@, claim@, *seen, outcomes(readings@)),
            ),
    {
        if let Err(message) = check_owned_claim(self, claim, seen) {
            return Err(message);
        }
        match &self.host_owner.controllers {
            None => return Err("Host controller journal disappeared after rollback".to_owned()),
            Some(journal) => {
                if let Err(message) = verify_controller_journal_owner(
                    journal,
                    claim.epoch,
                    &claim.identity,
                    claim.fingerprint.as_str(),
                ) {
                    return Err(message);
                }
                if journal.state != ControllerTransactionState::Restored {
                    return Err("Host controller rollback did not reach RESTORED".to_owned());
                }
            },
        }
        clear_restored_controller_journal(&mut self.host_owner.controllers, readings)
    }
}

/// The course of a transaction: forward, and back where forward fails.
pub enum CeilingRun {
    Forward { replay: ForwardReplay },
    BeginningRollback { failure: String },
    Rollback { failure: String, undo: RollbackReplay },
    FinishingRollback { failure: String },
    Applied,
    Failed { message: String },
}

/// The contents of a [`CeilingRun`].
pub enum CeilingView {
    Forward { replay: ForwardView },
    BeginningRollback { failure: Seq<char> },
    Rollback { failure: Seq<char>, undo: RollbackView },
    FinishingRollback { failure: Seq<char> },
    Applied,
    Failed { message: Seq<char> },
}

/// What a transaction asks for next.
pub enum CeilingAction {
    /// What the forward replay asks for.
    Forward { action: ReplayAction },
    BeginRollback,
    /// What the rollback asks for.
    Rollback { action: ReplayAction },
    FinishRollback,
    /// Nothing more: the ceiling is applied.
    Finish,
    /// Nothing more: the ceiling is not applied.
    Fail { message: String },
}

/// The contents of a [`CeilingAction`].
pub enum CeilingActionView {
    Forward { action: ReplayActionView },
    BeginRollback,
    Rollback { action: ReplayActionView },
    FinishRollback,
    Finish,
    Fail { message: Seq<char> },
}

impl View for CeilingRun {
    type V = CeilingView;

    open spec fn view(&self) -> CeilingView {
        match self {
            CeilingRun::Forward { replay } => CeilingView::Forward { replay: replay@ },
            CeilingRun::BeginningRollback { failure } => CeilingView::BeginningRollback {
                failure: failure@,
            },
            CeilingRun::Rollback { failure, undo } => CeilingView::Rollback {
                failure: failure@,
                undo: undo@,
            },
            CeilingRun::FinishingRollback { failure } => CeilingView::FinishingRollback {
                failure: failure@,
            },
            CeilingRun::Applied => CeilingView::Applied,
            CeilingRun::Failed { message } => CeilingView::Failed { message: message@ },
        }
    }
}

impl View for CeilingAction {
    type V = CeilingActionView;

    open spec fn view(&self) -> CeilingActionView {
        match self {
            CeilingAction::Forward { action } => CeilingActionView::Forward { action: action@ },
            CeilingAction::BeginRollback => CeilingActionView::BeginRollback,
            CeilingAction::Rollback { action } => CeilingActionView::Rollback { action: action@ },
            CeilingAction::FinishRollback => CeilingActionView::FinishRollback,
            CeilingAction::Finish => CeilingActionView::Finish,
            CeilingAction::Fail { message } => CeilingActionView::Fail { message: message@ },
        }
    }
}

/// What a transaction asks for in a state.
pub open spec fn ceiling_action(state: CeilingView) -> CeilingActionView {
    match state {
        CeilingView::Forward { replay } => CeilingActionView::Forward {
            action: forward_action(replay),
        },
        CeilingView::BeginningRollback { .. } => CeilingActionView::BeginRollback,
        CeilingView::Rollback { undo, .. } => CeilingActionView::Rollback {
            action: rollback_action(undo),
        },
        CeilingView::FinishingRollback { .. } => CeilingActionView::FinishRollback,
        CeilingView::Applied => CeilingActionView::Finish,
        CeilingView::Failed { message } => CeilingActionView::Fail { message },
    }
}

/// A transaction that failed forward and could not be rolled back.
pub open spec fn rollback_failed(failure: Seq<char>, message: Seq<char>) -> CeilingView {
    CeilingView::Failed { message: failure + "; Host controller rollback: "@ + message }
}

/// Where a transaction stands once its forward replay has come this far.
pub open spec fn forward_settled(replay: ForwardView) -> CeilingView {
    match replay {
        ForwardView::Finished => CeilingView::Applied,
        ForwardView::Failed { message } => CeilingView::BeginningRollback { failure: message },
        _ => CeilingView::Forward { replay },
    }
}

/// Where a transaction stands once its rollback has come this far.
pub open spec fn rollback_settled(failure: Seq<char>, replay: RollbackView) -> CeilingView {
    match replay {
        RollbackView::Finished => CeilingView::FinishingRollback { failure },
        RollbackView::Failed { message } => rollback_failed(failure, message),
        _ => CeilingView::Rollback { failure, undo: replay },
    }
}

/// Whether an event answers what a transaction asked for in a state.
pub open spec fn ceiling_accepts(state: CeilingView, event: ReplayEventView) -> bool {
    match state {
        CeilingView::Forward { replay } => forward_accepts(replay, event),
        CeilingView::Rollback { undo, .. } => rollback_accepts(undo, event),
        _ => event is Done || event is Failed,
    }
}

/// The transitions of a transaction.
pub open spec fn ceiling_next(state: CeilingView, event: ReplayEventView) -> CeilingView {
    match state {
        CeilingView::Forward { replay } => forward_settled(forward_next(replay, event)),
        CeilingView::BeginningRollback { failure } => if event is Failed {
            rollback_failed(failure, event->message)
        } else {
            CeilingView::Rollback { failure, undo: RollbackView::Loading }
        },
        CeilingView::Rollback { failure, undo } => rollback_settled(
            failure,
            rollback_next(undo, event),
        ),
        CeilingView::FinishingRollback { failure } => if event is Failed {
            rollback_failed(failure, event->message)
        } else {
            CeilingView::Failed { message: failure }
        },
        _ => state,
    }
}

fn failed_rollback(failure: &str, message: &str) -> (next: CeilingRun)
    ensures
        next@ == rollback_failed(failure@, message@),
{
    CeilingRun::Failed {
        message: failure.to_owned().concat("; Host controller rollback: ").concat(message),
    }
}

impl CeilingRun {
    /// A transaction whose journal is durable.
    pub fn start() -> (state: Self)
        ensures
            state@ == (CeilingView::Forward { replay: ForwardView::Loading }),
    {
        CeilingRun::Forward { replay: ForwardReplay::start() }
    }

    /// What the transaction asks for.
    pub fn action(&self) -> (action: CeilingAction)
        requires
            self@ matches CeilingView::Forward {
                replay: ForwardView::Inspecting { journal, index },
            } ==> 0 <= index < journal.steps.len(),
            self@ matches CeilingView::Rollback {
                undo: RollbackView::Inspecting { journal, index },
                ..
            } ==> 0 <= index < journal.steps.len(),
        ensures
            action@ == ceiling_action(self@),
    {
        match self {
            CeilingRun::Forward { replay } => CeilingAction::Forward { action: replay.action() },
            CeilingRun::BeginningRollback { .. } => CeilingAction::BeginRollback,
            CeilingRun::Rollback { undo, .. } => CeilingAction::Rollback {
                action: undo.action(),
            },
            CeilingRun::FinishingRollback { .. } => CeilingAction::FinishRollback,
            CeilingRun::Applied => CeilingAction::Finish,
            CeilingRun::Failed { message } => CeilingAction::Fail { message: message.clone() },
        }
    }

    /// The transaction after an answer to what it asked for.
    pub fn step(self, event: ReplayEvent) -> (next: Self)
        requires
            ceiling_accepts(self@, event@),
        ensures
            next@ == ceiling_next(self@, event@),
    {
        match self {
            CeilingRun::Forward { replay } => match replay.step(event) {
                ForwardReplay::Finished => CeilingRun::Applied,
                ForwardReplay::Failed { message } => CeilingRun::BeginningRollback {
                    failure: message,
                },
                other => CeilingRun::Forward { replay: other },
            },
            CeilingRun::BeginningRollback { failure } => match event {
                ReplayEvent::Failed { message } => failed_rollback(
                    failure.as_str(),
                    message.as_str(),
                ),
                _ => CeilingRun::Rollback { failure, undo: RollbackReplay::start() },
            },
            CeilingRun::Rollback { failure, undo } => match undo.step(event) {
                RollbackReplay::Finished => CeilingRun::FinishingRollback { failure },
                RollbackReplay::Failed { message } => failed_rollback(
                    failure.as_str(),
                    message.as_str(),
                ),
                other => CeilingRun::Rollback { failure, undo: other },
            },
            CeilingRun::FinishingRollback { failure } => match event {
                ReplayEvent::Failed { message } => failed_rollback(
                    failure.as_str(),
                    message.as_str(),
                ),
                _ => CeilingRun::Failed { message: failure },
            },
            other => other,
        }
    }
}

/// A ceiling counts as applied only where its forward replay has just
/// finished; once a rollback has begun, the transaction fails.
pub proof fn law_only_a_finished_replay_applies_a_ceiling(
    state: CeilingView,
    event: ReplayEventView,
)
    ensures
        ceiling_next(state, event) is Applied ==> state is Applied || (
        state matches CeilingView::Forward { replay } && forward_next(replay, event) is Finished),
        state is BeginningRollback || state is Rollback || state is FinishingRollback || state is Failed
            ==> !(ceiling_next(state, event) is Applied) && !(ceiling_next(state, event) is Forward),
{
}

/// A fresh journal is owned by the claim that made it and can be taken up again
/// by a forward replay under that claim.
pub proof fn law_fresh_journal_is_owned(
    claim: ControllerClaimView,
    ceiling: HostResourceCeiling,
    readings: Seq<Result<Seq<char>, Seq<char>>>,
    transaction_id: Seq<char>,
)
    requires
        transaction_id.len() > 0,
    ensures
        journal_owned(
            fresh_journal(claim, ceiling, readings, transaction_id),
            claim.epoch,
            claim.identity,
            claim.fingerprint,
        ),
        aims_at(fresh_journal(claim, ceiling, readings, transaction_id), ceiling),
{
}

/// A claim whose epoch was revoked neither loads nor changes a journal.
pub proof fn law_revoked_claim_leaves_the_journal(
    state: LifecycleView,
    claim: ControllerClaimView,
    ceiling: HostResourceCeiling,
    journal: ControllerJournalView,
    seen: ProcessSighting,
    controllers: ControllerSighting,
    transaction_id: Seq<char>,
)
    requires
        state.record.operation_owner.epoch != claim.epoch,
    ensures
        transaction_journal(state, claim, ceiling, seen, controllers, transaction_id) is Err,
        forward_load(state, claim, seen) is Err,
        forward_persist(state, claim, journal, seen) is Err,
        rollback_begin(state, claim, seen) is Err,
        rollback_persist(state, claim, journal, seen) is Err,
        rollback_finish(state, claim, seen, outcomes(controllers.readings@)) is Err,
{
}

/// A transaction that begins changes the journal of the Host owner and nothing
/// else of the lifecycle.
pub proof fn law_journal_is_all_that_changes(
    state: LifecycleView,
    journal: Option<ControllerJournalView>,
)
    ensures
        with_journal(state, journal).host_owner.controllers == journal,
        with_journal(state, journal).record == state.record,
        with_journal(state, journal).runtime_owner == state.runtime_owner,
        with_journal(state, journal).host_owner.target == state.host_owner.target,
        with_journal(state, journal).host_owner.state == state.host_owner.state,
        with_journal(state, journal).host_owner.server == state.host_owner.server,
        with_journal(state, journal).host_owner.generation == state.host_owner.generation,
        with_journal(state, journal).host_owner.namespace == state.host_owner.namespace,
        with_journal(state, journal).host_owner.instance_id == state.host_owner.instance_id,
        with_journal(state, journal).host_owner.original_cgroup
            == state.host_owner.original_cgroup,
        with_journal(state, journal).host_owner.schema_version == state.host_owner.schema_version,
{
}

/// A transaction that begins without a durable journal gets one that has not
/// started: every controller file in its order, with the value that was read as
/// its old one and the ceiling's as its target, under the claim's epoch, process
/// and Create.
pub proof fn law_fresh_transaction_has_not_started(
    state: LifecycleView,
    claim: ControllerClaimView,
    ceiling: HostResourceCeiling,
    seen: ProcessSighting,
    controllers: ControllerSighting,
    transaction_id: Seq<char>,
)
    requires
        controllers.readings@.len() == 4,
        state.host_owner.controllers is None,
        transaction_journal(state, claim, ceiling, seen, controllers, transaction_id) is Ok,
    ensures
        ({
            let journal = transaction_journal(
                state,
                claim,
                ceiling,
                seen,
                controllers,
                transaction_id,
            )->Ok_0;
            &&& journal.state == ControllerTransactionState::Prepared
            &&& journal.schema_version == 1
            &&& journal.transaction_id == transaction_id
            &&& journal.owner_epoch == claim.epoch
            &&& journal.owner_identity == claim.identity
            &&& journal.create_fingerprint == claim.fingerprint
            &&& journal.degraded_reason is None
            &&& journal.steps.len() == 4
            &&& journal.steps[0].file == "memory.oom.group"@
            &&& journal.steps[1].file == "pids.max"@
            &&& journal.steps[2].file == "memory.max"@
            &&& journal.steps[3].file == "cpu.max"@
            &&& journal.steps[0].target == ceiling.memory_oom_group@
            &&& journal.steps[1].target == ceiling.pids_max@
            &&& journal.steps[2].target == ceiling.memory_max@
            &&& journal.steps[3].target == ceiling.cpu_max@
            &&& forall|i: int|
                0 <= i < 4 ==> {
                    &&& (#[trigger] journal.steps[i]).state == ControllerStepState::NotStarted
                    &&& journal.steps[i].observed is None
                    &&& controllers.readings@[i] is Ok
                    &&& journal.steps[i].old == controllers.readings@[i]->Ok_0@
                }
        }),
{
    let readings = outcomes(controllers.readings@);
    lemma_all_read(readings, 0);
    assert forall|i: int| 0 <= i < 4 implies controllers.readings@[i] is Ok
        && readings[i]->Ok_0 == controllers.readings@[i]->Ok_0@ by {
        assert(readings[i] == outcome(controllers.readings@[i]));
        assert(readings[i] is Ok);
    }
}

proof fn lemma_all_read(readings: Seq<Result<Seq<char>, Seq<char>>>, from: int)
    requires
        0 <= from <= 4,
        unread(readings, from) is None,
    ensures
        forall|i: int| from <= i < 4 ==> (#[trigger] readings[i]) is Ok,
    decreases 4 - from,
{
    if from < 4 {
        lemma_all_read(readings, from + 1);
    }
}

proof fn lemma_none_unread(readings: Seq<Result<Seq<char>, Seq<char>>>, from: int)
    requires
        0 <= from <= 4,
        forall|i: int| from <= i < 4 ==> (#[trigger] readings[i]) is Ok,
    ensures
        unread(readings, from) is None,
    decreases 4 - from,
{
    if from < 4 {
        lemma_none_unread(readings, from + 1);
    }
}

/// A claim under which controllers are written is accepted with a ceiling that
/// every controller takes and that the present usage does not exceed; where a
/// journal is durable, its transaction goes on, with the same ceiling only.
pub proof fn law_fitting_ceiling_is_accepted(
    state: LifecycleView,
    claim: ControllerClaimView,
    ceiling: HostResourceCeiling,
    seen: ProcessSighting,
    controllers: ControllerSighting,
    transaction_id: Seq<char>,
)
    requires
        controllers.readings@.len() == 4,
        leaf_fault(claim.target, seen.target) is None,
        owned_claim_fault(state, claim, seen) is None,
    ensures
        ({
            let begun = transaction_journal(
                state,
                claim,
                ceiling,
                seen,
                controllers,
                transaction_id,
            );
            let steps = fresh_steps(ceiling, outcomes(controllers.readings@));
            &&& state.host_owner.controllers is None && (forall|i: int|
                0 <= i < 4 ==> (#[trigger] controllers.readings@[i]) is Ok) && preflight_fault(
                steps,
                controllers.pids_current,
                controllers.memory_current,
                controllers.pids_limit,
            ) is None ==> begun is Ok
            &&& state.host_owner.controllers is None && (exists|i: int|
                0 <= i < 4 && (#[trigger] controllers.readings@[i]) is Err) ==> begun is Err
            &&& state.host_owner.controllers is None && preflight_fault(
                steps,
                controllers.pids_current,
                controllers.memory_current,
                controllers.pids_limit,
            ) is Some ==> begun is Err
            &&& state.host_owner.controllers matches Some(journal) ==> journal_owned(
                journal,
                claim.epoch,
                claim.identity,
                claim.fingerprint,
            ) ==> (begun is Ok <==> journal.steps[0].target == ceiling.memory_oom_group@
                && journal.steps[1].target == ceiling.pids_max@ && journal.steps[2].target
                == ceiling.memory_max@ && journal.steps[3].target == ceiling.cpu_max@) && (
            begun is Ok ==> begun->Ok_0 == journal)
        }),
{
    let readings = outcomes(controllers.readings@);
    assert forall|i: int| 0 <= i < 4 implies (controllers.readings@[i] is Ok
        <==> #[trigger] readings[i] is Ok) by {
        assert(readings[i] == outcome(controllers.readings@[i]));
    }
    if forall|i: int| 0 <= i < 4 ==> (#[trigger] controllers.readings@[i]) is Ok {
        assert forall|i: int| 0 <= i < 4 implies (#[trigger] readings[i]) is Ok by {
            assert(controllers.readings@[i] is Ok);
        }
        lemma_none_unread(readings, 0);
    } else {
        if unread(readings, 0) is None {
            lemma_all_read(readings, 0);
            let i = choose|i: int| 0 <= i < 4 && !((#[trigger] controllers.readings@[i]) is Ok);
            assert(readings[i] is Ok);
        }
    }
    if let Some(journal) = state.host_owner.controllers {
        if journal_owned(journal, claim.epoch, claim.identity, claim.fingerprint) {
            let values = ceiling_values(ceiling);
            if journal.steps[0].target == values[0] && journal.steps[1].target == values[1]
                && journal.steps[2].target == values[2] && journal.steps[3].target == values[3] {
                assert(aims_at(journal, ceiling));
            }
            if aims_at(journal, ceiling) {
                assert(journal.steps[0].target == values[0]);
                assert(journal.steps[1].target == values[1]);
                assert(journal.steps[2].target == values[2]);
                assert(journal.steps[3].target == values[3]);
            }
        }
    }
}

/// Controllers are written only for a managed sandbox whose committed server
/// runs its Create, under the epoch, by the process and in the place of the
/// claim.
pub proof fn law_claims_are_bound_to_their_create(
    state: LifecycleView,
    claim: ControllerClaimView,
    seen: ProcessSighting,
)
    requires
        claim_fault(state, claim, seen) is None,
    ensures
        state.record.schema_version == 2,
        state.record.classification == crate::record::Classification::ManagedSandbox,
        state.record.phase == crate::record::LifecyclePhase::ContainerdCommitted,
        state.record.create_state == crate::record::CreateState::InProgress,
        state.record.operation_owner.kind == crate::identity::OwnerKind::Server,
        state.record.operation_owner.revoked_epoch is None,
        state.record.operation_owner.epoch == claim.epoch,
        crate::identity::same_process(state.record.operation_owner.identity, claim.identity),
        state.record.target == claim.target,
        seen.identity is Ok,
        crate::identity::same_process(claim.identity, seen.identity->Ok_0@),
        seen.identity->Ok_0.cgroup@ == claim.target.location(),
        crate::target::membership_fault(
            claim.target,
            seen.identity->Ok_0.pid as int,
            seen.target,
            seen.cgroup,
        ) is None,
{
}

/// The claim that an operation begins with holds as long as the lifecycle, its
/// process and its place stay as they are.
pub proof fn law_begun_claim_holds(state: LifecycleView, claim: ControllerClaimView, seen: ProcessSighting)
    requires
        controller_operation_fault(state) is None,
        claim.epoch == state.record.operation_owner.epoch,
        claim.identity == state.record.operation_owner.identity,
        claim.target == state.record.target,
        Some(claim.fingerprint) == state.record.create_fingerprint,
        seen.identity is Ok,
        crate::identity::same_process(claim.identity, seen.identity->Ok_0@),
        seen.identity->Ok_0.cgroup@ == claim.target.location(),
        crate::target::membership_fault(
            claim.target,
            seen.identity->Ok_0.pid as int,
            seen.target,
            seen.cgroup,
        ) is None,
    ensures
        claim_fault(state, claim, seen) is None,
        owned_claim_fault(state, claim, seen) is None,
{
    crate::identity::law_same_process_is_an_equivalence(
        claim.identity,
        claim.identity,
        claim.identity,
    );
}

/// What a transaction made durable is what its replays load, and what a replay
/// makes durable is what the next load gives; only a journal of the same
/// transaction is made durable.
pub proof fn law_durable_journal_is_loaded(
    state: LifecycleView,
    claim: ControllerClaimView,
    journal: ControllerJournalView,
    current: ControllerJournalView,
    seen: ProcessSighting,
    missing: Seq<char>,
)
    requires
        owned_claim_fault(state, claim, seen) is None,
        state.host_owner.controllers == Some(current),
    ensures
        journal_owned(current, claim.epoch, claim.identity, claim.fingerprint) ==> forward_load(
            state,
            claim,
            seen,
        ) == Ok::<ControllerJournalView, Seq<char>>(current) && rollback_load(
            state,
            claim,
            seen,
            missing,
        ) == Ok::<ControllerJournalView, Seq<char>>(current),
        !journal_owned(current, claim.epoch, claim.identity, claim.fingerprint) ==> forward_load(
            state,
            claim,
            seen,
        ) is Err && rollback_load(state, claim, seen, missing) is Err,
        current.transaction_id == journal.transaction_id && current.owner_epoch
            == journal.owner_epoch ==> forward_persist(state, claim, journal, seen) == Ok::<
            Option<ControllerJournalView>,
            Seq<char>,
        >(Some(journal)),
        current.transaction_id == journal.transaction_id ==> rollback_persist(
            state,
            claim,
            journal,
            seen,
        ) == Ok::<Option<ControllerJournalView>, Seq<char>>(Some(journal)),
        current.transaction_id != journal.transaction_id ==> forward_persist(
            state,
            claim,
            journal,
            seen,
        ) is Err && rollback_persist(state, claim, journal, seen) is Err,
{
}

/// A rollback that begins turns the transaction back without touching its
/// plan; one that has restored everything stays restored.
pub proof fn law_rollback_turns_the_transaction_back(
    state: LifecycleView,
    claim: ControllerClaimView,
    current: ControllerJournalView,
    seen: ProcessSighting,
)
    requires
        leaf_fault(claim.target, seen.target) is None,
        claim_fault(state, claim, seen) is None,
        host_owner_fault(state.host_owner) is None,
        state.host_owner.controllers == Some(current),
        journal_owned(current, claim.epoch, claim.identity, claim.fingerprint),
    ensures
        rollback_begin(state, claim, seen) matches Ok(Some(_)),
        ({
            let journal = rollback_begin(state, claim, seen)->Ok_0->0;
            &&& journal.steps == current.steps
            &&& journal.transaction_id == current.transaction_id
            &&& journal.owner_epoch == current.owner_epoch
            &&& journal.degraded_reason == current.degraded_reason
            &&& current.state == ControllerTransactionState::Restored ==> journal == current
            &&& current.state != ControllerTransactionState::Restored ==> journal.state
                == ControllerTransactionState::RollingBack
        }),
{
}

/// The journal of a rollback goes exactly once it is restored and every file is
/// seen at its old value.
pub proof fn law_journal_goes_when_restored(
    state: LifecycleView,
    claim: ControllerClaimView,
    current: ControllerJournalView,
    seen: ProcessSighting,
    readings: Seq<Result<Seq<char>, Seq<char>>>,
)
    requires
        owned_claim_fault(state, claim, seen) is None,
        state.host_owner.controllers == Some(current),
        journal_owned(current, claim.epoch, claim.identity, claim.fingerprint),
        readings.len() == 4,
    ensures
        rollback_finish(state, claim, seen, readings) is Ok <==> current.state
            == ControllerTransactionState::Restored && forall|i: int|
            0 <= i < 4 ==> (#[trigger] current.steps[i]).old == readings[i]->Ok_0 && readings[i]
                is Ok,
        rollback_finish(state, claim, seen, readings) is Ok ==> rollback_finish(
            state,
            claim,
            seen,
            readings,
        )->Ok_0 is None,
{
    if crate::controllers::readback_fault(current.steps, false, readings, 0) is None {
        assert forall|i: int| 0 <= i < 4 implies (#[trigger] current.steps[i]).old
            == readings[i]->Ok_0 && readings[i] is Ok by {
            crate::controllers::law_exact_readback_means_every_value(
                current.steps,
                false,
                readings,
                0,
                i,
            );
        }
    }
    if forall|i: int|
        0 <= i < 4 ==> (#[trigger] current.steps[i]).old == readings[i]->Ok_0 && readings[i]
            is Ok {
        lemma_old_values_read_back(current.steps, readings, 0);
    }
}

proof fn lemma_old_values_read_back(
    steps: Seq<ControllerStepView>,
    readings: Seq<Result<Seq<char>, Seq<char>>>,
    from: int,
)
    requires
        steps.len() == 4,
        0 <= from <= 4,
        forall|i: int|
            0 <= i < 4 ==> (#[trigger] steps[i]).old == readings[i]->Ok_0 && readings[i] is Ok,
    ensures
        crate::controllers::readback_fault(steps, false, readings, from) is None,
    decreases 4 - from,
{
    if from < 4 {
        lemma_old_values_read_back(steps, readings, from + 1);
    }
}

/// A transaction that fails forward is rolled back before it reports, and what
/// it reports begins with the failure; where the rollback fails too, both are
/// told.
pub proof fn law_failed_transaction_is_rolled_back(
    replay: ForwardView,
    undo: RollbackView,
    failure: Seq<char>,
    event: ReplayEventView,
)
    ensures
        forward_next(replay, event) matches ForwardView::Failed { message } ==> ceiling_next(
            CeilingView::Forward { replay },
            event,
        ) == (CeilingView::BeginningRollback { failure: message }),
        forward_next(replay, event) is Finished ==> ceiling_next(
            CeilingView::Forward { replay },
            event,
        ) is Applied,
        ceiling_action(CeilingView::BeginningRollback { failure }) is BeginRollback,
        event is Done ==> ceiling_next(CeilingView::BeginningRollback { failure }, event) == (
        CeilingView::Rollback { failure, undo: RollbackView::Loading }),
        rollback_next(undo, event) is Finished ==> ceiling_next(
            CeilingView::Rollback { failure, undo },
            event,
        ) == (CeilingView::FinishingRollback { failure }),
        rollback_next(undo, event) matches RollbackView::Failed { message } ==> ceiling_next(
            CeilingView::Rollback { failure, undo },
            event,
        ) == (CeilingView::Failed { message: failure + "; Host controller rollback: "@ + message }),
        ceiling_action(CeilingView::FinishingRollback { failure }) is FinishRollback,
        event is Done ==> ceiling_next(CeilingView::FinishingRollback { failure }, event) == (
        CeilingView::Failed { message: failure }),
        event matches ReplayEventView::Failed { message } ==> ceiling_next(
            CeilingView::BeginningRollback { failure },
            event,
        ) == (CeilingView::Failed { message: failure + "; Host controller rollback: "@ + message })
            && ceiling_next(CeilingView::FinishingRollback { failure }, event) == (
        CeilingView::Failed { message: failure + "; Host controller rollback: "@ + message }),
        ceiling_action(CeilingView::Applied) is Finish,
        ceiling_action(CeilingView::Failed { message: failure }) == (CeilingActionView::Fail {
            message: failure,
        }),
{
}

/// A change of the journal succeeds with the new journal and with nothing else
/// changed, or fails with its message and changes nothing.
pub proof fn law_journals_change_whole(
    before: LifecycleView,
    after: LifecycleView,
    journal: Option<ControllerJournalView>,
    error: String,
    message: Seq<char>,
)
    ensures
        journal_moves(before, after, Ok(()), Ok(journal)) ==> after.host_owner.controllers
            == journal && after.record == before.record && after.runtime_owner
            == before.runtime_owner && after.host_owner.target == before.host_owner.target
            && after.host_owner.state == before.host_owner.state && after.host_owner.server
            == before.host_owner.server,
        !journal_moves(before, after, Err(error), Ok(journal)),
        !journal_moves(before, after, Ok(()), Err(message)),
        journal_moves(before, after, Err(error), Err(message)) == (error@ == message && after
            == before),
{
}

} // verus!
