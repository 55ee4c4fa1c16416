//! The placement of a claimed server in its Host cgroup: a durable intent, the
//! move, and the commit.
use vstd::prelude::*;

use crate::claim::{takeover_allows, takeover_cgroup_allowed, CallerSighting};
use crate::identity::{
    immutable_identity_matches, same_process, FileIdentity, OperationOwnerView, OwnerKind,
    ProcessIdentity, ProcessIdentityView,
};
use crate::lifecycle::{
    check_host_owner, check_record, host_owner_fault, next_sequence, record_fault, LifecycleHandle,
    LifecycleView,
};
use crate::record::{
    Classification, CreateState, HostCgroupOwnerView, HostOwnerState, LifecyclePhase,
    LifecycleRecord, LifecycleRecordView,
};
use crate::target::{
    membership_fault, passes_unless, verify_target_membership, HostTarget, HostTargetView,
};
use crate::text::{fails_with, opt_number, opt_number_text, text_eq};

verus! {

/// What a placement holds on to while its server is moved.
#[derive(Debug, PartialEq, Eq)]
pub struct PlacementClaim {
    pub registered: ProcessIdentity,
    pub epoch: u64,
    pub target: HostTarget,
    pub instance_id: String,
}

/// The contents of a [`PlacementClaim`].
pub struct PlacementClaimView {
    pub registered: ProcessIdentityView,
    pub epoch: u64,
    pub target: HostTargetView,
    pub instance_id: Seq<char>,
}

impl View for PlacementClaim {
    type V = PlacementClaimView;

    open spec fn view(&self) -> PlacementClaimView {
        PlacementClaimView {
            registered: self.registered@,
            epoch: self.epoch,
            target: self.target@,
            instance_id: self.instance_id@,
        }
    }
}

/// How a placement goes on once it has begun.
#[derive(Debug, PartialEq, Eq)]
pub enum PlacementStep {
    /// The takeover was committed before.
    AlreadyCommitted,
    /// The takeover of a task is committed now.
    LegacyCommitted,
    /// The server has to be moved into its target.
    Place { claim: PlacementClaim },
}

/// The contents of a [`PlacementStep`].
pub enum PlacementStepView {
    AlreadyCommitted,
    LegacyCommitted,
    Place { claim: PlacementClaimView },
}

impl View for PlacementStep {
    type V = PlacementStepView;

    open spec fn view(&self) -> PlacementStepView {
        match self {
            PlacementStep::AlreadyCommitted => PlacementStepView::AlreadyCommitted,
            PlacementStep::LegacyCommitted => PlacementStepView::LegacyCommitted,
            PlacementStep::Place { claim } => PlacementStepView::Place { claim: claim@ },
        }
    }
}

/// The kind of lifecycle that a placement expects.
pub open spec fn expected_class(managed: bool) -> Classification {
    if managed {
        Classification::ManagedSandbox
    } else {
        Classification::LegacyTask
    }
}

/// Whether a record is in the middle of an unfenced Create of this kind.
pub open spec fn placeable(record: LifecycleRecordView, expected: Classification) -> bool {
    &&& record.phase == LifecyclePhase::TakeoverClaimed
    &&& record.classification == expected
    &&& record.operation_owner.kind == OwnerKind::Server
    &&& record.operation_owner.revoked_epoch is None
    &&& record.create_state == CreateState::InProgress
}

/// Why the caller may not place the server, if it may not.
pub open spec fn placement_caller_fault(
    record: LifecycleRecordView,
    expected: Classification,
    server: Result<ProcessIdentity, String>,
) -> Option<Seq<char>> {
    if !placeable(record, expected) {
        Some(
            "Host placement requires an unfenced claimed "@ + expected.label()
                + " server with an IN_PROGRESS Create, found "@ + record.phase.label() + "/"@
                + record.classification.label() + "/"@ + record.operation_owner.kind.label() + "/"@
                + record.create_state.label() + "/revoked="@ + opt_number(
                record.operation_owner.revoked_epoch,
            ),
        )
    } else if record.server is None {
        Some("claimed takeover has no registered server"@)
    } else {
        match server {
            Err(message) => Some(message@),
            Ok(caller) => if !same_process(record.server->0, caller@) || !same_process(
                record.operation_owner.identity,
                caller@,
            ) {
                Some("Host placement caller does not match claimed server"@)
            } else if !takeover_allows(record, caller@.cgroup) {
                Some(
                    "claimed server is outside both Host placement locations: "@ + caller@.cgroup,
                )
            } else {
                None
            },
        }
    }
}

/// Why the Host owner does not allow the placement, if it does not.
pub open spec fn placement_owner_fault(
    state: LifecycleView,
    managed: bool,
) -> Option<Seq<char>> {
    let record = state.record;
    let owner = state.host_owner;
    if host_owner_fault(owner) is Some {
        host_owner_fault(owner)
    } else if owner.generation != record.generation || owner.namespace != record.namespace
        || owner.instance_id != record.instance_id || owner.original_cgroup
        != record.helper.cgroup {
        Some("Host owner identity differs from claimed lifecycle"@)
    } else if managed && !record.target.is_managed() {
        Some("managed claim has no managed Host target"@)
    } else if managed && owner.state == HostOwnerState::Empty && !(owner.target is Pending) {
        Some("EMPTY Host owner unexpectedly has a concrete target"@)
    } else if managed && owner.state == HostOwnerState::Intent && (!owner.target.same_place(
        record.target,
    ) || !(owner.server matches Some(server) && (record.server matches Some(registered)
        && same_process(server, registered)))) {
        Some("Host INTENT differs from the durable takeover claim"@)
    } else if managed && owner.state == HostOwnerState::Allocated && !owner.target.same_place(
        record.target,
    ) {
        Some("allocated Host owner target changed"@)
    } else if !managed && (owner.state != HostOwnerState::Empty || !(owner.target is Pending)
        || !(record.target is Legacy)) {
        Some("legacy takeover must retain an EMPTY Host owner"@)
    } else {
        None
    }
}

/// A record that is committed with this server.
pub open spec fn committed_with(
    record: LifecycleRecordView,
    server: ProcessIdentityView,
) -> LifecycleRecordView {
    LifecycleRecordView {
        server: Some(server),
        operation_owner: OperationOwnerView { identity: server, ..record.operation_owner },
        phase: LifecyclePhase::ContainerdCommitted,
        sequence: (record.sequence + 1) as u64,
        ..record
    }
}

/// What the beginning of a placement leads to: a step with the state to be made
/// durable before it, or a refusal.
pub open spec fn placement_beginning(
    state: LifecycleView,
    managed: bool,
    seen: CallerSighting,
) -> Result<(PlacementStepView, LifecycleView), Seq<char>> {
    let record = state.record;
    let expected = expected_class(managed);
    if record_fault(record) is Some {
        Err(record_fault(record)->0)
    } else if record.phase == LifecyclePhase::ContainerdCommitted {
        if record.classification != expected {
            Err("committed takeover classification changed"@)
        } else {
            Ok((PlacementStepView::AlreadyCommitted, state))
        }
    } else if placement_caller_fault(record, expected, seen.server) is Some {
        Err(placement_caller_fault(record, expected, seen.server)->0)
    } else if placement_owner_fault(state, managed) is Some {
        Err(placement_owner_fault(state, managed)->0)
    } else {
        let server = seen.server->Ok_0@;
        if managed {
            Ok(
                (
                    PlacementStepView::Place {
                        claim: PlacementClaimView {
                            registered: record.server->0,
                            epoch: record.operation_owner.epoch,
                            target: record.target,
                            instance_id: record.instance_id,
                        },
                    },
                    if state.host_owner.state == HostOwnerState::Empty {
                        LifecycleView {
                            host_owner: HostCgroupOwnerView {
                                state: HostOwnerState::Intent,
                                target: record.target,
                                server: Some(server),
                                ..state.host_owner
                            },
                            ..state
                        }
                    } else {
                        state
                    },
                ),
            )
        } else {
            match membership_fault(record.target, server.pid as int, seen.target, seen.cgroup) {
                Some(message) => Err(message),
                None => if record.sequence == u64::MAX {
                    Err("lifecycle sequence overflow"@)
                } else {
                    Ok(
                        (
                            PlacementStepView::LegacyCommitted,
                            LifecycleView { record: committed_with(record, server), ..state },
                        ),
                    )
                },
            }
        }
    }
}

/// Why a server that was moved does not count as placed, if it does not.
pub open spec fn placed_fault(claim: PlacementClaimView, seen: CallerSighting) -> Option<
    Seq<char>,
> {
    match seen.server {
        Err(message) => Some(message@),
        Ok(server) => if !same_process(claim.registered, server@) {
            Some("server identity changed during Host placement"@)
        } else {
            membership_fault(claim.target, server@.pid as int, seen.target, seen.cgroup)
        },
    }
}

/// Whether the claim of a placement still stands.
pub open spec fn claim_stands(
    record: LifecycleRecordView,
    expected: Classification,
    claim: PlacementClaimView,
) -> bool {
    &&& placeable(record, expected)
    &&& record.operation_owner.epoch == claim.epoch
    &&& same_process(record.operation_owner.identity, claim.registered)
    &&& record.target.same_place(claim.target)
}

/// Why a placement must not be committed, if it must not.
pub open spec fn placement_commit_fault(
    state: LifecycleView,
    managed: bool,
    claim: PlacementClaimView,
    server: ProcessIdentityView,
    seen: CallerSighting,
) -> Option<Seq<char>> {
    let record = state.record;
    let registered = match record.server {
        Some(registered) => registered,
        None => claim.registered,
    };
    if record_fault(record) is Some {
        record_fault(record)
    } else if !claim_stands(record, expected_class(managed), claim) {
        Some("Host placement claim was revoked or changed during mutation"@)
    } else if !same_process(registered, server) {
        Some("registered server identity changed during Host placement"@)
    } else if membership_fault(
        record.target,
        server.pid as int,
        seen.target,
        seen.cgroup,
    ) is Some {
        membership_fault(record.target, server.pid as int, seen.target, seen.cgroup)
    } else if host_owner_fault(state.host_owner) is Some {
        host_owner_fault(state.host_owner)
    } else if state.host_owner.generation != record.generation || state.host_owner.state
        == HostOwnerState::Empty || !state.host_owner.target.same_place(record.target) || !(
    state.host_owner.server matches Some(owner) && same_process(owner, server)) {
        Some("Host owner changed during placement"@)
    } else {
        None
    }
}

/// How the commit of a placement changes a lifecycle. The Host owner is
/// allocated before the record is committed.
pub open spec fn placement_committed(
    before: LifecycleView,
    after: LifecycleView,
    r: Result<(), String>,
    managed: bool,
    claim: PlacementClaimView,
    seen: CallerSighting,
    leaf: Result<FileIdentity, String>,
) -> bool {
    if seen.server is Err {
        fails_with(r, seen.server->Err_0@) && after == before
    } else if leaf is Err {
        fails_with(r, leaf->Err_0@) && after == before
    } else {
        let server = seen.server->Ok_0@;
        match placement_commit_fault(before, managed, claim, server, seen) {
            Some(message) => fails_with(r, message) && after == before,
            None => {
                let owned = LifecycleView {
                    host_owner: HostCgroupOwnerView {
                        target: before.host_owner.target.with_leaf(Some(leaf->Ok_0)),
                        server: Some(server),
                        state: HostOwnerState::Allocated,
                        ..before.host_owner
                    },
                    ..before
                };
                if before.record.sequence == u64::MAX {
                    fails_with(r, "lifecycle sequence overflow"@) && after == owned
                } else {
                    r is Ok && after == (LifecycleView {
                        record: committed_with(
                            LifecycleRecordView {
                                target: before.record.target.with_leaf(Some(leaf->Ok_0)),
                                ..before.record
                            },
                            server,
                        ),
                        ..owned
                    })
                }
            },
        }
    }
}

fn check_placement_caller(
    record: &LifecycleRecord,
    expected: Classification,
    server: &Result<ProcessIdentity, String>,
) -> (r: Result<(ProcessIdentity, ProcessIdentity), String>)
    ensures
        match placement_caller_fault(record@, expected, *server) {
            Some(message) => fails_with(r, message),
            None => r matches Ok((registered, caller)) && record@.server == Some(registered@)
                && (server matches Ok(s) && caller@ == s@),
        },
{
    if record.phase != LifecyclePhase::TakeoverClaimed || record.classification != expected
        || record.operation_owner.kind != OwnerKind::Server
        || record.operation_owner.revoked_epoch.is_some() || record.create_state
        != CreateState::InProgress {
        return Err(
            "Host placement requires an unfenced claimed ".to_owned().concat(
                expected.name(),
            ).concat(" server with an IN_PROGRESS Create, found ").concat(
                record.phase.name(),
            ).concat("/").concat(record.classification.name()).concat("/").concat(
                record.operation_owner.kind.name(),
            ).concat("/").concat(record.create_state.name()).concat("/revoked=").concat(
                opt_number_text(record.operation_owner.revoked_epoch).as_str(),
            ),
        );
    }
    let registered = match &record.server {
        None => return Err("claimed takeover has no registered server".to_owned()),
        Some(registered) => registered,
    };
    let caller = match server {
        Err(message) => return Err(message.clone()),
        Ok(caller) => caller,
    };
    if !immutable_identity_matches(registered, caller) || !immutable_identity_matches(
        &record.operation_owner.identity,
        caller,
    ) {
        return Err("Host placement caller does not match claimed server".to_owned());
    }
    if !takeover_cgroup_allowed(record, caller.cgroup.as_str()) {
        return Err(
            "claimed server is outside both Host placement locations: ".to_owned().concat(
                caller.cgroup.as_str(),
            ),
        );
    }
    Ok((registered.clone(), caller.clone()))
}

fn check_placement_owner(handle: &LifecycleHandle, managed: bool) -> (r: Result<(), String>)
    ensures
        passes_unless(r, placement_owner_fault(handle@, managed)),
{
    if let Err(message) = check_host_owner(&handle.host_owner) {
        return Err(message);
    }
    let record = &handle.record;
    let owner = &handle.host_owner;
    if !text_eq(owner.generation.as_str(), record.generation.as_str()) || !text_eq(
        owner.namespace.as_str(),
        record.namespace.as_str(),
    ) || !text_eq(owner.instance_id.as_str(), record.instance_id.as_str()) || !text_eq(
        owner.original_cgroup.as_str(),
        record.helper.cgroup.as_str(),
    ) {
        return Err("Host owner identity differs from claimed lifecycle".to_owned());
    }
    if managed {
        if !record.target.managed() {
            return Err("managed claim has no managed Host target".to_owned());
        }
        match owner.state {
            HostOwnerState::Empty => {
                if !owner.target.pending() {
                    return Err("EMPTY Host owner unexpectedly has a concrete target".to_owned());
                }
            },
            HostOwnerState::Intent => {
                let server_matches = match (&owner.server, &record.server) {
                    (Some(server), Some(registered)) => immutable_identity_matches(
                        server,
                        registered,
                    ),
                    _ => false,
                };
                if !owner.target.same_location(&record.target) || !server_matches {
                    return Err("Host INTENT differs from the durable takeover claim".to_owned());
                }
            },
            HostOwnerState::Allocated => {
                if !owner.target.same_location(&record.target) {
                    return Err("allocated Host owner target changed".to_owned());
                }
            },
        }
        return Ok(());
    }
    if owner.state != HostOwnerState::Empty || !owner.target.pending()
        || !record.target.legacy() {
        return Err("legacy takeover must retain an EMPTY Host owner".to_owned());
    }
    Ok(())
}

impl LifecycleHandle {
    /// Begins the placement of the claimed server: commits a task, and leaves
    /// the durable intent of a managed placement in the Host owner.
    pub fn begin_host_placement(&mut self, managed: bool, seen: &CallerSighting) -> (r: Result<
        PlacementStep,
        String,
    >)
        ensures
            match placement_beginning(old(self)@, managed, *seen) {
                Err(message) => fails_with(r, message) && final(self)@ == old(self)@,
                Ok((step, state)) => r matches Ok(found) && found@ == step && final(self)@ == state,
            },
    {
        let expected = if managed {
            Classification::ManagedSandbox
        } else {
            Classification::LegacyTask
        };
        if let Err(message) = check_record(&self.record) {
            return Err(message);
        }
        if self.record.phase == LifecyclePhase::ContainerdCommitted {
            if self.record.classification != expected {
                return Err("committed takeover classification changed".to_owned());
            }
            return Ok(PlacementStep::AlreadyCommitted);
        }
        let (registered, server) = match check_placement_caller(
            &self.record,
            expected,
            &seen.server,
        ) {
            Err(message) => return Err(message),
            Ok(pair) => pair,
        };
        if let Err(message) = check_placement_owner(self, managed) {
            return Err(message);
        }
        if managed {
            if self.host_owner.state == HostOwnerState::Empty {
                self.host_owner.state = HostOwnerState::Intent;
                self.host_owner.target = self.record.target.clone();
                self.host_owner.server = Some(server);
            }
            return Ok(
                PlacementStep::Place {
                    claim: PlacementClaim {
                        registered,
                        epoch: self.record.operation_owner.epoch,
                        target: self.record.target.clone(),
                        instance_id: self.record.instance_id.clone(),
                    },
                },
            );
        }
        if let Err(message) = verify_target_membership(
            &self.record.target,
            server.pid,
            &seen.target,
            &seen.cgroup,
        ) {
            return Err(message);
        }
        match next_sequence(self.record.sequence) {
            Err(message) => Err(message),
            Ok(sequence) => {
                self.record.server = Some(server.clone());
                self.record.operation_owner.identity = server;
                self.record.phase = LifecyclePhase::ContainerdCommitted;
                self.record.sequence = sequence;
                Ok(PlacementStep::LegacyCommitted)
            },
        }
    }

    /// Commits the takeover of a task.
    pub fn commit_legacy_takeover(&mut self, seen: &CallerSighting) -> (r: Result<
        PlacementStep,
        String,
    >)
        ensures
            match placement_beginning(old(self)@, false, *seen) {
                Err(message) => fails_with(r, message) && final(self)@ == old(self)@,
                Ok((step, state)) => r matches Ok(found) && found@ == step && final(self)@ == state,
            },
    {
        self.begin_host_placement(false, seen)
    }

    /// Begins the placement of the server of a managed sandbox.
    pub fn place_managed_server(&mut self, seen: &CallerSighting) -> (r: Result<
        PlacementStep,
        String,
    >)
        ensures
            match placement_beginning(old(self)@, true, *seen) {
                Err(message) => fails_with(r, message) && final(self)@ == old(self)@,
                Ok((step, state)) => r matches Ok(found) && found@ == step && final(self)@ == state,
            },
    {
        self.begin_host_placement(true, seen)
    }

    /// Commits a managed placement after the server was moved: the Host owner
    /// is allocated with the leaf's identity, then the record is committed.
    pub fn commit_host_placement(
        &mut self,
        claim: &PlacementClaim,
        seen: &CallerSighting,
        leaf: &Result<FileIdentity, String>,
    ) -> (r: Result<(), String>)
        ensures
            placement_committed(old(self)@, final(self)@, r, true, claim@, *seen, *leaf),
    {
        let server = match &seen.server {
            Err(message) => return Err(message.clone()),
            Ok(server) => server.clone(),
        };
        let leaf_identity: FileIdentity = match leaf {
            Err(message) => return Err(message.clone()),
            Ok(identity) => *identity,
        };
        if let Err(message) = check_record(&self.record) {
            return Err(message);
        }
        let record = &self.record;
        if record.phase != LifecyclePhase::TakeoverClaimed || record.classification
            != Classification::ManagedSandbox || record.create_state != CreateState::InProgress
            || record.operation_owner.kind != OwnerKind::Server || record.operation_owner.epoch
            != claim.epoch || record.operation_owner.revoked_epoch.is_some()
            || !immutable_identity_matches(&record.operation_owner.identity, &claim.registered)
            || !record.target.same_location(&claim.target) {
            return Err(
                "Host placement claim was revoked or changed during mutation".to_owned(),
            );
        }
        let registered_matches = match &record.server {
            Some(registered) => immutable_identity_matches(registered, &server),
            None => immutable_identity_matches(&claim.registered, &server),
        };
        if !registered_matches {
            return Err("registered server identity changed during Host placement".to_owned());
        }
        if let Err(message) = verify_target_membership(
            &record.target,
            server.pid,
            &seen.target,
            &seen.cgroup,
        ) {
            return Err(message);
        }
        if let Err(message) = check_host_owner(&self.host_owner) {
            return Err(message);
        }
        let owner_matches = match &self.host_owner.server {
            Some(owner) => immutable_identity_matches(owner, &server),
            None => false,
        };
        if !text_eq(self.host_owner.generation.as_str(), self.record.generation.as_str())
            || self.host_owner.state == HostOwnerState::Empty
            || !self.host_owner.target.same_location(&self.record.target) || !owner_matches {
            return Err("Host owner changed during placement".to_owned());
        }
        self.host_owner.target.set_leaf_identity(leaf_identity);
        self.host_owner.server = Some(server.clone());
        self.host_owner.state = HostOwnerState::Allocated;
        match next_sequence(self.record.sequence) {
            Err(message) => Err(message),
            Ok(sequence) => {
                self.record.target.set_leaf_identity(leaf_identity);
                self.record.server = Some(server.clone());
                self.record.operation_owner.identity = server;
                self.record.phase = LifecyclePhase::ContainerdCommitted;
                self.record.sequence = sequence;
                Ok(())
            },
        }
    }
}

impl PlacementClaim {
    /// Whether the server still has to be moved into its target.
    pub fn needs_move(&self, server: &ProcessIdentity) -> (r: bool)
        ensures
            r == (server@.cgroup != self@.target.location()),
    {
        !text_eq(server.cgroup.as_str(), self.target.cgroup())
    }

    /// Checks that the server that was moved is the registered one and in its
    /// target.
    pub fn verify_placed(&self, seen: &CallerSighting) -> (r: Result<(), String>)
        ensures
            passes_unless(r, placed_fault(self@, *seen)),
    {
        match &seen.server {
            Err(message) => Err(message.clone()),
            Ok(server) => {
                if !immutable_identity_matches(&self.registered, server) {
                    return Err("server identity changed during Host placement".to_owned());
                }
                verify_target_membership(&self.target, server.pid, &seen.target, &seen.cgroup)
            },
        }
    }
}

/// A server is moved only after the Host owner durably intends its target.
pub proof fn law_host_intent_precedes_placement(
    state: LifecycleView,
    managed: bool,
    seen: CallerSighting,
)
    requires
        placement_beginning(state, managed, seen) matches Ok((PlacementStepView::Place { .. }, _)),
    ensures
        ({
            let (step, next) = placement_beginning(state, managed, seen)->Ok_0;
            &&& managed
            &&& next.host_owner.state != HostOwnerState::Empty
            &&& next.host_owner.target.same_place(step->claim.target)
            &&& next.record == state.record
        }),
{
}

/// A Create that is fenced while its server is moved publishes neither an
/// allocated Host owner nor a committed record.
pub proof fn law_fenced_placement_commits_nothing(
    before: LifecycleView,
    after: LifecycleView,
    r: Result<(), String>,
    managed: bool,
    claim: PlacementClaimView,
    seen: CallerSighting,
    leaf: Result<FileIdentity, String>,
)
    requires
        before.record.operation_owner.epoch != claim.epoch
            || before.record.operation_owner.revoked_epoch is Some,
        placement_committed(before, after, r, managed, claim, seen, leaf),
    ensures
        r is Err,
        after == before,
{
}

/// A commit that succeeds leaves the record and the Host owner with one target,
/// whose leaf is known, and with the server inside it.
pub proof fn law_committed_placement_is_consistent(
    before: LifecycleView,
    after: LifecycleView,
    r: Result<(), String>,
    managed: bool,
    claim: PlacementClaimView,
    seen: CallerSighting,
    leaf: Result<FileIdentity, String>,
)
    requires
        managed,
        before.record.target.is_managed(),
        placement_committed(before, after, r, managed, claim, seen, leaf),
        r is Ok,
    ensures
        after.record.phase == LifecyclePhase::ContainerdCommitted,
        after.host_owner.state == HostOwnerState::Allocated,
        after.record.target == after.host_owner.target,
        after.record.target.leaf() == Some(leaf->Ok_0),
        seen.cgroup matches Ok(cgroup) && cgroup@ == after.record.target.location(),
{
}

/// A claimed server is placed: what it has to do begins with a durable intent
/// for its target, and once it is seen in there its takeover is committed, with
/// the target's leaf, for the same owner and epoch.
pub proof fn law_claimed_server_is_placed(
    state: LifecycleView,
    seen: CallerSighting,
    caller: ProcessIdentity,
    moved: CallerSighting,
    placed: ProcessIdentity,
    leaf: FileIdentity,
    after: LifecycleView,
    r: Result<(), String>,
)
    requires
        state.record.schema_version == 2,
        state.record.generation.len() > 0,
        state.record.sequence < u64::MAX,
        state.record.phase == LifecyclePhase::TakeoverClaimed,
        state.record.classification == Classification::ManagedSandbox,
        state.record.operation_owner.kind == OwnerKind::Server,
        state.record.operation_owner.revoked_epoch is None,
        state.record.create_state == CreateState::InProgress,
        state.record.target is Systemd || state.record.target is Cgroupfs,
        state.record.server is Some,
        seen.server == Ok::<ProcessIdentity, String>(caller),
        same_process(state.record.server->0, caller@),
        same_process(state.record.operation_owner.identity, caller@),
        caller.cgroup@ == state.record.helper.cgroup || caller.cgroup@
            == state.record.target.location(),
        state.host_owner.schema_version == 2,
        state.host_owner.generation == state.record.generation,
        state.host_owner.namespace == state.record.namespace,
        state.host_owner.instance_id == state.record.instance_id,
        state.host_owner.original_cgroup == state.record.helper.cgroup,
        state.host_owner.state == HostOwnerState::Empty,
        state.host_owner.target is Pending,
        moved.server == Ok::<ProcessIdentity, String>(placed),
        same_process(caller@, placed@),
        membership_fault(state.record.target, placed.pid as int, moved.target, moved.cgroup)
            is None,
    ensures
        placement_beginning(state, true, seen) matches Ok(
            (PlacementStepView::Place { claim }, intended),
        ) && {
            &&& claim.registered == state.record.server->0
            &&& claim.epoch == state.record.operation_owner.epoch
            &&& claim.target == state.record.target
            &&& claim.instance_id == state.record.instance_id
            &&& intended.record == state.record
            &&& intended.runtime_owner == state.runtime_owner
            &&& intended.host_owner.state == HostOwnerState::Intent
            &&& intended.host_owner.target == state.record.target
            &&& intended.host_owner.server == Some(caller@)
            &&& intended.host_owner.controllers == state.host_owner.controllers
            &&& placed_fault(claim, moved) is None
            &&& placement_committed(intended, after, r, true, claim, moved, Ok(leaf)) ==> {
                &&& r is Ok
                &&& after.record.phase == LifecyclePhase::ContainerdCommitted
                &&& after.record.server == Some(placed@)
                &&& after.record.operation_owner.identity == placed@
                &&& after.record.operation_owner.epoch == state.record.operation_owner.epoch
                &&& after.record.operation_owner.kind == OwnerKind::Server
                &&& after.record.operation_owner.revoked_epoch is None
                &&& after.record.create_state == CreateState::InProgress
                &&& after.record.target.leaf() == Some(leaf)
                &&& after.record.target.location() == state.record.target.location()
                &&& after.record.sequence == state.record.sequence + 1
                &&& after.record.create_fingerprint == state.record.create_fingerprint
                &&& after.record.create_waiters == state.record.create_waiters
                &&& after.record.helper == state.record.helper
                &&& after.host_owner.state == HostOwnerState::Allocated
                &&& after.host_owner.target == after.record.target
                &&& after.host_owner.server == Some(placed@)
                &&& after.host_owner.original_cgroup == state.record.helper.cgroup
                &&& after.runtime_owner == state.runtime_owner
            }
        },
{
    crate::identity::law_same_process_is_an_equivalence(
        state.record.server->0,
        caller@,
        placed@,
    );
    crate::identity::law_same_process_is_an_equivalence(
        state.record.operation_owner.identity,
        caller@,
        state.record.server->0,
    );
    crate::identity::law_same_process_is_an_equivalence(caller@, placed@, placed@);
    crate::identity::law_same_process_is_an_equivalence(
        state.record.server->0,
        caller@,
        caller@,
    );
}

/// A task is committed where it is: its server becomes the owner, and its Host
/// owner stays empty. A takeover that is committed is left as it is.
pub proof fn law_task_is_committed_in_place(
    state: LifecycleView,
    seen: CallerSighting,
    caller: ProcessIdentity,
    managed: bool,
)
    requires
        state.record.schema_version == 2,
        state.record.generation.len() > 0,
        state.record.sequence < u64::MAX,
    ensures
        state.record.phase == LifecyclePhase::ContainerdCommitted && (state.record.classification
            == Classification::ManagedSandbox <==> managed) && (state.record.classification
            == Classification::LegacyTask <==> !managed) ==> placement_beginning(
            state,
            managed,
            seen,
        ) == Ok::<(PlacementStepView, LifecycleView), Seq<char>>(
            (PlacementStepView::AlreadyCommitted, state),
        ),
        state.record.phase == LifecyclePhase::TakeoverClaimed && state.record.classification
            == Classification::LegacyTask && state.record.operation_owner.kind == OwnerKind::Server
            && state.record.operation_owner.revoked_epoch is None && state.record.create_state
            == CreateState::InProgress && state.record.target is Legacy
            && state.record.server is Some && seen.server == Ok::<ProcessIdentity, String>(caller)
            && same_process(state.record.server->0, caller@) && same_process(
            state.record.operation_owner.identity,
            caller@,
        ) && caller.cgroup@ == state.record.helper.cgroup && state.host_owner.schema_version == 2
            && state.host_owner.generation == state.record.generation
            && state.host_owner.namespace == state.record.namespace
            && state.host_owner.instance_id == state.record.instance_id
            && state.host_owner.original_cgroup == state.record.helper.cgroup
            && state.host_owner.state == HostOwnerState::Empty && state.host_owner.target is Pending
            && membership_fault(state.record.target, caller.pid as int, seen.target, seen.cgroup)
            is None ==> (placement_beginning(state, false, seen) matches Ok((step, next))
            && step is LegacyCommitted && next.host_owner == state.host_owner && next.runtime_owner
            == state.runtime_owner && next.record.phase == LifecyclePhase::ContainerdCommitted
            && next.record.server == Some(caller@) && next.record.operation_owner.identity
            == caller@ && next.record.operation_owner.epoch == state.record.operation_owner.epoch
            && next.record.target == state.record.target && next.record.create_state
            == CreateState::InProgress && next.record.sequence == state.record.sequence + 1),
{
}

/// Nobody but the claimed server is placed, and only while its Create runs
/// unfenced: a placement for anyone else, or from elsewhere, is refused.
pub proof fn law_only_the_claimed_server_is_placed(
    state: LifecycleView,
    managed: bool,
    seen: CallerSighting,
)
    requires
        state.record.phase != LifecyclePhase::ContainerdCommitted,
        state.record.phase != LifecyclePhase::TakeoverClaimed || (managed
            && state.record.classification != Classification::ManagedSandbox) || (!managed
            && state.record.classification != Classification::LegacyTask)
            || state.record.operation_owner.kind != OwnerKind::Server
            || state.record.operation_owner.revoked_epoch is Some || state.record.create_state
            != CreateState::InProgress || state.record.server is None || seen.server is Err
            || !same_process(state.record.server->0, seen.server->Ok_0@) || !same_process(
            state.record.operation_owner.identity,
            seen.server->Ok_0@,
        ) || (seen.server->Ok_0.cgroup@ != state.record.helper.cgroup && seen.server->Ok_0.cgroup@
            != state.record.target.location()) || state.host_owner.generation
            != state.record.generation || state.host_owner.instance_id != state.record.instance_id
            || state.host_owner.namespace != state.record.namespace,
    ensures
        placement_beginning(state, managed, seen) is Err,
{
}

/// A server that was moved counts as placed where it is the claimed process and
/// a member of the claimed target; a placement whose claim has changed
/// meanwhile commits nothing.
pub proof fn law_placement_commits_what_was_claimed(
    before: LifecycleView,
    after: LifecycleView,
    r: Result<(), String>,
    managed: bool,
    claim: PlacementClaimView,
    seen: CallerSighting,
    leaf: Result<FileIdentity, String>,
)
    requires
        placement_committed(before, after, r, managed, claim, seen, leaf),
    ensures
        placed_fault(claim, seen) is None <==> seen.server is Ok && same_process(
            claim.registered,
            seen.server->Ok_0@,
        ) && membership_fault(
            claim.target,
            seen.server->Ok_0.pid as int,
            seen.target,
            seen.cgroup,
        ) is None,
        before.record.operation_owner.epoch != claim.epoch || before.record.phase
            != LifecyclePhase::TakeoverClaimed || before.record.create_state
            != CreateState::InProgress || before.record.operation_owner.revoked_epoch is Some
            || before.record.target.location() != claim.target.location() || before.host_owner.state
            == HostOwnerState::Empty || seen.server is Err || leaf is Err ==> r is Err && after
            == before,
        after.runtime_owner == before.runtime_owner,
{
}

} // verus!
