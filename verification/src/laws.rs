//! What every transition of a lifecycle keeps.
use vstd::prelude::*;

use crate::claim::{claim_outcome, CallerSighting};
use crate::cleanup::{
    barrier_held, before_release, converge_accepts, converged, handoff_begun, handoff_committed,
    law_held_barrier_keeps_the_queues, runtime_job_after, scanner_takeover, ConvergeEventView,
    ConvergenceView,
};
use crate::identity::{
    ContainmentIdentityView, FileIdentity, OwnerKind, ProcessIdentity, ProcessIdentityView,
};
use crate::lifecycle::{
    cleanup_request, cleanup_requested, containment_cleanup, create_failure, create_success,
    degraded_cleanup, failure_ready, is_claimed, is_cleaning, phase_advance, same_version,
    scanner_cleanup, scanner_failure, server_registration, socket_readiness, waiter_departure,
    LifecycleView, SocketSighting,
};
use crate::observe::ProcessObservation;
use crate::operation::{operation_of, server_operation_fault, verify_fault};
use crate::placement::{placement_beginning, placement_committed, PlacementClaimView};
use crate::record::{
    rank, Classification, CreateState, HostCleanupJob, LifecyclePhase, LifecycleRecordView,
    RuntimeCleanupJob, RuntimeCleanupJobView,
};
use crate::target::{HostTargetView, ProcessSighting, TargetSighting};
use crate::text::decimal;

verus! {

/// What a change keeps of a record: its generation and its version, its
/// sequence, its epoch and its phase do not go back, a durable Create result,
/// the first breach and the first reason of a degradation stay.
pub open spec fn keeps(before: LifecycleRecordView, after: LifecycleRecordView) -> bool {
    &&& after.generation == before.generation
    &&& after.schema_version == before.schema_version
    &&& after.sequence == before.sequence + 1
    &&& after.operation_owner.epoch >= before.operation_owner.epoch
    &&& rank(after.phase) >= rank(before.phase)
    &&& before.create_state == CreateState::Succeeded ==> after.create_state
        == CreateState::Succeeded
    &&& before.create_state == CreateState::Failed ==> after.create_state == CreateState::Failed
    &&& before.create_state == CreateState::Failed && before.failure is Some ==> (
    after.failure is Some && after.failure->0.code == before.failure->0.code
        && after.failure->0.message == before.failure->0.message
        && after.failure->0.published_at_ms == before.failure->0.published_at_ms)
    &&& before.containment_breach is Some ==> after.containment_breach
        == before.containment_breach
    &&& before.degraded_reason is Some ==> after.degraded_reason == before.degraded_reason
}

/// Every transition of a record keeps its generation, counts its sequence up by
/// one, takes no epoch and no phase back, and replaces neither a durable Create
/// result nor the first breach nor the first reason of a degradation.
pub proof fn law_transitions_never_go_back(
    state: LifecycleView,
    snapshot: LifecycleRecordView,
    code: Seq<char>,
    message: Seq<char>,
    reason: Seq<char>,
    observed: Option<ContainmentIdentityView>,
    breach: ContainmentIdentityView,
    now: Result<u128, String>,
    seen: TargetSighting,
    readings: Seq<Result<Seq<char>, Seq<char>>>,
)
    ensures
        create_failure(state.record, code, message, now) matches Ok(next) ==> keeps(
            state.record,
            next,
        ),
        create_success(state, seen, readings) matches Ok(Some(next)) ==> keeps(state.record, next),
        waiter_departure(state.record) matches Ok(next) ==> keeps(state.record, next),
        cleanup_request(state.record, reason, now) matches Ok(next) ==> keeps(state.record, next),
        scanner_failure(state.record, snapshot, code, message, observed, now) matches Ok(
            Some(next),
        ) ==> keeps(state.record, next),
        scanner_cleanup(state.record, snapshot, observed, now) matches Ok(Some(next)) ==> keeps(
            state.record,
            next,
        ),
        degraded_cleanup(state.record, reason) matches Ok(next) ==> keeps(state.record, next),
        containment_cleanup(state.record, breach) matches Ok(next) ==> keeps(state.record, next),
{
}

/// A record whose lifecycle no takeover has claimed has no Create yet.
pub open spec fn starts_with_a_claim(record: LifecycleRecordView) -> bool {
    rank(record.phase) < rank(LifecyclePhase::TakeoverClaimed) ==> record.create_state
        == CreateState::Unstarted
}

/// What a change keeps of a record of which a Create starts with its claim.
pub open spec fn keeps_in_order(
    before: LifecycleRecordView,
    after: LifecycleRecordView,
) -> bool {
    keeps(before, after) && starts_with_a_claim(after)
}

/// Registration, socket readiness, a claim and a placement take nothing back
/// either, and leave no Create that no claim has started.
pub proof fn law_takeovers_never_go_back(
    state: LifecycleView,
    after: LifecycleView,
    identity: ProcessIdentityView,
    nonce_hash: Seq<char>,
    executable: Result<String, String>,
    socket: SocketSighting,
    expected: Classification,
    target: HostTargetView,
    fingerprint: Seq<char>,
    caller: CallerSighting,
    now: Result<u128, String>,
    managed: bool,
    claim: PlacementClaimView,
    leaf: Result<FileIdentity, String>,
    r: Result<(), String>,
)
    requires
        starts_with_a_claim(state.record),
    ensures
        server_registration(state.record, identity, nonce_hash, executable) matches Ok(Some(next))
            ==> keeps_in_order(state.record, next),
        socket_readiness(state.record, socket) matches Ok(next) ==> keeps_in_order(
            state.record,
            next,
        ),
        claim_outcome(state.record, expected, target, fingerprint, caller, now) matches Ok(
            (_, next),
        ) ==> keeps_in_order(state.record, next),
        placement_beginning(state, managed, caller) matches Ok((_, next)) ==> next.record
            == state.record || keeps_in_order(state.record, next.record),
        placement_committed(state, after, r, managed, claim, caller, leaf) ==> after.record
            == state.record || keeps_in_order(state.record, after.record),
{
}

/// The handoff of a lifecycle, its takeover by another scanner and the end of
/// its cleanup take nothing back either.
pub proof fn law_cleanups_never_go_back(
    record: LifecycleRecordView,
    scanner: Result<ProcessIdentity, String>,
    other: Result<ProcessObservation, String>,
    host: Result<HostCleanupJob, String>,
    runtime: Result<RuntimeCleanupJob, String>,
)
    requires
        starts_with_a_claim(record),
    ensures
        handoff_begun(record, scanner) matches Ok(next) ==> next == record || keeps_in_order(
            record,
            next,
        ),
        handoff_committed(record, host, runtime) matches Ok(next) ==> keeps_in_order(record, next),
        scanner_takeover(record, scanner, other) matches Ok(next) ==> next == record
            || keeps_in_order(record, next),
        phase_advance(
            record,
            LifecyclePhase::CleanupOwnersDurable,
            LifecyclePhase::ServerStopped,
        ) matches Ok(next) ==> keeps_in_order(record, next),
        phase_advance(record, LifecyclePhase::ServerStopped, LifecyclePhase::Done) matches Ok(next)
            ==> keeps_in_order(record, next),
{
}

/// Once cleanup is requested, the epoch of the operation that ran before is
/// revoked: it is smaller than the record's, and the record names it.
pub proof fn law_cleanup_revokes_the_running_operation(record: LifecycleRecordView)
    requires
        !is_cleaning(record.phase),
        record.phase != LifecyclePhase::Done,
        record.operation_owner.revoked_epoch is None,
    ensures
        cleanup_requested(record) matches Ok(next) ==> next.operation_owner.epoch
            == record.operation_owner.epoch + 1 && next.operation_owner.revoked_epoch == Some(
            record.operation_owner.epoch,
        ) && next.phase == LifecyclePhase::CleanupRequired,
{
}

/// The readback of a Create begins only where the Create has durably succeeded
/// under a server that was not fenced. While it holds the barrier, no cleanup
/// releases the runtime job. Once cleanup is requested, it is told that it was
/// revoked.
pub proof fn law_readback_excludes_cleanup(
    record: LifecycleRecordView,
    seen: ProcessSighting,
    later: ProcessSighting,
    reason: Seq<char>,
    now: Result<u128, String>,
    cleanup: ConvergenceView,
    events: Seq<ConvergeEventView>,
    job: RuntimeCleanupJobView,
)
    requires
        server_operation_fault(
            record,
            "CreateSandbox readback"@,
            seq![CreateState::Succeeded],
            seen,
        ) is None,
        before_release(cleanup.stage),
        forall|k: int|
            0 <= k < events.len() ==> converge_accepts(
                (#[trigger] converged(cleanup, events.take(k))).stage,
                events[k],
            ),
        barrier_held(cleanup, events),
    ensures
        record.operation_owner.kind == OwnerKind::Server,
        record.operation_owner.revoked_epoch is None,
        record.phase == LifecyclePhase::ContainerdCommitted,
        record.create_state == CreateState::Succeeded,
        runtime_job_after(job, record.generation, cleanup, events) == job,
        ({
            let readback = operation_of(record, OwnerKind::Server);
            &&& verify_fault(readback, record, seen) is None
            &&& cleanup_request(record, reason, now) matches Ok(next) ==> verify_fault(
                readback,
                next,
                later,
            ) == Some(
                "runtime operation epoch "@ + decimal(record.operation_owner.epoch as nat)
                    + " was revoked by "@ + OwnerKind::Server.label() + "/"@ + decimal(
                    (record.operation_owner.epoch + 1) as nat,
                ),
            )
        }),
{
    law_held_barrier_keeps_the_queues(cleanup, events, job, record.generation);
}

/// A Create that is in progress is never cleaned up under its caller: a request
/// for cleanup first publishes its failure, and the phase stays.
pub proof fn law_failure_is_published_before_cleanup(
    record: LifecycleRecordView,
    snapshot: LifecycleRecordView,
    reason: Seq<char>,
    observed: Option<ContainmentIdentityView>,
    now: Result<u128, String>,
)
    requires
        is_claimed(record.phase),
        record.create_state == CreateState::InProgress,
    ensures
        cleanup_request(record, reason, now) matches Ok(next) ==> next.phase == record.phase
            && next.create_state == CreateState::Failed && next.failure is Some
            && next.failure->0.code == "CANCELLED"@ && next.failure->0.message == reason,
        !(scanner_cleanup(record, snapshot, observed, now) matches Ok(Some(_))),
{
}

/// A failed Create is cleaned up only once its failure was taken by every
/// waiter or has waited long enough.
pub proof fn law_cleanup_waits_for_the_failure(
    record: LifecycleRecordView,
    snapshot: LifecycleRecordView,
    reason: Seq<char>,
    observed: Option<ContainmentIdentityView>,
    now: Result<u128, String>,
)
    requires
        is_claimed(record.phase),
        record.create_state == CreateState::Failed,
        failure_ready(record, now) == Ok::<bool, Seq<char>>(false),
    ensures
        cleanup_request(record, reason, now) matches Ok(next) ==> next.phase == record.phase
            && next.operation_owner == record.operation_owner,
        !(scanner_cleanup(record, snapshot, observed, now) matches Ok(Some(_))),
{
}

/// What the scanner judged on an older version of a record changes nothing.
pub proof fn law_stale_judgements_change_nothing(
    record: LifecycleRecordView,
    snapshot: LifecycleRecordView,
    code: Seq<char>,
    message: Seq<char>,
    observed: Option<ContainmentIdentityView>,
    now: Result<u128, String>,
)
    requires
        !same_version(snapshot, record),
    ensures
        !(scanner_failure(record, snapshot, code, message, observed, now) matches Ok(Some(_))),
        !(scanner_cleanup(record, snapshot, observed, now) matches Ok(Some(_))),
{
}

/// Cleanup that is requested again changes nothing but the sequence.
pub proof fn law_cleanup_request_is_idempotent(
    record: LifecycleRecordView,
    reason: Seq<char>,
    again: Seq<char>,
    now: Result<u128, String>,
    later: Result<u128, String>,
)
    requires
        cleanup_request(record, reason, now) matches Ok(next) && is_cleaning(next.phase),
    ensures
        ({
            let first = cleanup_request(record, reason, now)->Ok_0;
            cleanup_request(first, again, later) matches Ok(second) ==> second == (
            LifecycleRecordView { sequence: second.sequence, ..first })
        }),
{
}

/// A record that a transition can change: it is of the present schema, has a
/// generation, and its counters have room.
pub open spec fn movable(record: LifecycleRecordView) -> bool {
    record.schema_version == 2 && record.generation.len() > 0 && record.sequence < u64::MAX
        && record.operation_owner.epoch < u64::MAX
}

/// A change that counts the sequence up and leaves everything else.
pub open spec fn only_counted(before: LifecycleRecordView, after: LifecycleRecordView) -> bool {
    after == (LifecycleRecordView { sequence: after.sequence, ..before }) && after.sequence
        == before.sequence + 1
}

/// What no transition between preparation and removal touches: who and what the
/// lifecycle was prepared for.
pub open spec fn same_preparation(before: LifecycleRecordView, after: LifecycleRecordView) -> bool {
    &&& after.namespace == before.namespace
    &&& after.instance_id == before.instance_id
    &&& after.bundle == before.bundle
    &&& after.bundle_identity == before.bundle_identity
    &&& after.created_at_ms == before.created_at_ms
    &&& after.launch_nonce_sha256 == before.launch_nonce_sha256
    &&& after.expected_server_path == before.expected_server_path
    &&& after.expected_server_executable == before.expected_server_executable
    &&& after.expected_server_argv == before.expected_server_argv
    &&& after.expected_server_command_sha256 == before.expected_server_command_sha256
    &&& after.helper == before.helper
    &&& after.socket.path == before.socket.path
    &&& after.socket.parent == before.socket.parent
    &&& after.socket.absent_at_prepare == before.socket.absent_at_prepare
}

/// What a change leaves that neither fences nor claims: the owner, the target
/// and the class.
pub open spec fn same_ownership(before: LifecycleRecordView, after: LifecycleRecordView) -> bool {
    &&& same_preparation(before, after)
    &&& after.operation_owner == before.operation_owner
    &&& after.target == before.target
    &&& after.classification == before.classification
    &&& after.vmm_worker == before.vmm_worker
    &&& after.create_fingerprint == before.create_fingerprint
    &&& after.takeover_claimed_at_ms == before.takeover_claimed_at_ms
}

/// What a fence does: the epoch of the running operation is revoked and the
/// next one begins, under the same owner; its target, class and Create stay.
pub open spec fn fences(before: LifecycleRecordView, after: LifecycleRecordView) -> bool {
    &&& same_preparation(before, after)
    &&& after.operation_owner.epoch == before.operation_owner.epoch + 1
    &&& after.operation_owner.revoked_epoch == Some(before.operation_owner.epoch)
    &&& after.operation_owner.kind == before.operation_owner.kind
    &&& after.operation_owner.identity == before.operation_owner.identity
    &&& after.target == before.target
    &&& after.classification == before.classification
    &&& after.vmm_worker == before.vmm_worker
    &&& after.server == before.server
    &&& after.socket == before.socket
    &&& after.create_fingerprint == before.create_fingerprint
    &&& after.create_waiters == before.create_waiters
    &&& after.takeover_claimed_at_ms == before.takeover_claimed_at_ms
    &&& after.sequence == before.sequence + 1
}

/// A Create in progress can always be failed, once: its failure is kept with
/// its code, its message, its moment and those who wait for it, and nothing
/// else of the lifecycle changes. Publishing the same failure again changes
/// nothing, and no other failure replaces it.
pub proof fn law_running_create_fails_once(
    record: LifecycleRecordView,
    code: Seq<char>,
    message: Seq<char>,
    other_code: Seq<char>,
    other_message: Seq<char>,
    now: u128,
    later: Result<u128, String>,
)
    requires
        movable(record),
        record.sequence < u64::MAX - 1,
        record.phase == LifecyclePhase::TakeoverClaimed || record.phase
            == LifecyclePhase::ContainerdCommitted,
        record.create_state == CreateState::InProgress,
    ensures
        create_failure(record, code, message, Ok(now)) is Ok,
        ({
            let next = create_failure(record, code, message, Ok(now))->Ok_0;
            &&& next.create_state == CreateState::Failed
            &&& next.failure is Some
            &&& next.failure->0.code == code
            &&& next.failure->0.message == message
            &&& next.failure->0.published_at_ms == now
            &&& next.failure->0.waiter_count == record.create_waiters
            &&& !next.failure->0.drained
            &&& next.phase == record.phase
            &&& next.create_waiters == record.create_waiters
            &&& next.server == record.server
            &&& next.sequence == record.sequence + 1
            &&& same_ownership(record, next)
            &&& create_failure(next, code, message, later) matches Ok(again) && only_counted(
                next,
                again,
            )
            &&& other_code != code || other_message != message ==> create_failure(
                next,
                other_code,
                other_message,
                later,
            ) is Err
        }),
{
}

/// Only a claimed lifecycle whose Create runs, or has failed so, takes a
/// failure.
pub proof fn law_failures_need_a_running_create(
    record: LifecycleRecordView,
    code: Seq<char>,
    message: Seq<char>,
    now: Result<u128, String>,
)
    requires
        (record.phase != LifecyclePhase::TakeoverClaimed && record.phase
            != LifecyclePhase::ContainerdCommitted) || record.create_state
            == CreateState::Unstarted || record.create_state == CreateState::Succeeded,
    ensures
        create_failure(record, code, message, now) is Err,
{
}

/// Each waiter leaves once: the number of waiters goes down by one, the last
/// one drains the failure, and the others do not.
pub proof fn law_last_waiter_drains_the_failure(record: LifecycleRecordView)
    requires
        movable(record),
    ensures
        record.create_waiters == 0 ==> waiter_departure(record) is Err,
        record.create_waiters > 0 ==> (waiter_departure(record) matches Ok(next)
            && next.create_waiters == record.create_waiters - 1 && next.create_state
            == record.create_state && next.phase == record.phase && next.server == record.server
            && same_ownership(record, next) && (next.failure is Some <==> record.failure is Some)
            && (record.failure is Some ==> next.failure->0.code == record.failure->0.code
            && next.failure->0.message == record.failure->0.message
            && next.failure->0.published_at_ms == record.failure->0.published_at_ms
            && next.failure->0.waiter_count == record.failure->0.waiter_count && (
        next.failure->0.drained <==> (record.failure->0.drained || record.create_waiters == 1)))),
{
}

/// Cleanup is owed to every lifecycle that is not done: one that no Create runs
/// in is fenced for cleanup at once, one whose Create runs has it failed and
/// fenced first, one whose Create failed waits until the failure is drained or
/// thirty seconds old, and one that is cleaned up already goes on.
pub proof fn law_cleanup_is_owed(record: LifecycleRecordView, reason: Seq<char>, now: u128)
    requires
        movable(record),
        record.create_state == CreateState::Failed ==> record.failure is Some,
    ensures
        cleanup_request(record, reason, Ok(now)) is Ok,
        ({
            let next = cleanup_request(record, reason, Ok(now))->Ok_0;
            let claimed = record.phase == LifecyclePhase::TakeoverClaimed || record.phase
                == LifecyclePhase::ContainerdCommitted;
            let over = record.phase == LifecyclePhase::CleanupRequired || record.phase
                == LifecyclePhase::CleanupOwnersDurable || record.phase
                == LifecyclePhase::ServerStopped || record.phase == LifecyclePhase::Done;
            let taken = record.failure is Some && (record.failure->0.drained || now
                - record.failure->0.published_at_ms >= 30_000);
            &&& over ==> only_counted(record, next)
            &&& claimed && record.create_state == CreateState::InProgress ==> {
                &&& fences(record, next)
                &&& next.phase == record.phase
                &&& next.create_state == CreateState::Failed
                &&& next.failure is Some
                &&& next.failure->0.code == "CANCELLED"@
                &&& next.failure->0.message == reason
                &&& next.failure->0.published_at_ms == now
                &&& next.failure->0.waiter_count == record.create_waiters
                &&& (next.failure->0.drained <==> record.create_waiters == 0)
            }
            &&& claimed && record.create_state == CreateState::Failed && !taken ==> only_counted(
                record,
                next,
            )
            &&& !over && !(claimed && record.create_state == CreateState::InProgress) && !(claimed
                && record.create_state == CreateState::Failed && !taken) ==> {
                &&& fences(record, next)
                &&& next.phase == LifecyclePhase::CleanupRequired
                &&& next.create_state == record.create_state
                &&& next.failure == record.failure
            }
        }),
{
}

/// A lifecycle that cannot go on, and one whose process left its target, are
/// fenced for cleanup whatever their Create does, and why is kept: the first
/// reason and the first breach stay.
pub proof fn law_degraded_lifecycles_are_cleaned_up(
    record: LifecycleRecordView,
    reason: Seq<char>,
    breach: ContainmentIdentityView,
)
    requires
        movable(record),
        record.phase == LifecyclePhase::Prepared || record.phase
            == LifecyclePhase::ServerIdentified || record.phase == LifecyclePhase::SocketReady
            || record.phase == LifecyclePhase::TakeoverClaimed || record.phase
            == LifecyclePhase::ContainerdCommitted,
    ensures
        degraded_cleanup(record, reason) matches Ok(next) && fences(record, next) && next.phase
            == LifecyclePhase::CleanupRequired && next.create_state == record.create_state
            && next.failure == record.failure && next.containment_breach
            == record.containment_breach && next.degraded_reason == (match record.degraded_reason {
            Some(first) => Some(first),
            None => Some(reason),
        }),
        containment_cleanup(record, breach) matches Ok(next) && fences(record, next) && next.phase
            == LifecyclePhase::CleanupRequired && next.create_state == record.create_state
            && next.failure == record.failure && next.degraded_reason == record.degraded_reason
            && next.containment_breach == (match record.containment_breach {
            Some(first) => Some(first),
            None => Some(breach),
        }),
{
}

/// The server that a helper launched is registered once, from then on only it:
/// a prepared lifecycle takes the process with the launch's nonce, executable,
/// command, directory and cgroup, takes it again without a change, and takes no
/// other.
pub proof fn law_launched_server_is_registered_once(
    record: LifecycleRecordView,
    identity: ProcessIdentityView,
    other: ProcessIdentityView,
    nonce_hash: Seq<char>,
    path: String,
)
    requires
        movable(record),
        record.phase == LifecyclePhase::Prepared,
        record.server is None,
        record.launch_nonce_sha256 == nonce_hash,
        identity.launch_nonce_sha256 == Some(nonce_hash),
        identity.executable == record.expected_server_executable,
        identity.command_sha256 == record.expected_server_command_sha256,
        identity.cwd == record.bundle_identity,
        identity.cgroup == record.target.location(),
        crate::paths::same_path_spec(path@, record.expected_server_path),
    ensures
        server_registration(record, identity, nonce_hash, Ok(path)) matches Ok(Some(_)),
        ({
            let next = server_registration(record, identity, nonce_hash, Ok(path))->Ok_0->0;
            &&& next.server == Some(identity)
            &&& next.phase == LifecyclePhase::ServerIdentified
            &&& next.sequence == record.sequence + 1
            &&& next.create_state == record.create_state
            &&& next.failure == record.failure
            &&& same_ownership(record, next)
            &&& server_registration(next, identity, nonce_hash, Ok(path)) matches Ok(None)
            &&& !crate::identity::same_process(identity, other) ==> server_registration(
                next,
                other,
                nonce_hash,
                Ok(path),
            ) is Err
        }),
{
    crate::identity::law_same_process_is_an_equivalence(identity, identity, identity);
}

/// A process that differs from the launch in its nonce, its executable, its
/// command, its directory or its executable's path is no server of it.
pub proof fn law_foreign_server_is_not_registered(
    record: LifecycleRecordView,
    identity: ProcessIdentityView,
    nonce_hash: Seq<char>,
    path: String,
)
    requires
        record.launch_nonce_sha256 != nonce_hash || identity.launch_nonce_sha256 != Some(nonce_hash)
            || identity.executable != record.expected_server_executable || identity.command_sha256
            != record.expected_server_command_sha256 || identity.cwd != record.bundle_identity
            || !crate::paths::same_path_spec(path@, record.expected_server_path) || (
        record.server is None && (record.phase != LifecyclePhase::Prepared || identity.cgroup
            != record.target.location())),
    ensures
        server_registration(record, identity, nonce_hash, Ok(path)) is Err,
{
}

/// The socket that the registered server bound at the prepared path makes the
/// lifecycle ready, and its identity is kept; it may be bound again.
pub proof fn law_bound_socket_makes_ready(record: LifecycleRecordView, seen: SocketSighting)
    requires
        movable(record),
    ensures
        seen.is_socket && (record.phase == LifecyclePhase::ServerIdentified || record.phase
            == LifecyclePhase::SocketReady) && seen.path@ == record.socket.path && seen.parent
            == Ok::<FileIdentity, String>(record.socket.parent) ==> (socket_readiness(
            record,
            seen,
        ) matches Ok(next) && next.phase == LifecyclePhase::SocketReady && next.socket.device
            == Some(seen.device) && next.socket.inode == Some(seen.inode) && next.server
            == record.server && next.create_state == record.create_state && same_ownership(
            record,
            next,
        )),
        !seen.is_socket || (record.phase != LifecyclePhase::ServerIdentified && record.phase
            != LifecyclePhase::SocketReady) || seen.path@ != record.socket.path || seen.parent
            != Ok::<FileIdentity, String>(record.socket.parent) ==> socket_readiness(
            record,
            seen,
        ) is Err,
{
}

/// A Create that ran to its end is recorded as a success, once: a task's as it
/// is, a managed sandbox's only where its controllers are committed and every
/// one is seen at its target. It is then the durable result.
pub proof fn law_finished_create_succeeds_once(
    state: LifecycleView,
    seen: TargetSighting,
    readings: Seq<Result<Seq<char>, Seq<char>>>,
)
    requires
        movable(state.record),
        state.record.phase == LifecyclePhase::ContainerdCommitted,
        state.record.create_state == CreateState::InProgress,
    ensures
        state.record.classification != Classification::ManagedSandbox ==> create_success(
            state,
            seen,
            readings,
        ) matches Ok(Some(_)),
        state.record.classification == Classification::ManagedSandbox && (
        state.host_owner.controllers is None || state.host_owner.controllers->0.state
            != crate::record::ControllerTransactionState::ControllersCommitted
            || state.record.target.leaf() is None || state.host_owner.generation
            != state.record.generation || state.host_owner.target != state.record.target)
            ==> create_success(state, seen, readings) is Err,
        create_success(state, seen, readings) matches Ok(next) ==> {
            &&& next is Some
            &&& next->0.create_state == CreateState::Succeeded
            &&& next->0.failure is None
            &&& next->0.phase == LifecyclePhase::ContainerdCommitted
            &&& next->0.create_waiters == state.record.create_waiters
            &&& next->0.server == state.record.server
            &&& same_ownership(state.record, next->0)
            &&& crate::lifecycle::create_result(next->0) matches Ok(Some(result))
                && result is Succeeded
            &&& create_success(LifecycleView { record: next->0, ..state }, seen, readings)
                matches Ok(None)
        },
{
}

/// The durable result of a Create is what was published: a success, or the
/// failure with its code and its message; while the Create runs there is none.
pub proof fn law_durable_result_is_what_was_published(record: LifecycleRecordView)
    requires
        record.schema_version == 2,
        record.generation.len() > 0,
    ensures
        record.create_state == CreateState::Succeeded ==> (crate::lifecycle::create_result(
            record,
        ) matches Ok(Some(crate::lifecycle::PersistedCreateResultView::Succeeded))),
        record.create_state == CreateState::Failed && record.failure is Some ==> (
        crate::lifecycle::create_result(record) matches Ok(
            Some(crate::lifecycle::PersistedCreateResultView::Failed { code, message }),
        ) && code == record.failure->0.code && message == record.failure->0.message),
        record.create_state == CreateState::InProgress ==> (crate::lifecycle::create_result(
            record,
        ) matches Ok(None)),
        record.create_state == CreateState::Unstarted ==> crate::lifecycle::create_result(
            record,
        ) is Err,
{
}

/// A phase is left only for the phase after it: a cleanup whose owners are
/// durable stops its server, a stopped one is done, and any other phase stays.
pub proof fn law_cleanup_phases_follow_each_other(record: LifecycleRecordView)
    requires
        movable(record),
    ensures
        phase_advance(
            record,
            LifecyclePhase::CleanupOwnersDurable,
            LifecyclePhase::ServerStopped,
        ) matches Ok(next) && (if record.phase == LifecyclePhase::CleanupOwnersDurable {
            next.phase == LifecyclePhase::ServerStopped && next.sequence == record.sequence + 1
                && next.create_state == record.create_state && same_ownership(record, next)
        } else {
            only_counted(record, next)
        }),
        phase_advance(record, LifecyclePhase::ServerStopped, LifecyclePhase::Done) matches Ok(next)
            && (if record.phase == LifecyclePhase::ServerStopped {
            next.phase == LifecyclePhase::Done && next.sequence == record.sequence + 1
                && next.create_state == record.create_state && same_ownership(record, next)
        } else {
            only_counted(record, next)
        }),
{
}

/// A record of another schema or without a generation is never changed.
pub proof fn law_unusable_records_are_not_changed(
    state: LifecycleView,
    snapshot: LifecycleRecordView,
    code: Seq<char>,
    message: Seq<char>,
    reason: Seq<char>,
    observed: Option<ContainmentIdentityView>,
    breach: ContainmentIdentityView,
    now: Result<u128, String>,
    seen: TargetSighting,
    readings: Seq<Result<Seq<char>, Seq<char>>>,
    socket: SocketSighting,
    identity: ProcessIdentityView,
    nonce_hash: Seq<char>,
    executable: Result<String, String>,
)
    requires
        state.record.schema_version != 2 || state.record.generation.len() == 0,
    ensures
        create_failure(state.record, code, message, now) is Err,
        create_success(state, seen, readings) is Err,
        waiter_departure(state.record) is Err,
        cleanup_request(state.record, reason, now) is Err,
        scanner_failure(state.record, snapshot, code, message, observed, now) is Err,
        scanner_cleanup(state.record, snapshot, observed, now) is Err,
        degraded_cleanup(state.record, reason) is Err,
        containment_cleanup(state.record, breach) is Err,
        socket_readiness(state.record, socket) is Err,
        server_registration(state.record, identity, nonce_hash, executable) is Err,
{
}

/// The leaf of a target is recorded with the record and with the Host owner,
/// and nothing else of either changes.
pub proof fn law_leaf_is_recorded_with_both(
    before: LifecycleView,
    after: LifecycleView,
    r: Result<(), String>,
    identity: FileIdentity,
)
    requires
        movable(before.record),
        before.host_owner.schema_version == 2,
        before.host_owner.generation == before.record.generation,
        before.host_owner.target == before.record.target,
        before.record.target is Systemd || before.record.target is Cgroupfs,
        crate::lifecycle::leaf_recorded(before, after, r, identity),
    ensures
        r is Ok,
        after.record.target.leaf() == Some(identity),
        after.host_owner.target == after.record.target,
        after.record.target.location() == before.record.target.location(),
        after.record.phase == before.record.phase,
        after.record.operation_owner == before.record.operation_owner,
        after.record.create_state == before.record.create_state,
        same_preparation(before.record, after.record),
        after.host_owner.state == before.host_owner.state,
        after.host_owner.server == before.host_owner.server,
        after.host_owner.controllers == before.host_owner.controllers,
        after.host_owner.original_cgroup == before.host_owner.original_cgroup,
        after.runtime_owner == before.runtime_owner,
{
}

/// The Create of a managed sandbox succeeds where its controllers are committed
/// and read back as they were set, in the recorded leaf, for the owner and the
/// server of the record; where any of this does not hold, it does not.
pub proof fn law_committed_managed_create_succeeds(
    state: LifecycleView,
    journal: crate::record::ControllerJournalView,
    seen: TargetSighting,
    readings: Seq<Result<Seq<char>, Seq<char>>>,
)
    requires
        movable(state.record),
        state.record.phase == LifecyclePhase::ContainerdCommitted,
        state.record.create_state == CreateState::InProgress,
        state.record.classification == Classification::ManagedSandbox,
        state.host_owner.controllers == Some(journal),
        readings.len() == journal.steps.len(),
    ensures
        (create_success(state, seen, readings) is Ok) == (state.host_owner.generation.len() > 0
            && crate::controllers::host_owner_matches(state.host_owner, state.record)
            && journal.state == crate::record::ControllerTransactionState::ControllersCommitted
            && state.record.target.leaf() is Some && seen.parent == Ok::<
            crate::identity::FileIdentity,
            String,
        >(state.record.target.parent()->0) && seen.leaf == Ok::<
            crate::identity::FileIdentity,
            String,
        >(state.record.target.leaf()->0) && forall|i: int|
            0 <= i < journal.steps.len() ==> #[trigger] readings[i] == Ok::<Seq<char>, Seq<char>>(
                journal.steps[i].target,
            )),
{
    crate::controllers::law_exact_readback_is_recognised(journal.steps, readings);
    crate::target::law_drift_is_noticed(state.record.target, seen);
}

/// A Create succeeds only after its commit; one that has succeeded stays so, and
/// one that has failed or not begun does not succeed.
pub proof fn law_only_a_running_create_succeeds(
    state: LifecycleView,
    seen: TargetSighting,
    readings: Seq<Result<Seq<char>, Seq<char>>>,
)
    ensures
        state.record.phase != LifecyclePhase::ContainerdCommitted ==> create_success(
            state,
            seen,
            readings,
        ) is Err,
        state.record.create_state == CreateState::Failed || state.record.create_state
            == CreateState::Unstarted ==> create_success(state, seen, readings) is Err,
        movable(state.record) && state.record.phase == LifecyclePhase::ContainerdCommitted
            && state.record.create_state == CreateState::Succeeded ==> create_success(
            state,
            seen,
            readings,
        ) == Ok::<Option<LifecycleRecordView>, Seq<char>>(None),
{
}

} // verus!
