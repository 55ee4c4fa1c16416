//! The durable records of a lifecycle and of the resources it owns.
use vstd::prelude::*;

use crate::identity::{
    clone_opt_text, ContainmentIdentity, ContainmentIdentityView, FailureResult, FailureResultView,
    FileIdentity, OperationOwner, OperationOwnerView, ProcessIdentity, ProcessIdentityView,
    SocketIdentity, SocketIdentityView, VmmWorkerRecord, VmmWorkerRecordView,
};
use crate::target::{HostTarget, HostTargetView};
use crate::text::{opt_text_same, opt_view, text_eq, views};

verus! {

/// The version of the durable records.
pub const SCHEMA_VERSION: u32 = 2;

/// The version of the controller journal.
pub const JOURNAL_VERSION: u32 = 1;

/// Clones a list of texts.
pub fn clone_texts(texts: &Vec<String>) -> (copy: Vec<String>)
    ensures
        views(copy@) == views(texts@),
        copy@ == texts@,
{
    let mut copy: Vec<String> = Vec::new();
    let mut i: usize = 0;
    while i < texts.len()
        invariant
            i <= texts.len(),
            copy@ == texts@.take(i as int),
        decreases texts.len() - i,
    {
        copy.push(texts[i].clone());
        i = i + 1;
        assert(copy@ =~= texts@.take(i as int));
    }
    assert(texts@.take(i as int) =~= texts@);
    copy
}

/// Whether two lists hold the same texts.
pub fn texts_same(left: &Vec<String>, right: &Vec<String>) -> (same: bool)
    ensures
        same == (views(left@) == views(right@)),
{
    if left.len() != right.len() {
        assert(views(left@).len() != views(right@).len());
        return false;
    }
    let mut i: usize = 0;
    while i < left.len()
        invariant
            left.len() == right.len(),
            i <= left.len(),
            forall|k: int| 0 <= k < i ==> left@[k]@ == right@[k]@,
        decreases left.len() - i,
    {
        if !text_eq(left[i].as_str(), right[i].as_str()) {
            assert(views(left@)[i as int] != views(right@)[i as int]);
            return false;
        }
        i = i + 1;
    }
    assert(views(left@) =~= views(right@));
    true
}

/// What kind of lifecycle a bundle belongs to.
#[derive(Clone, Copy, Debug, PartialEq, Eq, Structural)]
pub enum Classification {
    Pending,
    ManagedSandbox,
    LegacyTask,
}

impl Classification {
    /// The name of the value in messages.
    pub open spec fn label(self) -> Seq<char> {
        match self {
            Classification::Pending => "Pending"@,
            Classification::ManagedSandbox => "ManagedSandbox"@,
            Classification::LegacyTask => "LegacyTask"@,
        }
    }

    /// The name of the value in messages.
    pub fn name(&self) -> (text: &'static str)
        ensures
            text@ == self.label(),
    {
        match self {
            Classification::Pending => "Pending",
            Classification::ManagedSandbox => "ManagedSandbox",
            Classification::LegacyTask => "LegacyTask",
        }
    }
}

/// How far a lifecycle has come.
#[derive(Clone, Copy, Debug, PartialEq, Eq, Structural)]
pub enum LifecyclePhase {
    Prepared,
    ServerIdentified,
    SocketReady,
    TakeoverClaimed,
    ContainerdCommitted,
    CleanupRequired,
    CleanupOwnersDurable,
    ServerStopped,
    Done,
}

impl LifecyclePhase {
    /// The name of the value in messages.
    pub open spec fn label(self) -> Seq<char> {
        match self {
            LifecyclePhase::Prepared => "Prepared"@,
            LifecyclePhase::ServerIdentified => "ServerIdentified"@,
            LifecyclePhase::SocketReady => "SocketReady"@,
            LifecyclePhase::TakeoverClaimed => "TakeoverClaimed"@,
            LifecyclePhase::ContainerdCommitted => "ContainerdCommitted"@,
            LifecyclePhase::CleanupRequired => "CleanupRequired"@,
            LifecyclePhase::CleanupOwnersDurable => "CleanupOwnersDurable"@,
            LifecyclePhase::ServerStopped => "ServerStopped"@,
            LifecyclePhase::Done => "Done"@,
        }
    }

    /// The name of the value in messages.
    pub fn name(&self) -> (text: &'static str)
        ensures
            text@ == self.label(),
    {
        match self {
            LifecyclePhase::Prepared => "Prepared",
            LifecyclePhase::ServerIdentified => "ServerIdentified",
            LifecyclePhase::SocketReady => "SocketReady",
            LifecyclePhase::TakeoverClaimed => "TakeoverClaimed",
            LifecyclePhase::ContainerdCommitted => "ContainerdCommitted",
            LifecyclePhase::CleanupRequired => "CleanupRequired",
            LifecyclePhase::CleanupOwnersDurable => "CleanupOwnersDurable",
            LifecyclePhase::ServerStopped => "ServerStopped",
            LifecyclePhase::Done => "Done",
        }
    }
}

/// The order of the phases.
pub open spec fn rank(phase: LifecyclePhase) -> int {
    match phase {
        LifecyclePhase::Prepared => 0,
        LifecyclePhase::ServerIdentified => 1,
        LifecyclePhase::SocketReady => 2,
        LifecyclePhase::TakeoverClaimed => 3,
        LifecyclePhase::ContainerdCommitted => 4,
        LifecyclePhase::CleanupRequired => 5,
        LifecyclePhase::CleanupOwnersDurable => 6,
        LifecyclePhase::ServerStopped => 7,
        LifecyclePhase::Done => 8,
    }
}

/// The place of a phase in the order of phases.
pub fn phase_rank(phase: LifecyclePhase) -> (r: u8)
    ensures
        r == rank(phase),
{
    match phase {
        LifecyclePhase::Prepared => 0,
        LifecyclePhase::ServerIdentified => 1,
        LifecyclePhase::SocketReady => 2,
        LifecyclePhase::TakeoverClaimed => 3,
        LifecyclePhase::ContainerdCommitted => 4,
        LifecyclePhase::CleanupRequired => 5,
        LifecyclePhase::CleanupOwnersDurable => 6,
        LifecyclePhase::ServerStopped => 7,
        LifecyclePhase::Done => 8,
    }
}

/// Phases of equal rank are equal.
pub proof fn law_rank_is_injective(a: LifecyclePhase, b: LifecyclePhase)
    requires
        rank(a) == rank(b),
    ensures
        a == b,
{
}

/// The state of the Create operation of a lifecycle.
#[derive(Clone, Copy, Debug, PartialEq, Eq, Structural)]
pub enum CreateState {
    Unstarted,
    InProgress,
    Succeeded,
    Failed,
}

impl CreateState {
    /// The name of the value in messages.
    pub open spec fn label(self) -> Seq<char> {
        match self {
            CreateState::Unstarted => "None"@,
            CreateState::InProgress => "InProgress"@,
            CreateState::Succeeded => "Succeeded"@,
            CreateState::Failed => "Failed"@,
        }
    }

    /// The name of the value in messages.
    pub fn name(&self) -> (text: &'static str)
        ensures
            text@ == self.label(),
    {
        match self {
            CreateState::Unstarted => "None",
            CreateState::InProgress => "InProgress",
            CreateState::Succeeded => "Succeeded",
            CreateState::Failed => "Failed",
        }
    }
}

/// The durable record of one lifecycle.
#[derive(Debug, PartialEq, Eq)]
pub struct LifecycleRecord {
    pub schema_version: u32,
    /// Grows by one with every durable change.
    pub sequence: u64,
    pub generation: String,
    pub phase: LifecyclePhase,
    pub classification: Classification,
    pub namespace: String,
    pub instance_id: String,
    pub bundle: String,
    pub bundle_identity: FileIdentity,
    pub created_at_ms: u128,
    pub takeover_claimed_at_ms: Option<u128>,
    pub launch_nonce_sha256: String,
    pub expected_server_path: String,
    pub expected_server_executable: FileIdentity,
    pub expected_server_argv: Vec<String>,
    pub expected_server_command_sha256: String,
    pub helper: ProcessIdentity,
    pub server: Option<ProcessIdentity>,
    pub target: HostTarget,
    pub socket: SocketIdentity,
    pub operation_owner: OperationOwner,
    pub create_state: CreateState,
    pub create_fingerprint: Option<String>,
    pub create_waiters: u32,
    pub failure: Option<FailureResult>,
    pub containment_breach: Option<ContainmentIdentity>,
    pub vmm_worker: Option<VmmWorkerRecord>,
    pub degraded_reason: Option<String>,
}

/// The contents of a [`LifecycleRecord`].
pub struct LifecycleRecordView {
    pub schema_version: u32,
    pub sequence: u64,
    pub generation: Seq<char>,
    pub phase: LifecyclePhase,
    pub classification: Classification,
    pub namespace: Seq<char>,
    pub instance_id: Seq<char>,
    pub bundle: Seq<char>,
    pub bundle_identity: FileIdentity,
    pub created_at_ms: u128,
    pub takeover_claimed_at_ms: Option<u128>,
    pub launch_nonce_sha256: Seq<char>,
    pub expected_server_path: Seq<char>,
    pub expected_server_executable: FileIdentity,
    pub expected_server_argv: Seq<Seq<char>>,
    pub expected_server_command_sha256: Seq<char>,
    pub helper: ProcessIdentityView,
    pub server: Option<ProcessIdentityView>,
    pub target: HostTargetView,
    pub socket: SocketIdentityView,
    pub operation_owner: OperationOwnerView,
    pub create_state: CreateState,
    pub create_fingerprint: Option<Seq<char>>,
    pub create_waiters: u32,
    pub failure: Option<FailureResultView>,
    pub containment_breach: Option<ContainmentIdentityView>,
    pub vmm_worker: Option<VmmWorkerRecordView>,
    pub degraded_reason: Option<Seq<char>>,
}

impl View for LifecycleRecord {
    type V = LifecycleRecordView;

    open spec fn view(&self) -> LifecycleRecordView {
        LifecycleRecordView {
            schema_version: self.schema_version,
            sequence: self.sequence,
            generation: self.generation@,
            phase: self.phase,
            classification: self.classification,
            namespace: self.namespace@,
            instance_id: self.instance_id@,
            bundle: self.bundle@,
            bundle_identity: self.bundle_identity,
            created_at_ms: self.created_at_ms,
            takeover_claimed_at_ms: self.takeover_claimed_at_ms,
            launch_nonce_sha256: self.launch_nonce_sha256@,
            expected_server_path: self.expected_server_path@,
            expected_server_executable: self.expected_server_executable,
            expected_server_argv: views(self.expected_server_argv@),
            expected_server_command_sha256: self.expected_server_command_sha256@,
            helper: self.helper@,
            server: match self.server {
                Some(value) => Some(value@),
                None => None,
            },
            target: self.target@,
            socket: self.socket@,
            operation_owner: self.operation_owner@,
            create_state: self.create_state,
            create_fingerprint: opt_view(self.create_fingerprint),
            create_waiters: self.create_waiters,
            failure: match self.failure {
                Some(value) => Some(value@),
                None => None,
            },
            containment_breach: match self.containment_breach {
                Some(value) => Some(value@),
                None => None,
            },
            vmm_worker: match self.vmm_worker {
                Some(value) => Some(value@),
                None => None,
            },
            degraded_reason: opt_view(self.degraded_reason),
        }
    }
}

impl Clone for LifecycleRecord {
    fn clone(&self) -> (copy: Self)
        ensures
            copy@ == self@,
    {
        LifecycleRecord {
            schema_version: self.schema_version,
            sequence: self.sequence,
            generation: self.generation.clone(),
            phase: self.phase,
            classification: self.classification,
            namespace: self.namespace.clone(),
            instance_id: self.instance_id.clone(),
            bundle: self.bundle.clone(),
            bundle_identity: self.bundle_identity,
            created_at_ms: self.created_at_ms,
            takeover_claimed_at_ms: self.takeover_claimed_at_ms,
            launch_nonce_sha256: self.launch_nonce_sha256.clone(),
            expected_server_path: self.expected_server_path.clone(),
            expected_server_executable: self.expected_server_executable,
            expected_server_argv: clone_texts(&self.expected_server_argv),
            expected_server_command_sha256: self.expected_server_command_sha256.clone(),
            helper: self.helper.clone(),
            server: match &self.server {
                Some(value) => Some(value.clone()),
                None => None,
            },
            target: self.target.clone(),
            socket: self.socket.clone(),
            operation_owner: self.operation_owner.clone(),
            create_state: self.create_state,
            create_fingerprint: clone_opt_text(&self.create_fingerprint),
            create_waiters: self.create_waiters,
            failure: match &self.failure {
                Some(value) => Some(value.clone()),
                None => None,
            },
            containment_breach: match &self.containment_breach {
                Some(value) => Some(value.clone()),
                None => None,
            },
            vmm_worker: match &self.vmm_worker {
                Some(value) => Some(value.clone()),
                None => None,
            },
            degraded_reason: clone_opt_text(&self.degraded_reason),
        }
    }
}

impl LifecycleRecord {
    /// Whether two values have the same contents.
    pub fn same(&self, other: &Self) -> (same: bool)
        ensures
            same == (self@ == other@),
    {
        self.schema_version == other.schema_version
            && self.sequence == other.sequence
            && text_eq(self.generation.as_str(), other.generation.as_str())
            && self.phase == other.phase
            && self.classification == other.classification
            && text_eq(self.namespace.as_str(), other.namespace.as_str())
            && text_eq(self.instance_id.as_str(), other.instance_id.as_str())
            && text_eq(self.bundle.as_str(), other.bundle.as_str())
            && self.bundle_identity == other.bundle_identity
            && self.created_at_ms == other.created_at_ms
            && self.takeover_claimed_at_ms == other.takeover_claimed_at_ms
            && text_eq(self.launch_nonce_sha256.as_str(), other.launch_nonce_sha256.as_str())
            && text_eq(self.expected_server_path.as_str(), other.expected_server_path.as_str())
            && self.expected_server_executable == other.expected_server_executable
            && texts_same(&self.expected_server_argv, &other.expected_server_argv)
            && text_eq(self.expected_server_command_sha256.as_str(), other.expected_server_command_sha256.as_str())
            && self.helper.same(&other.helper)
            && (match (&self.server, &other.server) {
            (Some(left), Some(right)) => left.same(right),
            (None, None) => true,
            _ => false,
        })
            && self.target.same(&other.target)
            && self.socket.same(&other.socket)
            && self.operation_owner.same(&other.operation_owner)
            && self.create_state == other.create_state
            && opt_text_same(&self.create_fingerprint, &other.create_fingerprint)
            && self.create_waiters == other.create_waiters
            && (match (&self.failure, &other.failure) {
            (Some(left), Some(right)) => left.same(right),
            (None, None) => true,
            _ => false,
        })
            && (match (&self.containment_breach, &other.containment_breach) {
            (Some(left), Some(right)) => left.same(right),
            (None, None) => true,
            _ => false,
        })
            && (match (&self.vmm_worker, &other.vmm_worker) {
            (Some(left), Some(right)) => left.same(right),
            (None, None) => true,
            _ => false,
        })
            && opt_text_same(&self.degraded_reason, &other.degraded_reason)
    }
}

/// Whether the Host cgroup of a lifecycle may exist.
#[derive(Clone, Copy, Debug, PartialEq, Eq, Structural)]
pub enum HostOwnerState {
    Empty,
    Intent,
    Allocated,
}

impl HostOwnerState {
    /// The name of the value in messages.
    pub open spec fn label(self) -> Seq<char> {
        match self {
            HostOwnerState::Empty => "Empty"@,
            HostOwnerState::Intent => "Intent"@,
            HostOwnerState::Allocated => "Allocated"@,
        }
    }

    /// The name of the value in messages.
    pub fn name(&self) -> (text: &'static str)
        ensures
            text@ == self.label(),
    {
        match self {
            HostOwnerState::Empty => "Empty",
            HostOwnerState::Intent => "Intent",
            HostOwnerState::Allocated => "Allocated",
        }
    }
}

/// The state of a controller transaction.
#[derive(Clone, Copy, Debug, PartialEq, Eq, Structural)]
pub enum ControllerTransactionState {
    Prepared,
    Applying,
    ControllersCommitted,
    RollingBack,
    Restored,
    Degraded,
    AbandonedForExactDelete,
}

impl ControllerTransactionState {
    /// The name of the value in messages.
    pub open spec fn label(self) -> Seq<char> {
        match self {
            ControllerTransactionState::Prepared => "Prepared"@,
            ControllerTransactionState::Applying => "Applying"@,
            ControllerTransactionState::ControllersCommitted => "ControllersCommitted"@,
            ControllerTransactionState::RollingBack => "RollingBack"@,
            ControllerTransactionState::Restored => "Restored"@,
            ControllerTransactionState::Degraded => "Degraded"@,
            ControllerTransactionState::AbandonedForExactDelete => "AbandonedForExactDelete"@,
        }
    }

    /// The name of the value in messages.
    pub fn name(&self) -> (text: &'static str)
        ensures
            text@ == self.label(),
    {
        match self {
            ControllerTransactionState::Prepared => "Prepared",
            ControllerTransactionState::Applying => "Applying",
            ControllerTransactionState::ControllersCommitted => "ControllersCommitted",
            ControllerTransactionState::RollingBack => "RollingBack",
            ControllerTransactionState::Restored => "Restored",
            ControllerTransactionState::Degraded => "Degraded",
            ControllerTransactionState::AbandonedForExactDelete => "AbandonedForExactDelete",
        }
    }
}

/// The state of one controller write.
#[derive(Clone, Copy, Debug, PartialEq, Eq, Structural)]
pub enum ControllerStepState {
    NotStarted,
    Intent,
    Applied,
    UndoIntent,
    Restored,
}

impl ControllerStepState {
    /// The name of the value in messages.
    pub open spec fn label(self) -> Seq<char> {
        match self {
            ControllerStepState::NotStarted => "NotStarted"@,
            ControllerStepState::Intent => "Intent"@,
            ControllerStepState::Applied => "Applied"@,
            ControllerStepState::UndoIntent => "UndoIntent"@,
            ControllerStepState::Restored => "Restored"@,
        }
    }

    /// The name of the value in messages.
    pub fn name(&self) -> (text: &'static str)
        ensures
            text@ == self.label(),
    {
        match self {
            ControllerStepState::NotStarted => "NotStarted",
            ControllerStepState::Intent => "Intent",
            ControllerStepState::Applied => "Applied",
            ControllerStepState::UndoIntent => "UndoIntent",
            ControllerStepState::Restored => "Restored",
        }
    }
}

/// One controller file, its value before the transaction and its target.
#[derive(Debug, PartialEq, Eq)]
pub struct ControllerStep {
    pub file: String,
    pub old: String,
    pub target: String,
    pub state: ControllerStepState,
    pub observed: Option<String>,
}

/// The contents of a [`ControllerStep`].
pub struct ControllerStepView {
    pub file: Seq<char>,
    pub old: Seq<char>,
    pub target: Seq<char>,
    pub state: ControllerStepState,
    pub observed: Option<Seq<char>>,
}

impl View for ControllerStep {
    type V = ControllerStepView;

    open spec fn view(&self) -> ControllerStepView {
        ControllerStepView {
            file: self.file@,
            old: self.old@,
            target: self.target@,
            state: self.state,
            observed: opt_view(self.observed),
        }
    }
}

impl Clone for ControllerStep {
    fn clone(&self) -> (copy: Self)
        ensures
            copy@ == self@,
            copy == *self,
    {
        ControllerStep {
            file: self.file.clone(),
            old: self.old.clone(),
            target: self.target.clone(),
            state: self.state,
            observed: clone_opt_text(&self.observed),
        }
    }
}

impl ControllerStep {
    /// Whether two values have the same contents.
    pub fn same(&self, other: &Self) -> (same: bool)
        ensures
            same == (self@ == other@),
    {
        text_eq(self.file.as_str(), other.file.as_str())
            && text_eq(self.old.as_str(), other.old.as_str())
            && text_eq(self.target.as_str(), other.target.as_str())
            && self.state == other.state
            && opt_text_same(&self.observed, &other.observed)
    }
}

/// The contents of a list of controller steps.
pub open spec fn step_views(steps: Seq<ControllerStep>) -> Seq<ControllerStepView> {
    steps.map_values(|value: ControllerStep| value@)
}

/// Clones a list of controller steps.
pub fn clone_controller_steps(steps: &Vec<ControllerStep>) -> (copy: Vec<ControllerStep>)
    ensures
        step_views(copy@) == step_views(steps@),
{
    let mut copy: Vec<ControllerStep> = Vec::new();
    let mut i: usize = 0;
    while i < steps.len()
        invariant
            i <= steps.len(),
            copy@ == steps@.take(i as int),
        decreases steps.len() - i,
    {
        copy.push(steps[i].clone());
        i = i + 1;
        assert(copy@ =~= steps@.take(i as int));
    }
    assert(steps@.take(i as int) =~= steps@);
    copy
}

/// Whether two lists hold the same controller steps.
pub fn controller_steps_same(left: &Vec<ControllerStep>, right: &Vec<ControllerStep>) -> (same:
    bool)
    ensures
        same == (step_views(left@) == step_views(right@)),
{
    if left.len() != right.len() {
        assert(step_views(left@).len() != step_views(right@).len());
        return false;
    }
    let mut i: usize = 0;
    while i < left.len()
        invariant
            left.len() == right.len(),
            i <= left.len(),
            forall|k: int| 0 <= k < i ==> left@[k]@ == right@[k]@,
        decreases left.len() - i,
    {
        if !left[i].same(&right[i]) {
            assert(step_views(left@)[i as int] != step_views(right@)[i as int]);
            return false;
        }
        i = i + 1;
    }
    assert(step_views(left@) =~= step_views(right@));
    true
}

/// The durable journal of a controller transaction.
#[derive(Debug, PartialEq, Eq)]
pub struct ControllerJournal {
    pub schema_version: u32,
    pub transaction_id: String,
    pub owner_epoch: u64,
    pub owner_identity: ProcessIdentity,
    pub create_fingerprint: String,
    pub state: ControllerTransactionState,
    pub steps: Vec<ControllerStep>,
    pub degraded_reason: Option<String>,
}

/// The contents of a [`ControllerJournal`].
pub struct ControllerJournalView {
    pub schema_version: u32,
    pub transaction_id: Seq<char>,
    pub owner_epoch: u64,
    pub owner_identity: ProcessIdentityView,
    pub create_fingerprint: Seq<char>,
    pub state: ControllerTransactionState,
    pub steps: Seq<ControllerStepView>,
    pub degraded_reason: Option<Seq<char>>,
}

impl View for ControllerJournal {
    type V = ControllerJournalView;

    open spec fn view(&self) -> ControllerJournalView {
        ControllerJournalView {
            schema_version: self.schema_version,
            transaction_id: self.transaction_id@,
            owner_epoch: self.owner_epoch,
            owner_identity: self.owner_identity@,
            create_fingerprint: self.create_fingerprint@,
            state: self.state,
            steps: step_views(self.steps@),
            degraded_reason: opt_view(self.degraded_reason),
        }
    }
}

impl Clone for ControllerJournal {
    fn clone(&self) -> (copy: Self)
        ensures
            copy@ == self@,
    {
        ControllerJournal {
            schema_version: self.schema_version,
            transaction_id: self.transaction_id.clone(),
            owner_epoch: self.owner_epoch,
            owner_identity: self.owner_identity.clone(),
            create_fingerprint: self.create_fingerprint.clone(),
            state: self.state,
            steps: clone_controller_steps(&self.steps),
            degraded_reason: clone_opt_text(&self.degraded_reason),
        }
    }
}

impl ControllerJournal {
    /// Whether two values have the same contents.
    pub fn same(&self, other: &Self) -> (same: bool)
        ensures
            same == (self@ == other@),
    {
        self.schema_version == other.schema_version
            && text_eq(self.transaction_id.as_str(), other.transaction_id.as_str())
            && self.owner_epoch == other.owner_epoch
            && self.owner_identity.same(&other.owner_identity)
            && text_eq(self.create_fingerprint.as_str(), other.create_fingerprint.as_str())
            && self.state == other.state
            && controller_steps_same(&self.steps, &other.steps)
            && opt_text_same(&self.degraded_reason, &other.degraded_reason)
    }
}

/// The durable owner of the Host cgroup of a lifecycle.
#[derive(Debug, PartialEq, Eq)]
pub struct HostCgroupOwner {
    pub schema_version: u32,
    pub generation: String,
    pub namespace: String,
    pub instance_id: String,
    pub state: HostOwnerState,
    pub target: HostTarget,
    pub original_cgroup: String,
    pub server: Option<ProcessIdentity>,
    pub controllers: Option<ControllerJournal>,
}

/// The contents of a [`HostCgroupOwner`].
pub struct HostCgroupOwnerView {
    pub schema_version: u32,
    pub generation: Seq<char>,
    pub namespace: Seq<char>,
    pub instance_id: Seq<char>,
    pub state: HostOwnerState,
    pub target: HostTargetView,
    pub original_cgroup: Seq<char>,
    pub server: Option<ProcessIdentityView>,
    pub controllers: Option<ControllerJournalView>,
}

impl View for HostCgroupOwner {
    type V = HostCgroupOwnerView;

    open spec fn view(&self) -> HostCgroupOwnerView {
        HostCgroupOwnerView {
            schema_version: self.schema_version,
            generation: self.generation@,
            namespace: self.namespace@,
            instance_id: self.instance_id@,
            state: self.state,
            target: self.target@,
            original_cgroup: self.original_cgroup@,
            server: match self.server {
                Some(value) => Some(value@),
                None => None,
            },
            controllers: match self.controllers {
                Some(value) => Some(value@),
                None => None,
            },
        }
    }
}

impl Clone for HostCgroupOwner {
    fn clone(&self) -> (copy: Self)
        ensures
            copy@ == self@,
    {
        HostCgroupOwner {
            schema_version: self.schema_version,
            generation: self.generation.clone(),
            namespace: self.namespace.clone(),
            instance_id: self.instance_id.clone(),
            state: self.state,
            target: self.target.clone(),
            original_cgroup: self.original_cgroup.clone(),
            server: match &self.server {
                Some(value) => Some(value.clone()),
                None => None,
            },
            controllers: match &self.controllers {
                Some(value) => Some(value.clone()),
                None => None,
            },
        }
    }
}

impl HostCgroupOwner {
    /// Whether two values have the same contents.
    pub fn same(&self, other: &Self) -> (same: bool)
        ensures
            same == (self@ == other@),
    {
        self.schema_version == other.schema_version
            && text_eq(self.generation.as_str(), other.generation.as_str())
            && text_eq(self.namespace.as_str(), other.namespace.as_str())
            && text_eq(self.instance_id.as_str(), other.instance_id.as_str())
            && self.state == other.state
            && self.target.same(&other.target)
            && text_eq(self.original_cgroup.as_str(), other.original_cgroup.as_str())
            && (match (&self.server, &other.server) {
            (Some(left), Some(right)) => left.same(right),
            (None, None) => true,
            _ => false,
        })
            && (match (&self.controllers, &other.controllers) {
            (Some(left), Some(right)) => left.same(right),
            (None, None) => true,
            _ => false,
        })
    }
}

/// Whether the runtime lease of a lifecycle may exist.
#[derive(Clone, Copy, Debug, PartialEq, Eq, Structural)]
pub enum RuntimeOwnerState {
    Empty,
    Intent,
    Allocated,
    Released,
}

impl RuntimeOwnerState {
    /// The name of the value in messages.
    pub open spec fn label(self) -> Seq<char> {
        match self {
            RuntimeOwnerState::Empty => "Empty"@,
            RuntimeOwnerState::Intent => "Intent"@,
            RuntimeOwnerState::Allocated => "Allocated"@,
            RuntimeOwnerState::Released => "Released"@,
        }
    }

    /// The name of the value in messages.
    pub fn name(&self) -> (text: &'static str)
        ensures
            text@ == self.label(),
    {
        match self {
            RuntimeOwnerState::Empty => "Empty",
            RuntimeOwnerState::Intent => "Intent",
            RuntimeOwnerState::Allocated => "Allocated",
            RuntimeOwnerState::Released => "Released",
        }
    }
}

/// Whether a resource that a start acquires may exist.
#[derive(Clone, Copy, Debug, PartialEq, Eq, Structural)]
pub enum ForwardResourceState {
    Untouched,
    Intent,
    Allocated,
}

impl ForwardResourceState {
    /// The name of the value in messages.
    pub open spec fn label(self) -> Seq<char> {
        match self {
            ForwardResourceState::Untouched => "None"@,
            ForwardResourceState::Intent => "Intent"@,
            ForwardResourceState::Allocated => "Allocated"@,
        }
    }

    /// The name of the value in messages.
    pub fn name(&self) -> (text: &'static str)
        ensures
            text@ == self.label(),
    {
        match self {
            ForwardResourceState::Untouched => "None",
            ForwardResourceState::Intent => "Intent",
            ForwardResourceState::Allocated => "Allocated",
        }
    }
}

/// The durable owner of the runtime resources of a lifecycle.
#[derive(Debug, PartialEq, Eq)]
pub struct RuntimeResourceOwner {
    pub schema_version: u32,
    pub generation_id: String,
    pub state: RuntimeOwnerState,
    pub endpoint: Option<String>,
    pub sandbox_id: Option<String>,
    pub lease_id: Option<String>,
    pub resource_generation: Option<u64>,
    pub allocation_key: Option<String>,
    pub tap_state: ForwardResourceState,
    pub tap_cleanup_identity: Option<String>,
    pub vm_state: ForwardResourceState,
    pub vm_cleanup_identity: Option<String>,
}

/// The contents of a [`RuntimeResourceOwner`].
pub struct RuntimeResourceOwnerView {
    pub schema_version: u32,
    pub generation_id: Seq<char>,
    pub state: RuntimeOwnerState,
    pub endpoint: Option<Seq<char>>,
    pub sandbox_id: Option<Seq<char>>,
    pub lease_id: Option<Seq<char>>,
    pub resource_generation: Option<u64>,
    pub allocation_key: Option<Seq<char>>,
    pub tap_state: ForwardResourceState,
    pub tap_cleanup_identity: Option<Seq<char>>,
    pub vm_state: ForwardResourceState,
    pub vm_cleanup_identity: Option<Seq<char>>,
}

impl View for RuntimeResourceOwner {
    type V = RuntimeResourceOwnerView;

    open spec fn view(&self) -> RuntimeResourceOwnerView {
        RuntimeResourceOwnerView {
            schema_version: self.schema_version,
            generation_id: self.generation_id@,
            state: self.state,
            endpoint: opt_view(self.endpoint),
            sandbox_id: opt_view(self.sandbox_id),
            lease_id: opt_view(self.lease_id),
            resource_generation: self.resource_generation,
            allocation_key: opt_view(self.allocation_key),
            tap_state: self.tap_state,
            tap_cleanup_identity: opt_view(self.tap_cleanup_identity),
            vm_state: self.vm_state,
            vm_cleanup_identity: opt_view(self.vm_cleanup_identity),
        }
    }
}

impl Clone for RuntimeResourceOwner {
    fn clone(&self) -> (copy: Self)
        ensures
            copy@ == self@,
            copy == *self,
    {
        RuntimeResourceOwner {
            schema_version: self.schema_version,
            generation_id: self.generation_id.clone(),
            state: self.state,
            endpoint: clone_opt_text(&self.endpoint),
            sandbox_id: clone_opt_text(&self.sandbox_id),
            lease_id: clone_opt_text(&self.lease_id),
            resource_generation: self.resource_generation,
            allocation_key: clone_opt_text(&self.allocation_key),
            tap_state: self.tap_state,
            tap_cleanup_identity: clone_opt_text(&self.tap_cleanup_identity),
            vm_state: self.vm_state,
            vm_cleanup_identity: clone_opt_text(&self.vm_cleanup_identity),
        }
    }
}

impl RuntimeResourceOwner {
    /// Whether two values have the same contents.
    pub fn same(&self, other: &Self) -> (same: bool)
        ensures
            same == (self@ == other@),
    {
        self.schema_version == other.schema_version
            && text_eq(self.generation_id.as_str(), other.generation_id.as_str())
            && self.state == other.state
            && opt_text_same(&self.endpoint, &other.endpoint)
            && opt_text_same(&self.sandbox_id, &other.sandbox_id)
            && opt_text_same(&self.lease_id, &other.lease_id)
            && self.resource_generation == other.resource_generation
            && opt_text_same(&self.allocation_key, &other.allocation_key)
            && self.tap_state == other.tap_state
            && opt_text_same(&self.tap_cleanup_identity, &other.tap_cleanup_identity)
            && self.vm_state == other.vm_state
            && opt_text_same(&self.vm_cleanup_identity, &other.vm_cleanup_identity)
    }
}

/// A queued cleanup of a Host cgroup and its socket.
#[derive(Debug, PartialEq, Eq)]
pub struct HostCleanupJob {
    pub owner: HostCgroupOwner,
    pub socket: SocketIdentity,
    pub created_at_ms: u128,
    pub lifecycle_root: String,
    pub ready_for_cleanup: bool,
}

/// The contents of a [`HostCleanupJob`].
pub struct HostCleanupJobView {
    pub owner: HostCgroupOwnerView,
    pub socket: SocketIdentityView,
    pub created_at_ms: u128,
    pub lifecycle_root: Seq<char>,
    pub ready_for_cleanup: bool,
}

impl View for HostCleanupJob {
    type V = HostCleanupJobView;

    open spec fn view(&self) -> HostCleanupJobView {
        HostCleanupJobView {
            owner: self.owner@,
            socket: self.socket@,
            created_at_ms: self.created_at_ms,
            lifecycle_root: self.lifecycle_root@,
            ready_for_cleanup: self.ready_for_cleanup,
        }
    }
}

impl Clone for HostCleanupJob {
    fn clone(&self) -> (copy: Self)
        ensures
            copy@ == self@,
    {
        HostCleanupJob {
            owner: self.owner.clone(),
            socket: self.socket.clone(),
            created_at_ms: self.created_at_ms,
            lifecycle_root: self.lifecycle_root.clone(),
            ready_for_cleanup: self.ready_for_cleanup,
        }
    }
}

impl HostCleanupJob {
    /// Whether two values have the same contents.
    pub fn same(&self, other: &Self) -> (same: bool)
        ensures
            same == (self@ == other@),
    {
        self.owner.same(&other.owner)
            && self.socket.same(&other.socket)
            && self.created_at_ms == other.created_at_ms
            && text_eq(self.lifecycle_root.as_str(), other.lifecycle_root.as_str())
            && self.ready_for_cleanup == other.ready_for_cleanup
    }
}

/// A queued cleanup of runtime resources.
#[derive(Debug, PartialEq, Eq)]
pub struct RuntimeCleanupJob {
    pub owner: RuntimeResourceOwner,
    pub ready_for_cleanup: bool,
}

/// The contents of a [`RuntimeCleanupJob`].
pub struct RuntimeCleanupJobView {
    pub owner: RuntimeResourceOwnerView,
    pub ready_for_cleanup: bool,
}

impl View for RuntimeCleanupJob {
    type V = RuntimeCleanupJobView;

    open spec fn view(&self) -> RuntimeCleanupJobView {
        RuntimeCleanupJobView {
            owner: self.owner@,
            ready_for_cleanup: self.ready_for_cleanup,
        }
    }
}

impl Clone for RuntimeCleanupJob {
    fn clone(&self) -> (copy: Self)
        ensures
            copy@ == self@,
            copy == *self,
    {
        RuntimeCleanupJob {
            owner: self.owner.clone(),
            ready_for_cleanup: self.ready_for_cleanup,
        }
    }
}

impl RuntimeCleanupJob {
    /// Whether two values have the same contents.
    pub fn same(&self, other: &Self) -> (same: bool)
        ensures
            same == (self@ == other@),
    {
        self.owner.same(&other.owner)
            && self.ready_for_cleanup == other.ready_for_cleanup
    }
}

/// The owner of runtime resources that were never asked for.
pub open spec fn empty_runtime_owner(generation: Seq<char>) -> RuntimeResourceOwnerView {
    RuntimeResourceOwnerView {
        schema_version: SCHEMA_VERSION,
        generation_id: generation,
        state: RuntimeOwnerState::Empty,
        endpoint: None,
        sandbox_id: None,
        lease_id: None,
        resource_generation: None,
        allocation_key: None,
        tap_state: ForwardResourceState::Untouched,
        tap_cleanup_identity: None,
        vm_state: ForwardResourceState::Untouched,
        vm_cleanup_identity: None,
    }
}

impl RuntimeResourceOwner {
    /// The owner of runtime resources that were never asked for.
    pub fn empty(generation_id: String) -> (owner: Self)
        ensures
            owner@ == empty_runtime_owner(generation_id@),
    {
        RuntimeResourceOwner {
            schema_version: SCHEMA_VERSION,
            generation_id,
            state: RuntimeOwnerState::Empty,
            endpoint: None,
            sandbox_id: None,
            lease_id: None,
            resource_generation: None,
            allocation_key: None,
            tap_state: ForwardResourceState::Untouched,
            tap_cleanup_identity: None,
            vm_state: ForwardResourceState::Untouched,
            vm_cleanup_identity: None,
        }
    }

    /// The owner of a lease that is about to be asked for.
    pub fn intent(
        endpoint: String,
        sandbox_id: String,
        lease_id: String,
        resource_generation: u64,
        allocation_key: String,
    ) -> (owner: Self)
        ensures
            owner@ == (RuntimeResourceOwnerView {
                state: RuntimeOwnerState::Intent,
                endpoint: Some(endpoint@),
                sandbox_id: Some(sandbox_id@),
                lease_id: Some(lease_id@),
                resource_generation: Some(resource_generation),
                allocation_key: Some(allocation_key@),
                ..empty_runtime_owner(Seq::empty())
            }),
    {
        RuntimeResourceOwner {
            schema_version: SCHEMA_VERSION,
            generation_id: String::new(),
            state: RuntimeOwnerState::Intent,
            endpoint: Some(endpoint),
            sandbox_id: Some(sandbox_id),
            lease_id: Some(lease_id),
            resource_generation: Some(resource_generation),
            allocation_key: Some(allocation_key),
            tap_state: ForwardResourceState::Untouched,
            tap_cleanup_identity: None,
            vm_state: ForwardResourceState::Untouched,
            vm_cleanup_identity: None,
        }
    }

    /// Records that the lease was granted.
    pub fn mark_allocated(&mut self)
        ensures
            final(self)@ == (RuntimeResourceOwnerView {
                state: RuntimeOwnerState::Allocated,
                ..old(self)@
            }),
    {
        self.state = RuntimeOwnerState::Allocated;
    }

    /// Records that the lease was given back.
    pub fn mark_released(&mut self)
        ensures
            final(self)@ == (RuntimeResourceOwnerView {
                state: RuntimeOwnerState::Released,
                ..old(self)@
            }),
    {
        self.state = RuntimeOwnerState::Released;
    }

    /// The state of the lease.
    pub fn state(&self) -> (state: RuntimeOwnerState)
        ensures
            state == self@.state,
    {
        self.state
    }

    /// What a release of the lease needs: endpoint, sandbox, lease and
    /// generation, when all four are known.
    pub fn release_identity(&self) -> (identity: Option<(&str, &str, &str, u64)>)
        ensures
            identity is Some <==> (self@.endpoint is Some && self@.sandbox_id is Some
                && self@.lease_id is Some && self@.resource_generation is Some),
            identity matches Some((endpoint, sandbox, lease, generation)) ==> self@.endpoint
                == Some(endpoint@) && self@.sandbox_id == Some(sandbox@) && self@.lease_id == Some(
                lease@,
            ) && self@.resource_generation == Some(generation),
    {
        match (&self.endpoint, &self.sandbox_id, &self.lease_id, self.resource_generation) {
            (Some(endpoint), Some(sandbox), Some(lease), Some(generation)) => Some(
                (endpoint.as_str(), sandbox.as_str(), lease.as_str(), generation),
            ),
            _ => None,
        }
    }
}

/// A lifecycle goes through its phases one after the other, from its
/// preparation to its end.
pub proof fn law_phases_follow_each_other()
    ensures
        rank(LifecyclePhase::Prepared) == 0,
        rank(LifecyclePhase::ServerIdentified) == rank(LifecyclePhase::Prepared) + 1,
        rank(LifecyclePhase::SocketReady) == rank(LifecyclePhase::ServerIdentified) + 1,
        rank(LifecyclePhase::TakeoverClaimed) == rank(LifecyclePhase::SocketReady) + 1,
        rank(LifecyclePhase::ContainerdCommitted) == rank(LifecyclePhase::TakeoverClaimed) + 1,
        rank(LifecyclePhase::CleanupRequired) == rank(LifecyclePhase::ContainerdCommitted) + 1,
        rank(LifecyclePhase::CleanupOwnersDurable) == rank(LifecyclePhase::CleanupRequired) + 1,
        rank(LifecyclePhase::ServerStopped) == rank(LifecyclePhase::CleanupOwnersDurable) + 1,
        rank(LifecyclePhase::Done) == rank(LifecyclePhase::ServerStopped) + 1,
{
}

/// An owner that owns nothing yet names no resource, and nothing of it was
/// touched.
pub proof fn law_empty_owner_owns_nothing(generation: Seq<char>)
    ensures
        ({
            let owner = empty_runtime_owner(generation);
            &&& owner.schema_version == 2
            &&& owner.generation_id == generation
            &&& owner.state == RuntimeOwnerState::Empty
            &&& owner.endpoint is None
            &&& owner.sandbox_id is None
            &&& owner.lease_id is None
            &&& owner.resource_generation is None
            &&& owner.allocation_key is None
            &&& owner.tap_state == ForwardResourceState::Untouched
            &&& owner.tap_cleanup_identity is None
            &&& owner.vm_state == ForwardResourceState::Untouched
            &&& owner.vm_cleanup_identity is None
        }),
{
}

/// In messages, states are called by their names; a Create that has not started
/// and a resource that was not touched are called none.
pub proof fn law_states_are_called_by_their_names()
    ensures
        LifecyclePhase::TakeoverClaimed.label() == "TakeoverClaimed"@,
        LifecyclePhase::ContainerdCommitted.label() == "ContainerdCommitted"@,
        LifecyclePhase::CleanupRequired.label() == "CleanupRequired"@,
        CreateState::Unstarted.label() == "None"@,
        CreateState::InProgress.label() == "InProgress"@,
        CreateState::Succeeded.label() == "Succeeded"@,
        CreateState::Failed.label() == "Failed"@,
        ForwardResourceState::Untouched.label() == "None"@,
        ForwardResourceState::Intent.label() == "Intent"@,
        RuntimeOwnerState::Allocated.label() == "Allocated"@,
        RuntimeOwnerState::Released.label() == "Released"@,
        HostOwnerState::Allocated.label() == "Allocated"@,
        ControllerTransactionState::Restored.label() == "Restored"@,
        ControllerTransactionState::Degraded.label() == "Degraded"@,
        ControllerStepState::Applied.label() == "Applied"@,
        Classification::ManagedSandbox.label() == "ManagedSandbox"@,
        Classification::LegacyTask.label() == "LegacyTask"@,
{
}

} // verus!
