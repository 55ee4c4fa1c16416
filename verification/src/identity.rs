//! Identities of processes, files and sockets, as they are recorded durably.
use vstd::prelude::*;

use crate::text::{opt_text_same, opt_view, text_eq};

verus! {

/// Clones an optional text.
pub fn clone_opt_text(o: &Option<String>) -> (copy: Option<String>)
    ensures
        copy == *o,
{
    match o {
        Some(s) => Some(s.clone()),
        None => None,
    }
}

/// A file or directory, named by device and inode.
#[derive(Clone, Copy, Debug, PartialEq, Eq, Structural)]
pub struct FileIdentity {
    pub device: u64,
    pub inode: u64,
}

/// A process, named by values that a reused pid does not repeat.
#[derive(Debug, PartialEq, Eq)]
pub struct ProcessIdentity {
    pub pid: i32,
    pub boot_id: String,
    pub start_time_ticks: u64,
    pub executable: FileIdentity,
    pub command_sha256: String,
    pub cwd: FileIdentity,
    /// The cgroup in which the process was observed.
    pub cgroup: String,
    pub launch_nonce_sha256: Option<String>,
}

/// The contents of a [`ProcessIdentity`].
pub struct ProcessIdentityView {
    pub pid: i32,
    pub boot_id: Seq<char>,
    pub start_time_ticks: u64,
    pub executable: FileIdentity,
    pub command_sha256: Seq<char>,
    pub cwd: FileIdentity,
    pub cgroup: Seq<char>,
    pub launch_nonce_sha256: Option<Seq<char>>,
}

impl View for ProcessIdentity {
    type V = ProcessIdentityView;

    open spec fn view(&self) -> ProcessIdentityView {
        ProcessIdentityView {
            pid: self.pid,
            boot_id: self.boot_id@,
            start_time_ticks: self.start_time_ticks,
            executable: self.executable,
            command_sha256: self.command_sha256@,
            cwd: self.cwd,
            cgroup: self.cgroup@,
            launch_nonce_sha256: opt_view(self.launch_nonce_sha256),
        }
    }
}

impl Clone for ProcessIdentity {
    fn clone(&self) -> (copy: Self)
        ensures
            copy@ == self@,
            copy == *self,
    {
        ProcessIdentity {
            pid: self.pid,
            boot_id: self.boot_id.clone(),
            start_time_ticks: self.start_time_ticks,
            executable: self.executable,
            command_sha256: self.command_sha256.clone(),
            cwd: self.cwd,
            cgroup: self.cgroup.clone(),
            launch_nonce_sha256: clone_opt_text(&self.launch_nonce_sha256),
        }
    }
}

impl ProcessIdentity {
    /// Whether two values have the same contents.
    pub fn same(&self, other: &Self) -> (same: bool)
        ensures
            same == (self@ == other@),
    {
        self.pid == other.pid
            && text_eq(self.boot_id.as_str(), other.boot_id.as_str())
            && self.start_time_ticks == other.start_time_ticks
            && self.executable == other.executable
            && text_eq(self.command_sha256.as_str(), other.command_sha256.as_str())
            && self.cwd == other.cwd
            && text_eq(self.cgroup.as_str(), other.cgroup.as_str())
            && opt_text_same(&self.launch_nonce_sha256, &other.launch_nonce_sha256)
    }
}

/// Who may run operations on a lifecycle.
#[derive(Clone, Copy, Debug, PartialEq, Eq, Structural)]
pub enum OwnerKind {
    Helper,
    Server,
    Scanner,
}

impl OwnerKind {
    /// The name of the value in messages.
    pub open spec fn label(self) -> Seq<char> {
        match self {
            OwnerKind::Helper => "Helper"@,
            OwnerKind::Server => "Server"@,
            OwnerKind::Scanner => "Scanner"@,
        }
    }

    /// The name of the value in messages.
    pub fn name(&self) -> (text: &'static str)
        ensures
            text@ == self.label(),
    {
        match self {
            OwnerKind::Helper => "Helper",
            OwnerKind::Server => "Server",
            OwnerKind::Scanner => "Scanner",
        }
    }
}

/// The owner of operations on a lifecycle, fenced by an epoch.
#[derive(Debug, PartialEq, Eq)]
pub struct OperationOwner {
    pub kind: OwnerKind,
    pub epoch: u64,
    pub identity: ProcessIdentity,
    /// The epoch that was revoked last, if any.
    pub revoked_epoch: Option<u64>,
}

/// The contents of a [`OperationOwner`].
pub struct OperationOwnerView {
    pub kind: OwnerKind,
    pub epoch: u64,
    pub identity: ProcessIdentityView,
    pub revoked_epoch: Option<u64>,
}

impl View for OperationOwner {
    type V = OperationOwnerView;

    open spec fn view(&self) -> OperationOwnerView {
        OperationOwnerView {
            kind: self.kind,
            epoch: self.epoch,
            identity: self.identity@,
            revoked_epoch: self.revoked_epoch,
        }
    }
}

impl Clone for OperationOwner {
    fn clone(&self) -> (copy: Self)
        ensures
            copy@ == self@,
            copy == *self,
    {
        OperationOwner {
            kind: self.kind,
            epoch: self.epoch,
            identity: self.identity.clone(),
            revoked_epoch: self.revoked_epoch,
        }
    }
}

impl OperationOwner {
    /// Whether two values have the same contents.
    pub fn same(&self, other: &Self) -> (same: bool)
        ensures
            same == (self@ == other@),
    {
        self.kind == other.kind
            && self.epoch == other.epoch
            && self.identity.same(&other.identity)
            && self.revoked_epoch == other.revoked_epoch
    }
}

/// The socket that a server binds.
#[derive(Debug, PartialEq, Eq)]
pub struct SocketIdentity {
    pub path: String,
    pub parent: FileIdentity,
    pub device: Option<u64>,
    pub inode: Option<u64>,
    pub absent_at_prepare: bool,
}

/// The contents of a [`SocketIdentity`].
pub struct SocketIdentityView {
    pub path: Seq<char>,
    pub parent: FileIdentity,
    pub device: Option<u64>,
    pub inode: Option<u64>,
    pub absent_at_prepare: bool,
}

impl View for SocketIdentity {
    type V = SocketIdentityView;

    open spec fn view(&self) -> SocketIdentityView {
        SocketIdentityView {
            path: self.path@,
            parent: self.parent,
            device: self.device,
            inode: self.inode,
            absent_at_prepare: self.absent_at_prepare,
        }
    }
}

impl Clone for SocketIdentity {
    fn clone(&self) -> (copy: Self)
        ensures
            copy@ == self@,
            copy == *self,
    {
        SocketIdentity {
            path: self.path.clone(),
            parent: self.parent,
            device: self.device,
            inode: self.inode,
            absent_at_prepare: self.absent_at_prepare,
        }
    }
}

impl SocketIdentity {
    /// Whether two values have the same contents.
    pub fn same(&self, other: &Self) -> (same: bool)
        ensures
            same == (self@ == other@),
    {
        text_eq(self.path.as_str(), other.path.as_str())
            && self.parent == other.parent
            && self.device == other.device
            && self.inode == other.inode
            && self.absent_at_prepare == other.absent_at_prepare
    }
}

/// A failed Create as it was published.
#[derive(Debug, PartialEq, Eq)]
pub struct FailureResult {
    pub code: String,
    pub message: String,
    pub published_at_ms: u128,
    pub waiter_count: u32,
    /// Whether every waiter has taken the result.
    pub drained: bool,
}

/// The contents of a [`FailureResult`].
pub struct FailureResultView {
    pub code: Seq<char>,
    pub message: Seq<char>,
    pub published_at_ms: u128,
    pub waiter_count: u32,
    pub drained: bool,
}

impl View for FailureResult {
    type V = FailureResultView;

    open spec fn view(&self) -> FailureResultView {
        FailureResultView {
            code: self.code@,
            message: self.message@,
            published_at_ms: self.published_at_ms,
            waiter_count: self.waiter_count,
            drained: self.drained,
        }
    }
}

impl Clone for FailureResult {
    fn clone(&self) -> (copy: Self)
        ensures
            copy@ == self@,
            copy == *self,
    {
        FailureResult {
            code: self.code.clone(),
            message: self.message.clone(),
            published_at_ms: self.published_at_ms,
            waiter_count: self.waiter_count,
            drained: self.drained,
        }
    }
}

impl FailureResult {
    /// Whether two values have the same contents.
    pub fn same(&self, other: &Self) -> (same: bool)
        ensures
            same == (self@ == other@),
    {
        text_eq(self.code.as_str(), other.code.as_str())
            && text_eq(self.message.as_str(), other.message.as_str())
            && self.published_at_ms == other.published_at_ms
            && self.waiter_count == other.waiter_count
            && self.drained == other.drained
    }
}

/// The cgroup in which a process was seen outside its target.
#[derive(Debug, PartialEq, Eq)]
pub struct ContainmentIdentity {
    pub cgroup: String,
    pub device: Option<u64>,
    pub inode: Option<u64>,
}

/// The contents of a [`ContainmentIdentity`].
pub struct ContainmentIdentityView {
    pub cgroup: Seq<char>,
    pub device: Option<u64>,
    pub inode: Option<u64>,
}

impl View for ContainmentIdentity {
    type V = ContainmentIdentityView;

    open spec fn view(&self) -> ContainmentIdentityView {
        ContainmentIdentityView {
            cgroup: self.cgroup@,
            device: self.device,
            inode: self.inode,
        }
    }
}

impl Clone for ContainmentIdentity {
    fn clone(&self) -> (copy: Self)
        ensures
            copy@ == self@,
            copy == *self,
    {
        ContainmentIdentity {
            cgroup: self.cgroup.clone(),
            device: self.device,
            inode: self.inode,
        }
    }
}

impl ContainmentIdentity {
    /// Whether two values have the same contents.
    pub fn same(&self, other: &Self) -> (same: bool)
        ensures
            same == (self@ == other@),
    {
        text_eq(self.cgroup.as_str(), other.cgroup.as_str())
            && self.device == other.device
            && self.inode == other.inode
    }
}

/// How far the launch of a VMM worker got.
#[derive(Clone, Copy, Debug, PartialEq, Eq, Structural)]
pub enum VmmWorkerState {
    SpawnIntent,
    Allocated,
}

/// The VMM worker process of a lifecycle.
#[derive(Debug, PartialEq, Eq)]
pub struct VmmWorkerRecord {
    pub state: VmmWorkerState,
    pub operation_epoch: u64,
    pub protocol_version: u16,
    pub launch_nonce_sha256: String,
    pub expected_executable: FileIdentity,
    pub identity: Option<ProcessIdentity>,
}

/// The contents of a [`VmmWorkerRecord`].
pub struct VmmWorkerRecordView {
    pub state: VmmWorkerState,
    pub operation_epoch: u64,
    pub protocol_version: u16,
    pub launch_nonce_sha256: Seq<char>,
    pub expected_executable: FileIdentity,
    pub identity: Option<ProcessIdentityView>,
}

impl View for VmmWorkerRecord {
    type V = VmmWorkerRecordView;

    open spec fn view(&self) -> VmmWorkerRecordView {
        VmmWorkerRecordView {
            state: self.state,
            operation_epoch: self.operation_epoch,
            protocol_version: self.protocol_version,
            launch_nonce_sha256: self.launch_nonce_sha256@,
            expected_executable: self.expected_executable,
            identity: match self.identity {
                Some(value) => Some(value@),
                None => None,
            },
        }
    }
}

impl Clone for VmmWorkerRecord {
    fn clone(&self) -> (copy: Self)
        ensures
            copy@ == self@,
            copy == *self,
    {
        VmmWorkerRecord {
            state: self.state,
            operation_epoch: self.operation_epoch,
            protocol_version: self.protocol_version,
            launch_nonce_sha256: self.launch_nonce_sha256.clone(),
            expected_executable: self.expected_executable,
            identity: match &self.identity {
                Some(value) => Some(value.clone()),
                None => None,
            },
        }
    }
}

impl VmmWorkerRecord {
    /// Whether two values have the same contents.
    pub fn same(&self, other: &Self) -> (same: bool)
        ensures
            same == (self@ == other@),
    {
        self.state == other.state
            && self.operation_epoch == other.operation_epoch
            && self.protocol_version == other.protocol_version
            && text_eq(self.launch_nonce_sha256.as_str(), other.launch_nonce_sha256.as_str())
            && self.expected_executable == other.expected_executable
            && (match (&self.identity, &other.identity) {
            (Some(left), Some(right)) => left.same(right),
            (None, None) => true,
            _ => false,
        })
    }
}

/// Whether two observations are of one process: everything but the cgroup is
/// equal.
pub open spec fn same_process(left: ProcessIdentityView, right: ProcessIdentityView) -> bool {
    left == (ProcessIdentityView { cgroup: left.cgroup, ..right })
}

/// Whether two observations are of one process, whatever its cgroup.
pub fn immutable_identity_matches(expected: &ProcessIdentity, actual: &ProcessIdentity) -> (same:
    bool)
    ensures
        same == same_process(expected@, actual@),
{
    expected.pid == actual.pid && text_eq(expected.boot_id.as_str(), actual.boot_id.as_str())
        && expected.start_time_ticks == actual.start_time_ticks && expected.executable
        == actual.executable && text_eq(
        expected.command_sha256.as_str(),
        actual.command_sha256.as_str(),
    ) && expected.cwd == actual.cwd && opt_text_same(
        &expected.launch_nonce_sha256,
        &actual.launch_nonce_sha256,
    )
}

/// Being one process is an equivalence.
pub proof fn law_same_process_is_an_equivalence(
    a: ProcessIdentityView,
    b: ProcessIdentityView,
    c: ProcessIdentityView,
)
    ensures
        same_process(a, a),
        same_process(a, b) == same_process(b, a),
        same_process(a, b) && same_process(b, c) ==> same_process(a, c),
{
}

/// Being one process does not depend on the cgroup of either observation.
pub proof fn law_same_process_ignores_only_containment(
    a: ProcessIdentityView,
    b: ProcessIdentityView,
    cgroup: Seq<char>,
)
    ensures
        same_process(a, ProcessIdentityView { cgroup, ..b }) == same_process(a, b),
        same_process(a, b) && a.cgroup == b.cgroup ==> a == b,
{
}

} // verus!
