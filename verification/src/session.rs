//! The session of a bootstrap helper: where it goes, when it lets its server
//! run and how it comes back; and the directories that the environment names.
use vstd::prelude::*;

use crate::bootstrap::{check_gate_descriptor, spawned_registered, spawned_server_registered};
use crate::identity::FileIdentity;
use crate::lifecycle::{check_record, record_fault};
use crate::paths::{is_rooted, join, joined, rooted};
use crate::record::LifecycleRecord;
use crate::target::{
    cgroup_directory, cgroup_path, membership_fault, passes_unless, verify_target_membership,
    HostTarget, HostTargetView, TargetSighting,
};
use crate::text::{
    fails_with, opt_view, parse_i32, parse_i32_message, signed_decimal, signed_decimal_text,
    signed_value, text_eq,
};

verus! {

/// Names the directory that holds all lifecycles.
pub const LIFECYCLE_ROOT_ENV: &'static str = "CUBE_SHIM_LIFECYCLE_ROOT";

/// Where the lifecycles are, unless the environment says otherwise.
pub const DEFAULT_LIFECYCLE_ROOT: &'static str = "/data/cubelet/shim-lifecycle";

/// Names the directory of a server's own lifecycle.
pub const LIFECYCLE_DIR_ENV: &'static str = "CUBE_SHIM_LIFECYCLE_DIR";

/// Names the directory that holds the cleanup queues.
pub const CLEANUP_QUEUE_ROOT_ENV: &'static str = "CUBE_SHIM_CLEANUP_QUEUE_ROOT";

/// Where the cleanup queues are, unless the environment says otherwise.
pub const DEFAULT_CLEANUP_QUEUE_ROOT: &'static str = "/data/cubelet/shim-cleanup";

/// Names the descriptor of a server's bootstrap gate.
pub const GATE_FD_ENV: &'static str = "CUBE_SHIM_GATE_FD";

/// How often a helper looks for its server's identity.
pub const SERVER_IDENTITY_POLLS: u32 = 200;

/// The pause between two looks, in milliseconds.
pub const SERVER_IDENTITY_PAUSE_MS: u64 = 10;

/// The value of a variable of the environment, or what stands in for it.
pub open spec fn chosen(value: Option<Seq<char>>, fallback: Seq<char>) -> Seq<char> {
    match value {
        Some(text) => text,
        None => fallback,
    }
}

/// The directory that holds all lifecycles: it has to be absolute.
pub fn lifecycle_root(value: Option<String>) -> (r: Result<String, String>)
    ensures
        ({
            let root = chosen(opt_view(value), DEFAULT_LIFECYCLE_ROOT@);
            if is_rooted(root) {
                r matches Ok(path) && path@ == root
            } else {
                fails_with(r, LIFECYCLE_ROOT_ENV@ + " must be absolute: "@ + root)
            }
        }),
{
    let root = match value {
        Some(text) => text,
        None => DEFAULT_LIFECYCLE_ROOT.to_owned(),
    };
    if !rooted(root.as_str()) {
        return Err(LIFECYCLE_ROOT_ENV.to_owned().concat(" must be absolute: ").concat(root.as_str()));
    }
    Ok(root)
}

/// The directory that holds the cleanup queues: it has to be absolute.
pub fn cleanup_queue_root(value: Option<String>) -> (r: Result<String, String>)
    ensures
        ({
            let root = chosen(opt_view(value), DEFAULT_CLEANUP_QUEUE_ROOT@);
            if is_rooted(root) {
                r matches Ok(path) && path@ == root
            } else {
                fails_with(r, CLEANUP_QUEUE_ROOT_ENV@ + " must be absolute"@)
            }
        }),
{
    let root = match value {
        Some(text) => text,
        None => DEFAULT_CLEANUP_QUEUE_ROOT.to_owned(),
    };
    if !rooted(root.as_str()) {
        return Err(CLEANUP_QUEUE_ROOT_ENV.to_owned().concat(" must be absolute"));
    }
    Ok(root)
}

/// The directory of a server's own lifecycle, where it has one: it has to be
/// absolute.
pub fn lifecycle_directory(value: Option<String>) -> (r: Result<Option<String>, String>)
    ensures
        match opt_view(value) {
            None => r matches Ok(found) && found is None,
            Some(directory) => if is_rooted(directory) {
                r matches Ok(found) && opt_view(found) == Some(directory)
            } else {
                fails_with(r, LIFECYCLE_DIR_ENV@ + " must be absolute: "@ + directory)
            },
        },
{
    match value {
        None => Ok(None),
        Some(directory) => {
            if !rooted(directory.as_str()) {
                return Err(
                    LIFECYCLE_DIR_ENV.to_owned().concat(" must be absolute: ").concat(
                        directory.as_str(),
                    ),
                );
            }
            Ok(Some(directory))
        },
    }
}

/// The file that holds the cleanup job of a generation in a queue.
pub fn cleanup_queue_path(queue: &str, kind: &str, generation: &str) -> (path: String)
    ensures
        path@ == joined(joined(queue@, kind@), generation@ + ".json"@),
{
    join(join(queue, kind).as_str(), generation.to_owned().concat(".json").as_str())
}

/// What the environment says of a bootstrap gate's descriptor.
pub open spec fn gate_descriptor_outcome(value: Seq<char>) -> Result<int, Seq<char>> {
    match signed_value(value, i32::MIN as int, i32::MAX as int) {
        None => Err("parse "@ + GATE_FD_ENV@ + ": "@ + parse_i32_message(value)),
        Some(fd) => if fd < 3 {
            Err("invalid bootstrap gate fd "@ + signed_decimal(fd))
        } else {
            Ok(fd)
        },
    }
}

/// Reads the descriptor of a bootstrap gate out of the environment's text.
pub fn gate_descriptor(value: &str) -> (r: Result<i32, String>)
    ensures
        match gate_descriptor_outcome(value@) {
            Err(message) => fails_with(r, message),
            Ok(fd) => r matches Ok(found) && found == fd,
        },
{
    match parse_i32(value) {
        Err(error) => Err(
            "parse ".to_owned().concat(GATE_FD_ENV).concat(": ").concat(error.as_str()),
        ),
        Ok(fd) => match check_gate_descriptor(fd) {
            Err(message) => Err(message),
            Ok(()) => Ok(fd),
        },
    }
}

/// How a process is brought into a target.
pub enum Placing {
    /// A scope is started that holds it.
    Scope { slice: String, unit: String },
    /// The cgroup's directory is made and the process moved there.
    Directory { cgroup: String, path: String },
    /// It stays where it is.
    Stay,
}

/// How a process is brought into a target.
pub fn placing(target: &HostTarget) -> (way: Placing)
    ensures
        match target@ {
            HostTargetView::Systemd { slice, unit, .. } => way matches Placing::Scope {
                slice: found_slice,
                unit: found_unit,
            } && found_slice@ == slice && found_unit@ == unit,
            HostTargetView::Cgroupfs { cgroup, .. } => way matches Placing::Directory {
                cgroup: found,
                path,
            } && found@ == cgroup && path@ == cgroup_path(cgroup),
            _ => way is Stay,
        },
{
    match target {
        HostTarget::Systemd { slice, unit, .. } => Placing::Scope {
            slice: slice.clone(),
            unit: unit.clone(),
        },
        HostTarget::Cgroupfs { cgroup, .. } => Placing::Directory {
            cgroup: cgroup.clone(),
            path: cgroup_directory(cgroup.as_str()),
        },
        _ => Placing::Stay,
    }
}

/// Checks that a scope can be started: one that is there is never reused.
pub fn check_new_scope(unit: &str, present: bool) -> (r: Result<(), String>)
    ensures
        passes_unless(
            r,
            if present {
                Some("refuse to reuse existing systemd scope "@ + unit@)
            } else {
                None
            },
        ),
{
    if present {
        return Err("refuse to reuse existing systemd scope ".to_owned().concat(unit));
    }
    Ok(())
}

/// A bootstrap helper: the target it goes to, the cgroup it came from, whether
/// it left that cgroup, and whether it still holds its server back.
pub struct HelperSession {
    pub target: HostTarget,
    pub original_cgroup: String,
    pub moved: bool,
    pub gate_held: bool,
}

/// What a bootstrap helper holds.
pub struct HelperSessionView {
    pub target: HostTargetView,
    pub original_cgroup: Seq<char>,
    pub moved: bool,
    pub gate_held: bool,
}

impl View for HelperSession {
    type V = HelperSessionView;

    open spec fn view(&self) -> HelperSessionView {
        HelperSessionView {
            target: self.target@,
            original_cgroup: self.original_cgroup@,
            moved: self.moved,
            gate_held: self.gate_held,
        }
    }
}

/// A helper once it was to join its target: where that failed, it counts as
/// moved only if it is seen there.
pub open spec fn after_joining(
    session: HelperSessionView,
    joining: Result<(), String>,
    cgroup: Result<String, String>,
) -> HelperSessionView {
    HelperSessionView {
        moved: match joining {
            Ok(_) => true,
            Err(_) => cgroup matches Ok(actual) && actual@ == session.target.location(),
        },
        ..session
    }
}

/// Why a server is not let run, if it is not.
pub open spec fn release_fault(
    session: HelperSessionView,
    pid: i32,
    seen: TargetSighting,
    cgroup: Result<String, String>,
) -> Option<Seq<char>> {
    match membership_fault(session.target, pid as int, seen, cgroup) {
        Some(message) => Some(message),
        None => if session.gate_held {
            None
        } else {
            Some("bootstrap gate is already released"@)
        },
    }
}

/// Why a helper that was moved is not back, if it is not.
pub open spec fn restore_fault(
    session: HelperSessionView,
    moving: Result<(), String>,
    cgroup: Result<String, String>,
) -> Option<Seq<char>> {
    if !session.moved {
        None
    } else {
        match moving {
            Err(message) => Some(message@),
            Ok(_) => match cgroup {
                Err(message) => Some(message@),
                Ok(actual) => if actual@ == session.original_cgroup {
                    None
                } else {
                    Some("helper cgroup restore readback mismatch"@)
                },
            },
        }
    }
}

/// Whether the server of a helper is registered, in a record that can be used,
/// and in its place.
pub open spec fn server_identified(
    session: HelperSessionView,
    record: Result<LifecycleRecord, String>,
    pid: i32,
    seen: TargetSighting,
    cgroup: Result<String, String>,
) -> Result<bool, Seq<char>> {
    match record {
        Err(message) => Err(message@),
        Ok(found) => match record_fault(found@) {
            Some(message) => Err(message),
            None => match spawned_registered(found@, pid) {
                Ok(true) => match membership_fault(session.target, pid as int, seen, cgroup) {
                    Some(message) => Err(message),
                    None => Ok(true),
                },
                other => other,
            },
        },
    }
}

impl HelperSession {
    /// A helper in the cgroup it was started in: its target is not chosen yet.
    pub fn start(original_cgroup: &str) -> (session: Self)
        ensures
            session@ == (HelperSessionView {
                target: HostTargetView::Pending { original_cgroup: original_cgroup@ },
                original_cgroup: original_cgroup@,
                moved: false,
                gate_held: true,
            }),
    {
        HelperSession {
            target: HostTarget::Pending { original_cgroup: original_cgroup.to_owned() },
            original_cgroup: original_cgroup.to_owned(),
            moved: false,
            gate_held: true,
        }
    }

    /// Notes whether the helper joined its target. `cgroup` is where it is seen
    /// afterwards.
    pub fn joined(&mut self, joining: &Result<(), String>, cgroup: &Result<String, String>) -> (r: Result<
        (),
        String,
    >)
        ensures
            final(self)@ == after_joining(old(self)@, *joining, *cgroup),
            passes_unless(
                r,
                match joining {
                    Ok(_) => None,
                    Err(message) => Some(message@),
                },
            ),
    {
        match joining {
            Ok(()) => {
                self.moved = true;
                Ok(())
            },
            Err(message) => {
                self.moved = match cgroup {
                    Ok(actual) => text_eq(actual.as_str(), self.target.cgroup()),
                    Err(_) => false,
                };
                Err(message.clone())
            },
        }
    }

    /// Notes the directory of the target that was joined.
    pub fn identify(&mut self, leaf: FileIdentity)
        ensures
            final(self)@ == (HelperSessionView {
                target: old(self)@.target.with_leaf(Some(leaf)),
                ..old(self)@
            }),
    {
        self.target.set_leaf_identity(leaf);
    }

    /// Whether the server that was spawned is registered and in its place; the
    /// helper looks again while it is not registered. A record that cannot be
    /// used is an error.
    pub fn server_identified(
        &self,
        record: &Result<LifecycleRecord, String>,
        pid: i32,
        seen: &TargetSighting,
        cgroup: &Result<String, String>,
    ) -> (r: Result<bool, String>)
        ensures
            match server_identified(self@, *record, pid, *seen, *cgroup) {
                Err(message) => fails_with(r, message),
                Ok(identified) => r == Ok::<bool, String>(identified),
            },
    {
        match record {
            Err(message) => Err(message.clone()),
            Ok(found) => {
                if let Err(message) = check_record(found) {
                    return Err(message);
                }
                match spawned_server_registered(found, pid) {
                    Ok(true) => match verify_target_membership(&self.target, pid, seen, cgroup) {
                        Err(message) => Err(message),
                        Ok(()) => Ok(true),
                    },
                    other => other,
                }
            },
        }
    }

    /// Lets the server run, once: the helper has to be in its place.
    pub fn release_gate(
        &mut self,
        pid: i32,
        seen: &TargetSighting,
        cgroup: &Result<String, String>,
    ) -> (r: Result<(), String>)
        ensures
            passes_unless(r, release_fault(old(self)@, pid, *seen, *cgroup)),
            final(self)@ == (HelperSessionView {
                gate_held: old(self)@.gate_held && r is Err,
                ..old(self)@
            }),
    {
        if let Err(message) = verify_target_membership(&self.target, pid, seen, cgroup) {
            return Err(message);
        }
        if !self.gate_held {
            return Err("bootstrap gate is already released".to_owned());
        }
        self.gate_held = false;
        Ok(())
    }

    /// Notes that the helper was moved back to where it came from: it counts as
    /// back only where it is seen there. A helper that never left is back.
    pub fn restore_helper(&mut self, moving: &Result<(), String>, cgroup: &Result<String, String>) -> (r:
        Result<(), String>)
        ensures
            passes_unless(r, restore_fault(old(self)@, *moving, *cgroup)),
            final(self)@ == (HelperSessionView {
                moved: old(self)@.moved && r is Err,
                ..old(self)@
            }),
    {
        if self.moved {
            if let Err(message) = moving {
                return Err(message.clone());
            }
            match cgroup {
                Err(message) => return Err(message.clone()),
                Ok(actual) => {
                    if !text_eq(actual.as_str(), self.original_cgroup.as_str()) {
                        return Err("helper cgroup restore readback mismatch".to_owned());
                    }
                },
            }
            self.moved = false;
        }
        Ok(())
    }
}

/// What a helper says that looked for its server's identity too often.
pub open spec fn identity_timeout(pid: i32) -> Seq<char> {
    "timed out waiting for server "@ + signed_decimal(pid as int) + " identity"@
}

/// What a helper says that looked for its server's identity too often.
pub fn server_identity_timeout(pid: i32) -> (message: String)
    ensures
        message@ == identity_timeout(pid),
{
    "timed out waiting for server ".to_owned().concat(
        signed_decimal_text(pid as i64).as_str(),
    ).concat(" identity")
}

/// A step of a helper's wait for its server's identity.
#[derive(Debug, PartialEq, Eq)]
pub enum ServerWaitStage {
    /// Is the server registered? There are so many looks left.
    Looking { left: u32 },
    /// It was not; there are so many looks left.
    Pausing { left: u32 },
    Identified,
    Failed { message: String },
}

/// The contents of a [`ServerWaitStage`].
pub enum ServerWaitStageView {
    Looking { left: u32 },
    Pausing { left: u32 },
    Identified,
    Failed { message: Seq<char> },
}

impl View for ServerWaitStage {
    type V = ServerWaitStageView;

    open spec fn view(&self) -> ServerWaitStageView {
        match self {
            ServerWaitStage::Looking { left } => ServerWaitStageView::Looking { left: *left },
            ServerWaitStage::Pausing { left } => ServerWaitStageView::Pausing { left: *left },
            ServerWaitStage::Identified => ServerWaitStageView::Identified,
            ServerWaitStage::Failed { message } => ServerWaitStageView::Failed {
                message: message@,
            },
        }
    }
}

/// What comes to a helper's wait for its server's identity.
pub enum ServerWaitEvent {
    Seen {
        record: Result<LifecycleRecord, String>,
        target: TargetSighting,
        cgroup: Result<String, String>,
    },
    Paused,
}

/// The step after an answer.
pub open spec fn server_wait_next(
    session: HelperSessionView,
    pid: i32,
    stage: ServerWaitStageView,
    event: ServerWaitEvent,
) -> ServerWaitStageView {
    match (stage, event) {
        (
            ServerWaitStageView::Looking { left },
            ServerWaitEvent::Seen { record, target, cgroup },
        ) => match server_identified(session, record, pid, target, cgroup) {
            Err(message) => ServerWaitStageView::Failed { message },
            Ok(true) => ServerWaitStageView::Identified,
            Ok(false) => ServerWaitStageView::Pausing {
                left: if left == 0 {
                    0
                } else {
                    (left - 1) as u32
                },
            },
        },
        (ServerWaitStageView::Pausing { left }, ServerWaitEvent::Paused) => if left == 0 {
            ServerWaitStageView::Failed { message: identity_timeout(pid) }
        } else {
            ServerWaitStageView::Looking { left }
        },
        (stage, _) => stage,
    }
}

impl ServerWaitStage {
    /// A wait that is about to begin.
    pub fn begin() -> (stage: Self)
        ensures
            stage@ == (ServerWaitStageView::Looking { left: SERVER_IDENTITY_POLLS }),
    {
        ServerWaitStage::Looking { left: SERVER_IDENTITY_POLLS }
    }

    /// The wait of a helper for this server after an answer.
    pub fn step(self, session: &HelperSession, pid: i32, event: ServerWaitEvent) -> (next: Self)
        ensures
            next@ == server_wait_next(session@, pid, self@, event),
    {
        match (self, event) {
            (
                ServerWaitStage::Looking { left },
                ServerWaitEvent::Seen { record, target, cgroup },
            ) => match session.server_identified(&record, pid, &target, &cgroup) {
                Err(message) => ServerWaitStage::Failed { message },
                Ok(true) => ServerWaitStage::Identified,
                Ok(false) => ServerWaitStage::Pausing {
                    left: if left == 0 {
                        0
                    } else {
                        left - 1
                    },
                },
            },
            (ServerWaitStage::Pausing { left }, ServerWaitEvent::Paused) => if left == 0 {
                ServerWaitStage::Failed { message: server_identity_timeout(pid) }
            } else {
                ServerWaitStage::Looking { left }
            },
            (stage, _) => stage,
        }
    }
}

/// A server counts as identified only where a record that can be used names its
/// process and the server is in the helper's target.
pub proof fn law_identified_server_is_in_place(
    session: HelperSessionView,
    pid: i32,
    stage: ServerWaitStageView,
    event: ServerWaitEvent,
)
    requires
        !(stage is Identified),
        server_wait_next(session, pid, stage, event) is Identified,
    ensures
        event matches ServerWaitEvent::Seen { record, target, cgroup } && (record matches Ok(found)
            && record_fault(found@) is None && (found@.server matches Some(server) && server.pid
            == pid)) && membership_fault(session.target, pid as int, target, cgroup) is None,
{
}

/// How many answers a helper's wait still takes at most.
pub open spec fn server_waits_left(stage: ServerWaitStageView) -> int {
    match stage {
        ServerWaitStageView::Looking { left } => 2 * left + 3,
        ServerWaitStageView::Pausing { left } => 2 * left + 4,
        _ => 0,
    }
}

/// A helper's wait ends: every answer to its step brings it nearer to its end.
pub proof fn law_server_wait_ends(
    session: HelperSessionView,
    pid: i32,
    stage: ServerWaitStageView,
    event: ServerWaitEvent,
)
    requires
        server_waits_left(stage) > 0,
        stage matches ServerWaitStageView::Looking { left } ==> left > 0,
        stage is Pausing == event is Paused,
    ensures
        0 <= server_waits_left(server_wait_next(session, pid, stage, event)) < server_waits_left(
            stage,
        ),
        server_wait_next(session, pid, stage, event) matches ServerWaitStageView::Looking { left }
            ==> left > 0,
{
}

/// Names the directory in which a test holds a shim at chosen points.
pub const FAILPOINT_DIR_ENV: &'static str = "CUBE_SHIM_TEST_FAILPOINT_DIR";

/// How long a shim is held at a point at most, in milliseconds.
pub const FAILPOINT_LIMIT_MS: u64 = 60_000;

/// How often it is looked whether a shim may go on, in milliseconds.
pub const FAILPOINT_PAUSE_MS: u64 = 10;

/// The file that tells that a point was reached, and the one that lets the shim
/// go on.
pub fn failpoint_files(root: &str, point: &str, id: &str) -> (files: (String, String))
    ensures
        files.0@ == joined(root@, point@ + "-"@ + id@ + ".reached"@),
        files.1@ == joined(root@, point@ + "-"@ + id@ + ".release"@),
{
    let name = point.to_owned().concat("-").concat(id);
    (
        join(root, name.as_str().to_owned().concat(".reached").as_str()),
        join(root, name.concat(".release").as_str()),
    )
}

/// The same files of a point in a change of the Host's controllers.
pub fn controller_failpoint_files(root: &str, point: &str, id: &str) -> (files: (String, String))
    ensures
        files.0@ == joined(root@, "controller-"@ + point@ + "-"@ + id@ + ".reached"@),
        files.1@ == joined(root@, "controller-"@ + point@ + "-"@ + id@ + ".release"@),
{
    failpoint_files(root, "controller-".to_owned().concat(point).as_str(), id)
}

/// A server is let run once: a gate that was released is not released again.
pub proof fn law_gate_is_released_once(
    session: HelperSessionView,
    pid: i32,
    seen: TargetSighting,
    cgroup: Result<String, String>,
    later: TargetSighting,
    later_cgroup: Result<String, String>,
)
    requires
        release_fault(session, pid, seen, cgroup) is None,
    ensures
        session.gate_held,
        cgroup matches Ok(actual) && actual@ == session.target.location(),
        release_fault(
            HelperSessionView { gate_held: false, ..session },
            pid,
            later,
            later_cgroup,
        ) is Some,
{
}

/// A helper that left its cgroup counts as moved until it is seen back there,
/// and one that is not seen in its target after a failure never left.
pub proof fn law_moved_helper_comes_back(
    session: HelperSessionView,
    joining: Result<(), String>,
    joined_cgroup: Result<String, String>,
    moving: Result<(), String>,
    cgroup: Result<String, String>,
)
    ensures
        ({
            let moved = after_joining(session, joining, joined_cgroup);
            &&& joining is Ok ==> moved.moved
            &&& moved.moved && restore_fault(moved, moving, cgroup) is None ==> (
            cgroup matches Ok(actual) && actual@ == session.original_cgroup)
            &&& joining is Err && joined_cgroup is Err ==> !moved.moved
        }),
{
}

/// A gate is a descriptor beyond the standard ones; a smaller number, and what
/// is no number, is refused.
pub proof fn law_gates_are_beyond_the_standard_descriptors(value: Seq<char>, fd: int)
    requires
        signed_value(value, -2_147_483_648, 2_147_483_647) == Some(fd),
    ensures
        fd >= 3 ==> gate_descriptor_outcome(value) == Ok::<int, Seq<char>>(fd),
        fd <= 2 ==> gate_descriptor_outcome(value) == Err::<int, Seq<char>>(
            "invalid bootstrap gate fd "@ + signed_decimal(fd),
        ),
{
}

/// A helper counts as moved once its joining succeeded, and also where it
/// failed and left the helper in the target's cgroup all the same.
pub proof fn law_half_joined_helper_is_moved(
    session: HelperSessionView,
    message: String,
    cgroup: Result<String, String>,
    actual: String,
)
    ensures
        after_joining(session, Ok(()), cgroup).moved,
        after_joining(session, Err(message), Ok(actual)).moved == (actual@
            == session.target.location()),
        cgroup is Err ==> !after_joining(session, Err(message), cgroup).moved,
        ({
            let next = after_joining(session, Err(message), cgroup);
            &&& next.target == session.target
            &&& next.original_cgroup == session.original_cgroup
            &&& next.gate_held == session.gate_held
        }),
{
}

/// A server that is in place is let go on, once; one that is not waits.
pub proof fn law_gate_opens_for_a_placed_server(
    session: HelperSessionView,
    pid: i32,
    seen: TargetSighting,
    actual: String,
)
    requires
        crate::target::target_drift(session.target, seen) is None,
    ensures
        (release_fault(session, pid, seen, Ok(actual)) is None) == (session.gate_held && actual@
            == session.target.location()),
        !session.gate_held && actual@ == session.target.location() ==> release_fault(
            session,
            pid,
            seen,
            Ok(actual),
        ) == Some("bootstrap gate is already released"@),
{
}

/// A helper that never moved needs no way back; one that moved is back exactly
/// where it is seen in the cgroup that it came from.
pub proof fn law_helper_is_seen_to_be_back(
    session: HelperSessionView,
    moving: Result<(), String>,
    cgroup: Result<String, String>,
)
    ensures
        !session.moved ==> restore_fault(session, moving, cgroup) is None,
        session.moved ==> (restore_fault(session, moving, cgroup) is None) == (moving is Ok
            && cgroup is Ok && cgroup->Ok_0@ == session.original_cgroup),
{
}

/// A server counts as identified exactly where the record names it and it is in
/// the session's cgroup; where none is named yet, the helper waits on.
pub proof fn law_registered_server_is_identified(
    session: HelperSessionView,
    record: LifecycleRecord,
    pid: i32,
    seen: TargetSighting,
    actual: String,
)
    requires
        record@.schema_version == 2,
        record@.generation.len() > 0,
        crate::target::target_drift(session.target, seen) is None,
    ensures
        ({
            let found = server_identified(session, Ok(record), pid, seen, Ok(actual));
            &&& record@.server is None ==> found == Ok::<bool, Seq<char>>(false)
            &&& record@.server is Some && record@.server->0.pid != pid ==> found is Err
            &&& record@.server is Some && record@.server->0.pid == pid && actual@
                == session.target.location() ==> found == Ok::<bool, Seq<char>>(true)
            &&& record@.server is Some && record@.server->0.pid == pid && actual@
                != session.target.location() ==> found is Err
        }),
{
}

/// A helper looks once and again: each look that finds no server is followed by
/// a pause, each pause by a look, until the last one, after which it gives up
/// with the server's number; what it found or failed on stays.
pub proof fn law_helper_looks_until_it_gives_up(
    session: HelperSessionView,
    pid: i32,
    left: u32,
    record: Result<LifecycleRecord, String>,
    target: TargetSighting,
    cgroup: Result<String, String>,
    event: ServerWaitEvent,
)
    ensures
        ({
            let found = server_identified(session, record, pid, target, cgroup);
            let next = server_wait_next(
                session,
                pid,
                ServerWaitStageView::Looking { left },
                ServerWaitEvent::Seen { record, target, cgroup },
            );
            &&& found == Ok::<bool, Seq<char>>(true) ==> next == ServerWaitStageView::Identified
            &&& found is Err ==> next == (ServerWaitStageView::Failed { message: found->Err_0 })
            &&& found == Ok::<bool, Seq<char>>(false) && left > 0 ==> next == (
            ServerWaitStageView::Pausing { left: (left - 1) as u32 })
        }),
        left > 0 ==> server_wait_next(
            session,
            pid,
            ServerWaitStageView::Pausing { left },
            ServerWaitEvent::Paused,
        ) == (ServerWaitStageView::Looking { left }),
        server_wait_next(
            session,
            pid,
            ServerWaitStageView::Pausing { left: 0 },
            ServerWaitEvent::Paused,
        ) == (ServerWaitStageView::Failed {
            message: "timed out waiting for server "@ + signed_decimal(pid as int) + " identity"@,
        }),
        server_wait_next(session, pid, ServerWaitStageView::Identified, event)
            == ServerWaitStageView::Identified,
        SERVER_IDENTITY_POLLS == 200,
{
}

/// What the environment names is taken as it is, and the default only where it
/// names nothing.
pub proof fn law_named_directories_are_taken(value: Seq<char>, fallback: Seq<char>)
    ensures
        chosen(Some(value), fallback) == value,
        chosen(None, fallback) == fallback,
        DEFAULT_LIFECYCLE_ROOT@ == "/data/cubelet/shim-lifecycle"@,
        DEFAULT_CLEANUP_QUEUE_ROOT@ == "/data/cubelet/shim-cleanup"@,
{
}

} // verus!
