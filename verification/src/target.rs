//! The Host cgroup that a lifecycle places its server in.
use vstd::prelude::*;

use crate::identity::{FileIdentity, ProcessIdentity};
use crate::text::{signed_decimal, signed_decimal_text, text_eq};

verus! {

/// Where a lifecycle's processes belong on the Host.
#[derive(Debug, PartialEq, Eq)]
pub enum HostTarget {
    /// Not chosen yet: the processes stay where they were started.
    Pending { original_cgroup: String },
    /// A transient systemd scope.
    Systemd {
        oci_path: String,
        slice: String,
        unit: String,
        cgroup: String,
        parent_identity: FileIdentity,
        leaf_identity: Option<FileIdentity>,
    },
    /// A directory of the cgroup file system.
    Cgroupfs {
        oci_path: String,
        cgroup: String,
        parent_identity: FileIdentity,
        leaf_identity: Option<FileIdentity>,
    },
    /// The cgroup of an unmanaged task.
    Legacy { cgroup: String },
}

/// The contents of a [`HostTarget`].
pub enum HostTargetView {
    Pending { original_cgroup: Seq<char> },
    Systemd {
        oci_path: Seq<char>,
        slice: Seq<char>,
        unit: Seq<char>,
        cgroup: Seq<char>,
        parent_identity: FileIdentity,
        leaf_identity: Option<FileIdentity>,
    },
    Cgroupfs {
        oci_path: Seq<char>,
        cgroup: Seq<char>,
        parent_identity: FileIdentity,
        leaf_identity: Option<FileIdentity>,
    },
    Legacy { cgroup: Seq<char> },
}

impl View for HostTarget {
    type V = HostTargetView;

    open spec fn view(&self) -> HostTargetView {
        match self {
            HostTarget::Pending { original_cgroup } => HostTargetView::Pending {
                original_cgroup: original_cgroup@,
            },
            HostTarget::Systemd {
                oci_path,
                slice,
                unit,
                cgroup,
                parent_identity,
                leaf_identity,
            } => HostTargetView::Systemd {
                oci_path: oci_path@,
                slice: slice@,
                unit: unit@,
                cgroup: cgroup@,
                parent_identity: *parent_identity,
                leaf_identity: *leaf_identity,
            },
            HostTarget::Cgroupfs { oci_path, cgroup, parent_identity, leaf_identity } => {
                HostTargetView::Cgroupfs {
                    oci_path: oci_path@,
                    cgroup: cgroup@,
                    parent_identity: *parent_identity,
                    leaf_identity: *leaf_identity,
                }
            },
            HostTarget::Legacy { cgroup } => HostTargetView::Legacy { cgroup: cgroup@ },
        }
    }
}

impl HostTargetView {
    /// The cgroup in which the target's processes are expected.
    pub open spec fn location(self) -> Seq<char> {
        match self {
            HostTargetView::Pending { original_cgroup } => original_cgroup,
            HostTargetView::Systemd { cgroup, .. } => cgroup,
            HostTargetView::Cgroupfs { cgroup, .. } => cgroup,
            HostTargetView::Legacy { cgroup } => cgroup,
        }
    }

    /// Whether the lifecycle owns the cgroup.
    pub open spec fn is_managed(self) -> bool {
        self is Systemd || self is Cgroupfs
    }

    /// The identity of the cgroup directory, once it is known.
    pub open spec fn leaf(self) -> Option<FileIdentity> {
        match self {
            HostTargetView::Systemd { leaf_identity, .. } => leaf_identity,
            HostTargetView::Cgroupfs { leaf_identity, .. } => leaf_identity,
            _ => None,
        }
    }

    /// The identity of the directory that holds the cgroup.
    pub open spec fn parent(self) -> Option<FileIdentity> {
        match self {
            HostTargetView::Systemd { parent_identity, .. } => Some(parent_identity),
            HostTargetView::Cgroupfs { parent_identity, .. } => Some(parent_identity),
            _ => None,
        }
    }

    /// The same target with another leaf identity; a target without a leaf
    /// stays as it is.
    pub open spec fn with_leaf(self, leaf: Option<FileIdentity>) -> HostTargetView {
        match self {
            HostTargetView::Systemd { oci_path, slice, unit, cgroup, parent_identity, .. } => {
                HostTargetView::Systemd {
                    oci_path,
                    slice,
                    unit,
                    cgroup,
                    parent_identity,
                    leaf_identity: leaf,
                }
            },
            HostTargetView::Cgroupfs { oci_path, cgroup, parent_identity, .. } => {
                HostTargetView::Cgroupfs { oci_path, cgroup, parent_identity, leaf_identity: leaf }
            },
            other => other,
        }
    }

    /// Whether two targets are equal but for the leaf identity.
    pub open spec fn same_place(self, other: HostTargetView) -> bool {
        self.with_leaf(None) == other.with_leaf(None)
    }
}

impl Clone for HostTarget {
    fn clone(&self) -> (copy: Self)
        ensures
            copy@ == self@,
            copy == *self,
    {
        match self {
            HostTarget::Pending { original_cgroup } => HostTarget::Pending {
                original_cgroup: original_cgroup.clone(),
            },
            HostTarget::Systemd {
                oci_path,
                slice,
                unit,
                cgroup,
                parent_identity,
                leaf_identity,
            } => HostTarget::Systemd {
                oci_path: oci_path.clone(),
                slice: slice.clone(),
                unit: unit.clone(),
                cgroup: cgroup.clone(),
                parent_identity: *parent_identity,
                leaf_identity: *leaf_identity,
            },
            HostTarget::Cgroupfs { oci_path, cgroup, parent_identity, leaf_identity } => {
                HostTarget::Cgroupfs {
                    oci_path: oci_path.clone(),
                    cgroup: cgroup.clone(),
                    parent_identity: *parent_identity,
                    leaf_identity: *leaf_identity,
                }
            },
            HostTarget::Legacy { cgroup } => HostTarget::Legacy { cgroup: cgroup.clone() },
        }
    }
}

impl HostTarget {
    /// The cgroup in which the target's processes are expected.
    pub fn cgroup(&self) -> (cgroup: &str)
        ensures
            cgroup@ == self@.location(),
    {
        match self {
            HostTarget::Pending { original_cgroup } => original_cgroup.as_str(),
            HostTarget::Systemd { cgroup, .. } => cgroup.as_str(),
            HostTarget::Cgroupfs { cgroup, .. } => cgroup.as_str(),
            HostTarget::Legacy { cgroup } => cgroup.as_str(),
        }
    }

    /// Whether the lifecycle owns the cgroup.
    pub fn managed(&self) -> (r: bool)
        ensures
            r == self@.is_managed(),
    {
        match self {
            HostTarget::Systemd { .. } => true,
            HostTarget::Cgroupfs { .. } => true,
            _ => false,
        }
    }

    /// Whether the target is not chosen yet.
    pub fn pending(&self) -> (r: bool)
        ensures
            r == (self@ is Pending),
    {
        match self {
            HostTarget::Pending { .. } => true,
            _ => false,
        }
    }

    /// Whether the target is the cgroup of an unmanaged task.
    pub fn legacy(&self) -> (r: bool)
        ensures
            r == (self@ is Legacy),
    {
        match self {
            HostTarget::Legacy { .. } => true,
            _ => false,
        }
    }

    /// The identity of the cgroup directory, once it is known.
    pub fn leaf_identity(&self) -> (leaf: Option<FileIdentity>)
        ensures
            leaf == self@.leaf(),
    {
        match self {
            HostTarget::Systemd { leaf_identity, .. } => *leaf_identity,
            HostTarget::Cgroupfs { leaf_identity, .. } => *leaf_identity,
            _ => None,
        }
    }

    /// The identity of the directory that holds the cgroup.
    pub fn parent_identity(&self) -> (parent: Option<FileIdentity>)
        ensures
            parent == self@.parent(),
    {
        match self {
            HostTarget::Systemd { parent_identity, .. } => Some(*parent_identity),
            HostTarget::Cgroupfs { parent_identity, .. } => Some(*parent_identity),
            _ => None,
        }
    }

    /// Records the identity of the cgroup directory of a managed target.
    pub fn set_leaf_identity(&mut self, identity: FileIdentity)
        ensures
            final(self)@ == old(self)@.with_leaf(Some(identity)),
    {
        match self {
            HostTarget::Systemd { leaf_identity, .. } => {
                *leaf_identity = Some(identity);
            },
            HostTarget::Cgroupfs { leaf_identity, .. } => {
                *leaf_identity = Some(identity);
            },
            _ => {},
        }
    }

    /// Whether two targets are equal but for the leaf identity.
    pub fn same_location(&self, other: &Self) -> (same: bool)
        ensures
            same == self@.same_place(other@),
    {
        match (self, other) {
            (
                HostTarget::Pending { original_cgroup: left },
                HostTarget::Pending { original_cgroup: right },
            ) => text_eq(left.as_str(), right.as_str()),
            (
                HostTarget::Systemd {
                    oci_path: left_oci,
                    slice: left_slice,
                    unit: left_unit,
                    cgroup: left_cgroup,
                    parent_identity: left_parent,
                    ..
                },
                HostTarget::Systemd {
                    oci_path: right_oci,
                    slice: right_slice,
                    unit: right_unit,
                    cgroup: right_cgroup,
                    parent_identity: right_parent,
                    ..
                },
            ) => text_eq(left_oci.as_str(), right_oci.as_str()) && text_eq(
                left_slice.as_str(),
                right_slice.as_str(),
            ) && text_eq(left_unit.as_str(), right_unit.as_str()) && text_eq(
                left_cgroup.as_str(),
                right_cgroup.as_str(),
            ) && *left_parent == *right_parent,
            (
                HostTarget::Cgroupfs {
                    oci_path: left_oci,
                    cgroup: left_cgroup,
                    parent_identity: left_parent,
                    ..
                },
                HostTarget::Cgroupfs {
                    oci_path: right_oci,
                    cgroup: right_cgroup,
                    parent_identity: right_parent,
                    ..
                },
            ) => text_eq(left_oci.as_str(), right_oci.as_str()) && text_eq(
                left_cgroup.as_str(),
                right_cgroup.as_str(),
            ) && *left_parent == *right_parent,
            (HostTarget::Legacy { cgroup: left }, HostTarget::Legacy { cgroup: right }) => text_eq(
                left.as_str(),
                right.as_str(),
            ),
            _ => false,
        }
    }

    /// Whether two targets have the same contents, leaf identity included.
    pub fn same(&self, other: &Self) -> (same: bool)
        ensures
            same == (self@ == other@),
    {
        self.same_location(other) && self.leaf_identity() == other.leaf_identity()
    }
}

/// The mount point of the cgroup file system.
pub open spec fn cgroup_root() -> Seq<char> {
    "/sys/fs/cgroup/"@
}

/// What is left of a path after its leading slashes.
pub open spec fn relative_path(path: Seq<char>) -> Seq<char>
    decreases path.len(),
{
    if path.len() > 0 && path[0] == '/' {
        relative_path(path.skip(1))
    } else {
        path
    }
}

/// Removes the leading slashes of a path.
pub fn strip_root(path: &str) -> (rest: String)
    ensures
        rest@ == relative_path(path@),
{
    let chars = crate::text::chars_of(path);
    let mut from: usize = 0;
    assert(path@.skip(0) =~= path@);
    while from < chars.len() && chars[from] == '/'
        invariant
            chars@ == path@,
            from <= chars.len(),
            relative_path(path@.skip(from as int)) == relative_path(path@),
        decreases chars.len() - from,
    {
        assert(path@.skip(from as int).skip(1) =~= path@.skip(from + 1));
        from = from + 1;
    }
    assert(path@.subrange(from as int, chars.len() as int) =~= path@.skip(from as int));
    path.substring_char(from, chars.len()).to_owned()
}

/// The path of a cgroup's directory.
pub open spec fn cgroup_path(cgroup: Seq<char>) -> Seq<char> {
    cgroup_root() + relative_path(cgroup)
}

/// The path of a cgroup's directory.
pub fn cgroup_directory(cgroup: &str) -> (path: String)
    ensures
        path@ == cgroup_path(cgroup@),
{
    "/sys/fs/cgroup/".to_owned().concat(strip_root(cgroup).as_str())
}

/// What the cgroup file system shows of a target: the directory that holds
/// the cgroup and the cgroup's own directory, each with its path.
pub struct TargetSighting {
    pub parent_path: String,
    pub parent: Result<FileIdentity, String>,
    pub leaf_path: String,
    pub leaf: Result<FileIdentity, String>,
}

/// What the Host shows of a process and of the target it should be in: the
/// process under its recorded pid, the target, and the cgroup of the process.
pub struct ProcessSighting {
    pub identity: Result<ProcessIdentity, String>,
    pub target: TargetSighting,
    pub cgroup: Result<String, String>,
}

/// Why the directories of a target are not the recorded ones, if they are not.
pub open spec fn target_drift(target: HostTargetView, seen: TargetSighting) -> Option<Seq<char>> {
    if target.parent() is None {
        None
    } else {
        match seen.parent {
            Err(error) => Some(error@),
            Ok(parent) => if parent != target.parent()->0 {
                Some("Host target parent identity changed: "@ + seen.parent_path@)
            } else if target.leaf() is None {
                None
            } else {
                match seen.leaf {
                    Err(error) => Some(error@),
                    Ok(leaf) => if leaf != target.leaf()->0 {
                        Some("Host target leaf identity changed: "@ + seen.leaf_path@)
                    } else {
                        None
                    },
                }
            },
        }
    }
}

/// The outcome of a check that succeeds unless there is a complaint.
pub open spec fn passes_unless(r: Result<(), String>, complaint: Option<Seq<char>>) -> bool {
    match complaint {
        None => r is Ok,
        Some(message) => r matches Err(error) && error@ == message,
    }
}

/// Checks that the directories of a managed target are the recorded ones.
pub fn verify_live_target_identity(target: &HostTarget, seen: &TargetSighting) -> (r: Result<
    (),
    String,
>)
    ensures
        passes_unless(r, target_drift(target@, *seen)),
{
    let expected: FileIdentity = match target.parent_identity() {
        None => return Ok(()),
        Some(identity) => identity,
    };
    match &seen.parent {
        Err(error) => return Err(error.clone()),
        Ok(parent) => {
            if *parent != expected {
                return Err(
                    "Host target parent identity changed: ".to_owned().concat(
                        seen.parent_path.as_str(),
                    ),
                );
            }
        },
    }
    if let Some(expected) = target.leaf_identity() {
        match &seen.leaf {
            Err(error) => return Err(error.clone()),
            Ok(leaf) => {
                if *leaf != expected {
                    return Err(
                        "Host target leaf identity changed: ".to_owned().concat(
                            seen.leaf_path.as_str(),
                        ),
                    );
                }
            },
        }
    }
    Ok(())
}

/// Why a process does not count as a member of a target, if it does not:
/// the target drifted, its cgroup could not be read, or it is elsewhere.
pub open spec fn membership_fault(
    target: HostTargetView,
    pid: int,
    seen: TargetSighting,
    cgroup: Result<String, String>,
) -> Option<Seq<char>> {
    match target_drift(target, seen) {
        Some(message) => Some(message),
        None => match cgroup {
            Err(error) => Some(error@),
            Ok(actual) => if actual@ != target.location() {
                Some(
                    "process "@ + signed_decimal(pid) + " is in "@ + actual@ + ", expected "@
                        + target.location(),
                )
            } else {
                None
            },
        },
    }
}

/// Checks that a process, seen in `cgroup`, is in its target.
pub fn verify_target_membership(
    target: &HostTarget,
    pid: i32,
    seen: &TargetSighting,
    cgroup: &Result<String, String>,
) -> (r: Result<(), String>)
    ensures
        passes_unless(r, membership_fault(target@, pid as int, *seen, *cgroup)),
{
    if let Err(error) = verify_live_target_identity(target, seen) {
        return Err(error);
    }
    match cgroup {
        Err(error) => Err(error.clone()),
        Ok(actual) => {
            if !text_eq(actual.as_str(), target.cgroup()) {
                Err(
                    "process ".to_owned().concat(signed_decimal_text(pid as i64).as_str()).concat(
                        " is in ",
                    ).concat(actual.as_str()).concat(", expected ").concat(target.cgroup()),
                )
            } else {
                Ok(())
            }
        },
    }
}

/// Being in one place is an equivalence that ignores the leaf identity.
pub proof fn law_same_place_is_an_equivalence(
    a: HostTargetView,
    b: HostTargetView,
    c: HostTargetView,
    leaf: Option<FileIdentity>,
)
    ensures
        a.same_place(a),
        a.same_place(b) == b.same_place(a),
        a.same_place(b) && b.same_place(c) ==> a.same_place(c),
        a.same_place(a.with_leaf(leaf)),
        a.same_place(b) ==> a.location() == b.location() && a.parent() == b.parent()
            && a.is_managed() == b.is_managed(),
{
}

/// A process that passes the membership check is in the target's cgroup.
pub proof fn law_membership_means_location(
    target: HostTargetView,
    pid: int,
    seen: TargetSighting,
    cgroup: Result<String, String>,
)
    requires
        membership_fault(target, pid, seen, cgroup) is None,
    ensures
        cgroup matches Ok(actual) && actual@ == target.location(),
        target.leaf() is Some ==> (seen.leaf matches Ok(leaf) && target.leaf() == Some(leaf)),
{
}

/// What a target shows is what it was made with, and a recorded leaf is the
/// only thing that its recording changes; a target that is not managed has none.
pub proof fn law_leaf_is_all_that_is_recorded(target: HostTargetView, leaf: FileIdentity)
    ensures
        target.with_leaf(Some(leaf)).location() == target.location(),
        target.with_leaf(Some(leaf)).parent() == target.parent(),
        target is Systemd || target is Cgroupfs ==> target.with_leaf(Some(leaf)).leaf() == Some(
            leaf,
        ),
        target is Pending || target is Legacy ==> target.with_leaf(Some(leaf)) == target
            && target.leaf() is None && target.parent() is None && !target.is_managed(),
        target is Systemd || target is Cgroupfs ==> target.is_managed() && target.parent() is Some,
        target matches HostTargetView::Systemd { slice, unit, oci_path, cgroup, .. }
            ==> target.location() == cgroup && (target.with_leaf(Some(leaf))
            matches HostTargetView::Systemd { slice: s, unit: u, oci_path: o, cgroup: c, .. } && s
            == slice && u == unit && o == oci_path && c == cgroup),
        target matches HostTargetView::Pending { original_cgroup } ==> target.location()
            == original_cgroup,
{
}

/// Two targets that differ in a unit, a slice, a cgroup or a parent are not in
/// one place.
pub proof fn law_places_are_told_apart(
    a: HostTargetView,
    b: HostTargetView,
)
    ensures
        a.location() != b.location() || a.parent() != b.parent() || a.is_managed()
            != b.is_managed() ==> !a.same_place(b),
        a is Systemd && b is Cgroupfs ==> !a.same_place(b),
        a is Pending && b is Legacy ==> !a.same_place(b),
        a matches HostTargetView::Systemd { unit: u, slice: s, .. } ==> b
            matches HostTargetView::Systemd { unit: v, slice: t, .. } ==> u != v || s != t
            ==> !a.same_place(b),
{
}

/// A managed target is in order exactly where its parent is the recorded one
/// and, once a leaf was recorded, its leaf is that one; a target that is not
/// managed has nothing to drift.
pub proof fn law_drift_is_noticed(
    target: HostTargetView,
    seen: TargetSighting,
)
    ensures
        !target.is_managed() ==> target_drift(target, seen) is None,
        target.is_managed() ==> (target_drift(target, seen) is None) == (seen.parent == Ok::<
            FileIdentity,
            String,
        >(target.parent()->0) && (target.leaf() is Some ==> seen.leaf == Ok::<
            FileIdentity,
            String,
        >(target.leaf()->0))),
{
}

/// A process passes for a member of a target that has not drifted exactly where
/// it is in its cgroup.
pub proof fn law_members_are_recognised(
    target: HostTargetView,
    pid: int,
    seen: TargetSighting,
    cgroup: Result<String, String>,
)
    requires
        target_drift(target, seen) is None,
    ensures
        (membership_fault(target, pid, seen, cgroup) is None) == (cgroup is Ok
            && cgroup->Ok_0@ == target.location()),
        cgroup matches Ok(actual) ==> actual@ != target.location() ==> membership_fault(
            target,
            pid,
            seen,
            cgroup,
        ) == Some(
            "process "@ + signed_decimal(pid) + " is in "@ + actual@ + ", expected "@
                + target.location(),
        ),
{
}

/// The directory of a cgroup stands below the hierarchy's root, however many
/// slashes its name begins with.
pub proof fn law_cgroup_directories_are_below_the_root(cgroup: Seq<char>)
    ensures
        cgroup_path(seq!['/'] + cgroup) == cgroup_path(cgroup),
        cgroup.len() > 0 && cgroup[0] != '/' ==> cgroup_path(cgroup) == "/sys/fs/cgroup/"@ + cgroup,
        cgroup.len() > 1 && cgroup[0] == '/' && cgroup[1] != '/' ==> cgroup_path(cgroup)
            == "/sys/fs/cgroup/"@ + cgroup.skip(1),
{
    let more = seq!['/'] + cgroup;
    assert(more.skip(1) =~= cgroup);
    assert(relative_path(more) == relative_path(cgroup));
    if cgroup.len() > 1 && cgroup[0] == '/' && cgroup[1] != '/' {
        assert(cgroup.skip(1)[0] == cgroup[1]);
        assert(relative_path(cgroup.skip(1)) == cgroup.skip(1));
    }
}

/// A check passes exactly where there is no complaint, and fails with the
/// complaint where there is one.
pub proof fn law_checks_pass_without_a_complaint(complaint: Option<Seq<char>>, error: String)
    ensures
        passes_unless(Ok(()), complaint) == (complaint is None),
        passes_unless(Err(error), complaint) == (complaint == Some(error@)),
{
}

} // verus!
