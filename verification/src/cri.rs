//! From CRI and OCI inputs to Host targets: slices, cgroup parents, mounts and
//! the classification of a bundle.
use vstd::prelude::*;

use crate::identity::FileIdentity;
use crate::paths::{
    file_name, is_rooted, join, joined, last_name, names, normalized_cgroup_relative, parent_path,
    parent_spec, path_names, relative_cgroup, rooted, same_path, same_path_spec, slashed,
};
use crate::record::{Classification, LifecycleRecord, LifecycleRecordView};
use crate::target::{cgroup_directory, cgroup_path, passes_unless, HostTarget, HostTargetView};
use crate::text::{
    contains_char, ends_with, fails_with, has_suffix, lines_of, list_pairs, listed_pairs, opt_view,
    outcome, pair_views, pieces, split_lines, split_on, split_once, split_once_spec, split_words,
    text_eq, trim, trimmed, views, words,
};

verus! {

/// The annotation that says whether a bundle is a sandbox or a container.
pub const CONTAINER_TYPE_ANNOTATION: &'static str = "io.kubernetes.cri.container-type";

/// The annotation that names the sandbox of a bundle.
pub const SANDBOX_ID_ANNOTATION: &'static str = "io.kubernetes.cri.sandbox-id";

/// A slice name without its suffixes.
pub open spec fn slice_stem(slice: Seq<char>) -> Seq<char>
    decreases slice.len(),
{
    if has_suffix(slice, ".slice"@) && ".slice"@.len() > 0 {
        slice_stem(slice.take(slice.len() - ".slice"@.len()))
    } else {
        slice
    }
}

/// Texts with dashes between them.
pub open spec fn dashed(parts: Seq<Seq<char>>) -> Seq<char>
    decreases parts.len(),
{
    if parts.len() == 0 {
        Seq::empty()
    } else if parts.len() == 1 {
        parts[0]
    } else {
        dashed(parts.drop_last()) + "-"@ + parts.last()
    }
}

/// The cgroup path of a slice below the mount point: the slices whose names
/// are the dash-separated prefixes of its name, the shortest first. The root
/// slice has the empty path; a name with a slash or an empty part has none.
pub open spec fn slice_path(slice: Seq<char>) -> Option<Seq<char>> {
    let stem = slice_stem(slice);
    let parts = pieces(stem, '-');
    if !has_suffix(slice, ".slice"@) || slice.contains('/') {
        None
    } else if stem == "-"@ {
        Some(Seq::empty())
    } else if parts.contains(Seq::<char>::empty()) {
        None
    } else {
        Some(slashed(Seq::new(parts.len(), |i: int| dashed(parts.take(i + 1)) + ".slice"@)))
    }
}

/// Calls `cgroups_rs::systemd::utils::expand_slice`: it returns the path of a
/// slice below the cgroup mount point, and "invalid argument" where the name
/// has no such path.
#[verifier::external_body]
fn expand_slice(slice: &str) -> (r: Result<String, String>)
    ensures
        match slice_path(slice@) {
            Some(path) => r matches Ok(text) && text@ == path,
            None => fails_with(r, "invalid argument"@),
        },
{
    cgroups_rs::systemd::utils::expand_slice(slice).map_err(|error| error.to_string())
}

/// The slice and the scope that a systemd cgroups path names.
pub open spec fn systemd_components(path: Seq<char>, instance_id: Seq<char>) -> Result<
    (Seq<char>, Seq<char>),
    Seq<char>,
> {
    let parts = pieces(path, ':');
    if parts.len() != 3 || parts[0].len() == 0 || parts[1] != "cri-containerd"@ || parts[2]
        != instance_id {
        Err("invalid managed systemd cgroupsPath "@ + path)
    } else {
        Ok((parts[0], "cri-containerd-"@ + instance_id + ".scope"@))
    }
}

/// The slice and the scope that a systemd cgroups path names: the path is the
/// slice, the runtime's name and the sandbox, with colons between them.
pub fn parse_systemd_target_components(path: &str, instance_id: &str) -> (r: Result<
    (String, String),
    String,
>)
    ensures
        match systemd_components(path@, instance_id@) {
            Ok((slice, unit)) => r matches Ok((s, u)) && s@ == slice && u@ == unit,
            Err(message) => fails_with(r, message),
        },
{
    let parts = split_on(path, ':');
    let ghost all = pieces(path@, ':');
    assert(all == views(parts@));
    if parts.len() != 3 {
        return Err("invalid managed systemd cgroupsPath ".to_owned().concat(path));
    }
    assert(all[0] == parts@[0]@ && all[1] == parts@[1]@ && all[2] == parts@[2]@);
    if parts[0].as_str().is_empty() || !text_eq(parts[1].as_str(), "cri-containerd") || !text_eq(
        parts[2].as_str(),
        instance_id,
    ) {
        return Err("invalid managed systemd cgroupsPath ".to_owned().concat(path));
    }
    Ok((parts[0].clone(), "cri-containerd-".to_owned().concat(instance_id).concat(".scope")))
}

/// The cgroup path that a CRI parent means, or why it means none.
pub open spec fn cri_parent_path(parent: Seq<char>) -> Result<Seq<char>, Seq<char>> {
    let parent = trimmed(parent);
    if parent.len() == 0 {
        Err("managed CRI cgroup_parent is empty"@)
    } else if parent.contains(':') {
        Err("CRI cgroup_parent is not a parent path: "@ + parent)
    } else if !parent.contains('/') && has_suffix(parent, ".slice"@) {
        match slice_path(parent) {
            None => Err("expand CRI systemd parent "@ + parent + ": "@ + "invalid argument"@),
            Some(path) => Ok("/"@ + path),
        }
    } else {
        match relative_cgroup(parent) {
            Err(message) => Err(message),
            Ok(path) => Ok("/"@ + path),
        }
    }
}

/// The cgroup path that a CRI parent means: a slice name is expanded, any
/// other path is normalised.
pub fn canonical_cri_cgroup_parent(parent: &str) -> (r: Result<String, String>)
    ensures
        outcome(r) == cri_parent_path(parent@),
{
    let parent = trim(parent);
    let text = parent.as_str();
    if text.is_empty() {
        return Err("managed CRI cgroup_parent is empty".to_owned());
    }
    if contains_char(text, ':') {
        return Err("CRI cgroup_parent is not a parent path: ".to_owned().concat(text));
    }
    if !contains_char(text, '/') && ends_with(text, ".slice") {
        return match expand_slice(text) {
            Err(error) => Err(
                "expand CRI systemd parent ".to_owned().concat(text).concat(": ").concat(
                    error.as_str(),
                ),
            ),
            Ok(path) => Ok("/".to_owned().concat(path.as_str())),
        };
    }
    match normalized_cgroup_relative(text) {
        Err(message) => Err(message),
        Ok(path) => Ok("/".to_owned().concat(path.as_str())),
    }
}

/// The OCI cgroups path of a sandbox under a CRI parent, or why there is none.
pub open spec fn cri_target_path(parent: Seq<char>, instance_id: Seq<char>) -> Result<
    Seq<char>,
    Seq<char>,
> {
    match cri_parent_path(parent) {
        Err(message) => Err(message),
        Ok(canonical) => match last_name(canonical) {
            None => Err("CRI cgroup_parent has no UTF-8 basename: "@ + canonical),
            Some(basename) => if has_suffix(basename, ".slice"@) {
                match slice_path(basename) {
                    None => Err(
                        "expand CRI systemd parent "@ + basename + ": "@ + "invalid argument"@,
                    ),
                    Some(expanded) => if canonical != "/"@ + expanded {
                        Err(
                            "CRI systemd parent path does not match slice "@ + basename + ": "@
                                + canonical,
                        )
                    } else {
                        Ok(basename + ":cri-containerd:"@ + instance_id)
                    },
                }
            } else {
                Ok(joined(canonical, instance_id))
            },
        },
    }
}

/// The OCI cgroups path of a sandbox under a CRI parent. A parent that ends in
/// a slice must be exactly that slice's hierarchy.
pub fn target_path_from_cri_parent(parent: &str, instance_id: &str) -> (r: Result<String, String>)
    ensures
        outcome(r) == cri_target_path(parent@, instance_id@),
{
    let canonical = match canonical_cri_cgroup_parent(parent) {
        Err(message) => return Err(message),
        Ok(canonical) => canonical,
    };
    let basename = match file_name(canonical.as_str()) {
        None => return Err(
            "CRI cgroup_parent has no UTF-8 basename: ".to_owned().concat(canonical.as_str()),
        ),
        Some(basename) => basename,
    };
    if ends_with(basename.as_str(), ".slice") {
        let expanded = match expand_slice(basename.as_str()) {
            Err(error) => return Err(
                "expand CRI systemd parent ".to_owned().concat(basename.as_str()).concat(
                    ": ",
                ).concat(error.as_str()),
            ),
            Ok(expanded) => expanded,
        };
        let wanted = "/".to_owned().concat(expanded.as_str());
        if !text_eq(canonical.as_str(), wanted.as_str()) {
            return Err(
                "CRI systemd parent path does not match slice ".to_owned().concat(
                    basename.as_str(),
                ).concat(": ").concat(canonical.as_str()),
            );
        }
        return Ok(basename.concat(":cri-containerd:").concat(instance_id));
    }
    Ok(join(canonical.as_str(), instance_id))
}

/// The cgroup mounts among the first lines of a mount table, or why the table
/// is malformed.
pub open spec fn cgroup_mounts(lines: Seq<Seq<char>>) -> Result<
    Seq<(Seq<char>, Seq<char>)>,
    Seq<char>,
>
    decreases lines.len(),
{
    if lines.len() == 0 {
        Ok(Seq::empty())
    } else {
        match cgroup_mounts(lines.drop_last()) {
            Err(message) => Err(message),
            Ok(mounts) => match split_once_spec(lines.last(), " - "@) {
                None => Err("malformed /proc/self/mountinfo entry"@),
                Some((before, after)) => if words(after).len() == 0 {
                    Err("mountinfo entry has no filesystem type"@)
                } else if words(after)[0] != "cgroup2"@ {
                    Ok(mounts)
                } else if words(before).len() <= 2 {
                    Err("cgroup2 mountinfo entry has no major:minor"@)
                } else if words(before).len() <= 4 {
                    Err("cgroup2 mountinfo entry has no mountpoint"@)
                } else {
                    Ok(mounts.push((words(before)[2], words(before)[4])))
                },
            },
        }
    }
}

/// The mounts at the primary mount point.
pub open spec fn primary_mounts(mounts: Seq<(Seq<char>, Seq<char>)>) -> Seq<Seq<char>>
    decreases mounts.len(),
{
    if mounts.len() == 0 {
        Seq::empty()
    } else if mounts.last().1 == "/sys/fs/cgroup"@ {
        primary_mounts(mounts.drop_last()).push(mounts.last().0)
    } else {
        primary_mounts(mounts.drop_last())
    }
}

/// Why a mount table does not show one unified cgroup hierarchy, if it does
/// not.
pub open spec fn mount_fault(mountinfo: Seq<char>) -> Option<Seq<char>> {
    match cgroup_mounts(lines_of(mountinfo)) {
        Err(message) => Some(message),
        Ok(mounts) => if primary_mounts(mounts).len() != 1 {
            Some(
                "require exactly one primary cgroup-v2 mount at /sys/fs/cgroup, found "@
                    + listed_pairs(mounts),
            )
        } else if exists|i: int|
            0 <= i < mounts.len() && (#[trigger] mounts[i]).0 != primary_mounts(mounts)[0] {
            Some("multiple cgroup-v2 hierarchies are visible, found "@ + listed_pairs(mounts))
        } else {
            None
        },
    }
}

fn read_mounts(mountinfo: &str) -> (r: Result<Vec<(String, String)>, String>)
    ensures
        match cgroup_mounts(lines_of(mountinfo@)) {
            Ok(mounts) => r matches Ok(found) && pair_views(found@) == mounts,
            Err(message) => fails_with(r, message),
        },
{
    let lines = split_lines(mountinfo);
    let ghost all = lines_of(mountinfo@);
    let mut mounts: Vec<(String, String)> = Vec::new();
    let mut i: usize = 0;
    assert(pair_views(mounts@) =~= Seq::<(Seq<char>, Seq<char>)>::empty());
    assert(cgroup_mounts(all.take(0)) == Ok::<Seq<(Seq<char>, Seq<char>)>, Seq<char>>(
        Seq::empty(),
    ));
    while i < lines.len()
        invariant
            all == views(lines@),
            all == lines_of(mountinfo@),
            i <= lines.len(),
            cgroup_mounts(all.take(i as int)) == Ok::<Seq<(Seq<char>, Seq<char>)>, Seq<char>>(
                pair_views(mounts@),
            ),
        decreases lines.len() - i,
    {
        proof {
            assert(all.take(i + 1).drop_last() =~= all.take(i as int));
            assert(all.take(i + 1).last() == lines@[i as int]@);
            if cgroup_mounts(all.take(i + 1)) is Err {
                lemma_mounts_error(all, i + 1);
            }
        }
        let (before, after) = match split_once(lines[i].as_str(), " - ") {
            None => return Err("malformed /proc/self/mountinfo entry".to_owned()),
            Some(halves) => halves,
        };
        let kind = split_words(after.as_str());
        assert(words(after@) == views(kind@));
        if kind.len() == 0 {
            return Err("mountinfo entry has no filesystem type".to_owned());
        }
        assert(words(after@)[0] == kind@[0]@);
        if text_eq(kind[0].as_str(), "cgroup2") {
            let fields = split_words(before.as_str());
            assert(words(before@) == views(fields@));
            if fields.len() <= 2 {
                return Err("cgroup2 mountinfo entry has no major:minor".to_owned());
            }
            if fields.len() <= 4 {
                return Err("cgroup2 mountinfo entry has no mountpoint".to_owned());
            }
            let ghost earlier = mounts@;
            mounts.push((fields[2].clone(), fields[4].clone()));
            assert(pair_views(mounts@) =~= pair_views(earlier).push(
                (words(before@)[2], words(before@)[4]),
            ));
        }
        i = i + 1;
    }
    assert(all.take(i as int) =~= all);
    Ok(mounts)
}

proof fn lemma_mounts_error(lines: Seq<Seq<char>>, n: int)
    requires
        0 <= n <= lines.len(),
        cgroup_mounts(lines.take(n)) is Err,
    ensures
        cgroup_mounts(lines) == cgroup_mounts(lines.take(n)),
    decreases lines.len() - n,
{
    if n < lines.len() {
        assert(lines.take(n + 1).drop_last() =~= lines.take(n));
        lemma_mounts_error(lines, n + 1);
    } else {
        assert(lines.take(n) =~= lines);
    }
}

/// Checks that a mount table shows one unified cgroup hierarchy, mounted once
/// at its primary mount point; other mounts of it are aliases.
pub fn validate_unified_cgroup_mountinfo(mountinfo: &str) -> (r: Result<(), String>)
    ensures
        passes_unless(r, mount_fault(mountinfo@)),
{
    let mounts = match read_mounts(mountinfo) {
        Err(message) => return Err(message),
        Ok(mounts) => mounts,
    };
    let ghost all = pair_views(mounts@);
    let mut primary: Vec<String> = Vec::new();
    let mut i: usize = 0;
    assert(views(primary@) =~= primary_mounts(all.take(0)));
    while i < mounts.len()
        invariant
            all == pair_views(mounts@),
            i <= mounts.len(),
            views(primary@) == primary_mounts(all.take(i as int)),
        decreases mounts.len() - i,
    {
        proof {
            assert(all.take(i + 1).drop_last() =~= all.take(i as int));
            assert(all.take(i + 1).last() == (mounts@[i as int].0@, mounts@[i as int].1@));
        }
        let ghost earlier = primary@;
        if text_eq(mounts[i].1.as_str(), "/sys/fs/cgroup") {
            primary.push(mounts[i].0.clone());
            assert(views(primary@) =~= views(earlier).push(mounts@[i as int].0@));
        }
        i = i + 1;
    }
    assert(all.take(i as int) =~= all);
    if primary.len() != 1 {
        return Err(
            "require exactly one primary cgroup-v2 mount at /sys/fs/cgroup, found ".to_owned().concat(
            list_pairs(&mounts).as_str()),
        );
    }
    assert(primary_mounts(all)[0] == primary@[0]@);
    let mut k: usize = 0;
    while k < mounts.len()
        invariant
            all == pair_views(mounts@),
            cgroup_mounts(lines_of(mountinfo@)) == Ok::<Seq<(Seq<char>, Seq<char>)>, Seq<char>>(
                all,
            ),
            primary_mounts(all).len() == 1,
            primary@.len() == 1,
            primary_mounts(all)[0] == primary@[0]@,
            k <= mounts.len(),
            forall|j: int| 0 <= j < k ==> (#[trigger] all[j]).0 == primary@[0]@,
        decreases mounts.len() - k,
    {
        assert(all[k as int].0 == mounts@[k as int].0@);
        if !text_eq(mounts[k].0.as_str(), primary[0].as_str()) {
            return Err(
                "multiple cgroup-v2 hierarchies are visible, found ".to_owned().concat(
                    list_pairs(&mounts).as_str(),
                ),
            );
        }
        k = k + 1;
    }
    Ok(())
}

/// A Host target whose directories have not been looked at yet.
#[derive(Debug, PartialEq, Eq)]
pub enum PlannedTarget {
    Systemd { oci_path: String, slice: String, unit: String, cgroup: String },
    Cgroupfs { oci_path: String, cgroup: String },
}

/// The contents of a [`PlannedTarget`].
pub enum PlannedTargetView {
    Systemd { oci_path: Seq<char>, slice: Seq<char>, unit: Seq<char>, cgroup: Seq<char> },
    Cgroupfs { oci_path: Seq<char>, cgroup: Seq<char> },
}

impl View for PlannedTarget {
    type V = PlannedTargetView;

    open spec fn view(&self) -> PlannedTargetView {
        match self {
            PlannedTarget::Systemd { oci_path, slice, unit, cgroup } => {
                PlannedTargetView::Systemd {
                    oci_path: oci_path@,
                    slice: slice@,
                    unit: unit@,
                    cgroup: cgroup@,
                }
            },
            PlannedTarget::Cgroupfs { oci_path, cgroup } => PlannedTargetView::Cgroupfs {
                oci_path: oci_path@,
                cgroup: cgroup@,
            },
        }
    }
}

/// The target that an OCI cgroups path names, or why it names none.
pub open spec fn target_plan(path: Seq<char>, instance_id: Seq<char>) -> Result<
    PlannedTargetView,
    Seq<char>,
> {
    if path.contains(':') {
        match systemd_components(path, instance_id) {
            Err(message) => Err(message),
            Ok((slice, unit)) => match slice_path(slice) {
                None => Err("expand systemd slice "@ + slice + ": "@ + "invalid argument"@),
                Some(expanded) => Ok(
                    PlannedTargetView::Systemd {
                        oci_path: path,
                        slice,
                        unit,
                        cgroup: "/"@ + expanded + "/"@ + unit,
                    },
                ),
            },
        }
    } else {
        match relative_cgroup(path) {
            Err(message) => Err(message),
            Ok(relative) => if last_name(relative) != Some(instance_id) {
                Err("cgroupfs leaf "@ + relative + " does not match sandbox "@ + instance_id)
            } else {
                Ok(PlannedTargetView::Cgroupfs { oci_path: path, cgroup: "/"@ + relative })
            },
        }
    }
}

/// Why the cgroup file system cannot be used, if it cannot: the mount table
/// could not be read, or it does not show one unified hierarchy.
pub open spec fn mount_table_fault(mountinfo: Result<String, String>) -> Option<Seq<char>> {
    match mountinfo {
        Err(message) => Some(message@),
        Ok(table) => mount_fault(table@),
    }
}

/// Checks that the cgroup file system can be used.
pub fn validate_unified_cgroup_mount(mountinfo: &Result<String, String>) -> (r: Result<(), String>)
    ensures
        passes_unless(r, mount_table_fault(*mountinfo)),
{
    match mountinfo {
        Err(message) => Err(message.clone()),
        Ok(table) => validate_unified_cgroup_mountinfo(table.as_str()),
    }
}

/// The target that an OCI cgroups path names, on a Host with this mount table.
pub fn plan_host_target(path: &str, instance_id: &str, mountinfo: &Result<String, String>) -> (r:
    Result<PlannedTarget, String>)
    ensures
        match mount_table_fault(*mountinfo) {
            Some(message) => fails_with(r, message),
            None => match target_plan(path@, instance_id@) {
                Err(message) => fails_with(r, message),
                Ok(plan) => r matches Ok(found) && found@ == plan,
            },
        },
{
    if let Err(message) = validate_unified_cgroup_mount(mountinfo) {
        return Err(message);
    }
    if contains_char(path, ':') {
        let (slice, unit) = match parse_systemd_target_components(path, instance_id) {
            Err(message) => return Err(message),
            Ok(components) => components,
        };
        let expanded = match expand_slice(slice.as_str()) {
            Err(error) => return Err(
                "expand systemd slice ".to_owned().concat(slice.as_str()).concat(": ").concat(
                    error.as_str(),
                ),
            ),
            Ok(expanded) => expanded,
        };
        let cgroup = "/".to_owned().concat(expanded.as_str()).concat("/").concat(unit.as_str());
        return Ok(PlannedTarget::Systemd { oci_path: path.to_owned(), slice, unit, cgroup });
    }
    let relative = match normalized_cgroup_relative(path) {
        Err(message) => return Err(message),
        Ok(relative) => relative,
    };
    let matches_leaf = match file_name(relative.as_str()) {
        None => false,
        Some(name) => text_eq(name.as_str(), instance_id),
    };
    if !matches_leaf {
        return Err(
            "cgroupfs leaf ".to_owned().concat(relative.as_str()).concat(
                " does not match sandbox ",
            ).concat(instance_id),
        );
    }
    Ok(
        PlannedTarget::Cgroupfs {
            oci_path: path.to_owned(),
            cgroup: "/".to_owned().concat(relative.as_str()),
        },
    )
}

/// What the Host shows of the directory that is to hold a cgroup: its canonical
/// path, and the identity under the canonical path.
pub struct ParentSighting {
    pub canonical: Result<String, String>,
    pub identity: Result<FileIdentity, String>,
}

/// Whether a path lies below the cgroup mount point, the mount point included.
pub open spec fn under_cgroup_root(path: Seq<char>) -> bool {
    is_rooted(path) && path_names(path).len() >= 3 && path_names(path)[0] == "sys"@ && path_names(
        path,
    )[1] == "fs"@ && path_names(path)[2] == "cgroup"@
}

fn below_cgroup_root(path: &str) -> (r: bool)
    ensures
        r == under_cgroup_root(path@),
{
    let all = names(path);
    assert(path_names(path@) == views(all@));
    if !rooted(path) || all.len() < 3 {
        return false;
    }
    assert(path_names(path@)[0] == all@[0]@);
    assert(path_names(path@)[1] == all@[1]@);
    assert(path_names(path@)[2] == all@[2]@);
    text_eq(all[0].as_str(), "sys") && text_eq(all[1].as_str(), "fs") && text_eq(
        all[2].as_str(),
        "cgroup",
    )
}

/// The identity of the directory that is to hold a cgroup, or why it may not:
/// it must be its own canonical path, properly below the mount point.
pub open spec fn parent_outcome(cgroup: Seq<char>, seen: ParentSighting) -> Result<
    FileIdentity,
    Seq<char>,
> {
    match parent_spec(cgroup_path(cgroup)) {
        None => Err("cgroup path has no parent: "@ + cgroup),
        Some(parent) => match seen.canonical {
            Err(message) => Err("canonicalize cgroup parent "@ + parent + ": "@ + message@),
            Ok(canonical) => if !under_cgroup_root(canonical@) || same_path_spec(
                canonical@,
                "/sys/fs/cgroup"@,
            ) || !same_path_spec(canonical@, parent) {
                Err("managed cgroup parent escapes delegated hierarchy: "@ + canonical@)
            } else {
                match seen.identity {
                    Err(message) => Err(message@),
                    Ok(identity) => Ok(identity),
                }
            },
        },
    }
}

/// The identity of the directory that is to hold a cgroup.
pub fn validate_cgroup_parent(cgroup: &str, seen: &ParentSighting) -> (r: Result<
    FileIdentity,
    String,
>)
    ensures
        match parent_outcome(cgroup@, *seen) {
            Err(message) => fails_with(r, message),
            Ok(identity) => r == Ok::<FileIdentity, String>(identity),
        },
{
    let parent = match parent_path(cgroup_directory(cgroup).as_str()) {
        None => return Err("cgroup path has no parent: ".to_owned().concat(cgroup)),
        Some(parent) => parent,
    };
    let canonical = match &seen.canonical {
        Err(message) => return Err(
            "canonicalize cgroup parent ".to_owned().concat(parent.as_str()).concat(": ").concat(
                message.as_str(),
            ),
        ),
        Ok(canonical) => canonical,
    };
    if !below_cgroup_root(canonical.as_str()) || same_path(canonical.as_str(), "/sys/fs/cgroup")
        || !same_path(canonical.as_str(), parent.as_str()) {
        return Err(
            "managed cgroup parent escapes delegated hierarchy: ".to_owned().concat(
                canonical.as_str(),
            ),
        );
    }
    match &seen.identity {
        Err(message) => Err(message.clone()),
        Ok(identity) => Ok(*identity),
    }
}

impl PlannedTargetView {
    /// The cgroup that is planned.
    pub open spec fn cgroup_of(self) -> Seq<char> {
        match self {
            PlannedTargetView::Systemd { cgroup, .. } => cgroup,
            PlannedTargetView::Cgroupfs { cgroup, .. } => cgroup,
        }
    }
}

/// A planned target with the identities of its directories.
pub open spec fn settled(
    plan: PlannedTargetView,
    parent: FileIdentity,
    leaf: Option<FileIdentity>,
) -> HostTargetView {
    match plan {
        PlannedTargetView::Systemd { oci_path, slice, unit, cgroup } => HostTargetView::Systemd {
            oci_path,
            slice,
            unit,
            cgroup,
            parent_identity: parent,
            leaf_identity: leaf,
        },
        PlannedTargetView::Cgroupfs { oci_path, cgroup } => HostTargetView::Cgroupfs {
            oci_path,
            cgroup,
            parent_identity: parent,
            leaf_identity: leaf,
        },
    }
}

/// What becomes of a planned target once its directories were looked at.
pub open spec fn settle_outcome(
    plan: PlannedTargetView,
    parent: ParentSighting,
    leaf: Result<Option<FileIdentity>, String>,
) -> Result<HostTargetView, Seq<char>> {
    match parent_outcome(plan.cgroup_of(), parent) {
        Err(message) => Err(message),
        Ok(identity) => match leaf {
            Err(message) => Err(message@),
            Ok(leaf) => Ok(settled(plan, identity, leaf)),
        },
    }
}

/// The contents of a target or of the reason why there is none.
pub open spec fn target_result(r: Result<HostTarget, String>) -> Result<
    HostTargetView,
    Seq<char>,
> {
    match r {
        Ok(target) => Ok(target@),
        Err(message) => Err(message@),
    }
}

/// The target of a plan, once its directories were looked at: the directory
/// that holds it and, where it exists, its own.
pub fn parse_host_target(
    plan: PlannedTarget,
    parent: &ParentSighting,
    leaf: &Result<Option<FileIdentity>, String>,
) -> (r: Result<HostTarget, String>)
    ensures
        target_result(r) == settle_outcome(plan@, *parent, *leaf),
{
    let validated = match &plan {
        PlannedTarget::Systemd { cgroup, .. } => validate_cgroup_parent(cgroup.as_str(), parent),
        PlannedTarget::Cgroupfs { cgroup, .. } => validate_cgroup_parent(cgroup.as_str(), parent),
    };
    let parent_identity = match validated {
        Err(message) => return Err(message),
        Ok(identity) => identity,
    };
    let leaf_identity = match leaf {
        Err(message) => return Err(message.clone()),
        Ok(identity) => *identity,
    };
    Ok(
        match plan {
            PlannedTarget::Systemd { oci_path, slice, unit, cgroup } => HostTarget::Systemd {
                oci_path,
                slice,
                unit,
                cgroup,
                parent_identity,
                leaf_identity,
            },
            PlannedTarget::Cgroupfs { oci_path, cgroup } => HostTarget::Cgroupfs {
                oci_path,
                cgroup,
                parent_identity,
                leaf_identity,
            },
        },
    )
}

/// What the classification reads of an OCI runtime specification.
#[derive(Debug, PartialEq, Eq)]
pub struct BundleSpec {
    pub container_type: Option<String>,
    pub sandbox_id: Option<String>,
    pub cgroups_path: Option<String>,
}

/// The contents of a [`BundleSpec`].
pub struct BundleSpecView {
    pub container_type: Option<Seq<char>>,
    pub sandbox_id: Option<Seq<char>>,
    pub cgroups_path: Option<Seq<char>>,
}

impl View for BundleSpec {
    type V = BundleSpecView;

    open spec fn view(&self) -> BundleSpecView {
        BundleSpecView {
            container_type: opt_view(self.container_type),
            sandbox_id: opt_view(self.sandbox_id),
            cgroups_path: opt_view(self.cgroups_path),
        }
    }
}

/// What an encoded OCI runtime specification holds: the annotations under two
/// keys and the cgroups path, or the message with which decoding fails.
pub uninterp spec fn decoded_bundle_spec(
    data: Seq<u8>,
    type_key: Seq<char>,
    id_key: Seq<char>,
) -> Result<(Option<Seq<char>>, Option<Seq<char>>, Option<Seq<char>>), Seq<char>>;

/// Calls `serde_json::from_slice` for `oci_spec::runtime::Spec` and picks two
/// annotations and the Linux cgroups path of the result. What they are, or the
/// displayed error, is named `decoded_bundle_spec`.
#[verifier::external_body]
fn decode_bundle_spec(data: &[u8], type_key: &str, id_key: &str) -> (r: Result<BundleSpec, String>)
    ensures
        match decoded_bundle_spec(data@, type_key@, id_key@) {
            Err(message) => fails_with(r, message),
            Ok((container_type, sandbox_id, cgroups_path)) => r matches Ok(spec) && spec@ == (
            BundleSpecView { container_type, sandbox_id, cgroups_path }),
        },
{
    let spec: oci_spec::runtime::Spec = serde_json::from_slice(data).map_err(|e| e.to_string())?;
    let annotations = spec.annotations().as_ref();
    let linux = spec.linux().as_ref();
    Ok(
        BundleSpec {
            container_type: annotations.and_then(|values| values.get(type_key)).cloned(),
            sandbox_id: annotations.and_then(|values| values.get(id_key)).cloned(),
            cgroups_path: linux.and_then(|l| l.cgroups_path().as_ref()).map(
                |path| path.display().to_string(),
            ),
        },
    )
}

/// What a bundle's specification file holds, or why it cannot be used.
pub open spec fn bundle_spec_outcome(
    path: Seq<char>,
    data: Result<Vec<u8>, String>,
) -> Result<BundleSpecView, Seq<char>> {
    match data {
        Err(error) => Err("read sandbox OCI spec "@ + path + ": "@ + error@),
        Ok(bytes) => match decoded_bundle_spec(
            bytes@,
            CONTAINER_TYPE_ANNOTATION@,
            SANDBOX_ID_ANNOTATION@,
        ) {
            Err(error) => Err("decode sandbox OCI spec "@ + path + ": "@ + error),
            Ok((container_type, sandbox_id, cgroups_path)) => Ok(
                BundleSpecView { container_type, sandbox_id, cgroups_path },
            ),
        },
    }
}

/// What a bundle's specification file, read from `path`, holds.
pub fn load_spec(path: &str, data: &Result<Vec<u8>, String>) -> (r: Result<BundleSpec, String>)
    ensures
        match bundle_spec_outcome(path@, *data) {
            Err(message) => fails_with(r, message),
            Ok(spec) => r matches Ok(found) && found@ == spec,
        },
{
    match data {
        Err(error) => Err(
            "read sandbox OCI spec ".to_owned().concat(path).concat(": ").concat(error.as_str()),
        ),
        Ok(bytes) => match decode_bundle_spec(
            bytes.as_slice(),
            CONTAINER_TYPE_ANNOTATION,
            SANDBOX_ID_ANNOTATION,
        ) {
            Err(error) => Err(
                "decode sandbox OCI spec ".to_owned().concat(path).concat(": ").concat(
                    error.as_str(),
                ),
            ),
            Ok(spec) => Ok(spec),
        },
    }
}

/// What a bundle is and where its processes belong, or why it is refused.
pub open spec fn classification(
    spec: BundleSpecView,
    namespace: Seq<char>,
    instance_id: Seq<char>,
    original_cgroup: Seq<char>,
    id_check: Result<(), String>,
    target: Result<HostTarget, String>,
) -> Result<(Classification, HostTargetView), Seq<char>> {
    match (spec.container_type, spec.sandbox_id) {
        (Some(kind), Some(sandbox_id)) => if kind == "sandbox"@ {
            if namespace != "k8s.io"@ {
                Err("managed sandbox requires bootstrap namespace k8s.io"@)
            } else if sandbox_id != instance_id {
                Err(
                    "sandbox annotation id "@ + sandbox_id + " does not match bootstrap "@
                        + instance_id,
                )
            } else if id_check is Err {
                Err(id_check->Err_0@)
            } else if spec.cgroups_path is None {
                Err("managed sandbox OCI spec has no linux.cgroupsPath"@)
            } else {
                match target {
                    Err(message) => Err(message@),
                    Ok(target) => Ok((Classification::ManagedSandbox, target@)),
                }
            }
        } else if kind == "container"@ {
            if namespace != "k8s.io"@ {
                Err("CRI container requires bootstrap namespace k8s.io"@)
            } else if id_check is Err {
                Err(id_check->Err_0@)
            } else {
                Ok((Classification::LegacyTask, HostTargetView::Legacy { cgroup: original_cgroup }))
            }
        } else {
            Err("unsupported CRI container type "@ + kind)
        },
        (None, None) => Ok(
            (Classification::LegacyTask, HostTargetView::Legacy { cgroup: original_cgroup }),
        ),
        _ => Err("CRI classification annotations must be both present or both absent"@),
    }
}

/// What a bundle is and where its processes belong. `id_check` is whether the
/// annotated sandbox id is a valid one, and `target` the target that the
/// specification's cgroups path names, where it has one.
pub fn classify_and_target(
    spec: &BundleSpec,
    namespace: &str,
    instance_id: &str,
    original_cgroup: &str,
    id_check: &Result<(), String>,
    target: &Result<HostTarget, String>,
) -> (r: Result<(Classification, HostTarget), String>)
    ensures
        match classification(
            spec@,
            namespace@,
            instance_id@,
            original_cgroup@,
            *id_check,
            *target,
        ) {
            Err(message) => fails_with(r, message),
            Ok((class, place)) => r matches Ok((c, t)) && c == class && t@ == place,
        },
{
    match (&spec.container_type, &spec.sandbox_id) {
        (Some(kind), Some(sandbox_id)) => {
            if text_eq(kind.as_str(), "sandbox") {
                if !text_eq(namespace, "k8s.io") {
                    return Err(
                        "managed sandbox requires bootstrap namespace k8s.io".to_owned(),
                    );
                }
                if !text_eq(sandbox_id.as_str(), instance_id) {
                    return Err(
                        "sandbox annotation id ".to_owned().concat(sandbox_id.as_str()).concat(
                            " does not match bootstrap ",
                        ).concat(instance_id),
                    );
                }
                if let Err(message) = id_check {
                    return Err(message.clone());
                }
                if spec.cgroups_path.is_none() {
                    return Err("managed sandbox OCI spec has no linux.cgroupsPath".to_owned());
                }
                match target {
                    Err(message) => Err(message.clone()),
                    Ok(target) => Ok((Classification::ManagedSandbox, target.clone())),
                }
            } else if text_eq(kind.as_str(), "container") {
                if !text_eq(namespace, "k8s.io") {
                    return Err("CRI container requires bootstrap namespace k8s.io".to_owned());
                }
                if let Err(message) = id_check {
                    return Err(message.clone());
                }
                Ok(
                    (
                        Classification::LegacyTask,
                        HostTarget::Legacy { cgroup: original_cgroup.to_owned() },
                    ),
                )
            } else {
                Err("unsupported CRI container type ".to_owned().concat(kind.as_str()))
            }
        },
        (None, None) => Ok(
            (
                Classification::LegacyTask,
                HostTarget::Legacy { cgroup: original_cgroup.to_owned() },
            ),
        ),
        _ => Err(
            "CRI classification annotations must be both present or both absent".to_owned(),
        ),
    }
}

/// Only a bundle annotated as the sandbox of this very instance, in the CRI
/// namespace, is managed; every other accepted bundle keeps its cgroup.
pub proof fn law_only_the_annotated_sandbox_is_managed(
    spec: BundleSpecView,
    namespace: Seq<char>,
    instance_id: Seq<char>,
    original_cgroup: Seq<char>,
    id_check: Result<(), String>,
    target: Result<HostTarget, String>,
)
    requires
        classification(spec, namespace, instance_id, original_cgroup, id_check, target) is Ok,
    ensures
        ({
            let (class, place) = classification(
                spec,
                namespace,
                instance_id,
                original_cgroup,
                id_check,
                target,
            )->Ok_0;
            &&& class != Classification::Pending
            &&& class == Classification::ManagedSandbox ==> spec.container_type == Some("sandbox"@)
                && spec.sandbox_id == Some(instance_id) && namespace == "k8s.io"@
            &&& class == Classification::LegacyTask ==> place == (HostTargetView::Legacy {
                cgroup: original_cgroup,
            })
        }),
{
}

/// Why a CRI parent is not the parent of a managed record's target, if it is
/// not; the identity of the parent's directory is given with its path.
pub open spec fn cri_parent_fault(
    record: LifecycleRecordView,
    cgroup_parent: Seq<char>,
    mountinfo: Result<String, String>,
    directory: Seq<char>,
    identity: Result<FileIdentity, String>,
) -> Option<Seq<char>> {
    if record.classification != Classification::ManagedSandbox {
        None
    } else if mount_table_fault(mountinfo) is Some {
        mount_table_fault(mountinfo)
    } else {
        match cri_parent_path(cgroup_parent) {
            Err(message) => Some(message),
            Ok(actual) => if !record.target.is_managed() {
                Some("managed lifecycle unexpectedly uses a legacy Host target"@)
            } else {
                match parent_spec(record.target.location()) {
                    None => Some("Host target has no parent: "@ + record.target.location()),
                    Some(expected) => if actual != expected {
                        Some(
                            "CRI cgroup_parent "@ + actual + " does not match OCI Host parent "@
                                + expected,
                        )
                    } else {
                        match identity {
                            Err(message) => Some(message@),
                            Ok(found) => if Some(found) != record.target.parent() {
                                Some("CRI cgroup_parent identity changed: "@ + directory)
                            } else {
                                None
                            },
                        }
                    },
                }
            },
        }
    }
}

/// Checks that a CRI parent is the parent of a managed record's target.
pub fn validate_cri_parent(
    record: &LifecycleRecord,
    cgroup_parent: &str,
    mountinfo: &Result<String, String>,
    directory: &str,
    identity: &Result<FileIdentity, String>,
) -> (r: Result<(), String>)
    ensures
        passes_unless(
            r,
            cri_parent_fault(record@, cgroup_parent@, *mountinfo, directory@, *identity),
        ),
{
    if record.classification != Classification::ManagedSandbox {
        return Ok(());
    }
    if let Err(message) = validate_unified_cgroup_mount(mountinfo) {
        return Err(message);
    }
    let actual = match canonical_cri_cgroup_parent(cgroup_parent) {
        Err(message) => return Err(message),
        Ok(actual) => actual,
    };
    let expected_identity = match record.target.parent_identity() {
        None => return Err("managed lifecycle unexpectedly uses a legacy Host target".to_owned()),
        Some(identity) => identity,
    };
    let expected = match parent_path(record.target.cgroup()) {
        None => return Err(
            "Host target has no parent: ".to_owned().concat(record.target.cgroup()),
        ),
        Some(expected) => expected,
    };
    if !text_eq(actual.as_str(), expected.as_str()) {
        return Err(
            "CRI cgroup_parent ".to_owned().concat(actual.as_str()).concat(
                " does not match OCI Host parent ",
            ).concat(expected.as_str()),
        );
    }
    match identity {
        Err(message) => Err(message.clone()),
        Ok(found) => {
            if *found != expected_identity {
                return Err("CRI cgroup_parent identity changed: ".to_owned().concat(directory));
            }
            Ok(())
        },
    }
}

/// A path of three parts with the runtime's name in the middle and the sandbox's
/// at the end names its slice, and its scope is the runtime's one for the
/// sandbox; any other path is refused.
pub proof fn law_systemd_paths_name_slice_and_scope(
    path: Seq<char>,
    instance_id: Seq<char>,
    slice: Seq<char>,
)
    ensures
        pieces(path, ':') == seq![slice, "cri-containerd"@, instance_id] && slice.len() > 0
            ==> systemd_components(path, instance_id) == Ok::<(Seq<char>, Seq<char>), Seq<char>>(
            (slice, "cri-containerd-"@ + instance_id + ".scope"@),
        ),
        systemd_components(path, instance_id) is Ok ==> pieces(path, ':').len() == 3 && pieces(
            path,
            ':',
        )[0].len() > 0 && pieces(path, ':')[1] == "cri-containerd"@ && pieces(path, ':')[2]
            == instance_id,
{
}

/// A sandbox's systemd target is its scope inside its expanded slice, and its
/// cgroupfs target is the path itself, whose last name is the sandbox's.
pub proof fn law_targets_follow_from_the_path(
    path: Seq<char>,
    instance_id: Seq<char>,
    slice: Seq<char>,
    expanded: Seq<char>,
    relative: Seq<char>,
)
    ensures
        path.contains(':') && pieces(path, ':') == seq![slice, "cri-containerd"@, instance_id]
            && slice.len() > 0 && slice_path(slice) == Some(expanded) ==> target_plan(
            path,
            instance_id,
        ) == Ok::<PlannedTargetView, Seq<char>>(
            PlannedTargetView::Systemd {
                oci_path: path,
                slice,
                unit: "cri-containerd-"@ + instance_id + ".scope"@,
                cgroup: "/"@ + expanded + "/"@ + ("cri-containerd-"@ + instance_id + ".scope"@),
            },
        ),
        !path.contains(':') && relative_cgroup(path) == Ok::<Seq<char>, Seq<char>>(relative)
            && last_name(relative) == Some(instance_id) ==> target_plan(path, instance_id) == Ok::<
            PlannedTargetView,
            Seq<char>,
        >(PlannedTargetView::Cgroupfs { oci_path: path, cgroup: "/"@ + relative }),
        !path.contains(':') && relative_cgroup(path) == Ok::<Seq<char>, Seq<char>>(relative)
            && last_name(relative) != Some(instance_id) ==> target_plan(path, instance_id) is Err,
{
}

/// A slice is expanded level by level: a name without a dash stands below the
/// root, and the root's own slice is the root.
pub proof fn law_slices_are_expanded(slice: Seq<char>)
    ensures
        !has_suffix(slice, ".slice"@) ==> slice_path(slice) is None,
        slice.contains('/') ==> slice_path(slice) is None,
        has_suffix(slice, ".slice"@) && !slice.contains('/') && slice_stem(slice) == "-"@
            ==> slice_path(slice) == Some(Seq::<char>::empty()),
        has_suffix(slice, ".slice"@) && !slice.contains('/') && slice_stem(slice) != "-"@ && pieces(
            slice_stem(slice),
            '-',
        ).contains(Seq::<char>::empty()) ==> slice_path(slice) is None,
{
}

/// A parent of the runtime interface is a slice by its name, which is expanded,
/// or a path; an empty one, and one with a colon, is refused; blanks around it
/// do not matter.
pub proof fn law_cri_parents_are_slices_or_paths(
    parent: Seq<char>,
    expanded: Seq<char>,
    relative: Seq<char>,
)
    requires
        trimmed(parent).len() > 0,
    ensures
        trimmed(parent).contains(':') ==> cri_parent_path(parent) is Err,
        !trimmed(parent).contains(':') && !trimmed(parent).contains('/') && has_suffix(
            trimmed(parent),
            ".slice"@,
        ) && slice_path(trimmed(parent)) == Some(expanded) ==> cri_parent_path(parent) == Ok::<
            Seq<char>,
            Seq<char>,
        >("/"@ + expanded),
        !trimmed(parent).contains(':') && (trimmed(parent).contains('/') || !has_suffix(
            trimmed(parent),
            ".slice"@,
        )) && relative_cgroup(trimmed(parent)) == Ok::<Seq<char>, Seq<char>>(relative)
            ==> cri_parent_path(parent) == Ok::<Seq<char>, Seq<char>>("/"@ + relative),
{
}

/// What a sandbox's target is made from: below a slice its three-part name, and
/// below any other parent a directory of its own.
pub proof fn law_target_path_follows_the_parent(
    parent: Seq<char>,
    instance_id: Seq<char>,
    canonical: Seq<char>,
    basename: Seq<char>,
)
    requires
        cri_parent_path(parent) == Ok::<Seq<char>, Seq<char>>(canonical),
        last_name(canonical) == Some(basename),
    ensures
        has_suffix(basename, ".slice"@) && slice_path(basename) is Some && canonical == "/"@
            + slice_path(basename)->0 ==> cri_target_path(parent, instance_id) == Ok::<
            Seq<char>,
            Seq<char>,
        >(basename + ":cri-containerd:"@ + instance_id),
        has_suffix(basename, ".slice"@) && slice_path(basename) is Some && canonical != "/"@
            + slice_path(basename)->0 ==> cri_target_path(parent, instance_id) is Err,
        !has_suffix(basename, ".slice"@) ==> cri_target_path(parent, instance_id) == Ok::<
            Seq<char>,
            Seq<char>,
        >(joined(canonical, instance_id)),
{
}

/// Every mount of the unified hierarchy counts with its device and its place,
/// and mounts of anything else do not.
pub proof fn law_unified_mounts_are_counted(
    lines: Seq<Seq<char>>,
    line: Seq<char>,
    mounts: Seq<(Seq<char>, Seq<char>)>,
    before: Seq<char>,
    after: Seq<char>,
)
    requires
        cgroup_mounts(lines) == Ok::<Seq<(Seq<char>, Seq<char>)>, Seq<char>>(mounts),
        split_once_spec(line, " - "@) == Some((before, after)),
        words(after).len() > 0,
    ensures
        words(after)[0] == "cgroup2"@ && words(before).len() >= 5 ==> cgroup_mounts(lines.push(line))
            == Ok::<Seq<(Seq<char>, Seq<char>)>, Seq<char>>(
            mounts.push((words(before)[2], words(before)[4])),
        ),
        words(after)[0] != "cgroup2"@ ==> cgroup_mounts(lines.push(line)) == Ok::<
            Seq<(Seq<char>, Seq<char>)>,
            Seq<char>,
        >(mounts),
        words(after)[0] == "cgroup2"@ && words(before).len() < 5 ==> cgroup_mounts(lines.push(line))
            is Err,
{
    assert(lines.push(line).drop_last() =~= lines);
}

/// One mount of the hierarchy at its usual place is what is needed; further
/// mounts have to show the same hierarchy.
pub proof fn law_one_hierarchy_is_needed(mountinfo: Seq<char>, mounts: Seq<(Seq<char>, Seq<char>)>)
    requires
        cgroup_mounts(lines_of(mountinfo)) == Ok::<Seq<(Seq<char>, Seq<char>)>, Seq<char>>(mounts),
    ensures
        (mount_fault(mountinfo) is None) == (primary_mounts(mounts).len() == 1 && forall|i: int|
            0 <= i < mounts.len() ==> (#[trigger] mounts[i]).0 == primary_mounts(mounts)[0]),
{
}

/// The mounts at the hierarchy's usual place are those that count as primary.
pub proof fn law_primary_mounts_are_at_their_place(
    mounts: Seq<(Seq<char>, Seq<char>)>,
    mount: (Seq<char>, Seq<char>),
)
    ensures
        primary_mounts(Seq::empty()).len() == 0,
        mount.1 == "/sys/fs/cgroup"@ ==> primary_mounts(mounts.push(mount)) == primary_mounts(
            mounts,
        ).push(mount.0),
        mount.1 != "/sys/fs/cgroup"@ ==> primary_mounts(mounts.push(mount)) == primary_mounts(
            mounts,
        ),
{
    assert(mounts.push(mount).drop_last() =~= mounts);
}

/// A parent below the hierarchy's root, which is where its name says, is
/// accepted with its identity; the root itself, and whatever lies elsewhere, is
/// not.
pub proof fn law_parents_stay_below_the_root(
    cgroup: Seq<char>,
    parent: Seq<char>,
    canonical: String,
    identity: FileIdentity,
)
    requires
        parent_spec(cgroup_path(cgroup)) == Some(parent),
    ensures
        ({
            let found = parent_outcome(
                cgroup,
                ParentSighting { canonical: Ok(canonical), identity: Ok(identity) },
            );
            let below = is_rooted(canonical@) && path_names(canonical@).len() >= 3 && path_names(
                canonical@,
            )[0] == "sys"@ && path_names(canonical@)[1] == "fs"@ && path_names(canonical@)[2]
                == "cgroup"@ && !same_path_spec(canonical@, "/sys/fs/cgroup"@) && same_path_spec(
                canonical@,
                parent,
            );
            &&& below ==> found == Ok::<FileIdentity, Seq<char>>(identity)
            &&& !below ==> found is Err
        }),
{
}

/// A settled target is its plan with the identities that were seen.
pub proof fn law_settled_target_is_its_plan(
    plan: PlannedTargetView,
    parent: FileIdentity,
    leaf: Option<FileIdentity>,
)
    ensures
        ({
            let target = settled(plan, parent, leaf);
            &&& target.parent() == Some(parent)
            &&& target.leaf() == leaf
            &&& target.location() == plan.cgroup_of()
            &&& target.is_managed()
            &&& plan is Systemd ==> target is Systemd && target->unit == plan->unit
                && target->slice == plan->slice
            &&& plan is Cgroupfs ==> target is Cgroupfs
        }),
{
}

/// An annotated sandbox of the orchestrator's namespace, under its own name and
/// with a cgroup path, is managed in its target; a container of it, and a bundle
/// without annotations, stays where it was started.
pub proof fn law_bundles_are_classified(
    spec: BundleSpecView,
    namespace: Seq<char>,
    instance_id: Seq<char>,
    original_cgroup: Seq<char>,
    target: HostTarget,
)
    ensures
        spec.container_type == Some("sandbox"@) && spec.sandbox_id == Some(instance_id) && namespace
            == "k8s.io"@ && spec.cgroups_path is Some ==> classification(
            spec,
            namespace,
            instance_id,
            original_cgroup,
            Ok(()),
            Ok(target),
        ) == Ok::<(Classification, HostTargetView), Seq<char>>(
            (Classification::ManagedSandbox, target@),
        ),
        spec.container_type == Some("container"@) && spec.sandbox_id is Some && namespace
            == "k8s.io"@ ==> classification(
            spec,
            namespace,
            instance_id,
            original_cgroup,
            Ok(()),
            Ok(target),
        ) == Ok::<(Classification, HostTargetView), Seq<char>>(
            (Classification::LegacyTask, HostTargetView::Legacy { cgroup: original_cgroup }),
        ),
        spec.container_type is None && spec.sandbox_id is None ==> classification(
            spec,
            namespace,
            instance_id,
            original_cgroup,
            Ok(()),
            Ok(target),
        ) == Ok::<(Classification, HostTargetView), Seq<char>>(
            (Classification::LegacyTask, HostTargetView::Legacy { cgroup: original_cgroup }),
        ),
        spec.container_type is Some != spec.sandbox_id is Some ==> classification(
            spec,
            namespace,
            instance_id,
            original_cgroup,
            Ok(()),
            Ok(target),
        ) is Err,
        spec.container_type is Some && spec.sandbox_id is Some && namespace != "k8s.io"@
            ==> classification(
            spec,
            namespace,
            instance_id,
            original_cgroup,
            Ok(()),
            Ok(target),
        ) is Err,
{
    reveal_strlit("sandbox");
    reveal_strlit("container");
    assert("sandbox"@.len() == 7);
    assert("container"@.len() == 9);
}

/// The parent that a request names has to be the parent of a managed target, by
/// its path and by its identity; a sandbox that is not managed has none to
/// check.
pub proof fn law_requests_name_the_targets_parent(
    record: LifecycleRecordView,
    cgroup_parent: Seq<char>,
    mountinfo: Result<String, String>,
    directory: Seq<char>,
    identity: FileIdentity,
    actual: Seq<char>,
    expected: Seq<char>,
)
    requires
        mount_table_fault(mountinfo) is None,
        cri_parent_path(cgroup_parent) == Ok::<Seq<char>, Seq<char>>(actual),
        record.target.is_managed(),
        parent_spec(record.target.location()) == Some(expected),
    ensures
        record.classification == Classification::ManagedSandbox ==> (cri_parent_fault(
            record,
            cgroup_parent,
            mountinfo,
            directory,
            Ok(identity),
        ) is None) == (actual == expected && record.target.parent() == Some(identity)),
        record.classification != Classification::ManagedSandbox ==> cri_parent_fault(
            record,
            cgroup_parent,
            mountinfo,
            directory,
            Ok(identity),
        ) is None,
{
}

/// A plan whose parent is in order becomes the target of its plan, with the
/// parent and the leaf that were seen.
pub proof fn law_plans_are_settled(
    plan: PlannedTargetView,
    parent: ParentSighting,
    identity: FileIdentity,
    leaf: Option<FileIdentity>,
    message: String,
)
    ensures
        parent_outcome(plan.cgroup_of(), parent) == Ok::<FileIdentity, Seq<char>>(identity)
            ==> settle_outcome(plan, parent, Ok(leaf)) == Ok::<HostTargetView, Seq<char>>(
            settled(plan, identity, leaf),
        ),
        parent_outcome(plan.cgroup_of(), parent) is Err ==> settle_outcome(plan, parent, Ok(leaf))
            is Err,
        settle_outcome(plan, parent, Err(message)) is Err,
{
}

/// A bundle's specification is read for the two annotations of the runtime
/// interface.
pub proof fn law_bundles_are_read_for_their_annotations(
    path: Seq<char>,
    bytes: Vec<u8>,
    error: String,
)
    ensures
        bundle_spec_outcome(path, Err(error)) == Err::<BundleSpecView, Seq<char>>(
            "read sandbox OCI spec "@ + path + ": "@ + error@,
        ),
        decoded_bundle_spec(
            bytes@,
            "io.kubernetes.cri.container-type"@,
            "io.kubernetes.cri.sandbox-id"@,
        ) matches Ok((kind, id, cgroups)) ==> bundle_spec_outcome(path, Ok(bytes)) == Ok::<
            BundleSpecView,
            Seq<char>,
        >(BundleSpecView { container_type: kind, sandbox_id: id, cgroups_path: cgroups }),
{
}

} // verus!
