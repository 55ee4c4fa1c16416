//! File system paths as texts: their names, parents and spellings.
use vstd::prelude::*;

use crate::text::{chars_of, opt_view, outcome, pieces, split_on, strip_prefix, text_eq, views};
use crate::text::after_prefix;

verus! {

/// Whether a piece between slashes names something: it is neither empty nor a
/// single dot.
pub open spec fn is_name(piece: Seq<char>) -> bool {
    piece.len() > 0 && piece != "."@
}

/// The pieces that name something, in order.
pub open spec fn names_of(parts: Seq<Seq<char>>) -> Seq<Seq<char>>
    decreases parts.len(),
{
    if parts.len() == 0 {
        Seq::empty()
    } else if is_name(parts.last()) {
        names_of(parts.drop_last()).push(parts.last())
    } else {
        names_of(parts.drop_last())
    }
}

/// The names that a path passes through.
pub open spec fn path_names(path: Seq<char>) -> Seq<Seq<char>> {
    names_of(pieces(path, '/'))
}

/// Whether a path starts at the root.
pub open spec fn is_rooted(path: Seq<char>) -> bool {
    path.len() > 0 && path[0] == '/'
}

/// Whether a path starts with a single dot.
pub open spec fn starts_here(path: Seq<char>) -> bool {
    path.len() > 0 && path[0] == '.' && (path.len() == 1 || path[1] == '/')
}

/// Whether two paths pass through the same names from the same start.
pub open spec fn same_path_spec(a: Seq<char>, b: Seq<char>) -> bool {
    is_rooted(a) == is_rooted(b) && starts_here(a) == starts_here(b) && path_names(a)
        == path_names(b)
}

/// The names that a path passes through.
pub fn names(path: &str) -> (out: Vec<String>)
    ensures
        views(out@) == path_names(path@),
{
    let parts = split_on(path, '/');
    let ghost all = views(parts@);
    let mut out: Vec<String> = Vec::new();
    let mut i: usize = 0;
    assert(views(out@) =~= names_of(all.take(0)));
    while i < parts.len()
        invariant
            all == views(parts@),
            i <= parts.len(),
            views(out@) == names_of(all.take(i as int)),
        decreases parts.len() - i,
    {
        let part = parts[i].as_str();
        proof {
            assert(all.take(i + 1).drop_last() =~= all.take(i as int));
            assert(all.take(i + 1).last() == parts@[i as int]@);
        }
        let ghost before = out@;
        if !part.is_empty() && !text_eq(part, ".") {
            out.push(part.to_owned());
            assert(views(out@) =~= views(before).push(part@));
        }
        i = i + 1;
    }
    assert(all.take(i as int) =~= all);
    out
}

/// Whether a path starts at the root.
pub fn rooted(path: &str) -> (r: bool)
    ensures
        r == is_rooted(path@),
{
    let chars = chars_of(path);
    chars.len() > 0 && chars[0] == '/'
}

fn here(path: &str) -> (r: bool)
    ensures
        r == starts_here(path@),
{
    let chars = chars_of(path);
    chars.len() > 0 && chars[0] == '.' && (chars.len() == 1 || chars[1] == '/')
}

/// Whether two paths pass through the same names from the same start.
pub fn same_path(a: &str, b: &str) -> (same: bool)
    ensures
        same == same_path_spec(a@, b@),
{
    rooted(a) == rooted(b) && here(a) == here(b) && crate::record::texts_same(
        &names(a),
        &names(b),
    )
}

/// The last name of a path, unless it leads upwards.
pub open spec fn last_name(path: Seq<char>) -> Option<Seq<char>> {
    if path_names(path).len() == 0 || path_names(path).last() == ".."@ {
        None
    } else {
        Some(path_names(path).last())
    }
}

/// The last name of a path, unless it leads upwards.
pub fn file_name(path: &str) -> (name: Option<String>)
    ensures
        opt_view(name) == last_name(path@),
{
    let all = names(path);
    if all.len() == 0 {
        return None;
    }
    let last = all.len() - 1;
    assert(path_names(path@).last() == all@[last as int]@);
    if text_eq(all[last].as_str(), "..") {
        None
    } else {
        Some(all[last].clone())
    }
}

/// Where the names of a path begin: after the root, or after a leading dot.
pub open spec fn body_start(path: Seq<char>) -> nat {
    if is_rooted(path) || starts_here(path) {
        1
    } else {
        0
    }
}

/// A path without trailing slashes and single dots.
pub open spec fn trim_tail(path: Seq<char>, start: nat) -> Seq<char>
    decreases path.len(),
{
    if path.len() > start && path.last() == '/' {
        trim_tail(path.drop_last(), start)
    } else if path.len() > start && path.last() == '.' && (path.len() == start + 1 || path[path.len()
        - 2] == '/') {
        trim_tail(path.drop_last(), start)
    } else {
        path
    }
}

/// A path without its last run of characters other than slashes.
pub open spec fn drop_name(path: Seq<char>, start: nat) -> Seq<char>
    decreases path.len(),
{
    if path.len() > start && path.last() != '/' {
        drop_name(path.drop_last(), start)
    } else {
        path
    }
}

/// The path that holds the last name of a path.
pub open spec fn parent_spec(path: Seq<char>) -> Option<Seq<char>> {
    let start = body_start(path);
    let body = trim_tail(path, start);
    if body.len() <= start {
        if starts_here(path) {
            Some(Seq::empty())
        } else {
            None
        }
    } else {
        Some(trim_tail(drop_name(body, start), start))
    }
}

fn trim_tail_at(chars: &Vec<char>, end: usize, start: usize) -> (to: usize)
    requires
        end <= chars@.len(),
    ensures
        to <= end,
        chars@.take(to as int) == trim_tail(chars@.take(end as int), start as nat),
{
    let mut to: usize = end;
    while to > start && (chars[to - 1] == '/' || (chars[to - 1] == '.' && (to == start + 1
        || chars[to - 2] == '/')))
        invariant
            to <= end <= chars@.len(),
            trim_tail(chars@.take(to as int), start as nat) == trim_tail(
                chars@.take(end as int),
                start as nat,
            ),
        decreases to,
    {
        assert(chars@.take(to as int).drop_last() =~= chars@.take(to - 1));
        to = to - 1;
    }
    to
}

/// The path that holds the last name of a path.
pub fn parent_path(path: &str) -> (parent: Option<String>)
    ensures
        opt_view(parent) == parent_spec(path@),
{
    let chars = chars_of(path);
    let start: usize = if rooted(path) || here(path) {
        1
    } else {
        0
    };
    let end = trim_tail_at(&chars, chars.len(), start);
    assert(chars@.take(chars@.len() as int) =~= chars@);
    if end <= start {
        if here(path) {
            return Some(String::new());
        }
        return None;
    }
    let mut cut: usize = end;
    while cut > start && chars[cut - 1] != '/'
        invariant
            cut <= end <= chars@.len(),
            drop_name(chars@.take(cut as int), start as nat) == drop_name(
                chars@.take(end as int),
                start as nat,
            ),
        decreases cut,
    {
        assert(chars@.take(cut as int).drop_last() =~= chars@.take(cut - 1));
        cut = cut - 1;
    }
    let to = trim_tail_at(&chars, cut, start);
    assert(path@.subrange(0, to as int) =~= chars@.take(to as int));
    Some(path.substring_char(0, to).to_owned())
}

/// A name put behind a directory: an absolute name stands alone.
pub open spec fn joined(directory: Seq<char>, name: Seq<char>) -> Seq<char> {
    if is_rooted(name) || directory.len() == 0 {
        name
    } else if directory.last() == '/' {
        directory + name
    } else {
        directory + "/"@ + name
    }
}

/// A name put behind a directory.
pub fn join(directory: &str, name: &str) -> (path: String)
    ensures
        path@ == joined(directory@, name@),
{
    let chars = chars_of(directory);
    if rooted(name) || chars.len() == 0 {
        name.to_owned()
    } else if chars[chars.len() - 1] == '/' {
        directory.to_owned().concat(name)
    } else {
        directory.to_owned().concat("/").concat(name)
    }
}

/// Texts with slashes between them.
pub open spec fn slashed(parts: Seq<Seq<char>>) -> Seq<char>
    decreases parts.len(),
{
    if parts.len() == 0 {
        Seq::empty()
    } else if parts.len() == 1 {
        parts[0]
    } else {
        slashed(parts.drop_last()) + "/"@ + parts.last()
    }
}

/// Texts with slashes between them.
pub fn join_names(parts: &Vec<String>) -> (path: String)
    ensures
        path@ == slashed(views(parts@)),
{
    let ghost all = views(parts@);
    if parts.len() == 0 {
        return String::new();
    }
    let mut path = parts[0].clone();
    let mut i: usize = 1;
    assert(all.take(1)[0] == parts@[0]@);
    while i < parts.len()
        invariant
            all == views(parts@),
            1 <= i <= parts.len(),
            path@ == slashed(all.take(i as int)),
        decreases parts.len() - i,
    {
        path = path.concat("/").concat(parts[i].as_str());
        i = i + 1;
        proof {
            assert(all.take(i as int).drop_last() =~= all.take(i - 1));
            assert(all.take(i as int).last() == parts@[i - 1]@);
        }
    }
    assert(all.take(i as int) =~= all);
    path
}

/// The path of a cgroup below the mount point: its names with slashes between
/// them, or why there is none.
pub open spec fn relative_cgroup(path: Seq<char>) -> Result<Seq<char>, Seq<char>> {
    if path_names(path).contains(".."@) {
        Err("invalid cgroupfs path "@ + path)
    } else if path_names(path).len() == 0 {
        Err("cgroupfs path cannot be root"@)
    } else {
        Ok(slashed(path_names(path)))
    }
}

/// The path of a cgroup below the mount point.
pub fn normalized_cgroup_relative(path: &str) -> (r: Result<String, String>)
    ensures
        outcome(r) == relative_cgroup(path@),
{
    let all = names(path);
    let ghost wanted = path_names(path@);
    let mut i: usize = 0;
    while i < all.len()
        invariant
            wanted == path_names(path@),
            wanted == views(all@),
            i <= all.len(),
            forall|k: int| 0 <= k < i ==> wanted[k] != ".."@,
        decreases all.len() - i,
    {
        assert(wanted[i as int] == all@[i as int]@);
        if text_eq(all[i].as_str(), "..") {
            assert(wanted.contains(".."@));
            return Err("invalid cgroupfs path ".to_owned().concat(path));
        }
        i = i + 1;
    }
    assert(!wanted.contains(".."@));
    if all.len() == 0 {
        return Err("cgroupfs path cannot be root".to_owned());
    }
    Ok(join_names(&all))
}

/// Why a path is not the one spelling of a socket's path, if it is not; the
/// canonical path of its directory, or why there is none, is given.
pub open spec fn socket_path_outcome(
    path: Seq<char>,
    canonical_parent: Result<Seq<char>, Seq<char>>,
) -> Result<Seq<char>, Seq<char>> {
    if !is_rooted(path) {
        Err("shim socket path must be absolute: "@ + path)
    } else if last_name(path) is None {
        Err("shim socket path must contain a normal basename: "@ + path)
    } else {
        match canonical_parent {
            Err(message) => Err(message),
            Ok(parent) => {
                let canonical = joined(parent, last_name(path)->0);
                if canonical != path {
                    Err(
                        "shim socket path must use its canonical parent without '.', '..', duplicate separators, or symlink aliases: "@
                            + path + " (canonical "@ + canonical + ")"@,
                    )
                } else {
                    Ok(path)
                }
            },
        }
    }
}

/// The one spelling of a socket's path: absolute, through the canonical path
/// of its directory.
pub fn canonical_socket_path(path: &str, canonical_parent: &Result<String, String>) -> (r: Result<
    String,
    String,
>)
    ensures
        outcome(r) == socket_path_outcome(path@, outcome(*canonical_parent)),
{
    if !rooted(path) {
        return Err("shim socket path must be absolute: ".to_owned().concat(path));
    }
    let name = match file_name(path) {
        None => return Err(
            "shim socket path must contain a normal basename: ".to_owned().concat(path),
        ),
        Some(name) => name,
    };
    match canonical_parent {
        Err(message) => Err(message.clone()),
        Ok(parent) => {
            let canonical = join(parent.as_str(), name.as_str());
            if !text_eq(canonical.as_str(), path) {
                return Err(
                    "shim socket path must use its canonical parent without '.', '..', duplicate separators, or symlink aliases: ".to_owned().concat(
                    path).concat(" (canonical ").concat(canonical.as_str()).concat(")"),
                );
            }
            Ok(canonical)
        },
    }
}

/// The path of the socket that an address names, or why it names none.
pub open spec fn address_path(
    address: Seq<char>,
    canonical_parent: Result<Seq<char>, Seq<char>>,
) -> Result<Seq<char>, Seq<char>> {
    match after_prefix(address, "unix://"@) {
        None => Err("only unix shim sockets are supported: "@ + address),
        Some(path) => socket_path_outcome(path, canonical_parent),
    }
}

/// The path of the socket that an address names.
pub fn unix_socket_path(address: &str, canonical_parent: &Result<String, String>) -> (r: Result<
    String,
    String,
>)
    ensures
        outcome(r) == address_path(address@, outcome(*canonical_parent)),
{
    match strip_prefix(address, "unix://") {
        None => Err("only unix shim sockets are supported: ".to_owned().concat(address)),
        Some(path) => canonical_socket_path(path.as_str(), canonical_parent),
    }
}

/// Two spellings that are both accepted as the path of one socket are equal:
/// within one canonical directory, a name has one path.
pub proof fn law_accepted_socket_paths_have_one_spelling(
    a: Seq<char>,
    b: Seq<char>,
    parent: Seq<char>,
)
    requires
        socket_path_outcome(a, Ok(parent)) is Ok,
        socket_path_outcome(b, Ok(parent)) is Ok,
        last_name(a) == last_name(b),
    ensures
        a == b,
{
}

/// The parent of a path is the directory that its last name stands in.
pub proof fn law_name_stands_in_its_parent(directory: Seq<char>, name: Seq<char>)
    requires
        directory.len() > 1,
        directory[0] == '/',
        directory.last() != '/',
        directory.last() != '.',
        name.len() > 0,
        !name.contains('/'),
        name != "."@,
    ensures
        joined(directory, name) == directory + "/"@ + name,
        parent_spec(joined(directory, name)) == Some(directory),
{
    reveal_strlit("/");
    reveal_strlit(".");
    let path = joined(directory, name);
    assert(name.contains(name[0]));
    assert(path =~= directory + seq!['/'] + name);
    assert(path.last() == name.last());
    assert(name.contains(name.last()));
    assert(path[0] == '/');
    if name.len() == 1 {
        assert(name[0] != '.') by {
            if name[0] == '.' {
                assert(name =~= "."@);
            }
        }
    } else {
        assert(path[path.len() - 2] == name[name.len() - 2]);
        assert(name.contains(name[name.len() - 2]));
    }
    assert(trim_tail(path, 1) == path);
    lemma_name_drops(directory, name, 1);
    let rest = directory + seq!['/'];
    assert(rest.drop_last() =~= directory);
    assert(rest.last() == '/');
    assert(trim_tail(directory, 1) == directory);
    assert(trim_tail(rest, 1) == trim_tail(directory, 1));
}

proof fn lemma_name_drops(directory: Seq<char>, name: Seq<char>, start: nat)
    requires
        !name.contains('/'),
        directory.len() >= start,
    ensures
        drop_name(directory + seq!['/'] + name, start) == directory + seq!['/'],
    decreases name.len(),
{
    let path = directory + seq!['/'] + name;
    if name.len() > 0 {
        assert(name.contains(name.last()));
        assert(path.last() == name.last());
        assert forall|i: int| 0 <= i < name.drop_last().len() implies name.drop_last()[i] != '/' by {
            assert(name.contains(name[i]));
        }
        lemma_name_drops(directory, name.drop_last(), start);
        assert(path.drop_last() =~= directory + seq!['/'] + name.drop_last());
    } else {
        assert(path =~= directory + seq!['/']);
        assert(path.last() == '/');
    }
}

/// A path passes through the names between its slashes, in their order; empty
/// ones and single dots do not count.
pub proof fn law_paths_pass_through_their_names(first: Seq<char>, rest: Seq<char>)
    requires
        !first.contains('/'),
    ensures
        path_names(first + seq!['/'] + rest) == (if first.len() > 0 && first != "."@ {
            seq![first] + path_names(rest)
        } else {
            path_names(rest)
        }),
        first.len() > 0 && first != "."@ ==> path_names(first) == seq![first],
{
    crate::text::law_texts_are_cut_at_separators(first, rest, '/');
    lemma_names_of_first(first, pieces(rest, '/'));
    assert(seq![first] =~= seq![first] + Seq::<Seq<char>>::empty());
    lemma_names_of_first(first, Seq::empty());
    assert(names_of(Seq::<Seq<char>>::empty()) =~= Seq::empty());
}

proof fn lemma_names_of_first(first: Seq<char>, parts: Seq<Seq<char>>)
    ensures
        names_of(seq![first] + parts) == (if is_name(first) {
            seq![first] + names_of(parts)
        } else {
            names_of(parts)
        }),
    decreases parts.len(),
{
    let all = seq![first] + parts;
    if parts.len() > 0 {
        lemma_names_of_first(first, parts.drop_last());
        assert(all.drop_last() =~= seq![first] + parts.drop_last());
        assert(all.last() == parts.last());
        if is_name(first) && is_name(parts.last()) {
            assert((seq![first] + names_of(parts.drop_last())).push(parts.last()) =~= seq![first]
                + names_of(parts.drop_last()).push(parts.last()));
        }
    } else {
        assert(all =~= seq![first]);
        assert(all.drop_last() =~= Seq::empty());
        assert(names_of(all.drop_last()) =~= Seq::empty());
    }
}

/// A name is put behind its directory with one slash between them; a rooted
/// path stands for itself wherever it is put.
pub proof fn law_names_are_put_behind_directories(directory: Seq<char>, name: Seq<char>)
    requires
        name.len() > 0,
    ensures
        name[0] == '/' ==> joined(directory, name) == name,
        directory.len() == 0 ==> joined(directory, name) == name,
        name[0] != '/' && directory.len() > 0 && directory.last() == '/' ==> joined(directory, name)
            == directory + name,
        name[0] != '/' && directory.len() > 0 && directory.last() != '/' ==> joined(directory, name)
            == directory + "/"@ + name,
{
}

/// Names are put together with one slash between each two.
pub proof fn law_names_are_put_together(names: Seq<Seq<char>>, last: Seq<char>)
    ensures
        slashed(Seq::empty()).len() == 0,
        slashed(seq![last]) == last,
        names.len() > 0 ==> slashed(names.push(last)) == slashed(names) + "/"@ + last,
{
    assert(names.push(last).drop_last() =~= names);
}

/// A path below the hierarchy is written with its names alone; the root, and a
/// path that leads upwards, is refused.
pub proof fn law_cgroup_paths_are_normalized(path: Seq<char>)
    ensures
        path_names(path).contains(".."@) ==> relative_cgroup(path) is Err,
        path_names(path).len() == 0 ==> relative_cgroup(path) is Err,
        !path_names(path).contains(".."@) && path_names(path).len() > 0 ==> relative_cgroup(path)
            == Ok::<Seq<char>, Seq<char>>(slashed(path_names(path))),
{
}

/// A socket's address is its scheme and a rooted path in its one spelling; that
/// path is what it stands for.
pub proof fn law_socket_addresses_name_their_path(
    path: Seq<char>,
    parent: Seq<char>,
    name: Seq<char>,
)
    requires
        is_rooted(path),
        last_name(path) == Some(name),
    ensures
        joined(parent, name) == path ==> address_path("unix://"@ + path, Ok(parent)) == Ok::<
            Seq<char>,
            Seq<char>,
        >(path),
        joined(parent, name) != path ==> address_path("unix://"@ + path, Ok(parent)) is Err,
        after_prefix(path, "unix://"@) is None ==> address_path(path, Ok(parent)) is Err,
{
    crate::text::law_prefix_and_suffix_are_found("unix://"@, path);
}

} // verus!
