//! Who a Unix socket belongs to, and when it may be removed.
use vstd::prelude::*;
use vstd::utf8::encode_utf8;

use crate::digest::{hex, prefixed_all, sha256, socket_ownership_digest, socket_parts};
use crate::identity::{FileIdentity, SocketIdentity, SocketIdentityView};
use crate::paths::{file_name, last_name, parent_path, parent_spec};
use crate::record::{LifecyclePhase, LifecycleRecord, LifecycleRecordView};
use crate::target::passes_unless;
use crate::text::{
    after_prefix, decimal, decimal_text, ends_with, fails_with, has_suffix, lines_of, outcome,
    parse_u64,    parse_u64_message, split_lines, split_words, strip_prefix, text_eq, unsigned_value, views,
    words,
};

verus! {

/// What the Host shows of a path.
#[derive(Clone, Copy, Debug, PartialEq, Eq, Structural)]
pub struct PathStat {
    pub is_socket: bool,
    pub identity: FileIdentity,
    /// The time of the last change, in seconds.
    pub modified: i64,
}

/// What the Host shows of a socket that may have to be removed. The last two
/// are looked for only where the socket was never registered.
pub struct SocketFacts {
    /// The path, if it is there.
    pub stat: Result<Option<PathStat>, String>,
    pub parent: Result<FileIdentity, String>,
    /// Whether a process has the socket open.
    pub live_owner: Result<bool, String>,
    /// Whether another live lifecycle has the path.
    pub reserved: Result<bool, String>,
}

/// The time of a preparation in seconds, as far as it can be compared.
pub open spec fn prepared_seconds(created_at_ms: u128) -> int {
    if created_at_ms / 1000 > i64::MAX {
        i64::MAX as int
    } else {
        (created_at_ms / 1000) as int
    }
}

/// Whether a socket that was never registered is a stale one of this
/// lifecycle.
pub open spec fn provably_stale(
    socket: SocketIdentityView,
    created_at_ms: u128,
    stat: PathStat,
    facts: SocketFacts,
) -> Result<bool, Seq<char>> {
    if !socket.absent_at_prepare || stat.modified < prepared_seconds(created_at_ms) {
        Ok(false)
    } else {
        match facts.live_owner {
            Err(message) => Err(message@),
            Ok(live) => if live {
                Ok(false)
            } else {
                match facts.reserved {
                    Err(message) => Err(message@),
                    Ok(reserved) => Ok(!reserved),
                }
            },
        }
    }
}

/// The identity of the socket that is to be removed, if it is there.
pub open spec fn removable_socket(
    socket: SocketIdentityView,
    created_at_ms: u128,
    facts: SocketFacts,
) -> Result<Option<FileIdentity>, Seq<char>> {
    match facts.stat {
        Err(message) => Err(message@),
        Ok(None) => Ok(None),
        Ok(Some(stat)) => if !stat.is_socket {
            Err("socket cleanup identity mismatch: "@ + socket.path)
        } else {
            match facts.parent {
                Err(message) => Err(message@),
                Ok(parent) => if parent != socket.parent {
                    Err("socket cleanup identity mismatch: "@ + socket.path)
                } else if socket.device is Some && socket.inode is Some {
                    if stat.identity.device != socket.device->0 || stat.identity.inode
                        != socket.inode->0 {
                        Err("socket inode changed: "@ + socket.path)
                    } else {
                        Ok(Some(stat.identity))
                    }
                } else {
                    match provably_stale(socket, created_at_ms, stat, facts) {
                        Err(message) => Err(message),
                        Ok(stale) => if stale {
                            Ok(Some(stat.identity))
                        } else {
                            Err("unregistered socket cannot be proven stale: "@ + socket.path)
                        },
                    }
                },
            }
        },
    }
}

fn proven_stale(socket: &SocketIdentity, created_at_ms: u128, stat: &PathStat, facts: &SocketFacts) -> (r:
    Result<bool, String>)
    ensures
        match provably_stale(socket@, created_at_ms, *stat, *facts) {
            Err(message) => fails_with(r, message),
            Ok(stale) => r == Ok::<bool, String>(stale),
        },
{
    let seconds: u128 = created_at_ms / 1000;
    let prepared: i64 = if seconds > i64::MAX as u128 {
        i64::MAX
    } else {
        seconds as i64
    };
    if !socket.absent_at_prepare || stat.modified < prepared {
        return Ok(false);
    }
    match &facts.live_owner {
        Err(message) => return Err(message.clone()),
        Ok(live) => {
            if *live {
                return Ok(false);
            }
        },
    }
    match &facts.reserved {
        Err(message) => Err(message.clone()),
        Ok(reserved) => Ok(!*reserved),
    }
}

/// Decides whether a socket has to be removed, and which one. A registered
/// socket has to be the registered one; one that was never registered has to
/// be younger than the preparation, without owner and without claim.
pub fn decide_socket_removal(socket: &SocketIdentity, created_at_ms: u128, facts: &SocketFacts) -> (r:
    Result<Option<FileIdentity>, String>)
    ensures
        match removable_socket(socket@, created_at_ms, *facts) {
            Err(message) => fails_with(r, message),
            Ok(identity) => r == Ok::<Option<FileIdentity>, String>(identity),
        },
{
    let stat = match &facts.stat {
        Err(message) => return Err(message.clone()),
        Ok(None) => return Ok(None),
        Ok(Some(stat)) => *stat,
    };
    if !stat.is_socket {
        return Err(
            "socket cleanup identity mismatch: ".to_owned().concat(socket.path.as_str()),
        );
    }
    match &facts.parent {
        Err(message) => return Err(message.clone()),
        Ok(parent) => {
            if *parent != socket.parent {
                return Err(
                    "socket cleanup identity mismatch: ".to_owned().concat(socket.path.as_str()),
                );
            }
        },
    }
    match (socket.device, socket.inode) {
        (Some(device), Some(inode)) => {
            if stat.identity.device != device || stat.identity.inode != inode {
                return Err("socket inode changed: ".to_owned().concat(socket.path.as_str()));
            }
            Ok(Some(stat.identity))
        },
        _ => match proven_stale(socket, created_at_ms, &stat, facts) {
            Err(message) => Err(message),
            Ok(stale) => if stale {
                Ok(Some(stat.identity))
            } else {
                Err(
                    "unregistered socket cannot be proven stale: ".to_owned().concat(
                        socket.path.as_str(),
                    ),
                )
            },
        },
    }
}

/// Why a socket must not be removed after all, if it must not.
pub open spec fn removal_fault(
    socket: SocketIdentityView,
    chosen: FileIdentity,
    stat: Result<PathStat, String>,
    parent: Result<FileIdentity, String>,
    reserved: Result<bool, String>,
) -> Option<Seq<char>> {
    let changed = Some("socket identity changed before unlink: "@ + socket.path);
    match stat {
        Err(error) => Some("restat cleanup socket "@ + socket.path + ": "@ + error@),
        Ok(found) => if !found.is_socket || found.identity != chosen {
            changed
        } else {
            match parent {
                Err(message) => Some(message@),
                Ok(directory) => if directory != socket.parent {
                    changed
                } else {
                    match reserved {
                        Err(message) => Some(message@),
                        Ok(taken) => if taken {
                            changed
                        } else {
                            None
                        },
                    }
                },
            }
        },
    }
}

/// Checks immediately before its removal that a socket is still the one that
/// was chosen.
pub fn confirm_socket_removal(
    socket: &SocketIdentity,
    chosen: FileIdentity,
    stat: &Result<PathStat, String>,
    parent: &Result<FileIdentity, String>,
    reserved: &Result<bool, String>,
) -> (r: Result<(), String>)
    ensures
        passes_unless(r, removal_fault(socket@, chosen, *stat, *parent, *reserved)),
{
    let changed = "socket identity changed before unlink: ".to_owned().concat(
        socket.path.as_str(),
    );
    match stat {
        Err(error) => return Err(
            "restat cleanup socket ".to_owned().concat(socket.path.as_str()).concat(": ").concat(
                error.as_str(),
            ),
        ),
        Ok(found) => {
            if !found.is_socket || found.identity != chosen {
                return Err(changed);
            }
        },
    }
    match parent {
        Err(message) => return Err(message.clone()),
        Ok(directory) => {
            if *directory != socket.parent {
                return Err(changed);
            }
        },
    }
    match reserved {
        Err(message) => Err(message.clone()),
        Ok(taken) => if *taken {
            Err(changed)
        } else {
            Ok(())
        },
    }
}

/// Several words with single spaces between them.
pub open spec fn spaced(parts: Seq<Seq<char>>, from: int) -> Seq<char>
    decreases parts.len() - from,
{
    if from < 0 || from >= parts.len() {
        Seq::empty()
    } else if from + 1 == parts.len() {
        parts[from]
    } else {
        parts[from] + " "@ + spaced(parts, from + 1)
    }
}

fn join_spaced(parts: &Vec<String>, from: usize) -> (text: String)
    requires
        from < parts@.len(),
    ensures
        text@ == spaced(views(parts@), from as int),
{
    let ghost all = views(parts@);
    let mut i: usize = parts.len() - 1;
    let mut text = parts[i].clone();
    assert(all[i as int] == parts@[i as int]@);
    while i > from
        invariant
            all == views(parts@),
            from <= i < parts@.len(),
            text@ == spaced(all, i as int),
        decreases i,
    {
        i = i - 1;
        assert(all[i as int] == parts@[i as int]@);
        text = parts[i].as_str().to_owned().concat(" ").concat(text.as_str());
    }
    text
}

/// The inodes of a socket path in the rows of the kernel's table, from `row`
/// on; the first row is a heading.
pub open spec fn kernel_inodes(lines: Seq<Seq<char>>, path: Seq<char>, row: int) -> Result<
    Set<u64>,
    Seq<char>,
>
    decreases lines.len() - row,
{
    if row < 1 || row >= lines.len() {
        Ok(Set::empty())
    } else {
        let fields = words(lines[row]);
        if fields.len() < 7 {
            Err(
                "malformed /proc/net/unix row "@ + decimal((row + 1) as nat) + ": "@ + lines[row],
            )
        } else if fields.len() >= 8 && spaced(fields, 7) == path {
            match unsigned_value(fields[6], u64::MAX as nat) {
                None => Err(
                    "parse /proc/net/unix inode on row "@ + decimal((row + 1) as nat) + ": "@
                        + parse_u64_message(fields[6]),
                ),
                Some(inode) => match kernel_inodes(lines, path, row + 1) {
                    Err(message) => Err(message),
                    Ok(rest) => Ok(rest.insert(inode as u64)),
                },
            }
        } else {
            kernel_inodes(lines, path, row + 1)
        }
    }
}

/// The inode that a row of the kernel's table gives to a socket path.
fn row_inode(line: &str, number: usize, path: &str) -> (r: Result<Option<u64>, String>)
    ensures
        ({
            let fields = words(line@);
            if fields.len() < 7 {
                fails_with(
                    r,
                    "malformed /proc/net/unix row "@ + decimal(number as nat) + ": "@ + line@,
                )
            } else if fields.len() >= 8 && spaced(fields, 7) == path@ {
                match unsigned_value(fields[6], u64::MAX as nat) {
                    None => fails_with(
                        r,
                        "parse /proc/net/unix inode on row "@ + decimal(number as nat) + ": "@
                            + parse_u64_message(fields[6]),
                    ),
                    Some(inode) => r == Ok::<Option<u64>, String>(Some(inode as u64)),
                }
            } else {
                r == Ok::<Option<u64>, String>(None)
            }
        }),
{
    let fields = split_words(line);
    let ghost all = views(fields@);
    if fields.len() < 7 {
        return Err(
            "malformed /proc/net/unix row ".to_owned().concat(
                decimal_text(number as u128).as_str(),
            ).concat(": ").concat(line),
        );
    }
    assert(all[6] == fields@[6]@);
    if fields.len() >= 8 && text_eq(join_spaced(&fields, 7).as_str(), path) {
        return match parse_u64(fields[6].as_str()) {
            Err(error) => Err(
                "parse /proc/net/unix inode on row ".to_owned().concat(
                    decimal_text(number as u128).as_str(),
                ).concat(": ").concat(error.as_str()),
            ),
            Ok(inode) => Ok(Some(inode)),
        };
    }
    Ok(None)
}

/// The inodes that the kernel's table gives to a socket path.
pub fn unix_socket_kernel_inodes(data: &str, path: &str) -> (r: Result<Vec<u64>, String>)
    ensures
        match kernel_inodes(lines_of(data@), path@, 1) {
            Err(message) => fails_with(r, message),
            Ok(inodes) => r matches Ok(found) && found@.to_set() == inodes,
        },
{
    let lines = split_lines(data);
    let ghost all = views(lines@);
    let mut found: Vec<u64> = Vec::new();
    if lines.len() == 0 {
        assert(found@.to_set() =~= Set::empty());
        return Ok(found);
    }
    let mut first: usize = 1;
    proof {
        assert(found@.to_set() =~= Set::empty());
        if let Ok(rest) = kernel_inodes(all, path@, 1) {
            assert(rest.union(found@.to_set()) =~= rest);
        }
    }
    while first < lines.len()
        invariant
            all == views(lines@),
            all == lines_of(data@),
            1 <= first <= lines@.len(),
            match kernel_inodes(all, path@, first as int) {
                Err(message) => kernel_inodes(all, path@, 1) == Err::<Set<u64>, Seq<char>>(message),
                Ok(rest) => kernel_inodes(all, path@, 1) == Ok::<Set<u64>, Seq<char>>(
                    rest.union(found@.to_set()),
                ),
            },
        decreases lines@.len() - first,
    {
        assert(all[first as int] == lines@[first as int]@);
        match row_inode(lines[first].as_str(), first + 1, path) {
            Err(message) => return Err(message),
            Ok(None) => {},
            Ok(Some(inode)) => {
                let ghost before = found@;
                found.push(inode);
                proof {
                    assert(found@.to_set() =~= before.to_set().insert(inode)) by {
                        assert(found@[before.len() as int] == inode);
                        assert forall|x: u64| before.contains(x) implies found@.contains(x) by {
                            let k = choose|k: int| 0 <= k < before.len() && before[k] == x;
                            assert(found@[k] == x);
                        }
                    }
                    if let Ok(rest) = kernel_inodes(all, path@, first + 1) {
                        assert(rest.insert(inode).union(before.to_set()) =~= rest.union(
                            found@.to_set(),
                        ));
                    }
                }
            },
        }
        first = first + 1;
    }
    assert(Set::<u64>::empty().union(found@.to_set()) =~= found@.to_set());
    Ok(found)
}

fn holds_inode(inodes: &Vec<u64>, inode: u64) -> (r: bool)
    ensures
        r == inodes@.to_set().contains(inode),
{
    let mut i: usize = 0;
    while i < inodes.len()
        invariant
            i <= inodes.len(),
            forall|k: int| 0 <= k < i ==> inodes@[k] != inode,
        decreases inodes.len() - i,
    {
        if inodes[i] == inode {
            assert(inodes@.contains(inode));
            return true;
        }
        i = i + 1;
    }
    assert(!inodes@.contains(inode));
    false
}

fn within(a: &Vec<u64>, b: &Vec<u64>) -> (r: bool)
    ensures
        r == a@.to_set().subset_of(b@.to_set()),
{
    let mut i: usize = 0;
    while i < a.len()
        invariant
            i <= a.len(),
            forall|k: int| 0 <= k < i ==> b@.to_set().contains(#[trigger] a@[k]),
        decreases a.len() - i,
    {
        if !holds_inode(b, a[i]) {
            assert(a@.to_set().contains(a@[i as int]));
            return false;
        }
        i = i + 1;
    }
    assert forall|x: u64| a@.to_set().contains(x) implies b@.to_set().contains(x) by {
        let k = choose|k: int| 0 <= k < a@.len() && a@[k] == x;
        assert(b@.to_set().contains(a@[k]));
    }
    true
}

/// The number inside the link of a descriptor that is a socket.
pub open spec fn socket_link(link: Seq<char>) -> Option<Seq<char>> {
    match after_prefix(link, "socket:["@) {
        None => None,
        Some(rest) => if has_suffix(rest, "]"@) {
            Some(rest.take(rest.len() - 1))
        } else {
            None
        },
    }
}

/// Whether the link of a descriptor names one of these sockets.
pub fn descriptor_names(link: &str, inodes: &Vec<u64>, descriptor: &str) -> (r: Result<bool, String>)
    ensures
        match socket_link(link@) {
            None => r == Ok::<bool, String>(false),
            Some(number) => match unsigned_value(number, u64::MAX as nat) {
                None => fails_with(
                    r,
                    "parse process socket fd "@ + descriptor@ + ": "@ + parse_u64_message(number),
                ),
                Some(inode) => r == Ok::<bool, String>(
                    inodes@.to_set().contains(inode as u64),
                ),
            },
        },
{
    let rest = match strip_prefix(link, "socket:[") {
        None => return Ok(false),
        Some(rest) => rest,
    };
    if !ends_with(rest.as_str(), "]") {
        return Ok(false);
    }
    let length: usize = crate::text::chars_of(rest.as_str()).len();
    proof {
        reveal_strlit("]");
        assert(rest@.subrange(0, length - 1) =~= rest@.take(length - 1));
    }
    let number = rest.as_str().substring_char(0, length - 1).to_owned();
    match parse_u64(number.as_str()) {
        Err(error) => Err(
            "parse process socket fd ".to_owned().concat(descriptor).concat(": ").concat(
                error.as_str(),
            ),
        ),
        Ok(inode) => Ok(holds_inode(inodes, inode)),
    }
}

/// Whether a socket path has an owner; `again` is a second reading of its
/// inodes after the search.
pub open spec fn ownership(
    path: Seq<char>,
    inodes: Set<u64>,
    owned: bool,
    again: Set<u64>,
) -> Result<bool, Seq<char>> {
    if inodes == Set::<u64>::empty() {
        if again == Set::<u64>::empty() {
            Ok(false)
        } else {
            Err("socket kernel identity appeared while checking owners: "@ + path)
        }
    } else if owned {
        Ok(true)
    } else if again != inodes {
        Err("socket kernel identity changed while scanning owners: "@ + path)
    } else {
        Ok(false)
    }
}

/// Whether a socket path has an owner. A path without owner has to show the
/// same inodes before and after the search.
pub fn decide_socket_ownership(path: &str, inodes: &Vec<u64>, owned: bool, again: &Vec<u64>) -> (r:
    Result<bool, String>)
    ensures
        match ownership(path@, inodes@.to_set(), owned, again@.to_set()) {
            Err(message) => fails_with(r, message),
            Ok(found) => r == Ok::<bool, String>(found),
        },
{
    proof {
        if inodes@.len() > 0 {
            assert(inodes@.to_set().contains(inodes@[0]));
        } else {
            assert(inodes@.to_set() =~= Set::empty());
        }
        if again@.len() > 0 {
            assert(again@.to_set().contains(again@[0]));
        } else {
            assert(again@.to_set() =~= Set::empty());
        }
    }
    if inodes.len() == 0 {
        return if again.len() == 0 {
            Ok(false)
        } else {
            Err("socket kernel identity appeared while checking owners: ".to_owned().concat(path))
        };
    }
    if owned {
        return Ok(true);
    }
    let same = within(inodes, again) && within(again, inodes);
    proof {
        if same {
            assert(inodes@.to_set() =~= again@.to_set());
        }
    }
    if !same {
        return Err(
            "socket kernel identity changed while scanning owners: ".to_owned().concat(path),
        );
    }
    Ok(false)
}

/// Whether a record has a claim on a socket name in a directory.
pub open spec fn claims_socket(
    record: LifecycleRecordView,
    generation: Option<Seq<char>>,
    parent: FileIdentity,
    name: Seq<char>,
) -> Result<bool, Seq<char>> {
    if generation == Some(record.generation) || record.phase == LifecyclePhase::Done {
        Ok(false)
    } else {
        match last_name(record.socket.path) {
            None => Err("recorded shim socket path has no basename: "@ + record.socket.path),
            Some(recorded) => Ok(record.socket.parent == parent && recorded == name),
        }
    }
}

/// Whether one of the records, from `from` on, has a claim on a socket name; a
/// record that is gone has none.
pub open spec fn socket_claimed(
    records: Seq<Result<Option<LifecycleRecord>, String>>,
    generation: Option<Seq<char>>,
    parent: FileIdentity,
    name: Seq<char>,
    from: int,
) -> Result<bool, Seq<char>>
    decreases records.len() - from,
{
    if from < 0 || from >= records.len() {
        Ok(false)
    } else {
        match records[from] {
            Err(message) => Err(message@),
            Ok(None) => socket_claimed(records, generation, parent, name, from + 1),
            Ok(Some(record)) => match claims_socket(record@, generation, parent, name) {
                Err(message) => Err(message),
                Ok(claimed) => if claimed {
                    Ok(true)
                } else {
                    socket_claimed(records, generation, parent, name, from + 1)
                },
            },
        }
    }
}

fn record_claims_socket(
    record: &LifecycleRecord,
    generation: &Option<String>,
    parent: FileIdentity,
    name: &str,
) -> (r: Result<bool, String>)
    ensures
        match claims_socket(record@, crate::text::opt_view(*generation), parent, name@) {
            Err(message) => fails_with(r, message),
            Ok(claimed) => r == Ok::<bool, String>(claimed),
        },
{
    let current = match generation {
        None => false,
        Some(own) => text_eq(own.as_str(), record.generation.as_str()),
    };
    if current || record.phase == LifecyclePhase::Done {
        return Ok(false);
    }
    match file_name(record.socket.path.as_str()) {
        None => Err(
            "recorded shim socket path has no basename: ".to_owned().concat(
                record.socket.path.as_str(),
            ),
        ),
        Some(recorded) => Ok(record.socket.parent == parent && text_eq(recorded.as_str(), name)),
    }
}

/// Whether another live lifecycle has a socket. The directory and the name in
/// it count, not one spelling of the path.
pub fn another_record_owns_socket(
    records: &Vec<Result<Option<LifecycleRecord>, String>>,
    generation: &Option<String>,
    parent: FileIdentity,
    name: &str,
) -> (r: Result<bool, String>)
    ensures
        match socket_claimed(records@, crate::text::opt_view(*generation), parent, name@, 0) {
            Err(message) => fails_with(r, message),
            Ok(claimed) => r == Ok::<bool, String>(claimed),
        },
{
    let ghost own = crate::text::opt_view(*generation);
    let mut i: usize = 0;
    while i < records.len()
        invariant
            i <= records.len(),
            own == crate::text::opt_view(*generation),
            socket_claimed(records@, own, parent, name@, 0) == socket_claimed(
                records@,
                own,
                parent,
                name@,
                i as int,
            ),
        decreases records.len() - i,
    {
        match &records[i] {
            Err(message) => return Err(message.clone()),
            Ok(None) => {},
            Ok(Some(record)) => match record_claims_socket(record, generation, parent, name) {
                Err(message) => return Err(message),
                Ok(claimed) => {
                    if claimed {
                        return Ok(true);
                    }
                },
            },
        }
        i = i + 1;
    }
    Ok(false)
}

/// Whether another live lifecycle has the socket at a path; the directory that
/// holds the path, or why it is not known, is given.
pub open spec fn reserved_by_another(
    records: Seq<Result<Option<LifecycleRecord>, String>>,
    generation: Option<Seq<char>>,
    path: Seq<char>,
    parent: Result<FileIdentity, String>,
) -> Result<bool, Seq<char>> {
    if parent_spec(path) is None {
        Err("shim socket has no parent: "@ + path)
    } else {
        match parent {
            Err(message) => Err(message@),
            Ok(directory) => match last_name(path) {
                None => Err("shim socket path must contain a basename: "@ + path),
                Some(name) => socket_claimed(records, generation, directory, name, 0),
            },
        }
    }
}

/// Whether another live lifecycle has the socket at a path.
pub fn socket_reserved(
    records: &Vec<Result<Option<LifecycleRecord>, String>>,
    generation: &Option<String>,
    path: &str,
    parent: &Result<FileIdentity, String>,
) -> (r: Result<bool, String>)
    ensures
        match reserved_by_another(records@, crate::text::opt_view(*generation), path@, *parent) {
            Err(message) => fails_with(r, message),
            Ok(reserved) => r == Ok::<bool, String>(reserved),
        },
{
    if parent_path(path).is_none() {
        return Err("shim socket has no parent: ".to_owned().concat(path));
    }
    let directory: FileIdentity = match parent {
        Err(message) => return Err(message.clone()),
        Ok(directory) => *directory,
    };
    match file_name(path) {
        None => Err("shim socket path must contain a basename: ".to_owned().concat(path)),
        Some(name) => another_record_owns_socket(records, generation, directory, name.as_str()),
    }
}

/// A registered socket is removed only where the path still shows the
/// registered inode below the recorded parent.
pub proof fn law_replaced_socket_is_kept(
    socket: SocketIdentityView,
    created_at_ms: u128,
    facts: SocketFacts,
)
    requires
        socket.device is Some,
        socket.inode is Some,
    ensures
        removable_socket(socket, created_at_ms, facts) matches Ok(Some(chosen)) ==> chosen == (
        FileIdentity { device: socket.device->0, inode: socket.inode->0 }) && facts.parent == Ok::<
            FileIdentity,
            String,
        >(socket.parent),
{
}

/// A socket that was never registered is removed only where it appeared after
/// the preparation, nobody has it open and no other lifecycle claims it.
pub proof fn law_foreign_socket_is_kept(
    socket: SocketIdentityView,
    created_at_ms: u128,
    facts: SocketFacts,
)
    requires
        socket.device is None || socket.inode is None,
    ensures
        removable_socket(socket, created_at_ms, facts) matches Ok(Some(_)) ==>
            socket.absent_at_prepare && facts.live_owner == Ok::<bool, String>(false)
            && facts.reserved == Ok::<bool, String>(false),
{
}

/// The name of the lock under which a socket is made, registered and removed.
pub open spec fn lock_name(path: Seq<char>, parent: Result<FileIdentity, String>) -> Result<
    Seq<char>,
    Seq<char>,
> {
    if parent_spec(path) is None {
        Err("shim socket has no parent: "@ + path)
    } else if last_name(path) is None {
        Err("shim socket path must contain a basename: "@ + path)
    } else {
        match parent {
            Err(message) => Err(message@),
            Ok(directory) => Ok(
                hex(sha256(prefixed_all(socket_parts(directory, encode_utf8(last_name(path)->0)))))
                    + ".lock"@,
            ),
        }
    }
}

/// The name of the lock under which a socket is made, registered and removed:
/// it follows from the directory that holds the socket and from its name there.
pub fn socket_lock_name(path: &str, parent: &Result<FileIdentity, String>) -> (r: Result<
    String,
    String,
>)
    ensures
        outcome(r) == lock_name(path@, *parent),
{
    if parent_path(path).is_none() {
        return Err("shim socket has no parent: ".to_owned().concat(path));
    }
    let name = match file_name(path) {
        None => {
            return Err("shim socket path must contain a basename: ".to_owned().concat(path));
        },
        Some(name) => name,
    };
    match parent {
        Err(message) => Err(message.clone()),
        Ok(directory) => Ok(
            socket_ownership_digest(directory, name.as_str().as_bytes()).concat(".lock"),
        ),
    }
}

/// Every spelling of a socket's path leads to one lock: it is told by the
/// directory that holds the socket and by the last name alone.
pub proof fn law_aliases_share_a_lock(
    path: Seq<char>,
    alias: Seq<char>,
    parent: Result<FileIdentity, String>,
)
    requires
        last_name(path) == last_name(alias),
        lock_name(path, parent) is Ok,
        lock_name(alias, parent) is Ok,
    ensures
        lock_name(path, parent) == lock_name(alias, parent),
{
}

/// A lifecycle that claims a socket keeps every other one from it: where all
/// records before it can be read, the socket is found to be claimed.
pub proof fn law_claimed_socket_is_found(
    records: Seq<Result<Option<LifecycleRecord>, String>>,
    generation: Option<Seq<char>>,
    parent: FileIdentity,
    name: Seq<char>,
    i: int,
)
    requires
        0 <= i < records.len(),
        records[i] matches Ok(Some(record)) && claims_socket(record@, generation, parent, name)
            == Ok::<bool, Seq<char>>(true),
    ensures
        socket_claimed(records, generation, parent, name, 0) != Ok::<bool, Seq<char>>(false),
        readable_until(records, generation, parent, name, i) ==> socket_claimed(
            records,
            generation,
            parent,
            name,
            0,
        ) == Ok::<bool, Seq<char>>(true),
{
    lemma_claim_found(records, generation, parent, name, 0, i);
}

/// Whether all records before one can be read and judged.
pub open spec fn readable_until(
    records: Seq<Result<Option<LifecycleRecord>, String>>,
    generation: Option<Seq<char>>,
    parent: FileIdentity,
    name: Seq<char>,
    until: int,
) -> bool {
    forall|j: int|
        0 <= j < until ==> match #[trigger] records[j] {
            Err(_) => false,
            Ok(None) => true,
            Ok(Some(record)) => claims_socket(record@, generation, parent, name) is Ok,
        }
}

proof fn lemma_claim_found(
    records: Seq<Result<Option<LifecycleRecord>, String>>,
    generation: Option<Seq<char>>,
    parent: FileIdentity,
    name: Seq<char>,
    from: int,
    i: int,
)
    requires
        0 <= from <= i < records.len(),
        records[i] matches Ok(Some(record)) && claims_socket(record@, generation, parent, name)
            == Ok::<bool, Seq<char>>(true),
    ensures
        socket_claimed(records, generation, parent, name, from) != Ok::<bool, Seq<char>>(false),
        readable_until(records, generation, parent, name, i) ==> socket_claimed(
            records,
            generation,
            parent,
            name,
            from,
        ) == Ok::<bool, Seq<char>>(true),
    decreases i - from,
{
    if from < i {
        lemma_claim_found(records, generation, parent, name, from + 1, i);
    }
}

/// A registered socket that is still there goes; nothing is to do where there
/// is none; and what is no socket, stands below another parent or has another
/// inode stays, and so does everything that cannot be looked at.
pub proof fn law_registered_socket_is_removed(
    socket: SocketIdentityView,
    created_at_ms: u128,
    facts: SocketFacts,
    stat: PathStat,
    parent: FileIdentity,
)
    requires
        socket.device is Some,
        socket.inode is Some,
        facts.stat == Ok::<Option<PathStat>, String>(Some(stat)),
        facts.parent == Ok::<FileIdentity, String>(parent),
    ensures
        ({
            let chosen = removable_socket(socket, created_at_ms, facts);
            let mine = stat.is_socket && parent == socket.parent && stat.identity.device
                == socket.device->0 && stat.identity.inode == socket.inode->0;
            &&& mine ==> chosen == Ok::<Option<FileIdentity>, Seq<char>>(Some(stat.identity))
            &&& !mine ==> chosen is Err
        }),
{
}

/// A socket that was never registered goes where it was not there at the
/// preparation, is not older than it, nobody has it open and no other lifecycle
/// claims it.
pub proof fn law_stale_socket_is_removed(
    socket: SocketIdentityView,
    created_at_ms: u128,
    facts: SocketFacts,
    stat: PathStat,
    live: bool,
    reserved: bool,
)
    requires
        socket.device is None || socket.inode is None,
        created_at_ms < 9_223_372_036_854_775_807_000,
        facts.stat == Ok::<Option<PathStat>, String>(Some(stat)),
        facts.parent == Ok::<FileIdentity, String>(socket.parent),
        facts.live_owner == Ok::<bool, String>(live),
        facts.reserved == Ok::<bool, String>(reserved),
        stat.is_socket,
    ensures
        ({
            let chosen = removable_socket(socket, created_at_ms, facts);
            let stale = socket.absent_at_prepare && stat.modified >= created_at_ms / 1000 && !live
                && !reserved;
            &&& stale ==> chosen == Ok::<Option<FileIdentity>, Seq<char>>(Some(stat.identity))
            &&& !stale ==> chosen == Err::<Option<FileIdentity>, Seq<char>>(
                "unregistered socket cannot be proven stale: "@ + socket.path,
            )
        }),
{
}

/// A socket that is gone needs no removal, and one that cannot be looked at is
/// not removed.
pub proof fn law_absent_socket_needs_no_removal(
    socket: SocketIdentityView,
    created_at_ms: u128,
    facts: SocketFacts,
)
    ensures
        facts.stat matches Ok(None) ==> removable_socket(socket, created_at_ms, facts) == Ok::<
            Option<FileIdentity>,
            Seq<char>,
        >(None),
        facts.stat is Err ==> removable_socket(socket, created_at_ms, facts) is Err,
{
}

/// A chosen socket is unlinked exactly where it is still the same socket below
/// the same parent and nobody else has claimed it since.
pub proof fn law_chosen_socket_is_looked_at_again(
    socket: SocketIdentityView,
    chosen: FileIdentity,
    stat: Result<PathStat, String>,
    parent: Result<FileIdentity, String>,
    reserved: Result<bool, String>,
)
    ensures
        (removal_fault(socket, chosen, stat, parent, reserved) is None) == (stat is Ok
            && stat->Ok_0.is_socket && stat->Ok_0.identity == chosen && parent == Ok::<
            FileIdentity,
            String,
        >(socket.parent) && reserved == Ok::<bool, String>(false)),
{
}

/// A socket that the kernel does not know has no owner; one that a process has
/// open has one; and where the kernel's view changed meanwhile nothing is
/// decided.
pub proof fn law_ownership_is_decided_on_one_view(
    path: Seq<char>,
    inodes: Set<u64>,
    again: Set<u64>,
    owned: bool,
    inode: u64,
)
    ensures
        ownership(path, Set::empty(), owned, Set::empty()) == Ok::<bool, Seq<char>>(false),
        again.contains(inode) ==> ownership(path, Set::empty(), owned, again) is Err,
        inodes.contains(inode) ==> ownership(path, inodes, true, again) == Ok::<bool, Seq<char>>(
            true,
        ),
        inodes.contains(inode) ==> ownership(path, inodes, false, inodes) == Ok::<
            bool,
            Seq<char>,
        >(false),
        inodes.contains(inode) && again != inodes ==> ownership(path, inodes, false, again) is Err,
{
}

/// A record claims the socket of its name below its parent, until it is done;
/// never against its own generation.
pub proof fn law_records_claim_their_socket(
    record: LifecycleRecordView,
    generation: Option<Seq<char>>,
    parent: FileIdentity,
    name: Seq<char>,
)
    requires
        last_name(record.socket.path) is Some,
    ensures
        claims_socket(record, generation, parent, name) == Ok::<bool, Seq<char>>(
            record.phase != LifecyclePhase::Done && generation != Some(record.generation)
                && record.socket.parent == parent && last_name(record.socket.path) == Some(name),
        ),
{
}

/// Where every record can be read and none claims a socket, it is free; and a
/// record that cannot be read leaves nothing free.
pub proof fn law_unclaimed_socket_is_free(
    records: Seq<Result<Option<LifecycleRecord>, String>>,
    generation: Option<Seq<char>>,
    parent: FileIdentity,
    name: Seq<char>,
    from: int,
)
    requires
        0 <= from,
        forall|j: int|
            from <= j < records.len() ==> match #[trigger] records[j] {
                Err(_) => false,
                Ok(None) => true,
                Ok(Some(record)) => claims_socket(record@, generation, parent, name) == Ok::<
                    bool,
                    Seq<char>,
                >(false),
            },
    ensures
        socket_claimed(records, generation, parent, name, from) == Ok::<bool, Seq<char>>(false),
    decreases records.len() - from,
{
    if from < records.len() {
        law_unclaimed_socket_is_free(records, generation, parent, name, from + 1);
    }
}

/// The inode of each socket at a path is found, whatever stands in the other
/// rows, and no other one.
pub proof fn law_kernel_sockets_are_found(
    lines: Seq<Seq<char>>,
    path: Seq<char>,
    row: int,
    at: int,
    inode: u64,
)
    requires
        1 <= row <= at < lines.len(),
        words(lines[at]).len() >= 8,
        spaced(words(lines[at]), 7) == path,
        unsigned_value(words(lines[at])[6], u64::MAX as nat) == Some(inode as nat),
    ensures
        kernel_inodes(lines, path, row) matches Ok(found) ==> found.contains(inode),
    decreases lines.len() - row,
{
    if row < at {
        law_kernel_sockets_are_found(lines, path, row + 1, at, inode);
    }
}

/// Only the inodes of sockets at the path are found.
pub proof fn law_only_kernel_sockets_are_found(
    lines: Seq<Seq<char>>,
    path: Seq<char>,
    row: int,
    inode: u64,
)
    requires
        1 <= row,
        kernel_inodes(lines, path, row) matches Ok(found) && found.contains(inode),
    ensures
        exists|at: int|
            row <= at < lines.len() && words(#[trigger] lines[at]).len() >= 8 && spaced(
                words(lines[at]),
                7,
            ) == path && unsigned_value(words(lines[at])[6], u64::MAX as nat) == Some(
                inode as nat,
            ),
    decreases lines.len() - row,
{
    if row < lines.len() {
        let fields = words(lines[row]);
        if fields.len() >= 8 && spaced(fields, 7) == path && unsigned_value(
            fields[6],
            u64::MAX as nat,
        ) is Some {
            let mine = unsigned_value(fields[6], u64::MAX as nat)->0;
            if inode as nat == mine {
                assert(words(lines[row]).len() >= 8);
            } else {
                law_only_kernel_sockets_are_found(lines, path, row + 1, inode);
            }
        } else {
            law_only_kernel_sockets_are_found(lines, path, row + 1, inode);
        }
    }
}

/// A descriptor's link names the socket whose number stands between the
/// brackets; another link names none.
pub proof fn law_socket_links_name_their_number(number: Seq<char>, link: Seq<char>)
    ensures
        socket_link("socket:["@ + number + "]"@) == Some(number),
        after_prefix(link, "socket:["@) is None ==> socket_link(link) is None,
        !has_suffix(link, "]"@) ==> socket_link(link) is None || has_suffix(
            after_prefix(link, "socket:["@)->0,
            "]"@,
        ),
{
    reveal_strlit("]");
    let rest = number + "]"@;
    assert("socket:["@ + number + "]"@ =~= "socket:["@ + rest);
    crate::text::law_prefix_and_suffix_are_found("socket:["@, rest);
    crate::text::law_prefix_and_suffix_are_found(number, "]"@);
    assert(rest.take(rest.len() - 1) =~= number);
}

/// A path with blanks in it is put together again from its parts, with one blank
/// between each two.
pub proof fn law_paths_are_put_together_with_blanks(parts: Seq<Seq<char>>, from: int)
    requires
        0 <= from < parts.len(),
    ensures
        from + 1 == parts.len() ==> spaced(parts, from) == parts[from],
        from + 1 < parts.len() ==> spaced(parts, from) == parts[from] + " "@ + spaced(
            parts,
            from + 1,
        ),
{
}

} // verus!
