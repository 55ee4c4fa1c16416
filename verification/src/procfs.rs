//! What the kernel's process and cgroup files, and systemd's answers, say.
use vstd::prelude::*;

use crate::digest::{cut_in_pairs, decode_hex, decode_pairs, hex, sha256, sha256_hex};
use crate::identity::{ContainmentIdentity, ContainmentIdentityView, FileIdentity, ProcessIdentity};
use crate::identity::ProcessIdentityView;
use crate::paths::{is_rooted, rooted};
use crate::text::{
    after_last, after_last_spec, after_prefix, contains_text, fails_with, lines_of, occurs,
    opt_view, outcome, parse_i32, parse_i32_message, parse_u64, parse_u64_message, signed_decimal,
    signed_decimal_text, signed_value, split_lines, split_once, split_once_spec, split_words,
    strip_prefix, text_eq, trim, trimmed, unsigned_value, utf8_message, utf8_text, views, words,
};
use vstd::utf8::encode_utf8;

verus! {

/// The environment variable with which a server is given its launch nonce.
pub const LAUNCH_NONCE_ENV: &'static str = "CUBE_SHIM_LAUNCH_NONCE";

fn process_text(before: &str, pid: i32, after: &str) -> (text: String)
    ensures
        text@ == before@ + signed_decimal(pid as int) + after@,
{
    before.to_owned().concat(signed_decimal_text(pid as i64).as_str()).concat(after)
}

/// The fields of a process's stat line that follow its command.
pub open spec fn stat_fields(stat: Seq<char>) -> Option<Seq<Seq<char>>> {
    match after_last_spec(stat, ')') {
        None => None,
        Some(rest) => Some(words(rest)),
    }
}

/// The time at which a process started, by its stat line.
pub open spec fn start_time(pid: i32, stat: Seq<char>) -> Result<u64, Seq<char>> {
    match stat_fields(stat) {
        None => Err("process "@ + signed_decimal(pid as int) + " stat has no command terminator"@),
        Some(fields) => if fields.len() <= 19 {
            Err("process "@ + signed_decimal(pid as int) + " stat has no starttime"@)
        } else {
            match unsigned_value(fields[19], u64::MAX as nat) {
                None => Err(
                    "parse process "@ + signed_decimal(pid as int) + " starttime: "@
                        + parse_u64_message(fields[19]),
                ),
                Some(ticks) => Ok(ticks as u64),
            }
        },
    }
}

/// The time at which a process started, by its stat line.
pub fn process_start_time(pid: i32, stat: &str) -> (r: Result<u64, String>)
    ensures
        match start_time(pid, stat@) {
            Ok(ticks) => r == Ok::<u64, String>(ticks),
            Err(message) => fails_with(r, message),
        },
{
    let rest = match after_last(stat, ')') {
        None => return Err(process_text("process ", pid, " stat has no command terminator")),
        Some(rest) => rest,
    };
    let fields = split_words(rest.as_str());
    let ghost all = views(fields@);
    if fields.len() <= 19 {
        return Err(process_text("process ", pid, " stat has no starttime"));
    }
    assert(all[19] == fields@[19]@);
    match parse_u64(fields[19].as_str()) {
        Ok(ticks) => Ok(ticks),
        Err(error) => Err(
            process_text("parse process ", pid, " starttime: ").concat(error.as_str()),
        ),
    }
}

/// The parent of a process, by its stat line.
pub open spec fn parent_pid(pid: i32, stat: Seq<char>) -> Result<i32, Seq<char>> {
    match stat_fields(stat) {
        None => Err("process "@ + signed_decimal(pid as int) + " stat has no command terminator"@),
        Some(fields) => if fields.len() <= 1 {
            Err("process "@ + signed_decimal(pid as int) + " stat has no parent pid"@)
        } else {
            match signed_value(fields[1], i32::MIN as int, i32::MAX as int) {
                None => Err(
                    "parse process "@ + signed_decimal(pid as int) + " parent pid: "@
                        + parse_i32_message(fields[1]),
                ),
                Some(parent) => Ok(parent as i32),
            }
        },
    }
}

/// The parent of a process, by its stat line.
pub fn process_parent_pid(pid: i32, stat: &str) -> (r: Result<i32, String>)
    ensures
        match parent_pid(pid, stat@) {
            Ok(parent) => r == Ok::<i32, String>(parent),
            Err(message) => fails_with(r, message),
        },
{
    let rest = match after_last(stat, ')') {
        None => return Err(process_text("process ", pid, " stat has no command terminator")),
        Some(rest) => rest,
    };
    let fields = split_words(rest.as_str());
    let ghost all = views(fields@);
    if fields.len() <= 1 {
        return Err(process_text("process ", pid, " stat has no parent pid"));
    }
    assert(all[1] == fields@[1]@);
    match parse_i32(fields[1].as_str()) {
        Ok(parent) => Ok(parent),
        Err(error) => Err(
            process_text("parse process ", pid, " parent pid: ").concat(error.as_str()),
        ),
    }
}

/// The values of the unified hierarchy among the lines of a process's cgroup
/// file.
pub open spec fn unified_values(lines: Seq<Seq<char>>) -> Seq<Seq<char>>
    decreases lines.len(),
{
    if lines.len() == 0 {
        Seq::empty()
    } else {
        let rest = unified_values(lines.drop_last());
        match after_prefix(lines.last(), "0::"@) {
            None => rest,
            Some(value) => rest.push(value),
        }
    }
}

/// The cgroup of a process, by its cgroup file.
pub open spec fn unified_cgroup(pid: i32, data: Seq<char>) -> Result<Seq<char>, Seq<char>> {
    let values = unified_values(lines_of(data));
    if values.len() == 0 {
        Err("process "@ + signed_decimal(pid as int) + " has no unified cgroup"@)
    } else if values.len() > 1 || !is_rooted(values[0]) {
        Err("process "@ + signed_decimal(pid as int) + " has invalid unified cgroup data"@)
    } else {
        Ok(values[0])
    }
}

/// The cgroup of a process, by its cgroup file: the one absolute path of the
/// unified hierarchy.
pub fn process_cgroup(pid: i32, data: &str) -> (r: Result<String, String>)
    ensures
        outcome(r) == unified_cgroup(pid, data@),
{
    let lines = split_lines(data);
    let ghost all = views(lines@);
    let mut values: Vec<String> = Vec::new();
    let mut i: usize = 0;
    assert(views(values@) =~= unified_values(all.take(0)));
    while i < lines.len()
        invariant
            all == views(lines@),
            i <= lines.len(),
            views(values@) == unified_values(all.take(i as int)),
        decreases lines.len() - i,
    {
        proof {
            assert(all.take(i + 1).drop_last() =~= all.take(i as int));
            assert(all.take(i + 1).last() == lines@[i as int]@);
        }
        match strip_prefix(lines[i].as_str(), "0::") {
            None => {},
            Some(value) => {
                let ghost before = values@;
                values.push(value);
                assert(views(values@) =~= views(before).push(value@));
            },
        }
        i = i + 1;
    }
    assert(all.take(i as int) =~= all);
    let ghost found = views(values@);
    if values.len() == 0 {
        return Err(process_text("process ", pid, " has no unified cgroup"));
    }
    assert(found[0] == values@[0]@);
    if values.len() > 1 || !rooted(values[0].as_str()) {
        return Err(process_text("process ", pid, " has invalid unified cgroup data"));
    }
    Ok(values[0].clone())
}

/// The bytes before the first zero byte, from `from` on.
pub open spec fn cell_end(data: Seq<u8>, from: int) -> int
    decreases data.len() - from,
{
    if from < 0 || from >= data.len() || data[from] == 0u8 {
        from
    } else {
        cell_end(data, from + 1)
    }
}

/// Whether `prefix` stands at a place of some bytes.
pub open spec fn stands_at(data: Seq<u8>, prefix: Seq<u8>, at: int) -> bool {
    at + prefix.len() <= data.len() && data.subrange(at, at + prefix.len()) == prefix
}

/// The value of the first zero-ended entry, from `from` on, that starts with
/// `prefix`.
pub open spec fn first_entry(data: Seq<u8>, prefix: Seq<u8>, from: int) -> Option<Seq<u8>>
    decreases data.len() - from,
{
    let end = cell_end(data, from);
    if from < 0 || from > data.len() || end < from {
        None
    } else if from + prefix.len() <= end && stands_at(data, prefix, from) {
        Some(data.subrange(from + prefix.len(), end))
    } else if end >= data.len() {
        None
    } else {
        first_entry(data, prefix, end + 1)
    }
}

proof fn lemma_cell_end(data: Seq<u8>, from: int)
    requires
        0 <= from <= data.len(),
    ensures
        from <= cell_end(data, from) <= data.len(),
    decreases data.len() - from,
{
    if from < data.len() && data[from] != 0u8 {
        lemma_cell_end(data, from + 1);
    }
}

fn find_cell_end(data: &[u8], from: usize) -> (end: usize)
    requires
        from <= data@.len(),
    ensures
        end == cell_end(data@, from as int),
        from <= end <= data@.len(),
{
    let mut i: usize = from;
    while i < data.len() && data[i] != 0u8
        invariant
            from <= i <= data@.len(),
            cell_end(data@, i as int) == cell_end(data@, from as int),
        decreases data@.len() - i,
    {
        i = i + 1;
    }
    i
}

fn matches_at(data: &[u8], prefix: &[u8], at: usize) -> (r: bool)
    requires
        at + prefix@.len() <= data@.len(),
    ensures
        r == stands_at(data@, prefix@, at as int),
{
    let length: usize = data.len();
    let mut i: usize = 0;
    while i < prefix.len()
        invariant
            i <= prefix@.len(),
            length == data@.len(),
            at + prefix@.len() <= data@.len(),
            forall|k: int| 0 <= k < i ==> data@[at + k] == prefix@[k],
        decreases prefix@.len() - i,
    {
        if data[at + i] != prefix[i] {
            assert(data@.subrange(at as int, at + prefix@.len())[i as int] == data@[at + i]);
            return false;
        }
        i = i + 1;
    }
    assert(data@.subrange(at as int, at + prefix@.len()) =~= prefix@);
    true
}

fn find_entry(data: &[u8], prefix: &[u8]) -> (r: Option<Vec<u8>>)
    ensures
        match first_entry(data@, prefix@, 0) {
            None => r is None,
            Some(value) => r matches Some(found) && found@ == value,
        },
{
    let mut from: usize = 0;
    loop
        invariant
            from <= data@.len(),
            first_entry(data@, prefix@, from as int) == first_entry(data@, prefix@, 0),
        decreases data@.len() - from,
    {
        let end = find_cell_end(data, from);
        if prefix.len() <= end - from && matches_at(data, prefix, from) {
            let start: usize = from + prefix.len();
            let mut value: Vec<u8> = Vec::new();
            let mut i: usize = start;
            while i < end
                invariant
                    start <= i <= end <= data@.len(),
                    value@ == data@.subrange(start as int, i as int),
                decreases end - i,
            {
                value.push(data[i]);
                assert(data@.subrange(start as int, i + 1) =~= data@.subrange(
                    start as int,
                    i as int,
                ).push(data@[i as int]));
                i = i + 1;
            }
            return Some(value);
        }
        if end >= data.len() {
            return None;
        }
        from = end + 1;
    }
}

/// What a process's environment gives to a variable; `owner` and `name` stand
/// in the message about a value that is not text.
pub open spec fn environment_value(data: Seq<u8>, name: Seq<char>, complaint: Seq<char>) -> Result<
    Option<Seq<char>>,
    Seq<char>,
> {
    match first_entry(data, encode_utf8(name + "="@), 0) {
        None => Ok(None),
        Some(value) => if vstd::utf8::valid_utf8(value) {
            Ok(Some(vstd::utf8::decode_utf8(value)))
        } else {
            Err(complaint + utf8_message(value))
        },
    }
}

fn read_environment(data: &[u8], name: &str, complaint: &str) -> (r: Result<Option<String>, String>)
    ensures
        match environment_value(data@, name@, complaint@) {
            Err(message) => fails_with(r, message),
            Ok(value) => r matches Ok(found) && opt_view(found) == value,
        },
{
    let prefix = name.to_owned().concat("=");
    match find_entry(data, prefix.as_str().as_bytes()) {
        None => Ok(None),
        Some(value) => match utf8_text(value.as_slice()) {
            Ok(text) => Ok(Some(text)),
            Err(error) => Err(complaint.to_owned().concat(error.as_str())),
        },
    }
}

/// The value of a variable in the environment of a process.
pub fn process_environment_value(pid: i32, data: &[u8], name: &str) -> (r: Result<
    Option<String>,
    String,
>)
    ensures
        match environment_value(
            data@,
            name@,
            "process "@ + signed_decimal(pid as int) + " "@ + name@ + " is not UTF-8: "@,
        ) {
            Err(message) => fails_with(r, message),
            Ok(value) => r matches Ok(found) && opt_view(found) == value,
        },
{
    let complaint = process_text("process ", pid, " ").concat(name).concat(" is not UTF-8: ");
    read_environment(data, name, complaint.as_str())
}

/// The launch nonce in the environment of a process, as it stands there.
pub fn process_launch_nonce(pid: i32, data: &[u8]) -> (r: Result<Option<String>, String>)
    ensures
        match environment_value(
            data@,
            LAUNCH_NONCE_ENV@,
            "process "@ + signed_decimal(pid as int) + " launch nonce is not UTF-8: "@,
        ) {
            Err(message) => fails_with(r, message),
            Ok(value) => r matches Ok(found) && opt_view(found) == value,
        },
{
    let complaint = process_text("process ", pid, " launch nonce is not UTF-8: ");
    read_environment(data, LAUNCH_NONCE_ENV, complaint.as_str())
}

/// The digest of a launch nonce that is written in hexadecimal.
pub open spec fn nonce_digest(value: Seq<char>) -> Result<Seq<char>, Seq<char>> {
    if encode_utf8(value).len() % 2 != 0 {
        Err("hex launch nonce has odd length"@)
    } else {
        match decode_pairs(encode_utf8(value), 0) {
            Err(message) => Err(message),
            Ok(nonce) => Ok(hex(sha256(nonce))),
        }
    }
}

/// The digest of a launch nonce that is written in hexadecimal.
pub fn launch_nonce_hash(value: &str) -> (r: Result<String, String>)
    requires
        encode_utf8(value@).len() % 2 == 0 ==> cut_in_pairs(encode_utf8(value@)),
    ensures
        outcome(r) == nonce_digest(value@),
{
    match decode_hex(value) {
        Err(message) => Err(message),
        Ok(nonce) => Ok(sha256_hex(nonce.as_slice())),
    }
}

/// The processes of a cgroup, by the lines of its process file from `from` on.
pub open spec fn listed_pids(lines: Seq<Seq<char>>, from: int) -> Result<Seq<i32>, Seq<char>>
    decreases lines.len() - from,
{
    if from < 0 || from >= lines.len() {
        Ok(Seq::empty())
    } else if trimmed(lines[from]).len() == 0 {
        listed_pids(lines, from + 1)
    } else {
        match signed_value(trimmed(lines[from]), i32::MIN as int, i32::MAX as int) {
            None => Err(
                "parse Host leaf pid "@ + lines[from] + ": "@ + parse_i32_message(
                    trimmed(lines[from]),
                ),
            ),
            Some(pid) => match listed_pids(lines, from + 1) {
                Err(message) => Err(message),
                Ok(rest) => Ok(seq![pid as i32] + rest),
            },
        }
    }
}

/// The processes of a cgroup, by its process file.
pub fn cgroup_pids(data: &str) -> (r: Result<Vec<i32>, String>)
    ensures
        match listed_pids(lines_of(data@), 0) {
            Err(message) => fails_with(r, message),
            Ok(pids) => r matches Ok(found) && found@ == pids,
        },
{
    let lines = split_lines(data);
    let ghost all = views(lines@);
    let mut pids: Vec<i32> = Vec::new();
    let mut i: usize = 0;
    assert(listed_pids(all, 0) matches Ok(rest) ==> pids@ + rest =~= rest);
    while i < lines.len()
        invariant
            all == views(lines@),
            all == lines_of(data@),
            i <= lines.len(),
            match listed_pids(all, i as int) {
                Err(message) => listed_pids(all, 0) == Err::<Seq<i32>, Seq<char>>(message),
                Ok(rest) => listed_pids(all, 0) == Ok::<Seq<i32>, Seq<char>>(pids@ + rest),
            },
        decreases lines.len() - i,
    {
        assert(all[i as int] == lines@[i as int]@);
        let line = trim(lines[i].as_str());
        if line.as_str().is_empty() {
            i = i + 1;
            continue;
        }
        match parse_i32(line.as_str()) {
            Err(error) => return Err(
                "parse Host leaf pid ".to_owned().concat(lines[i].as_str()).concat(": ").concat(
                    error.as_str(),
                ),
            ),
            Ok(pid) => {
                let ghost before = pids@;
                pids.push(pid);
                proof {
                    if let Ok(rest) = listed_pids(all, i + 1) {
                        assert(before + (seq![pid] + rest) =~= pids@ + rest);
                    }
                }
            },
        }
        i = i + 1;
    }
    assert(pids@ + Seq::<i32>::empty() =~= pids@);
    Ok(pids)
}

/// Whether a line says that a cgroup is not populated.
pub open spec fn says_unpopulated(line: Seq<char>) -> bool {
    words(line).len() == 2 && words(line)[0] == "populated"@ && words(line)[1] == "0"@
}

fn line_says_unpopulated(line: &str) -> (r: bool)
    ensures
        r == says_unpopulated(line@),
{
    let fields = split_words(line);
    let ghost seen = views(fields@);
    if fields.len() != 2 {
        return false;
    }
    assert(seen[0] == fields@[0]@ && seen[1] == fields@[1]@);
    text_eq(fields[0].as_str(), "populated") && text_eq(fields[1].as_str(), "0")
}

/// Whether a cgroup's event file says that the cgroup is not populated.
pub open spec fn unpopulated(data: Seq<char>) -> bool {
    exists|i: int| 0 <= i < lines_of(data).len() && says_unpopulated(#[trigger] lines_of(data)[i])
}

/// Whether a cgroup's event file says that the cgroup is not populated.
pub fn events_unpopulated(data: &str) -> (r: bool)
    ensures
        r == unpopulated(data@),
{
    let lines = split_lines(data);
    let ghost all = views(lines@);
    let mut i: usize = 0;
    while i < lines.len()
        invariant
            all == views(lines@),
            all == lines_of(data@),
            i <= lines.len(),
            forall|k: int| 0 <= k < i ==> !says_unpopulated(#[trigger] all[k]),
        decreases lines.len() - i,
    {
        assert(all[i as int] == lines@[i as int]@);
        if line_says_unpopulated(lines[i].as_str()) {
            return true;
        }
        i = i + 1;
    }
    false
}

/// Whether a cgroup's process file lists anything.
pub open spec fn lists_something(data: Seq<char>) -> bool {
    exists|i: int| 0 <= i < lines_of(data).len() && trimmed(#[trigger] lines_of(data)[i]).len() > 0
}

/// Whether a cgroup's process file lists anything.
pub fn procs_listed(data: &str) -> (r: bool)
    ensures
        r == lists_something(data@),
{
    let lines = split_lines(data);
    let ghost all = views(lines@);
    let mut i: usize = 0;
    while i < lines.len()
        invariant
            all == views(lines@),
            all == lines_of(data@),
            i <= lines.len(),
            forall|k: int| 0 <= k < i ==> trimmed(#[trigger] all[k]).len() == 0,
        decreases lines.len() - i,
    {
        assert(all[i as int] == lines@[i as int]@);
        if !trim(lines[i].as_str()).as_str().is_empty() {
            return true;
        }
        i = i + 1;
    }
    false
}

/// What systemd says of a property, by the lines of its answer: the last value
/// counts.
pub open spec fn property_value(lines: Seq<Seq<char>>, key: Seq<char>) -> Option<Seq<char>>
    decreases lines.len(),
{
    if lines.len() == 0 {
        None
    } else {
        match split_once_spec(lines.last(), "="@) {
            Some((name, value)) if name == key => Some(value),
            _ => property_value(lines.drop_last(), key),
        }
    }
}

/// What systemd says of a property.
pub fn systemd_property(answer: &str, key: &str) -> (value: Option<String>)
    ensures
        opt_view(value) == property_value(lines_of(answer@), key@),
{
    let lines = split_lines(answer);
    let ghost all = views(lines@);
    let mut i: usize = lines.len();
    assert(all.take(i as int) =~= all);
    while i > 0
        invariant
            all == views(lines@),
            all == lines_of(answer@),
            i <= lines.len(),
            property_value(all, key@) == property_value(all.take(i as int), key@),
        decreases i,
    {
        proof {
            assert(all.take(i as int).last() == lines@[i - 1]@);
            assert(all.take(i as int).drop_last() =~= all.take(i - 1));
        }
        if let Some((name, value)) = split_once(lines[i - 1].as_str(), "=") {
            if text_eq(name.as_str(), key) {
                return Some(value);
            }
        }
        i = i - 1;
    }
    None
}

/// Whether systemd's answer to a question after a unit's load state says that
/// the unit is gone.
pub open spec fn unit_absence(
    unit: Seq<char>,
    success: bool,
    stdout: Seq<char>,
    stderr: Seq<char>,
) -> Result<bool, Seq<char>> {
    if trimmed(stdout) == "not-found"@ {
        Ok(true)
    } else if success {
        Ok(false)
    } else if occurs(stderr, "could not be found"@) || occurs(stderr, "not found"@) {
        Ok(true)
    } else {
        Err("query systemd unit collection "@ + unit + ": "@ + trimmed(stderr))
    }
}

/// Whether systemd's answer to a question after a unit's load state says that
/// the unit is gone. The state on the standard output counts whatever the exit
/// status is: versions of systemd disagree on the status for a unit that was
/// collected.
pub fn systemd_unit_absent_from_output(unit: &str, success: bool, stdout: &str, stderr: &str) -> (r:
    Result<bool, String>)
    ensures
        match unit_absence(unit@, success, stdout@, stderr@) {
            Ok(absent) => r == Ok::<bool, String>(absent),
            Err(message) => fails_with(r, message),
        },
{
    if text_eq(trim(stdout).as_str(), "not-found") {
        return Ok(true);
    }
    if success {
        return Ok(false);
    }
    if contains_text(stderr, "could not be found") || contains_text(stderr, "not found") {
        return Ok(true);
    }
    Err(
        "query systemd unit collection ".to_owned().concat(unit).concat(": ").concat(
            trim(stderr).as_str(),
        ),
    )
}

/// What is read of a process to identify it.
pub struct ProcessReadings {
    pub stat: Result<String, String>,
    pub command: Result<Vec<u8>, String>,
    pub boot_id: Result<String, String>,
    pub executable: Result<FileIdentity, String>,
    pub cwd: Result<FileIdentity, String>,
    pub cgroup: Result<String, String>,
}

/// The identity of a process, by what was read of it.
pub open spec fn identity_of(pid: i32, seen: ProcessReadings, nonce: Option<Seq<char>>) -> Result<
    ProcessIdentityView,
    Seq<char>,
> {
    let who = signed_decimal(pid as int);
    match seen.stat {
        Err(error) => Err("read process "@ + who + " stat: "@ + error@),
        Ok(stat) => match start_time(pid, stat@) {
            Err(message) => Err(message),
            Ok(start_time_ticks) => match seen.command {
                Err(error) => Err("read process "@ + who + " cmdline: "@ + error@),
                Ok(command) => match seen.boot_id {
                    Err(error) => Err("read boot id: "@ + error@),
                    Ok(boot_id) => match seen.executable {
                        Err(error) => Err(error@),
                        Ok(executable) => match seen.cwd {
                            Err(error) => Err(error@),
                            Ok(cwd) => match seen.cgroup {
                                Err(error) => Err("read process "@ + who + " cgroup: "@ + error@),
                                Ok(data) => match unified_cgroup(pid, data@) {
                                    Err(message) => Err(message),
                                    Ok(cgroup) => Ok(
                                        ProcessIdentityView {
                                            pid,
                                            boot_id: trimmed(boot_id@),
                                            start_time_ticks,
                                            executable,
                                            command_sha256: hex(sha256(command@)),
                                            cwd,
                                            cgroup,
                                            launch_nonce_sha256: nonce,
                                        },
                                    ),
                                },
                            },
                        },
                    },
                },
            },
        },
    }
}

/// The identity of a process, by what was read of it.
pub fn capture_process_identity(pid: i32, seen: &ProcessReadings, nonce_hash: Option<String>) -> (r:
    Result<ProcessIdentity, String>)
    ensures
        match identity_of(pid, *seen, opt_view(nonce_hash)) {
            Ok(identity) => r matches Ok(captured) && captured@ == identity,
            Err(message) => fails_with(r, message),
        },
{
    let stat = match &seen.stat {
        Err(error) => return Err(
            process_text("read process ", pid, " stat: ").concat(error.as_str()),
        ),
        Ok(stat) => stat,
    };
    let start_time_ticks: u64 = match process_start_time(pid, stat.as_str()) {
        Err(message) => return Err(message),
        Ok(ticks) => ticks,
    };
    let command = match &seen.command {
        Err(error) => return Err(
            process_text("read process ", pid, " cmdline: ").concat(error.as_str()),
        ),
        Ok(command) => command,
    };
    let boot_id = match &seen.boot_id {
        Err(error) => return Err("read boot id: ".to_owned().concat(error.as_str())),
        Ok(boot_id) => trim(boot_id.as_str()),
    };
    let executable = match &seen.executable {
        Err(error) => return Err(error.clone()),
        Ok(executable) => *executable,
    };
    let cwd = match &seen.cwd {
        Err(error) => return Err(error.clone()),
        Ok(cwd) => *cwd,
    };
    let data = match &seen.cgroup {
        Err(error) => return Err(
            process_text("read process ", pid, " cgroup: ").concat(error.as_str()),
        ),
        Ok(data) => data,
    };
    let cgroup = match process_cgroup(pid, data.as_str()) {
        Err(message) => return Err(message),
        Ok(cgroup) => cgroup,
    };
    Ok(
        ProcessIdentity {
            pid,
            boot_id,
            start_time_ticks,
            executable,
            command_sha256: sha256_hex(command.as_slice()),
            cwd,
            cgroup,
            launch_nonce_sha256: nonce_hash,
        },
    )
}

/// What was seen of a cgroup in which a process was found: its directory, if it
/// is still there.
pub open spec fn observed_containment(
    cgroup: Seq<char>,
    directory: Result<Option<FileIdentity>, String>,
) -> Result<ContainmentIdentityView, Seq<char>> {
    if !is_rooted(cgroup) {
        Err("observed cgroup is not absolute: "@ + cgroup)
    } else {
        match directory {
            Err(error) => Err(
                "capture observed cgroup identity "@ + crate::target::cgroup_path(cgroup) + ": "@
                    + error@,
            ),
            Ok(None) => Ok(ContainmentIdentityView { cgroup, device: None, inode: None }),
            Ok(Some(identity)) => Ok(
                ContainmentIdentityView {
                    cgroup,
                    device: Some(identity.device),
                    inode: Some(identity.inode),
                },
            ),
        }
    }
}

/// What was seen of a cgroup in which a process was found.
pub fn containment_identity(cgroup: &str, directory: &Result<Option<FileIdentity>, String>) -> (r:
    Result<ContainmentIdentity, String>)
    ensures
        match observed_containment(cgroup@, *directory) {
            Ok(identity) => r matches Ok(found) && found@ == identity,
            Err(message) => fails_with(r, message),
        },
{
    if !rooted(cgroup) {
        return Err("observed cgroup is not absolute: ".to_owned().concat(cgroup));
    }
    match directory {
        Err(error) => Err(
            "capture observed cgroup identity ".to_owned().concat(
                crate::target::cgroup_directory(cgroup).as_str(),
            ).concat(": ").concat(error.as_str()),
        ),
        Ok(None) => Ok(
            ContainmentIdentity { cgroup: cgroup.to_owned(), device: None, inode: None },
        ),
        Ok(Some(identity)) => Ok(
            ContainmentIdentity {
                cgroup: cgroup.to_owned(),
                device: Some(identity.device),
                inode: Some(identity.inode),
            },
        ),
    }
}

/// The start time and the parent of a process are the fields behind its command,
/// whatever parentheses and blanks the command holds.
pub proof fn law_fields_follow_the_command(
    pid: i32,
    head: Seq<char>,
    rest: Seq<char>,
    ticks: u64,
    parent: i32,
)
    requires
        !rest.contains(')'),
        words(rest).len() > 19,
        unsigned_value(words(rest)[19], u64::MAX as nat) == Some(ticks as nat),
        signed_value(words(rest)[1], i32::MIN as int, i32::MAX as int) == Some(parent as int),
    ensures
        start_time(pid, head.push(')') + rest) == Ok::<u64, Seq<char>>(ticks),
        parent_pid(pid, head.push(')') + rest) == Ok::<i32, Seq<char>>(parent),
{
    crate::text::law_rest_follows_the_last(head, rest, ')');
}

/// A stat without a command, or with too few fields, shows neither.
pub proof fn law_cut_stats_show_nothing(pid: i32, stat: Seq<char>)
    ensures
        stat_fields(stat) is None ==> start_time(pid, stat) is Err && parent_pid(pid, stat) is Err,
        stat_fields(stat) matches Some(fields) ==> (fields.len() <= 19 ==> start_time(pid, stat)
            is Err) && (fields.len() <= 1 ==> parent_pid(pid, stat) is Err),
{
}

/// A process's cgroup is what its one line of the unified hierarchy says; no
/// such line, or two, or a path that is not rooted, says nothing.
pub proof fn law_unified_line_names_the_cgroup(pid: i32, data: Seq<char>)
    ensures
        ({
            let values = unified_values(lines_of(data));
            &&& values.len() == 1 && is_rooted(values[0]) ==> unified_cgroup(pid, data) == Ok::<
                Seq<char>,
                Seq<char>,
            >(values[0])
            &&& values.len() != 1 || !is_rooted(values[0]) ==> unified_cgroup(pid, data) is Err
        }),
{
}

/// Every line that begins with the unified hierarchy's mark counts, with what
/// follows the mark; the others do not.
pub proof fn law_unified_lines_are_marked(
    lines: Seq<Seq<char>>,
    line: Seq<char>,
    value: Seq<char>,
)
    ensures
        unified_values(Seq::empty()).len() == 0,
        unified_values(lines.push("0::"@ + value)) == unified_values(lines).push(value),
        after_prefix(line, "0::"@) is None ==> unified_values(lines.push(line)) == unified_values(
            lines,
        ),
{
    crate::text::law_prefix_and_suffix_are_found("0::"@, value);
    assert(lines.push("0::"@ + value).drop_last() =~= lines);
    assert(lines.push(line).drop_last() =~= lines);
}

/// An entry of the environment is found from its cell: what is found stands
/// behind the wanted name in a cell of its own.
pub proof fn law_found_entry_stands_in_its_cell(data: Seq<u8>, prefix: Seq<u8>, from: int)
    requires
        0 <= from <= data.len(),
    ensures
        first_entry(data, prefix, from) matches Some(value) ==> exists|at: int|
            from <= at <= data.len() && (at == from || data[at - 1] == 0u8) && stands_at(
                data,
                prefix,
                at,
            ) && #[trigger] cell_end(data, at) == at + prefix.len() + value.len() && value
                == data.subrange(at + prefix.len(), cell_end(data, at)),
    decreases data.len() - from,
{
    lemma_cell_end(data, from);
    let end = cell_end(data, from);
    if from + prefix.len() <= end && stands_at(data, prefix, from) {
        assert(cell_end(data, from) == from + prefix.len() + (end - from - prefix.len()));
    } else if end < data.len() {
        lemma_cell_stops(data, from);
        law_found_entry_stands_in_its_cell(data, prefix, end + 1);
        if first_entry(data, prefix, end + 1) is Some {
            let value = first_entry(data, prefix, end + 1)->0;
            let at = choose|at: int|
                end + 1 <= at <= data.len() && (at == end + 1 || data[at - 1] == 0u8) && stands_at(
                    data,
                    prefix,
                    at,
                ) && #[trigger] cell_end(data, at) == at + prefix.len() + value.len() && value
                    == data.subrange(at + prefix.len(), cell_end(data, at));
            assert(cell_end(data, at) == at + prefix.len() + value.len());
        }
    }
}

proof fn lemma_cell_stops(data: Seq<u8>, from: int)
    requires
        0 <= from <= data.len(),
    ensures
        cell_end(data, from) < data.len() ==> data[cell_end(data, from)] == 0u8,
    decreases data.len() - from,
{
    if from < data.len() && data[from] != 0u8 {
        lemma_cell_stops(data, from + 1);
    }
}

/// A first cell with the wanted name is the one that is found.
pub proof fn law_first_cell_is_found(data: Seq<u8>, prefix: Seq<u8>)
    requires
        stands_at(data, prefix, 0),
        prefix.len() <= cell_end(data, 0),
    ensures
        first_entry(data, prefix, 0) == Some(
            data.subrange(prefix.len() as int, cell_end(data, 0)),
        ),
{
    lemma_cell_end(data, 0);
}

/// Every line that is not blank names a process, in its order.
pub proof fn law_every_listed_process_is_read(lines: Seq<Seq<char>>, from: int)
    requires
        0 <= from < lines.len(),
    ensures
        trimmed(lines[from]).len() == 0 ==> listed_pids(lines, from) == listed_pids(
            lines,
            from + 1,
        ),
        trimmed(lines[from]).len() > 0 && signed_value(
            trimmed(lines[from]),
            -2_147_483_648,
            2_147_483_647,
        ) is None ==> listed_pids(lines, from) is Err,
        trimmed(lines[from]).len() > 0 && signed_value(
            trimmed(lines[from]),
            -2_147_483_648,
            2_147_483_647,
        ) is Some && listed_pids(lines, from + 1) is Ok ==> listed_pids(lines, from) == Ok::<
            Seq<i32>,
            Seq<char>,
        >(
            seq![
                signed_value(trimmed(lines[from]), -2_147_483_648, 2_147_483_647)->0 as i32,
            ] + listed_pids(lines, from + 1)->Ok_0,
        ),
        listed_pids(lines, lines.len() as int) == Ok::<Seq<i32>, Seq<char>>(Seq::empty()),
{
}

/// A cgroup is empty of processes where its events say so in a line of two
/// words.
pub proof fn law_populated_line_is_read(line: Seq<char>)
    ensures
        words(line) == seq!["populated"@, "0"@] ==> says_unpopulated(line),
        says_unpopulated(line) ==> words(line).len() == 2 && words(line)[0] == "populated"@ && words(
            line,
        )[1] == "0"@,
{
}

/// The last line that names a property gives its value; other lines do not
/// matter.
pub proof fn law_properties_are_found_by_name(
    lines: Seq<Seq<char>>,
    line: Seq<char>,
    key: Seq<char>,
    value: Seq<char>,
)
    ensures
        property_value(Seq::empty(), key) is None,
        split_once_spec(line, "="@) == Some((key, value)) ==> property_value(lines.push(line), key)
            == Some(value),
        (split_once_spec(line, "="@) matches Some((name, _)) ==> name != key) ==> property_value(
            lines.push(line),
            key,
        ) == property_value(lines, key),
{
    assert(lines.push(line).drop_last() =~= lines);
}

/// A unit is absent where systemd says that it was not found, in its answer or
/// in its complaint; a successful answer of another kind says that it is there,
/// and any other complaint is an error.
pub proof fn law_absent_units_are_recognised(
    unit: Seq<char>,
    success: bool,
    stdout: Seq<char>,
    stderr: Seq<char>,
)
    ensures
        trimmed(stdout) == "not-found"@ ==> unit_absence(unit, success, stdout, stderr) == Ok::<
            bool,
            Seq<char>,
        >(true),
        trimmed(stdout) != "not-found"@ && success ==> unit_absence(unit, success, stdout, stderr)
            == Ok::<bool, Seq<char>>(false),
        trimmed(stdout) != "not-found"@ && !success && (occurs(stderr, "could not be found"@)
            || occurs(stderr, "not found"@)) ==> unit_absence(unit, success, stdout, stderr)
            == Ok::<bool, Seq<char>>(true),
        trimmed(stdout) != "not-found"@ && !success && !occurs(stderr, "could not be found"@)
            && !occurs(stderr, "not found"@) ==> unit_absence(unit, success, stdout, stderr)
            is Err,
{
}

/// An identity holds what was read of its process: its number, its boot, its
/// start, its program, the digest of its command line, its directory and its
/// cgroup, and the digest of its nonce.
pub proof fn law_identity_holds_what_was_read(
    pid: i32,
    stat: String,
    command: Vec<u8>,
    boot_id: String,
    executable: FileIdentity,
    cwd: FileIdentity,
    data: String,
    nonce: Option<Seq<char>>,
    ticks: u64,
    cgroup: Seq<char>,
)
    requires
        start_time(pid, stat@) == Ok::<u64, Seq<char>>(ticks),
        unified_cgroup(pid, data@) == Ok::<Seq<char>, Seq<char>>(cgroup),
    ensures
        ({
            let found = identity_of(
                pid,
                ProcessReadings {
                    stat: Ok(stat),
                    command: Ok(command),
                    boot_id: Ok(boot_id),
                    executable: Ok(executable),
                    cwd: Ok(cwd),
                    cgroup: Ok(data),
                },
                nonce,
            );
            &&& found is Ok
            &&& found->Ok_0.pid == pid
            &&& found->Ok_0.boot_id == trimmed(boot_id@)
            &&& found->Ok_0.start_time_ticks == ticks
            &&& found->Ok_0.executable == executable
            &&& found->Ok_0.command_sha256 == hex(sha256(command@))
            &&& found->Ok_0.cwd == cwd
            &&& found->Ok_0.cgroup == cgroup
            &&& found->Ok_0.launch_nonce_sha256 == nonce
        }),
{
}

/// What cannot be read of a process leaves it without an identity.
pub proof fn law_unread_process_has_no_identity(
    pid: i32,
    seen: ProcessReadings,
    nonce: Option<Seq<char>>,
)
    requires
        seen.stat is Err || seen.command is Err || seen.boot_id is Err || seen.executable is Err
            || seen.cwd is Err || seen.cgroup is Err,
    ensures
        identity_of(pid, seen, nonce) is Err,
{
}

/// An observed cgroup is recorded with the identity of its directory, where it
/// has one.
pub proof fn law_containment_is_observed_with_its_directory(
    cgroup: Seq<char>,
    identity: FileIdentity,
)
    ensures
        is_rooted(cgroup) ==> observed_containment(cgroup, Ok(Some(identity))) == Ok::<
            ContainmentIdentityView,
            Seq<char>,
        >(
            ContainmentIdentityView {
                cgroup,
                device: Some(identity.device),
                inode: Some(identity.inode),
            },
        ),
        is_rooted(cgroup) ==> observed_containment(cgroup, Ok(None)) == Ok::<
            ContainmentIdentityView,
            Seq<char>,
        >(ContainmentIdentityView { cgroup, device: None, inode: None }),
        !is_rooted(cgroup) ==> observed_containment(cgroup, Ok(Some(identity))) is Err,
{
}

/// A nonce is recorded as the digest of the bytes that it spells.
pub proof fn law_nonces_are_recorded_as_digests(nonce: Seq<u8>)
    ensures
        nonce_digest(hex(nonce)) == Ok::<Seq<char>, Seq<char>>(hex(sha256(nonce))),
{
    crate::digest::law_hex_round_trip(nonce);
}

/// A variable is what stands behind its name and the equals sign in its cell;
/// one that is not set is none, and one that is no text is an error.
pub proof fn law_variables_are_found_by_name(
    data: Seq<u8>,
    name: Seq<char>,
    complaint: Seq<char>,
    value: Seq<u8>,
)
    ensures
        first_entry(data, encode_utf8(name + "="@), 0) is None ==> environment_value(
            data,
            name,
            complaint,
        ) == Ok::<Option<Seq<char>>, Seq<char>>(None),
        first_entry(data, encode_utf8(name + "="@), 0) == Some(value)
            && vstd::utf8::valid_utf8(value) ==> environment_value(data, name, complaint) == Ok::<
            Option<Seq<char>>,
            Seq<char>,
        >(Some(vstd::utf8::decode_utf8(value))),
        first_entry(data, encode_utf8(name + "="@), 0) == Some(value)
            && !vstd::utf8::valid_utf8(value) ==> environment_value(data, name, complaint) is Err,
{
}

} // verus!
