//! How records become durable: a record is replaced in one step, and a directory
//! counts only once it and those that hold it are on disk.
use vstd::prelude::*;

use crate::host_cleanup::is_leftover;
use crate::paths::{file_name, join, joined, last_name, parent_path, parent_spec};
use crate::prepare::{fresh_uuid, is_random_uuid};
use crate::target::passes_unless;
use crate::text::{after_prefix, decimal, decimal_text, fails_with, occurs_at, views};

verus! {

/// A step of the replacement of a record.
#[derive(Debug, PartialEq, Eq)]
pub enum WriteStage {
    /// The temporary file is created.
    Creating,
    /// The contents are written to the temporary file.
    Writing,
    /// The temporary file is synced.
    Syncing,
    /// The temporary file takes the place of the record.
    Renaming,
    /// The directory of the record is synced.
    SyncingParent,
    /// The temporary file is removed, because of an error.
    Discarding { message: String },
    Written,
    Failed { message: String },
}

/// The contents of a [`WriteStage`].
pub enum WriteStageView {
    Creating,
    Writing,
    Syncing,
    Renaming,
    SyncingParent,
    Discarding { message: Seq<char> },
    Written,
    Failed { message: Seq<char> },
}

impl View for WriteStage {
    type V = WriteStageView;

    open spec fn view(&self) -> WriteStageView {
        match self {
            WriteStage::Creating => WriteStageView::Creating,
            WriteStage::Writing => WriteStageView::Writing,
            WriteStage::Syncing => WriteStageView::Syncing,
            WriteStage::Renaming => WriteStageView::Renaming,
            WriteStage::SyncingParent => WriteStageView::SyncingParent,
            WriteStage::Discarding { message } => WriteStageView::Discarding { message: message@ },
            WriteStage::Written => WriteStageView::Written,
            WriteStage::Failed { message } => WriteStageView::Failed { message: message@ },
        }
    }
}

/// The replacement of a record.
pub struct RecordWrite {
    pub path: String,
    /// The directory of the record.
    pub parent: String,
    /// The file that takes the record's place.
    pub temporary: String,
    pub stage: WriteStage,
}

/// The contents of a [`RecordWrite`].
pub struct RecordWriteView {
    pub path: Seq<char>,
    pub parent: Seq<char>,
    pub temporary: Seq<char>,
    pub stage: WriteStageView,
}

impl View for RecordWrite {
    type V = RecordWriteView;

    open spec fn view(&self) -> RecordWriteView {
        RecordWriteView {
            path: self.path@,
            parent: self.parent@,
            temporary: self.temporary@,
            stage: self.stage@,
        }
    }
}

/// The name of the temporary file beside a record.
pub open spec fn temporary_name(path: Seq<char>, pid: u32, unique: Seq<char>) -> Seq<char> {
    let name = match last_name(path) {
        Some(name) => name,
        None => "record"@,
    };
    "."@ + name + ".tmp-"@ + decimal(pid as nat) + "-"@ + unique
}

/// How the replacement of a record begins, if it does: the record needs a
/// directory.
pub open spec fn write_begun(path: Seq<char>, pid: u32, unique: Seq<char>) -> Result<
    RecordWriteView,
    Seq<char>,
> {
    match parent_spec(path) {
        None => Err("record has no parent: "@ + path),
        Some(parent) => Ok(
            RecordWriteView {
                path,
                parent,
                temporary: joined(parent, temporary_name(path, pid, unique)),
                stage: WriteStageView::Creating,
            },
        ),
    }
}

/// The step after an answer.
pub open spec fn write_next(state: RecordWriteView, answer: Result<(), String>) -> WriteStageView {
    match (state.stage, answer) {
        (WriteStageView::Creating, Ok(_)) => WriteStageView::Writing,
        (WriteStageView::Creating, Err(error)) => WriteStageView::Failed {
            message: "create temporary record "@ + state.temporary + ": "@ + error@,
        },
        (WriteStageView::Writing, Ok(_)) => WriteStageView::Syncing,
        (WriteStageView::Syncing, Ok(_)) => WriteStageView::Renaming,
        (WriteStageView::Writing | WriteStageView::Syncing, Err(error)) => {
            WriteStageView::Discarding {
                message: "persist record "@ + state.temporary + ": "@ + error@,
            }
        },
        (WriteStageView::Renaming, Ok(_)) => WriteStageView::SyncingParent,
        (WriteStageView::Renaming, Err(error)) => WriteStageView::Discarding {
            message: "commit record "@ + state.path + ": "@ + error@,
        },
        (WriteStageView::SyncingParent, Ok(_)) => WriteStageView::Written,
        (WriteStageView::SyncingParent, Err(error)) => WriteStageView::Failed {
            message: "sync directory "@ + state.parent + ": "@ + error@,
        },
        (WriteStageView::Discarding { message }, _) => WriteStageView::Failed { message },
        (stage, _) => stage,
    }
}

fn about(what: &str, path: &str, error: &str) -> (message: String)
    ensures
        message@ == what@ + path@ + ": "@ + error@,
{
    what.to_owned().concat(path).concat(": ").concat(error)
}

impl RecordWrite {
    /// Begins to replace the record at `path`. The temporary file is named after
    /// the record, the process and `unique`.
    pub fn begin_with(path: &str, pid: u32, unique: &str) -> (r: Result<Self, String>)
        ensures
            match write_begun(path@, pid, unique@) {
                Err(message) => fails_with(r, message),
                Ok(state) => r matches Ok(write) && write@ == state,
            },
    {
        let parent = match parent_path(path) {
            Some(parent) => parent,
            None => return Err("record has no parent: ".to_owned().concat(path)),
        };
        let name = match file_name(path) {
            Some(name) => name,
            None => "record".to_owned(),
        };
        let hidden = ".".to_owned().concat(name.as_str()).concat(".tmp-").concat(
            decimal_text(pid as u128).as_str(),
        ).concat("-").concat(unique);
        let temporary = join(parent.as_str(), hidden.as_str());
        Ok(RecordWrite { path: path.to_owned(), parent, temporary, stage: WriteStage::Creating })
    }

    /// Begins to replace the record at `path`, with a temporary file of its own.
    pub fn begin(path: &str, pid: u32) -> (r: Result<Self, String>)
        ensures
            exists|unique: Seq<char>| #[trigger]
                is_random_uuid(unique) && match write_begun(path@, pid, unique) {
                    Err(message) => fails_with(r, message),
                    Ok(state) => r matches Ok(write) && write@ == state,
                },
    {
        let unique = fresh_uuid();
        Self::begin_with(path, pid, unique.as_str())
    }

    /// The replacement after the step that was due succeeded or failed.
    pub fn step(self, answer: Result<(), String>) -> (next: Self)
        ensures
            next@ == (RecordWriteView { stage: write_next(self@, answer), ..self@ }),
    {
        let RecordWrite { path, parent, temporary, stage } = self;
        let stage = match (stage, answer) {
            (WriteStage::Creating, Ok(_)) => WriteStage::Writing,
            (WriteStage::Creating, Err(error)) => WriteStage::Failed {
                message: about(
                    "create temporary record ",
                    temporary.as_str(),
                    error.as_str(),
                ),
            },
            (WriteStage::Writing, Ok(_)) => WriteStage::Syncing,
            (WriteStage::Syncing, Ok(_)) => WriteStage::Renaming,
            (WriteStage::Writing | WriteStage::Syncing, Err(error)) => WriteStage::Discarding {
                message: about("persist record ", temporary.as_str(), error.as_str()),
            },
            (WriteStage::Renaming, Ok(_)) => WriteStage::SyncingParent,
            (WriteStage::Renaming, Err(error)) => WriteStage::Discarding {
                message: about("commit record ", path.as_str(), error.as_str()),
            },
            (WriteStage::SyncingParent, Ok(_)) => WriteStage::Written,
            (WriteStage::SyncingParent, Err(error)) => WriteStage::Failed {
                message: about("sync directory ", parent.as_str(), error.as_str()),
            },
            (WriteStage::Discarding { message }, _) => WriteStage::Failed { message },
            (stage, _) => stage,
        };
        RecordWrite { path, parent, temporary, stage }
    }
}

/// Whether a write stands, once it ended: where it reported an error although
/// exactly this value is read back, it stands as soon as the directory is
/// synced. The result says whether that is still to be done.
pub open spec fn write_settled(written: Result<(), String>, readback: Result<bool, String>) -> Result<
    bool,
    Seq<char>,
> {
    match (written, readback) {
        (Ok(_), _) => Ok(false),
        (Err(_), Err(message)) => Err(message@),
        (Err(_), Ok(true)) => Ok(true),
        (Err(message), Ok(false)) => Err(message@),
    }
}

/// Whether a write stands, and if the directory is still to be synced.
/// `readback` tells whether exactly the value that was to be written is there;
/// it matters only after an error.
pub fn settle_write(written: &Result<(), String>, readback: &Result<bool, String>) -> (r: Result<
    bool,
    String,
>)
    ensures
        match write_settled(*written, *readback) {
            Err(message) => fails_with(r, message),
            Ok(unsynced) => r == Ok::<bool, String>(unsynced),
        },
{
    match (written, readback) {
        (Ok(_), _) => Ok(false),
        (Err(_), Err(message)) => Err(message.clone()),
        (Err(_), Ok(true)) => Ok(true),
        (Err(message), Ok(false)) => Err(message.clone()),
    }
}

/// What became of a file that was to be removed.
pub enum Removal {
    Removed,
    /// There was none.
    Absent,
    Failed { error: String },
}

/// Whether a job is gone from its queue, so that the queue is to be synced: a
/// job that was gone before counts as well.
pub fn acknowledge_removal(path: &str, removal: &Removal) -> (r: Result<(), String>)
    ensures
        passes_unless(
            r,
            match removal {
                Removal::Failed { error } => Some(
                    "acknowledge cleanup queue "@ + path@ + ": "@ + error@,
                ),
                _ => None,
            },
        ),
{
    match removal {
        Removal::Failed { error } => Err(
            about("acknowledge cleanup queue ", path, error.as_str()),
        ),
        _ => Ok(()),
    }
}

/// What a record and its temporary file hold, where they exist.
pub struct Disk {
    pub record: Option<Seq<u8>>,
    pub temporary: Option<Seq<u8>>,
}

/// What a step of the replacement may do to the files: a step that fails, and
/// one that is cut off, may have written a part.
pub open spec fn may_leave(
    stage: WriteStageView,
    done: bool,
    data: Seq<u8>,
    before: Disk,
    after: Disk,
) -> bool {
    match stage {
        WriteStageView::Creating => {
            &&& after.record == before.record
            &&& done ==> after.temporary == Some(Seq::<u8>::empty())
        },
        WriteStageView::Writing => {
            &&& after.record == before.record
            &&& done ==> after.temporary == Some(data)
        },
        WriteStageView::Renaming => if done {
            after.record == before.temporary && after.temporary is None
        } else {
            after == before
        },
        WriteStageView::Discarding { .. } => after.record == before.record,
        _ => after == before,
    }
}

/// What the files hold at a step of the replacement of `old` by `data`.
pub open spec fn holds_at(
    stage: WriteStageView,
    disk: Disk,
    old_record: Option<Seq<u8>>,
    data: Seq<u8>,
) -> bool {
    match stage {
        WriteStageView::Creating | WriteStageView::Writing | WriteStageView::Discarding { .. } => {
            disk.record == old_record
        },
        WriteStageView::Syncing | WriteStageView::Renaming => disk.record == old_record
            && disk.temporary == Some(data),
        WriteStageView::SyncingParent | WriteStageView::Written => disk.record == Some(data),
        WriteStageView::Failed { .. } => disk.record == old_record || disk.record == Some(data),
    }
}

/// Whatever a step of the replacement does and reports, the files hold
/// afterwards what belongs to the next step.
pub proof fn law_a_write_follows_the_disk(
    state: RecordWriteView,
    answer: Result<(), String>,
    old_record: Option<Seq<u8>>,
    data: Seq<u8>,
    before: Disk,
    after: Disk,
)
    requires
        holds_at(state.stage, before, old_record, data),
        may_leave(state.stage, answer is Ok, data, before, after),
    ensures
        holds_at(write_next(state, answer), after, old_record, data),
{
}

/// A record is never seen in part: at every step, and wherever the process is
/// cut off, it holds all of the old contents or all of the new ones.
pub proof fn law_a_record_is_old_or_new(
    state: RecordWriteView,
    cut_off: bool,
    old_record: Option<Seq<u8>>,
    data: Seq<u8>,
    before: Disk,
    after: Disk,
)
    requires
        holds_at(state.stage, before, old_record, data),
        may_leave(state.stage, !cut_off, data, before, after),
    ensures
        before.record == old_record || before.record == Some(data),
        after.record == old_record || after.record == Some(data),
{
}

/// A write that is reported as done left the new contents.
pub proof fn law_written_means_new(
    state: RecordWriteView,
    disk: Disk,
    old_record: Option<Seq<u8>>,
    data: Seq<u8>,
)
    requires
        holds_at(state.stage, disk, old_record, data),
        state.stage is Written,
    ensures
        disk.record == Some(data),
{
}

/// A write that fails left the old contents, unless it failed when the
/// directory was synced: only then does the new record stand with an error.
pub proof fn law_failure_before_the_rename_keeps_the_old_record(
    state: RecordWriteView,
    answer: Result<(), String>,
    old_record: Option<Seq<u8>>,
    data: Seq<u8>,
    before: Disk,
    after: Disk,
)
    requires
        holds_at(state.stage, before, old_record, data),
        may_leave(state.stage, answer is Ok, data, before, after),
        !(state.stage is Failed),
        write_next(state, answer) is Failed,
    ensures
        state.stage is SyncingParent ==> after.record == Some(data),
        !(state.stage is SyncingParent) ==> after.record == old_record,
{
}

/// The temporary file of a write that was cut off is removed with what else is
/// left of an interrupted preparation.
pub proof fn law_temporary_files_are_removable(path: Seq<char>, pid: u32, unique: Seq<char>)
    ensures
        is_leftover(temporary_name(path, pid, unique), true),
{
    let name = match last_name(path) {
        Some(name) => name,
        None => "record"@,
    };
    let all = temporary_name(path, pid, unique);
    let front = "."@ + name;
    assert(all.subrange(0, "."@.len() as int) =~= "."@);
    assert(after_prefix(all, "."@) is Some);
    assert(all.subrange(front.len() as int, (front.len() + ".tmp-"@.len()) as int) =~= ".tmp-"@);
    assert(occurs_at(all, ".tmp-"@, front.len() as int));
}

/// How many answers the replacement of a record still takes at most.
pub open spec fn writes_left(stage: WriteStageView) -> nat {
    match stage {
        WriteStageView::Creating => 6,
        WriteStageView::Writing => 5,
        WriteStageView::Syncing => 4,
        WriteStageView::Renaming => 3,
        WriteStageView::SyncingParent => 1,
        WriteStageView::Discarding { .. } => 1,
        _ => 0,
    }
}

/// Every answer brings the replacement of a record nearer to its end.
pub proof fn law_a_write_ends(state: RecordWriteView, answer: Result<(), String>)
    requires
        writes_left(state.stage) > 0,
    ensures
        writes_left(write_next(state, answer)) < writes_left(state.stage),
{
}

/// What is found at the path of a directory.
pub enum Found {
    Directory,
    /// Something that is no directory.
    Other,
    Missing { error: String },
    Unknown { error: String },
}

/// What became of a directory that was to be created.
pub enum Creation {
    Created,
    /// Another process was faster.
    Exists,
    Failed { error: String },
}

/// A step towards a durable directory.
#[derive(Debug, PartialEq, Eq)]
pub enum DirectoryStage {
    /// What is at the path?
    Looking,
    /// The directory is created.
    Creating,
    /// What is at the path, where another process was faster?
    LookingAgain,
    /// The directory that holds it is synced.
    SyncingParent,
    /// The directory is synced.
    Syncing,
    Ready,
    Failed { message: String },
}

/// The contents of a [`DirectoryStage`].
pub enum DirectoryStageView {
    Looking,
    Creating,
    LookingAgain,
    SyncingParent,
    Syncing,
    Ready,
    Failed { message: Seq<char> },
}

impl View for DirectoryStage {
    type V = DirectoryStageView;

    open spec fn view(&self) -> DirectoryStageView {
        match self {
            DirectoryStage::Looking => DirectoryStageView::Looking,
            DirectoryStage::Creating => DirectoryStageView::Creating,
            DirectoryStage::LookingAgain => DirectoryStageView::LookingAgain,
            DirectoryStage::SyncingParent => DirectoryStageView::SyncingParent,
            DirectoryStage::Syncing => DirectoryStageView::Syncing,
            DirectoryStage::Ready => DirectoryStageView::Ready,
            DirectoryStage::Failed { message } => DirectoryStageView::Failed { message: message@ },
        }
    }
}

/// What comes to the making of a directory.
pub enum DirectoryEvent {
    Looked { found: Found },
    Made { creation: Creation },
    Synced { result: Result<(), String> },
}

/// The making of a directory, with those that hold it.
pub struct DirectoryWork {
    /// The directory that is wanted, the one that holds it, and so on, as far
    /// as they were looked at.
    pub chain: Vec<String>,
    /// Which of them is worked on.
    pub at: usize,
    pub stage: DirectoryStage,
}

/// The contents of a [`DirectoryWork`].
#[verifier::ext_equal]
pub struct DirectoryWorkView {
    pub chain: Seq<Seq<char>>,
    pub at: int,
    pub stage: DirectoryStageView,
}

impl View for DirectoryWork {
    type V = DirectoryWorkView;

    open spec fn view(&self) -> DirectoryWorkView {
        DirectoryWorkView { chain: views(self.chain@), at: self.at as int, stage: self.stage@ }
    }
}

impl DirectoryWorkView {
    /// Every directory of the chain is held by the next one. The climb looks at
    /// the last of them, and the others are created on the way back.
    pub open spec fn wf(self) -> bool {
        &&& 0 <= self.at < self.chain.len()
        &&& forall|i: int|
            0 <= i < self.chain.len() - 1 ==> parent_spec(#[trigger] self.chain[i]) == Some(
                self.chain[i + 1],
            )
        &&& self.stage is Looking ==> self.at == self.chain.len() - 1
        &&& (self.stage is Creating || self.stage is LookingAgain || self.stage is SyncingParent)
            ==> self.at < self.chain.len() - 1
    }

    /// The directory that is worked on.
    pub open spec fn path(self) -> Seq<char> {
        self.chain[self.at]
    }

    /// The directory that a step syncs, if it does.
    pub open spec fn syncs(self) -> Option<Seq<char>> {
        match self.stage {
            DirectoryStageView::SyncingParent => Some(self.chain[self.at + 1]),
            DirectoryStageView::Syncing => Some(self.chain[self.at]),
            _ => None,
        }
    }

    pub open spec fn staged(self, stage: DirectoryStageView) -> Self {
        DirectoryWorkView { stage, ..self }
    }

    pub open spec fn failed(self, message: Seq<char>) -> Self {
        self.staged(DirectoryStageView::Failed { message })
    }
}

/// The making of a directory after an answer.
pub open spec fn directory_next(state: DirectoryWorkView, event: DirectoryEvent) -> DirectoryWorkView {
    match (state.stage, event) {
        (DirectoryStageView::Looking, DirectoryEvent::Looked { found }) => match found {
            Found::Directory => state.staged(DirectoryStageView::Syncing),
            Found::Other => state.failed("path is not a directory: "@ + state.path()),
            Found::Unknown { error } => state.failed(
                "stat directory "@ + state.path() + ": "@ + error@,
            ),
            Found::Missing { .. } => match parent_spec(state.path()) {
                None => state.failed("directory has no parent: "@ + state.path()),
                Some(parent) => DirectoryWorkView {
                    chain: state.chain.push(parent),
                    at: state.at + 1,
                    ..state
                },
            },
        },
        (DirectoryStageView::Creating, DirectoryEvent::Made { creation }) => match creation {
            Creation::Created => state.staged(DirectoryStageView::SyncingParent),
            Creation::Exists => state.staged(DirectoryStageView::LookingAgain),
            Creation::Failed { error } => state.failed(
                "create directory "@ + state.path() + ": "@ + error@,
            ),
        },
        (DirectoryStageView::LookingAgain, DirectoryEvent::Looked { found }) => match found {
            Found::Directory => state.staged(DirectoryStageView::SyncingParent),
            Found::Other => state.failed("path is not a directory: "@ + state.path()),
            Found::Missing { error } | Found::Unknown { error } => state.failed(
                "stat raced directory "@ + state.path() + ": "@ + error@,
            ),
        },
        (DirectoryStageView::SyncingParent, DirectoryEvent::Synced { result }) => match result {
            Ok(_) => state.staged(DirectoryStageView::Syncing),
            Err(error) => state.failed(
                "sync directory "@ + state.chain[state.at + 1] + ": "@ + error@,
            ),
        },
        (DirectoryStageView::Syncing, DirectoryEvent::Synced { result }) => match result {
            Ok(_) => if state.at == 0 {
                state.staged(DirectoryStageView::Ready)
            } else {
                DirectoryWorkView {
                    at: state.at - 1,
                    stage: DirectoryStageView::Creating,
                    ..state
                }
            },
            Err(error) => state.failed("sync directory "@ + state.path() + ": "@ + error@),
        },
        _ => state,
    }
}

fn not_a_directory(path: &str) -> (message: String)
    ensures
        message@ == "path is not a directory: "@ + path@,
{
    "path is not a directory: ".to_owned().concat(path)
}

impl DirectoryWork {
    /// Begins to make a directory durable.
    pub fn begin(path: &str) -> (work: Self)
        ensures
            work@.wf(),
            work@ == (DirectoryWorkView {
                chain: seq![path@],
                at: 0,
                stage: DirectoryStageView::Looking,
            }),
    {
        let mut chain: Vec<String> = Vec::new();
        chain.push(path.to_owned());
        let work = DirectoryWork { chain, at: 0, stage: DirectoryStage::Looking };
        assert(work@.chain =~= seq![path@]);
        work
    }

    /// The directory that is worked on.
    pub fn path(&self) -> (path: &str)
        requires
            self@.wf(),
        ensures
            path@ == self@.path(),
    {
        self.chain[self.at].as_str()
    }

    /// The directory that the step that is due syncs, if it does.
    pub fn syncs(&self) -> (r: Option<&str>)
        requires
            self@.wf(),
        ensures
            match self@.syncs() {
                None => r is None,
                Some(path) => r matches Some(found) && found@ == path,
            },
    {
        let count: usize = self.chain.len();
        match self.stage {
            DirectoryStage::SyncingParent => Some(self.chain[self.at + 1].as_str()),
            DirectoryStage::Syncing => Some(self.chain[self.at].as_str()),
            _ => None,
        }
    }

    /// The making of the directory after an answer.
    pub fn step(self, event: DirectoryEvent) -> (next: Self)
        requires
            self@.wf(),
        ensures
            next@.wf(),
            next@ == directory_next(self@, event),
    {
        let ghost before = self@;
        let DirectoryWork { chain, at, stage } = self;
        let mut chain = chain;
        let mut now: usize = at;
        let ghost all = chain@;
        let count: usize = chain.len();
        let stage = match (stage, event) {
            (DirectoryStage::Looking, DirectoryEvent::Looked { found }) => match found {
                Found::Directory => DirectoryStage::Syncing,
                Found::Other => DirectoryStage::Failed {
                    message: not_a_directory(chain[at].as_str()),
                },
                Found::Unknown { error } => DirectoryStage::Failed {
                    message: about("stat directory ", chain[at].as_str(), error.as_str()),
                },
                Found::Missing { .. } => match parent_path(chain[at].as_str()) {
                    None => DirectoryStage::Failed {
                        message: "directory has no parent: ".to_owned().concat(chain[at].as_str()),
                    },
                    Some(parent) => {
                        chain.push(parent);
                        now = count;
                        assert(views(chain@) =~= views(all).push(parent@));
                        DirectoryStage::Looking
                    },
                },
            },
            (DirectoryStage::Creating, DirectoryEvent::Made { creation }) => match creation {
                Creation::Created => DirectoryStage::SyncingParent,
                Creation::Exists => DirectoryStage::LookingAgain,
                Creation::Failed { error } => DirectoryStage::Failed {
                    message: about("create directory ", chain[at].as_str(), error.as_str()),
                },
            },
            (DirectoryStage::LookingAgain, DirectoryEvent::Looked { found }) => match found {
                Found::Directory => DirectoryStage::SyncingParent,
                Found::Other => DirectoryStage::Failed {
                    message: not_a_directory(chain[at].as_str()),
                },
                Found::Missing { error } | Found::Unknown { error } => DirectoryStage::Failed {
                    message: about("stat raced directory ", chain[at].as_str(), error.as_str()),
                },
            },
            (DirectoryStage::SyncingParent, DirectoryEvent::Synced { result }) => match result {
                Ok(_) => DirectoryStage::Syncing,
                Err(error) => DirectoryStage::Failed {
                    message: about("sync directory ", chain[at + 1].as_str(), error.as_str()),
                },
            },
            (DirectoryStage::Syncing, DirectoryEvent::Synced { result }) => match result {
                Ok(_) => if at == 0 {
                    DirectoryStage::Ready
                } else {
                    now = at - 1;
                    DirectoryStage::Creating
                },
                Err(error) => DirectoryStage::Failed {
                    message: about("sync directory ", chain[at].as_str(), error.as_str()),
                },
            },
            (stage, _) => stage,
        };
        let next = DirectoryWork { chain, at: now, stage };
        assert(next@ =~= directory_next(before, event));
        next
    }
}

/// What has been synced after an answer.
pub open spec fn synced_after(
    state: DirectoryWorkView,
    event: DirectoryEvent,
    synced: Set<Seq<char>>,
) -> Set<Seq<char>> {
    match (state.syncs(), event) {
        (Some(path), DirectoryEvent::Synced { result: Ok(_) }) => synced.insert(path),
        _ => synced,
    }
}

/// Whether all directories of the chain from here on were synced.
pub open spec fn synced_from(state: DirectoryWorkView, from: int, synced: Set<Seq<char>>) -> bool {
    forall|i: int| from <= i < state.chain.len() ==> synced.contains(#[trigger] state.chain[i])
}

/// Whether everything was synced that has to be at this step.
pub open spec fn durable_so_far(state: DirectoryWorkView, synced: Set<Seq<char>>) -> bool {
    match state.stage {
        DirectoryStageView::Looking | DirectoryStageView::Failed { .. } => true,
        DirectoryStageView::Ready => synced_from(state, 0, synced),
        _ => synced_from(state, state.at + 1, synced),
    }
}

/// A directory is created only in one that was synced, and it counts as ready
/// only once it and all that were created or found above it were synced.
pub proof fn law_a_ready_directory_is_durable(
    state: DirectoryWorkView,
    event: DirectoryEvent,
    synced: Set<Seq<char>>,
)
    requires
        state.wf(),
        durable_so_far(state, synced),
    ensures
        durable_so_far(directory_next(state, event), synced_after(state, event, synced)),
        directory_next(state, event).stage is Ready ==> synced_after(
            state,
            event,
            synced,
        ).contains(state.chain[0]),
{
}

/// The directory that was asked for stays the first of the chain.
pub proof fn law_the_wanted_directory_is_made(state: DirectoryWorkView, event: DirectoryEvent)
    requires
        state.wf(),
    ensures
        directory_next(state, event).wf(),
        directory_next(state, event).chain[0] == state.chain[0],
{
}

/// A directory that another process creates at the same time is accepted: the
/// making goes on as if this process had created it.
pub proof fn law_concurrent_creators_agree(state: DirectoryWorkView)
    requires
        state.wf(),
        state.stage is Creating,
    ensures
        directory_next(
            directory_next(state, DirectoryEvent::Made { creation: Creation::Exists }),
            DirectoryEvent::Looked { found: Found::Directory },
        ) == directory_next(state, DirectoryEvent::Made { creation: Creation::Created }),
{
}

/// A write goes through a file of its own beside the record, which is synced
/// before it takes the record's place, and ends once the directory is synced.
pub proof fn law_undisturbed_write_is_written(state: RecordWriteView)
    requires
        state.stage is Creating,
    ensures
        ({
            let at = |stage: WriteStageView| RecordWriteView { stage, ..state };
            let a = write_next(state, Ok(()));
            let b = write_next(at(a), Ok(()));
            let c = write_next(at(b), Ok(()));
            let d = write_next(at(c), Ok(()));
            let e = write_next(at(d), Ok(()));
            &&& a == WriteStageView::Writing
            &&& b == WriteStageView::Syncing
            &&& c == WriteStageView::Renaming
            &&& d == WriteStageView::SyncingParent
            &&& e == WriteStageView::Written
        }),
{
}

/// A write that fails says what failed; where its file was made and did not
/// become the record it is discarded first, whatever comes of that.
pub proof fn law_failed_write_is_told(
    state: RecordWriteView,
    error: String,
    answer: Result<(), String>,
    message: Seq<char>,
)
    ensures
        ({
            let next = write_next(state, Err(error));
            &&& state.stage is Creating ==> next == (WriteStageView::Failed {
                message: "create temporary record "@ + state.temporary + ": "@ + error@,
            })
            &&& state.stage is Writing || state.stage is Syncing ==> next == (
            WriteStageView::Discarding {
                message: "persist record "@ + state.temporary + ": "@ + error@,
            })
            &&& state.stage is Renaming ==> next == (WriteStageView::Discarding {
                message: "commit record "@ + state.path + ": "@ + error@,
            })
            &&& state.stage is SyncingParent ==> next == (WriteStageView::Failed {
                message: "sync directory "@ + state.parent + ": "@ + error@,
            })
            &&& state.stage is Written || state.stage is Failed ==> next == state.stage
        }),
        state.stage == (WriteStageView::Discarding { message }) ==> write_next(state, answer) == (
        WriteStageView::Failed { message }),
{
}

/// A write begins beside its record: its temporary file is a hidden one in the
/// record's directory, with the process and a unique part in its name.
pub proof fn law_writes_begin_beside_the_record(
    path: Seq<char>,
    pid: u32,
    unique: Seq<char>,
    parent: Seq<char>,
    name: Seq<char>,
)
    requires
        parent_spec(path) == Some(parent),
        last_name(path) == Some(name),
    ensures
        write_begun(path, pid, unique) == Ok::<RecordWriteView, Seq<char>>(
            RecordWriteView {
                path,
                parent,
                temporary: joined(
                    parent,
                    "."@ + name + ".tmp-"@ + decimal(pid as nat) + "-"@ + unique,
                ),
                stage: WriteStageView::Creating,
            },
        ),
{
}

/// A failed write counts as done where the record reads back as it was written,
/// and is then to be synced; where it does not, the write's failure is told.
pub proof fn law_failed_writes_are_read_back(written: String, message: String, same: bool)
    ensures
        write_settled(Ok(()), Ok(same)) == Ok::<bool, Seq<char>>(false),
        write_settled(Err(written), Ok(true)) == Ok::<bool, Seq<char>>(true),
        write_settled(Err(written), Ok(false)) == Err::<bool, Seq<char>>(written@),
        write_settled(Err(written), Err(message)) == Err::<bool, Seq<char>>(message@),
{
}

/// A directory that is there is synced and ready; one that is missing is made
/// inside its parent, which is looked for first.
pub proof fn law_directories_are_made_from_above(
    state: DirectoryWorkView,
    error: String,
    parent: Seq<char>,
)
    ensures
        state.stage is Looking ==> directory_next(
            state,
            DirectoryEvent::Looked { found: Found::Directory },
        ) == (DirectoryWorkView { stage: DirectoryStageView::Syncing, ..state }),
        state.stage is Looking && parent_spec(state.path()) == Some(parent) ==> directory_next(
            state,
            DirectoryEvent::Looked { found: Found::Missing { error } },
        ) == (DirectoryWorkView {
            chain: state.chain.push(parent),
            at: state.at + 1,
            stage: DirectoryStageView::Looking,
        }),
        state.stage is Syncing && state.at == 0 ==> directory_next(
            state,
            DirectoryEvent::Synced { result: Ok(()) },
        ) == (DirectoryWorkView { stage: DirectoryStageView::Ready, ..state }),
        state.stage is Syncing && state.at > 0 ==> directory_next(
            state,
            DirectoryEvent::Synced { result: Ok(()) },
        ) == (DirectoryWorkView {
            at: state.at - 1,
            stage: DirectoryStageView::Creating,
            ..state
        }),
        state.stage is Creating ==> directory_next(
            state,
            DirectoryEvent::Made { creation: Creation::Created },
        ) == (DirectoryWorkView { stage: DirectoryStageView::SyncingParent, ..state }),
        state.stage is SyncingParent ==> directory_next(
            state,
            DirectoryEvent::Synced { result: Ok(()) },
        ) == (DirectoryWorkView { stage: DirectoryStageView::Syncing, ..state }),
{
}

/// What is no directory, cannot be looked at, made or synced ends the work with
/// the path that it was about; ended work stays as it ended.
pub proof fn law_unusable_paths_are_told(
    state: DirectoryWorkView,
    error: String,
    event: DirectoryEvent,
)
    ensures
        state.stage is Looking || state.stage is LookingAgain ==> directory_next(
            state,
            DirectoryEvent::Looked { found: Found::Other },
        ).stage == (DirectoryStageView::Failed {
            message: "path is not a directory: "@ + state.path(),
        }),
        state.stage is Looking ==> directory_next(
            state,
            DirectoryEvent::Looked { found: Found::Unknown { error } },
        ).stage == (DirectoryStageView::Failed {
            message: "stat directory "@ + state.path() + ": "@ + error@,
        }),
        state.stage is Creating ==> directory_next(
            state,
            DirectoryEvent::Made { creation: Creation::Failed { error } },
        ).stage == (DirectoryStageView::Failed {
            message: "create directory "@ + state.path() + ": "@ + error@,
        }),
        state.stage is Syncing ==> directory_next(
            state,
            DirectoryEvent::Synced { result: Err(error) },
        ).stage == (DirectoryStageView::Failed {
            message: "sync directory "@ + state.path() + ": "@ + error@,
        }),
        state.stage is Ready || state.stage is Failed ==> directory_next(state, event) == state,
{
}

} // verus!
