//! One scan of the lifecycles or of a cleanup queue: what fails is kept and
//! reported, and the scan goes on with the next entry.
use vstd::prelude::*;

use crate::cleanup::{combine_errors, joined_messages};
use crate::host_cleanup::{
    admit_host_job, admit_runtime_job, host_job_due, host_job_errors, host_job_result, is_hidden,
    is_queue_entry, runtime_job_due,
};
use crate::record::{HostCleanupJob, RuntimeCleanupJob};
use crate::text::{fails_with, text_eq, views};

verus! {

/// The directory of the Host jobs in a queue.
pub const HOST_QUEUE_DIRECTORY: &'static str = "host-cgroup";

/// The directory of the runtime jobs in a queue.
pub const RUNTIME_QUEUE_DIRECTORY: &'static str = "runtime-resource";

/// The directory of the socket locks, among those of the lifecycles.
pub const SOCKET_LOCK_DIRECTORY: &'static str = "socket-locks";

/// What is scanned.
#[derive(Debug, Clone, Copy, PartialEq, Eq, Structural)]
pub enum ScanKind {
    Lifecycles,
    HostJobs,
    RuntimeJobs,
}

/// An entry of a directory.
pub struct Entry {
    pub name: String,
    pub path: String,
    pub is_file: bool,
    pub is_directory: bool,
}

/// A step of a scan.
#[derive(Debug, PartialEq, Eq)]
pub enum RootScanStage {
    /// The directory is opened.
    Opening,
    /// The next entry is read.
    Listing,
    /// The job of an entry is read.
    Reading { name: String, path: String },
    /// What the job's controller journal has changed is taken back.
    Reconciling { path: String },
    /// The lifecycle is scanned, or what the job names is cleaned up.
    Working { path: String },
    /// The job is removed from its queue.
    Acknowledging { path: String },
    Ended,
}

/// The contents of a [`RootScanStage`].
pub enum RootScanStageView {
    Opening,
    Listing,
    Reading { name: Seq<char>, path: Seq<char> },
    Reconciling { path: Seq<char> },
    Working { path: Seq<char> },
    Acknowledging { path: Seq<char> },
    Ended,
}

impl View for RootScanStage {
    type V = RootScanStageView;

    open spec fn view(&self) -> RootScanStageView {
        match self {
            RootScanStage::Opening => RootScanStageView::Opening,
            RootScanStage::Listing => RootScanStageView::Listing,
            RootScanStage::Reading { name, path } => RootScanStageView::Reading {
                name: name@,
                path: path@,
            },
            RootScanStage::Reconciling { path } => RootScanStageView::Reconciling { path: path@ },
            RootScanStage::Working { path } => RootScanStageView::Working { path: path@ },
            RootScanStage::Acknowledging { path } => RootScanStageView::Acknowledging {
                path: path@,
            },
            RootScanStage::Ended => RootScanStageView::Ended,
        }
    }
}

/// What comes to a scan.
pub enum RootScanEvent {
    /// The step succeeded or failed.
    Answered { result: Result<(), String> },
    /// The next entry, or why it cannot be read; there may be none.
    Listed { entry: Option<Result<Entry, String>> },
    HostJob { host_job: Result<HostCleanupJob, String> },
    RuntimeJob { runtime_job: Result<RuntimeCleanupJob, String> },
    /// What became of a Host job's socket and of its cgroup.
    Cleaned { socket: Result<(), String>, cgroup: Result<(), String> },
}

/// A scan of the lifecycles or of a cleanup queue.
pub struct RootScan {
    pub kind: ScanKind,
    pub directory: String,
    /// What failed so far.
    pub errors: Vec<String>,
    pub stage: RootScanStage,
}

/// The contents of a [`RootScan`].
#[verifier::ext_equal]
pub struct RootScanView {
    pub kind: ScanKind,
    pub directory: Seq<char>,
    pub errors: Seq<Seq<char>>,
    pub stage: RootScanStageView,
}

impl View for RootScan {
    type V = RootScanView;

    open spec fn view(&self) -> RootScanView {
        RootScanView {
            kind: self.kind,
            directory: self.directory@,
            errors: views(self.errors@),
            stage: self.stage@,
        }
    }
}

impl RootScanView {
    /// Only jobs are read and acknowledged, and only Host jobs have controllers.
    pub open spec fn wf(self) -> bool {
        match self.stage {
            RootScanStageView::Reading { .. } | RootScanStageView::Acknowledging { .. } => self.kind
                != ScanKind::Lifecycles,
            RootScanStageView::Reconciling { .. } => self.kind == ScanKind::HostJobs,
            _ => true,
        }
    }

    pub open spec fn staged(self, stage: RootScanStageView) -> Self {
        RootScanView { stage, ..self }
    }

    /// Notes an error and goes on with the next entry.
    pub open spec fn noted(self, message: Seq<char>) -> Self {
        RootScanView {
            errors: self.errors.push(message),
            stage: RootScanStageView::Listing,
            ..self
        }
    }
}

/// What is scanned, in a message.
pub open spec fn scanned(kind: ScanKind) -> Seq<char> {
    match kind {
        ScanKind::Lifecycles => "lifecycle root"@,
        ScanKind::HostJobs => "Host cleanup queue"@,
        ScanKind::RuntimeJobs => "RuntimeResource cleanup queue"@,
    }
}

/// An entry of what is scanned, in a message.
pub open spec fn entry_of(kind: ScanKind) -> Seq<char> {
    match kind {
        ScanKind::Lifecycles => "lifecycle entry"@,
        ScanKind::HostJobs => "Host cleanup queue entry"@,
        ScanKind::RuntimeJobs => "RuntimeResource cleanup queue entry"@,
    }
}

/// Whether an entry is a lifecycle or a job.
pub open spec fn counts(kind: ScanKind, entry: Entry) -> bool {
    match kind {
        ScanKind::Lifecycles => entry.is_directory && entry.name@ != SOCKET_LOCK_DIRECTORY@,
        _ => entry.is_file && !is_hidden(entry.name@),
    }
}

/// The scan after an entry that counts.
pub open spec fn entered(state: RootScanView, entry: Entry) -> RootScanView {
    match state.kind {
        ScanKind::Lifecycles => state.staged(RootScanStageView::Working { path: entry.path@ }),
        _ => state.staged(
            RootScanStageView::Reading { name: entry.name@, path: entry.path@ },
        ),
    }
}

/// The scan after the work on a lifecycle or on a runtime job.
pub open spec fn worked(state: RootScanView, path: Seq<char>, result: Result<(), String>) -> RootScanView {
    match (state.kind, result) {
        (ScanKind::Lifecycles, Ok(_)) => state.staged(RootScanStageView::Listing),
        (ScanKind::Lifecycles, Err(message)) => state.noted(message@),
        (ScanKind::RuntimeJobs, Ok(_)) => state.staged(RootScanStageView::Acknowledging { path }),
        (ScanKind::RuntimeJobs, Err(message)) => state.noted(
            "RuntimeResource queue cleanup: "@ + message@,
        ),
        _ => state,
    }
}

/// The scan after an answer.
pub open spec fn root_scan_next(state: RootScanView, event: RootScanEvent) -> RootScanView {
    match (state.stage, event) {
        (RootScanStageView::Opening, RootScanEvent::Answered { result }) => match result {
            Ok(_) => state.staged(RootScanStageView::Listing),
            Err(error) => RootScanView {
                stage: RootScanStageView::Ended,
                ..state.noted(
                    "scan "@ + scanned(state.kind) + " "@ + state.directory + ": "@ + error@,
                )
            },
        },
        (RootScanStageView::Listing, RootScanEvent::Listed { entry }) => match entry {
            None => state.staged(RootScanStageView::Ended),
            Some(Err(error)) => state.noted("read "@ + entry_of(state.kind) + ": "@ + error@),
            Some(Ok(entry)) => if counts(state.kind, entry) {
                entered(state, entry)
            } else {
                state
            },
        },
        (
            RootScanStageView::Reading { name, path },
            RootScanEvent::HostJob { host_job },
        ) => if state.kind == ScanKind::HostJobs {
            match host_job {
                Err(message) => state.noted(message@),
                Ok(job) => match host_job_due(job@, name, path) {
                    Err(message) => state.noted(message),
                    Ok(false) => state.staged(RootScanStageView::Listing),
                    Ok(true) => state.staged(RootScanStageView::Reconciling { path }),
                },
            }
        } else {
            state
        },
        (
            RootScanStageView::Reading { name, path },
            RootScanEvent::RuntimeJob { runtime_job },
        ) => if state.kind == ScanKind::RuntimeJobs {
            match runtime_job {
                Err(message) => state.noted(message@),
                Ok(job) => match runtime_job_due(job@, name, path) {
                    Err(message) => state.noted(message),
                    Ok(false) => state.staged(RootScanStageView::Listing),
                    Ok(true) => state.staged(RootScanStageView::Working { path }),
                },
            }
        } else {
            state
        },
        (RootScanStageView::Reconciling { path }, RootScanEvent::Answered { result }) => {
            match result {
                Ok(_) => state.staged(RootScanStageView::Working { path }),
                Err(message) => state.noted("Host queue controller cleanup: "@ + message@),
            }
        },
        (RootScanStageView::Working { path }, RootScanEvent::Answered { result }) => worked(
            state,
            path,
            result,
        ),
        (
            RootScanStageView::Working { path },
            RootScanEvent::Cleaned { socket, cgroup },
        ) => if state.kind != ScanKind::HostJobs {
            state
        } else if socket is Ok && cgroup is Ok {
            state.staged(RootScanStageView::Acknowledging { path })
        } else {
            state.noted(joined_messages(host_job_errors(socket, cgroup)))
        },
        (RootScanStageView::Acknowledging { .. }, RootScanEvent::Answered { result }) => {
            match result {
                Ok(_) => state.staged(RootScanStageView::Listing),
                Err(message) => state.noted(message@),
            }
        },
        _ => state,
    }
}

fn scanned_text(kind: ScanKind) -> (text: &'static str)
    ensures
        text@ == scanned(kind),
{
    match kind {
        ScanKind::Lifecycles => "lifecycle root",
        ScanKind::HostJobs => "Host cleanup queue",
        ScanKind::RuntimeJobs => "RuntimeResource cleanup queue",
    }
}

fn entry_text(kind: ScanKind) -> (text: &'static str)
    ensures
        text@ == entry_of(kind),
{
    match kind {
        ScanKind::Lifecycles => "lifecycle entry",
        ScanKind::HostJobs => "Host cleanup queue entry",
        ScanKind::RuntimeJobs => "RuntimeResource cleanup queue entry",
    }
}

impl RootScan {
    /// Begins a scan of a directory.
    pub fn begin(kind: ScanKind, directory: &str) -> (scan: Self)
        ensures
            scan@.wf(),
            scan@ == (RootScanView {
                kind,
                directory: directory@,
                errors: Seq::empty(),
                stage: RootScanStageView::Opening,
            }),
    {
        let scan = RootScan {
            kind,
            directory: directory.to_owned(),
            errors: Vec::new(),
            stage: RootScanStage::Opening,
        };
        assert(scan@.errors =~= Seq::<Seq<char>>::empty());
        scan
    }

    fn staged(self, stage: RootScanStage) -> (next: Self)
        ensures
            next@ == self@.staged(stage@),
    {
        RootScan { kind: self.kind, directory: self.directory, errors: self.errors, stage }
    }

    fn noted(self, message: String) -> (next: Self)
        ensures
            next@ == self@.noted(message@),
    {
        let ghost before = views(self.errors@);
        let mut errors = self.errors;
        errors.push(message);
        assert(views(errors@) =~= before.push(message@));
        RootScan {
            kind: self.kind,
            directory: self.directory,
            errors,
            stage: RootScanStage::Listing,
        }
    }

    fn listed(self, entry: Option<Result<Entry, String>>) -> (next: Self)
        requires
            self@.stage is Listing,
        ensures
            next@ == root_scan_next(self@, RootScanEvent::Listed { entry }),
    {
        let kind = self.kind;
        match entry {
            None => self.staged(RootScanStage::Ended),
            Some(Err(error)) => {
                let message = "read ".to_owned().concat(entry_text(kind)).concat(": ").concat(
                    error.as_str(),
                );
                self.noted(message)
            },
            Some(Ok(entry)) => match kind {
                ScanKind::Lifecycles => if entry.is_directory && !text_eq(
                    entry.name.as_str(),
                    SOCKET_LOCK_DIRECTORY,
                ) {
                    self.staged(RootScanStage::Working { path: entry.path })
                } else {
                    self
                },
                _ => if is_queue_entry(entry.name.as_str(), entry.is_file) {
                    self.staged(RootScanStage::Reading { name: entry.name, path: entry.path })
                } else {
                    self
                },
            },
        }
    }

    fn admitted(self, due: Result<bool, String>, next: RootScanStage) -> (scan: Self)
        ensures
            scan@ == match due {
                Err(message) => self@.noted(message@),
                Ok(false) => self@.staged(RootScanStageView::Listing),
                Ok(true) => self@.staged(next@),
            },
    {
        match due {
            Err(message) => self.noted(message),
            Ok(false) => self.staged(RootScanStage::Listing),
            Ok(true) => self.staged(next),
        }
    }

    fn worked(self, path: String, result: Result<(), String>) -> (next: Self)
        ensures
            next@ == worked(self@, path@, result),
    {
        match (self.kind, result) {
            (ScanKind::Lifecycles, Ok(_)) => self.staged(RootScanStage::Listing),
            (ScanKind::Lifecycles, Err(message)) => self.noted(message),
            (ScanKind::RuntimeJobs, Ok(_)) => self.staged(RootScanStage::Acknowledging { path }),
            (ScanKind::RuntimeJobs, Err(message)) => self.noted(
                "RuntimeResource queue cleanup: ".to_owned().concat(message.as_str()),
            ),
            _ => self,
        }
    }

    /// The scan after an answer.
    pub fn step(self, event: RootScanEvent) -> (next: Self)
        ensures
            self@.wf() ==> next@.wf(),
            next@ == root_scan_next(self@, event),
    {
        let kind = self.kind;
        match event {
            RootScanEvent::Listed { entry } => match self.stage {
                RootScanStage::Listing => self.listed(entry),
                _ => self,
            },
            RootScanEvent::HostJob { host_job } => match &self.stage {
                RootScanStage::Reading { name, path } => if kind == ScanKind::HostJobs {
                    let due = match &host_job {
                        Err(message) => Err(message.clone()),
                        Ok(job) => admit_host_job(job, name.as_str(), path.as_str()),
                    };
                    let next = RootScanStage::Reconciling { path: path.clone() };
                    self.admitted(due, next)
                } else {
                    self
                },
                _ => self,
            },
            RootScanEvent::RuntimeJob { runtime_job } => match &self.stage {
                RootScanStage::Reading { name, path } => if kind == ScanKind::RuntimeJobs {
                    let due = match &runtime_job {
                        Err(message) => Err(message.clone()),
                        Ok(job) => admit_runtime_job(job, name.as_str(), path.as_str()),
                    };
                    let next = RootScanStage::Working { path: path.clone() };
                    self.admitted(due, next)
                } else {
                    self
                },
                _ => self,
            },
            RootScanEvent::Cleaned { socket, cgroup } => match &self.stage {
                RootScanStage::Working { path } => if kind == ScanKind::HostJobs {
                    let next = RootScanStage::Acknowledging { path: path.clone() };
                    match host_job_result(&socket, &cgroup) {
                        Ok(()) => self.staged(next),
                        Err(message) => self.noted(message),
                    }
                } else {
                    self
                },
                _ => self,
            },
            RootScanEvent::Answered { result } => match &self.stage {
                RootScanStage::Opening => match result {
                    Ok(_) => self.staged(RootScanStage::Listing),
                    Err(error) => {
                        let message = "scan ".to_owned().concat(scanned_text(kind)).concat(
                            " ",
                        ).concat(self.directory.as_str()).concat(": ").concat(error.as_str());
                        self.noted(message).staged(RootScanStage::Ended)
                    },
                },
                RootScanStage::Reconciling { path } => match result {
                    Ok(_) => {
                        let next = RootScanStage::Working { path: path.clone() };
                        self.staged(next)
                    },
                    Err(message) => self.noted(
                        "Host queue controller cleanup: ".to_owned().concat(message.as_str()),
                    ),
                },
                RootScanStage::Working { path } => {
                    let path = path.clone();
                    self.worked(path, result)
                },
                RootScanStage::Acknowledging { .. } => match result {
                    Ok(_) => self.staged(RootScanStage::Listing),
                    Err(message) => self.noted(message),
                },
                _ => self,
            },
        }
    }

    /// The result of a scan that ended: it failed where anything did.
    pub fn result(&self) -> (r: Result<(), String>)
        ensures
            if self@.errors.len() == 0 {
                r is Ok
            } else {
                fails_with(r, joined_messages(self@.errors))
            },
    {
        combine_errors(&self.errors)
    }
}

/// A lifecycle or a job that fails does not end the scan of the others: a scan
/// ends where it cannot be opened or has no further entry.
pub proof fn law_a_failure_does_not_end_the_scan(state: RootScanView, event: RootScanEvent)
    requires
        !(state.stage is Ended),
        root_scan_next(state, event).stage is Ended,
    ensures
        match state.stage {
            RootScanStageView::Opening => event matches RootScanEvent::Answered { result: Err(_) },
            RootScanStageView::Listing => event matches RootScanEvent::Listed { entry: None },
            _ => false,
        },
{
}

/// What failed stays noted until the scan ends.
pub proof fn law_errors_stay_noted(state: RootScanView, event: RootScanEvent)
    ensures
        state.errors.is_prefix_of(root_scan_next(state, event).errors),
        root_scan_next(state, event).errors.len() <= state.errors.len() + 1,
{
}

/// A job leaves its queue only after the work on that job succeeded.
pub proof fn law_a_job_is_acknowledged_after_its_cleanup(
    state: RootScanView,
    event: RootScanEvent,
    path: Seq<char>,
)
    requires
        root_scan_next(state, event).stage == (RootScanStageView::Acknowledging { path }),
        !(state.stage is Acknowledging),
    ensures
        state.stage == (RootScanStageView::Working { path }),
        match state.kind {
            ScanKind::Lifecycles => false,
            ScanKind::HostJobs => event matches RootScanEvent::Cleaned { socket, cgroup } && socket
                is Ok && cgroup is Ok,
            ScanKind::RuntimeJobs => event matches RootScanEvent::Answered { result: Ok(_) },
        },
{
}

/// Work begins only on a job that is ready and what its name says, and a Host
/// job's controllers are restored before anything else of it is touched.
pub proof fn law_only_ready_jobs_are_cleaned_up(state: RootScanView, event: RootScanEvent)
    requires
        state.wf(),
        state.kind != ScanKind::Lifecycles,
    ensures
        root_scan_next(state, event).stage is Reconciling && !(state.stage is Reconciling) ==> (
        state.stage matches RootScanStageView::Reading { name, path } && event
            matches RootScanEvent::HostJob { host_job: Ok(job) } && host_job_due(job@, name, path)
            == Ok::<bool, Seq<char>>(true)),
        root_scan_next(state, event).stage is Working && !(state.stage is Working) ==> match state.kind {
            ScanKind::HostJobs => state.stage is Reconciling && (event
                matches RootScanEvent::Answered { result: Ok(_) }),
            _ => state.stage matches RootScanStageView::Reading { name, path } && event
                matches RootScanEvent::RuntimeJob { runtime_job: Ok(job) } && runtime_job_due(
                job@,
                name,
                path,
            ) == Ok::<bool, Seq<char>>(true),
        },
{
}

/// A job of the Host's queue that was read, released and cleaned up is
/// acknowledged, and the scan goes on with the entry after it.
pub proof fn law_released_host_job_is_worked_off(
    state: RootScanView,
    entry: Entry,
    job: HostCleanupJob,
)
    requires
        state.kind == ScanKind::HostJobs,
        state.stage is Listing,
        entry.is_file,
        !is_hidden(entry.name@),
        host_job_due(job@, entry.name@, entry.path@) == Ok::<bool, Seq<char>>(true),
    ensures
        ({
            let read = root_scan_next(state, RootScanEvent::Listed { entry: Some(Ok(entry)) });
            let due = root_scan_next(read, RootScanEvent::HostJob { host_job: Ok(job) });
            let restored = root_scan_next(due, RootScanEvent::Answered { result: Ok(()) });
            let cleaned = root_scan_next(
                restored,
                RootScanEvent::Cleaned { socket: Ok(()), cgroup: Ok(()) },
            );
            let gone = root_scan_next(cleaned, RootScanEvent::Answered { result: Ok(()) });
            &&& read.stage == (RootScanStageView::Reading { name: entry.name@, path: entry.path@ })
            &&& due.stage == (RootScanStageView::Reconciling { path: entry.path@ })
            &&& restored.stage == (RootScanStageView::Working { path: entry.path@ })
            &&& cleaned.stage == (RootScanStageView::Acknowledging { path: entry.path@ })
            &&& gone == state
        }),
{
}

/// A runtime job that was read, released and cleaned up is acknowledged.
pub proof fn law_released_runtime_job_is_worked_off(
    state: RootScanView,
    entry: Entry,
    job: RuntimeCleanupJob,
)
    requires
        state.kind == ScanKind::RuntimeJobs,
        state.stage is Listing,
        entry.is_file,
        !is_hidden(entry.name@),
        runtime_job_due(job@, entry.name@, entry.path@) == Ok::<bool, Seq<char>>(true),
    ensures
        ({
            let read = root_scan_next(state, RootScanEvent::Listed { entry: Some(Ok(entry)) });
            let due = root_scan_next(read, RootScanEvent::RuntimeJob { runtime_job: Ok(job) });
            let cleaned = root_scan_next(due, RootScanEvent::Answered { result: Ok(()) });
            let gone = root_scan_next(cleaned, RootScanEvent::Answered { result: Ok(()) });
            &&& read.stage == (RootScanStageView::Reading { name: entry.name@, path: entry.path@ })
            &&& due.stage == (RootScanStageView::Working { path: entry.path@ })
            &&& cleaned.stage == (RootScanStageView::Acknowledging { path: entry.path@ })
            &&& gone == state
        }),
{
}

/// Each directory below the root of the lifecycles is scanned, but for the one
/// of the socket locks; the scan of one that fails is noted and the next one
/// follows.
pub proof fn law_every_lifecycle_is_scanned(state: RootScanView, entry: Entry, message: String)
    requires
        state.kind == ScanKind::Lifecycles,
        state.stage is Listing,
    ensures
        ({
            let at = root_scan_next(state, RootScanEvent::Listed { entry: Some(Ok(entry)) });
            let scanned = entry.is_directory && entry.name@ != SOCKET_LOCK_DIRECTORY@;
            &&& scanned ==> at == (RootScanView {
                stage: RootScanStageView::Working { path: entry.path@ },
                ..state
            })
            &&& !scanned ==> at == state
            &&& scanned ==> root_scan_next(at, RootScanEvent::Answered { result: Ok(()) }) == state
            &&& scanned ==> root_scan_next(at, RootScanEvent::Answered { result: Err(message) })
                == (RootScanView { errors: state.errors.push(message@), ..state })
        }),
{
}

/// What is no job is passed over: a directory, a hidden file, and a job that was
/// not released.
pub proof fn law_unreleased_jobs_are_passed_over(
    state: RootScanView,
    entry: Entry,
    name: Seq<char>,
    path: Seq<char>,
    job: HostCleanupJob,
)
    ensures
        state.kind != ScanKind::Lifecycles && state.stage is Listing && (!entry.is_file
            || is_hidden(entry.name@)) ==> root_scan_next(
            state,
            RootScanEvent::Listed { entry: Some(Ok(entry)) },
        ) == state,
        state.kind == ScanKind::HostJobs && state.stage == (RootScanStageView::Reading {
            name,
            path,
        }) && host_job_due(job@, name, path) == Ok::<bool, Seq<char>>(false) ==> root_scan_next(
            state,
            RootScanEvent::HostJob { host_job: Ok(job) },
        ) == (RootScanView { stage: RootScanStageView::Listing, ..state }),
{
}

/// A failed cleanup of a job is noted with both of its failures, and the job
/// stays in its queue.
pub proof fn law_failed_jobs_stay(
    state: RootScanView,
    path: Seq<char>,
    socket: Result<(), String>,
    cgroup: Result<(), String>,
    message: String,
)
    ensures
        state.kind == ScanKind::HostJobs && state.stage == (RootScanStageView::Working { path })
            && (socket is Err || cgroup is Err) ==> root_scan_next(
            state,
            RootScanEvent::Cleaned { socket, cgroup },
        ) == (RootScanView {
            stage: RootScanStageView::Listing,
            errors: state.errors.push(joined_messages(host_job_errors(socket, cgroup))),
            ..state
        }),
        state.kind == ScanKind::RuntimeJobs && state.stage == (RootScanStageView::Working { path })
            ==> root_scan_next(state, RootScanEvent::Answered { result: Err(message) }) == (
        RootScanView {
            stage: RootScanStageView::Listing,
            errors: state.errors.push("RuntimeResource queue cleanup: "@ + message@),
            ..state
        }),
        state.stage == (RootScanStageView::Reconciling { path }) ==> root_scan_next(
            state,
            RootScanEvent::Answered { result: Err(message) },
        ) == (RootScanView {
            stage: RootScanStageView::Listing,
            errors: state.errors.push("Host queue controller cleanup: "@ + message@),
            ..state
        }),
{
}

/// A scan ends with the last entry, or at once where its directory cannot be
/// opened, which is noted with the directory's name.
pub proof fn law_scans_end(state: RootScanView, error: String)
    ensures
        state.stage is Listing ==> root_scan_next(state, RootScanEvent::Listed { entry: None }) == (
        RootScanView { stage: RootScanStageView::Ended, ..state }),
        state.stage is Opening ==> root_scan_next(
            state,
            RootScanEvent::Answered { result: Ok(()) },
        ) == (RootScanView { stage: RootScanStageView::Listing, ..state }),
        state.stage is Opening && state.kind == ScanKind::Lifecycles ==> root_scan_next(
            state,
            RootScanEvent::Answered { result: Err(error) },
        ) == (RootScanView {
            stage: RootScanStageView::Ended,
            errors: state.errors.push(
                "scan "@ + "lifecycle root"@ + " "@ + state.directory + ": "@ + error@,
            ),
            ..state
        }),
        state.stage is Opening && state.kind == ScanKind::HostJobs ==> root_scan_next(
            state,
            RootScanEvent::Answered { result: Err(error) },
        ) == (RootScanView {
            stage: RootScanStageView::Ended,
            errors: state.errors.push(
                "scan "@ + "Host cleanup queue"@ + " "@ + state.directory + ": "@ + error@,
            ),
            ..state
        }),
        state.stage is Opening && state.kind == ScanKind::RuntimeJobs ==> root_scan_next(
            state,
            RootScanEvent::Answered { result: Err(error) },
        ) == (RootScanView {
            stage: RootScanStageView::Ended,
            errors: state.errors.push(
                "scan "@ + "RuntimeResource cleanup queue"@ + " "@ + state.directory + ": "@
                    + error@,
            ),
            ..state
        }),
{
}

} // verus!
