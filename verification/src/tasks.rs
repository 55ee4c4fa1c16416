//! The tasks of a sandbox: what a task is created in, and how a stop and a
//! shutdown wait for the creations that run.
use vstd::prelude::*;

use crate::rpc::{rpc, rpc_error, Code, RpcError, RpcErrorView};
use crate::sandbox::{
    phase_name, phase_text, unmanaged, LifecycleState, LifecycleStateView, Phase,
};
use crate::text::{fails_with, text_eq, views};

verus! {

/// What a task is created in.
#[derive(Debug, PartialEq, Eq)]
pub enum TaskMode {
    /// A sandbox of the task's own.
    Legacy,
    /// A sandbox that its service has made ready.
    ManagedReady { shared_root: String },
}

/// The contents of a [`TaskMode`].
pub enum TaskModeView {
    Legacy,
    ManagedReady { shared_root: Seq<char> },
}

impl View for TaskMode {
    type V = TaskModeView;

    open spec fn view(&self) -> TaskModeView {
        match self {
            TaskMode::Legacy => TaskModeView::Legacy,
            TaskMode::ManagedReady { shared_root } => TaskModeView::ManagedReady {
                shared_root: shared_root@,
            },
        }
    }
}

/// What a task is created in that needs a sandbox which is ready; `shared_root`
/// is the directory of its lease.
pub open spec fn ready_mode(state: LifecycleStateView, shared_root: Result<String, String>) -> Result<
    TaskModeView,
    Seq<char>,
> {
    if state.runtime is None {
        Err("ready sandbox has no RuntimeResource lease"@)
    } else {
        match shared_root {
            Ok(path) => Ok(TaskModeView::ManagedReady { shared_root: path@ }),
            Err(error) => Err(error@),
        }
    }
}

/// What a task of a managed sandbox is created in.
pub open spec fn managed_mode(state: LifecycleStateView, shared_root: Result<String, String>) -> Result<
    TaskModeView,
    Seq<char>,
> {
    if state.phase != Phase::Ready {
        Err("managed Sandbox is not ready (phase "@ + phase_text(state.phase) + ")"@)
    } else {
        ready_mode(state, shared_root)
    }
}

/// What a task is created in.
pub open spec fn mode_of(state: LifecycleStateView, shared_root: Result<String, String>) -> Result<
    TaskModeView,
    Seq<char>,
> {
    match state.phase {
        Phase::Unmanaged => Ok(TaskModeView::Legacy),
        Phase::Ready => ready_mode(state, shared_root),
        phase => Err(
            "sandbox is managed by Sandbox Service but is not ready (phase "@ + phase_text(phase)
                + ")"@,
        ),
    }
}

/// The result is this one.
pub open spec fn gives_mode(r: Result<TaskMode, String>, mode: Result<TaskModeView, Seq<char>>) -> bool {
    match mode {
        Ok(mode) => r matches Ok(m) && m@ == mode,
        Err(message) => fails_with(r, message),
    }
}

fn ready_task_mode(state: &LifecycleState, shared_root: Result<String, String>) -> (r: Result<
    TaskMode,
    String,
>)
    ensures
        gives_mode(r, ready_mode(state@, shared_root)),
{
    if state.runtime.is_none() {
        return Err("ready sandbox has no RuntimeResource lease".to_owned());
    }
    match shared_root {
        Ok(shared_root) => Ok(TaskMode::ManagedReady { shared_root }),
        Err(error) => Err(error),
    }
}

/// A sandbox and the creations of tasks that run in it, each task once.
#[derive(Debug, PartialEq, Eq)]
pub struct SandboxLifecycle {
    pub state: LifecycleState,
    pub task_creates: Vec<String>,
}

/// The contents of a [`SandboxLifecycle`].
pub struct SandboxLifecycleView {
    pub state: LifecycleStateView,
    pub task_creates: Set<Seq<char>>,
}

impl View for SandboxLifecycle {
    type V = SandboxLifecycleView;

    open spec fn view(&self) -> SandboxLifecycleView {
        SandboxLifecycleView { state: self.state@, task_creates: views(self.task_creates@).to_set() }
    }
}

/// The place granted to a task that is created.
#[derive(Debug, PartialEq, Eq)]
pub struct TaskCreateReservation {
    pub task_id: String,
    pub mode: TaskMode,
}

/// How a shutdown goes on.
#[derive(Clone, Copy, Debug, PartialEq, Eq, Structural)]
pub enum ShutdownAction {
    AlreadyComplete,
    WaitForExisting,
    Run { force_abort: bool },
}

/// How a shutdown begins: `None` means that it waits.
pub open spec fn shutdown_admission(state: SandboxLifecycleView) -> (
    SandboxLifecycleView,
    Option<ShutdownAction>,
) {
    let gone = SandboxLifecycleView {
        state: LifecycleStateView { phase: Phase::ShuttingDown, ..state.state },
        ..state
    };
    if !state.task_creates.is_empty() {
        (state, None)
    } else {
        match state.state.phase {
            Phase::Creating | Phase::Starting | Phase::Stopping => (state, None),
            Phase::Shutdown => (state, Some(ShutdownAction::AlreadyComplete)),
            Phase::ShuttingDown => (state, Some(ShutdownAction::WaitForExisting)),
            Phase::Stopped | Phase::ReleasePending => (
                gone,
                Some(ShutdownAction::Run { force_abort: false }),
            ),
            _ => (gone, Some(ShutdownAction::Run { force_abort: true })),
        }
    }
}

/// How a stop begins.
#[derive(Debug, PartialEq, Eq)]
pub enum StopAdmission {
    /// Something else has to end first.
    Wait,
    /// The stop is run.
    Run { previous: Phase },
    /// A stop runs already.
    Join,
    /// The sandbox is stopped already.
    Stopped,
    Refuse { error: RpcError },
}

/// The contents of a [`StopAdmission`].
pub enum StopAdmissionView {
    Wait,
    Run { previous: Phase },
    Join,
    Stopped,
    Refuse { error: RpcErrorView },
}

impl View for StopAdmission {
    type V = StopAdmissionView;

    open spec fn view(&self) -> StopAdmissionView {
        match self {
            StopAdmission::Wait => StopAdmissionView::Wait,
            StopAdmission::Run { previous } => StopAdmissionView::Run { previous: *previous },
            StopAdmission::Join => StopAdmissionView::Join,
            StopAdmission::Stopped => StopAdmissionView::Stopped,
            StopAdmission::Refuse { error } => StopAdmissionView::Refuse { error: error@ },
        }
    }
}

/// How a stop begins.
pub open spec fn stop_admission(state: SandboxLifecycleView) -> (
    SandboxLifecycleView,
    StopAdmissionView,
) {
    if !state.task_creates.is_empty() {
        (state, StopAdmissionView::Wait)
    } else {
        match state.state.phase {
            Phase::Creating | Phase::Starting => (state, StopAdmissionView::Wait),
            Phase::Created | Phase::Ready | Phase::Failed | Phase::ReleasePending => (
                SandboxLifecycleView {
                    state: LifecycleStateView { phase: Phase::Stopping, ..state.state },
                    ..state
                },
                StopAdmissionView::Run { previous: state.state.phase },
            ),
            Phase::Stopping => (state, StopAdmissionView::Join),
            Phase::Stopped | Phase::Shutdown => (state, StopAdmissionView::Stopped),
            phase => (
                state,
                StopAdmissionView::Refuse {
                    error: rpc(
                        Code::FailedPrecondition,
                        "sandbox cannot stop from phase "@ + phase_text(phase),
                    ),
                },
            ),
        }
    }
}

impl Default for SandboxLifecycle {
    fn default() -> (lifecycle: Self)
        ensures
            lifecycle.wf(),
            lifecycle@.state == unmanaged(),
            lifecycle@.task_creates.is_empty(),
    {
        let lifecycle = SandboxLifecycle {
            state: LifecycleState::default(),
            task_creates: Vec::new(),
        };
        assert(views(lifecycle.task_creates@).to_set() =~= Set::<Seq<char>>::empty());
        lifecycle
    }
}

impl SandboxLifecycle {
    /// No task occurs twice.
    pub open spec fn wf(self) -> bool {
        views(self.task_creates@).no_duplicates()
    }

    /// What a task of a managed sandbox is created in.
    pub fn managed_task_mode(&self, shared_root: Result<String, String>) -> (r: Result<
        TaskMode,
        String,
    >)
        ensures
            gives_mode(r, managed_mode(self@.state, shared_root)),
    {
        if self.state.phase != Phase::Ready {
            return Err(
                "managed Sandbox is not ready (phase ".to_owned().concat(
                    phase_name(self.state.phase),
                ).concat(")"),
            );
        }
        ready_task_mode(&self.state, shared_root)
    }

    /// What a task is created in.
    pub fn task_mode(&self, shared_root: Result<String, String>) -> (r: Result<TaskMode, String>)
        ensures
            gives_mode(r, mode_of(self@.state, shared_root)),
    {
        match self.state.phase {
            Phase::Unmanaged => Ok(TaskMode::Legacy),
            Phase::Ready => ready_task_mode(&self.state, shared_root),
            phase => Err(
                "sandbox is managed by Sandbox Service but is not ready (phase ".to_owned().concat(
                    phase_name(phase),
                ).concat(")"),
            ),
        }
    }

    /// Whether the sandbox belongs to its service.
    pub fn is_managed(&self) -> (r: bool)
        ensures
            r == (self@.state.phase != Phase::Unmanaged),
    {
        self.state.phase != Phase::Unmanaged
    }

    /// Whether a task is being created.
    pub fn has_task_creates(&self) -> (r: bool)
        ensures
            r == !self@.task_creates.is_empty(),
    {
        let r = self.task_creates.len() > 0;
        proof {
            let all = views(self.task_creates@);
            if r {
                assert(all.to_set().contains(all[0]));
            } else {
                assert(all.to_set() =~= Set::<Seq<char>>::empty());
            }
        }
        r
    }

    fn position(&self, task_id: &str) -> (r: Option<usize>)
        ensures
            match r {
                Some(at) => at < self.task_creates@.len() && self.task_creates@[at as int]@
                    == task_id@,
                None => !self@.task_creates.contains(task_id@),
            },
    {
        let mut i: usize = 0;
        while i < self.task_creates.len()
            invariant
                i <= self.task_creates@.len(),
                forall|k: int| 0 <= k < i ==> (#[trigger] self.task_creates@[k])@ != task_id@,
            decreases self.task_creates.len() - i,
        {
            if text_eq(self.task_creates[i].as_str(), task_id) {
                return Some(i);
            }
            i = i + 1;
        }
        proof {
            let all = views(self.task_creates@);
            assert forall|k: int| 0 <= k < all.len() implies all[k] != task_id@ by {
                assert(all[k] == self.task_creates@[k]@);
            }
        }
        None
    }

    /// Grants a task that is created its place: not twice at a time.
    pub fn reserve_task_create(&mut self, task_id: &str, shared_root: Result<String, String>) -> (r:
        Result<TaskCreateReservation, String>)
        requires
            old(self).wf(),
        ensures
            final(self).wf(),
            match mode_of(old(self)@.state, shared_root) {
                Err(message) => fails_with(r, message) && *final(self) == *old(self),
                Ok(mode) => if old(self)@.task_creates.contains(task_id@) {
                    fails_with(r, "task "@ + task_id@ + " Create is already in progress"@)
                        && *final(self) == *old(self)
                } else {
                    &&& r matches Ok(reservation) && reservation.task_id@ == task_id@
                        && reservation.mode@ == mode
                    &&& final(self)@ == (SandboxLifecycleView {
                        task_creates: old(self)@.task_creates.insert(task_id@),
                        ..old(self)@
                    })
                },
            },
    {
        let mode = match self.task_mode(shared_root) {
            Err(message) => return Err(message),
            Ok(mode) => mode,
        };
        let ghost before = views(self.task_creates@);
        if let Some(at) = self.position(task_id) {
            proof {
                assert(before[at as int] == task_id@);
                assert(before.to_set().contains(task_id@));
            }
            return Err(
                "task ".to_owned().concat(task_id).concat(" Create is already in progress"),
            );
        }
        self.task_creates.push(task_id.to_owned());
        proof {
            let after = views(self.task_creates@);
            assert(after =~= before.push(task_id@));
            assert(!before.contains(task_id@)) by {
                assert(!before.to_set().contains(task_id@));
            }
            assert(after.to_set() =~= before.to_set().insert(task_id@)) by {
                assert forall|x: Seq<char>| after.to_set().contains(x) implies before.to_set().insert(
                    task_id@,
                ).contains(x) by {
                    let k = choose|k: int| 0 <= k < after.len() && after[k] == x;
                    if k < before.len() {
                        assert(before[k] == x);
                    }
                }
                assert forall|x: Seq<char>| before.to_set().insert(task_id@).contains(x) implies after.to_set().contains(
                    x,
                ) by {
                    if x == task_id@ {
                        assert(after[before.len() as int] == x);
                    } else {
                        let k = choose|k: int| 0 <= k < before.len() && before[k] == x;
                        assert(after[k] == x);
                    }
                }
            }
        }
        Ok(TaskCreateReservation { task_id: task_id.to_owned(), mode })
    }

    /// Takes the place of a task back: its creation has ended.
    pub fn release_task_create(&mut self, reservation: &TaskCreateReservation)
        requires
            old(self).wf(),
        ensures
            final(self).wf(),
            final(self)@ == (SandboxLifecycleView {
                task_creates: old(self)@.task_creates.remove(reservation.task_id@),
                ..old(self)@
            }),
    {
        let ghost before = views(self.task_creates@);
        let ghost id = reservation.task_id@;
        match self.position(reservation.task_id.as_str()) {
            Some(at) => {
                self.task_creates.remove(at);
                proof {
                    let after = views(self.task_creates@);
                    let k = at as int;
                    assert(before[k] == id);
                    assert(after =~= before.remove(k));
                    assert forall|i: int, j: int|
                        0 <= i < after.len() && 0 <= j < after.len() && i != j implies after[i]
                        != after[j] by {
                        let a = if i < k {
                            i
                        } else {
                            i + 1
                        };
                        let b = if j < k {
                            j
                        } else {
                            j + 1
                        };
                        assert(after[i] == before[a] && after[j] == before[b]);
                    }
                    assert(after.to_set() =~= before.to_set().remove(id)) by {
                        assert forall|x: Seq<char>| after.to_set().contains(x) implies before.to_set().remove(
                            id,
                        ).contains(x) by {
                            let i = choose|i: int| 0 <= i < after.len() && after[i] == x;
                            let a = if i < k {
                                i
                            } else {
                                i + 1
                            };
                            assert(before[a] == x && a != k);
                        }
                        assert forall|x: Seq<char>| before.to_set().remove(id).contains(x) implies after.to_set().contains(
                            x,
                        ) by {
                            let a = choose|a: int| 0 <= a < before.len() && before[a] == x;
                            assert(a != k);
                            let i = if a < k {
                                a
                            } else {
                                a - 1
                            };
                            assert(after[i] == x);
                        }
                    }
                }
            },
            None => {
                assert(before.to_set() =~= before.to_set().remove(id));
            },
        }
    }

    /// Begins a shutdown: `None` means that it waits.
    pub fn begin_shutdown(&mut self) -> (r: Option<ShutdownAction>)
        requires
            old(self).wf(),
        ensures
            final(self).wf(),
            (final(self)@, r) == shutdown_admission(old(self)@),
    {
        if self.has_task_creates() {
            return None;
        }
        match self.state.phase {
            Phase::Creating | Phase::Starting | Phase::Stopping => None,
            Phase::Shutdown => Some(ShutdownAction::AlreadyComplete),
            Phase::ShuttingDown => Some(ShutdownAction::WaitForExisting),
            Phase::Stopped | Phase::ReleasePending => {
                self.state.phase = Phase::ShuttingDown;
                Some(ShutdownAction::Run { force_abort: false })
            },
            _ => {
                self.state.phase = Phase::ShuttingDown;
                Some(ShutdownAction::Run { force_abort: true })
            },
        }
    }

    /// Begins a stop.
    pub fn begin_stop(&mut self) -> (r: StopAdmission)
        requires
            old(self).wf(),
        ensures
            final(self).wf(),
            (final(self)@, r@) == stop_admission(old(self)@),
    {
        if self.has_task_creates() {
            return StopAdmission::Wait;
        }
        match self.state.phase {
            Phase::Creating | Phase::Starting => StopAdmission::Wait,
            Phase::Created | Phase::Ready | Phase::Failed | Phase::ReleasePending => {
                let previous = self.state.phase;
                self.state.phase = Phase::Stopping;
                StopAdmission::Run { previous }
            },
            Phase::Stopping => StopAdmission::Join,
            Phase::Stopped | Phase::Shutdown => StopAdmission::Stopped,
            phase => StopAdmission::Refuse {
                error: rpc_error(
                    Code::FailedPrecondition,
                    "sandbox cannot stop from phase ".to_owned().concat(phase_name(phase)),
                ),
            },
        }
    }
}

/// A task gets a place only in a sandbox without a service or in a ready one
/// that holds a lease.
pub proof fn law_tasks_need_a_ready_sandbox(
    state: LifecycleStateView,
    shared_root: Result<String, String>,
)
    ensures
        mode_of(state, shared_root) is Ok ==> state.phase == Phase::Unmanaged || (state.phase
            == Phase::Ready && state.runtime is Some),
        managed_mode(state, shared_root) is Ok ==> state.phase == Phase::Ready
            && state.runtime is Some,
{
}

/// Nothing is stopped or shut down while a task is created or other work runs.
pub proof fn law_running_work_is_waited_for(state: SandboxLifecycleView)
    requires
        !state.task_creates.is_empty() || state.state.phase == Phase::Creating || state.state.phase
            == Phase::Starting,
    ensures
        shutdown_admission(state) == (state, None::<ShutdownAction>),
        stop_admission(state) == (state, StopAdmissionView::Wait),
{
}

/// A stop or a shutdown is run once: while it runs no second one begins.
pub proof fn law_one_teardown_at_a_time(state: SandboxLifecycleView)
    ensures
        stop_admission(state).1 is Run ==> !(stop_admission(stop_admission(state).0).1 is Run)
            && shutdown_admission(stop_admission(state).0).1 is None,
        shutdown_admission(state).1 matches Some(ShutdownAction::Run { .. }) ==> (
        shutdown_admission(shutdown_admission(state).0).1 == Some(ShutdownAction::WaitForExisting)
            && !(stop_admission(shutdown_admission(state).0).1 is Run)),
{
}

/// After a stop, or a release that is pending, a shutdown tears nothing down
/// again.
pub proof fn law_stopped_sandbox_is_not_aborted(state: SandboxLifecycleView)
    ensures
        shutdown_admission(state).1 == Some(ShutdownAction::Run { force_abort: false }) <==> (
        state.task_creates.is_empty() && (state.state.phase == Phase::Stopped || state.state.phase
            == Phase::ReleasePending)),
{
}

/// A task of a sandbox without a service gets a sandbox of its own, and a task
/// of a ready one the directory of its lease; there is no other place.
pub proof fn law_tasks_get_the_place_of_their_sandbox(
    state: LifecycleStateView,
    root: String,
    error: String,
)
    ensures
        state.phase == Phase::Unmanaged ==> (mode_of(state, Ok(root)) matches Ok(
            TaskModeView::Legacy,
        )) && managed_mode(state, Ok(root)) is Err,
        state.phase == Phase::Ready && state.runtime is Some ==> mode_of(state, Ok(root)) == Ok::<
            TaskModeView,
            Seq<char>,
        >(TaskModeView::ManagedReady { shared_root: root@ }) && managed_mode(state, Ok(root))
            == Ok::<TaskModeView, Seq<char>>(TaskModeView::ManagedReady { shared_root: root@ }),
        state.phase == Phase::Ready && state.runtime is Some ==> mode_of(state, Err(error))
            == Err::<TaskModeView, Seq<char>>(error@),
        state.phase == Phase::Ready && state.runtime is None ==> mode_of(state, Ok(root)) is Err,
        state.phase != Phase::Ready && state.phase != Phase::Unmanaged ==> mode_of(
            state,
            Ok(root),
        ) is Err,
{
}

/// Once no task is created, what a stop does depends on the phase alone: it is
/// run for a sandbox that is created, ready, failed or not released, and notes
/// the phase it began in; it joins a stop that runs, is told of one that has
/// run, and is refused elsewhere.
pub proof fn law_stops_follow_the_phase(state: SandboxLifecycleView)
    requires
        state.task_creates.is_empty(),
    ensures
        ({
            let phase = state.state.phase;
            let (after, admission) = stop_admission(state);
            &&& phase == Phase::Created || phase == Phase::Ready || phase == Phase::Failed || phase
                == Phase::ReleasePending <==> admission is Run
            &&& admission matches StopAdmissionView::Run { previous } ==> previous == phase
            &&& admission is Run ==> after == (SandboxLifecycleView {
                state: LifecycleStateView { phase: Phase::Stopping, ..state.state },
                ..state
            })
            &&& !(admission is Run) ==> after == state
            &&& phase == Phase::Stopping <==> admission is Join
            &&& phase == Phase::Stopped || phase == Phase::Shutdown <==> admission is Stopped
            &&& phase == Phase::Creating || phase == Phase::Starting <==> admission is Wait
            &&& phase == Phase::Unmanaged || phase == Phase::ShuttingDown <==> admission is Refuse
            &&& admission matches StopAdmissionView::Refuse { error } ==> error.code
                == Code::FailedPrecondition
        }),
{
}

/// Once no task is created, a shutdown is run for every sandbox that no other
/// work holds, by force unless the machine is gone already; it waits for a
/// shutdown that runs and is told of one that has run.
pub proof fn law_shutdowns_follow_the_phase(state: SandboxLifecycleView)
    requires
        state.task_creates.is_empty(),
    ensures
        ({
            let phase = state.state.phase;
            let (after, action) = shutdown_admission(state);
            &&& action is None <==> phase == Phase::Creating || phase == Phase::Starting || phase
                == Phase::Stopping
            &&& action == Some(ShutdownAction::AlreadyComplete) <==> phase == Phase::Shutdown
            &&& action == Some(ShutdownAction::WaitForExisting) <==> phase == Phase::ShuttingDown
            &&& action == Some(ShutdownAction::Run { force_abort: false }) <==> phase
                == Phase::Stopped || phase == Phase::ReleasePending
            &&& action == Some(ShutdownAction::Run { force_abort: true }) <==> phase
                == Phase::Unmanaged || phase == Phase::Created || phase == Phase::Ready || phase
                == Phase::Failed
            &&& action matches Some(ShutdownAction::Run { .. }) ==> after == (
            SandboxLifecycleView {
                state: LifecycleStateView { phase: Phase::ShuttingDown, ..state.state },
                ..state
            })
            &&& !(action matches Some(ShutdownAction::Run { .. })) ==> after == state
        }),
{
}

/// A task gets the mode that is right for it, or is refused with the reason.
pub proof fn law_modes_are_given_or_refused(mode: TaskMode, error: String, message: Seq<char>)
    ensures
        gives_mode(Ok(mode), Ok(mode@)),
        !gives_mode(Ok(mode), Err(message)),
        !gives_mode(Err(error), Ok(mode@)),
        gives_mode(Err(error), Err(message)) == (error@ == message),
{
}

} // verus!
