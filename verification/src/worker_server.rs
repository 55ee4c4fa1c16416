//! The worker's side of the protocol: nothing is executed before the shim has
//! proved itself, requests come in order, and a failed command ends the worker.
use vstd::prelude::*;

use crate::text::{decimal, decimal_text, fails_with, opt_view, quote, quoted, text_eq};
use crate::vm_config::NetConfig;
use crate::vm_fds::{all_same_but_fds, install_fault, installed, machine_fds, PendingVmFds};
use crate::worker_protocol::{
    poison_on_error, poisons, CommandKind, WorkerCommand, WorkerReply, WorkerRequest,
    WorkerResponse, PROTOCOL_MAGIC, PROTOCOL_VERSION,
};

verus! {

/// What a worker knows of its channel and its machine.
#[derive(Debug, PartialEq, Eq)]
pub struct WorkerServer {
    pub expected_nonce: String,
    pub expected_parent_pid: u32,
    pub hello_complete: bool,
    pub next_request_id: u64,
    /// Whether the hypervisor runs.
    pub launched: bool,
}

/// The contents of a [`WorkerServer`].
pub struct WorkerServerView {
    pub expected_nonce: Seq<char>,
    pub expected_parent_pid: u32,
    pub hello_complete: bool,
    pub next_request_id: u64,
    pub launched: bool,
}

impl View for WorkerServer {
    type V = WorkerServerView;

    open spec fn view(&self) -> WorkerServerView {
        WorkerServerView {
            expected_nonce: self.expected_nonce@,
            expected_parent_pid: self.expected_parent_pid,
            hello_complete: self.hello_complete,
            next_request_id: self.next_request_id,
            launched: self.launched,
        }
    }
}

/// What came through the control channel.
pub enum ControlPacket<P> {
    /// Nothing could be received.
    Broken { error: String },
    /// The shim has closed the channel.
    Closed,
    /// What was received is no request.
    Undecodable { error: String },
    Request { request: WorkerRequest<P>, descriptors: usize },
}

/// What a worker does with what came.
#[derive(Debug, PartialEq, Eq)]
pub enum Admission {
    /// The command is executed.
    Execute { kind: CommandKind, request_id: u64 },
    /// The worker ends in order.
    End,
    /// The worker ends with an error, of which the shim is told where `notify`
    /// says so.
    Refuse { message: String, notify: bool },
}

/// The contents of an [`Admission`].
pub enum AdmissionView {
    Execute { kind: CommandKind, request_id: u64 },
    End,
    Refuse { message: Seq<char>, notify: bool },
}

impl View for Admission {
    type V = AdmissionView;

    open spec fn view(&self) -> AdmissionView {
        match self {
            Admission::Execute { kind, request_id } => AdmissionView::Execute {
                kind: *kind,
                request_id: *request_id,
            },
            Admission::End => AdmissionView::End,
            Admission::Refuse { message, notify } => AdmissionView::Refuse {
                message: message@,
                notify: *notify,
            },
        }
    }
}

/// Whether a greeting is the shim's.
pub open spec fn greets<P>(state: WorkerServerView, command: WorkerCommand<P>) -> bool {
    command matches WorkerCommand::Hello(hello) && hello.nonce@ == state.expected_nonce
        && hello.parent_pid == state.expected_parent_pid
}

/// Why a request in its order is not executed, if it is not.
pub open spec fn request_fault<P>(
    state: WorkerServerView,
    command: WorkerCommand<P>,
    descriptors: usize,
) -> Option<Seq<char>> {
    if command is Hello && (state.hello_complete || !greets(state, command)) {
        Some("invalid or duplicate cube-vmm-worker Hello"@)
    } else if !(command is Hello) && !state.hello_complete {
        Some("cube-vmm-worker command arrived before Hello"@)
    } else if !(command is CreateVm) && descriptors > 0 {
        Some("descriptors are only valid with CreateVm"@)
    } else {
        None
    }
}

/// What a worker does with a request.
pub open spec fn request_admission<P>(
    state: WorkerServerView,
    request: WorkerRequest<P>,
    descriptors: usize,
) -> (WorkerServerView, AdmissionView) {
    if request.magic@ != PROTOCOL_MAGIC@ || request.version != PROTOCOL_VERSION {
        (
            state,
            AdmissionView::Refuse {
                message: "unsupported worker protocol magic="@ + quoted(request.magic@)
                    + " version="@ + decimal(request.version as nat),
                notify: true,
            },
        )
    } else if request.request_id != state.next_request_id {
        (
            state,
            AdmissionView::Refuse {
                message: "worker request_id "@ + decimal(request.request_id as nat)
                    + " is not the expected "@ + decimal(state.next_request_id as nat),
                notify: true,
            },
        )
    } else if state.next_request_id == u64::MAX {
        (
            state,
            AdmissionView::Refuse { message: "worker request_id overflow"@, notify: false },
        )
    } else {
        let next = WorkerServerView {
            next_request_id: (state.next_request_id + 1) as u64,
            ..state
        };
        match request_fault(state, request.command, descriptors) {
            Some(message) => (next, AdmissionView::Refuse { message, notify: true }),
            None => (
                next,
                AdmissionView::Execute {
                    kind: request.command.kind_of(),
                    request_id: request.request_id,
                },
            ),
        }
    }
}

/// What a worker does with what came.
pub open spec fn admission<P>(state: WorkerServerView, packet: ControlPacket<P>) -> (
    WorkerServerView,
    AdmissionView,
) {
    match packet {
        ControlPacket::Broken { error } => (
            state,
            AdmissionView::Refuse { message: error@, notify: true },
        ),
        ControlPacket::Closed => (state, AdmissionView::End),
        ControlPacket::Undecodable { error } => (
            state,
            AdmissionView::Refuse { message: "decode worker request: "@ + error@, notify: true },
        ),
        ControlPacket::Request { request, descriptors } => request_admission(
            state,
            request,
            descriptors,
        ),
    }
}

/// How a command is executed.
#[derive(Clone, Copy, Debug, PartialEq, Eq, Structural)]
pub enum Execution {
    /// Nothing is to be done.
    Nothing,
    /// The hypervisor is started.
    Launch,
    /// The descriptors are installed, then the request is sent.
    InstallAndSend,
    /// A request is sent to the hypervisor.
    Send,
    /// The end of the hypervisor is awaited.
    Join,
    /// The hypervisor is shut down, then its end is awaited.
    Shutdown,
}

/// How a command is executed, and what becomes of the worker; an error is the
/// command's result.
pub open spec fn execution(state: WorkerServerView, kind: CommandKind) -> (
    WorkerServerView,
    Result<Execution, Seq<char>>,
) {
    let ended = WorkerServerView { launched: false, ..state };
    match kind {
        CommandKind::Hello => if state.launched {
            (state, Err("Hello arrived after VMM launch"@))
        } else {
            (state, Ok(Execution::Nothing))
        },
        CommandKind::Launch => if state.launched {
            (state, Err("cube-vmm-worker is already launched"@))
        } else {
            (state, Ok(Execution::Launch))
        },
        CommandKind::CreateVm => (state, Ok(Execution::InstallAndSend)),
        CommandKind::JoinVmm => if state.launched {
            (ended, Ok(Execution::Join))
        } else {
            (state, Err("cube-vmm-worker is not launched"@))
        },
        CommandKind::ShutdownWorker => if state.launched {
            (ended, Ok(Execution::Shutdown))
        } else {
            (state, Err("cube-vmm-worker is not launched"@))
        },
        _ => if state.launched {
            (state, Ok(Execution::Send))
        } else {
            (state, Err("cube-vmm-worker is not launched"@))
        },
    }
}

/// What a request to the hypervisor is called.
pub open spec fn request_name(kind: CommandKind) -> Seq<char> {
    match kind {
        CommandKind::Ping => "ping VMM"@,
        CommandKind::CreateVm => "create VM"@,
        CommandKind::BootVm => "boot VM"@,
        CommandKind::SnapshotVm => "snapshot VM"@,
        CommandKind::PauseVm => "pause VM"@,
        CommandKind::ResumeVm => "resume VM"@,
        CommandKind::RestoreVm => "restore VM"@,
        CommandKind::SetFs => "set VM fs"@,
        CommandKind::AddDevice => "add VM device"@,
        CommandKind::RemoveDevice => "remove VM device"@,
        CommandKind::DeleteVm => "delete VM"@,
        CommandKind::PauseToSnapshot => "pause VM to snapshot"@,
        CommandKind::ResumeFromSnapshot => "resume VM from snapshot"@,
        CommandKind::ShutdownWorker => "shutdown worker VMM"@,
        _ => ""@,
    }
}

fn name_of_request(kind: CommandKind) -> (name: &'static str)
    ensures
        name@ == request_name(kind),
{
    match kind {
        CommandKind::Ping => "ping VMM",
        CommandKind::CreateVm => "create VM",
        CommandKind::BootVm => "boot VM",
        CommandKind::SnapshotVm => "snapshot VM",
        CommandKind::PauseVm => "pause VM",
        CommandKind::ResumeVm => "resume VM",
        CommandKind::RestoreVm => "restore VM",
        CommandKind::SetFs => "set VM fs",
        CommandKind::AddDevice => "add VM device",
        CommandKind::RemoveDevice => "remove VM device",
        CommandKind::DeleteVm => "delete VM",
        CommandKind::PauseToSnapshot => "pause VM to snapshot",
        CommandKind::ResumeFromSnapshot => "resume VM from snapshot",
        CommandKind::ShutdownWorker => "shutdown worker VMM",
        _ => "",
    }
}

/// How the work of a command ended.
pub enum Work {
    /// It was done; a device answers with an action.
    Done { action: Option<Vec<u8>> },
    /// The request did not reach the hypervisor.
    RequestFailed { error: String },
    /// The hypervisor answered with an error.
    ResponseFailed { error: String },
    /// The end of the hypervisor could not be awaited.
    JoinFailed { error: String },
    /// A step of the start of the hypervisor failed.
    LaunchFailed { step: LaunchStep, error: String },
}

/// A step of the start of the hypervisor.
#[derive(Clone, Copy, Debug, PartialEq, Eq, Structural)]
pub enum LaunchStep {
    CloneEvents,
    ForwardEvents,
    ReadLevel,
    Start,
}

/// What the failure of a step of the start begins with.
pub open spec fn launch_failure(step: LaunchStep) -> Seq<char> {
    match step {
        LaunchStep::CloneEvents => "clone worker event socket: "@,
        LaunchStep::ForwardEvents => "spawn VMM event forwarder: "@,
        LaunchStep::ReadLevel => ""@,
        LaunchStep::Start => "launch worker VMM: "@,
    }
}

fn name_of_launch_failure(step: LaunchStep) -> (name: &'static str)
    ensures
        name@ == launch_failure(step),
{
    match step {
        LaunchStep::CloneEvents => "clone worker event socket: ",
        LaunchStep::ForwardEvents => "spawn VMM event forwarder: ",
        LaunchStep::ReadLevel => "",
        LaunchStep::Start => "launch worker VMM: ",
    }
}

/// The result of a command, by how its work ended.
pub open spec fn work_result(kind: CommandKind, work: Work) -> Result<WorkerReply, Seq<char>> {
    match work {
        Work::Done { action } => if kind == CommandKind::AddDevice {
            Ok(WorkerReply::ActionPayload(action))
        } else {
            Ok(WorkerReply::Empty)
        },
        Work::RequestFailed { error } => Err(request_name(kind) + " request: "@ + error@),
        Work::ResponseFailed { error } => Err(request_name(kind) + " response: "@ + error@),
        Work::JoinFailed { error } => Err("join worker VMM: "@ + error@),
        Work::LaunchFailed { step, error } => Err(launch_failure(step) + error@),
    }
}

/// Whether the descriptors that wait for a boot are let go after a command:
/// after a boot and a deletion that succeeded, and after a creation that
/// failed.
pub open spec fn releases_fds(kind: CommandKind, succeeded: bool) -> bool {
    match kind {
        CommandKind::BootVm | CommandKind::DeleteVm => succeeded,
        CommandKind::CreateVm => !succeeded,
        _ => false,
    }
}

/// How a worker goes on after an answer.
#[derive(Debug, PartialEq, Eq)]
pub struct AfterAnswer {
    /// The shim has just proved itself: from now on the worker may outlive
    /// silence on the channel.
    pub authenticated: bool,
    pub end: bool,
    /// What the shim is told beside the answer.
    pub notify: Option<String>,
}

/// Whether a result is a success.
pub open spec fn succeeded(result: Result<WorkerReply, String>) -> bool {
    result is Ok
}

impl WorkerServer {
    /// A worker that waits for its shim.
    pub fn new(expected_nonce: String, expected_parent_pid: u32) -> (server: Self)
        ensures
            server@ == (WorkerServerView {
                expected_nonce: expected_nonce@,
                expected_parent_pid,
                hello_complete: false,
                next_request_id: 1,
                launched: false,
            }),
    {
        WorkerServer {
            expected_nonce,
            expected_parent_pid,
            hello_complete: false,
            next_request_id: 1,
            launched: false,
        }
    }

    /// What the worker does with what came.
    pub fn receive<P>(&mut self, packet: &ControlPacket<P>) -> (r: Admission)
        ensures
            (final(self)@, r@) == admission(old(self)@, *packet),
    {
        match packet {
            ControlPacket::Broken { error } => Admission::Refuse {
                message: error.clone(),
                notify: true,
            },
            ControlPacket::Closed => Admission::End,
            ControlPacket::Undecodable { error } => Admission::Refuse {
                message: "decode worker request: ".to_owned().concat(error.as_str()),
                notify: true,
            },
            ControlPacket::Request { request, descriptors } => self.receive_request(
                request,
                *descriptors,
            ),
        }
    }

    fn receive_request<P>(&mut self, request: &WorkerRequest<P>, descriptors: usize) -> (r: Admission)
        ensures
            (final(self)@, r@) == request_admission(old(self)@, *request, descriptors),
    {
        if !text_eq(request.magic.as_str(), PROTOCOL_MAGIC) || request.version
            != PROTOCOL_VERSION {
            return Admission::Refuse {
                message: "unsupported worker protocol magic=".to_owned().concat(
                    quote(request.magic.as_str()).as_str(),
                ).concat(" version=").concat(decimal_text(request.version as u128).as_str()),
                notify: true,
            };
        }
        if request.request_id != self.next_request_id {
            return Admission::Refuse {
                message: "worker request_id ".to_owned().concat(
                    decimal_text(request.request_id as u128).as_str(),
                ).concat(" is not the expected ").concat(
                    decimal_text(self.next_request_id as u128).as_str(),
                ),
                notify: true,
            };
        }
        if self.next_request_id == u64::MAX {
            return Admission::Refuse {
                message: "worker request_id overflow".to_owned(),
                notify: false,
            };
        }
        self.next_request_id = self.next_request_id + 1;
        match &request.command {
            WorkerCommand::Hello(hello) => {
                if self.hello_complete || !text_eq(
                    hello.nonce.as_str(),
                    self.expected_nonce.as_str(),
                ) || hello.parent_pid != self.expected_parent_pid {
                    return Admission::Refuse {
                        message: "invalid or duplicate cube-vmm-worker Hello".to_owned(),
                        notify: true,
                    };
                }
            },
            _ => {
                if !self.hello_complete {
                    return Admission::Refuse {
                        message: "cube-vmm-worker command arrived before Hello".to_owned(),
                        notify: true,
                    };
                }
            },
        }
        let kind = request.command.kind();
        if kind != CommandKind::CreateVm && descriptors > 0 {
            return Admission::Refuse {
                message: "descriptors are only valid with CreateVm".to_owned(),
                notify: true,
            };
        }
        Admission::Execute { kind, request_id: request.request_id }
    }

    /// How a command is executed. One that awaits the end of the hypervisor
    /// gives it up, whatever comes of that.
    pub fn plan(&mut self, kind: CommandKind) -> (r: Result<Execution, String>)
        ensures
            final(self)@ == execution(old(self)@, kind).0,
            match execution(old(self)@, kind).1 {
                Err(message) => fails_with(r, message),
                Ok(way) => r == Ok::<Execution, String>(way),
            },
    {
        match kind {
            CommandKind::Hello => {
                if self.launched {
                    return Err("Hello arrived after VMM launch".to_owned());
                }
                Ok(Execution::Nothing)
            },
            CommandKind::Launch => {
                if self.launched {
                    return Err("cube-vmm-worker is already launched".to_owned());
                }
                Ok(Execution::Launch)
            },
            CommandKind::CreateVm => Ok(Execution::InstallAndSend),
            CommandKind::JoinVmm => {
                if !self.launched {
                    return Err("cube-vmm-worker is not launched".to_owned());
                }
                self.launched = false;
                Ok(Execution::Join)
            },
            CommandKind::ShutdownWorker => {
                if !self.launched {
                    return Err("cube-vmm-worker is not launched".to_owned());
                }
                self.launched = false;
                Ok(Execution::Shutdown)
            },
            _ => {
                if !self.launched {
                    return Err("cube-vmm-worker is not launched".to_owned());
                }
                Ok(Execution::Send)
            },
        }
    }

    /// Gives a machine that is to be created its descriptors. Without a
    /// hypervisor they are let go again.
    pub fn prepare_create(
        &self,
        nets: &mut Option<Vec<NetConfig>>,
        descriptors: Vec<i32>,
        pending: &mut PendingVmFds,
    ) -> (r: Result<(), String>)
        ensures
            if old(pending).descriptors is Some {
                fails_with(r, "CreateVm descriptors are already pending VmBoot"@)
                    && *final(pending) == *old(pending) && *final(nets) == *old(nets)
            } else {
                &&& crate::target::passes_unless(
                    r,
                    match install_fault(machine_fds(*old(nets)), descriptors@.len()) {
                        Some(message) => Some(message),
                        None => if self@.launched {
                            None
                        } else {
                            Some("cube-vmm-worker is not launched"@)
                        },
                    },
                )
                &&& machine_fds(*final(nets)) == installed(machine_fds(*old(nets)), descriptors@)
                &&& match (*old(nets), *final(nets)) {
                    (Some(before), Some(after)) => all_same_but_fds(after@, before@),
                    (None, None) => true,
                    _ => false,
                }
                &&& final(pending).descriptors == (if r is Ok {
                    Some(descriptors)
                } else {
                    None
                })
            },
    {
        if let Err(message) = pending.install(nets, descriptors) {
            return Err(message);
        }
        if !self.launched {
            pending.abort();
            return Err("cube-vmm-worker is not launched".to_owned());
        }
        Ok(())
    }

    /// The result of a command whose work has ended.
    pub fn finish(&mut self, kind: CommandKind, work: Work, pending: &mut PendingVmFds) -> (r: Result<
        WorkerReply,
        String,
    >)
        ensures
            final(self)@ == (WorkerServerView {
                launched: old(self)@.launched || (kind == CommandKind::Launch && work is Done),
                ..old(self)@
            }),
            match work_result(kind, work) {
                Err(message) => fails_with(r, message),
                Ok(reply) => r == Ok::<WorkerReply, String>(reply),
            },
            releases_fds(kind, work is Done) ==> final(pending).descriptors is None,
            !releases_fds(kind, work is Done) ==> *final(pending) == *old(pending),
    {
        let done = match &work {
            Work::Done { .. } => true,
            _ => false,
        };
        if kind == CommandKind::Launch && done {
            self.launched = true;
        }
        match kind {
            CommandKind::BootVm => {
                if done {
                    pending.complete_boot();
                }
            },
            CommandKind::DeleteVm => {
                if done {
                    pending.abort();
                }
            },
            CommandKind::CreateVm => {
                if !done {
                    pending.abort();
                }
            },
            _ => {},
        }
        let name = name_of_request(kind);
        match work {
            Work::Done { action } => if kind == CommandKind::AddDevice {
                Ok(WorkerReply::ActionPayload(action))
            } else {
                Ok(WorkerReply::Empty)
            },
            Work::RequestFailed { error } => Err(
                name.to_owned().concat(" request: ").concat(error.as_str()),
            ),
            Work::ResponseFailed { error } => Err(
                name.to_owned().concat(" response: ").concat(error.as_str()),
            ),
            Work::JoinFailed { error } => Err(
                "join worker VMM: ".to_owned().concat(error.as_str()),
            ),
            Work::LaunchFailed { step, error } => Err(
                name_of_launch_failure(step).to_owned().concat(error.as_str()),
            ),
        }
    }

    /// The answer to a command and how the worker goes on: a command that ends
    /// the hypervisor ends the worker, and so does a failed one that poisons
    /// it.
    pub fn answer(
        &mut self,
        request_id: u64,
        kind: CommandKind,
        result: Result<WorkerReply, String>,
    ) -> (r: (WorkerResponse, AfterAnswer))
        ensures
            r.0.magic@ == PROTOCOL_MAGIC@,
            r.0.version == PROTOCOL_VERSION,
            r.0.request_id == request_id,
            r.0.result == result,
            final(self)@ == (WorkerServerView {
                hello_complete: old(self)@.hello_complete || succeeded(result),
                ..old(self)@
            }),
            r.1.authenticated == (succeeded(result) && !old(self)@.hello_complete),
            r.1.end == ends_worker(kind, result),
            opt_view(r.1.notify) == (match result {
                Err(message) if poisons(kind) => Some(message@),
                _ => None,
            }),
    {
        let authenticated = result.is_ok() && !self.hello_complete;
        if authenticated {
            self.hello_complete = true;
        }
        let last = kind == CommandKind::JoinVmm || kind == CommandKind::ShutdownWorker;
        let (end, notify) = match &result {
            Ok(_) => (last, None),
            Err(message) => if poison_on_error(kind) {
                (true, Some(message.clone()))
            } else {
                (false, None)
            },
        };
        (
            WorkerResponse {
                magic: PROTOCOL_MAGIC.to_owned(),
                version: PROTOCOL_VERSION,
                request_id,
                result,
            },
            AfterAnswer { authenticated, end, notify },
        )
    }
}

/// Whether a worker ends after the result of a command.
pub open spec fn ends_worker(kind: CommandKind, result: Result<WorkerReply, String>) -> bool {
    if succeeded(result) {
        kind == CommandKind::JoinVmm || kind == CommandKind::ShutdownWorker
    } else {
        poisons(kind)
    }
}

/// Before the shim has proved itself nothing but its greeting is executed, and
/// afterwards no further greeting.
pub proof fn law_nothing_runs_before_the_greeting<P>(
    state: WorkerServerView,
    packet: ControlPacket<P>,
)
    ensures
        admission(state, packet).1 matches AdmissionView::Execute { kind, .. } ==> (kind
            == CommandKind::Hello) == !state.hello_complete,
        admission(state, packet).1 matches AdmissionView::Execute { kind, .. } ==> (kind
            == CommandKind::Hello ==> (packet matches ControlPacket::Request { request, .. }
            && greets(state, request.command))),
{
}

/// Requests are executed in the order of their numbers, each number once.
pub proof fn law_requests_run_in_order<P>(state: WorkerServerView, packet: ControlPacket<P>)
    ensures
        admission(state, packet).1 matches AdmissionView::Execute { request_id, .. } ==> request_id
            == state.next_request_id && admission(state, packet).0.next_request_id == request_id
            + 1,
{
}

/// Descriptors come only with the creation of a machine.
pub proof fn law_descriptors_come_with_a_creation<P>(
    state: WorkerServerView,
    request: WorkerRequest<P>,
    descriptors: usize,
)
    requires
        descriptors > 0,
    ensures
        admission(state, ControlPacket::Request { request, descriptors }).1 matches AdmissionView::Execute {
            kind,
            ..
        } ==> kind == CommandKind::CreateVm,
{
}

/// A hypervisor is started once: while it runs, a second launch is refused, and
/// without it nothing reaches it.
pub proof fn law_commands_need_a_running_hypervisor(state: WorkerServerView, kind: CommandKind)
    ensures
        state.launched && kind == CommandKind::Launch ==> execution(state, kind).1 is Err,
        !state.launched && execution(state, kind).1 is Ok ==> kind == CommandKind::Hello || kind
            == CommandKind::Launch || kind == CommandKind::CreateVm,
{
}

/// A greeting with the nonce and the parent that the worker expects, under the
/// first number, is admitted once; with another nonce or parent, or a second
/// time, it is refused.
pub proof fn law_expected_greeting_is_admitted<P>(
    state: WorkerServerView,
    request: WorkerRequest<P>,
    hello: crate::worker_protocol::HelloConfig,
)
    requires
        request.magic@ == "cube-vmm-worker"@,
        request.version == 1,
        request.request_id == state.next_request_id,
        state.next_request_id < u64::MAX,
        request.command == WorkerCommand::<P>::Hello(hello),
    ensures
        ({
            let after = request_admission(state, request, 0);
            let right = !state.hello_complete && hello.nonce@ == state.expected_nonce
                && hello.parent_pid == state.expected_parent_pid;
            &&& right ==> after.1 == (AdmissionView::Execute {
                kind: CommandKind::Hello,
                request_id: request.request_id,
            })
            &&& !right ==> after.1 == (AdmissionView::Refuse {
                message: "invalid or duplicate cube-vmm-worker Hello"@,
                notify: true,
            })
            &&& after.0 == (WorkerServerView {
                next_request_id: (state.next_request_id + 1) as u64,
                ..state
            })
        }),
{
}

/// After the greeting a command under the next number is executed; descriptors
/// come with the creation of a machine only.
pub proof fn law_greeted_worker_executes<P>(
    state: WorkerServerView,
    request: WorkerRequest<P>,
    descriptors: usize,
)
    requires
        request.magic@ == "cube-vmm-worker"@,
        request.version == 1,
        request.request_id == state.next_request_id,
        state.next_request_id < u64::MAX,
        state.hello_complete,
        !(request.command is Hello),
    ensures
        ({
            let after = request_admission(state, request, descriptors);
            let allowed = descriptors == 0 || request.command is CreateVm;
            &&& allowed ==> after.1 == (AdmissionView::Execute {
                kind: request.command.kind_of(),
                request_id: request.request_id,
            })
            &&& !allowed ==> after.1 == (AdmissionView::Refuse {
                message: "descriptors are only valid with CreateVm"@,
                notify: true,
            })
            &&& after.0.next_request_id == state.next_request_id + 1
            &&& after.0.launched == state.launched
            &&& after.0.hello_complete == state.hello_complete
            &&& after.0.expected_nonce == state.expected_nonce
            &&& after.0.expected_parent_pid == state.expected_parent_pid
        }),
{
}

/// A request of another protocol or version, or out of its turn, is refused and
/// does not count.
pub proof fn law_strange_requests_do_not_count<P>(
    state: WorkerServerView,
    request: WorkerRequest<P>,
    descriptors: usize,
)
    requires
        request.magic@ != "cube-vmm-worker"@ || request.version != 1 || request.request_id
            != state.next_request_id,
    ensures
        request_admission(state, request, descriptors).0 == state,
        request_admission(state, request, descriptors).1
            matches AdmissionView::Refuse { notify, .. } && notify,
{
}

/// A closed channel ends the worker without a complaint; a broken one, and a
/// request that cannot be read, are told.
pub proof fn law_closed_channel_ends_the_worker<P>(state: WorkerServerView, error: String)
    ensures
        admission(state, ControlPacket::<P>::Closed) == (state, AdmissionView::End),
        admission(state, ControlPacket::<P>::Broken { error }) == (
            state,
            AdmissionView::Refuse { message: error@, notify: true },
        ),
        admission(state, ControlPacket::<P>::Undecodable { error }) == (
            state,
            AdmissionView::Refuse { message: "decode worker request: "@ + error@, notify: true },
        ),
{
}

/// A hypervisor is launched once; what it runs is asked of it while it runs; and
/// joining it or shutting it down ends it.
pub proof fn law_commands_take_their_way(state: WorkerServerView)
    ensures
        execution(state, CommandKind::Launch).0 == state,
        execution(state, CommandKind::CreateVm) == (
            state,
            Ok::<Execution, Seq<char>>(Execution::InstallAndSend),
        ),
        !state.launched ==> execution(state, CommandKind::Launch).1 == Ok::<Execution, Seq<char>>(
            Execution::Launch,
        ),
        state.launched ==> execution(state, CommandKind::Launch).1 is Err,
        !state.launched ==> execution(state, CommandKind::Hello) == (
            state,
            Ok::<Execution, Seq<char>>(Execution::Nothing),
        ),
        state.launched ==> execution(state, CommandKind::Hello).1 is Err,
        state.launched ==> execution(state, CommandKind::JoinVmm) == (
            WorkerServerView { launched: false, ..state },
            Ok::<Execution, Seq<char>>(Execution::Join),
        ),
        state.launched ==> execution(state, CommandKind::ShutdownWorker) == (
            WorkerServerView { launched: false, ..state },
            Ok::<Execution, Seq<char>>(Execution::Shutdown),
        ),
        state.launched ==> execution(state, CommandKind::BootVm) == (
            state,
            Ok::<Execution, Seq<char>>(Execution::Send),
        ),
{
}

/// Every command that is asked of a running hypervisor is sent to it.
pub proof fn law_other_commands_are_sent(state: WorkerServerView, kind: CommandKind)
    requires
        state.launched,
        kind != CommandKind::Hello,
        kind != CommandKind::Launch,
        kind != CommandKind::CreateVm,
        kind != CommandKind::JoinVmm,
        kind != CommandKind::ShutdownWorker,
    ensures
        execution(state, kind) == (state, Ok::<Execution, Seq<char>>(Execution::Send)),
{
}

/// Finished work is answered with what it gave: a device's answer for an added
/// device and nothing otherwise; failed work is answered with what failed.
pub proof fn law_work_is_answered(
    kind: CommandKind,
    action: Option<Vec<u8>>,
    error: String,
)
    ensures
        work_result(CommandKind::AddDevice, Work::Done { action }) == Ok::<WorkerReply, Seq<char>>(
            WorkerReply::ActionPayload(action),
        ),
        kind != CommandKind::AddDevice ==> work_result(kind, Work::Done { action }) == Ok::<
            WorkerReply,
            Seq<char>,
        >(WorkerReply::Empty),
        work_result(CommandKind::BootVm, Work::RequestFailed { error }) == Err::<
            WorkerReply,
            Seq<char>,
        >("boot VM"@ + " request: "@ + error@),
        work_result(CommandKind::CreateVm, Work::ResponseFailed { error }) == Err::<
            WorkerReply,
            Seq<char>,
        >("create VM"@ + " response: "@ + error@),
        work_result(kind, Work::JoinFailed { error }) == Err::<WorkerReply, Seq<char>>(
            "join worker VMM: "@ + error@,
        ),
        work_result(kind, Work::LaunchFailed { step: LaunchStep::Start, error }) == Err::<
            WorkerReply,
            Seq<char>,
        >("launch worker VMM: "@ + error@),
        work_result(kind, Work::LaunchFailed { step: LaunchStep::CloneEvents, error }) == Err::<
            WorkerReply,
            Seq<char>,
        >("clone worker event socket: "@ + error@),
        work_result(kind, Work::LaunchFailed { step: LaunchStep::ForwardEvents, error }) == Err::<
            WorkerReply,
            Seq<char>,
        >("spawn VMM event forwarder: "@ + error@),
{
}

/// The descriptors of a machine are kept from its creation to its boot: they go
/// where it boots or is deleted, and where its creation fails.
pub proof fn law_descriptors_are_kept_until_the_boot(kind: CommandKind, succeeded: bool)
    ensures
        releases_fds(kind, succeeded) == ((succeeded && (kind == CommandKind::BootVm || kind
            == CommandKind::DeleteVm)) || (!succeeded && kind == CommandKind::CreateVm)),
{
}

/// A worker ends once its hypervisor was joined or shut down, and after the
/// failure of any command but a greeting or a ping.
pub proof fn law_workers_end_with_their_hypervisor(
    kind: CommandKind,
    reply: WorkerReply,
    error: String,
)
    ensures
        ends_worker(kind, Ok(reply)) == (kind == CommandKind::JoinVmm || kind
            == CommandKind::ShutdownWorker),
        ends_worker(kind, Err(error)) == (kind != CommandKind::Hello && kind != CommandKind::Ping),
{
}

/// A worker that has run out of numbers takes no further request.
pub proof fn law_numbers_run_out<P>(
    state: WorkerServerView,
    request: WorkerRequest<P>,
    descriptors: usize,
)
    requires
        request.magic@ == "cube-vmm-worker"@,
        request.version == 1,
        request.request_id == u64::MAX,
        state.next_request_id == u64::MAX,
    ensures
        request_admission(state, request, descriptors) == (
            state,
            AdmissionView::Refuse { message: "worker request_id overflow"@, notify: false },
        ),
{
}

} // verus!
