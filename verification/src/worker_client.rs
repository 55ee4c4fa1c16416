//! The shim's side of the protocol: a worker that fails is ended exactly once
//! and never asked again.
use vstd::prelude::*;

use crate::prepare::{fresh_uuid, is_random_uuid};
use crate::target::passes_unless;
use crate::text::{decimal, decimal_text, fails_with, quote, quoted, text_eq};
use crate::worker_protocol::{
    heard, notify_event, poison_on_error, poisons, CommandKind, NotifyEvent, WorkerCommand,
    WorkerEvent, WorkerReply, WorkerRequest, WorkerResponse, MAX_HANDOFF_FDS, PROTOCOL_MAGIC, PROTOCOL_VERSION,
};

verus! {

/// A fresh secret by which a worker knows the process that spawned it.
pub fn new_nonce() -> (nonce: String)
    ensures
        is_random_uuid(nonce@),
{
    fresh_uuid()
}

/// What a shim knows of its worker.
#[derive(Clone, Copy, Debug, PartialEq, Eq, Structural)]
pub struct WorkerClient {
    pub next_request_id: u64,
    pub poisoned: bool,
    pub reaped: bool,
}

/// Why a request failed, and whether its channel did.
#[derive(Debug, PartialEq, Eq)]
pub struct RequestFailure {
    pub message: String,
    pub channel_failed: bool,
}

impl RequestFailure {
    /// A failure on this side.
    pub fn local(message: String) -> (failure: Self)
        ensures
            failure.message == message,
            !failure.channel_failed,
    {
        RequestFailure { message, channel_failed: false }
    }

    /// A failure of the channel.
    pub fn channel(message: String) -> (failure: Self)
        ensures
            failure.message == message,
            failure.channel_failed,
    {
        RequestFailure { message, channel_failed: true }
    }

    /// A failure that the worker reports.
    pub fn application(message: String) -> (failure: Self)
        ensures
            failure.message == message,
            !failure.channel_failed,
    {
        RequestFailure::local(message)
    }
}

/// A request failed with this message, on the channel or not.
pub open spec fn breaks<T>(r: Result<T, RequestFailure>, message: Seq<char>, channel: bool) -> bool {
    r matches Err(failure) && failure.message@ == message && failure.channel_failed == channel
}

/// What came back for a request.
pub enum Reply {
    /// The request could not be written down.
    Unencodable { error: String },
    /// Nothing could be sent or received.
    Broken { error: String },
    /// The worker has closed the channel.
    Closed,
    Received { descriptors: usize, decoded: Result<WorkerResponse, String> },
}

/// Whether an answer is of the kind that a command has.
pub open spec fn reply_fits(kind: CommandKind, reply: WorkerReply) -> bool {
    (kind == CommandKind::AddDevice) == (reply is ActionPayload)
}

/// Whether a response answers a request.
pub open spec fn answers(response: WorkerResponse, request_id: u64) -> bool {
    response.magic@ == PROTOCOL_MAGIC@ && response.version == PROTOCOL_VERSION
        && response.request_id == request_id
}

/// What came of a request: the answer, or the message and whether the channel
/// failed.
pub open spec fn exchanged(request_id: u64, kind: CommandKind, reply: Reply) -> Result<
    WorkerReply,
    (Seq<char>, bool),
> {
    match reply {
        Reply::Unencodable { error } => Err(("encode cube-vmm-worker request: "@ + error@, false)),
        Reply::Broken { error } => Err((error@, true)),
        Reply::Closed => Err(("cube-vmm-worker closed the control channel"@, true)),
        Reply::Received { descriptors, decoded } => if descriptors > 0 {
            Err(("cube-vmm-worker response unexpectedly carried descriptors"@, true))
        } else {
            match decoded {
                Err(error) => Err(("decode cube-vmm-worker response: "@ + error@, true)),
                Ok(response) => if !answers(response, request_id) {
                    Err(
                        (
                            "cube-vmm-worker response identity mismatch: magic="@ + quoted(
                                response.magic@,
                            ) + " version="@ + decimal(response.version as nat) + " request_id="@
                                + decimal(response.request_id as nat) + " expected="@ + decimal(
                                request_id as nat,
                            ),
                            true,
                        ),
                    )
                } else {
                    match response.result {
                        Err(error) => Err((error@, false)),
                        Ok(answer) => if !reply_fits(kind, answer) {
                            Err(
                                (
                                    "cube-vmm-worker response payload does not match request opcode"@,
                                    true,
                                ),
                            )
                        } else {
                            Ok(answer)
                        },
                    }
                },
            }
        },
    }
}

/// What came of a request.
pub fn check_reply(request_id: u64, kind: CommandKind, reply: Reply) -> (r: Result<
    WorkerReply,
    RequestFailure,
>)
    ensures
        match exchanged(request_id, kind, reply) {
            Ok(answer) => r == Ok::<WorkerReply, RequestFailure>(answer),
            Err((message, channel)) => breaks(r, message, channel),
        },
{
    let (descriptors, decoded) = match reply {
        Reply::Unencodable { error } => return Err(
            RequestFailure::local(
                "encode cube-vmm-worker request: ".to_owned().concat(error.as_str()),
            ),
        ),
        Reply::Broken { error } => return Err(RequestFailure::channel(error)),
        Reply::Closed => return Err(
            RequestFailure::channel("cube-vmm-worker closed the control channel".to_owned()),
        ),
        Reply::Received { descriptors, decoded } => (descriptors, decoded),
    };
    if descriptors > 0 {
        return Err(
            RequestFailure::channel(
                "cube-vmm-worker response unexpectedly carried descriptors".to_owned(),
            ),
        );
    }
    let response = match decoded {
        Err(error) => return Err(
            RequestFailure::channel(
                "decode cube-vmm-worker response: ".to_owned().concat(error.as_str()),
            ),
        ),
        Ok(response) => response,
    };
    if !text_eq(response.magic.as_str(), PROTOCOL_MAGIC) || response.version != PROTOCOL_VERSION
        || response.request_id != request_id {
        return Err(
            RequestFailure::channel(
                "cube-vmm-worker response identity mismatch: magic=".to_owned().concat(
                    quote(response.magic.as_str()).as_str(),
                ).concat(" version=").concat(
                    decimal_text(response.version as u128).as_str(),
                ).concat(" request_id=").concat(
                    decimal_text(response.request_id as u128).as_str(),
                ).concat(" expected=").concat(decimal_text(request_id as u128).as_str()),
            ),
        );
    }
    let answer = match response.result {
        Err(error) => return Err(RequestFailure::application(error)),
        Ok(answer) => answer,
    };
    let payload = match &answer {
        WorkerReply::ActionPayload(_) => true,
        WorkerReply::Empty => false,
    };
    if (kind == CommandKind::AddDevice) != payload {
        return Err(
            RequestFailure::channel(
                "cube-vmm-worker response payload does not match request opcode".to_owned(),
            ),
        );
    }
    Ok(answer)
}

/// The number after a request's; after the last one they start again.
pub open spec fn following_id(request_id: u64) -> u64 {
    if request_id == u64::MAX {
        0
    } else {
        (request_id + 1) as u64
    }
}

/// Whether a worker is ended after a request that failed.
pub open spec fn ends_after(kind: CommandKind, channel_failed: bool) -> bool {
    channel_failed || poisons(kind)
}

/// Why a worker may not be asked, if it may not.
pub open spec fn usable_fault(client: WorkerClient) -> Option<Seq<char>> {
    if client.poisoned {
        Some("cube-vmm-worker is poisoned"@)
    } else {
        None
    }
}

/// What a shim knows of its worker after a request; `broken` is that of a
/// request that failed, and whether its channel did.
pub open spec fn settled(client: WorkerClient, kind: CommandKind, broken: Option<bool>) -> WorkerClient {
    match broken {
        Some(channel) => WorkerClient {
            poisoned: client.poisoned || ends_after(kind, channel),
            ..client
        },
        None => client,
    }
}

/// An error, with what came of the worker's end where that failed.
pub open spec fn with_termination(error: Seq<char>, ending: Option<Result<(), String>>) -> Seq<char> {
    match ending {
        Some(Err(message)) => error + "; exact worker termination failed: "@ + message@,
        _ => error,
    }
}

/// An error, with what came of the worker's end where that failed.
pub fn terminate_after_error(error: &str, ending: &Result<(), String>) -> (message: String)
    ensures
        message@ == with_termination(error@, Some(*ending)),
{
    match ending {
        Ok(()) => error.to_owned(),
        Err(failure) => error.to_owned().concat("; exact worker termination failed: ").concat(
            failure.as_str(),
        ),
    }
}

impl WorkerClient {
    /// A worker that was just spawned.
    pub fn new() -> (client: Self)
        ensures
            client == (WorkerClient { next_request_id: 1, poisoned: false, reaped: false }),
    {
        WorkerClient { next_request_id: 1, poisoned: false, reaped: false }
    }

    /// Checks that the worker may be asked.
    pub fn check_usable(&self) -> (r: Result<(), String>)
        ensures
            passes_unless(r, usable_fault(*self)),
    {
        if self.poisoned {
            return Err("cube-vmm-worker is poisoned".to_owned());
        }
        Ok(())
    }

    /// Frames a command as the next request.
    pub fn frame<P>(&mut self, command: WorkerCommand<P>, descriptors: usize) -> (r: Result<
        WorkerRequest<P>,
        RequestFailure,
    >)
        ensures
            if descriptors > MAX_HANDOFF_FDS {
                breaks(
                    r,
                    "cube-vmm-worker FD handoff has "@ + decimal(descriptors as nat)
                        + " descriptors, maximum is "@ + decimal(MAX_HANDOFF_FDS as nat),
                    false,
                ) && *final(self) == *old(self)
            } else {
                r matches Ok(request) && request.magic@ == PROTOCOL_MAGIC@ && request.version
                    == PROTOCOL_VERSION && request.request_id == old(self).next_request_id
                    && request.command == command && *final(self) == (WorkerClient {
                    next_request_id: following_id(old(self).next_request_id),
                    ..*old(self)
                })
            },
    {
        if descriptors > MAX_HANDOFF_FDS {
            return Err(
                RequestFailure::local(
                    "cube-vmm-worker FD handoff has ".to_owned().concat(
                        decimal_text(descriptors as u128).as_str(),
                    ).concat(" descriptors, maximum is ").concat(
                        decimal_text(MAX_HANDOFF_FDS as u128).as_str(),
                    ),
                ),
            );
        }
        let request_id: u64 = self.next_request_id;
        self.next_request_id = if request_id == u64::MAX {
            0
        } else {
            request_id + 1
        };
        Ok(
            WorkerRequest {
                magic: PROTOCOL_MAGIC.to_owned(),
                version: PROTOCOL_VERSION,
                request_id,
                command,
            },
        )
    }

    /// Whether the worker has to be ended after a request; it is not asked
    /// again then.
    pub fn settle(&mut self, kind: CommandKind, result: &Result<WorkerReply, RequestFailure>) -> (end:
        bool)
        ensures
            end == (match result {
                Ok(_) => false,
                Err(failure) => ends_after(kind, failure.channel_failed),
            }),
            *final(self) == settled(
                *old(self),
                kind,
                match result {
                    Ok(_) => None,
                    Err(failure) => Some(failure.channel_failed),
                },
            ),
    {
        let end = match result {
            Ok(_) => false,
            Err(failure) => failure.channel_failed || poison_on_error(kind),
        };
        if end {
            self.poisoned = true;
        }
        end
    }

    /// The result of a request; `ending` is what came of ending the worker,
    /// where that was due.
    pub fn conclude(
        result: Result<WorkerReply, RequestFailure>,
        ending: &Option<Result<(), String>>,
    ) -> (r: Result<WorkerReply, String>)
        ensures
            match result {
                Ok(answer) => r == Ok::<WorkerReply, String>(answer),
                Err(failure) => fails_with(r, with_termination(failure.message@, *ending)),
            },
    {
        match result {
            Ok(answer) => Ok(answer),
            Err(failure) => match ending {
                Some(Err(message)) => Err(
                    failure.message.concat("; exact worker termination failed: ").concat(
                        message.as_str(),
                    ),
                ),
                _ => Err(failure.message),
            },
        }
    }

    /// Whether the worker still has to be ended.
    pub fn ending_due(&self) -> (due: bool)
        ensures
            due == !self.reaped,
    {
        !self.reaped
    }

    /// Notes how the end of the worker went: one that failed is due again.
    pub fn ended(&mut self, ending: &Result<(), String>)
        ensures
            *final(self) == (WorkerClient {
                reaped: old(self).reaped || *ending is Ok,
                ..*old(self)
            }),
    {
        if ending.is_ok() {
            self.reaped = true;
        }
    }

    /// Notes that the event channel ended: the machine is lost.
    pub fn poison(&mut self)
        ensures
            *final(self) == (WorkerClient { poisoned: true, ..*old(self) }),
    {
        self.poisoned = true;
    }
}

/// What comes of a worker that did not stop when it was asked to: it is ended,
/// and only where that fails, too, is that an error.
pub fn stop_result(verb: &str, error: &str, ending: &Result<(), String>) -> (r: Result<(), String>)
    ensures
        match ending {
            Ok(_) => r is Ok,
            Err(message) => fails_with(
                r,
                verb@ + " cube-vmm-worker failed: "@ + error@ + "; exact termination failed: "@
                    + message@,
            ),
        },
{
    match ending {
        Ok(()) => Ok(()),
        Err(message) => Err(
            verb.to_owned().concat(" cube-vmm-worker failed: ").concat(error).concat(
                "; exact termination failed: ",
            ).concat(message.as_str()),
        ),
    }
}

/// What came through the event channel.
pub enum EventPacket {
    /// Nothing could be received.
    Broken,
    /// The worker has closed the channel.
    Closed,
    /// What was received is no event.
    Undecodable,
    Event { event: WorkerEvent, descriptors: usize },
}

/// What the shim is told of an event; `None` means that the channel is given
/// up, and the worker with it.
pub open spec fn passed_on(packet: EventPacket) -> Option<NotifyEvent> {
    match packet {
        EventPacket::Event { event, descriptors } => if descriptors > 0 || event is ProtocolError {
            None
        } else {
            Some(heard(event))
        },
        _ => None,
    }
}

/// What the shim is told of an event.
pub fn pass_on(packet: &EventPacket) -> (r: Option<NotifyEvent>)
    ensures
        r == passed_on(*packet),
{
    match packet {
        EventPacket::Event { event, descriptors } => {
            if *descriptors > 0 {
                return None;
            }
            match event {
                WorkerEvent::ProtocolError(_) => None,
                event => Some(notify_event(event)),
            }
        },
        _ => None,
    }
}

/// The text of a duration in messages.
pub uninterp spec fn duration_text(nanoseconds: u64) -> Seq<char>;

/// Formats a duration with std's `Debug` for `Duration`; the result is named
/// `duration_text`.
#[verifier::external_body]
fn show_duration(nanoseconds: u64) -> (text: String)
    ensures
        text@ == duration_text(nanoseconds),
{
    format!("{:?}", std::time::Duration::from_nanos(nanoseconds))
}

/// How long the end of a worker is awaited.
pub const CHILD_TIMEOUT_NS: u64 = 2_000_000_000;

/// How often it is looked whether a worker has ended.
pub const CHILD_PAUSE_MS: u64 = 10;

/// How long a greeting may take.
pub const HELLO_TIMEOUT_SECS: i64 = 2;

/// How long a command may take.
pub const COMMAND_TIMEOUT_SECS: i64 = 10;

/// How long the placement of a worker may take.
pub const PLACEMENT_DEADLINE_NS: u64 = 2_000_000_000;

/// How a worker is spawned.
#[derive(Debug, PartialEq, Eq)]
pub enum SpawnStage {
    /// The intent is made durable.
    Preparing,
    /// The process is started.
    Forking,
    /// The reader of its events is started.
    StartingReader,
    /// The channel is given the time limit of a greeting.
    LimitingGreeting,
    Greeting,
    /// The channel is given the time limit of a command.
    LimitingCommands,
    /// The descriptors of the process are checked.
    CheckingDescriptors,
    /// The process is moved to its place.
    Placing,
    /// The hypervisor is started.
    Launching,
    Ready,
    /// The process is ended because of an error, which is kept as it is where
    /// `bare` says so.
    Ending { error: String, bare: bool },
    Failed { message: String },
}

/// The contents of a [`SpawnStage`].
pub enum SpawnStageView {
    Preparing,
    Forking,
    StartingReader,
    LimitingGreeting,
    Greeting,
    LimitingCommands,
    CheckingDescriptors,
    Placing,
    Launching,
    Ready,
    Ending { error: Seq<char>, bare: bool },
    Failed { message: Seq<char> },
}

impl View for SpawnStage {
    type V = SpawnStageView;

    open spec fn view(&self) -> SpawnStageView {
        match self {
            SpawnStage::Preparing => SpawnStageView::Preparing,
            SpawnStage::Forking => SpawnStageView::Forking,
            SpawnStage::StartingReader => SpawnStageView::StartingReader,
            SpawnStage::LimitingGreeting => SpawnStageView::LimitingGreeting,
            SpawnStage::Greeting => SpawnStageView::Greeting,
            SpawnStage::LimitingCommands => SpawnStageView::LimitingCommands,
            SpawnStage::CheckingDescriptors => SpawnStageView::CheckingDescriptors,
            SpawnStage::Placing => SpawnStageView::Placing,
            SpawnStage::Launching => SpawnStageView::Launching,
            SpawnStage::Ready => SpawnStageView::Ready,
            SpawnStage::Ending { error, bare } => SpawnStageView::Ending {
                error: error@,
                bare: *bare,
            },
            SpawnStage::Failed { message } => SpawnStageView::Failed { message: message@ },
        }
    }
}

/// What the stages of a spawn are told: whether they succeeded, and of a
/// placement how long it took.
pub struct SpawnAnswer {
    pub result: Result<(), String>,
    pub elapsed_ns: u64,
}

/// A spawn of a worker.
#[derive(Debug, PartialEq, Eq)]
pub struct WorkerSpawn {
    /// Whether the worker has an owner that places it.
    pub placed: bool,
    /// Whether the hypervisor is started, too.
    pub launch: bool,
    /// The executable, for messages.
    pub executable: String,
    /// The process, once it was started.
    pub pid: u32,
    pub stage: SpawnStage,
}

/// The contents of a [`WorkerSpawn`].
pub struct WorkerSpawnView {
    pub placed: bool,
    pub launch: bool,
    pub executable: Seq<char>,
    pub pid: u32,
    pub stage: SpawnStageView,
}

impl View for WorkerSpawn {
    type V = WorkerSpawnView;

    open spec fn view(&self) -> WorkerSpawnView {
        WorkerSpawnView {
            placed: self.placed,
            launch: self.launch,
            executable: self.executable@,
            pid: self.pid,
            stage: self.stage@,
        }
    }
}

/// The stage that follows the placement.
pub open spec fn after_placement(launch: bool) -> SpawnStageView {
    if launch {
        SpawnStageView::Launching
    } else {
        SpawnStageView::Ready
    }
}

/// The stage that follows a stage that succeeded.
pub open spec fn stage_after(state: WorkerSpawnView, elapsed_ns: u64) -> SpawnStageView {
    match state.stage {
        SpawnStageView::Preparing => SpawnStageView::Forking,
        SpawnStageView::Forking => SpawnStageView::StartingReader,
        SpawnStageView::StartingReader => SpawnStageView::LimitingGreeting,
        SpawnStageView::LimitingGreeting => SpawnStageView::Greeting,
        SpawnStageView::Greeting => SpawnStageView::LimitingCommands,
        SpawnStageView::LimitingCommands => SpawnStageView::CheckingDescriptors,
        SpawnStageView::CheckingDescriptors => if state.placed {
            SpawnStageView::Placing
        } else {
            after_placement(state.launch)
        },
        SpawnStageView::Placing => if elapsed_ns > PLACEMENT_DEADLINE_NS {
            SpawnStageView::Ending {
                error: "place cube-vmm-worker "@ + decimal(state.pid as nat) + " exceeded "@
                    + duration_text(PLACEMENT_DEADLINE_NS) + ": "@ + duration_text(elapsed_ns),
                bare: false,
            }
        } else {
            after_placement(state.launch)
        },
        SpawnStageView::Launching => SpawnStageView::Ready,
        other => other,
    }
}

/// The stage that follows a stage that failed: once there is a process, it is
/// ended.
pub open spec fn stage_after_failure(state: WorkerSpawnView, error: Seq<char>) -> SpawnStageView {
    match state.stage {
        SpawnStageView::Preparing => SpawnStageView::Failed { message: error },
        SpawnStageView::Forking => SpawnStageView::Failed {
            message: "spawn cube-vmm-worker "@ + state.executable + ": "@ + error,
        },
        SpawnStageView::StartingReader => SpawnStageView::Ending {
            error: "spawn cube-vmm-worker event reader: "@ + error,
            bare: true,
        },
        SpawnStageView::Placing => SpawnStageView::Ending {
            error: "place cube-vmm-worker "@ + decimal(state.pid as nat) + ": "@ + error,
            bare: false,
        },
        _ => SpawnStageView::Ending { error, bare: false },
    }
}

/// The transitions of a spawn.
pub open spec fn spawn_next(state: WorkerSpawnView, answer: SpawnAnswer) -> WorkerSpawnView {
    let stage = match state.stage {
        SpawnStageView::Ready | SpawnStageView::Failed { .. } => state.stage,
        SpawnStageView::Ending { error, bare } => SpawnStageView::Failed {
            message: if bare {
                error
            } else {
                with_termination(error, Some(answer.result))
            },
        },
        _ => match answer.result {
            Ok(_) => stage_after(state, answer.elapsed_ns),
            Err(error) => stage_after_failure(state, error@),
        },
    };
    WorkerSpawnView { stage, ..state }
}

impl WorkerSpawn {
    /// A spawn that is about to begin: an owner's intent comes first.
    pub fn start(placed: bool, launch: bool, executable: String) -> (state: Self)
        ensures
            state@ == (WorkerSpawnView {
                placed,
                launch,
                executable: executable@,
                pid: 0,
                stage: if placed {
                    SpawnStageView::Preparing
                } else {
                    SpawnStageView::Forking
                },
            }),
    {
        WorkerSpawn {
            placed,
            launch,
            executable,
            pid: 0,
            stage: if placed {
                SpawnStage::Preparing
            } else {
                SpawnStage::Forking
            },
        }
    }

    /// Notes the process that was started.
    pub fn forked(&mut self, pid: u32)
        ensures
            final(self)@ == (WorkerSpawnView { pid, ..old(self)@ }),
    {
        self.pid = pid;
    }

    /// The spawn after an answer to its stage.
    pub fn step(self, answer: SpawnAnswer) -> (next: Self)
        ensures
            next@ == spawn_next(self@, answer),
    {
        let placed = self.placed;
        let launch = self.launch;
        let pid: u32 = self.pid;
        let executable = self.executable;
        let after = if launch {
            SpawnStage::Launching
        } else {
            SpawnStage::Ready
        };
        let stage = match (self.stage, answer.result) {
            (SpawnStage::Ready, _) => SpawnStage::Ready,
            (SpawnStage::Failed { message }, _) => SpawnStage::Failed { message },
            (SpawnStage::Ending { error, bare }, ending) => SpawnStage::Failed {
                message: if bare {
                    error
                } else {
                    terminate_after_error(error.as_str(), &ending)
                },
            },
            (SpawnStage::Preparing, Ok(_)) => SpawnStage::Forking,
            (SpawnStage::Forking, Ok(_)) => SpawnStage::StartingReader,
            (SpawnStage::StartingReader, Ok(_)) => SpawnStage::LimitingGreeting,
            (SpawnStage::LimitingGreeting, Ok(_)) => SpawnStage::Greeting,
            (SpawnStage::Greeting, Ok(_)) => SpawnStage::LimitingCommands,
            (SpawnStage::LimitingCommands, Ok(_)) => SpawnStage::CheckingDescriptors,
            (SpawnStage::CheckingDescriptors, Ok(_)) => if placed {
                SpawnStage::Placing
            } else {
                after
            },
            (SpawnStage::Placing, Ok(_)) => if answer.elapsed_ns > PLACEMENT_DEADLINE_NS {
                SpawnStage::Ending {
                    error: "place cube-vmm-worker ".to_owned().concat(
                        decimal_text(pid as u128).as_str(),
                    ).concat(" exceeded ").concat(
                        show_duration(PLACEMENT_DEADLINE_NS).as_str(),
                    ).concat(": ").concat(show_duration(answer.elapsed_ns).as_str()),
                    bare: false,
                }
            } else {
                after
            },
            (SpawnStage::Launching, Ok(_)) => SpawnStage::Ready,
            (SpawnStage::Preparing, Err(message)) => SpawnStage::Failed { message },
            (SpawnStage::Forking, Err(error)) => SpawnStage::Failed {
                message: "spawn cube-vmm-worker ".to_owned().concat(executable.as_str()).concat(
                    ": ",
                ).concat(error.as_str()),
            },
            (SpawnStage::StartingReader, Err(error)) => SpawnStage::Ending {
                error: "spawn cube-vmm-worker event reader: ".to_owned().concat(error.as_str()),
                bare: true,
            },
            (SpawnStage::Placing, Err(error)) => SpawnStage::Ending {
                error: "place cube-vmm-worker ".to_owned().concat(
                    decimal_text(pid as u128).as_str(),
                ).concat(": ").concat(error.as_str()),
                bare: false,
            },
            (_, Err(error)) => SpawnStage::Ending { error, bare: false },
        };
        WorkerSpawn { placed, launch, executable, pid, stage }
    }
}

/// The end of a child process.
#[derive(Debug, PartialEq, Eq)]
pub enum ChildEnding {
    /// Has it ended already?
    Inspecting,
    /// It is killed.
    Killing,
    /// It could not be killed: has it ended meanwhile?
    InspectingAgain { error: String },
    /// Its end is awaited.
    Waiting,
    Ended,
    Failed { message: String },
}

/// The contents of a [`ChildEnding`].
pub enum ChildEndingView {
    Inspecting,
    Killing,
    InspectingAgain { error: Seq<char> },
    Waiting,
    Ended,
    Failed { message: Seq<char> },
}

impl View for ChildEnding {
    type V = ChildEndingView;

    open spec fn view(&self) -> ChildEndingView {
        match self {
            ChildEnding::Inspecting => ChildEndingView::Inspecting,
            ChildEnding::Killing => ChildEndingView::Killing,
            ChildEnding::InspectingAgain { error } => ChildEndingView::InspectingAgain {
                error: error@,
            },
            ChildEnding::Waiting => ChildEndingView::Waiting,
            ChildEnding::Ended => ChildEndingView::Ended,
            ChildEnding::Failed { message } => ChildEndingView::Failed { message: message@ },
        }
    }
}

/// The transitions of a child's end: `Ok` tells whether it has ended, or that
/// the signal was sent; `expired` whether its end was awaited long enough.
pub open spec fn child_next(
    state: ChildEndingView,
    answer: Result<bool, String>,
    expired: bool,
    pid: u32,
    timeout_ns: u64,
) -> ChildEndingView {
    match state {
        ChildEndingView::Inspecting => match answer {
            Err(error) => ChildEndingView::Failed {
                message: "inspect cube-vmm-worker before termination: "@ + error@,
            },
            Ok(ended) => if ended {
                ChildEndingView::Ended
            } else {
                ChildEndingView::Killing
            },
        },
        ChildEndingView::Killing => match answer {
            Err(error) => ChildEndingView::InspectingAgain { error: error@ },
            Ok(_) => ChildEndingView::Waiting,
        },
        ChildEndingView::InspectingAgain { error } => match answer {
            Err(again) => ChildEndingView::Failed {
                message: "terminate cube-vmm-worker: "@ + error
                    + "; inspect after kill failure: "@ + again@,
            },
            Ok(ended) => if ended {
                ChildEndingView::Ended
            } else {
                ChildEndingView::Failed { message: "terminate cube-vmm-worker: "@ + error }
            },
        },
        ChildEndingView::Waiting => match answer {
            Err(error) => ChildEndingView::Failed {
                message: "wait for cube-vmm-worker: "@ + error@,
            },
            Ok(ended) => if ended {
                ChildEndingView::Ended
            } else if expired {
                ChildEndingView::Failed {
                    message: "timed out waiting "@ + duration_text(timeout_ns)
                        + " for cube-vmm-worker "@ + decimal(pid as nat),
                }
            } else {
                ChildEndingView::Waiting
            },
        },
        other => other,
    }
}

impl ChildEnding {
    /// The end of a child that may run.
    pub fn start() -> (state: Self)
        ensures
            state@ == ChildEndingView::Inspecting,
    {
        ChildEnding::Inspecting
    }

    /// The wait for a child that ends by itself.
    pub fn wait() -> (state: Self)
        ensures
            state@ == ChildEndingView::Waiting,
    {
        ChildEnding::Waiting
    }

    /// The end of a child after an answer.
    pub fn step(self, answer: Result<bool, String>, expired: bool, pid: u32, timeout_ns: u64) -> (next:
        Self)
        ensures
            next@ == child_next(self@, answer, expired, pid, timeout_ns),
    {
        match (self, answer) {
            (ChildEnding::Inspecting, Err(error)) => ChildEnding::Failed {
                message: "inspect cube-vmm-worker before termination: ".to_owned().concat(
                    error.as_str(),
                ),
            },
            (ChildEnding::Inspecting, Ok(ended)) => if ended {
                ChildEnding::Ended
            } else {
                ChildEnding::Killing
            },
            (ChildEnding::Killing, Err(error)) => ChildEnding::InspectingAgain { error },
            (ChildEnding::Killing, Ok(_)) => ChildEnding::Waiting,
            (ChildEnding::InspectingAgain { error }, Err(again)) => ChildEnding::Failed {
                message: "terminate cube-vmm-worker: ".to_owned().concat(error.as_str()).concat(
                    "; inspect after kill failure: ",
                ).concat(again.as_str()),
            },
            (ChildEnding::InspectingAgain { error }, Ok(ended)) => if ended {
                ChildEnding::Ended
            } else {
                ChildEnding::Failed {
                    message: "terminate cube-vmm-worker: ".to_owned().concat(error.as_str()),
                }
            },
            (ChildEnding::Waiting, Err(error)) => ChildEnding::Failed {
                message: "wait for cube-vmm-worker: ".to_owned().concat(error.as_str()),
            },
            (ChildEnding::Waiting, Ok(ended)) => if ended {
                ChildEnding::Ended
            } else if expired {
                ChildEnding::Failed {
                    message: "timed out waiting ".to_owned().concat(
                        show_duration(timeout_ns).as_str(),
                    ).concat(" for cube-vmm-worker ").concat(decimal_text(pid as u128).as_str()),
                }
            } else {
                ChildEnding::Waiting
            },
            (other, _) => other,
        }
    }
}

/// The hypervisor is started only in a worker that has greeted, shows the
/// allowed descriptors and, where it has an owner, was placed in time; the
/// owner's intent comes before the process.
pub proof fn law_launch_follows_the_gates(state: WorkerSpawnView, answer: SpawnAnswer)
    ensures
        ({
            let next = spawn_next(state, answer).stage;
            &&& next is Launching && !(state.stage is Launching) ==> answer.result is Ok && (
            state.stage is Placing && answer.elapsed_ns <= PLACEMENT_DEADLINE_NS
                || state.stage is CheckingDescriptors && !state.placed)
            &&& next is Placing && !(state.stage is Placing) ==> answer.result is Ok
                && state.stage is CheckingDescriptors
            &&& next is CheckingDescriptors && !(state.stage is CheckingDescriptors)
                ==> answer.result is Ok && state.stage is LimitingCommands
            &&& next is LimitingCommands && !(state.stage is LimitingCommands)
                ==> answer.result is Ok && state.stage is Greeting
            &&& next is Forking && !(state.stage is Forking) ==> answer.result is Ok
                && state.stage is Preparing
        }),
{
}

/// Once there is a process, every failure ends it before the spawn fails.
pub proof fn law_failed_spawn_ends_its_process(state: WorkerSpawnView, answer: SpawnAnswer)
    requires
        spawn_next(state, answer).stage is Failed,
    ensures
        state.stage is Failed || state.stage is Ending || state.stage is Preparing
            || state.stage is Forking,
{
}

/// A worker that a failed request poisoned is not asked again: that is every
/// failure but that of a greeting or a ping that was answered.
pub proof fn law_poisoned_workers_are_not_asked(
    client: WorkerClient,
    kind: CommandKind,
    request_id: u64,
    reply: Reply,
)
    ensures
        exchanged(request_id, kind, reply) matches Err((_, channel)) ==> (channel || poisons(kind)
            ==> usable_fault(settled(client, kind, Some(channel))) is Some),
        usable_fault(client) is Some ==> forall|broken: Option<bool>|
            usable_fault(#[trigger] settled(client, kind, broken)) is Some,
{
}

/// An answer is taken only from the response to its own request.
pub proof fn law_only_the_own_response_answers(kind: CommandKind, request_id: u64, reply: Reply)
    ensures
        exchanged(request_id, kind, reply) matches Ok(answer) ==> (reply matches Reply::Received {
            descriptors,
            decoded: Ok(response),
        } && descriptors == 0 && answers(response, request_id) && response.result
            == Ok::<WorkerReply, String>(answer) && reply_fits(kind, answer)),
{
}

/// A response under the request's number, of this protocol and version and
/// without descriptors, answers it: with its reply where that fits the command,
/// and with the worker's error, which leaves the channel whole.
pub proof fn law_own_response_answers(
    request_id: u64,
    kind: CommandKind,
    response: WorkerResponse,
    reply: WorkerReply,
    error: String,
)
    requires
        response.magic@ == "cube-vmm-worker"@,
        response.version == 1,
        response.request_id == request_id,
    ensures
        ({
            let found = exchanged(
                request_id,
                kind,
                Reply::Received { descriptors: 0, decoded: Ok(response) },
            );
            let fits = (kind == CommandKind::AddDevice) == (reply is ActionPayload);
            &&& response.result == Ok::<WorkerReply, String>(reply) && fits ==> found == Ok::<
                WorkerReply,
                (Seq<char>, bool),
            >(reply)
            &&& response.result == Ok::<WorkerReply, String>(reply) && !fits ==> (found is Err
                && found->Err_0.1)
            &&& response.result == Err::<WorkerReply, String>(error) ==> found == Err::<
                WorkerReply,
                (Seq<char>, bool),
            >((error@, false))
        }),
{
}

/// What breaks the exchange breaks the channel, but for a request that could
/// not be encoded, which was never sent.
pub proof fn law_broken_exchange_breaks_the_channel(
    request_id: u64,
    kind: CommandKind,
    error: String,
    descriptors: usize,
    decoded: Result<WorkerResponse, String>,
)
    ensures
        exchanged(request_id, kind, Reply::Unencodable { error }) == Err::<
            WorkerReply,
            (Seq<char>, bool),
        >(("encode cube-vmm-worker request: "@ + error@, false)),
        exchanged(request_id, kind, Reply::Broken { error }) == Err::<
            WorkerReply,
            (Seq<char>, bool),
        >((error@, true)),
        exchanged(request_id, kind, Reply::Closed) == Err::<WorkerReply, (Seq<char>, bool)>(
            ("cube-vmm-worker closed the control channel"@, true),
        ),
        descriptors > 0 || decoded is Err ==> ({
            let found = exchanged(request_id, kind, Reply::Received { descriptors, decoded });
            found is Err && found->Err_0.1
        }),
{
}

/// Requests are numbered one after the other.
pub proof fn law_requests_are_numbered_in_turn(request_id: u64)
    ensures
        request_id < u64::MAX ==> following_id(request_id) == request_id + 1,
        request_id == u64::MAX ==> following_id(request_id) == 0,
{
}

/// A worker is given up after a broken channel, and after the failure of any
/// command but a greeting or a ping; what succeeded changes nothing, and what
/// was given up stays given up.
pub proof fn law_failed_workers_are_given_up(
    client: WorkerClient,
    kind: CommandKind,
    channel: bool,
)
    ensures
        settled(client, kind, None) == client,
        settled(client, kind, Some(channel)).poisoned == (client.poisoned || channel || (kind
            != CommandKind::Hello && kind != CommandKind::Ping)),
        settled(client, kind, Some(channel)).reaped == client.reaped,
        settled(client, kind, Some(channel)).next_request_id == client.next_request_id,
        (usable_fault(client) is Some) == client.poisoned,
{
}

/// A failed ending of a worker is told behind the failure that led to it.
pub proof fn law_failed_ending_is_told(error: Seq<char>, message: String)
    ensures
        with_termination(error, None) == error,
        with_termination(error, Some(Ok(()))) == error,
        with_termination(error, Some(Err(message))) == error
            + "; exact worker termination failed: "@ + message@,
{
}

/// An event is passed on as what it says, unless it carries descriptors or
/// tells of a broken protocol; a channel that broke passes nothing on.
pub proof fn law_events_are_passed_on(event: WorkerEvent, descriptors: usize)
    ensures
        descriptors == 0 && !(event is ProtocolError) ==> passed_on(
            EventPacket::Event { event, descriptors },
        ) == Some(heard(event)),
        descriptors > 0 || event is ProtocolError ==> passed_on(
            EventPacket::Event { event, descriptors },
        ) is None,
        passed_on(EventPacket::Broken) is None,
        passed_on(EventPacket::Closed) is None,
        passed_on(EventPacket::Undecodable) is None,
{
}

/// An undisturbed spawn forks, greets and checks its worker, places it where it
/// has a place, launches it where that is asked for, and is ready.
pub proof fn law_undisturbed_spawn_is_ready(state: WorkerSpawnView, elapsed_ns: u64)
    requires
        state.stage is Preparing,
        elapsed_ns <= 2_000_000_000,
    ensures
        ({
            let ok = SpawnAnswer { result: Ok(()), elapsed_ns };
            let a = spawn_next(state, ok);
            let b = spawn_next(a, ok);
            let c = spawn_next(b, ok);
            let d = spawn_next(c, ok);
            let e = spawn_next(d, ok);
            let f = spawn_next(e, ok);
            let g = spawn_next(f, ok);
            let h = spawn_next(g, ok);
            let i = spawn_next(h, ok);
            &&& a == (WorkerSpawnView { stage: SpawnStageView::Forking, ..state })
            &&& b.stage == SpawnStageView::StartingReader
            &&& c.stage == SpawnStageView::LimitingGreeting
            &&& d.stage == SpawnStageView::Greeting
            &&& e.stage == SpawnStageView::LimitingCommands
            &&& f.stage == SpawnStageView::CheckingDescriptors
            &&& state.placed ==> g.stage == SpawnStageView::Placing
            &&& state.placed && state.launch ==> h.stage == SpawnStageView::Launching
            &&& !state.placed && state.launch ==> g.stage == SpawnStageView::Launching
            &&& !state.placed && !state.launch ==> g.stage == SpawnStageView::Ready
            &&& i == (WorkerSpawnView { stage: SpawnStageView::Ready, ..state })
        }),
{
}

/// A placement that took more than two seconds ends the worker, and so does
/// each failure once it was forked, with the failure told; before that nothing
/// is to end.
pub proof fn law_failed_spawn_is_told(
    state: WorkerSpawnView,
    error: String,
    elapsed_ns: u64,
    ending: Result<(), String>,
    told: Seq<char>,
)
    ensures
        ({
            let failed = spawn_next(state, SpawnAnswer { result: Err(error), elapsed_ns });
            let late = spawn_next(state, SpawnAnswer { result: Ok(()), elapsed_ns });
            &&& state.stage is Preparing ==> failed.stage == (SpawnStageView::Failed {
                message: error@,
            })
            &&& state.stage is Forking ==> failed.stage == (SpawnStageView::Failed {
                message: "spawn cube-vmm-worker "@ + state.executable + ": "@ + error@,
            })
            &&& state.stage is StartingReader ==> failed.stage == (SpawnStageView::Ending {
                error: "spawn cube-vmm-worker event reader: "@ + error@,
                bare: true,
            })
            &&& state.stage is Placing ==> failed.stage == (SpawnStageView::Ending {
                error: "place cube-vmm-worker "@ + decimal(state.pid as nat) + ": "@ + error@,
                bare: false,
            })
            &&& state.stage is Greeting || state.stage is LimitingGreeting || state.stage
                is LimitingCommands || state.stage is CheckingDescriptors || state.stage
                is Launching ==> failed.stage == (SpawnStageView::Ending {
                error: error@,
                bare: false,
            })
            &&& state.stage is Placing && elapsed_ns > 2_000_000_000 ==> late.stage is Ending
            &&& state.stage is Ready || state.stage is Failed ==> failed == state && late == state
        }),
        state.stage == (SpawnStageView::Ending { error: told, bare: true }) ==> spawn_next(
            state,
            SpawnAnswer { result: ending, elapsed_ns },
        ).stage == (SpawnStageView::Failed { message: told }),
        state.stage == (SpawnStageView::Ending { error: told, bare: false }) && ending is Ok
            ==> spawn_next(state, SpawnAnswer { result: ending, elapsed_ns }).stage == (
        SpawnStageView::Failed { message: told }),
        state.stage == (SpawnStageView::Ending { error: told, bare: false }) && ending is Err
            ==> spawn_next(state, SpawnAnswer { result: ending, elapsed_ns }).stage == (
        SpawnStageView::Failed {
            message: told + "; exact worker termination failed: "@ + ending->Err_0@,
        }),
{
}

/// A worker that lives is killed and waited for until it is gone; one that is
/// gone already is not killed; and one that is still there after its time, or
/// could not be killed, is a failure.
pub proof fn law_living_worker_is_killed(
    expired: bool,
    pid: u32,
    timeout_ns: u64,
    error: String,
    kill: Seq<char>,
)
    ensures
        child_next(ChildEndingView::Inspecting, Ok(true), expired, pid, timeout_ns)
            == ChildEndingView::Ended,
        child_next(ChildEndingView::Inspecting, Ok(false), expired, pid, timeout_ns)
            == ChildEndingView::Killing,
        child_next(ChildEndingView::Killing, Ok(true), expired, pid, timeout_ns)
            == ChildEndingView::Waiting,
        child_next(ChildEndingView::Killing, Ok(false), expired, pid, timeout_ns)
            == ChildEndingView::Waiting,
        child_next(ChildEndingView::Killing, Err(error), expired, pid, timeout_ns) == (
        ChildEndingView::InspectingAgain { error: error@ }),
        child_next(
            ChildEndingView::InspectingAgain { error: kill },
            Ok(true),
            expired,
            pid,
            timeout_ns,
        ) == ChildEndingView::Ended,
        child_next(
            ChildEndingView::InspectingAgain { error: kill },
            Ok(false),
            expired,
            pid,
            timeout_ns,
        ) == (ChildEndingView::Failed { message: "terminate cube-vmm-worker: "@ + kill }),
        child_next(ChildEndingView::Waiting, Ok(true), expired, pid, timeout_ns)
            == ChildEndingView::Ended,
        child_next(ChildEndingView::Waiting, Ok(false), false, pid, timeout_ns)
            == ChildEndingView::Waiting,
        child_next(ChildEndingView::Waiting, Ok(false), true, pid, timeout_ns) is Failed,
        child_next(ChildEndingView::Waiting, Err(error), expired, pid, timeout_ns) is Failed,
        child_next(ChildEndingView::Ended, Err(error), expired, pid, timeout_ns)
            == ChildEndingView::Ended,
{
}

/// A failed request is told with its message and with whether it broke the
/// channel.
pub proof fn law_failures_tell_of_the_channel(
    failure: RequestFailure,
    message: Seq<char>,
    channel: bool,
    reply: WorkerReply,
)
    ensures
        breaks::<WorkerReply>(Err(failure), message, channel) == (failure.message@ == message
            && failure.channel_failed == channel),
        !breaks::<WorkerReply>(Ok(reply), message, channel),
{
}

} // verus!
