//! The protocol between a shim and its VMM worker process: one request at a
//! time, each answered by one response, and events beside them.
use vstd::prelude::*;

use crate::paths::{join, joined, last_name, parent_path, parent_spec, rooted, is_rooted, file_name};
use crate::target::passes_unless;
use crate::text::{
    decimal, decimal_text, fails_with, opt_view, outcome, parse_i32, parse_i32_message, parse_u32,
    parse_u32_message, quote, quoted, signed_decimal, signed_decimal_text, signed_value, text_eq,
    unsigned_value,
};
use crate::vm_config::LogLevel;

verus! {

pub const PROTOCOL_MAGIC: &'static str = "cube-vmm-worker";

/// The version of the worker protocol.
pub const PROTOCOL_VERSION: u16 = 1;

pub const MAX_PACKET_SIZE: usize = 2_097_152;

pub const MAX_HANDOFF_FDS: usize = 64;

pub const CONTROL_FD_ENV: &'static str = "CUBE_VMM_WORKER_CONTROL_FD";

pub const EVENT_FD_ENV: &'static str = "CUBE_VMM_WORKER_EVENT_FD";

pub const WORKER_PATH_ENV: &'static str = "CUBE_VMM_WORKER_PATH";

pub const BACKEND_ENV: &'static str = "CUBE_VMM_BACKEND";

pub const NONCE_ENV: &'static str = "CUBE_VMM_WORKER_NONCE";

pub const PARENT_PID_ENV: &'static str = "CUBE_VMM_WORKER_PARENT_PID";

/// Who places a worker process: its owner makes the intent durable before the
/// worker is spawned, and moves the worker before it is launched.
pub trait WorkerPlacement {
    fn prepare_vmm_worker_spawn(
        &self,
        executable: &str,
        nonce: &str,
        protocol_version: u16,
    ) -> Result<(), String>;

    fn place_vmm_worker(&self, pid: u32) -> Result<(), String>;
}

/// What a shim proves itself with.
#[derive(Debug, PartialEq, Eq)]
pub struct HelloConfig {
    pub nonce: String,
    pub parent_pid: u32,
}

/// What a worker is launched with.
#[derive(Debug, PartialEq, Eq)]
pub struct LaunchConfig {
    pub sandbox_id: String,
    pub log_level: u8,
    pub http_path: Option<String>,
}

impl LaunchConfig {
    pub fn new(sandbox_id: String, log_level: LogLevel, http_path: Option<String>) -> (config: Self)
        ensures
            config.sandbox_id == sandbox_id,
            config.log_level == wire_level(log_level),
            config.http_path == http_path,
    {
        LaunchConfig { sandbox_id, log_level: level_to_wire(log_level), http_path }
    }
}

/// A command to a worker; `P` stands for what the hypervisor is told.
#[derive(Debug, PartialEq, Eq)]
pub enum WorkerCommand<P> {
    Hello(HelloConfig),
    Launch(LaunchConfig),
    Ping,
    CreateVm(P),
    BootVm,
    JoinVmm,
    SnapshotVm { path: String, snapshot_type: P },
    PauseVm,
    ResumeVm,
    RestoreVm(P),
    SetFs(P),
    AddDevice(P),
    RemoveDevice(P),
    DeleteVm,
    PauseToSnapshot(P),
    ResumeFromSnapshot(P),
    ShutdownWorker,
}

/// Which command it is.
#[derive(Clone, Copy, Debug, PartialEq, Eq, Structural)]
pub enum CommandKind {
    Hello,
    Launch,
    Ping,
    CreateVm,
    BootVm,
    JoinVmm,
    SnapshotVm,
    PauseVm,
    ResumeVm,
    RestoreVm,
    SetFs,
    AddDevice,
    RemoveDevice,
    DeleteVm,
    PauseToSnapshot,
    ResumeFromSnapshot,
    ShutdownWorker,
}

impl<P> WorkerCommand<P> {
    /// Which command it is.
    pub open spec fn kind_of(self) -> CommandKind {
        match self {
            WorkerCommand::Hello(_) => CommandKind::Hello,
            WorkerCommand::Launch(_) => CommandKind::Launch,
            WorkerCommand::Ping => CommandKind::Ping,
            WorkerCommand::CreateVm(_) => CommandKind::CreateVm,
            WorkerCommand::BootVm => CommandKind::BootVm,
            WorkerCommand::JoinVmm => CommandKind::JoinVmm,
            WorkerCommand::SnapshotVm { .. } => CommandKind::SnapshotVm,
            WorkerCommand::PauseVm => CommandKind::PauseVm,
            WorkerCommand::ResumeVm => CommandKind::ResumeVm,
            WorkerCommand::RestoreVm(_) => CommandKind::RestoreVm,
            WorkerCommand::SetFs(_) => CommandKind::SetFs,
            WorkerCommand::AddDevice(_) => CommandKind::AddDevice,
            WorkerCommand::RemoveDevice(_) => CommandKind::RemoveDevice,
            WorkerCommand::DeleteVm => CommandKind::DeleteVm,
            WorkerCommand::PauseToSnapshot(_) => CommandKind::PauseToSnapshot,
            WorkerCommand::ResumeFromSnapshot(_) => CommandKind::ResumeFromSnapshot,
            WorkerCommand::ShutdownWorker => CommandKind::ShutdownWorker,
        }
    }

    /// Which command it is.
    pub fn kind(&self) -> (kind: CommandKind)
        ensures
            kind == self.kind_of(),
    {
        match self {
            WorkerCommand::Hello(_) => CommandKind::Hello,
            WorkerCommand::Launch(_) => CommandKind::Launch,
            WorkerCommand::Ping => CommandKind::Ping,
            WorkerCommand::CreateVm(_) => CommandKind::CreateVm,
            WorkerCommand::BootVm => CommandKind::BootVm,
            WorkerCommand::JoinVmm => CommandKind::JoinVmm,
            WorkerCommand::SnapshotVm { .. } => CommandKind::SnapshotVm,
            WorkerCommand::PauseVm => CommandKind::PauseVm,
            WorkerCommand::ResumeVm => CommandKind::ResumeVm,
            WorkerCommand::RestoreVm(_) => CommandKind::RestoreVm,
            WorkerCommand::SetFs(_) => CommandKind::SetFs,
            WorkerCommand::AddDevice(_) => CommandKind::AddDevice,
            WorkerCommand::RemoveDevice(_) => CommandKind::RemoveDevice,
            WorkerCommand::DeleteVm => CommandKind::DeleteVm,
            WorkerCommand::PauseToSnapshot(_) => CommandKind::PauseToSnapshot,
            WorkerCommand::ResumeFromSnapshot(_) => CommandKind::ResumeFromSnapshot,
            WorkerCommand::ShutdownWorker => CommandKind::ShutdownWorker,
        }
    }
}

/// Whether the failure of a command poisons the worker: only a greeting and a
/// ping may fail without that.
pub open spec fn poisons(kind: CommandKind) -> bool {
    kind != CommandKind::Hello && kind != CommandKind::Ping
}

/// Whether the failure of a command poisons the worker.
pub fn poison_on_error(kind: CommandKind) -> (r: bool)
    ensures
        r == poisons(kind),
{
    match kind {
        CommandKind::Hello | CommandKind::Ping => false,
        _ => true,
    }
}

/// The answer to a command that succeeded.
#[derive(Debug, PartialEq, Eq)]
pub enum WorkerReply {
    Empty,
    ActionPayload(Option<Vec<u8>>),
}

/// A command on its way to the worker.
#[derive(Debug, PartialEq, Eq)]
pub struct WorkerRequest<P> {
    pub magic: String,
    pub version: u16,
    pub request_id: u64,
    pub command: WorkerCommand<P>,
}

/// An answer on its way from the worker.
#[derive(Debug, PartialEq, Eq)]
pub struct WorkerResponse {
    pub magic: String,
    pub version: u16,
    pub request_id: u64,
    pub result: Result<WorkerReply, String>,
}

/// What happens in a virtual machine.
#[derive(Clone, Copy, Debug, PartialEq, Eq, Structural)]
pub enum NotifyEvent {
    VmShutdown,
    VsockServerReady,
    RestoreReady,
    SysStart,
    MigrationComplete,
    MigrationFail,
}

/// What a worker tells beside its answers.
#[derive(Debug, PartialEq, Eq)]
pub enum WorkerEvent {
    VmShutdown,
    VsockServerReady,
    RestoreReady,
    SysStart,
    MigrationComplete,
    MigrationFail,
    ProtocolError(String),
}

/// What a worker tells of something that happens in its machine.
pub open spec fn told(event: NotifyEvent) -> WorkerEvent {
    match event {
        NotifyEvent::VmShutdown => WorkerEvent::VmShutdown,
        NotifyEvent::VsockServerReady => WorkerEvent::VsockServerReady,
        NotifyEvent::RestoreReady => WorkerEvent::RestoreReady,
        NotifyEvent::SysStart => WorkerEvent::SysStart,
        NotifyEvent::MigrationComplete => WorkerEvent::MigrationComplete,
        NotifyEvent::MigrationFail => WorkerEvent::MigrationFail,
    }
}

/// What a worker tells of something that happens in its machine.
pub fn worker_event(event: NotifyEvent) -> (r: WorkerEvent)
    ensures
        r == told(event),
{
    match event {
        NotifyEvent::VmShutdown => WorkerEvent::VmShutdown,
        NotifyEvent::VsockServerReady => WorkerEvent::VsockServerReady,
        NotifyEvent::RestoreReady => WorkerEvent::RestoreReady,
        NotifyEvent::SysStart => WorkerEvent::SysStart,
        NotifyEvent::MigrationComplete => WorkerEvent::MigrationComplete,
        NotifyEvent::MigrationFail => WorkerEvent::MigrationFail,
    }
}

/// What a worker's word means for the machine: a broken protocol means that the
/// machine is lost.
pub open spec fn heard(event: WorkerEvent) -> NotifyEvent {
    match event {
        WorkerEvent::VmShutdown => NotifyEvent::VmShutdown,
        WorkerEvent::VsockServerReady => NotifyEvent::VsockServerReady,
        WorkerEvent::RestoreReady => NotifyEvent::RestoreReady,
        WorkerEvent::SysStart => NotifyEvent::SysStart,
        WorkerEvent::MigrationComplete => NotifyEvent::MigrationComplete,
        WorkerEvent::MigrationFail => NotifyEvent::MigrationFail,
        WorkerEvent::ProtocolError(_) => NotifyEvent::VmShutdown,
    }
}

/// What a worker's word means for the machine.
pub fn notify_event(event: &WorkerEvent) -> (r: NotifyEvent)
    ensures
        r == heard(*event),
{
    match event {
        WorkerEvent::VmShutdown => NotifyEvent::VmShutdown,
        WorkerEvent::VsockServerReady => NotifyEvent::VsockServerReady,
        WorkerEvent::RestoreReady => NotifyEvent::RestoreReady,
        WorkerEvent::SysStart => NotifyEvent::SysStart,
        WorkerEvent::MigrationComplete => NotifyEvent::MigrationComplete,
        WorkerEvent::MigrationFail => NotifyEvent::MigrationFail,
        WorkerEvent::ProtocolError(_) => NotifyEvent::VmShutdown,
    }
}

/// What a worker tells of its machine arrives as it was.
pub proof fn law_events_round_trip(event: NotifyEvent)
    ensures
        heard(told(event)) == event,
{
}

/// A log level as a number.
pub open spec fn wire_level(level: LogLevel) -> u8 {
    match level {
        LogLevel::Off => 0,
        LogLevel::Error => 1,
        LogLevel::Warn => 2,
        LogLevel::Info => 3,
        LogLevel::Debug => 4,
        LogLevel::Trace => 5,
    }
}

/// A log level as a number.
pub fn level_to_wire(level: LogLevel) -> (wire: u8)
    ensures
        wire == wire_level(level),
{
    match level {
        LogLevel::Off => 0,
        LogLevel::Error => 1,
        LogLevel::Warn => 2,
        LogLevel::Info => 3,
        LogLevel::Debug => 4,
        LogLevel::Trace => 5,
    }
}

/// The log level of a number.
pub fn level_from_wire(wire: u8) -> (r: Result<LogLevel, String>)
    ensures
        match r {
            Ok(level) => wire == wire_level(level),
            Err(message) => wire > 5 && message@ == "invalid cube-vmm-worker log level "@ + decimal(
                wire as nat,
            ),
        },
{
    match wire {
        0 => Ok(LogLevel::Off),
        1 => Ok(LogLevel::Error),
        2 => Ok(LogLevel::Warn),
        3 => Ok(LogLevel::Info),
        4 => Ok(LogLevel::Debug),
        5 => Ok(LogLevel::Trace),
        _ => Err(
            "invalid cube-vmm-worker log level ".to_owned().concat(
                decimal_text(wire as u128).as_str(),
            ),
        ),
    }
}

/// Different log levels have different numbers.
pub proof fn law_wire_levels_are_distinct(a: LogLevel, b: LogLevel)
    ensures
        wire_level(a) == wire_level(b) ==> a == b,
        wire_level(a) <= 5,
{
}

/// Checks the size of a packet that is to be sent.
pub fn check_packet_size(size: usize) -> (r: Result<(), String>)
    ensures
        passes_unless(
            r,
            if size == 0 || size > MAX_PACKET_SIZE {
                Some("invalid worker packet size "@ + decimal(size as nat))
            } else {
                None
            },
        ),
{
    if size == 0 || size > MAX_PACKET_SIZE {
        return Err(
            "invalid worker packet size ".to_owned().concat(decimal_text(size as u128).as_str()),
        );
    }
    Ok(())
}

/// Checks that a packet was sent whole.
pub fn check_packet_sent(sent: usize, size: usize) -> (r: Result<(), String>)
    ensures
        passes_unless(
            r,
            if sent != size {
                Some(
                    "short worker seqpacket send: "@ + decimal(sent as nat) + "/"@ + decimal(
                        size as nat,
                    ),
                )
            } else {
                None
            },
        ),
{
    if sent != size {
        return Err(
            "short worker seqpacket send: ".to_owned().concat(
                decimal_text(sent as u128).as_str(),
            ).concat("/").concat(decimal_text(size as u128).as_str()),
        );
    }
    Ok(())
}

/// Whether a packet was received: nothing at all means that the other side has
/// closed the channel.
pub fn packet_received(received: usize, truncated: bool) -> (r: Result<bool, String>)
    ensures
        if received == 0 {
            r == Ok::<bool, String>(false)
        } else if truncated {
            fails_with(r, "truncated cube-vmm-worker packet"@)
        } else {
            r == Ok::<bool, String>(true)
        },
{
    if received == 0 {
        return Ok(false);
    }
    if truncated {
        return Err("truncated cube-vmm-worker packet".to_owned());
    }
    Ok(true)
}

/// The level of messages that belong to sockets.
pub const SOL_SOCKET: i32 = 1;

/// The type of messages that hand over descriptors.
pub const SCM_RIGHTS: i32 = 1;

/// The size of a descriptor in a message.
pub const FD_SIZE: usize = 4;

/// How many descriptors a control message hands over; `held` were handed over
/// by the same packet before.
pub open spec fn rights_in(length: usize, minimum: usize, level: i32, kind: i32, held: usize) -> Result<
    nat,
    Seq<char>,
> {
    if length < minimum {
        Err("decode worker control message: invalid header length"@)
    } else if level != SOL_SOCKET || kind != SCM_RIGHTS {
        Err(
            "decode worker control message: unsupported level="@ + signed_decimal(level as int)
                + " type="@ + signed_decimal(kind as int),
        )
    } else if length == minimum || (length - minimum) % (FD_SIZE as int) != 0 {
        Err("decode worker SCM_RIGHTS: invalid descriptor bytes"@)
    } else if held + (length - minimum) / (FD_SIZE as int) > MAX_HANDOFF_FDS {
        Err("worker packet has more than "@ + decimal(MAX_HANDOFF_FDS as nat) + " descriptors"@)
    } else {
        Ok(((length - minimum) / (FD_SIZE as int)) as nat)
    }
}

/// How many descriptors a control message hands over.
pub fn count_rights(length: usize, minimum: usize, level: i32, kind: i32, held: usize) -> (r: Result<
    usize,
    String,
>)
    ensures
        match rights_in(length, minimum, level, kind, held) {
            Err(message) => fails_with(r, message),
            Ok(count) => r matches Ok(found) && found == count,
        },
{
    if length < minimum {
        return Err("decode worker control message: invalid header length".to_owned());
    }
    if level != SOL_SOCKET || kind != SCM_RIGHTS {
        return Err(
            "decode worker control message: unsupported level=".to_owned().concat(
                signed_decimal_text(level as i64).as_str(),
            ).concat(" type=").concat(signed_decimal_text(kind as i64).as_str()),
        );
    }
    let bytes: usize = length - minimum;
    if bytes == 0 || bytes % FD_SIZE != 0 {
        return Err("decode worker SCM_RIGHTS: invalid descriptor bytes".to_owned());
    }
    let count: usize = bytes / FD_SIZE;
    if held > MAX_HANDOFF_FDS || count > MAX_HANDOFF_FDS - held {
        return Err(
            "worker packet has more than ".to_owned().concat(
                decimal_text(MAX_HANDOFF_FDS as u128).as_str(),
            ).concat(" descriptors"),
        );
    }
    Ok(count)
}

/// Checks a descriptor that was handed over.
pub fn check_right(descriptor: i32) -> (r: Result<(), String>)
    ensures
        passes_unless(
            r,
            if descriptor < 0 {
                Some("decode worker SCM_RIGHTS: negative descriptor"@)
            } else {
                None
            },
        ),
{
    if descriptor < 0 {
        return Err("decode worker SCM_RIGHTS: negative descriptor".to_owned());
    }
    Ok(())
}

/// Whether machines run in a worker process, by the setting.
pub open spec fn worker_backend(setting: Result<Option<String>, String>) -> Result<bool, Seq<char>> {
    match setting {
        Err(error) => Err("read "@ + BACKEND_ENV@ + ": "@ + error@),
        Ok(None) => Ok(true),
        Ok(Some(value)) => if value@ == "embedded"@ {
            Ok(false)
        } else if value@ == "worker"@ {
            Ok(true)
        } else {
            Err(
                "unsupported "@ + BACKEND_ENV@ + "="@ + quoted(value@)
                    + "; expected worker or embedded"@,
            )
        },
    }
}

/// Whether machines run in a worker process, by the setting; without one they
/// do.
pub fn worker_backend_enabled(setting: &Result<Option<String>, String>) -> (r: Result<bool, String>)
    ensures
        match worker_backend(*setting) {
            Err(message) => fails_with(r, message),
            Ok(enabled) => r == Ok::<bool, String>(enabled),
        },
{
    match setting {
        Err(error) => Err(
            "read ".to_owned().concat(BACKEND_ENV).concat(": ").concat(error.as_str()),
        ),
        Ok(None) => Ok(true),
        Ok(Some(value)) => {
            if text_eq(value.as_str(), "embedded") {
                return Ok(false);
            }
            if text_eq(value.as_str(), "worker") {
                return Ok(true);
            }
            Err(
                "unsupported ".to_owned().concat(BACKEND_ENV).concat("=").concat(
                    quote(value.as_str()).as_str(),
                ).concat("; expected worker or embedded"),
            )
        },
    }
}

/// Why a worker must not serve, if it must not: its parent and its control peer
/// have to be the shim.
pub open spec fn parent_fault(parent: i32, peer: Result<i32, String>, expected: u32) -> Option<Seq<char>> {
    if parent != expected as i32 {
        Some("CubeShim parent identity changed before worker gate"@)
    } else {
        match peer {
            Err(error) => Some("read cube-vmm-worker peer credentials: "@ + error@),
            Ok(pid) => if pid != expected as i32 {
                Some(
                    "cube-vmm-worker control peer pid "@ + signed_decimal(pid as int)
                        + " does not match CubeShim "@ + decimal(expected as nat),
                )
            } else {
                None
            },
        }
    }
}

/// Checks that the parent of a worker and its control peer are the shim.
pub fn check_worker_parent(parent: i32, peer: &Result<i32, String>, expected: u32) -> (r: Result<
    (),
    String,
>)
    ensures
        passes_unless(r, parent_fault(parent, *peer, expected)),
{
    let shim: i32 = expected as i32;
    if parent != shim {
        return Err("CubeShim parent identity changed before worker gate".to_owned());
    }
    match peer {
        Err(error) => Err(
            "read cube-vmm-worker peer credentials: ".to_owned().concat(error.as_str()),
        ),
        Ok(pid) => {
            if *pid != shim {
                return Err(
                    "cube-vmm-worker control peer pid ".to_owned().concat(
                        signed_decimal_text(*pid as i64).as_str(),
                    ).concat(" does not match CubeShim ").concat(
                        decimal_text(expected as u128).as_str(),
                    ),
                );
            }
            Ok(())
        },
    }
}

/// The number of an inherited descriptor, from the environment's text.
pub fn inherited_fd_number(name: &str, setting: &Result<String, String>) -> (r: Result<i32, String>)
    ensures
        match setting {
            Err(error) => fails_with(r, "read "@ + name@ + ": "@ + error@),
            Ok(text) => match signed_value(text@, i32::MIN as int, i32::MAX as int) {
                None => fails_with(r, "parse "@ + name@ + ": "@ + parse_i32_message(text@)),
                Some(fd) => r matches Ok(found) && found == fd,
            },
        },
{
    match setting {
        Err(error) => Err("read ".to_owned().concat(name).concat(": ").concat(error.as_str())),
        Ok(text) => match parse_i32(text.as_str()) {
            Err(error) => Err(
                "parse ".to_owned().concat(name).concat(": ").concat(error.as_str()),
            ),
            Ok(fd) => Ok(fd),
        },
    }
}

/// The pid of the process that spawned a worker, from the environment's text.
pub fn expected_parent(setting: &Result<String, String>) -> (r: Result<u32, String>)
    ensures
        match setting {
            Err(error) => fails_with(r, "read "@ + PARENT_PID_ENV@ + ": "@ + error@),
            Ok(text) => match unsigned_value(text@, u32::MAX as nat) {
                None => fails_with(
                    r,
                    "parse "@ + PARENT_PID_ENV@ + ": "@ + parse_u32_message(text@),
                ),
                Some(pid) => r matches Ok(found) && found == pid,
            },
        },
{
    match setting {
        Err(error) => Err(
            "read ".to_owned().concat(PARENT_PID_ENV).concat(": ").concat(error.as_str()),
        ),
        Ok(text) => match parse_u32(text.as_str()) {
            Err(error) => Err(
                "parse ".to_owned().concat(PARENT_PID_ENV).concat(": ").concat(error.as_str()),
            ),
            Ok(pid) => Ok(pid),
        },
    }
}

/// Checks that a worker got two descriptors.
pub fn check_distinct_channels(control: i32, event: i32) -> (r: Result<(), String>)
    ensures
        passes_unless(
            r,
            if control == event {
                Some(
                    CONTROL_FD_ENV@ + " and "@ + EVENT_FD_ENV@
                        + " must name distinct descriptors"@,
                )
            } else {
                None
            },
        ),
{
    if control == event {
        return Err(
            CONTROL_FD_ENV.to_owned().concat(" and ").concat(EVENT_FD_ENV).concat(
                " must name distinct descriptors",
            ),
        );
    }
    Ok(())
}

/// What the kernel says of an inherited descriptor.
pub struct DescriptorSighting {
    /// Whether it is open.
    pub open: Result<(), String>,
    /// Whether it is a socket of whole packets.
    pub seqpacket: Result<bool, String>,
}

/// Why an inherited descriptor cannot be a channel, if it cannot.
pub open spec fn channel_fault(name: Seq<char>, fd: i32, seen: DescriptorSighting) -> Option<Seq<char>> {
    if fd <= 2 {
        Some(name + " must be greater than stderr, got "@ + signed_decimal(fd as int))
    } else {
        match seen.open {
            Err(error) => Some(
                "validate "@ + name + " descriptor "@ + signed_decimal(fd as int) + ": "@ + error@,
            ),
            Ok(_) => match seen.seqpacket {
                Err(error) => Some("validate "@ + name + " socket type: "@ + error@),
                Ok(whole) => if !whole {
                    Some(
                        name + " descriptor "@ + signed_decimal(fd as int)
                            + " is not SOCK_SEQPACKET"@,
                    )
                } else {
                    None
                },
            },
        }
    }
}

/// Checks that an inherited descriptor can be a channel.
pub fn validate_inherited_seqpacket(name: &str, fd: i32, seen: &DescriptorSighting) -> (r: Result<
    (),
    String,
>)
    ensures
        passes_unless(r, channel_fault(name@, fd, *seen)),
{
    let number = signed_decimal_text(fd as i64);
    if fd <= 2 {
        return Err(
            name.to_owned().concat(" must be greater than stderr, got ").concat(number.as_str()),
        );
    }
    if let Err(error) = &seen.open {
        return Err(
            "validate ".to_owned().concat(name).concat(" descriptor ").concat(
                number.as_str(),
            ).concat(": ").concat(error.as_str()),
        );
    }
    match &seen.seqpacket {
        Err(error) => Err(
            "validate ".to_owned().concat(name).concat(" socket type: ").concat(error.as_str()),
        ),
        Ok(whole) => {
            if !*whole {
                return Err(
                    name.to_owned().concat(" descriptor ").concat(number.as_str()).concat(
                        " is not SOCK_SEQPACKET",
                    ),
                );
            }
            Ok(())
        },
    }
}

/// Whether numbers grow from each to the next.
pub open spec fn ascending(numbers: Seq<i32>) -> bool {
    forall|i: int, j: int| 0 <= i < j < numbers.len() ==> numbers[i] < numbers[j]
}

/// Numbers with commas between them.
pub open spec fn listed(numbers: Seq<i32>) -> Seq<char>
    decreases numbers.len(),
{
    if numbers.len() == 0 {
        Seq::empty()
    } else if numbers.len() == 1 {
        signed_decimal(numbers[0] as int)
    } else {
        listed(numbers.drop_last()) + ", "@ + signed_decimal(numbers.last() as int)
    }
}

/// The set of some numbers as it stands in messages.
pub open spec fn set_text(numbers: Seq<i32>) -> Seq<char> {
    "{"@ + listed(numbers) + "}"@
}

fn list_text(numbers: &Vec<i32>) -> (text: String)
    ensures
        text@ == set_text(numbers@),
{
    let mut text = "".to_owned();
    let mut i: usize = 0;
    proof {
        reveal_strlit("");
        assert(text@ =~= listed(numbers@.take(0)));
    }
    while i < numbers.len()
        invariant
            i <= numbers.len(),
            text@ == listed(numbers@.take(i as int)),
        decreases numbers.len() - i,
    {
        proof {
            assert(numbers@.take(i + 1).drop_last() =~= numbers@.take(i as int));
            assert(numbers@.take(i + 1).last() == numbers@[i as int]);
        }
        let number = signed_decimal_text(numbers[i] as i64);
        if i == 0 {
            text = number;
        } else {
            text = text.concat(", ").concat(number.as_str());
        }
        i = i + 1;
    }
    assert(numbers@.take(i as int) =~= numbers@);
    "{".to_owned().concat(text.as_str()).concat("}")
}

fn insert_ascending(numbers: &mut Vec<i32>, number: i32)
    requires
        ascending(old(numbers)@),
    ensures
        ascending(final(numbers)@),
        final(numbers)@.to_set() == old(numbers)@.to_set().insert(number),
{
    let ghost before = numbers@;
    let mut at: usize = 0;
    while at < numbers.len() && numbers[at] < number
        invariant
            at <= numbers@.len(),
            numbers@ == before,
            ascending(before),
            forall|k: int| 0 <= k < at ==> before[k] < number,
        decreases numbers@.len() - at,
    {
        at = at + 1;
    }
    if at < numbers.len() && numbers[at] == number {
        proof {
            assert(before.to_set().contains(before[at as int]));
            assert(numbers@.to_set() =~= before.to_set().insert(number));
        }
        return;
    }
    numbers.insert(at, number);
    proof {
        let after = numbers@;
        assert(after == before.insert(at as int, number));
        assert forall|i: int, j: int| 0 <= i < j < after.len() implies after[i] < after[j] by {
            let a = if i < at {
                i
            } else {
                i - 1
            };
            let b = if j < at {
                j
            } else {
                j - 1
            };
            if i == at {
                if at < before.len() {
                    assert(before[at as int] > number);
                    assert(before[at as int] <= before[b]);
                }
            } else if j == at {
                assert(before[a] < number);
            } else {
                assert(before[a] < before[b]);
            }
        }
        assert forall|x: i32| after.to_set().contains(x) == before.to_set().insert(number).contains(
            x,
        ) by {
            if after.contains(x) {
                let k = choose|k: int| 0 <= k < after.len() && after[k] == x;
                if k < at {
                    assert(before[k] == x);
                } else if k > at {
                    assert(before[k - 1] == x);
                }
            }
            if before.contains(x) {
                let k = choose|k: int| 0 <= k < before.len() && before[k] == x;
                if k < at {
                    assert(after[k] == x);
                } else {
                    assert(after[k + 1] == x);
                }
            }
            assert(after[at as int] == number);
        }
        assert(after.to_set() =~= before.to_set().insert(number));
    }
}

fn ascending_set(numbers: &Vec<i32>) -> (sorted: Vec<i32>)
    ensures
        ascending(sorted@),
        sorted@.to_set() == numbers@.to_set(),
{
    let mut sorted: Vec<i32> = Vec::new();
    let mut i: usize = 0;
    assert(sorted@.to_set() =~= numbers@.take(0).to_set());
    while i < numbers.len()
        invariant
            i <= numbers.len(),
            ascending(sorted@),
            sorted@.to_set() == numbers@.take(i as int).to_set(),
        decreases numbers.len() - i,
    {
        insert_ascending(&mut sorted, numbers[i]);
        proof {
            let next = numbers@.take(i + 1);
            let prev = numbers@.take(i as int);
            assert(next =~= prev.push(numbers@[i as int]));
            assert forall|x: i32| next.to_set().contains(x) == prev.to_set().insert(
                numbers@[i as int],
            ).contains(x) by {
                assert(next[i as int] == numbers@[i as int]);
                if prev.contains(x) {
                    let k = choose|k: int| 0 <= k < prev.len() && prev[k] == x;
                    assert(next[k] == x);
                }
            }
            assert(next.to_set() =~= prev.to_set().insert(numbers@[i as int]));
        }
        i = i + 1;
    }
    assert(numbers@.take(i as int) =~= numbers@);
    sorted
}

fn same_numbers(a: &Vec<i32>, b: &Vec<i32>) -> (same: bool)
    ensures
        same == (a@ == b@),
{
    if a.len() != b.len() {
        return false;
    }
    let mut i: usize = 0;
    while i < a.len()
        invariant
            a@.len() == b@.len(),
            i <= a@.len(),
            forall|k: int| 0 <= k < i ==> a@[k] == b@[k],
        decreases a@.len() - i,
    {
        if a[i] != b[i] {
            return false;
        }
        i = i + 1;
    }
    assert(a@ =~= b@);
    true
}

proof fn lemma_ascending_is_unique(a: Seq<i32>, b: Seq<i32>)
    requires
        ascending(a),
        ascending(b),
        a.to_set() == b.to_set(),
    ensures
        a == b,
    decreases a.len(),
{
    if a.len() == 0 {
        if b.len() > 0 {
            assert(b.to_set().contains(b[0]));
            assert(a.to_set().contains(b[0]));
        }
        assert(a =~= b);
    } else {
        assert(a.to_set().contains(a[0]));
        assert(b.to_set().contains(a[0]));
        let last_a = a.last();
        let last_b = if b.len() > 0 {
            b.last()
        } else {
            a[0]
        };
        assert(a.to_set().contains(last_a));
        let k = choose|k: int| 0 <= k < b.len() && b[k] == last_a;
        assert(b.len() > 0);
        assert(b.to_set().contains(last_b));
        let m = choose|m: int| 0 <= m < a.len() && a[m] == last_b;
        assert(last_a == last_b) by {
            if k < b.len() - 1 {
                assert(b[k] < b[b.len() - 1]);
            }
            if m < a.len() - 1 {
                assert(a[m] < a[a.len() - 1]);
            }
        }
        let shorter_a = a.drop_last();
        let shorter_b = b.drop_last();
        assert forall|x: i32| shorter_a.to_set().contains(x) == shorter_b.to_set().contains(x) by {
            if shorter_a.contains(x) {
                let i = choose|i: int| 0 <= i < shorter_a.len() && shorter_a[i] == x;
                assert(a[i] == x && a[i] < a[a.len() - 1]);
                assert(a.to_set().contains(x));
                assert(b.to_set().contains(x));
                let j = choose|j: int| 0 <= j < b.len() && b[j] == x;
                assert(shorter_b[j] == x);
            }
            if shorter_b.contains(x) {
                let i = choose|i: int| 0 <= i < shorter_b.len() && shorter_b[i] == x;
                assert(b[i] == x && b[i] < b[b.len() - 1]);
                assert(b.to_set().contains(x));
                assert(a.to_set().contains(x));
                let j = choose|j: int| 0 <= j < a.len() && a[j] == x;
                assert(shorter_a[j] == x);
            }
        }
        assert(shorter_a.to_set() =~= shorter_b.to_set());
        lemma_ascending_is_unique(shorter_a, shorter_b);
        assert(a =~= shorter_a.push(last_a));
        assert(b =~= shorter_b.push(last_b));
    }
}

/// The descriptors that a worker may have open before it is launched.
pub open spec fn allowed_fds(control: i32, event: i32) -> Set<i32> {
    set![0i32, 1i32, 2i32, control, event]
}

/// Checks that a worker has open exactly its standard descriptors and its two
/// channels.
pub fn verify_worker_fd_allowlist(actual: &Vec<i32>, control: i32, event: i32) -> (r: Result<
    (),
    String,
>)
    ensures
        actual@.to_set() == allowed_fds(control, event) ==> r is Ok,
        actual@.to_set() != allowed_fds(control, event) ==> r is Err && exists|
            found: Seq<i32>,
            wanted: Seq<i32>,
        |
            #![trigger set_text(found), set_text(wanted)]
            ascending(found) && found.to_set() == actual@.to_set() && ascending(wanted)
                && wanted.to_set() == allowed_fds(control, event) && r->Err_0@
                == "cube-vmm-worker gate FD allowlist mismatch: actual="@ + set_text(found)
                + " expected="@ + set_text(wanted),
{
    let mut expected: Vec<i32> = Vec::new();
    expected.push(0);
    expected.push(1);
    expected.push(2);
    expected.push(control);
    expected.push(event);
    proof {
        let all = expected@;
        assert forall|x: i32| all.to_set().contains(x) == allowed_fds(control, event).contains(
            x,
        ) by {
            assert(all[0] == 0 && all[1] == 1 && all[2] == 2 && all[3] == control && all[4]
                == event);
        }
        assert(all.to_set() =~= allowed_fds(control, event));
    }
    let found = ascending_set(actual);
    let wanted = ascending_set(&expected);
    proof {
        if actual@.to_set() == allowed_fds(control, event) {
            lemma_ascending_is_unique(found@, wanted@);
        }
    }
    if !same_numbers(&found, &wanted) {
        return Err(
            "cube-vmm-worker gate FD allowlist mismatch: actual=".to_owned().concat(
                list_text(&found).as_str(),
            ).concat(" expected=").concat(list_text(&wanted).as_str()),
        );
    }
    Ok(())
}

/// A path with another last name.
pub open spec fn renamed(path: Seq<char>, name: Seq<char>) -> Seq<char> {
    match last_name(path) {
        None => joined(path, name),
        Some(_) => match parent_spec(path) {
            None => name,
            Some(parent) => joined(parent, name),
        },
    }
}

/// The executable of a worker.
pub open spec fn worker_executable(
    setting: Option<Seq<char>>,
    shim: Result<Seq<char>, Seq<char>>,
    sibling_present: bool,
) -> Result<Seq<char>, Seq<char>> {
    match setting {
        Some(path) => if !is_rooted(path) {
            Err(WORKER_PATH_ENV@ + " must be absolute: "@ + path)
        } else {
            Ok(path)
        },
        None => match shim {
            Err(error) => Err("resolve CubeShim executable: "@ + error),
            Ok(path) => if sibling_present {
                Ok(renamed(path, "cube-vmm-worker"@))
            } else {
                Ok("/usr/local/bin/cube-vmm-worker"@)
            },
        },
    }
}

/// The executable beside the shim's own that a worker may have.
pub fn worker_sibling(shim: &str) -> (path: String)
    ensures
        path@ == renamed(shim@, "cube-vmm-worker"@),
{
    match file_name(shim) {
        None => join(shim, "cube-vmm-worker"),
        Some(_) => match parent_path(shim) {
            None => "cube-vmm-worker".to_owned(),
            Some(parent) => join(parent.as_str(), "cube-vmm-worker"),
        },
    }
}

/// The executable of a worker: the one that was set, the one beside the shim,
/// or the installed one.
pub fn worker_path(
    setting: &Option<String>,
    shim: &Result<String, String>,
    sibling_present: bool,
) -> (r: Result<String, String>)
    ensures
        outcome(r) == worker_executable(opt_view(*setting), outcome(*shim), sibling_present),
{
    if let Some(path) = setting {
        if !rooted(path.as_str()) {
            return Err(
                WORKER_PATH_ENV.to_owned().concat(" must be absolute: ").concat(path.as_str()),
            );
        }
        return Ok(path.clone());
    }
    match shim {
        Err(error) => Err("resolve CubeShim executable: ".to_owned().concat(error.as_str())),
        Ok(path) => if sibling_present {
            Ok(worker_sibling(path.as_str()))
        } else {
            Ok("/usr/local/bin/cube-vmm-worker".to_owned())
        },
    }
}

/// Only a greeting and a ping may fail without ending the worker.
pub proof fn law_only_harmless_commands_may_fail(kind: CommandKind)
    ensures
        !poisons(kind) == (kind == CommandKind::Hello || kind == CommandKind::Ping),
{
}

/// Each event means what its name says on both sides, and a broken protocol is
/// told as the machine's end.
pub proof fn law_events_keep_their_names(message: String)
    ensures
        told(NotifyEvent::VmShutdown) == WorkerEvent::VmShutdown,
        told(NotifyEvent::VsockServerReady) == WorkerEvent::VsockServerReady,
        told(NotifyEvent::RestoreReady) == WorkerEvent::RestoreReady,
        told(NotifyEvent::SysStart) == WorkerEvent::SysStart,
        told(NotifyEvent::MigrationComplete) == WorkerEvent::MigrationComplete,
        told(NotifyEvent::MigrationFail) == WorkerEvent::MigrationFail,
        heard(WorkerEvent::ProtocolError(message)) == NotifyEvent::VmShutdown,
{
}

/// More is logged under a higher wire level: from none, which is zero, over
/// errors, warnings and notices to everything, which is five.
pub proof fn law_wire_levels_grow()
    ensures
        wire_level(LogLevel::Off) == 0,
        wire_level(LogLevel::Error) == wire_level(LogLevel::Off) + 1,
        wire_level(LogLevel::Warn) == wire_level(LogLevel::Error) + 1,
        wire_level(LogLevel::Info) == wire_level(LogLevel::Warn) + 1,
        wire_level(LogLevel::Debug) == wire_level(LogLevel::Info) + 1,
        wire_level(LogLevel::Trace) == wire_level(LogLevel::Debug) + 1,
{
}

/// A control message of whole descriptors, four bytes each, hands over as many
/// as it holds, up to sixty-four in one packet.
pub proof fn law_whole_rights_are_counted(minimum: usize, count: nat, held: usize, length: usize)
    requires
        count > 0,
        length == minimum + 4 * count,
    ensures
        held + count <= 64 ==> rights_in(length, minimum, 1, 1, held) == Ok::<nat, Seq<char>>(
            count,
        ),
        held + count > 64 ==> rights_in(length, minimum, 1, 1, held) is Err,
{
}

/// Another message, a cut header and a cut descriptor hand over nothing.
pub proof fn law_other_rights_are_refused(
    length: usize,
    minimum: usize,
    level: i32,
    kind: i32,
    held: usize,
)
    requires
        length <= minimum || level != 1 || kind != 1 || (length - minimum) % 4 != 0,
    ensures
        rights_in(length, minimum, level, kind, held) is Err,
{
}

/// The worker is the backend unless the embedded one is asked for by its name;
/// another name is refused.
pub proof fn law_worker_is_the_backend(value: String, error: String)
    ensures
        worker_backend(Ok(None)) == Ok::<bool, Seq<char>>(true),
        value@ == "worker"@ ==> worker_backend(Ok(Some(value))) == Ok::<bool, Seq<char>>(true),
        value@ == "embedded"@ ==> worker_backend(Ok(Some(value))) == Ok::<bool, Seq<char>>(false),
        value@ != "worker"@ && value@ != "embedded"@ ==> worker_backend(Ok(Some(value))) is Err,
        worker_backend(Err(error)) is Err,
{
    reveal_strlit("worker");
    reveal_strlit("embedded");
    assert("worker"@.len() == 6);
    assert("embedded"@.len() == 8);
}

/// A worker answers exactly the shim that started it: its parent and its peer.
pub proof fn law_workers_answer_their_parent(parent: i32, peer: Result<i32, String>, expected: u32)
    ensures
        (parent_fault(parent, peer, expected) is None) == (parent == expected as i32 && peer
            == Ok::<i32, String>(expected as i32)),
{
}

/// A channel is an open packet socket beyond the standard descriptors.
pub proof fn law_channels_are_packet_sockets(name: Seq<char>, fd: i32, seen: DescriptorSighting)
    ensures
        (channel_fault(name, fd, seen) is None) == (fd > 2 && seen.open is Ok && seen.seqpacket
            == Ok::<bool, String>(true)),
{
}

/// A worker starts with its standard descriptors and its two channels open, and
/// with nothing else.
pub proof fn law_workers_inherit_five_descriptors(control: i32, event: i32, fd: i32)
    ensures
        allowed_fds(control, event).contains(fd) == (fd == 0 || fd == 1 || fd == 2 || fd == control
            || fd == event),
{
}

/// A worker's program is the one that is named, which has to be a rooted path;
/// without one it is the program beside the shim, where it is there, and the
/// installed one where it is not.
pub proof fn law_worker_program_is_found(
    path: Seq<char>,
    shim: Seq<char>,
    parent: Seq<char>,
    error: Seq<char>,
    present: bool,
)
    ensures
        is_rooted(path) ==> worker_executable(Some(path), Ok(shim), present) == Ok::<
            Seq<char>,
            Seq<char>,
        >(path),
        !is_rooted(path) ==> worker_executable(Some(path), Ok(shim), present) is Err,
        worker_executable(None, Ok(shim), false) == Ok::<Seq<char>, Seq<char>>(
            "/usr/local/bin/cube-vmm-worker"@,
        ),
        last_name(shim) is Some && parent_spec(shim) == Some(parent) ==> worker_executable(
            None,
            Ok(shim),
            true,
        ) == Ok::<Seq<char>, Seq<char>>(joined(parent, "cube-vmm-worker"@)),
        worker_executable(None, Err(error), present) is Err,
{
}

/// A set of descriptors is written in braces, with a comma between each two.
pub proof fn law_descriptor_sets_are_written_in_braces(numbers: Seq<i32>, last: i32)
    ensures
        set_text(Seq::empty()) == "{"@ + Seq::<char>::empty() + "}"@,
        set_text(seq![last]) == "{"@ + signed_decimal(last as int) + "}"@,
        numbers.len() > 0 ==> listed(numbers.push(last)) == listed(numbers) + ", "@
            + signed_decimal(last as int),
{
    assert(numbers.push(last).drop_last() =~= numbers);
}

} // verus!
