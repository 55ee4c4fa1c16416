//! The protocol between a shim and its VMM worker, on both sides.
use cube_shim::vm_config::{LogLevel, NetConfig};
use cube_shim::vm_fds::PendingVmFds;
use cube_shim::worker_client::{
    check_reply, pass_on, stop_result, terminate_after_error, ChildEnding, EventPacket, Reply,
    RequestFailure, SpawnAnswer, SpawnStage, WorkerClient, WorkerSpawn, CHILD_TIMEOUT_NS,
    PLACEMENT_DEADLINE_NS,
};
use cube_shim::worker_protocol::{
    check_distinct_channels, check_packet_sent, check_packet_size, check_right,
    check_worker_parent, count_rights, level_from_wire, level_to_wire, notify_event,
    packet_received, validate_inherited_seqpacket, verify_worker_fd_allowlist,
    worker_backend_enabled, worker_event, worker_path, worker_sibling, CommandKind,
    DescriptorSighting, HelloConfig, LaunchConfig, NotifyEvent, WorkerCommand, WorkerEvent,
    WorkerReply, WorkerRequest, WorkerResponse, MAX_HANDOFF_FDS, MAX_PACKET_SIZE, PROTOCOL_MAGIC,
    PROTOCOL_VERSION,
};
use cube_shim::worker_server::{
    Admission, ControlPacket, Execution, LaunchStep, Work, WorkerServer,
};

const PARENT: u32 = 4321;

type Command = WorkerCommand<String>;

fn server() -> WorkerServer {
    WorkerServer::new("expected-nonce".to_string(), PARENT)
}

fn request(request_id: u64, command: Command) -> WorkerRequest<String> {
    WorkerRequest {
        magic: PROTOCOL_MAGIC.to_string(),
        version: PROTOCOL_VERSION,
        request_id,
        command,
    }
}

fn hello() -> Command {
    WorkerCommand::Hello(HelloConfig {
        nonce: "expected-nonce".to_string(),
        parent_pid: PARENT,
    })
}

fn packet(request: WorkerRequest<String>, descriptors: usize) -> ControlPacket<String> {
    ControlPacket::Request {
        request,
        descriptors,
    }
}

fn refusal(admission: Admission) -> (String, bool) {
    match admission {
        Admission::Refuse { message, notify } => (message, notify),
        _ => panic!("expected a refusal"),
    }
}

fn greeted() -> WorkerServer {
    let mut server = server();
    assert_eq!(
        server.receive(&packet(request(1, hello()), 0)),
        Admission::Execute {
            kind: CommandKind::Hello,
            request_id: 1
        }
    );
    assert_eq!(server.plan(CommandKind::Hello), Ok(Execution::Nothing));
    let (response, after) = server.answer(1, CommandKind::Hello, Ok(WorkerReply::Empty));
    assert_eq!(response.request_id, 1);
    assert_eq!(response.result, Ok(WorkerReply::Empty));
    assert!(after.authenticated);
    assert!(!after.end);
    server
}

fn launched() -> (WorkerServer, PendingVmFds) {
    let mut server = greeted();
    let mut pending = PendingVmFds::new();
    assert_eq!(server.plan(CommandKind::Launch), Ok(Execution::Launch));
    assert_eq!(
        server.finish(
            CommandKind::Launch,
            Work::Done { action: None },
            &mut pending
        ),
        Ok(WorkerReply::Empty)
    );
    (server, pending)
}

fn net(fds: Option<Vec<i32>>) -> NetConfig {
    NetConfig {
        id: None,
        tap: None,
        mac: "02:00:00:00:00:01".to_string(),
        mtu: None,
        rate_limiter_config: None,
        fds,
    }
}

#[test]
fn worker_rejects_unknown_version_and_out_of_order_request_id() {
    let mut unknown = request(1, hello());
    unknown.version = PROTOCOL_VERSION + 1;
    let (message, notify) = refusal(server().receive(&packet(unknown, 0)));
    assert!(message.contains("unsupported worker protocol"));
    assert_eq!(
        message,
        "unsupported worker protocol magic=\"cube-vmm-worker\" version=2"
    );
    assert!(notify);

    let (message, notify) = refusal(server().receive(&packet(request(2, hello()), 0)));
    assert!(message.contains("not the expected 1"));
    assert!(notify);
}

#[test]
fn worker_rejects_duplicate_hello() {
    let mut server = greeted();
    let (message, notify) = refusal(server.receive(&packet(request(2, hello()), 0)));
    assert!(message.contains("duplicate"));
    assert!(notify);
}

#[test]
fn worker_poisons_descriptor_bearing_non_create_command() {
    let mut server = greeted();
    let (message, notify) =
        refusal(server.receive(&packet(request(2, WorkerCommand::Ping), 1)));
    assert!(message.contains("descriptors are only valid with CreateVm"));
    assert!(notify);
}

#[test]
fn worker_hello_timeout_is_bounded() {
    let broken: ControlPacket<String> = ControlPacket::Broken {
        error: "receive worker packet: timed out".to_string(),
    };
    let (message, notify) = refusal(server().receive(&broken));
    assert!(message.contains("receive worker packet"));
    assert!(notify);
}

#[test]
fn worker_clears_receive_timeout_after_hello() {
    let mut server = greeted();
    let closed: ControlPacket<String> = ControlPacket::Closed;
    assert_eq!(server.receive(&closed), Admission::End);
}

#[test]
fn commands_wait_for_the_greeting() {
    let (message, _) = refusal(server().receive(&packet(request(1, WorkerCommand::Ping), 0)));
    assert_eq!(message, "cube-vmm-worker command arrived before Hello");
    let foreign = WorkerCommand::Hello(HelloConfig {
        nonce: "other".to_string(),
        parent_pid: PARENT,
    });
    let (message, _) = refusal(server().receive(&packet(request(1, foreign), 0)));
    assert_eq!(message, "invalid or duplicate cube-vmm-worker Hello");
    let undecodable: ControlPacket<String> = ControlPacket::Undecodable {
        error: "eof".to_string(),
    };
    assert_eq!(
        refusal(server().receive(&undecodable)),
        ("decode worker request: eof".to_string(), true)
    );
}

#[test]
fn request_numbers_do_not_overflow() {
    let mut server = greeted();
    server.next_request_id = u64::MAX;
    let (message, notify) =
        refusal(server.receive(&packet(request(u64::MAX, WorkerCommand::Ping), 0)));
    assert_eq!(message, "worker request_id overflow");
    assert!(!notify);
}

#[test]
fn commands_need_a_running_hypervisor() {
    let mut server = greeted();
    assert_eq!(
        server.plan(CommandKind::Ping).unwrap_err(),
        "cube-vmm-worker is not launched"
    );
    assert_eq!(
        server.plan(CommandKind::JoinVmm).unwrap_err(),
        "cube-vmm-worker is not launched"
    );
    let (mut server, _) = launched();
    assert_eq!(
        server.plan(CommandKind::Launch).unwrap_err(),
        "cube-vmm-worker is already launched"
    );
    assert_eq!(
        server.plan(CommandKind::Hello).unwrap_err(),
        "Hello arrived after VMM launch"
    );
    assert_eq!(server.plan(CommandKind::PauseVm), Ok(Execution::Send));
    assert_eq!(
        server.plan(CommandKind::ShutdownWorker),
        Ok(Execution::Shutdown)
    );
    assert!(!server.launched);
}

#[test]
fn failed_work_names_its_request() {
    let (mut server, mut pending) = launched();
    let result = server.finish(
        CommandKind::BootVm,
        Work::RequestFailed {
            error: "gone".to_string(),
        },
        &mut pending,
    );
    assert_eq!(result, Err("boot VM request: gone".to_string()));
    let result = server.finish(
        CommandKind::SetFs,
        Work::ResponseFailed {
            error: "no".to_string(),
        },
        &mut pending,
    );
    assert_eq!(result, Err("set VM fs response: no".to_string()));
    let result = server.finish(
        CommandKind::ShutdownWorker,
        Work::JoinFailed {
            error: "stuck".to_string(),
        },
        &mut pending,
    );
    assert_eq!(result, Err("join worker VMM: stuck".to_string()));
    let result = server.finish(
        CommandKind::Launch,
        Work::LaunchFailed {
            step: LaunchStep::ForwardEvents,
            error: "EAGAIN".to_string(),
        },
        &mut pending,
    );
    assert_eq!(
        result,
        Err("spawn VMM event forwarder: EAGAIN".to_string())
    );
    let result = server.finish(
        CommandKind::AddDevice,
        Work::Done {
            action: Some(vec![1]),
        },
        &mut pending,
    );
    assert_eq!(result, Ok(WorkerReply::ActionPayload(Some(vec![1]))));
}

#[test]
fn creation_installs_descriptors_until_it_fails() {
    let (mut server, mut pending) = launched();
    let mut nets = Some(vec![net(Some(vec![0]))]);
    server
        .prepare_create(&mut nets, vec![9], &mut pending)
        .unwrap();
    assert_eq!(nets.as_ref().unwrap()[0].fds, Some(vec![9]));
    assert_eq!(pending.descriptors, Some(vec![9]));
    let failed = server.finish(
        CommandKind::CreateVm,
        Work::ResponseFailed {
            error: "bad".to_string(),
        },
        &mut pending,
    );
    assert_eq!(failed, Err("create VM response: bad".to_string()));
    assert_eq!(pending.descriptors, None);

    let idle = greeted();
    let mut nets = Some(vec![net(Some(vec![0]))]);
    assert_eq!(
        idle.prepare_create(&mut nets, vec![9], &mut pending)
            .unwrap_err(),
        "cube-vmm-worker is not launched"
    );
    assert_eq!(pending.descriptors, None);
}

#[test]
fn failed_commands_end_the_worker() {
    let mut server = greeted();
    let (response, after) =
        server.answer(2, CommandKind::BootVm, Err("boot VM request: x".to_string()));
    assert_eq!(response.magic, PROTOCOL_MAGIC);
    assert_eq!(response.version, PROTOCOL_VERSION);
    assert!(after.end);
    assert_eq!(after.notify.as_deref(), Some("boot VM request: x"));
    let (_, after) = server.answer(3, CommandKind::Ping, Err("x".to_string()));
    assert!(!after.end);
    assert_eq!(after.notify, None);
    let (_, after) = server.answer(4, CommandKind::ShutdownWorker, Ok(WorkerReply::Empty));
    assert!(after.end);
}

fn received(response: WorkerResponse) -> Reply {
    Reply::Received {
        descriptors: 0,
        decoded: Ok(response),
    }
}

fn response(request_id: u64, result: Result<WorkerReply, String>) -> WorkerResponse {
    WorkerResponse {
        magic: PROTOCOL_MAGIC.to_string(),
        version: PROTOCOL_VERSION,
        request_id,
        result,
    }
}

#[test]
fn mutation_response_identity_mismatch_poisons_client() {
    let mut client = WorkerClient::new();
    client.check_usable().unwrap();
    let sent = client.frame(Command::DeleteVm, 0).unwrap();
    let result = check_reply(
        sent.request_id,
        CommandKind::DeleteVm,
        received(response(sent.request_id + 1, Ok(WorkerReply::Empty))),
    );
    assert!(client.settle(CommandKind::DeleteVm, &result));
    let error = WorkerClient::conclude(result, &Some(Ok(()))).unwrap_err();
    assert!(error.contains("identity mismatch"));
    assert_eq!(
        error,
        "cube-vmm-worker response identity mismatch: magic=\"cube-vmm-worker\" version=1 request_id=2 expected=1"
    );
    assert!(client.poisoned);
    assert_eq!(
        client.check_usable().unwrap_err(),
        "cube-vmm-worker is poisoned"
    );
}

#[test]
fn cloned_clients_serialize_request_ids_and_responses() {
    let mut client = WorkerClient::new();
    for expected in [1u64, 2] {
        let sent = client.frame(Command::Ping, 0).unwrap();
        assert_eq!(sent.request_id, expected);
        assert_eq!(sent.command, Command::Ping);
        let result = check_reply(
            expected,
            CommandKind::Ping,
            received(response(expected, Ok(WorkerReply::Empty))),
        );
        assert!(!client.settle(CommandKind::Ping, &result));
        assert_eq!(
            WorkerClient::conclude(result, &None),
            Ok(WorkerReply::Empty)
        );
    }
    assert!(client.ending_due());
    client.ended(&Ok(()));
    assert!(!client.ending_due());
}

#[test]
fn reply_payload_mismatch_poisons_channel() {
    let mut client = WorkerClient::new();
    let sent = client.frame(Command::Ping, 0).unwrap();
    let result = check_reply(
        sent.request_id,
        CommandKind::Ping,
        received(response(sent.request_id, Ok(WorkerReply::ActionPayload(None)))),
    );
    assert!(client.settle(CommandKind::Ping, &result));
    client.ended(&Ok(()));
    assert!(WorkerClient::conclude(result, &Some(Ok(())))
        .unwrap_err()
        .contains("does not match request opcode"));
    assert!(client.poisoned);
    assert!(client.reaped);
}

#[test]
fn replies_are_checked() {
    let broken = |reply| match check_reply(1, CommandKind::Ping, reply) {
        Err(RequestFailure {
            message,
            channel_failed,
        }) => (message, channel_failed),
        Ok(_) => panic!("expected a failure"),
    };
    assert_eq!(
        broken(Reply::Closed),
        (
            "cube-vmm-worker closed the control channel".to_string(),
            true
        )
    );
    assert_eq!(
        broken(Reply::Unencodable {
            error: "x".to_string()
        }),
        ("encode cube-vmm-worker request: x".to_string(), false)
    );
    assert_eq!(
        broken(Reply::Received {
            descriptors: 1,
            decoded: Err("x".to_string())
        })
        .0,
        "cube-vmm-worker response unexpectedly carried descriptors"
    );
    assert_eq!(
        broken(Reply::Received {
            descriptors: 0,
            decoded: Err("x".to_string())
        })
        .0,
        "decode cube-vmm-worker response: x"
    );
    assert_eq!(
        broken(received(response(1, Err("refused".to_string())))),
        ("refused".to_string(), false)
    );
    assert_eq!(
        check_reply(
            7,
            CommandKind::AddDevice,
            received(response(7, Ok(WorkerReply::ActionPayload(Some(vec![3])))))
        ),
        Ok(WorkerReply::ActionPayload(Some(vec![3])))
    );
}

#[test]
fn handoffs_are_bounded() {
    let mut client = WorkerClient::new();
    let failure = client
        .frame(Command::CreateVm("vm".to_string()), MAX_HANDOFF_FDS + 1)
        .unwrap_err();
    assert_eq!(
        failure.message,
        "cube-vmm-worker FD handoff has 65 descriptors, maximum is 64"
    );
    assert!(!failure.channel_failed);
    assert_eq!(client.next_request_id, 1);
}

#[test]
fn termination_failures_are_reported() {
    assert_eq!(terminate_after_error("a", &Ok(())), "a");
    assert_eq!(
        terminate_after_error("a", &Err("b".to_string())),
        "a; exact worker termination failed: b"
    );
    assert_eq!(stop_result("join", "a", &Ok(())), Ok(()));
    assert_eq!(
        stop_result("shutdown", "a", &Err("b".to_string())).unwrap_err(),
        "shutdown cube-vmm-worker failed: a; exact termination failed: b"
    );
}

fn answer(result: Result<(), String>) -> SpawnAnswer {
    SpawnAnswer {
        result,
        elapsed_ns: 1,
    }
}

#[test]
fn spawn_passes_every_gate_in_order() {
    let mut spawn = WorkerSpawn::start(true, true, "/bin/worker".to_string());
    let expected = [
        SpawnStage::Preparing,
        SpawnStage::Forking,
        SpawnStage::StartingReader,
        SpawnStage::LimitingGreeting,
        SpawnStage::Greeting,
        SpawnStage::LimitingCommands,
        SpawnStage::CheckingDescriptors,
        SpawnStage::Placing,
        SpawnStage::Launching,
    ];
    for stage in expected {
        assert_eq!(spawn.stage, stage);
        if stage == SpawnStage::Forking {
            spawn.forked(77);
        }
        spawn = spawn.step(answer(Ok(())));
    }
    assert_eq!(spawn.stage, SpawnStage::Ready);

    let mut bare = WorkerSpawn::start(false, false, "/bin/worker".to_string());
    for _ in 0..6 {
        bare = bare.step(answer(Ok(())));
    }
    assert_eq!(bare.stage, SpawnStage::Ready);
}

#[test]
fn failed_spawns_end_their_process() {
    let spawn = WorkerSpawn::start(false, true, "/bin/worker".to_string());
    let failed = spawn.step(answer(Err("ENOENT".to_string())));
    assert_eq!(
        failed.stage,
        SpawnStage::Failed {
            message: "spawn cube-vmm-worker /bin/worker: ENOENT".to_string()
        }
    );

    let mut spawn = WorkerSpawn::start(false, true, "/bin/worker".to_string());
    spawn.forked(77);
    let spawn = spawn.step(answer(Ok(())));
    let spawn = spawn.step(answer(Err("EAGAIN".to_string())));
    let spawn = spawn.step(answer(Err("ignored".to_string())));
    assert_eq!(
        spawn.stage,
        SpawnStage::Failed {
            message: "spawn cube-vmm-worker event reader: EAGAIN".to_string()
        }
    );
}

#[test]
fn late_placements_are_refused() {
    let placing = || WorkerSpawn {
        placed: true,
        launch: true,
        executable: "/bin/worker".to_string(),
        pid: 77,
        stage: SpawnStage::Placing,
    };
    let late = placing().step(SpawnAnswer {
        result: Ok(()),
        elapsed_ns: PLACEMENT_DEADLINE_NS + 500_000_000,
    });
    let failed = late.step(answer(Err("EPERM".to_string())));
    assert_eq!(
        failed.stage,
        SpawnStage::Failed {
            message: "place cube-vmm-worker 77 exceeded 2s: 2.5s; exact worker termination failed: EPERM"
                .to_string()
        }
    );
    let refused = placing().step(answer(Err("no".to_string())));
    assert_eq!(
        refused.stage,
        SpawnStage::Ending {
            error: "place cube-vmm-worker 77: no".to_string(),
            bare: false
        }
    );
    let in_time = placing().step(SpawnAnswer {
        result: Ok(()),
        elapsed_ns: PLACEMENT_DEADLINE_NS,
    });
    assert_eq!(in_time.stage, SpawnStage::Launching);
}

#[test]
fn children_are_ended_and_awaited() {
    let step = |state: ChildEnding, answer, expired| state.step(answer, expired, 77, CHILD_TIMEOUT_NS);
    let state = step(ChildEnding::start(), Ok(false), false);
    assert_eq!(state, ChildEnding::Killing);
    let state = step(state, Ok(true), false);
    assert_eq!(state, ChildEnding::Waiting);
    let state = step(state, Ok(false), false);
    assert_eq!(state, ChildEnding::Waiting);
    let state = step(state, Ok(false), true);
    assert_eq!(
        state,
        ChildEnding::Failed {
            message: "timed out waiting 2s for cube-vmm-worker 77".to_string()
        }
    );
    assert_eq!(step(ChildEnding::wait(), Ok(true), true), ChildEnding::Ended);
    assert_eq!(step(ChildEnding::start(), Ok(true), false), ChildEnding::Ended);
    let killed = step(ChildEnding::Killing, Err("EPERM".to_string()), false);
    assert_eq!(
        step(killed, Err("ECHILD".to_string()), false),
        ChildEnding::Failed {
            message: "terminate cube-vmm-worker: EPERM; inspect after kill failure: ECHILD"
                .to_string()
        }
    );
}

#[test]
fn events_are_passed_on_until_the_channel_breaks() {
    let event = |event, descriptors| EventPacket::Event { event, descriptors };
    assert_eq!(
        pass_on(&event(WorkerEvent::SysStart, 0)),
        Some(NotifyEvent::SysStart)
    );
    assert_eq!(pass_on(&event(WorkerEvent::SysStart, 1)), None);
    assert_eq!(
        pass_on(&event(WorkerEvent::ProtocolError("x".to_string()), 0)),
        None
    );
    assert_eq!(pass_on(&EventPacket::Closed), None);
    assert_eq!(pass_on(&EventPacket::Broken), None);
    assert_eq!(pass_on(&EventPacket::Undecodable), None);
    assert_eq!(
        notify_event(&worker_event(NotifyEvent::MigrationFail)),
        NotifyEvent::MigrationFail
    );
    assert_eq!(
        notify_event(&WorkerEvent::ProtocolError("x".to_string())),
        NotifyEvent::VmShutdown
    );
}

#[test]
fn backend_switch_is_fail_closed() {
    assert!(worker_backend_enabled(&Ok(Some("invalid".to_string()))).is_err());
    assert_eq!(
        worker_backend_enabled(&Ok(Some("invalid".to_string()))).unwrap_err(),
        "unsupported CUBE_VMM_BACKEND=\"invalid\"; expected worker or embedded"
    );
    assert_eq!(worker_backend_enabled(&Ok(None)), Ok(true));
    assert_eq!(
        worker_backend_enabled(&Ok(Some("worker".to_string()))),
        Ok(true)
    );
    assert_eq!(
        worker_backend_enabled(&Ok(Some("embedded".to_string()))),
        Ok(false)
    );
    assert!(worker_backend_enabled(&Err("x".to_string())).is_err());
}

#[test]
fn log_levels_travel_as_numbers() {
    let config = LaunchConfig::new("sandbox".to_string(), LogLevel::Trace, None);
    assert_eq!(config.log_level, 5);
    for level in [
        LogLevel::Off,
        LogLevel::Error,
        LogLevel::Warn,
        LogLevel::Info,
        LogLevel::Debug,
        LogLevel::Trace,
    ] {
        assert_eq!(level_from_wire(level_to_wire(level)), Ok(level));
    }
    assert_eq!(
        level_from_wire(6).unwrap_err(),
        "invalid cube-vmm-worker log level 6"
    );
}

#[test]
fn packets_and_rights_are_checked() {
    assert!(check_packet_size(0).is_err());
    assert!(check_packet_size(MAX_PACKET_SIZE).is_ok());
    assert!(check_packet_size(MAX_PACKET_SIZE + 1).is_err());
    assert_eq!(
        check_packet_sent(3, 4).unwrap_err(),
        "short worker seqpacket send: 3/4"
    );
    assert_eq!(packet_received(0, false), Ok(false));
    assert_eq!(packet_received(5, false), Ok(true));
    assert!(packet_received(5, true).is_err());
    assert_eq!(count_rights(24, 16, 1, 1, 0), Ok(2));
    assert!(count_rights(24, 16, 1, 2, 0).is_err());
    assert!(count_rights(16 + 4 * (MAX_HANDOFF_FDS + 1), 16, 1, 1, 0).is_err());
    assert!(check_right(3).is_ok());
    assert!(check_right(-1).is_err());
}

#[test]
fn inherited_channels_are_checked() {
    assert!(check_distinct_channels(5, 6).is_ok());
    assert!(check_distinct_channels(5, 5).is_err());
    let good = DescriptorSighting {
        open: Ok(()),
        seqpacket: Ok(true),
    };
    assert!(validate_inherited_seqpacket("CONTROL", 5, &good).is_ok());
    let stream = DescriptorSighting {
        open: Ok(()),
        seqpacket: Ok(false),
    };
    assert!(validate_inherited_seqpacket("CONTROL", 5, &stream).is_err());
    assert!(check_worker_parent(10, &Ok(10), 10).is_ok());
    assert_eq!(
        check_worker_parent(11, &Ok(10), 10).unwrap_err(),
        "CubeShim parent identity changed before worker gate"
    );
    assert!(check_worker_parent(10, &Ok(12), 10).is_err());
    assert!(verify_worker_fd_allowlist(&vec![0, 1, 2, 7, 8], 7, 8).is_ok());
    assert!(verify_worker_fd_allowlist(&vec![0, 1, 2, 7, 8, 9], 7, 8).is_err());
}

#[test]
fn worker_is_found_beside_the_shim() {
    assert_eq!(worker_sibling("/opt/bin/shim"), "/opt/bin/cube-vmm-worker");
    assert_eq!(
        worker_path(&None, &Ok("/opt/bin/shim".to_string()), true),
        Ok("/opt/bin/cube-vmm-worker".to_string())
    );
    assert_eq!(
        worker_path(&None, &Ok("/opt/bin/shim".to_string()), false),
        Ok("/usr/local/bin/cube-vmm-worker".to_string())
    );
    assert_eq!(
        worker_path(&Some("/w".to_string()), &Err("x".to_string()), false),
        Ok("/w".to_string())
    );
    assert!(worker_path(&Some("w".to_string()), &Err("x".to_string()), false).is_err());
}
