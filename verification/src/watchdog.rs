//! The watchdog service: a sandbox is prepared only where the node's watchdog
//! runs and systemd's scopes were probed on this boot with this build.
use vstd::prelude::*;

use crate::digest::{command_line, command_sha256, hex, sha256};
use crate::identity::{FileIdentity, ProcessIdentity, ProcessIdentityView};
use crate::record::SCHEMA_VERSION;
use crate::target::{passes_unless, HostTarget, HostTargetView};
use crate::text::{
    decimal, decimal_text, fails_with, lines_of, parse_i32, parse_i32_message, quote, quoted,
    signed_value, split_lines, text_eq, views,
};

verus! {

pub const WATCHDOG_UNIT: &'static str = "cubesandbox-shim-watchdog.service";

pub const WATCHDOG_BINARY: &'static str = "/usr/local/bin/containerd-shim-cube-rs";

pub const WATCHDOG_CGROUP: &'static str = "/system.slice/cubesandbox-shim-watchdog.service";

pub const WATCHDOG_ACTION: &'static str = "shim-watchdog";

/// How often systemd's scopes are probed.
pub const PROBE_ITERATIONS: u32 = 200;

/// The arguments with which the watchdog is started.
pub open spec fn watchdog_argv() -> Seq<Seq<char>> {
    seq![
        WATCHDOG_BINARY@,
        "-namespace"@,
        "cube-watchdog"@,
        "-id"@,
        "node"@,
        WATCHDOG_ACTION@,
    ]
}

/// The digest of the watchdog's command.
pub fn watchdog_command() -> (digest: String)
    ensures
        digest@ == hex(sha256(command_line(watchdog_argv()))),
{
    let mut argv: Vec<String> = Vec::new();
    argv.push(WATCHDOG_BINARY.to_owned());
    argv.push("-namespace".to_owned());
    argv.push("cube-watchdog".to_owned());
    argv.push("-id".to_owned());
    argv.push("node".to_owned());
    argv.push(WATCHDOG_ACTION.to_owned());
    assert(views(argv@) =~= watchdog_argv());
    command_sha256(&argv)
}

/// The processes of the watchdog's cgroup, by the lines of its process file
/// from `from` on.
pub open spec fn watchdog_members(lines: Seq<Seq<char>>, from: int) -> Result<Seq<i32>, Seq<char>>
    decreases lines.len() - from,
{
    if from < 0 || from >= lines.len() {
        Ok(Seq::empty())
    } else {
        match signed_value(lines[from], i32::MIN as int, i32::MAX as int) {
            None => Err(
                "parse watchdog cgroup pid "@ + quoted(lines[from]) + ": "@ + parse_i32_message(
                    lines[from],
                ),
            ),
            Some(pid) => match watchdog_members(lines, from + 1) {
                Err(message) => Err(message),
                Ok(rest) => Ok(seq![pid as i32] + rest),
            },
        }
    }
}

/// The processes of the watchdog's cgroup, by its process file.
pub fn watchdog_pids(data: &str) -> (r: Result<Vec<i32>, String>)
    ensures
        match watchdog_members(lines_of(data@), 0) {
            Err(message) => fails_with(r, message),
            Ok(pids) => r matches Ok(found) && found@ == pids,
        },
{
    let lines = split_lines(data);
    let ghost all = views(lines@);
    let mut pids: Vec<i32> = Vec::new();
    let mut i: usize = 0;
    assert(watchdog_members(all, 0) matches Ok(rest) ==> pids@ + rest =~= rest);
    while i < lines.len()
        invariant
            all == views(lines@),
            all == lines_of(data@),
            i <= lines.len(),
            match watchdog_members(all, i as int) {
                Err(message) => watchdog_members(all, 0) == Err::<Seq<i32>, Seq<char>>(message),
                Ok(rest) => watchdog_members(all, 0) == Ok::<Seq<i32>, Seq<char>>(pids@ + rest),
            },
        decreases lines.len() - i,
    {
        assert(all[i as int] == lines@[i as int]@);
        match parse_i32(lines[i].as_str()) {
            Err(error) => return Err(
                "parse watchdog cgroup pid ".to_owned().concat(
                    quote(lines[i].as_str()).as_str(),
                ).concat(": ").concat(error.as_str()),
            ),
            Ok(pid) => {
                let ghost before = pids@;
                pids.push(pid);
                proof {
                    if let Ok(rest) = watchdog_members(all, i + 1) {
                        assert(before + (seq![pid] + rest) =~= pids@ + rest);
                    }
                }
            },
        }
        i = i + 1;
    }
    assert(pids@ + Seq::<i32>::empty() =~= pids@);
    Ok(pids)
}

/// Whether a process is the watchdog.
pub open spec fn is_watchdog(identity: ProcessIdentityView, executable: FileIdentity) -> bool {
    identity.cgroup == WATCHDOG_CGROUP@ && identity.executable == executable
        && identity.command_sha256 == hex(sha256(command_line(watchdog_argv())))
}

/// The processes among those seen that are the watchdog; one that could not be
/// identified is none.
pub open spec fn watchdogs(seen: Seq<Result<ProcessIdentity, String>>, executable: FileIdentity) -> Seq<
    ProcessIdentityView,
>
    decreases seen.len(),
{
    if seen.len() == 0 {
        Seq::empty()
    } else {
        let rest = watchdogs(seen.drop_last(), executable);
        match seen.last() {
            Ok(identity) if is_watchdog(identity@, executable) => rest.push(identity@),
            _ => rest,
        }
    }
}

/// The proof that systemd's scopes were probed.
#[derive(Debug, PartialEq, Eq)]
pub struct WatchdogProbeStamp {
    pub schema_version: u32,
    pub boot_id: String,
    pub binary_path: String,
    pub binary_identity: FileIdentity,
    pub binary_sha256: String,
    pub iterations: u32,
    pub completed_at_ms: u128,
}

/// What the Host shows of the watchdog.
pub struct WatchdogSighting {
    /// The identity of the installed executable.
    pub executable: FileIdentity,
    /// The processes of the watchdog's cgroup.
    pub processes: Vec<Result<ProcessIdentity, String>>,
    /// The identifier of this boot, without white space around it.
    pub boot_id: String,
    /// The digests of the installed and of the running executable.
    pub binary_sha256: String,
    pub current_sha256: String,
}

/// Whether a stamp proves a probe on this boot with this build.
pub open spec fn stamp_valid(stamp: WatchdogProbeStamp, seen: WatchdogSighting) -> bool {
    &&& stamp.schema_version == SCHEMA_VERSION
    &&& stamp.boot_id@ == seen.boot_id@
    &&& stamp.binary_path@ == WATCHDOG_BINARY@
    &&& stamp.binary_identity == seen.executable
    &&& stamp.binary_sha256@ == seen.binary_sha256@
    &&& seen.current_sha256@ == seen.binary_sha256@
    &&& stamp.iterations == PROBE_ITERATIONS
    &&& stamp.completed_at_ms != 0
}

/// Why the watchdog cannot be relied on, if it cannot.
pub open spec fn watchdog_fault(
    seen: WatchdogSighting,
    stamp: Result<WatchdogProbeStamp, String>,
) -> Option<Seq<char>> {
    let found = watchdogs(seen.processes@, seen.executable);
    if found.len() != 1 {
        Some(
            WATCHDOG_UNIT@ + " expected one exact process in "@ + WATCHDOG_CGROUP@ + ", found "@
                + decimal(found.len()),
        )
    } else if found[0].boot_id != seen.boot_id@ || found[0].start_time_ticks == 0 {
        Some(WATCHDOG_UNIT@ + " boot/starttime identity is invalid"@)
    } else {
        match stamp {
            Err(message) => Some(message@),
            Ok(stamp) => if !stamp_valid(stamp, seen) {
                Some(WATCHDOG_UNIT@ + " probe stamp does not match this boot and build"@)
            } else {
                None
            },
        }
    }
}

fn find_watchdogs(seen: &Vec<Result<ProcessIdentity, String>>, executable: FileIdentity) -> (found:
    Vec<ProcessIdentity>)
    ensures
        found@.map_values(|identity: ProcessIdentity| identity@) == watchdogs(seen@, executable),
{
    let command = watchdog_command();
    let mut found: Vec<ProcessIdentity> = Vec::new();
    let mut i: usize = 0;
    assert(found@.map_values(|identity: ProcessIdentity| identity@) =~= watchdogs(
        seen@.take(0),
        executable,
    ));
    while i < seen.len()
        invariant
            i <= seen.len(),
            command@ == hex(sha256(command_line(watchdog_argv()))),
            found@.map_values(|identity: ProcessIdentity| identity@) == watchdogs(
                seen@.take(i as int),
                executable,
            ),
        decreases seen.len() - i,
    {
        proof {
            assert(seen@.take(i + 1).drop_last() =~= seen@.take(i as int));
            assert(seen@.take(i + 1).last() == seen@[i as int]);
        }
        if let Ok(identity) = &seen[i] {
            if text_eq(identity.cgroup.as_str(), WATCHDOG_CGROUP) && identity.executable
                == executable && text_eq(identity.command_sha256.as_str(), command.as_str()) {
                let ghost before = found@;
                let copy = identity.clone();
                found.push(copy);
                assert(found@.map_values(|identity: ProcessIdentity| identity@) =~= before.map_values(
                    |identity: ProcessIdentity| identity@,
                ).push(identity@));
            }
        }
        i = i + 1;
    }
    assert(seen@.take(i as int) =~= seen@);
    found
}

/// Checks that the watchdog can be relied on: exactly one process of its cgroup
/// is the installed watchdog, started on this boot, and systemd's scopes were
/// probed on this boot with this build.
pub fn verify_watchdog_service(
    seen: &WatchdogSighting,
    stamp: &Result<WatchdogProbeStamp, String>,
) -> (r: Result<(), String>)
    ensures
        passes_unless(r, watchdog_fault(*seen, *stamp)),
{
    let found = find_watchdogs(&seen.processes, seen.executable);
    let ghost all = watchdogs(seen.processes@, seen.executable);
    assert(all.len() == found@.len());
    if found.len() != 1 {
        return Err(
            WATCHDOG_UNIT.to_owned().concat(" expected one exact process in ").concat(
                WATCHDOG_CGROUP,
            ).concat(", found ").concat(decimal_text(found.len() as u128).as_str()),
        );
    }
    assert(all[0] == found@[0]@);
    if !text_eq(found[0].boot_id.as_str(), seen.boot_id.as_str()) || found[0].start_time_ticks == 0 {
        return Err(WATCHDOG_UNIT.to_owned().concat(" boot/starttime identity is invalid"));
    }
    match stamp {
        Err(message) => Err(message.clone()),
        Ok(stamp) => {
            if stamp.schema_version != SCHEMA_VERSION || !text_eq(
                stamp.boot_id.as_str(),
                seen.boot_id.as_str(),
            ) || !text_eq(stamp.binary_path.as_str(), WATCHDOG_BINARY) || stamp.binary_identity
                != seen.executable || !text_eq(
                stamp.binary_sha256.as_str(),
                seen.binary_sha256.as_str(),
            ) || !text_eq(seen.current_sha256.as_str(), seen.binary_sha256.as_str())
                || stamp.iterations != PROBE_ITERATIONS || stamp.completed_at_ms == 0 {
                return Err(
                    WATCHDOG_UNIT.to_owned().concat(
                        " probe stamp does not match this boot and build",
                    ),
                );
            }
            Ok(())
        },
    }
}

/// The unit of a probe.
pub open spec fn probe_unit(boot_id: Seq<char>, iteration: u32) -> Seq<char> {
    "cubesandbox-cgroup-probe-"@ + boot_id + "-"@ + decimal(iteration as nat) + ".scope"@
}

/// The target of a probe.
pub fn probe_target(boot_id: &str, iteration: u32, parent_identity: FileIdentity) -> (target:
    HostTarget)
    ensures
        target@ == (HostTargetView::Systemd {
            oci_path: "system.slice:cubesandbox-cgroup-probe:"@ + decimal(iteration as nat),
            slice: "system.slice"@,
            unit: probe_unit(boot_id@, iteration),
            cgroup: "/system.slice/"@ + probe_unit(boot_id@, iteration),
            parent_identity,
            leaf_identity: None,
        }),
{
    let number = decimal_text(iteration as u128);
    let unit = "cubesandbox-cgroup-probe-".to_owned().concat(boot_id).concat("-").concat(
        number.as_str(),
    ).concat(".scope");
    let cgroup = "/system.slice/".to_owned().concat(unit.as_str());
    HostTarget::Systemd {
        oci_path: "system.slice:cubesandbox-cgroup-probe:".to_owned().concat(number.as_str()),
        slice: "system.slice".to_owned(),
        unit,
        cgroup,
        parent_identity,
        leaf_identity: None,
    }
}

/// How often a probe looks for what should be gone.
pub const PROBE_LOOKS: u32 = 500;

/// Where an iteration of a probe stands.
#[derive(Debug, PartialEq, Eq)]
pub enum ProbeStage {
    /// A member is started.
    Spawning,
    /// The member joins the scope.
    Joining,
    /// The scope's cgroup is identified and the member is seen in it.
    Verifying,
    /// The member is ended.
    Ending,
    /// The cgroup has to go.
    AwaitingCgroup { looks: u32 },
    CheckingCgroup,
    /// The unit has to go.
    AwaitingUnit { looks: u32 },
    CheckingUnit,
    /// The member is ended because the probe failed.
    Abandoning { message: String },
    Passed,
    Failed { message: String },
}

/// The contents of a [`ProbeStage`].
pub enum ProbeStageView {
    Spawning,
    Joining,
    Verifying,
    Ending,
    AwaitingCgroup { looks: u32 },
    CheckingCgroup,
    AwaitingUnit { looks: u32 },
    CheckingUnit,
    Abandoning { message: Seq<char> },
    Passed,
    Failed { message: Seq<char> },
}

impl View for ProbeStage {
    type V = ProbeStageView;

    open spec fn view(&self) -> ProbeStageView {
        match self {
            ProbeStage::Spawning => ProbeStageView::Spawning,
            ProbeStage::Joining => ProbeStageView::Joining,
            ProbeStage::Verifying => ProbeStageView::Verifying,
            ProbeStage::Ending => ProbeStageView::Ending,
            ProbeStage::AwaitingCgroup { looks } => ProbeStageView::AwaitingCgroup {
                looks: *looks,
            },
            ProbeStage::CheckingCgroup => ProbeStageView::CheckingCgroup,
            ProbeStage::AwaitingUnit { looks } => ProbeStageView::AwaitingUnit { looks: *looks },
            ProbeStage::CheckingUnit => ProbeStageView::CheckingUnit,
            ProbeStage::Abandoning { message } => ProbeStageView::Abandoning { message: message@ },
            ProbeStage::Passed => ProbeStageView::Passed,
            ProbeStage::Failed { message } => ProbeStageView::Failed { message: message@ },
        }
    }
}

/// A probe of systemd's scopes.
#[derive(Debug, PartialEq, Eq)]
pub struct ScopeProbe {
    pub iteration: u32,
    pub stage: ProbeStage,
}

/// The contents of a [`ScopeProbe`].
pub struct ScopeProbeView {
    pub iteration: u32,
    pub stage: ProbeStageView,
}

impl View for ScopeProbe {
    type V = ScopeProbeView;

    open spec fn view(&self) -> ScopeProbeView {
        ScopeProbeView { iteration: self.iteration, stage: self.stage@ }
    }
}

/// The message of a failed iteration.
pub open spec fn iteration_message(iteration: u32, error: Seq<char>) -> Seq<char> {
    "systemd probe iteration "@ + decimal(iteration as nat) + ": "@ + error
}

/// The next iteration of a probe, or its end.
pub open spec fn iterated(iteration: u32) -> ScopeProbeView {
    if iteration + 1 >= PROBE_ITERATIONS {
        ScopeProbeView { iteration, stage: ProbeStageView::Passed }
    } else {
        ScopeProbeView { iteration: (iteration + 1) as u32, stage: ProbeStageView::Spawning }
    }
}

/// The transitions of a probe: `Ok` tells of what was looked for whether it is
/// gone, and of anything else that it was done.
pub open spec fn probe_next(
    state: ScopeProbeView,
    answer: Result<bool, String>,
    path: Seq<char>,
    unit: Seq<char>,
) -> ScopeProbeView {
    let at = |stage: ProbeStageView| ScopeProbeView { stage, ..state };
    match state.stage {
        ProbeStageView::Passed | ProbeStageView::Failed { .. } => state,
        ProbeStageView::Abandoning { message } => at(ProbeStageView::Failed { message }),
        _ => match answer {
            Err(error) => match state.stage {
                ProbeStageView::Joining | ProbeStageView::Verifying => at(
                    ProbeStageView::Abandoning {
                        message: iteration_message(state.iteration, error@),
                    },
                ),
                _ => at(ProbeStageView::Failed { message: error@ }),
            },
            Ok(gone) => match state.stage {
                ProbeStageView::Spawning => at(ProbeStageView::Joining),
                ProbeStageView::Joining => at(ProbeStageView::Verifying),
                ProbeStageView::Verifying => at(ProbeStageView::Ending),
                ProbeStageView::Ending => at(ProbeStageView::AwaitingCgroup { looks: 0 }),
                ProbeStageView::AwaitingCgroup { looks } => if gone || looks + 1 >= PROBE_LOOKS {
                    at(ProbeStageView::CheckingCgroup)
                } else {
                    at(ProbeStageView::AwaitingCgroup { looks: (looks + 1) as u32 })
                },
                ProbeStageView::CheckingCgroup => if gone {
                    at(ProbeStageView::AwaitingUnit { looks: 0 })
                } else {
                    at(
                        ProbeStageView::Failed {
                            message: "systemd probe scope was not collected at iteration "@
                                + decimal(state.iteration as nat) + ": "@ + path,
                        },
                    )
                },
                ProbeStageView::AwaitingUnit { looks } => if gone || looks + 1 >= PROBE_LOOKS {
                    at(ProbeStageView::CheckingUnit)
                } else {
                    at(ProbeStageView::AwaitingUnit { looks: (looks + 1) as u32 })
                },
                ProbeStageView::CheckingUnit => if gone {
                    iterated(state.iteration)
                } else {
                    at(
                        ProbeStageView::Failed {
                            message: "systemd probe unit was not collected at iteration "@
                                + decimal(state.iteration as nat) + ": "@ + unit,
                        },
                    )
                },
                _ => state,
            },
        },
    }
}

impl ScopeProbe {
    /// A probe that is about to begin.
    pub fn start() -> (state: Self)
        ensures
            state@ == (ScopeProbeView { iteration: 0, stage: ProbeStageView::Spawning }),
    {
        ScopeProbe { iteration: 0, stage: ProbeStage::Spawning }
    }

    /// The probe after an answer to its stage.
    pub fn step(self, answer: Result<bool, String>, path: &str, unit: &str) -> (next: Self)
        ensures
            next@ == probe_next(self@, answer, path@, unit@),
    {
        let iteration = self.iteration;
        let number = decimal_text(iteration as u128);
        let stage = match (self.stage, answer) {
            (ProbeStage::Passed, _) => ProbeStage::Passed,
            (ProbeStage::Failed { message }, _) => ProbeStage::Failed { message },
            (ProbeStage::Abandoning { message }, _) => ProbeStage::Failed { message },
            (ProbeStage::Joining, Err(error)) => ProbeStage::Abandoning {
                message: "systemd probe iteration ".to_owned().concat(number.as_str()).concat(
                    ": ",
                ).concat(error.as_str()),
            },
            (ProbeStage::Verifying, Err(error)) => ProbeStage::Abandoning {
                message: "systemd probe iteration ".to_owned().concat(number.as_str()).concat(
                    ": ",
                ).concat(error.as_str()),
            },
            (_, Err(message)) => ProbeStage::Failed { message },
            (ProbeStage::Spawning, Ok(_)) => ProbeStage::Joining,
            (ProbeStage::Joining, Ok(_)) => ProbeStage::Verifying,
            (ProbeStage::Verifying, Ok(_)) => ProbeStage::Ending,
            (ProbeStage::Ending, Ok(_)) => ProbeStage::AwaitingCgroup { looks: 0 },
            (ProbeStage::AwaitingCgroup { looks }, Ok(gone)) => {
                if gone || looks >= PROBE_LOOKS - 1 {
                    ProbeStage::CheckingCgroup
                } else {
                    ProbeStage::AwaitingCgroup { looks: looks + 1 }
                }
            },
            (ProbeStage::CheckingCgroup, Ok(gone)) => if gone {
                ProbeStage::AwaitingUnit { looks: 0 }
            } else {
                ProbeStage::Failed {
                    message: "systemd probe scope was not collected at iteration ".to_owned().concat(
                    number.as_str()).concat(": ").concat(path),
                }
            },
            (ProbeStage::AwaitingUnit { looks }, Ok(gone)) => {
                if gone || looks >= PROBE_LOOKS - 1 {
                    ProbeStage::CheckingUnit
                } else {
                    ProbeStage::AwaitingUnit { looks: looks + 1 }
                }
            },
            (ProbeStage::CheckingUnit, Ok(gone)) => {
                if gone {
                    if iteration >= PROBE_ITERATIONS - 1 {
                        return ScopeProbe { iteration, stage: ProbeStage::Passed };
                    }
                    return ScopeProbe { iteration: iteration + 1, stage: ProbeStage::Spawning };
                }
                ProbeStage::Failed {
                    message: "systemd probe unit was not collected at iteration ".to_owned().concat(
                    number.as_str()).concat(": ").concat(unit),
                }
            },
        };
        ScopeProbe { iteration, stage }
    }
}

/// The stamp of a probe that passed.
pub fn probe_stamp(
    boot_id: &str,
    binary: &str,
    binary_identity: FileIdentity,
    binary_sha256: &str,
    completed_at_ms: u128,
) -> (r: Result<WatchdogProbeStamp, String>)
    ensures
        if binary@ != WATCHDOG_BINARY@ {
            fails_with(
                r,
                "systemd probe executable "@ + binary@ + " does not match installed path "@
                    + WATCHDOG_BINARY@,
            )
        } else {
            r matches Ok(stamp) && stamp.schema_version == SCHEMA_VERSION && stamp.boot_id@
                == boot_id@ && stamp.binary_path@ == binary@ && stamp.binary_identity
                == binary_identity && stamp.binary_sha256@ == binary_sha256@ && stamp.iterations
                == PROBE_ITERATIONS && stamp.completed_at_ms == completed_at_ms
        },
{
    if !text_eq(binary, WATCHDOG_BINARY) {
        return Err(
            "systemd probe executable ".to_owned().concat(binary).concat(
                " does not match installed path ",
            ).concat(WATCHDOG_BINARY),
        );
    }
    Ok(
        WatchdogProbeStamp {
            schema_version: SCHEMA_VERSION,
            boot_id: boot_id.to_owned(),
            binary_path: binary.to_owned(),
            binary_identity,
            binary_sha256: binary_sha256.to_owned(),
            iterations: PROBE_ITERATIONS,
            completed_at_ms,
        },
    )
}

/// A probe passes only after its last iteration, whose cgroup and unit were
/// both seen to be gone.
pub proof fn law_probe_passes_after_every_iteration(
    state: ScopeProbeView,
    answer: Result<bool, String>,
    path: Seq<char>,
    unit: Seq<char>,
)
    requires
        !(state.stage is Passed),
    ensures
        probe_next(state, answer, path, unit).stage is Passed ==> state.iteration + 1
            >= PROBE_ITERATIONS && state.stage is CheckingUnit && answer == Ok::<bool, String>(
            true,
        ),
        probe_next(state, answer, path, unit).stage is AwaitingUnit && !(
        state.stage is AwaitingUnit) ==> state.stage is CheckingCgroup && answer == Ok::<
            bool,
            String,
        >(true),
{
}

/// A stamp of another boot or of another build is refused.
pub proof fn law_foreign_stamp_is_refused(stamp: WatchdogProbeStamp, seen: WatchdogSighting)
    requires
        stamp.boot_id@ != seen.boot_id@ || stamp.binary_sha256@ != seen.current_sha256@,
    ensures
        watchdog_fault(seen, Ok(stamp)) is Some,
{
}

/// The node's one watchdog, of this boot and with its start time, and a stamp
/// of two hundred probes of this boot and build let a sandbox be prepared.
pub proof fn law_probed_watchdog_is_accepted(
    seen: WatchdogSighting,
    stamp: WatchdogProbeStamp,
)
    requires
        watchdogs(seen.processes@, seen.executable).len() == 1,
    ensures
        ({
            let only = watchdogs(seen.processes@, seen.executable)[0];
            (watchdog_fault(seen, Ok(stamp)) is None) == (only.boot_id == seen.boot_id@
                && only.start_time_ticks != 0 && stamp.schema_version == 2 && stamp.boot_id@
                == seen.boot_id@ && stamp.binary_path@
                == "/usr/local/bin/containerd-shim-cube-rs"@ && stamp.binary_identity
                == seen.executable && stamp.binary_sha256@ == seen.binary_sha256@
                && seen.current_sha256@ == seen.binary_sha256@ && stamp.iterations == 200
                && stamp.completed_at_ms != 0)
        }),
{
}

/// No watchdog, or more than one, lets none be prepared, whatever the stamp.
pub proof fn law_one_watchdog_is_needed(
    seen: WatchdogSighting,
    stamp: Result<WatchdogProbeStamp, String>,
)
    ensures
        watchdogs(seen.processes@, seen.executable).len() != 1 ==> watchdog_fault(seen, stamp)
            is Some,
        stamp is Err ==> watchdog_fault(seen, stamp) is Some,
{
}

/// Every process with the watchdog's cgroup, executable and command is counted,
/// and no other one.
pub proof fn law_every_watchdog_is_counted(
    seen: Seq<Result<ProcessIdentity, String>>,
    executable: FileIdentity,
    identity: ProcessIdentity,
    message: String,
)
    ensures
        watchdogs(Seq::empty(), executable).len() == 0,
        watchdogs(seen.push(Err(message)), executable) == watchdogs(seen, executable),
        identity@.cgroup == "/system.slice/cubesandbox-shim-watchdog.service"@
            && identity@.executable == executable && identity@.command_sha256 == hex(
            sha256(command_line(watchdog_argv())),
        ) ==> watchdogs(seen.push(Ok(identity)), executable) == watchdogs(seen, executable).push(
            identity@,
        ),
        identity@.cgroup != "/system.slice/cubesandbox-shim-watchdog.service"@
            || identity@.executable != executable || identity@.command_sha256 != hex(
            sha256(command_line(watchdog_argv())),
        ) ==> watchdogs(seen.push(Ok(identity)), executable) == watchdogs(seen, executable),
{
    assert(seen.push(Ok(identity)).drop_last() =~= seen);
    assert(seen.push(Err(message)).drop_last() =~= seen);
}

/// Every line of the watchdog's cgroup names one process, in its place.
pub proof fn law_every_member_is_read(lines: Seq<Seq<char>>, from: int)
    requires
        0 <= from <= lines.len(),
        forall|i: int|
            from <= i < lines.len() ==> signed_value(
                #[trigger] lines[i],
                -2_147_483_648,
                2_147_483_647,
            ) is Some,
    ensures
        watchdog_members(lines, from) is Ok,
        watchdog_members(lines, from)->Ok_0.len() == lines.len() - from,
        forall|i: int|
            from <= i < lines.len() ==> signed_value(lines[i], -2_147_483_648, 2_147_483_647)
                == Some(#[trigger] watchdog_members(lines, from)->Ok_0[i - from] as int),
    decreases lines.len() - from,
{
    if from < lines.len() {
        law_every_member_is_read(lines, from + 1);
        assert(signed_value(lines[from], -2_147_483_648, 2_147_483_647) is Some);
        let rest = watchdog_members(lines, from + 1)->Ok_0;
        let all = watchdog_members(lines, from)->Ok_0;
        assert forall|i: int| from <= i < lines.len() implies signed_value(
            lines[i],
            -2_147_483_648,
            2_147_483_647,
        ) == Some(#[trigger] all[i - from] as int) by {
            if i > from {
                assert(all[i - from] == rest[i - (from + 1)]);
            }
        }
    }
}

/// An undisturbed iteration of the probe spawns, joins, verifies and ends a
/// process, sees its cgroup and its unit go, and is followed by the next, until
/// two hundred have passed.
pub proof fn law_undisturbed_probe_goes_on(
    iteration: u32,
    path: Seq<char>,
    unit: Seq<char>,
)
    requires
        iteration < 200,
    ensures
        ({
            let a = ScopeProbeView { iteration, stage: ProbeStageView::Spawning };
            let b = probe_next(a, Ok(true), path, unit);
            let c = probe_next(b, Ok(true), path, unit);
            let d = probe_next(c, Ok(true), path, unit);
            let e = probe_next(d, Ok(true), path, unit);
            let f = probe_next(e, Ok(true), path, unit);
            let g = probe_next(f, Ok(true), path, unit);
            let h = probe_next(g, Ok(true), path, unit);
            let i = probe_next(h, Ok(true), path, unit);
            &&& b.stage == ProbeStageView::Joining
            &&& c.stage == ProbeStageView::Verifying
            &&& d.stage == ProbeStageView::Ending
            &&& e.stage == (ProbeStageView::AwaitingCgroup { looks: 0 })
            &&& f.stage == ProbeStageView::CheckingCgroup
            &&& g.stage == (ProbeStageView::AwaitingUnit { looks: 0 })
            &&& h.stage == ProbeStageView::CheckingUnit
            &&& iteration < 199 ==> i == (ScopeProbeView {
                iteration: (iteration + 1) as u32,
                stage: ProbeStageView::Spawning,
            })
            &&& iteration == 199 ==> i.stage == ProbeStageView::Passed
        }),
{
}

/// A scope that lingers is looked at five hundred times, and fails the probe
/// where it is still there; so does its unit.
pub proof fn law_lingering_scope_fails_the_probe(
    iteration: u32,
    looks: u32,
    path: Seq<char>,
    unit: Seq<char>,
)
    ensures
        looks < 499 ==> probe_next(
            ScopeProbeView { iteration, stage: ProbeStageView::AwaitingCgroup { looks } },
            Ok(false),
            path,
            unit,
        ) == (ScopeProbeView {
            iteration,
            stage: ProbeStageView::AwaitingCgroup { looks: (looks + 1) as u32 },
        }),
        looks < 499 ==> probe_next(
            ScopeProbeView { iteration, stage: ProbeStageView::AwaitingUnit { looks } },
            Ok(false),
            path,
            unit,
        ) == (ScopeProbeView {
            iteration,
            stage: ProbeStageView::AwaitingUnit { looks: (looks + 1) as u32 },
        }),
        looks >= 499 ==> probe_next(
            ScopeProbeView { iteration, stage: ProbeStageView::AwaitingCgroup { looks } },
            Ok(false),
            path,
            unit,
        ).stage == ProbeStageView::CheckingCgroup,
        looks >= 499 ==> probe_next(
            ScopeProbeView { iteration, stage: ProbeStageView::AwaitingUnit { looks } },
            Ok(false),
            path,
            unit,
        ).stage == ProbeStageView::CheckingUnit,
        probe_next(
            ScopeProbeView { iteration, stage: ProbeStageView::CheckingCgroup },
            Ok(false),
            path,
            unit,
        ).stage == (ProbeStageView::Failed {
            message: "systemd probe scope was not collected at iteration "@ + decimal(
                iteration as nat,
            ) + ": "@ + path,
        }),
        probe_next(
            ScopeProbeView { iteration, stage: ProbeStageView::CheckingUnit },
            Ok(false),
            path,
            unit,
        ).stage == (ProbeStageView::Failed {
            message: "systemd probe unit was not collected at iteration "@ + decimal(
                iteration as nat,
            ) + ": "@ + unit,
        }),
{
}

/// A failure fails the probe with its message; where a process was spawned it
/// is ended first, whatever comes of that, and the iteration is told with it.
pub proof fn law_failed_probe_ends_its_process(
    iteration: u32,
    error: String,
    answer: Result<bool, String>,
    path: Seq<char>,
    unit: Seq<char>,
)
    ensures
        ({
            let told = "systemd probe iteration "@ + decimal(iteration as nat) + ": "@ + error@;
            let joining = probe_next(
                ScopeProbeView { iteration, stage: ProbeStageView::Joining },
                Err(error),
                path,
                unit,
            );
            let verifying = probe_next(
                ScopeProbeView { iteration, stage: ProbeStageView::Verifying },
                Err(error),
                path,
                unit,
            );
            &&& joining.stage == (ProbeStageView::Abandoning { message: told })
            &&& verifying == joining
            &&& probe_next(joining, answer, path, unit).stage == (ProbeStageView::Failed {
                message: told,
            })
            &&& probe_next(
                ScopeProbeView { iteration, stage: ProbeStageView::Spawning },
                Err(error),
                path,
                unit,
            ).stage == (ProbeStageView::Failed { message: error@ })
            &&& probe_next(
                ScopeProbeView { iteration, stage: ProbeStageView::Ending },
                Err(error),
                path,
                unit,
            ).stage == (ProbeStageView::Failed { message: error@ })
        }),
{
}

/// Each probe of a boot has a scope of its own.
pub proof fn law_probes_have_their_own_scope(boot_id: Seq<char>, a: u32, b: u32)
    ensures
        probe_unit(boot_id, a) == "cubesandbox-cgroup-probe-"@ + boot_id + "-"@ + decimal(a as nat)
            + ".scope"@,
        probe_unit(boot_id, a) == probe_unit(boot_id, b) ==> a == b,
{
    if probe_unit(boot_id, a) == probe_unit(boot_id, b) {
        let head = "cubesandbox-cgroup-probe-"@ + boot_id + "-"@;
        let one = head + decimal(a as nat) + ".scope"@;
        let two = head + decimal(b as nat) + ".scope"@;
        assert(one.len() == two.len());
        assert(decimal(a as nat).len() == decimal(b as nat).len());
        let n = decimal(a as nat).len() as int;
        assert(one.subrange(head.len() as int, head.len() + n) =~= decimal(a as nat));
        assert(two.subrange(head.len() as int, head.len() + n) =~= decimal(b as nat));
        crate::text::law_numbers_read_back(a as nat);
        crate::text::law_numbers_read_back(b as nat);
    }
}

} // verus!
