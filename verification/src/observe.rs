//! Whether a recorded process is still there, and is still the recorded one.
use vstd::prelude::*;

use crate::identity::{
    immutable_identity_matches, same_process, ProcessIdentity, ProcessIdentityView,
};
use crate::text::{fails_with, signed_decimal, signed_decimal_text, text_eq};

verus! {

/// The error number for a process that does not exist.
pub const ESRCH: i32 = 3;

/// The error number for an invalid argument.
pub const EINVAL: i32 = 22;

/// What was found of a recorded process.
#[derive(Debug, PartialEq, Eq)]
pub enum ProcessObservation {
    /// It has ended.
    Gone,
    /// Its number belongs to another process now.
    Reused,
    /// It is there, in its recorded cgroup or not.
    Exact { identity: ProcessIdentity, containment_ok: bool },
}

/// The contents of a [`ProcessObservation`].
pub enum ObservationView {
    Gone,
    Reused,
    Exact { identity: ProcessIdentityView, containment_ok: bool },
}

impl View for ProcessObservation {
    type V = ObservationView;

    open spec fn view(&self) -> ObservationView {
        match self {
            ProcessObservation::Gone => ObservationView::Gone,
            ProcessObservation::Reused => ObservationView::Reused,
            ProcessObservation::Exact { identity, containment_ok } => ObservationView::Exact {
                identity: identity@,
                containment_ok: *containment_ok,
            },
        }
    }
}

/// Whether the entry of a process is there.
#[derive(Clone, Copy, Debug, PartialEq, Eq, Structural)]
pub enum ProcPresence {
    Present,
    Missing,
    Unknown,
}

/// Whether a failure to open a process means that it has ended.
pub open spec fn open_means_gone(errno: Option<i32>, presence: ProcPresence) -> bool {
    errno == Some(ESRCH) || (errno == Some(EINVAL) && presence == ProcPresence::Missing)
}

/// Whether a failure to open a process means that it has ended. An invalid
/// argument means so only where the entry of the process is seen to be missing.
pub fn pidfd_open_failure_means_gone(errno: Option<i32>, presence: ProcPresence) -> (r: bool)
    ensures
        r == open_means_gone(errno, presence),
{
    match errno {
        None => false,
        Some(number) => number == ESRCH || (number == EINVAL && presence
            == ProcPresence::Missing),
    }
}

/// Whether a failure to identify a process means that it has ended.
pub fn process_identity_failure_means_gone(presence: ProcPresence) -> (r: bool)
    ensures
        r == (presence == ProcPresence::Missing),
{
    presence == ProcPresence::Missing
}

/// Why a process could not be opened.
pub struct OpenFailure {
    pub errno: Option<i32>,
    pub message: String,
}

/// What was tried on a recorded process: to open it, where that or its
/// identification failed to look for its entry, and to identify it.
pub struct ProcessProbe {
    pub opened: Result<(), OpenFailure>,
    pub present: Result<bool, String>,
    pub identity: Result<ProcessIdentity, String>,
}

/// What a probe says of a recorded process.
pub open spec fn observation(expected: ProcessIdentityView, probe: ProcessProbe) -> Result<
    ObservationView,
    Seq<char>,
> {
    let pid = signed_decimal(expected.pid as int);
    match probe.opened {
        Err(failure) => {
            let complaint = "pidfd_open lifecycle pid "@ + pid + ": "@ + failure.message@;
            if failure.errno == Some(ESRCH) {
                Ok(ObservationView::Gone)
            } else if failure.errno != Some(EINVAL) {
                Err(complaint)
            } else {
                match probe.present {
                    Err(error) => Err(complaint + "; inspect /proc/"@ + pid + ": "@ + error@),
                    Ok(present) => if present {
                        Err(complaint)
                    } else {
                        Ok(ObservationView::Gone)
                    },
                }
            }
        },
        Ok(_) => match probe.identity {
            Err(error) => match probe.present {
                Err(missing) => Err(
                    error@ + "; inspect /proc/"@ + pid + " after live pidfd identity error: "@
                        + missing@,
                ),
                Ok(present) => if present {
                    Err(error@)
                } else {
                    Ok(ObservationView::Gone)
                },
            },
            Ok(actual) => if !same_process(expected, actual@) {
                Ok(ObservationView::Reused)
            } else {
                Ok(
                    ObservationView::Exact {
                        identity: actual@,
                        containment_ok: actual@.cgroup == expected.cgroup,
                    },
                )
            },
        },
    }
}

/// The outcome of an observation.
pub open spec fn seen(r: Result<ProcessObservation, String>) -> Result<ObservationView, Seq<char>> {
    match r {
        Ok(found) => Ok(found@),
        Err(error) => Err(error@),
    }
}

/// What a probe says of a recorded process.
pub fn observe_process(expected: &ProcessIdentity, probe: &ProcessProbe) -> (r: Result<
    ProcessObservation,
    String,
>)
    ensures
        seen(r) == observation(expected@, *probe),
{
    let pid = signed_decimal_text(expected.pid as i64);
    match &probe.opened {
        Err(failure) => {
            let complaint = "pidfd_open lifecycle pid ".to_owned().concat(pid.as_str()).concat(
                ": ",
            ).concat(failure.message.as_str());
            let invalid = match failure.errno {
                Some(number) => number == EINVAL,
                None => false,
            };
            let presence = if invalid {
                match &probe.present {
                    Err(error) => return Err(
                        complaint.concat("; inspect /proc/").concat(pid.as_str()).concat(
                            ": ",
                        ).concat(error.as_str()),
                    ),
                    Ok(present) => if *present {
                        ProcPresence::Present
                    } else {
                        ProcPresence::Missing
                    },
                }
            } else {
                ProcPresence::Unknown
            };
            if pidfd_open_failure_means_gone(failure.errno, presence) {
                return Ok(ProcessObservation::Gone);
            }
            Err(complaint)
        },
        Ok(()) => match &probe.identity {
            Err(error) => match &probe.present {
                Err(missing) => Err(
                    error.as_str().to_owned().concat("; inspect /proc/").concat(
                        pid.as_str(),
                    ).concat(" after live pidfd identity error: ").concat(missing.as_str()),
                ),
                Ok(present) => {
                    let presence = if *present {
                        ProcPresence::Present
                    } else {
                        ProcPresence::Missing
                    };
                    if process_identity_failure_means_gone(presence) {
                        Ok(ProcessObservation::Gone)
                    } else {
                        Err(error.clone())
                    }
                },
            },
            Ok(actual) => if !immutable_identity_matches(expected, actual) {
                Ok(ProcessObservation::Reused)
            } else {
                Ok(
                    ProcessObservation::Exact {
                        identity: actual.clone(),
                        containment_ok: text_eq(actual.cgroup.as_str(), expected.cgroup.as_str()),
                    },
                )
            },
        },
    }
}

/// Whether an observation shows the recorded process alive.
pub fn immutable_process_is_live(found: &Result<ProcessObservation, String>) -> (r: Result<
    bool,
    String,
>)
    ensures
        match seen(*found) {
            Err(message) => fails_with(r, message),
            Ok(observed) => r == Ok::<bool, String>(observed is Exact),
        },
{
    match found {
        Err(error) => Err(error.clone()),
        Ok(ProcessObservation::Exact { .. }) => Ok(true),
        Ok(_) => Ok(false),
    }
}

/// Whether a process may be signalled: it may while it is the expected one, in
/// its cgroup or with a breach that is durable; `refusal` ends the message
/// otherwise.
pub open spec fn signal_permission(
    expected: ProcessIdentityView,
    actual: Result<ProcessIdentity, String>,
    allow_breach: bool,
    refusal: Seq<char>,
) -> Result<bool, Seq<char>> {
    match actual {
        Err(error) => Err(error@),
        Ok(found) => if !same_process(expected, found@) {
            Ok(false)
        } else if found@.cgroup != expected.cgroup && !allow_breach {
            Err("refuse to signal pid "@ + signed_decimal(expected.pid as int) + refusal)
        } else {
            Ok(true)
        },
    }
}

/// How a check before a signal ends, by when it is made.
pub open spec fn refusal_text(last_check: bool) -> Seq<char> {
    if last_check {
        " after containment changed"@
    } else {
        " outside expected cgroup"@
    }
}

/// Whether a process may be signalled. The check is made twice, the last time
/// immediately before the signal; `false` means that the process is another
/// one by now and nothing is left to signal.
pub fn may_signal(
    expected: &ProcessIdentity,
    actual: &Result<ProcessIdentity, String>,
    allow_breach: bool,
    last_check: bool,
) -> (r: Result<bool, String>)
    ensures
        match signal_permission(expected@, *actual, allow_breach, refusal_text(last_check)) {
            Err(message) => fails_with(r, message),
            Ok(allowed) => r == Ok::<bool, String>(allowed),
        },
{
    match actual {
        Err(error) => Err(error.clone()),
        Ok(found) => {
            if !immutable_identity_matches(expected, found) {
                return Ok(false);
            }
            if !text_eq(found.cgroup.as_str(), expected.cgroup.as_str()) && !allow_breach {
                let refusal = if last_check {
                    " after containment changed"
                } else {
                    " outside expected cgroup"
                };
                return Err(
                    "refuse to signal pid ".to_owned().concat(
                        signed_decimal_text(expected.pid as i64).as_str(),
                    ).concat(refusal),
                );
            }
            Ok(true)
        },
    }
}

/// A process that took over the number of a recorded one is never signalled
/// in its place.
pub proof fn law_reused_number_is_not_signalled(
    expected: ProcessIdentityView,
    actual: ProcessIdentity,
    allow_breach: bool,
    refusal: Seq<char>,
)
    requires
        !same_process(expected, actual@),
    ensures
        signal_permission(expected, Ok(actual), allow_breach, refusal) == Ok::<bool, Seq<char>>(
            false,
        ),
{
}

/// A process outside its recorded cgroup is signalled only with a durable
/// breach.
pub proof fn law_uncontained_process_needs_a_durable_breach(
    expected: ProcessIdentityView,
    actual: ProcessIdentity,
    refusal: Seq<char>,
)
    requires
        actual@.cgroup != expected.cgroup,
    ensures
        signal_permission(expected, Ok(actual), false, refusal) != Ok::<bool, Seq<char>>(true),
{
}

/// A process counts as gone where the kernel does not know its number, or
/// refuses it and nothing stands under it; any other failure to open it proves
/// nothing.
pub proof fn law_gone_process_is_proven_gone(
    expected: ProcessIdentityView,
    errno: Option<i32>,
    message: String,
    present: bool,
    identity: Result<ProcessIdentity, String>,
    presence: ProcPresence,
)
    ensures
        ({
            let found = observation(
                expected,
                ProcessProbe {
                    opened: Err(OpenFailure { errno, message }),
                    present: Ok(present),
                    identity,
                },
            );
            let gone = errno == Some(3i32) || (errno == Some(22i32) && !present);
            &&& gone ==> found == Ok::<ObservationView, Seq<char>>(ObservationView::Gone)
            &&& !gone ==> found == Err::<ObservationView, Seq<char>>(
                "pidfd_open lifecycle pid "@ + signed_decimal(expected.pid as int) + ": "@
                    + message@,
            )
        }),
        open_means_gone(errno, presence) == (errno == Some(3i32) || (errno == Some(22i32)
            && presence == ProcPresence::Missing)),
{
}

/// A process that could be opened and read is the recorded one, in its cgroup
/// or not, or another one under its number; one that vanished under the look is
/// gone, and one that is there but cannot be read proves nothing.
pub proof fn law_open_process_is_recognised(
    expected: ProcessIdentityView,
    present: bool,
    actual: ProcessIdentity,
    error: String,
)
    ensures
        same_process(expected, actual@) ==> observation(
            expected,
            ProcessProbe { opened: Ok(()), present: Ok(present), identity: Ok(actual) },
        ) == Ok::<ObservationView, Seq<char>>(
            ObservationView::Exact {
                identity: actual@,
                containment_ok: actual@.cgroup == expected.cgroup,
            },
        ),
        !same_process(expected, actual@) ==> observation(
            expected,
            ProcessProbe { opened: Ok(()), present: Ok(present), identity: Ok(actual) },
        ) == Ok::<ObservationView, Seq<char>>(ObservationView::Reused),
        observation(
            expected,
            ProcessProbe { opened: Ok(()), present: Ok(false), identity: Err(error) },
        ) == Ok::<ObservationView, Seq<char>>(ObservationView::Gone),
        observation(
            expected,
            ProcessProbe { opened: Ok(()), present: Ok(true), identity: Err(error) },
        ) == Err::<ObservationView, Seq<char>>(error@),
{
}

/// The recorded process is signalled where it is in its cgroup, and with a
/// durable breach wherever it is; what cannot be read is not signalled.
pub proof fn law_recorded_process_may_be_signalled(
    expected: ProcessIdentityView,
    actual: ProcessIdentity,
    allow_breach: bool,
    last_check: bool,
    error: String,
)
    requires
        same_process(expected, actual@),
    ensures
        actual@.cgroup == expected.cgroup || allow_breach ==> signal_permission(
            expected,
            Ok(actual),
            allow_breach,
            refusal_text(last_check),
        ) == Ok::<bool, Seq<char>>(true),
        actual@.cgroup != expected.cgroup && !allow_breach ==> signal_permission(
            expected,
            Ok(actual),
            allow_breach,
            refusal_text(last_check),
        ) == Err::<bool, Seq<char>>(
            "refuse to signal pid "@ + signed_decimal(expected.pid as int) + (if last_check {
                " after containment changed"@
            } else {
                " outside expected cgroup"@
            }),
        ),
        signal_permission(expected, Err(error), allow_breach, refusal_text(last_check)) == Err::<
            bool,
            Seq<char>,
        >(error@),
{
}

} // verus!
