//! The publication of a Create's durable result, by the one Create that was
//! admitted first.
use vstd::prelude::*;

use crate::lifecycle::{
    create_failure, create_result, create_success, recorded_create_result, LifecycleHandle,
    LifecycleView, PersistedCreateResult, PersistedCreateResultView,
};
use crate::record::LifecycleRecord;
use crate::target::TargetSighting;
use crate::text::{fails_with, outcomes};

verus! {

/// How long a publisher first waits before it tries again.
pub const FIRST_DELAY_MS: u64 = 10;

/// How long a publisher waits at most before it tries again.
pub const LAST_DELAY_MS: u64 = 1000;

/// The pause between two looks at the durable result of a Create.
pub const RESULT_PAUSE_MS: u64 = 20;

/// The delay that follows a delay: twice as long, up to the longest.
pub open spec fn next_delay(delay: u64) -> int {
    if 2 * delay > LAST_DELAY_MS {
        LAST_DELAY_MS as int
    } else {
        2 * delay
    }
}

/// The delay that follows a delay.
pub fn next_delay_ms(delay: u64) -> (next: u64)
    ensures
        next == next_delay(delay),
{
    if delay > LAST_DELAY_MS / 2 {
        LAST_DELAY_MS
    } else {
        2 * delay
    }
}

/// What a publication leads to. A durable result stays as it is.
pub open spec fn publication(
    state: LifecycleView,
    result: PersistedCreateResultView,
    now: Result<u128, String>,
    seen: TargetSighting,
    readings: Seq<Result<Seq<char>, Seq<char>>>,
) -> Result<LifecycleView, Seq<char>> {
    match create_result(state.record) {
        Err(message) => Err(message),
        Ok(Some(_)) => Ok(state),
        Ok(None) => match result {
            PersistedCreateResultView::Succeeded => match create_success(state, seen, readings) {
                Err(message) => Err(message),
                Ok(None) => Ok(state),
                Ok(Some(record)) => Ok(LifecycleView { record, ..state }),
            },
            PersistedCreateResultView::Failed { code, message } => match create_failure(
                state.record,
                code,
                message,
                now,
            ) {
                Err(message) => Err(message),
                Ok(record) => Ok(LifecycleView { record, ..state }),
            },
        },
    }
}

/// Tries once to make the result of a Create durable. Where a result is
/// durable already, that one stands and the publication is over.
pub fn publish_create_result_once(
    handle: &mut LifecycleHandle,
    result: &PersistedCreateResult,
    now: &Result<u128, String>,
    seen: &TargetSighting,
    readings: &Vec<Result<String, String>>,
) -> (r: Result<(), String>)
    requires
        old(handle)@.host_owner.controllers matches Some(journal) ==> readings@.len()
            == journal.steps.len(),
    ensures
        match publication(old(handle)@, result@, *now, *seen, outcomes(readings@)) {
            Ok(next) => r is Ok && final(handle)@ == next,
            Err(message) => fails_with(r, message) && final(handle)@ == old(handle)@,
        },
{
    match handle.current_create_result() {
        Err(message) => return Err(message),
        Ok(Some(_)) => return Ok(()),
        Ok(None) => {},
    }
    match result {
        PersistedCreateResult::Succeeded => match handle.finish_create_success(seen, readings) {
            Err(message) => Err(message),
            Ok(_) => Ok(()),
        },
        PersistedCreateResult::Failed { code, message } => handle.finish_create_failure(
            code.as_str(),
            message.as_str(),
            now,
        ),
    }
}

/// The end of a publication whose record cannot be read: a record that is gone
/// has nobody left to tell.
pub fn publication_without_record(unreadable: String, present: bool) -> (r: Result<(), String>)
    ensures
        if present {
            fails_with(r, unreadable@)
        } else {
            r is Ok
        },
{
    if present {
        Err(unreadable)
    } else {
        Ok(())
    }
}

/// The result of a first Create that ends before it selects one.
pub open spec fn abandoned() -> PersistedCreateResultView {
    PersistedCreateResultView::Failed {
        code: "CANCELLED"@,
        message: "first Create operation ended before selecting its durable result"@,
    }
}

impl Clone for PersistedCreateResult {
    fn clone(&self) -> (copy: Self)
        ensures
            copy == *self,
    {
        match self {
            PersistedCreateResult::Succeeded => PersistedCreateResult::Succeeded,
            PersistedCreateResult::Failed { code, message } => PersistedCreateResult::Failed {
                code: code.clone(),
                message: message.clone(),
            },
        }
    }
}

/// The publisher of a Create's result, held by the first admitted Create only.
/// A Create that waits for another one has none, so its end leaves the result
/// to the first.
pub struct CreatePublisherGuard {
    armed: bool,
    intended: Option<PersistedCreateResult>,
}

impl CreatePublisherGuard {
    /// Whether the result still has to be made durable.
    pub closed spec fn is_armed(&self) -> bool {
        self.armed
    }

    /// The result that was selected.
    pub closed spec fn selected(&self) -> Option<PersistedCreateResultView> {
        match self.intended {
            None => None,
            Some(result) => Some(result@),
        }
    }

    /// A publisher that has selected no result yet.
    pub fn new() -> (guard: Self)
        ensures
            guard.is_armed(),
            guard.selected() is None,
    {
        CreatePublisherGuard { armed: true, intended: None }
    }

    /// Selects the result that is to become durable.
    pub fn select(&mut self, result: PersistedCreateResult)
        ensures
            final(self).is_armed() == old(self).is_armed(),
            final(self).selected() == Some(result@),
    {
        self.intended = Some(result);
    }

    /// Notes that the result is durable.
    pub fn published(&mut self)
        ensures
            !final(self).is_armed(),
            final(self).selected() == old(self).selected(),
    {
        self.armed = false;
    }

    /// What still has to be made durable when the publisher ends: the selected
    /// result, or the one of an abandoned Create.
    pub fn outstanding(&self) -> (left: Option<PersistedCreateResult>)
        ensures
            match left {
                None => !self.is_armed(),
                Some(result) => self.is_armed() && result@ == (match self.selected() {
                    Some(selected) => selected,
                    None => abandoned(),
                }),
            },
    {
        if !self.armed {
            return None;
        }
        match &self.intended {
            Some(result) => Some(result.clone()),
            None => Some(
                PersistedCreateResult::Failed {
                    code: "CANCELLED".to_owned(),
                    message: "first Create operation ended before selecting its durable result".to_owned(),
                },
            ),
        }
    }
}

/// The place of a Create among those that wait for the result.
pub struct CreateWaiterGuard {
    armed: bool,
}

impl CreateWaiterGuard {
    /// Whether the waiter still has to leave.
    pub closed spec fn is_armed(&self) -> bool {
        self.armed
    }

    /// A waiter that has come.
    pub fn new() -> (guard: Self)
        ensures
            guard.is_armed(),
    {
        CreateWaiterGuard { armed: true }
    }

    /// Notes how the departure of the waiter went: one that failed is due
    /// again.
    pub fn departed(&mut self, departure: &Result<(), String>)
        ensures
            final(self).is_armed() == (old(self).is_armed() && *departure is Err),
    {
        if departure.is_ok() {
            self.armed = false;
        }
    }

    /// Whether the waiter still has to leave.
    pub fn due(&self) -> (r: bool)
        ensures
            r == self.is_armed(),
    {
        self.armed
    }
}

/// What a look at the durable result of a Create gives: the result, or an error
/// once the wait for it is over.
pub fn poll_create_result(record: &LifecycleRecord, expired: bool) -> (r: Result<
    Option<PersistedCreateResult>,
    String,
>)
    ensures
        match create_result(record@) {
            Err(message) => fails_with(r, message),
            Ok(Some(result)) => r matches Ok(Some(found)) && found@ == result,
            Ok(None) => if expired {
                fails_with(r, "timed out waiting for durable Create result"@)
            } else {
                r matches Ok(None)
            },
        },
{
    match recorded_create_result(record) {
        Ok(None) => if expired {
            Err("timed out waiting for durable Create result".to_owned())
        } else {
            Ok(None)
        },
        other => other,
    }
}

/// The delays of a publisher that starts with the first one stay between the
/// first and the last.
pub proof fn law_delays_stay_bounded(delay: u64)
    requires
        FIRST_DELAY_MS <= delay <= LAST_DELAY_MS,
    ensures
        FIRST_DELAY_MS <= next_delay(delay) <= LAST_DELAY_MS,
        delay <= next_delay(delay),
{
}

/// A durable result is never replaced: whatever is published afterwards, the
/// lifecycle stays as it is.
pub proof fn law_durable_result_is_final(
    state: LifecycleView,
    result: PersistedCreateResultView,
    now: Result<u128, String>,
    seen: TargetSighting,
    readings: Seq<Result<Seq<char>, Seq<char>>>,
)
    requires
        create_result(state.record) matches Ok(Some(_)),
    ensures
        publication(state, result, now, seen, readings) == Ok::<LifecycleView, Seq<char>>(state),
{
}

/// A publication that succeeds leaves a durable result: the intended one,
/// unless another was durable before.
pub proof fn law_publication_leaves_a_durable_result(
    state: LifecycleView,
    result: PersistedCreateResultView,
    now: Result<u128, String>,
    seen: TargetSighting,
    readings: Seq<Result<Seq<char>, Seq<char>>>,
)
    ensures
        publication(state, result, now, seen, readings) matches Ok(next) ==> create_result(
            next.record,
        ) == Ok::<Option<PersistedCreateResultView>, Seq<char>>(
            Some(
                match create_result(state.record) {
                    Ok(Some(durable)) => durable,
                    _ => result,
                },
            ),
        ),
{
}

/// A publisher that keeps failing waits twice as long each time, until it waits
/// a second; from then on it tries once a second.
pub proof fn law_publishers_back_off(delay: u64)
    ensures
        delay <= 500 ==> next_delay(delay) == delay + delay,
        delay >= 500 ==> next_delay(delay) == 1000,
{
}

/// A Create that ends without a result is published as cancelled, so that those
/// who wait for it are told.
pub proof fn law_abandoned_create_is_cancelled()
    ensures
        abandoned() matches PersistedCreateResultView::Failed { code, message } && code
            == "CANCELLED"@ && message
            == "first Create operation ended before selecting its durable result"@,
{
}

/// The failure of a running Create becomes durable as it is: with its code, its
/// message and the time of its publication; the owners stay.
pub proof fn law_running_create_publishes_its_failure(
    state: LifecycleView,
    code: Seq<char>,
    message: Seq<char>,
    now: u128,
    seen: TargetSighting,
    readings: Seq<Result<Seq<char>, Seq<char>>>,
)
    requires
        state.record.create_state == crate::record::CreateState::InProgress,
        state.record.phase == crate::record::LifecyclePhase::TakeoverClaimed || state.record.phase
            == crate::record::LifecyclePhase::ContainerdCommitted,
        crate::laws::movable(state.record),
    ensures
        ({
            let next = publication(
                state,
                PersistedCreateResultView::Failed { code, message },
                Ok(now),
                seen,
                readings,
            );
            &&& next is Ok
            &&& next->Ok_0.record.create_state == crate::record::CreateState::Failed
            &&& next->Ok_0.record.phase == state.record.phase
            &&& next->Ok_0.record.failure is Some
            &&& next->Ok_0.record.failure->0.code == code
            &&& next->Ok_0.record.failure->0.message == message
            &&& next->Ok_0.record.failure->0.published_at_ms == now
            &&& next->Ok_0.host_owner == state.host_owner
            &&& next->Ok_0.runtime_owner == state.runtime_owner
            &&& create_result(next->Ok_0.record) == Ok::<
                Option<PersistedCreateResultView>,
                Seq<char>,
            >(Some(PersistedCreateResultView::Failed { code, message }))
        }),
{
}

/// A failure that cannot be dated is not published.
pub proof fn law_undated_failure_is_not_published(
    state: LifecycleView,
    code: Seq<char>,
    message: Seq<char>,
    clock: String,
    seen: TargetSighting,
    readings: Seq<Result<Seq<char>, Seq<char>>>,
)
    requires
        state.record.create_state == crate::record::CreateState::InProgress,
        crate::laws::movable(state.record),
    ensures
        publication(
            state,
            PersistedCreateResultView::Failed { code, message },
            Err(clock),
            seen,
            readings,
        ) is Err,
{
}

} // verus!
