//! A counter that reacts to job outcomes reported by the host over its
//! privileged channel, and records module failure notifications.
use vstd::prelude::*;

use crate::error::ContractError;
use crate::response::{applied, attribute, decimal, decimal_string, empty_response, tag, Response};

verus! {

/// The record one contract instance keeps.
#[derive(Clone, Debug, PartialEq, Eq)]
pub struct State {
    pub count: i32,
    pub owner: String,
    /// Set by a failure notification; never cleared.
    pub error_encountered: bool,
}

#[derive(Clone, Copy, Debug, PartialEq, Eq, Structural)]
pub struct InstantiateMsg {
    pub count: i32,
}

#[derive(Clone, Copy, Debug, PartialEq, Eq, Structural)]
pub enum ExecuteMsg {
    Increment,
    Reset { count: i32 },
}

#[derive(Clone, Copy, Debug, PartialEq, Eq, Structural)]
pub enum QueryMsg {
    GetCount,
}

/// Messages only the host runtime may deliver.
#[derive(Clone, Debug, PartialEq, Eq)]
pub enum SudoMsg {
    /// Outcome of an asynchronous job, encoded in its identifier.
    Callback { job_id: u64 },
    /// A module reports that it failed on behalf of this contract.
    Error { module_name: String, error_code: u32, input_payload: String, error_message: String },
}

#[derive(Clone, Copy, Debug, PartialEq, Eq, Structural)]
pub struct GetCountResponse {
    pub count: i32,
    pub error_encountered: bool,
}

/// The outcome class that a job identifier stands for. Identifiers without a
/// meaning of their own are ignored, so that new outcome codes stay harmless.
#[derive(Clone, Copy, Debug, PartialEq, Eq, Structural)]
pub enum JobOutcome {
    Decrement,
    Increment,
    Fail,
    Ignored,
}

pub open spec fn outcome_of(job_id: u64) -> JobOutcome {
    if job_id == 0 {
        JobOutcome::Decrement
    } else if job_id == 1 {
        JobOutcome::Increment
    } else if job_id == 2 {
        JobOutcome::Fail
    } else {
        JobOutcome::Ignored
    }
}

impl JobOutcome {
    pub fn from_job_id(job_id: u64) -> (r: JobOutcome)
        ensures
            r == outcome_of(job_id),
    {
        match job_id {
            0 => JobOutcome::Decrement,
            1 => JobOutcome::Increment,
            2 => JobOutcome::Fail,
            _ => JobOutcome::Ignored,
        }
    }
}

pub open spec fn with_count(s: State, count: int) -> State {
    State { count: count as i32, owner: s.owner, error_encountered: s.error_encountered }
}

/// The record after `count + delta`, or `Overflow` when that leaves `i32`.
pub open spec fn shifted(s: State, delta: int) -> Result<State, ContractError> {
    if i32::MIN <= s.count + delta <= i32::MAX {
        Ok(with_count(s, s.count + delta))
    } else {
        Err(ContractError::Overflow)
    }
}

/// What a job outcome does to the record.
pub open spec fn callback_step(s: State, job_id: u64) -> Result<State, ContractError> {
    match outcome_of(job_id) {
        JobOutcome::Decrement => shifted(s, -1),
        JobOutcome::Increment => shifted(s, 1),
        JobOutcome::Fail => Err(ContractError::SomeError),
        JobOutcome::Ignored => Ok(s),
    }
}

/// What a reset by `sender` to `count` does to the record.
pub open spec fn reset_step(s: State, sender: Seq<char>, count: i32) -> Result<State, ContractError> {
    if sender == s.owner@ {
        Ok(with_count(s, count as int))
    } else {
        Err(ContractError::Unauthorized)
    }
}

/// The record after a module failure notification.
pub open spec fn error_step(s: State) -> State {
    State { count: s.count, owner: s.owner, error_encountered: true }
}

/// Creates the record with the given count, owned by `sender`, with no
/// error seen yet.
pub fn instantiate(sender: &String, msg: InstantiateMsg) -> (r: (State, Response))
    ensures
        r.0.count == msg.count,
        r.0.owner@ == sender@,
        !r.0.error_encountered,
        r.1.attributes@.len() == 3,
        r.1.messages@.len() == 0,
        r.1.attributes@[0].key@ == "method"@,
        r.1.attributes@[0].value@ == "instantiate"@,
        r.1.attributes@[1].key@ == "owner"@,
        r.1.attributes@[1].value@ == sender@,
        r.1.attributes@[2].key@ == "count"@,
        r.1.attributes@[2].value@ == decimal(msg.count as int),
{
    let state = State { count: msg.count, owner: sender.clone(), error_encountered: false };
    let mut resp = empty_response();
    resp.attributes.push(attribute("method", "instantiate"));
    resp.attributes.push(attribute("owner", sender.as_str()));
    let count = decimal_string(msg.count);
    resp.attributes.push(attribute("count", count.as_str()));
    (state, resp)
}

/// Dispatches an ordinary message from `sender`.
pub fn execute(state: &mut State, sender: &String, msg: ExecuteMsg) -> (r: Result<Response, ContractError>)
    ensures
        match msg {
            ExecuteMsg::Increment => applied(r, *old(state), *final(state), shifted(*old(state), 1), "action"@, "increment"@),
            ExecuteMsg::Reset { count } => applied(
                r,
                *old(state),
                *final(state),
                reset_step(*old(state), sender@, count),
                "action"@,
                "reset"@,
            ),
        },
{
    match msg {
        ExecuteMsg::Increment => increment(state),
        ExecuteMsg::Reset { count } => reset(state, sender, count),
    }
}

/// Adds one to the count; anyone may do it.
pub fn increment(state: &mut State) -> (r: Result<Response, ContractError>)
    ensures
        applied(r, *old(state), *final(state), shifted(*old(state), 1), "action"@, "increment"@),
{
    if state.count == i32::MAX {
        return Err(ContractError::Overflow);
    }
    state.count = state.count + 1;
    Ok(tag("action", "increment"))
}

/// Sets the count; only the owner may do it.
pub fn reset(state: &mut State, sender: &String, count: i32) -> (r: Result<Response, ContractError>)
    ensures
        applied(r, *old(state), *final(state), reset_step(*old(state), sender@, count), "action"@, "reset"@),
{
    if *sender != state.owner {
        return Err(ContractError::Unauthorized);
    }
    state.count = count;
    Ok(tag("action", "reset"))
}

pub fn query(state: &State, msg: QueryMsg) -> (r: GetCountResponse)
    ensures
        r.count == state.count,
        r.error_encountered == state.error_encountered,
{
    match msg {
        QueryMsg::GetCount => count(state),
    }
}

pub fn count(state: &State) -> (r: GetCountResponse)
    ensures
        r.count == state.count,
        r.error_encountered == state.error_encountered,
{
    GetCountResponse { count: state.count, error_encountered: state.error_encountered }
}

/// Dispatches a message of the host's privileged channel.
pub fn sudo(state: &mut State, msg: SudoMsg) -> (r: Result<Response, ContractError>)
    ensures
        match msg {
            SudoMsg::Callback { job_id } => applied(
                r,
                *old(state),
                *final(state),
                callback_step(*old(state), job_id),
                "action"@,
                "handle_callback"@,
            ),
            SudoMsg::Error { .. } => applied(
                r,
                *old(state),
                *final(state),
                Ok(error_step(*old(state))),
                "action"@,
                "handle_error"@,
            ),
        },
{
    match msg {
        SudoMsg::Callback { job_id } => handle_callback(state, job_id),
        SudoMsg::Error { module_name, error_code, input_payload, error_message } => handle_error(
            state,
            module_name,
            error_code,
            input_payload,
            error_message,
        ),
    }
}

/// Applies a job outcome: job 0 takes one from the count, job 1 adds one,
/// job 2 fails with `SomeError`, and any other job leaves the record as it is
/// and still succeeds.
pub fn handle_callback(state: &mut State, job_id: u64) -> (r: Result<Response, ContractError>)
    ensures
        applied(r, *old(state), *final(state), callback_step(*old(state), job_id), "action"@, "handle_callback"@),
{
    match JobOutcome::from_job_id(job_id) {
        JobOutcome::Decrement => {
            if state.count == i32::MIN {
                return Err(ContractError::Overflow);
            }
            state.count = state.count - 1;
        },
        JobOutcome::Increment => {
            if state.count == i32::MAX {
                return Err(ContractError::Overflow);
            }
            state.count = state.count + 1;
        },
        JobOutcome::Fail => {
            return Err(ContractError::SomeError);
        },
        JobOutcome::Ignored => {},
    }
    Ok(tag("action", "handle_callback"))
}

/// Records that a module reported a failure; the report's fields are
/// accepted and have no further effect.
pub fn handle_error(
    state: &mut State,
    _module_name: String,
    _error_code: u32,
    _input_payload: String,
    _error_message: String,
) -> (r: Result<Response, ContractError>)
    ensures
        applied(r, *old(state), *final(state), Ok(error_step(*old(state))), "action"@, "handle_error"@),
{
    state.error_encountered = true;
    Ok(tag("action", "handle_error"))
}

/// A job identifier outside the three known ones changes nothing and
/// succeeds.
pub proof fn lemma_unknown_job_is_noop(s: State, job_id: u64)
    requires
        job_id > 2,
    ensures
        callback_step(s, job_id) == Ok::<State, ContractError>(s),
{
}

/// Job 0 followed by job 1 brings the count back to where it started (the
/// decrement needs room below the count).
pub proof fn lemma_decrement_then_increment(s: State)
    requires
        s.count > i32::MIN,
    ensures
        callback_step(s, 0) is Ok,
        callback_step(callback_step(s, 0)->Ok_0, 1) == Ok::<State, ContractError>(s),
{
}

/// Job 2 fails with `SomeError` whatever the record holds.
pub proof fn lemma_failing_job(s: State)
    ensures
        callback_step(s, 2) == Err::<State, ContractError>(ContractError::SomeError),
{
}

/// Once a failure has been recorded, no job outcome, reset or increment
/// clears the flag, and another failure notice keeps it set.
pub proof fn lemma_error_flag_is_kept(s: State, job_id: u64, sender: Seq<char>, count: i32)
    requires
        s.error_encountered,
    ensures
        callback_step(s, job_id) is Ok ==> callback_step(s, job_id)->Ok_0.error_encountered,
        reset_step(s, sender, count) is Ok ==> reset_step(s, sender, count)->Ok_0.error_encountered,
        shifted(s, 1) is Ok ==> shifted(s, 1)->Ok_0.error_encountered,
        error_step(s).error_encountered,
{
}

/// The record after a run of callback calls, one per job identifier in
/// order; a call that fails leaves the record as it was before it.
pub open spec fn after_callbacks(s: State, jobs: Seq<u64>) -> State
    decreases jobs.len(),
{
    if jobs.len() == 0 {
        s
    } else {
        match callback_step(s, jobs[0]) {
            Ok(t) => after_callbacks(t, jobs.drop_first()),
            Err(_) => after_callbacks(s, jobs.drop_first()),
        }
    }
}

/// A record that has seen a failure notice keeps the flag through any run
/// of callback calls, and a fresh record (no failure yet) keeps it clear.
pub proof fn lemma_error_flag_through_callbacks(s: State, jobs: Seq<u64>)
    ensures
        after_callbacks(s, jobs).error_encountered == s.error_encountered,
    decreases jobs.len(),
{
    if jobs.len() > 0 {
        match callback_step(s, jobs[0]) {
            Ok(t) => lemma_error_flag_through_callbacks(t, jobs.drop_first()),
            Err(_) => lemma_error_flag_through_callbacks(s, jobs.drop_first()),
        }
    }
}

/// Any failure notice sets the flag.
pub proof fn lemma_error_notice_sets_flag(s: State)
    ensures
        error_step(s).error_encountered,
        error_step(s).count == s.count,
{
}

/// A reset succeeds exactly when the caller is the owner, and then sets the
/// count and nothing else.
pub proof fn lemma_reset_needs_owner(s: State, sender: Seq<char>, count: i32)
    ensures
        reset_step(s, sender, count) is Ok <==> sender == s.owner@,
        reset_step(s, sender, count) is Err ==> reset_step(s, sender, count)
            == Err::<State, ContractError>(ContractError::Unauthorized),
        reset_step(s, sender, count) is Ok ==> reset_step(s, sender, count)->Ok_0 == with_count(
            s,
            count as int,
        ),
{
}

} // verus!
