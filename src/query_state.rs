//! A counter that, when incremented, adds the count that a linked counter
//! contract reports.
use vstd::prelude::*;

use crate::error::ContractError;
use crate::response::{applied, attribute, decimal, decimal_string, empty_response, tag, Response};

verus! {

#[derive(Clone, Debug, PartialEq, Eq)]
pub struct State {
    pub count: i32,
    pub owner: String,
    /// The counter contract whose count an increment adds.
    pub counter_contract: String,
}

#[derive(Clone, Debug, PartialEq, Eq)]
pub struct InstantiateMsg {
    pub count: i32,
    pub counter_contract: String,
}

#[derive(Clone, Copy, Debug, PartialEq, Eq, Structural)]
pub enum ExecuteMsg {
    Increment,
    Reset { count: i32 },
}

#[derive(Clone, Copy, Debug, PartialEq, Eq, Structural)]
pub enum QueryMsg {
    GetCount,
}

#[derive(Clone, Copy, Debug, PartialEq, Eq, Structural)]
pub struct CountResponse {
    pub count: i32,
}

pub open spec fn with_count(s: State, count: int) -> State {
    State { count: count as i32, owner: s.owner, counter_contract: s.counter_contract }
}

/// The record after an increment, given what the linked counter reported:
/// its count is added; when it could not be asked, the increment fails.
pub open spec fn increment_step(s: State, linked: Option<i32>) -> Result<State, ContractError> {
    match linked {
        None => Err(ContractError::LinkedCountUnavailable),
        Some(n) => if i32::MIN <= s.count + n <= i32::MAX {
            Ok(with_count(s, s.count + n))
        } else {
            Err(ContractError::Overflow)
        },
    }
}

/// The record after a reset by `sender` to `count`.
pub open spec fn reset_step(s: State, sender: Seq<char>, count: i32) -> Result<State, ContractError> {
    if sender == s.owner@ {
        Ok(with_count(s, count as int))
    } else {
        Err(ContractError::Unauthorized)
    }
}

/// Creates the record, owned by `sender`, linked to `msg.counter_contract`
/// as given (not validated).
pub fn instantiate(sender: &String, msg: &InstantiateMsg) -> (r: (State, Response))
    ensures
        r.0.count == msg.count,
        r.0.owner@ == sender@,
        r.0.counter_contract@ == msg.counter_contract@,
        r.1.attributes@.len() == 3,
        r.1.messages@.len() == 0,
        r.1.attributes@[0].key@ == "method"@,
        r.1.attributes@[0].value@ == "instantiate"@,
        r.1.attributes@[1].key@ == "owner"@,
        r.1.attributes@[1].value@ == sender@,
        r.1.attributes@[2].key@ == "count"@,
        r.1.attributes@[2].value@ == decimal(msg.count as int),
{
    let state = State { count: msg.count, owner: sender.clone(), counter_contract: msg.counter_contract.clone() };
    let mut resp = empty_response();
    resp.attributes.push(attribute("method", "instantiate"));
    resp.attributes.push(attribute("owner", sender.as_str()));
    let count = decimal_string(msg.count);
    resp.attributes.push(attribute("count", count.as_str()));
    (state, resp)
}

/// Dispatches an ordinary message from `sender`. `linked` is the count that
/// the linked counter reported to the query of `query_counter`, or `None`
/// when that query failed (an increment then fails; a reset ignores it).
pub fn execute(state: &mut State, sender: &String, linked: Option<i32>, msg: ExecuteMsg) -> (r: Result<
    Response,
    ContractError,
>)
    ensures
        match msg {
            ExecuteMsg::Increment => applied(
                r,
                *old(state),
                *final(state),
                increment_step(*old(state), linked),
                "method"@,
                "try_increment"@,
            ),
            ExecuteMsg::Reset { count } => applied(
                r,
                *old(state),
                *final(state),
                reset_step(*old(state), sender@, count),
                "method"@,
                "reset"@,
            ),
        },
{
    match msg {
        ExecuteMsg::Increment => try_increment(state, linked),
        ExecuteMsg::Reset { count } => try_reset(state, sender, count),
    }
}

/// Adds the linked counter's count; when the query of it failed, the
/// increment fails with `LinkedCountUnavailable` and the count stays.
pub fn try_increment(state: &mut State, linked: Option<i32>) -> (r: Result<Response, ContractError>)
    ensures
        applied(r, *old(state), *final(state), increment_step(*old(state), linked), "method"@, "try_increment"@),
{
    match linked {
        Some(n) => match state.count.checked_add(n) {
            Some(sum) => state.count = sum,
            None => return Err(ContractError::Overflow),
        },
        None => return Err(ContractError::LinkedCountUnavailable),
    }
    Ok(tag("method", "try_increment"))
}

/// The contract whose count an increment asks for.
pub fn query_counter(state: &State) -> (r: String)
    ensures
        r@ == state.counter_contract@,
{
    state.counter_contract.clone()
}

pub fn try_reset(state: &mut State, sender: &String, count: i32) -> (r: Result<Response, ContractError>)
    ensures
        applied(r, *old(state), *final(state), reset_step(*old(state), sender@, count), "method"@, "reset"@),
{
    if *sender != state.owner {
        return Err(ContractError::Unauthorized);
    }
    state.count = count;
    Ok(tag("method", "reset"))
}

pub fn query(state: &State, msg: QueryMsg) -> (r: CountResponse)
    ensures
        r.count == state.count,
{
    match msg {
        QueryMsg::GetCount => query_count(state),
    }
}

pub fn query_count(state: &State) -> (r: CountResponse)
    ensures
        r.count == state.count,
{
    CountResponse { count: state.count }
}

} // verus!
