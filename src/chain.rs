//! A counter that, on request, asks the host to increment both a linked
//! counter contract and itself.
use vstd::prelude::*;

use crate::error::ContractError;
use crate::response::{
    applied, attribute, decimal, decimal_string, empty_response, tag, IncrementCall, Response,
};

verus! {

#[derive(Clone, Debug, PartialEq, Eq)]
pub struct State {
    pub count: i32,
    pub owner: String,
    /// The counter contract that a chain request increments first.
    pub counter_contract: String,
}

#[derive(Clone, Debug, PartialEq, Eq)]
pub struct InstantiateMsg {
    pub count: i32,
    pub counter_contract: String,
}

#[derive(Clone, Copy, Debug, PartialEq, Eq, Structural)]
pub enum ExecuteMsg {
    Increment,
    Chain,
    Reset { count: i32 },
}

#[derive(Clone, Copy, Debug, PartialEq, Eq, Structural)]
pub enum QueryMsg {
    GetCount,
}

#[derive(Clone, Copy, Debug, PartialEq, Eq, Structural)]
pub struct CountResponse {
    pub count: i32,
}

pub open spec fn with_count(s: State, count: int) -> State {
    State { count: count as i32, owner: s.owner, counter_contract: s.counter_contract }
}

/// The record after adding one, or `Overflow` at the top of `i32`.
pub open spec fn increment_step(s: State) -> Result<State, ContractError> {
    if s.count < i32::MAX {
        Ok(with_count(s, s.count + 1))
    } else {
        Err(ContractError::Overflow)
    }
}

/// The record after a reset by `sender` to `count`.
pub open spec fn reset_step(s: State, sender: Seq<char>, count: i32) -> Result<State, ContractError> {
    if sender == s.owner@ {
        Ok(with_count(s, count as int))
    } else {
        Err(ContractError::Unauthorized)
    }
}

/// The two increments of a chain request, in dispatch order: the linked
/// counter first, then this contract at `contract_address`.
pub open spec fn chain_calls(s: State, contract_address: Seq<char>, calls: Seq<IncrementCall>) -> bool {
    &&& calls.len() == 2
    &&& calls[0].contract_addr@ == s.counter_contract@
    &&& calls[1].contract_addr@ == contract_address
}

/// Creates the record, owned by `sender`, linked to `msg.counter_contract`
/// as given (not validated).
pub fn instantiate(sender: &String, msg: &InstantiateMsg) -> (r: (State, Response))
    ensures
        r.0.count == msg.count,
        r.0.owner@ == sender@,
        r.0.counter_contract@ == msg.counter_contract@,
        r.1.attributes@.len() == 3,
        r.1.messages@.len() == 0,
        r.1.attributes@[0].key@ == "method"@,
        r.1.attributes@[0].value@ == "instantiate"@,
        r.1.attributes@[1].key@ == "owner"@,
        r.1.attributes@[1].value@ == sender@,
        r.1.attributes@[2].key@ == "count"@,
        r.1.attributes@[2].value@ == decimal(msg.count as int),
{
    let state = State { count: msg.count, owner: sender.clone(), counter_contract: msg.counter_contract.clone() };
    let mut resp = empty_response();
    resp.attributes.push(attribute("method", "instantiate"));
    resp.attributes.push(attribute("owner", sender.as_str()));
    let count = decimal_string(msg.count);
    resp.attributes.push(attribute("count", count.as_str()));
    (state, resp)
}

/// Dispatches an ordinary message from `sender` to this contract, which
/// lives at `contract_address`.
pub fn execute(state: &mut State, sender: &String, contract_address: &String, msg: ExecuteMsg) -> (r: Result<
    Response,
    ContractError,
>)
    ensures
        match msg {
            ExecuteMsg::Increment => applied(
                r,
                *old(state),
                *final(state),
                increment_step(*old(state)),
                "method"@,
                "try_increment"@,
            ),
            ExecuteMsg::Chain => *final(state) == *old(state) && r is Ok && chain_reply(
                r->Ok_0,
                *old(state),
                contract_address@,
            ),
            ExecuteMsg::Reset { count } => applied(
                r,
                *old(state),
                *final(state),
                reset_step(*old(state), sender@, count),
                "method"@,
                "reset"@,
            ),
        },
{
    match msg {
        ExecuteMsg::Increment => try_increment(state),
        ExecuteMsg::Chain => Ok(try_chain(state, contract_address)),
        ExecuteMsg::Reset { count } => try_reset(state, sender, count),
    }
}

/// The reply of a chain request: the `method = try_increment` tag and the
/// two increments.
pub open spec fn chain_reply(r: Response, s: State, contract_address: Seq<char>) -> bool {
    &&& r.attributes@.len() == 1
    &&& r.attributes@[0].key@ == "method"@
    &&& r.attributes@[0].value@ == "try_increment"@
    &&& chain_calls(s, contract_address, r.messages@)
}

/// Asks the host to increment the linked counter, then this contract. The
/// record itself does not change here.
pub fn try_chain(state: &State, contract_address: &String) -> (r: Response)
    ensures
        chain_reply(r, *state, contract_address@),
{
    let mut resp = empty_response();
    resp.attributes.push(attribute("method", "try_increment"));
    resp.messages = create_msgs(state, contract_address);
    resp
}

pub fn create_msgs(state: &State, contract_address: &String) -> (r: Vec<IncrementCall>)
    ensures
        chain_calls(*state, contract_address@, r@),
{
    let mut msgs: Vec<IncrementCall> = Vec::new();
    msgs.push(create_increment_msg_extern(state));
    msgs.push(create_increment_msg_intern(contract_address));
    msgs
}

/// The increment of the linked counter contract.
pub fn create_increment_msg_extern(state: &State) -> (r: IncrementCall)
    ensures
        r.contract_addr@ == state.counter_contract@,
{
    IncrementCall { contract_addr: state.counter_contract.clone() }
}

/// The increment of this contract, at `contract_address`.
pub fn create_increment_msg_intern(contract_address: &String) -> (r: IncrementCall)
    ensures
        r.contract_addr@ == contract_address@,
{
    IncrementCall { contract_addr: contract_address.clone() }
}

pub fn try_increment(state: &mut State) -> (r: Result<Response, ContractError>)
    ensures
        applied(r, *old(state), *final(state), increment_step(*old(state)), "method"@, "try_increment"@),
{
    if state.count == i32::MAX {
        return Err(ContractError::Overflow);
    }
    state.count = state.count + 1;
    Ok(tag("method", "try_increment"))
}

pub fn try_reset(state: &mut State, sender: &String, count: i32) -> (r: Result<Response, ContractError>)
    ensures
        applied(r, *old(state), *final(state), reset_step(*old(state), sender@, count), "method"@, "reset"@),
{
    if *sender != state.owner {
        return Err(ContractError::Unauthorized);
    }
    state.count = count;
    Ok(tag("method", "reset"))
}

pub fn query(state: &State, msg: QueryMsg) -> (r: CountResponse)
    ensures
        r.count == state.count,
{
    match msg {
        QueryMsg::GetCount => query_count(state),
    }
}

pub fn query_count(state: &State) -> (r: CountResponse)
    ensures
        r.count == state.count,
{
    CountResponse { count: state.count }
}

} // verus!
