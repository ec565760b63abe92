use vstd::prelude::*;

use crate::error::ContractError;

verus! {

/// One observability tag of a successful reply.
#[derive(Clone, Debug, PartialEq, Eq)]
pub struct Attribute {
    pub key: String,
    pub value: String,
}

/// An increment request addressed to another contract instance.
#[derive(Clone, Debug, PartialEq, Eq)]
pub struct IncrementCall {
    pub contract_addr: String,
}

/// What a successful call hands back to the host: tags for observers and
/// the follow-up calls the host is to dispatch, in order.
#[derive(Clone, Debug, PartialEq, Eq)]
pub struct Response {
    pub attributes: Vec<Attribute>,
    pub messages: Vec<IncrementCall>,
}

pub open spec fn attr_is(a: Attribute, key: Seq<char>, value: Seq<char>) -> bool {
    a.key@ == key && a.value@ == value
}

/// The reply carries exactly one tag, `key = value`, and no messages.
pub open spec fn tagged(r: Response, key: Seq<char>, value: Seq<char>) -> bool {
    &&& r.attributes@.len() == 1
    &&& attr_is(r.attributes@[0], key, value)
    &&& r.messages@.len() == 0
}

/// A call either succeeds with the new record `after` and the single tag
/// `key = value`, or fails with `expected`'s error and keeps the record.
pub open spec fn applied<T>(
    r: Result<Response, ContractError>,
    before: T,
    after: T,
    expected: Result<T, ContractError>,
    key: Seq<char>,
    value: Seq<char>,
) -> bool {
    match r {
        Ok(resp) => expected == Ok::<T, ContractError>(after) && tagged(resp, key, value),
        Err(e) => expected == Err::<T, ContractError>(e) && after == before,
    }
}

/// The reply carries no tag and no message.
pub open spec fn is_empty_response(r: Response) -> bool {
    r.attributes@.len() == 0 && r.messages@.len() == 0
}

pub open spec fn digit_char(d: nat) -> char {
    seq!['0', '1', '2', '3', '4', '5', '6', '7', '8', '9'][d as int]
}

/// Decimal numeral of a natural number, most significant digit first.
pub open spec fn digits(n: nat) -> Seq<char>
    decreases n,
{
    if n < 10 {
        seq![digit_char(n)]
    } else {
        digits(n / 10) + seq![digit_char(n % 10)]
    }
}

/// Decimal numeral of an integer, with a leading '-' when it is negative.
pub open spec fn decimal(n: int) -> Seq<char> {
    if n < 0 {
        seq!['-'] + digits((-n) as nat)
    } else {
        digits(n as nat)
    }
}

/// Relies on `ToString::to_string` through i32's `Display`: the decimal
/// numeral of the value, with a leading '-' for negative values.
#[verifier::external_body]
pub(crate) fn decimal_string(n: i32) -> (r: String)
    ensures
        r@ == decimal(n as int),
{
    n.to_string()
}

pub fn attribute(key: &str, value: &str) -> (r: Attribute)
    ensures
        r.key@ == key@,
        r.value@ == value@,
{
    Attribute { key: key.to_owned(), value: value.to_owned() }
}

/// A reply with the single tag `key = value`.
pub fn tag(key: &str, value: &str) -> (r: Response)
    ensures
        tagged(r, key@, value@),
{
    let mut attributes: Vec<Attribute> = Vec::new();
    attributes.push(attribute(key, value));
    Response { attributes, messages: Vec::new() }
}

/// A reply with no tag and no message.
pub fn empty_response() -> (r: Response)
    ensures
        is_empty_response(r),
{
    Response { attributes: Vec::new(), messages: Vec::new() }
}

} // verus!
