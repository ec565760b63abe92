//! The grant registry and the authorization gate for sponsored message
//! batches.
//!
//! Addresses are checked by the host's address validator before they reach
//! this module: a verdict is `Some(address)` in the validator's normal form,
//! or `None` when the validator rejected the text.
use vstd::prelude::*;

use crate::error::ContractError;
use crate::response::{empty_response, is_empty_response, Response};

verus! {

#[derive(Clone, Debug, PartialEq, Eq)]
pub struct InstantiateMsg {
    /// The addresses to grant, as the instantiating caller wrote them.
    pub grants: Vec<String>,
}

/// An amount of one denomination, requested as fee.
#[derive(Clone, Debug, PartialEq, Eq)]
pub struct Coin {
    pub amount: u128,
    pub denom: String,
}

/// One sub-message of a sponsored batch, tagged with its sender.
#[derive(Clone, Debug, PartialEq, Eq)]
pub struct CwGrantMessage {
    pub sender: String,
    pub type_url: String,
    pub msg: Vec<u8>,
}

/// A request that a sponsor pay the fees of a batch of messages.
#[derive(Clone, Debug, PartialEq, Eq)]
pub struct CwGrant {
    pub fee_requested: Vec<Coin>,
    pub msgs: Vec<CwGrantMessage>,
}

/// Messages only the host runtime may deliver.
#[derive(Clone, Debug, PartialEq, Eq)]
pub enum SudoMsg {
    CwGrant(CwGrant),
}

/// The addresses allowed to appear as senders of a sponsored batch. It is
/// fixed when the contract is instantiated.
#[derive(Clone, Debug)]
pub struct GrantSet {
    grants: Vec<String>,
}

impl View for GrantSet {
    type V = Set<Seq<char>>;

    closed spec fn view(&self) -> Set<Seq<char>> {
        Set::new(|a: Seq<char>| exists|i: int| 0 <= i < self.grants@.len() && self.grants@[i]@ == a)
    }
}

/// The set of addresses among the validator's verdicts.
pub open spec fn accepted(verdicts: Seq<Option<String>>) -> Set<Seq<char>> {
    Set::new(
        |a: Seq<char>|
            exists|i: int| 0 <= i < verdicts.len() && verdicts[i] is Some && verdicts[i]->Some_0@ == a,
    )
}

/// A sender is authorized when the validator accepted it and the
/// address it names is granted.
pub open spec fn admitted(grants: Set<Seq<char>>, verdict: Option<String>) -> bool {
    verdict is Some && grants.contains(verdict->Some_0@)
}

/// Why a sender that does not pass is refused.
pub open spec fn rejection(verdict: Option<String>) -> ContractError {
    if verdict is None {
        ContractError::InvalidAddress
    } else {
        ContractError::Unauthorized
    }
}

/// The authorization decision on a batch whose senders got these verdicts, in
/// arrival order: the first sender that does not pass decides the error.
pub open spec fn authorization(grants: Set<Seq<char>>, verdicts: Seq<Option<String>>) -> Result<(), ContractError>
    decreases verdicts.len(),
{
    if verdicts.len() == 0 {
        Ok(())
    } else if !admitted(grants, verdicts[0]) {
        Err(rejection(verdicts[0]))
    } else {
        authorization(grants, verdicts.drop_first())
    }
}

pub open spec fn has_probe_denom(fees: Seq<Coin>) -> bool {
    exists|i: int| 0 <= i < fees.len() && fees[i].denom@ == "malicious"@
}

impl GrantSet {
    /// A grant set holding exactly the given addresses, which the host has
    /// already validated (as when it reads back a stored registry).
    pub fn from_addresses(addresses: Vec<String>) -> (r: GrantSet)
        ensures
            forall|a: Seq<char>|
                r@.contains(a) <==> exists|i: int| 0 <= i < addresses@.len() && addresses@[i]@ == a,
    {
        GrantSet { grants: addresses }
    }

    /// The granted addresses, in the order they were given.
    pub fn addresses(&self) -> (r: &Vec<String>)
        ensures
            forall|a: Seq<char>|
                self@.contains(a) <==> exists|i: int| 0 <= i < r@.len() && r@[i]@ == a,
    {
        &self.grants
    }

    pub fn contains(&self, address: &String) -> (r: bool)
        ensures
            r == self@.contains(address@),
    {
        let mut i: usize = 0;
        while i < self.grants.len()
            invariant
                i <= self.grants@.len(),
                forall|j: int| 0 <= j < i ==> self.grants@[j]@ != address@,
            decreases self.grants@.len() - i,
        {
            if self.grants[i] == *address {
                return true;
            }
            i = i + 1;
        }
        false
    }
}

/// Builds the registry from the validator's verdicts on the addresses of an
/// `InstantiateMsg`, in order. A single rejected address fails the whole
/// instantiation, so that no partial registry exists.
pub fn instantiate(verdicts: &Vec<Option<String>>) -> (r: Result<(GrantSet, Response), ContractError>)
    ensures
        r is Ok <==> forall|i: int| 0 <= i < verdicts@.len() ==> verdicts@[i] is Some,
        r is Err ==> r->Err_0 == ContractError::InvalidAddress,
        r is Ok ==> r->Ok_0.0@ == accepted(verdicts@) && is_empty_response(r->Ok_0.1),
{
    let mut grants: Vec<String> = Vec::new();
    let mut i: usize = 0;
    while i < verdicts.len()
        invariant
            i <= verdicts@.len(),
            grants@.len() == i,
            forall|j: int| 0 <= j < i ==> verdicts@[j] is Some && grants@[j]@ == verdicts@[j]->Some_0@,
        decreases verdicts@.len() - i,
    {
        match &verdicts[i] {
            Some(address) => grants.push(address.clone()),
            None => return Err(ContractError::InvalidAddress),
        }
        i = i + 1;
    }
    let set = GrantSet { grants };
    assert(set@ =~= accepted(verdicts@)) by {
        assert forall|a: Seq<char>| accepted(verdicts@).contains(a) implies set@.contains(a) by {
            let j = choose|j: int|
                0 <= j < verdicts@.len() && verdicts@[j] is Some && verdicts@[j]->Some_0@ == a;
            assert(set.grants@[j]@ == a);
        }
    }
    Ok((set, empty_response()))
}

/// True when some requested fee is in the denomination that asks for the
/// host's metering probe.
pub fn requests_probe(fees: &Vec<Coin>) -> (r: bool)
    ensures
        r == has_probe_denom(fees@),
{
    let probe = "malicious".to_owned();
    let mut i: usize = 0;
    while i < fees.len()
        invariant
            i <= fees@.len(),
            probe@ == "malicious"@,
            forall|j: int| 0 <= j < i ==> fees@[j].denom@ != "malicious"@,
        decreases fees@.len() - i,
    {
        if fees[i].denom == probe {
            return true;
        }
        i = i + 1;
    }
    false
}

/// The senders of a batch, in arrival order: what the host's validator is
/// to judge before the batch is decided.
pub fn message_senders(msg: &CwGrant) -> (r: Vec<String>)
    ensures
        r@.len() == msg.msgs@.len(),
        forall|i: int| 0 <= i < r@.len() ==> r@[i]@ == msg.msgs@[i].sender@,
{
    let mut senders: Vec<String> = Vec::new();
    let mut i: usize = 0;
    while i < msg.msgs.len()
        invariant
            i <= msg.msgs@.len(),
            senders@.len() == i,
            forall|j: int| 0 <= j < i ==> senders@[j]@ == msg.msgs@[j].sender@,
        decreases msg.msgs@.len() - i,
    {
        senders.push(msg.msgs[i].sender.clone());
        i = i + 1;
    }
    senders
}

/// Dispatches a message of the host's privileged channel; `verdicts` are the
/// validator's verdicts on the batch's senders, one per sub-message, in order.
pub fn sudo(grants: &GrantSet, msg: &SudoMsg, verdicts: &Vec<Option<String>>) -> (r: Result<Response, ContractError>)
    requires
        verdicts@.len() == msg->CwGrant_0.msgs@.len(),
    ensures
        match r {
            Ok(resp) => authorization(grants@, verdicts@) == Ok::<(), ContractError>(()) && is_empty_response(resp),
            Err(e) => authorization(grants@, verdicts@) == Err::<(), ContractError>(e),
        },
{
    match msg {
        SudoMsg::CwGrant(_) => sudo_grant(grants, verdicts),
    }
}

/// Decides a sponsored batch: every sender, in arrival order, must have been
/// accepted by the validator and be granted; the first that is not fails the
/// whole batch. Nothing is approved in part and nothing is stored.
pub fn sudo_grant(grants: &GrantSet, verdicts: &Vec<Option<String>>) -> (r: Result<Response, ContractError>)
    ensures
        match r {
            Ok(resp) => authorization(grants@, verdicts@) == Ok::<(), ContractError>(()) && is_empty_response(resp),
            Err(e) => authorization(grants@, verdicts@) == Err::<(), ContractError>(e),
        },
{
    assert(verdicts@.subrange(0, verdicts@.len() as int) =~= verdicts@);
    let mut i: usize = 0;
    while i < verdicts.len()
        invariant
            i <= verdicts@.len(),
            authorization(grants@, verdicts@) == authorization(grants@, verdicts@.subrange(i as int, verdicts@.len() as int)),
        decreases verdicts@.len() - i,
    {
        let ghost rest = verdicts@.subrange(i as int, verdicts@.len() as int);
        assert(rest.drop_first() =~= verdicts@.subrange(i + 1, verdicts@.len() as int));
        match &verdicts[i] {
            Some(sender) => {
                if !grants.contains(sender) {
                    return Err(ContractError::Unauthorized);
                }
            },
            None => return Err(ContractError::InvalidAddress),
        }
        i = i + 1;
    }
    assert(verdicts@.subrange(i as int, verdicts@.len() as int).len() == 0);
    Ok(empty_response())
}

/// A batch passes exactly when every one of its senders passes: one sender
/// that does not, anywhere in the batch, rejects all of it.
pub proof fn lemma_authorization_all_or_nothing(grants: Set<Seq<char>>, verdicts: Seq<Option<String>>)
    ensures
        authorization(grants, verdicts) is Ok <==> forall|i: int|
            0 <= i < verdicts.len() ==> admitted(grants, #[trigger] verdicts[i]),
    decreases verdicts.len(),
{
    if verdicts.len() > 0 {
        lemma_authorization_all_or_nothing(grants, verdicts.drop_first());
        if admitted(grants, verdicts[0]) && (forall|i: int|
            0 <= i < verdicts.drop_first().len() ==> admitted(grants, #[trigger] verdicts.drop_first()[i])) {
            assert forall|i: int| 0 <= i < verdicts.len() implies admitted(grants, #[trigger] verdicts[i]) by {
                if i > 0 {
                    assert(verdicts[i] == verdicts.drop_first()[i - 1]);
                }
            }
        }
    }
}

/// With `a` the one granted address, the batch `[a, a]` passes and the
/// batch `[a, b]`, for an accepted `b` that is not granted, fails with
/// `Unauthorized`.
pub proof fn lemma_authorization_single_grant(grants: Set<Seq<char>>, a: String, b: String)
    requires
        grants == set![a@],
        b@ != a@,
    ensures
        authorization(grants, seq![Some(a), Some(a)]) == Ok::<(), ContractError>(()),
        authorization(grants, seq![Some(a), Some(b)]) == Err::<(), ContractError>(ContractError::Unauthorized),
{
    let ok = seq![Some(a), Some(a)];
    let bad = seq![Some(a), Some(b)];
    assert(ok.drop_first() =~= seq![Some(a)]);
    assert(seq![Some(a)].drop_first() =~= Seq::<Option<String>>::empty());
    assert(grants.contains(a@));
    assert(authorization(grants, Seq::<Option<String>>::empty()) == Ok::<(), ContractError>(()));
    assert(authorization(grants, seq![Some(a)]) == Ok::<(), ContractError>(()));
    assert(bad.drop_first() =~= seq![Some(b)]);
    assert(authorization(grants, seq![Some(b)]) == Err::<(), ContractError>(ContractError::Unauthorized));
}

} // verus!
