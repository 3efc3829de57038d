use vstd::prelude::*;
use crate::encoding::{encode_response, encoded_answer};
use crate::error::ContractError;
use crate::guard::{authorize, is_authorized};
use crate::msg::{Answer, ExecuteMsg, InstantiateMsg, MessageInfo, QueryMsg, QueryResponse, Response};
use crate::scores::{looked_up, record_of, table_after_set};
use crate::state::{fresh_registry, Addr, Registry, RegistryView};

verus! {

/// The attributes that acknowledge an initialization asked for with the
/// owner string `owner`.
pub open spec fn instantiate_attributes(owner: Seq<char>) -> Seq<(Seq<char>, Seq<char>)> {
    seq![("method"@, "instantiate"@), ("owner"@, owner)]
}

/// How a write ends that `sender` asks of a registry owned by `owner`, for an
/// address on which the validator answered `validated`. The guard comes
/// first: a stranger hears `Unauthorized` whatever the address is.
pub open spec fn set_score_verdict(
    owner: Seq<char>,
    sender: Seq<char>,
    validated: Option<Seq<char>>,
) -> Result<(), ContractError> {
    if !is_authorized(sender, owner) {
        Err(ContractError::Unauthorized)
    } else if validated is None {
        Err(ContractError::InvalidAddress)
    } else {
        Ok(())
    }
}

/// The registry after such a write: merged where the write is let through,
/// untouched where it is refused.
pub open spec fn after_set_score(
    before: RegistryView,
    sender: Seq<char>,
    validated: Option<Seq<char>>,
    token: Seq<char>,
    score: i32,
) -> RegistryView {
    match validated {
        Some(address) if is_authorized(sender, before.owner) => RegistryView {
            owner: before.owner,
            scores: table_after_set(before.scores, address, token, score),
        },
        _ => before,
    }
}

/// What a read of a score gives: the validator's refusal first, then the
/// table's answer.
pub open spec fn score_answer(
    registry: RegistryView,
    validated: Option<Seq<char>>,
    token: Seq<char>,
) -> Result<i32, ContractError> {
    match validated {
        None => Err(ContractError::InvalidAddress),
        Some(address) => looked_up(record_of(registry.scores, address), token),
    }
}

/// The canonical string of a validator's answer.
pub open spec fn canonical(validated: Option<Addr>) -> Option<Seq<char>> {
    match validated {
        Some(address) => Some(address@),
        None => None,
    }
}

/// Makes the registry. `validated` is the address validator's answer on
/// `msg.owner`: the canonical owner, or `None` where it rejected the string.
/// The acknowledgement names the method and the owner as the caller wrote it.
pub fn instantiate(_info: MessageInfo, msg: InstantiateMsg, validated: Option<Addr>) -> (made: Result<
    (Registry, Response),
    ContractError,
>)
    ensures
        match made {
            Ok((registry, response)) => {
                &&& validated is Some
                &&& registry@ == fresh_registry(validated->Some_0@)
                &&& response@ == instantiate_attributes(msg.owner@)
                &&& response.messages@.len() == 0
            },
            Err(error) => validated is None && error == ContractError::InvalidAddress,
        },
{
    match validated {
        None => Err(ContractError::InvalidAddress),
        Some(owner) => {
            let registry = Registry::new(owner);
            let response = Response::new().add_attribute(
                "method".to_owned(),
                "instantiate".to_owned(),
            ).add_attribute("owner".to_owned(), msg.owner);
            assert(response@ =~= instantiate_attributes(msg.owner@));
            Ok((registry, response))
        },
    }
}

/// Writes a score. `validated` is the address validator's answer on the
/// address to write to. Only the owner gets through; a refusal of either
/// kind leaves the registry as it was. Success is acknowledged without
/// attributes.
pub fn try_set_score(
    registry: &mut Registry,
    info: MessageInfo,
    validated: Option<Addr>,
    token: String,
    score: i32,
) -> (done: Result<Response, ContractError>)
    ensures
        match done {
            Ok(response) => {
                &&& set_score_verdict(old(registry)@.owner, info.sender@, canonical(validated)) is Ok
                &&& response@ == Seq::<(Seq<char>, Seq<char>)>::empty()
                &&& response.messages@.len() == 0
            },
            Err(error) => set_score_verdict(
                old(registry)@.owner,
                info.sender@,
                canonical(validated),
            ) == Err::<(), ContractError>(error),
        },
        final(registry)@ == after_set_score(
            old(registry)@,
            info.sender@,
            canonical(validated),
            token@,
            score,
        ),
{
    match authorize(&info.sender, &registry.state().owner) {
        Err(error) => Err(error),
        Ok(()) => match validated {
            None => Err(ContractError::InvalidAddress),
            Some(address) => {
                registry.set_score(&address, token, score);
                Ok(Response::new())
            },
        },
    }
}

/// Carries out a request that changes the registry. `validated` is the
/// address validator's answer on the address that the request names.
pub fn execute(
    registry: &mut Registry,
    info: MessageInfo,
    msg: ExecuteMsg,
    validated: Option<Addr>,
) -> (done: Result<Response, ContractError>)
    ensures
        match done {
            Ok(response) => {
                &&& set_score_verdict(old(registry)@.owner, info.sender@, canonical(validated)) is Ok
                &&& response@ == Seq::<(Seq<char>, Seq<char>)>::empty()
                &&& response.messages@.len() == 0
            },
            Err(error) => set_score_verdict(
                old(registry)@.owner,
                info.sender@,
                canonical(validated),
            ) == Err::<(), ContractError>(error),
        },
        final(registry)@ == after_set_score(
            old(registry)@,
            info.sender@,
            canonical(validated),
            msg->SetScore_token@,
            msg->SetScore_score,
        ),
{
    match msg {
        ExecuteMsg::SetScore { address: _, token, score } => try_set_score(
            registry,
            info,
            validated,
            token,
            score,
        ),
    }
}

/// What a read request is answered with.
pub open spec fn query_answer(
    registry: RegistryView,
    msg: QueryMsg,
    validated: Option<Seq<char>>,
) -> Result<Answer, ContractError> {
    match msg {
        QueryMsg::GetOwner {  } => Ok(Answer::Owner(registry.owner)),
        QueryMsg::GetScore { address, token } => match score_answer(registry, validated, token@) {
            Ok(score) => Ok(Answer::Score(score)),
            Err(error) => Err(error),
        },
    }
}

/// Answers a read request, from anybody, as a value. `validated` is the
/// address validator's answer on the address that the request names; a
/// request for the owner names none and does not look at it.
pub fn answer_query(registry: &Registry, msg: QueryMsg, validated: Option<Addr>) -> (answer: Result<
    QueryResponse,
    ContractError,
>)
    ensures
        match answer {
            Ok(response) => query_answer(registry@, msg, canonical(validated)) == Ok::<
                Answer,
                ContractError,
            >(response@),
            Err(error) => query_answer(registry@, msg, canonical(validated)) == Err::<
                Answer,
                ContractError,
            >(error),
        },
{
    match msg {
        QueryMsg::GetOwner {  } => Ok(QueryResponse::Owner(registry.state().owner.clone())),
        QueryMsg::GetScore { address: _, token } => match validated {
            None => Err(ContractError::InvalidAddress),
            Some(address) => match registry.scores().get_score(&address, token.as_str()) {
                Ok(score) => Ok(QueryResponse::Score(score)),
                Err(error) => Err(error),
            },
        },
    }
}

/// Answers a read request, from anybody, as JSON bytes. A request that the
/// registry refuses fails as `answer_query` says. One that it answers
/// succeeds with the bytes of that answer: a request for the owner always.
pub fn query(registry: &Registry, msg: QueryMsg, validated: Option<Addr>) -> (answer: Result<
    Vec<u8>,
    ContractError,
>)
    ensures
        match query_answer(registry@, msg, canonical(validated)) {
            Err(error) => answer == Err::<Vec<u8>, ContractError>(error),
            Ok(found) => answer is Ok && answer->Ok_0@ == encoded_answer(found),
        },
{
    match answer_query(registry, msg, validated) {
        Err(error) => Err(error),
        Ok(response) => encode_response(&response),
    }
}

} // verus!
