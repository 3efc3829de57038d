use vstd::prelude::*;
use crate::contract::{after_set_score, query_answer, score_answer, set_score_verdict};
use crate::error::ContractError;
use crate::msg::{Answer, QueryMsg};
use crate::state::{fresh_registry, RegistryView};

verus! {

/// A registry made for an owner answers a request for the owner with exactly
/// that owner, whatever the validator is handed along with the request.
pub proof fn owner_is_read_back(owner: Seq<char>, validated: Option<Seq<char>>)
    ensures
        query_answer(fresh_registry(owner), QueryMsg::GetOwner {  }, validated) == Ok::<
            Answer,
            ContractError,
        >(Answer::Owner(owner)),
{
}

/// A request for the owner is answered in every registry, with its owner,
/// whatever the validator is handed along with the request.
pub proof fn owner_lookup_always_answers(registry: RegistryView, validated: Option<Seq<char>>)
    ensures
        query_answer(registry, QueryMsg::GetOwner {  }, validated) == Ok::<Answer, ContractError>(
            Answer::Owner(registry.owner),
        ),
{
}

/// No request to write changes the owner, whether it is let through or not.
pub proof fn owner_never_changes(
    registry: RegistryView,
    sender: Seq<char>,
    validated: Option<Seq<char>>,
    token: Seq<char>,
    score: i32,
)
    ensures
        after_set_score(registry, sender, validated, token, score).owner == registry.owner,
        query_answer(
            after_set_score(registry, sender, validated, token, score),
            QueryMsg::GetOwner {  },
            validated,
        ) == query_answer(registry, QueryMsg::GetOwner {  }, validated),
{
}

/// An address that has no record reads as `NotFound` under every token, and
/// in a registry that was just made no address has one.
pub proof fn unwritten_address_is_not_found(
    registry: RegistryView,
    owner: Seq<char>,
    address: Seq<char>,
    token: Seq<char>,
)
    ensures
        !registry.scores.contains_key(address) ==> score_answer(registry, Some(address), token)
            == Err::<i32, ContractError>(ContractError::NotFound),
        score_answer(fresh_registry(owner), Some(address), token) == Err::<i32, ContractError>(
            ContractError::NotFound,
        ),
{
}

/// A record appears only by a write that targets its address: a request to
/// write for another address, or one that is refused, gives `address` no
/// record, and takes none away.
pub proof fn records_come_from_writes(
    registry: RegistryView,
    sender: Seq<char>,
    validated: Option<Seq<char>>,
    token: Seq<char>,
    score: i32,
    address: Seq<char>,
)
    requires
        validated != Some(address) || set_score_verdict(registry.owner, sender, validated) is Err,
    ensures
        after_set_score(registry, sender, validated, token, score).scores.contains_key(address)
            == registry.scores.contains_key(address),
{
}

/// Two writes by the owner for one address under two different tokens: both
/// scores are read back. The second write merges and does not replace.
pub proof fn merge_keeps_other_token(
    registry: RegistryView,
    address: Seq<char>,
    first_token: Seq<char>,
    second_token: Seq<char>,
    first_score: i32,
    second_score: i32,
)
    requires
        first_token != second_token,
    ensures
        ({
            let once = after_set_score(
                registry,
                registry.owner,
                Some(address),
                first_token,
                first_score,
            );
            let twice = after_set_score(
                once,
                registry.owner,
                Some(address),
                second_token,
                second_score,
            );
            &&& score_answer(twice, Some(address), first_token) == Ok::<i32, ContractError>(
                first_score,
            )
            &&& score_answer(twice, Some(address), second_token) == Ok::<i32, ContractError>(
                second_score,
            )
        }),
{
}

/// Two writes by the owner for one address under one token: the later score
/// is read back. With a single token per address this is a plain
/// last-write-wins store.
pub proof fn last_write_wins(
    registry: RegistryView,
    address: Seq<char>,
    token: Seq<char>,
    first_score: i32,
    second_score: i32,
)
    ensures
        ({
            let once = after_set_score(registry, registry.owner, Some(address), token, first_score);
            let twice = after_set_score(once, registry.owner, Some(address), token, second_score);
            score_answer(twice, Some(address), token) == Ok::<i32, ContractError>(second_score)
        }),
{
}

/// A write by the owner is read back at once, and changes the answer of no
/// other read: not for another address, not for another token of the same
/// address where that address had a record.
pub proof fn write_touches_one_entry(
    registry: RegistryView,
    address: Seq<char>,
    token: Seq<char>,
    score: i32,
    other_address: Seq<char>,
    other_token: Seq<char>,
)
    ensures
        ({
            let after = after_set_score(registry, registry.owner, Some(address), token, score);
            &&& score_answer(after, Some(address), token) == Ok::<i32, ContractError>(score)
            &&& other_address != address ==> score_answer(after, Some(other_address), other_token)
                == score_answer(registry, Some(other_address), other_token)
            &&& other_token != token && registry.scores.contains_key(address) ==> score_answer(
                after,
                Some(address),
                other_token,
            ) == score_answer(registry, Some(address), other_token)
        }),
{
}

/// An address that has a record, but none for the token asked, reads as
/// `InvalidKey` and not as `NotFound`. So does, after a first write to an
/// address, every token but the one written.
pub proof fn missing_token_is_invalid_key(
    registry: RegistryView,
    address: Seq<char>,
    token: Seq<char>,
    written_token: Seq<char>,
    score: i32,
)
    ensures
        registry.scores.contains_key(address) && !registry.scores[address].contains_key(token)
            ==> score_answer(registry, Some(address), token) == Err::<i32, ContractError>(
            ContractError::InvalidKey,
        ),
        !registry.scores.contains_key(address) && token != written_token ==> score_answer(
            after_set_score(registry, registry.owner, Some(address), written_token, score),
            Some(address),
            token,
        ) == Err::<i32, ContractError>(ContractError::InvalidKey),
{
}

/// A request to write from anybody but the owner fails with `Unauthorized`,
/// whatever the validator says of the address, and leaves the registry as it
/// was.
pub proof fn stranger_changes_nothing(
    registry: RegistryView,
    sender: Seq<char>,
    validated: Option<Seq<char>>,
    token: Seq<char>,
    score: i32,
)
    requires
        sender != registry.owner,
    ensures
        set_score_verdict(registry.owner, sender, validated) == Err::<(), ContractError>(
            ContractError::Unauthorized,
        ),
        after_set_score(registry, sender, validated, token, score) == registry,
{
}

/// A request to write that fails, for either reason, leaves the registry as
/// it was; one from the owner for an address that the validator accepted
/// succeeds.
pub proof fn refusal_writes_nothing(
    registry: RegistryView,
    sender: Seq<char>,
    validated: Option<Seq<char>>,
    token: Seq<char>,
    score: i32,
)
    ensures
        set_score_verdict(registry.owner, sender, validated) is Err ==> after_set_score(
            registry,
            sender,
            validated,
            token,
            score,
        ) == registry,
        sender == registry.owner && validated is Some ==> set_score_verdict(
            registry.owner,
            sender,
            validated,
        ) is Ok,
{
}

/// One request to write, as the registry sees it: who asks, what the
/// validator made of the address, and the score to put under the token.
pub struct WriteRequest {
    pub sender: Seq<char>,
    pub validated: Option<Seq<char>>,
    pub token: Seq<char>,
    pub score: i32,
}

/// The registry after a run of requests to write, taken in their order.
pub open spec fn after_requests(start: RegistryView, requests: Seq<WriteRequest>) -> RegistryView
    decreases requests.len(),
{
    if requests.len() == 0 {
        start
    } else {
        let last = requests.last();
        after_set_score(
            after_requests(start, requests.drop_last()),
            last.sender,
            last.validated,
            last.token,
            last.score,
        )
    }
}

/// Whether `request` is one that a registry owned by `owner` lets through
/// and that targets `address`.
pub open spec fn writes_to(owner: Seq<char>, request: WriteRequest, address: Seq<char>) -> bool {
    request.sender == owner && request.validated == Some(address)
}

/// What holds of every registry that can be reached: whatever requests came
/// since it was made, the owner is the one it was made for; an address has a
/// record exactly if some request that was let through targeted it; and a
/// record is never empty.
pub proof fn reachable_registry(owner: Seq<char>, requests: Seq<WriteRequest>, address: Seq<char>)
    ensures
        after_requests(fresh_registry(owner), requests).owner == owner,
        after_requests(fresh_registry(owner), requests).scores.contains_key(address) <==> exists|
            i: int,
        |
            0 <= i < requests.len() && writes_to(owner, #[trigger] requests[i], address),
        after_requests(fresh_registry(owner), requests).scores.contains_key(address) ==> exists|
            token: Seq<char>,
        | #[trigger]
            after_requests(fresh_registry(owner), requests).scores[address].contains_key(token),
    decreases requests.len(),
{
    if requests.len() > 0 {
        let earlier = requests.drop_last();
        let last = requests.last();
        let before = after_requests(fresh_registry(owner), earlier);
        let after = after_requests(fresh_registry(owner), requests);
        reachable_registry(owner, earlier, address);
        if before.scores.contains_key(address) {
            let i = choose|i: int|
                0 <= i < earlier.len() && writes_to(owner, #[trigger] earlier[i], address);
            assert(writes_to(owner, requests[i], address));
            let token = choose|token: Seq<char>| #[trigger]
                before.scores[address].contains_key(token);
            assert(after.scores[address].contains_key(token));
        }
        if writes_to(owner, last, address) {
            assert(writes_to(owner, requests[requests.len() - 1], address));
            assert(after.scores[address].contains_key(last.token));
        }
        if exists|i: int| 0 <= i < requests.len() && writes_to(owner, #[trigger] requests[i], address) {
            let i = choose|i: int|
                0 <= i < requests.len() && writes_to(owner, #[trigger] requests[i], address);
            if i < earlier.len() {
                assert(writes_to(owner, earlier[i], address));
            }
        }
    }
}

/// Requests from strangers count for nothing: a run of requests leaves the
/// registry that the same run leaves with one request of a stranger put at
/// its end.
pub proof fn stranger_request_is_void(
    start: RegistryView,
    requests: Seq<WriteRequest>,
    intruder: WriteRequest,
)
    requires
        intruder.sender != start.owner,
    ensures
        after_requests(start, requests.push(intruder)) == after_requests(start, requests),
{
    owner_stays_over_requests(start, requests);
    assert(requests.push(intruder).drop_last() =~= requests);
}

/// A run of requests to write never changes the owner.
pub proof fn owner_stays_over_requests(start: RegistryView, requests: Seq<WriteRequest>)
    ensures
        after_requests(start, requests).owner == start.owner,
    decreases requests.len(),
{
    if requests.len() > 0 {
        owner_stays_over_requests(start, requests.drop_last());
    }
}

} // verus!
