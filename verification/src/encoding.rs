use vstd::prelude::*;
use crate::error::ContractError;
use crate::msg::{Answer, QueryResponse};
use crate::state::Addr;

verus! {

/// The error type of `cosmwasm_std`, carried through and never looked into.
#[verifier::external_type_specification]
#[verifier::external_body]
pub struct ExStdError(cosmwasm_std::StdError);

/// The JSON bytes that `cosmwasm_std::to_binary` gives for an address with
/// this canonical string.
pub uninterp spec fn json_of_address(text: Seq<char>) -> Seq<u8>;

/// The decimal digits of `n` in ASCII, without leading zeros.
pub open spec fn decimal_digits(n: nat) -> Seq<u8>
    decreases n,
{
    if n < 10 {
        seq![(48 + n) as u8]
    } else {
        decimal_digits(n / 10).push((48 + n % 10) as u8)
    }
}

/// A score as a JSON number: a minus sign where it is negative, then the
/// decimal digits of its magnitude.
pub open spec fn json_of_score(score: i32) -> Seq<u8> {
    if score < 0 {
        seq![45u8] + decimal_digits((-score) as nat)
    } else {
        decimal_digits(score as nat)
    }
}

/// The bytes that stand for an answer.
pub open spec fn encoded_answer(answer: Answer) -> Seq<u8> {
    match answer {
        Answer::Owner(owner) => json_of_address(owner),
        Answer::Score(score) => json_of_score(score),
    }
}

/// Calls `cosmwasm_std::to_binary` on a `cosmwasm_std::Addr` that holds the
/// canonical string of `owner`. Not proved: that it succeeds on every
/// string, its serializer of strings having no failing path, and that the
/// bytes it gives depend on that string alone.
#[verifier::external_body]
fn address_to_binary(owner: &Addr) -> (encoded: Result<Vec<u8>, cosmwasm_std::StdError>)
    ensures
        encoded is Ok,
        encoded->Ok_0@ == json_of_address(owner@),
{
    match cosmwasm_std::to_binary(&cosmwasm_std::Addr::unchecked(owner.as_str())) {
        Ok(binary) => Ok(binary.0),
        Err(error) => Err(error),
    }
}

/// Calls `cosmwasm_std::to_binary` on an `i32`. Not proved: that it
/// succeeds on every number, its serializer of integers having no failing
/// path, and that the bytes it gives are the number in decimal, with a minus
/// sign in front where it is negative.
#[verifier::external_body]
fn score_to_binary(score: i32) -> (encoded: Result<Vec<u8>, cosmwasm_std::StdError>)
    ensures
        encoded is Ok,
        encoded->Ok_0@ == json_of_score(score),
{
    match cosmwasm_std::to_binary(&score) {
        Ok(binary) => Ok(binary.0),
        Err(error) => Err(error),
    }
}

/// Turns what the encoder gave into the library's result: its bytes as they
/// are, and any failure of it into `Encoding`.
pub fn finish_encoding(encoded: Result<Vec<u8>, cosmwasm_std::StdError>) -> (bytes: Result<
    Vec<u8>,
    ContractError,
>)
    ensures
        match encoded {
            Ok(given) => bytes == Ok::<Vec<u8>, ContractError>(given),
            Err(_) => bytes == Err::<Vec<u8>, ContractError>(ContractError::Encoding),
        },
{
    match encoded {
        Ok(given) => Ok(given),
        Err(_) => Err(ContractError::Encoding),
    }
}

/// Encodes an answer as JSON. Every answer has its bytes: this does not
/// fail.
pub fn encode_response(response: &QueryResponse) -> (bytes: Result<Vec<u8>, ContractError>)
    ensures
        bytes is Ok,
        bytes->Ok_0@ == encoded_answer(response@),
{
    match response {
        QueryResponse::Owner(owner) => finish_encoding(address_to_binary(owner)),
        QueryResponse::Score(score) => finish_encoding(score_to_binary(*score)),
    }
}

} // verus!
