use vstd::prelude::*;
use crate::state::Addr;

verus! {

/// The request that makes a registry.
#[derive(Debug)]
pub struct InstantiateMsg {
    /// The owner, as the string that the caller wrote.
    pub owner: String,
}

/// A request that changes the registry. `address` is the string that the
/// caller wrote; what the address validator made of it is handed to the
/// entry point beside the request.
#[derive(Debug)]
pub enum ExecuteMsg {
    SetScore { address: String, token: String, score: i32 },
}

/// A request that reads the registry. `address` is the string that the
/// caller wrote, as in a request that writes.
#[derive(Debug)]
pub enum QueryMsg {
    GetOwner {  },
    GetScore { address: String, token: String },
}

/// An amount of one denomination.
#[derive(Debug)]
pub struct Coin {
    pub denom: String,
    pub amount: u128,
}

/// Who sent a request, and the funds that came with it. The registry looks
/// at the sender only.
#[derive(Debug)]
pub struct MessageInfo {
    pub sender: Addr,
    pub funds: Vec<Coin>,
}

/// What a read gives back.
#[derive(Debug)]
pub enum QueryResponse {
    Owner(Addr),
    Score(i32),
}

/// A read's answer as mathematics.
pub enum Answer {
    Owner(Seq<char>),
    Score(i32),
}

impl View for QueryResponse {
    type V = Answer;

    open spec fn view(&self) -> Answer {
        match *self {
            QueryResponse::Owner(owner) => Answer::Owner(owner@),
            QueryResponse::Score(score) => Answer::Score(score),
        }
    }
}

/// One key with its value, as an acknowledgement carries them.
#[derive(Debug)]
pub struct Attribute {
    pub key: String,
    pub value: String,
}

impl View for Attribute {
    type V = (Seq<char>, Seq<char>);

    open spec fn view(&self) -> (Seq<char>, Seq<char>) {
        (self.key@, self.value@)
    }
}

/// The acknowledgement of a request that succeeded: attributes that
/// describe what was done, and encoded messages for the host to pass on, of
/// which the registry sends none.
#[derive(Debug)]
pub struct Response {
    pub messages: Vec<Vec<u8>>,
    pub attributes: Vec<Attribute>,
}

impl View for Response {
    type V = Seq<(Seq<char>, Seq<char>)>;

    open spec fn view(&self) -> Seq<(Seq<char>, Seq<char>)> {
        self.attributes@.map_values(|attribute: Attribute| attribute@)
    }
}

impl Response {
    /// The empty acknowledgement.
    pub fn new() -> (response: Response)
        ensures
            response@ == Seq::<(Seq<char>, Seq<char>)>::empty(),
            response.messages@.len() == 0,
    {
        let response = Response { messages: Vec::new(), attributes: Vec::new() };
        assert(response@ =~= Seq::<(Seq<char>, Seq<char>)>::empty());
        response
    }

    /// The acknowledgement with one more attribute at its end.
    pub fn add_attribute(self, key: String, value: String) -> (response: Response)
        ensures
            response@ == self@.push((key@, value@)),
            response.messages == self.messages,
    {
        let mut attributes = self.attributes;
        attributes.push(Attribute { key, value });
        let response = Response { messages: self.messages, attributes };
        assert(response@ =~= self@.push((key@, value@)));
        response
    }
}

} // verus!
