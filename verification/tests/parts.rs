use cosmwasm_std::StdError;
use score_registry::encoding::{encode_response, finish_encoding};
use score_registry::error::ContractError;
use score_registry::guard::authorize;
use score_registry::msg::{QueryResponse, Response};
use score_registry::scores::{merge_score, ScoreRecord, ScoreTable};
use score_registry::state::{Addr, Registry, State};

fn addr(text: &str) -> Addr {
    Addr::unchecked(text.to_string())
}

#[test]
fn owner_is_authorized() {
    assert_eq!(Ok(()), authorize(&addr("creator"), &addr("creator")));
}

#[test]
fn anybody_else_is_not() {
    assert_eq!(Err(ContractError::Unauthorized), authorize(&addr("creato"), &addr("creator")));
    assert_eq!(Err(ContractError::Unauthorized), authorize(&addr(""), &addr("creator")));
    assert_eq!(Err(ContractError::Unauthorized), authorize(&addr("Creator"), &addr("creator")));
}

#[test]
fn addresses_compare_by_their_string() {
    assert!(addr("address_1") == addr("address_1"));
    assert!(addr("address_1") != addr("address_2"));
    let first = addr("address_1");
    assert!(first.clone() == first);
    assert_eq!("address_1", first.as_str());
    assert_eq!("address_1".to_string(), first.into_string());
}

#[test]
fn state_clone_keeps_the_owner() {
    let state = State { owner: addr("creator") };
    assert_eq!("creator", state.clone().owner.as_str());
}

#[test]
fn error_messages() {
    assert_eq!("Unauthorized", ContractError::Unauthorized.message());
    assert_eq!("invalid address", ContractError::InvalidAddress.message());
    assert_eq!("not found", ContractError::NotFound.message());
    assert_eq!("invalid token", ContractError::InvalidKey.message());
    assert_eq!("serialization failed", ContractError::Encoding.message());
}

#[test]
fn single_record_has_one_entry() {
    let record = ScoreRecord::single("Mirror".to_string(), 30);
    assert_eq!(1, record.len());
    assert_eq!(Some(30), record.get("Mirror"));
    assert_eq!(None, record.get("Anchor"));
    assert_eq!(&vec!["Mirror".to_string()], record.tokens());
}

#[test]
fn put_merges_and_overwrites() {
    let mut record = ScoreRecord::single("Mirror".to_string(), 30);
    record.put("Anchor".to_string(), 7);
    record.put("Mirror".to_string(), 31);
    assert_eq!(2, record.len());
    assert_eq!(Some(31), record.get("Mirror"));
    assert_eq!(Some(7), record.get("Anchor"));
    let mut tokens = record.tokens().clone();
    tokens.sort();
    assert_eq!(vec!["Anchor".to_string(), "Mirror".to_string()], tokens);
}

#[test]
fn empty_table_has_no_record() {
    let table = ScoreTable::new();
    assert!(!table.has(&addr("address_1")));
    assert!(table.record(&addr("address_1")).is_none());
    assert_eq!(Err(ContractError::NotFound), table.get_score(&addr("address_1"), "Mirror"));
}

#[test]
fn table_keeps_addresses_apart() {
    let mut table = ScoreTable::new();
    table.set_score(&addr("address_1"), "Mirror".to_string(), 30);
    table.set_score(&addr("address_2"), "Mirror".to_string(), 50);
    table.set_score(&addr("address_1"), "Anchor".to_string(), 1);
    table.set_score(&addr("address_2"), "Mirror".to_string(), 51);
    assert!(table.has(&addr("address_1")));
    assert_eq!(Ok(30), table.get_score(&addr("address_1"), "Mirror"));
    assert_eq!(Ok(1), table.get_score(&addr("address_1"), "Anchor"));
    assert_eq!(Ok(51), table.get_score(&addr("address_2"), "Mirror"));
    assert_eq!(Err(ContractError::InvalidKey), table.get_score(&addr("address_2"), "Anchor"));
    assert_eq!(Err(ContractError::NotFound), table.get_score(&addr("address_3"), "Mirror"));
    assert_eq!(2, table.record(&addr("address_1")).unwrap().len());
    assert_eq!(1, table.record(&addr("address_2")).unwrap().len());
}

#[test]
fn registry_write_keeps_the_owner() {
    let mut registry = Registry::new(addr("creator"));
    registry.set_score(&addr("address_1"), "Mirror".to_string(), 30);
    assert_eq!("creator", registry.state().owner.as_str());
    assert_eq!(Ok(30), registry.scores().get_score(&addr("address_1"), "Mirror"));
}

#[test]
fn response_collects_attributes_in_order() {
    let response = Response::new()
        .add_attribute("first".to_string(), "1".to_string())
        .add_attribute("second".to_string(), "2".to_string());
    assert_eq!(2, response.attributes.len());
    assert_eq!("first", response.attributes[0].key);
    assert_eq!("2", response.attributes[1].value);
    assert!(response.messages.is_empty());
}

#[test]
fn encoding_escapes_what_json_must() {
    let owner = QueryResponse::Owner(addr("a\"b"));
    assert_eq!(Ok(b"\"a\\\"b\"".to_vec()), encode_response(&owner));
    assert_eq!(Ok(b"0".to_vec()), encode_response(&QueryResponse::Score(0)));
    assert_eq!(Ok(b"30".to_vec()), encode_response(&QueryResponse::Score(30)));
    assert_eq!(Ok(b"-9".to_vec()), encode_response(&QueryResponse::Score(-9)));
    assert_eq!(Ok(b"100".to_vec()), encode_response(&QueryResponse::Score(100)));
    assert_eq!(
        Ok(b"2147483647".to_vec()),
        encode_response(&QueryResponse::Score(i32::MAX))
    );
    assert_eq!(
        Ok(b"-2147483648".to_vec()),
        encode_response(&QueryResponse::Score(i32::MIN))
    );
}

#[test]
fn encoder_failure_becomes_encoding() {
    let failed = finish_encoding(Err(StdError::generic_err("broken")));
    assert_eq!(Err(ContractError::Encoding), failed);
    assert_eq!(Ok(vec![1u8, 2, 3]), finish_encoding(Ok(vec![1u8, 2, 3])));
}

#[test]
fn merge_score_makes_or_merges() {
    let made = merge_score(None, "Mirror".to_string(), 30);
    assert_eq!(1, made.len());
    assert_eq!(Some(30), made.get("Mirror"));
    let merged = merge_score(Some(made), "Anchor".to_string(), 5);
    assert_eq!(2, merged.len());
    assert_eq!(Some(30), merged.get("Mirror"));
    assert_eq!(Some(5), merged.get("Anchor"));
    let replaced = merge_score(Some(merged), "Mirror".to_string(), -1);
    assert_eq!(2, replaced.len());
    assert_eq!(Some(-1), replaced.get("Mirror"));
}
