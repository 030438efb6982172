use kujira_std::callback::{CallbackData, CallbackMsg};
use kujira_std::Coin;

#[test]
fn round_trips_payload_and_correlation() {
    let payload: Vec<u8> = vec![1, 2, 3, 250];
    let correlation: Vec<u8> = vec![9, 8, 7];
    let envelope = CallbackMsg::new(payload.clone(), CallbackData(correlation.clone()));
    let (out_payload, out_correlation) = envelope.deserialize();
    assert_eq!(out_payload, payload);
    assert_eq!(out_correlation, correlation);
}

#[test]
fn round_trips_empty_bytes() {
    let envelope = CallbackMsg::new(Vec::new(), CallbackData(Vec::new()));
    let (payload, correlation) = envelope.deserialize();
    assert!(payload.is_empty());
    assert!(correlation.is_empty());
}

#[test]
fn partial_extraction_matches_full_extraction() {
    let envelope = CallbackMsg::new(vec![4, 5], CallbackData(vec![6]));
    assert_eq!(envelope.deserialize_data(), vec![4, 5]);
    assert_eq!(envelope.deserialize_callback(), vec![6]);
    let (payload, correlation) = envelope.deserialize();
    assert_eq!(payload, vec![4, 5]);
    assert_eq!(correlation, vec![6]);
}

#[test]
fn envelope_without_payload_carries_the_empty_marker() {
    let envelope = CallbackMsg::new_without_data(CallbackData(vec![1]));
    assert_eq!(envelope.data, b"{}".to_vec());
    // the marker is exactly what the host's codec produces for an empty record
    let host_bytes = cosmwasm_std::to_json_vec(&cosmwasm_std::Empty {}).unwrap();
    assert_eq!(envelope.data, host_bytes);
    assert_eq!(envelope.deserialize_callback(), vec![1]);
}

#[test]
fn correlation_token_unwraps_to_its_bytes() {
    let token = CallbackData(vec![11, 22]);
    assert_eq!(token.into_binary(), vec![11, 22]);
    let token = CallbackData::from(vec![33]);
    assert_eq!(token.0, vec![33]);
}

#[test]
fn correlation_token_clone_keeps_the_bytes() {
    let token = CallbackData(vec![1, 2, 3]);
    let copy = token.clone();
    assert_eq!(copy.into_binary(), token.into_binary());
}

#[test]
fn to_message_addresses_the_receiver_and_keeps_all_parts() {
    let token = CallbackData(vec![7, 7]);
    let funds = vec![Coin { denom: "ukuji".to_string(), amount: 1000 }];
    let out = token.to_message("receiver".to_string(), vec![1, 2], funds);
    assert_eq!(out.contract_addr, "receiver");
    assert_eq!(out.envelope.data, vec![1, 2]);
    assert_eq!(out.envelope.callback.0, vec![7, 7]);
    assert_eq!(out.funds.len(), 1);
    assert_eq!(out.funds[0].denom, "ukuji");
    assert_eq!(out.funds[0].amount, 1000);
    // building the message did not consume the caller's token
    assert_eq!(token.into_binary(), vec![7, 7]);
}
