use serde_json::Value;
use ton_gql::client::GraphQLMessageFromClient;

fn json(text: &str) -> Value {
    serde_json::from_str(text).unwrap()
}

fn start(variables: Option<Value>, operation_name: Option<&str>) -> GraphQLMessageFromClient {
    GraphQLMessageFromClient::Start {
        id: "1".to_string(),
        query: "{ q }".to_string(),
        variables,
        operation_name: operation_name.map(|name| name.to_string()),
    }
}

#[test]
fn connection_init_carries_the_params_as_payload() {
    let message = GraphQLMessageFromClient::ConnectionInit {
        connection_params: json(r#"{"accessKey":"k","n":[1,2.5,null,true]}"#),
    };
    assert_eq!(
        json(&message.get_message()),
        json(r#"{"type":"connection_init","payload":{"accessKey":"k","n":[1,2.5,null,true]}}"#)
    );
}

#[test]
fn connection_init_with_null_params_has_a_null_payload() {
    let message = GraphQLMessageFromClient::ConnectionInit { connection_params: Value::Null };
    assert_eq!(message.get_message(), r#"{"payload":null,"type":"connection_init"}"#);
}

#[test]
fn connection_terminate_has_the_tag_only() {
    let message = GraphQLMessageFromClient::ConnectionTerminate;
    assert_eq!(message.get_message(), r#"{"type":"connection_terminate"}"#);
}

#[test]
fn stop_has_tag_and_id() {
    let message = GraphQLMessageFromClient::Stop { id: "42".to_string() };
    assert_eq!(json(&message.get_message()), json(r#"{"type":"stop","id":"42"}"#));
    assert_eq!(message.get_message(), r#"{"id":"42","type":"stop"}"#);
}

#[test]
fn start_without_variables_and_name_leaves_both_keys_out() {
    let text = start(None, None).get_message();
    assert_eq!(text, r#"{"id":"1","payload":{"query":"{ q }"},"type":"start"}"#);
    let value = json(&text);
    let payload = value["payload"].as_object().unwrap();
    assert_eq!(payload.len(), 1);
    assert!(!payload.contains_key("variables"));
    assert!(!payload.contains_key("operationName"));
}

#[test]
fn start_with_null_variables_keeps_the_key() {
    let value = json(&start(Some(Value::Null), None).get_message());
    let payload = value["payload"].as_object().unwrap();
    assert!(payload.contains_key("variables"));
    assert_eq!(payload["variables"], Value::Null);
    assert!(!payload.contains_key("operationName"));
}

#[test]
fn start_with_variables_and_name_has_both() {
    let message = start(Some(json(r#"{"filter":{"id":{"eq":"x"}}}"#)), Some("messages"));
    assert_eq!(
        json(&message.get_message()),
        json(
            r#"{"type":"start","id":"1","payload":{"query":"{ q }",
                "variables":{"filter":{"id":{"eq":"x"}}},"operationName":"messages"}}"#
        )
    );
}

#[test]
fn start_with_name_only_has_no_variables() {
    let value = json(&start(None, Some("op")).get_message());
    let payload = value["payload"].as_object().unwrap();
    assert_eq!(payload.len(), 2);
    assert_eq!(payload["operationName"], Value::String("op".to_string()));
}

#[test]
fn envelope_is_what_get_message_writes() {
    let messages = vec![
        GraphQLMessageFromClient::ConnectionInit { connection_params: json(r#"{"a":1}"#) },
        GraphQLMessageFromClient::ConnectionTerminate,
        start(Some(json("[1]")), Some("n")),
        GraphQLMessageFromClient::Stop { id: "7".to_string() },
    ];
    for message in &messages {
        assert_eq!(message.envelope().to_string(), message.get_message());
        assert_eq!(json(&message.get_message()), message.envelope());
    }
}

#[test]
fn every_client_tag_is_one_of_four() {
    let tags: Vec<String> = vec![
        GraphQLMessageFromClient::ConnectionInit { connection_params: Value::Null },
        GraphQLMessageFromClient::ConnectionTerminate,
        start(None, None),
        GraphQLMessageFromClient::Stop { id: "1".to_string() },
    ]
    .iter()
    .map(|message| message.envelope()["type"].as_str().unwrap().to_string())
    .collect();
    assert_eq!(tags, vec!["connection_init", "connection_terminate", "start", "stop"]);
}

#[test]
fn strings_are_escaped_by_the_serialiser() {
    let message = GraphQLMessageFromClient::Stop { id: "a\"b\\c\n".to_string() };
    assert_eq!(message.get_message(), r#"{"id":"a\"b\\c\n","type":"stop"}"#);
}
