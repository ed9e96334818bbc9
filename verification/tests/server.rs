use serde_json::Value;
use ton_gql::client::GraphQLMessageFromClient;
use ton_gql::error::ClientError;
use ton_gql::server::GraphQLMessageFromServer;

fn json(text: &str) -> Value {
    serde_json::from_str(text).unwrap()
}

fn parse(text: &str) -> GraphQLMessageFromServer {
    GraphQLMessageFromServer::parse(text).unwrap()
}

fn rejected_text(text: &str) -> String {
    match GraphQLMessageFromServer::parse(text) {
        Ok(message) => panic!("read as {:?}", message),
        Err(ClientError::InvalidServerResponse { text }) => text,
    }
}

#[test]
fn decode_connection_error() {
    match parse(r#"{"type":"connection_error","payload":{"message":"denied"}}"#) {
        GraphQLMessageFromServer::ConnectionError { error } => {
            assert_eq!(error, json(r#"{"message":"denied"}"#));
        }
        other => panic!("read as {:?}", other),
    }
}

#[test]
fn decode_connection_error_without_payload() {
    match parse(r#"{"type":"connection_error"}"#) {
        GraphQLMessageFromServer::ConnectionError { error } => assert_eq!(error, Value::Null),
        other => panic!("read as {:?}", other),
    }
}

#[test]
fn decode_connection_ack() {
    assert!(matches!(
        parse(r#"{"type":"connection_ack"}"#),
        GraphQLMessageFromServer::ConnectionAck
    ));
    assert!(matches!(
        parse(r#"{"type":"connection_ack","id":"1","payload":{}}"#),
        GraphQLMessageFromServer::ConnectionAck
    ));
}

#[test]
fn decode_keep_alive() {
    assert!(matches!(parse(r#"{"type":"ka"}"#), GraphQLMessageFromServer::ConnectionKeepAlive));
}

#[test]
fn decode_data_with_null_errors() {
    match parse(r#"{"type":"data","id":"7","payload":{"data":{"messages":[]},"errors":null}}"#) {
        GraphQLMessageFromServer::Data { id, data, errors } => {
            assert_eq!(id, "7");
            assert_eq!(data, json(r#"{"messages":[]}"#));
            assert_eq!(errors, None);
        }
        other => panic!("read as {:?}", other),
    }
}

#[test]
fn decode_data_with_errors_in_their_order() {
    match parse(
        r#"{"type":"data","id":"7","payload":{"data":null,"errors":[{"message":"a"},"b",3]}}"#,
    ) {
        GraphQLMessageFromServer::Data { id, data, errors } => {
            assert_eq!(id, "7");
            assert_eq!(data, Value::Null);
            assert_eq!(
                errors,
                Some(vec![json(r#"{"message":"a"}"#), json(r#""b""#), json("3")])
            );
        }
        other => panic!("read as {:?}", other),
    }
}

#[test]
fn decode_data_with_empty_errors() {
    match parse(r#"{"type":"data","id":"7","payload":{"data":1,"errors":[]}}"#) {
        GraphQLMessageFromServer::Data { errors, .. } => assert_eq!(errors, Some(vec![])),
        other => panic!("read as {:?}", other),
    }
}

#[test]
fn decode_data_with_errors_of_another_shape() {
    for errors in [r#"{"message":"a"}"#, r#""text""#, "5", "true"] {
        let text = format!(r#"{{"type":"data","id":"1","payload":{{"data":1,"errors":{}}}}}"#, errors);
        match parse(&text) {
            GraphQLMessageFromServer::Data { errors, .. } => assert_eq!(errors, None),
            other => panic!("read as {:?}", other),
        }
    }
}

#[test]
fn decode_data_without_anything() {
    match parse(r#"{"type":"data"}"#) {
        GraphQLMessageFromServer::Data { id, data, errors } => {
            assert_eq!(id, "");
            assert_eq!(data, Value::Null);
            assert_eq!(errors, None);
        }
        other => panic!("read as {:?}", other),
    }
}

#[test]
fn decode_data_with_a_payload_that_is_no_object() {
    match parse(r#"{"type":"data","id":"1","payload":[1,2]}"#) {
        GraphQLMessageFromServer::Data { id, data, errors } => {
            assert_eq!(id, "1");
            assert_eq!(data, Value::Null);
            assert_eq!(errors, None);
        }
        other => panic!("read as {:?}", other),
    }
}

#[test]
fn decode_error() {
    match parse(r#"{"type":"error","id":"3","payload":{"message":"bad query"}}"#) {
        GraphQLMessageFromServer::Error { id, error } => {
            assert_eq!(id, "3");
            assert_eq!(error, json(r#"{"message":"bad query"}"#));
        }
        other => panic!("read as {:?}", other),
    }
}

#[test]
fn decode_error_without_id_and_payload() {
    match parse(r#"{"type":"error"}"#) {
        GraphQLMessageFromServer::Error { id, error } => {
            assert_eq!(id, "");
            assert_eq!(error, Value::Null);
        }
        other => panic!("read as {:?}", other),
    }
}

#[test]
fn decode_complete() {
    match parse(r#"{"type":"complete","id":"9"}"#) {
        GraphQLMessageFromServer::Complete { id } => assert_eq!(id, "9"),
        other => panic!("read as {:?}", other),
    }
}

#[test]
fn decode_takes_an_id_that_is_no_string_as_empty() {
    match parse(r#"{"type":"complete","id":9}"#) {
        GraphQLMessageFromServer::Complete { id } => assert_eq!(id, ""),
        other => panic!("read as {:?}", other),
    }
    match parse(r#"{"type":"complete"}"#) {
        GraphQLMessageFromServer::Complete { id } => assert_eq!(id, ""),
        other => panic!("read as {:?}", other),
    }
}

#[test]
fn decode_rejects_an_unknown_tag() {
    assert_eq!(rejected_text(r#"{"type":"unknown"}"#), r#"{"type":"unknown"}"#);
}

#[test]
fn decode_rejects_text_that_is_no_json() {
    assert_eq!(rejected_text("not json"), "not json");
    assert_eq!(rejected_text(""), "");
    assert_eq!(rejected_text(r#"{"type":"data""#), r#"{"type":"data""#);
    assert_eq!(rejected_text(r#"{"type":"ka"} x"#), r#"{"type":"ka"} x"#);
}

#[test]
fn decode_rejects_a_missing_or_odd_tag() {
    for text in [
        "{}",
        r#"{"id":"1"}"#,
        r#"{"type":""}"#,
        r#"{"type":null}"#,
        r#"{"type":5}"#,
        r#"{"type":["data"]}"#,
        r#"{"type":"Data"}"#,
        r#"{"type":"data "}"#,
        r#"{"type":"k"}"#,
        r#"{"type":"kaa"}"#,
        r#"{"Type":"data"}"#,
        "null",
        "5",
        r#""data""#,
        r#"["data"]"#,
    ] {
        assert_eq!(rejected_text(text), text);
    }
}

#[test]
fn decode_rejects_the_tags_of_the_client() {
    for text in [
        r#"{"type":"connection_init","payload":{}}"#,
        r#"{"type":"connection_terminate"}"#,
        r#"{"type":"start","id":"1","payload":{"query":"{ q }"}}"#,
        r#"{"type":"stop","id":"1"}"#,
    ] {
        assert_eq!(rejected_text(text), text);
    }
}

#[test]
fn an_encoded_start_is_not_decoded() {
    let message = GraphQLMessageFromClient::Start {
        id: "1".to_string(),
        query: "{ q }".to_string(),
        variables: None,
        operation_name: None,
    };
    let text = message.get_message();
    assert_eq!(rejected_text(&text), text);
}

#[test]
fn from_value_reads_each_tag() {
    let read = |text: &str| GraphQLMessageFromServer::from_value(&json(text));
    assert!(matches!(
        read(r#"{"type":"connection_error"}"#),
        Some(GraphQLMessageFromServer::ConnectionError { .. })
    ));
    assert!(matches!(
        read(r#"{"type":"connection_ack"}"#),
        Some(GraphQLMessageFromServer::ConnectionAck)
    ));
    assert!(matches!(read(r#"{"type":"ka"}"#), Some(GraphQLMessageFromServer::ConnectionKeepAlive)));
    assert!(matches!(read(r#"{"type":"data"}"#), Some(GraphQLMessageFromServer::Data { .. })));
    assert!(matches!(read(r#"{"type":"error"}"#), Some(GraphQLMessageFromServer::Error { .. })));
    assert!(matches!(
        read(r#"{"type":"complete"}"#),
        Some(GraphQLMessageFromServer::Complete { .. })
    ));
    assert!(read(r#"{"type":"start"}"#).is_none());
    assert!(read("[]").is_none());
}

#[test]
fn the_last_of_two_equal_keys_counts() {
    match parse(r#"{"type":"ka","type":"complete","id":"1","id":"2"}"#) {
        GraphQLMessageFromServer::Complete { id } => assert_eq!(id, "2"),
        other => panic!("read as {:?}", other),
    }
}

#[test]
fn invalid_server_response_carries_the_text() {
    match ClientError::invalid_server_response("some text") {
        ClientError::InvalidServerResponse { text } => assert_eq!(text, "some text"),
    }
}
